//! Cutting a file into the chunks in which it is uploaded.
//!
//! Every file, whatever its size, is sent as a sequence of chunks of a fixed
//! size; only the last one may be shorter. An empty file is sent as a single
//! empty chunk, so that the remote side learns of it.

use vstd::prelude::*;

verus! {

/// The chunk size used when none is configured: 90 MiB.
pub const DEFAULT_CHUNK_SIZE: u64 = 94_371_840;

/// One contiguous byte range of a file, sent as one request.
#[derive(Clone, Copy, Debug, PartialEq, Eq, Structural)]
pub struct ChunkDescriptor {
    /// Position of the owning file in the enumerated file list.
    pub file: usize,
    /// Zero-based position of this chunk among the chunks of its file.
    pub index: u64,
    /// Number of chunks of the owning file.
    pub total_chunks: u64,
    /// Offset of the first byte of the chunk in the file.
    pub offset: u64,
    /// Number of bytes in the chunk.
    pub length: u64,
}

/// Number of chunks of a file of `size` bytes: the size divided by the chunk
/// size, rounded up, and one for an empty file.
pub open spec fn chunk_count(size: nat, chunk_size: nat) -> nat
    recommends
        chunk_size > 0,
{
    if size == 0 {
        1
    } else {
        ((size + chunk_size - 1) / (chunk_size as int)) as nat
    }
}

/// Offset of chunk `index`.
pub open spec fn chunk_offset(chunk_size: nat, index: nat) -> nat {
    index * chunk_size
}

/// Length of chunk `index`: a full chunk, or what is left of the file.
pub open spec fn chunk_length(size: nat, chunk_size: nat, index: nat) -> nat
    recommends
        index * chunk_size <= size,
{
    if size - index * chunk_size < chunk_size {
        (size - index * chunk_size) as nat
    } else {
        chunk_size
    }
}

/// The descriptor of chunk `index` of the file at position `file`.
pub open spec fn chunk_at(file: usize, size: u64, chunk_size: u64, index: nat) -> ChunkDescriptor {
    ChunkDescriptor {
        file,
        index: index as u64,
        total_chunks: chunk_count(size as nat, chunk_size as nat) as u64,
        offset: chunk_offset(chunk_size as nat, index) as u64,
        length: chunk_length(size as nat, chunk_size as nat, index) as u64,
    }
}

/// All chunks of one file, in the order in which they are sent.
pub open spec fn file_chunks(file: usize, size: u64, chunk_size: u64) -> Seq<ChunkDescriptor> {
    Seq::new(
        chunk_count(size as nat, chunk_size as nat),
        |i: int| chunk_at(file, size, chunk_size, i as nat),
    )
}

/// Sum of the lengths of a sequence of chunks.
pub open spec fn total_length(chunks: Seq<ChunkDescriptor>) -> nat
    decreases chunks.len(),
{
    if chunks.len() == 0 {
        0
    } else {
        total_length(chunks.drop_last()) + chunks.last().length as nat
    }
}

impl ChunkDescriptor {
    /// Whether this is chunk `self.index` of a file of `size` bytes at
    /// position `file`, cut with `chunk_size`.
    pub open spec fn describes(self, file: usize, size: u64, chunk_size: u64) -> bool {
        &&& self.index < chunk_count(size as nat, chunk_size as nat)
        &&& self == chunk_at(file, size, chunk_size, self.index as nat)
    }

    /// The descriptor of chunk `index` of a file, or `None` where the file has
    /// no such chunk.
    pub fn locate(file: usize, size: u64, chunk_size: u64, index: u64) -> (r: Option<
        ChunkDescriptor,
    >)
        requires
            chunk_size > 0,
        ensures
            index < chunk_count(size as nat, chunk_size as nat) ==> r == Some(
                chunk_at(file, size, chunk_size, index as nat),
            ),
            index >= chunk_count(size as nat, chunk_size as nat) ==> r is None,
            r matches Some(c) ==> c.describes(file, size, chunk_size) && c.offset + c.length
                <= size,
    {
        let total: u64 = count_chunks(size, chunk_size);
        if index >= total {
            return None;
        }
        proof {
            lemma_chunk_bounds(size as nat, chunk_size as nat, index as nat);
        }
        let offset: u64 = index * chunk_size;
        let rest: u64 = size - offset;
        let length: u64 = if rest < chunk_size {
            rest
        } else {
            chunk_size
        };
        Some(ChunkDescriptor { file, index, total_chunks: total, offset, length })
    }

    /// Whether no chunk of the same file follows this one.
    pub fn is_last(&self) -> (last: bool)
        ensures
            last == (self.index + 1 >= self.total_chunks),
    {
        self.total_chunks <= self.index || self.total_chunks - self.index == 1
    }
}

/// Number of chunks in which a file of `size` bytes is sent.
pub fn count_chunks(size: u64, chunk_size: u64) -> (count: u64)
    requires
        chunk_size > 0,
    ensures
        count == chunk_count(size as nat, chunk_size as nat),
        count >= 1,
{
    if size == 0 {
        1
    } else {
        proof {
            lemma_chunk_count_is_ceiling(size as nat, chunk_size as nat);
            lemma_ceiling_unique(
                size as int,
                chunk_size as int,
                chunk_count(size as nat, chunk_size as nat) as int,
                (size - 1) / (chunk_size as int) + 1,
            );
        }
        (size - 1) / chunk_size + 1
    }
}

/// All chunks of the file at position `file`, in sending order.
pub fn split_file(file: usize, size: u64, chunk_size: u64) -> (chunks: Vec<ChunkDescriptor>)
    requires
        chunk_size > 0,
        chunk_count(size as nat, chunk_size as nat) <= usize::MAX,
    ensures
        chunks@ == file_chunks(file, size, chunk_size),
        chunks@.len() == chunk_count(size as nat, chunk_size as nat),
        forall|i: int| 0 <= i < chunks@.len() ==> (#[trigger] chunks@[i]).index == i,
        total_length(chunks@) == size,
{
    let total: u64 = count_chunks(size, chunk_size);
    let mut chunks: Vec<ChunkDescriptor> = Vec::new();
    let mut index: u64 = 0;
    while index < total
        invariant
            chunk_size > 0,
            total == chunk_count(size as nat, chunk_size as nat),
            total <= usize::MAX,
            index <= total,
            chunks@.len() == index,
            forall|i: int|
                0 <= i < index ==> chunks@[i] == chunk_at(file, size, chunk_size, i as nat),
        decreases total - index,
    {
        if let Some(chunk) = ChunkDescriptor::locate(file, size, chunk_size, index) {
            chunks.push(chunk);
        }
        index = index + 1;
    }
    proof {
        assert(chunks@ =~= file_chunks(file, size, chunk_size));
        lemma_chunk_lengths_sum(file, size, chunk_size);
    }
    chunks
}

/// For a file that is not empty the number of chunks is the size divided by
/// the chunk size, rounded up: it is the one number `n` with
/// `(n - 1) * chunk_size < size <= n * chunk_size`.
pub proof fn lemma_chunk_count_is_ceiling(size: nat, chunk_size: nat)
    requires
        size > 0,
        chunk_size > 0,
    ensures
        chunk_count(size, chunk_size) >= 1,
        (chunk_count(size, chunk_size) - 1) * chunk_size < size,
        size <= chunk_count(size, chunk_size) * chunk_size,
{
    let n = (size + chunk_size - 1) / (chunk_size as int);
    let r = (size + chunk_size - 1) % (chunk_size as int);
    assert(size + chunk_size - 1 == n * chunk_size + r && 0 <= r < chunk_size) by {
        vstd::arithmetic::div_mod::lemma_fundamental_div_mod(
            size + chunk_size - 1,
            chunk_size as int,
        );
        vstd::arithmetic::div_mod::lemma_mod_bound(size + chunk_size - 1, chunk_size as int);
        vstd::arithmetic::mul::lemma_mul_is_commutative(n, chunk_size as int);
    }
    assert(n >= 1) by (nonlinear_arith)
        requires
            size + chunk_size - 1 == n * chunk_size + r,
            0 <= r < chunk_size,
            size > 0,
    ;
    assert((n - 1) * chunk_size == n * chunk_size - chunk_size) by (nonlinear_arith);
}

/// At most one number lies within one chunk size above the size.
proof fn lemma_ceiling_unique(size: int, chunk_size: int, a: int, b: int)
    requires
        chunk_size > 0,
        size > 0,
        (a - 1) * chunk_size < size <= a * chunk_size,
        b == (size - 1) / chunk_size + 1,
    ensures
        a == b,
{
    let q = (size - 1) / chunk_size;
    let r = (size - 1) % chunk_size;
    vstd::arithmetic::div_mod::lemma_fundamental_div_mod(size - 1, chunk_size);
    vstd::arithmetic::div_mod::lemma_mod_bound(size - 1, chunk_size);
    assert(size - 1 == chunk_size * q + r);
    assert(a == q + 1) by (nonlinear_arith)
        requires
            chunk_size > 0,
            (a - 1) * chunk_size < size <= a * chunk_size,
            size - 1 == chunk_size * q + r,
            0 <= r < chunk_size,
    ;
}

/// Every chunk of a file lies inside the file, and its offset and length fit
/// the integer type of the descriptor.
pub proof fn lemma_chunk_bounds(size: nat, chunk_size: nat, index: nat)
    requires
        chunk_size > 0,
        index < chunk_count(size, chunk_size),
    ensures
        chunk_offset(chunk_size, index) <= size,
        chunk_offset(chunk_size, index) + chunk_length(size, chunk_size, index) <= size,
        chunk_length(size, chunk_size, index) <= chunk_size,
        index + 1 < chunk_count(size, chunk_size) ==> chunk_length(size, chunk_size, index)
            == chunk_size,
        index + 1 == chunk_count(size, chunk_size) ==> chunk_offset(chunk_size, index)
            + chunk_length(size, chunk_size, index) == size,
{
    if size == 0 {
        assert(index == 0);
        assert(index * chunk_size == 0) by (nonlinear_arith)
            requires
                index == 0,
        ;
    } else {
        lemma_chunk_count_is_ceiling(size, chunk_size);
        let n = chunk_count(size, chunk_size);
        assert(index * chunk_size <= (n - 1) * chunk_size) by (nonlinear_arith)
            requires
                index <= n - 1,
                chunk_size > 0,
        ;
        if index + 1 < n {
            assert((index + 1) * chunk_size <= (n - 1) * chunk_size) by (nonlinear_arith)
                requires
                    index + 1 <= n - 1,
                    chunk_size > 0,
            ;
            assert((index + 1) * chunk_size == index * chunk_size + chunk_size)
                by (nonlinear_arith);
        } else {
            assert(index == n - 1);
            assert(n * chunk_size == (n - 1) * chunk_size + chunk_size) by (nonlinear_arith);
        }
    }
}

/// The lengths of the first `k` chunks of a file add up to `k` chunk sizes,
/// or to the size of the file once all chunks are counted.
proof fn lemma_prefix_length(file: usize, size: u64, chunk_size: u64, k: nat)
    requires
        chunk_size > 0,
        k <= chunk_count(size as nat, chunk_size as nat),
    ensures
        total_length(file_chunks(file, size, chunk_size).take(k as int)) == if k == chunk_count(
            size as nat,
            chunk_size as nat,
        ) {
            size as nat
        } else {
            k * chunk_size as nat
        },
    decreases k,
{
    let all = file_chunks(file, size, chunk_size);
    let prefix = all.take(k as int);
    if k == 0 {
        assert(prefix.len() == 0);
        lemma_count_fits(size as nat, chunk_size as nat);
        assert(0 * chunk_size as nat == 0) by (nonlinear_arith);
    } else {
        lemma_prefix_length(file, size, chunk_size, (k - 1) as nat);
        lemma_chunk_bounds(size as nat, chunk_size as nat, (k - 1) as nat);
        assert(prefix.drop_last() =~= all.take(k - 1));
        assert(prefix.last() == chunk_at(file, size, chunk_size, (k - 1) as nat));
        assert((k - 1) * chunk_size + chunk_size == k * chunk_size) by (nonlinear_arith);
    }
}

/// The chunks of a file cover it exactly: there are as many as the size
/// divided by the chunk size, rounded up, their lengths add up to the size,
/// and the last one holds what the full chunks before it leave over.
pub proof fn lemma_chunk_lengths_sum(file: usize, size: u64, chunk_size: u64)
    requires
        chunk_size > 0,
    ensures
        total_length(file_chunks(file, size, chunk_size)) == size,
        file_chunks(file, size, chunk_size).last().length == size - chunk_size * (chunk_count(
            size as nat,
            chunk_size as nat,
        ) - 1),
        size > 0 ==> (chunk_count(size as nat, chunk_size as nat) - 1) * chunk_size < size
            <= chunk_count(size as nat, chunk_size as nat) * chunk_size,
{
    let n = chunk_count(size as nat, chunk_size as nat);
    let all = file_chunks(file, size, chunk_size);
    lemma_prefix_length(file, size, chunk_size, n);
    assert(all.take(n as int) =~= all);
    lemma_chunk_bounds(size as nat, chunk_size as nat, (n - 1) as nat);
    assert(chunk_size * (n - 1) == (n - 1) * chunk_size) by (nonlinear_arith);
    if size > 0 {
        lemma_chunk_count_is_ceiling(size as nat, chunk_size as nat);
    }
}

/// An empty file is sent as exactly one chunk, of length zero.
pub proof fn lemma_empty_file_has_one_empty_chunk(file: usize, chunk_size: u64)
    requires
        chunk_size > 0,
    ensures
        file_chunks(file, 0, chunk_size) == seq![
            ChunkDescriptor { file, index: 0, total_chunks: 1, offset: 0, length: 0 },
        ],
{
    assert(0 * chunk_size as nat == 0) by (nonlinear_arith);
    assert(file_chunks(file, 0, chunk_size) =~= seq![
        ChunkDescriptor { file, index: 0, total_chunks: 1, offset: 0, length: 0 },
    ]);
}

/// The chunks of a file carry the indices `0, 1, ..` up to the chunk count,
/// each once and in rising order, and every one names that count.
pub proof fn lemma_chunk_indices_contiguous(file: usize, size: u64, chunk_size: u64)
    requires
        chunk_size > 0,
    ensures
        forall|i: int|
            0 <= i < file_chunks(file, size, chunk_size).len() ==> {
                &&& (#[trigger] file_chunks(file, size, chunk_size)[i]).index == i
                &&& file_chunks(file, size, chunk_size)[i].total_chunks == file_chunks(
                    file,
                    size,
                    chunk_size,
                ).len()
                &&& file_chunks(file, size, chunk_size)[i].file == file
            },
        forall|i: int, j: int|
            0 <= i < j < file_chunks(file, size, chunk_size).len() ==> (#[trigger] file_chunks(
                file,
                size,
                chunk_size,
            )[i]).index < (#[trigger] file_chunks(file, size, chunk_size)[j]).index,
{
    lemma_count_fits(size as nat, chunk_size as nat);
}

/// A file has no more chunks than bytes, an empty file one.
pub proof fn lemma_count_fits(size: nat, chunk_size: nat)
    requires
        chunk_size > 0,
    ensures
        1 <= chunk_count(size, chunk_size),
        chunk_count(size, chunk_size) <= if size == 0 {
            1
        } else {
            size
        },
{
    if size > 0 {
        lemma_chunk_count_is_ceiling(size, chunk_size);
        let n = chunk_count(size, chunk_size);
        assert(n - 1 <= (n - 1) * chunk_size) by (nonlinear_arith)
            requires
                n >= 1,
                chunk_size >= 1,
        ;
    }
}

} // verus!
