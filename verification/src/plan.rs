//! The chunks of a whole deployment, in the order in which they are sent.

use vstd::prelude::*;
use crate::chunk::{chunk_at, chunk_count, file_chunks, ChunkDescriptor};
use crate::files::{enumerated, files_view, DirEntryView, FileEntry, FileEntryView};

verus! {

/// Number of chunks of the first `k` files.
pub open spec fn chunks_before(files: Seq<FileEntryView>, chunk_size: u64, k: nat) -> nat
    decreases k,
{
    if k == 0 {
        0
    } else {
        chunks_before(files, chunk_size, (k - 1) as nat) + chunk_count(
            files[k - 1].size as nat,
            chunk_size as nat,
        )
    }
}

/// Number of chunks of all files.
pub open spec fn chunks_in_all(files: Seq<FileEntryView>, chunk_size: u64) -> nat {
    chunks_before(files, chunk_size, files.len())
}

/// The chunks of the first `k` files: file after file, and the chunks of
/// each file in rising order.
pub open spec fn plan_before(files: Seq<FileEntryView>, chunk_size: u64, k: nat) -> Seq<
    ChunkDescriptor,
>
    decreases k,
{
    if k == 0 {
        Seq::empty()
    } else {
        plan_before(files, chunk_size, (k - 1) as nat) + file_chunks(
            (k - 1) as usize,
            files[k - 1].size,
            chunk_size,
        )
    }
}

/// The chunks of all files, in the order in which they are sent.
pub open spec fn upload_plan(files: Seq<FileEntryView>, chunk_size: u64) -> Seq<ChunkDescriptor> {
    plan_before(files, chunk_size, files.len())
}

/// The first `k` files have as many chunks as their part of the plan is
/// long, and no more than all files have.
pub proof fn lemma_plan_length(files: Seq<FileEntryView>, chunk_size: u64, k: nat)
    requires
        k <= files.len(),
    ensures
        plan_before(files, chunk_size, k).len() == chunks_before(files, chunk_size, k),
        chunks_before(files, chunk_size, k) <= chunks_in_all(files, chunk_size),
    decreases files.len() - k,
{
    lemma_plan_length_upto(files, chunk_size, k);
    if k < files.len() {
        lemma_plan_length(files, chunk_size, k + 1);
    }
}

proof fn lemma_plan_length_upto(files: Seq<FileEntryView>, chunk_size: u64, k: nat)
    ensures
        plan_before(files, chunk_size, k).len() == chunks_before(files, chunk_size, k),
    decreases k,
{
    if k > 0 {
        lemma_plan_length_upto(files, chunk_size, (k - 1) as nat);
    }
}

/// The part of the plan for the first `k` files is the start of the plan for
/// any more files.
pub proof fn lemma_plan_prefix(files: Seq<FileEntryView>, chunk_size: u64, k: nat, n: nat)
    requires
        k <= n,
    ensures
        plan_before(files, chunk_size, k).len() <= plan_before(files, chunk_size, n).len(),
        plan_before(files, chunk_size, n).take(plan_before(files, chunk_size, k).len() as int)
            == plan_before(files, chunk_size, k),
    decreases n - k,
{
    if k < n {
        lemma_plan_prefix(files, chunk_size, k, (n - 1) as nat);
        let shorter = plan_before(files, chunk_size, (n - 1) as nat);
        let longer = plan_before(files, chunk_size, n);
        let first = plan_before(files, chunk_size, k);
        assert(longer.take(first.len() as int) =~= shorter.take(first.len() as int));
    } else {
        let all = plan_before(files, chunk_size, n);
        assert(all.take(all.len() as int) =~= all);
    }
}

/// Chunk `index` of the file at position `file` stands in the plan behind
/// the chunks of the files before it and the chunks of its file before it.
pub proof fn lemma_plan_position(
    files: Seq<FileEntryView>,
    chunk_size: u64,
    file: nat,
    index: nat,
)
    requires
        file < files.len(),
        file <= usize::MAX,
        index < chunk_count(files[file as int].size as nat, chunk_size as nat),
    ensures
        chunks_before(files, chunk_size, file) + index < upload_plan(files, chunk_size).len(),
        upload_plan(files, chunk_size)[(chunks_before(files, chunk_size, file) + index) as int]
            == chunk_at(
            file as usize,
            files[file as int].size,
            chunk_size,
            index,
        ),
{
    let before = plan_before(files, chunk_size, file);
    let with_file = plan_before(files, chunk_size, file + 1);
    let all = upload_plan(files, chunk_size);
    lemma_plan_length_upto(files, chunk_size, file);
    lemma_plan_length_upto(files, chunk_size, file + 1);
    lemma_plan_prefix(files, chunk_size, file + 1, files.len());
    let position = (chunks_before(files, chunk_size, file) + index) as int;
    assert(with_file[position] == file_chunks(
        file as usize,
        files[file as int].size,
        chunk_size,
    )[index as int]);
    assert(all.take(with_file.len() as int)[position] == all[position]);
}

/// Number of chunks of all files.
pub fn count_all_chunks(files: &Vec<FileEntry>, chunk_size: u64) -> (total: u128)
    requires
        chunk_size > 0,
    ensures
        total == chunks_in_all(files_view(files@), chunk_size),
{
    let ghost views = files_view(files@);
    let mut total: u128 = 0;
    let mut i: usize = 0;
    while i < files.len()
        invariant
            chunk_size > 0,
            i <= files.len(),
            views == files_view(files@),
            total == chunks_before(views, chunk_size, i as nat),
            total <= i * 0xffff_ffff_ffff_ffff,
        decreases files.len() - i,
    {
        let count: u64 = crate::chunk::count_chunks(files[i].size, chunk_size);
        assert(views[i as int].size == files@[i as int].size);
        total = total + count as u128;
        i = i + 1;
    }
    total
}

/// The chunks of all files, in the order in which they are sent.
pub fn plan_upload(files: &Vec<FileEntry>, chunk_size: u64) -> (plan: Vec<ChunkDescriptor>)
    requires
        chunk_size > 0,
        chunks_in_all(files_view(files@), chunk_size) <= usize::MAX,
    ensures
        plan@ == upload_plan(files_view(files@), chunk_size),
{
    let ghost views = files_view(files@);
    let mut plan: Vec<ChunkDescriptor> = Vec::new();
    let mut i: usize = 0;
    assert(plan@ =~= plan_before(views, chunk_size, 0));
    while i < files.len()
        invariant
            chunk_size > 0,
            i <= files.len(),
            views == files_view(files@),
            chunks_in_all(views, chunk_size) <= usize::MAX,
            plan@ == plan_before(views, chunk_size, i as nat),
        decreases files.len() - i,
    {
        proof {
            lemma_plan_length(views, chunk_size, (i + 1) as nat);
            lemma_plan_length(views, chunk_size, i as nat);
            assert(views[i as int].size == files@[i as int].size);
        }
        let mut chunks: Vec<ChunkDescriptor> = crate::chunk::split_file(
            i,
            files[i].size,
            chunk_size,
        );
        plan.append(&mut chunks);
        i = i + 1;
    }
    plan
}

/// Enumerating the same listings and cutting with the same chunk size gives
/// the same chunks in the same order, however often it is done.
pub proof fn lemma_plan_is_deterministic(
    frontend: Seq<DirEntryView>,
    server: Seq<DirEntryView>,
    again_frontend: Seq<DirEntryView>,
    again_server: Seq<DirEntryView>,
    chunk_size: u64,
)
    requires
        frontend == again_frontend,
        server == again_server,
    ensures
        enumerated(frontend, server) == enumerated(again_frontend, again_server),
        upload_plan(enumerated(frontend, server), chunk_size) == upload_plan(
            enumerated(again_frontend, again_server),
            chunk_size,
        ),
{
}

} // verus!
