//! Choosing the files of a deployment from two directory listings.
//!
//! The caller walks the build output and hands over what it found: the
//! frontend directory, walked recursively, and the directory of the server
//! build, read on its own level only. This module picks the files to upload.
//! Every regular file of the frontend is an asset. Of the server directory
//! the regular files are taken but for those that belong to the build and
//! not to the program: dependency files, known by their extension, and files
//! whose name starts with a dot.

use vstd::prelude::*;

verus! {

/// What a file is to the deployment.
#[derive(Clone, Copy, Debug, PartialEq, Eq, Structural)]
pub enum FileRole {
    FrontendAsset,
    ServerArtifact,
}

/// One file to upload.
#[derive(Debug, PartialEq, Eq)]
pub struct FileEntry {
    pub path: String,
    pub size: u64,
    pub role: FileRole,
}

/// A `FileEntry` with its path as a sequence of characters.
pub struct FileEntryView {
    pub path: Seq<char>,
    pub size: u64,
    pub role: FileRole,
}

impl View for FileEntry {
    type V = FileEntryView;

    open spec fn view(&self) -> FileEntryView {
        FileEntryView { path: self.path@, size: self.size, role: self.role }
    }
}

/// One entry of a directory listing: its path, the last component of the
/// path, whether it is a regular file, and its size in bytes.
#[derive(Debug, PartialEq, Eq)]
pub struct DirEntry {
    pub path: String,
    pub name: String,
    pub is_file: bool,
    pub size: u64,
}

/// A `DirEntry` with its texts as sequences of characters.
pub struct DirEntryView {
    pub path: Seq<char>,
    pub name: Seq<char>,
    pub is_file: bool,
    pub size: u64,
}

impl View for DirEntry {
    type V = DirEntryView;

    open spec fn view(&self) -> DirEntryView {
        DirEntryView { path: self.path@, name: self.name@, is_file: self.is_file, size: self.size }
    }
}

/// The directory of the server build could not be read. Without it there is
/// no server binary, and nothing to deploy.
#[derive(Debug, PartialEq, Eq)]
pub struct EnumerationError {
    /// Why the directory could not be read.
    pub message: String,
}

/// The views of a listing.
pub open spec fn listing_view(listing: Seq<DirEntry>) -> Seq<DirEntryView> {
    listing.map_values(|e: DirEntry| e@)
}

/// The views of a list of files.
pub open spec fn files_view(files: Seq<FileEntry>) -> Seq<FileEntryView> {
    files.map_values(|f: FileEntry| f@)
}

/// Position of the last dot in `name`, or -1 where it holds none.
pub open spec fn last_dot(name: Seq<char>) -> int
    decreases name.len(),
{
    if name.len() == 0 {
        -1
    } else if name.last() == '.' {
        name.len() - 1
    } else {
        last_dot(name.drop_last())
    }
}

/// The extension of a file name: what follows its last dot. A name without
/// a dot has none, nor has a name whose only dot is its first character, nor
/// the name `..`.
pub open spec fn extension_of(name: Seq<char>) -> Option<Seq<char>> {
    if name == seq!['.', '.'] || last_dot(name) <= 0 {
        None
    } else {
        Some(name.skip(last_dot(name) + 1))
    }
}

/// The extension of dependency files, which a build leaves beside its
/// output.
pub open spec fn reserved_extension() -> Seq<char> {
    seq!['d']
}

/// Whether a file with this name is left out of the server artifacts.
pub open spec fn is_build_metadata(name: Seq<char>) -> bool {
    extension_of(name) == Some(reserved_extension()) || (name.len() > 0 && name[0] == '.')
}

/// Whether an entry is taken in the given role.
pub open spec fn is_selected(entry: DirEntryView, role: FileRole) -> bool {
    match role {
        FileRole::FrontendAsset => entry.is_file,
        FileRole::ServerArtifact => entry.is_file && !is_build_metadata(entry.name),
    }
}

/// The file that an entry becomes in the given role.
pub open spec fn file_of(entry: DirEntryView, role: FileRole) -> FileEntryView {
    FileEntryView { path: entry.path, size: entry.size, role }
}

/// The files taken from a listing in the given role, in the order of the
/// listing.
pub open spec fn selected(listing: Seq<DirEntryView>, role: FileRole) -> Seq<FileEntryView>
    decreases listing.len(),
{
    if listing.len() == 0 {
        Seq::empty()
    } else if is_selected(listing.last(), role) {
        selected(listing.drop_last(), role).push(file_of(listing.last(), role))
    } else {
        selected(listing.drop_last(), role)
    }
}

/// The files of a deployment: the assets of the frontend, then the
/// artifacts of the server.
pub open spec fn enumerated(frontend: Seq<DirEntryView>, server: Seq<DirEntryView>) -> Seq<
    FileEntryView,
> {
    selected(frontend, FileRole::FrontendAsset) + selected(server, FileRole::ServerArtifact)
}

/// The position of the last dot in `name`, if it holds one.
fn find_last_dot(name: &str) -> (position: Option<usize>)
    ensures
        match position {
            Some(p) => p == last_dot(name@) && p < name@.len(),
            None => last_dot(name@) == -1,
        },
{
    let length: usize = name.unicode_len();
    let mut i: usize = length;
    assert(name@.take(length as int) =~= name@);
    while i > 0
        invariant
            i <= length,
            length == name@.len(),
            last_dot(name@) == last_dot(name@.take(i as int)),
        decreases i,
    {
        let c: char = name.get_char(i - 1);
        proof {
            let head = name@.take(i as int);
            assert(head.last() == c);
            assert(head.drop_last() =~= name@.take(i - 1));
        }
        if c == '.' {
            return Some(i - 1);
        }
        i = i - 1;
    }
    proof {
        assert(name@.take(0).len() == 0);
    }
    None
}

/// The extension of a file name, as `std::path::Path::extension` finds it
/// for the last component of a path.
pub fn extension(name: &str) -> (ext: Option<String>)
    ensures
        ext is None <==> extension_of(name@) is None,
        ext matches Some(e) ==> extension_of(name@) == Some(e@),
{
    let length: usize = name.unicode_len();
    if length == 2 && name.get_char(0) == '.' && name.get_char(1) == '.' {
        assert(name@ =~= seq!['.', '.']);
        return None;
    }
    assert(name@ != seq!['.', '.']) by {
        if name@ == seq!['.', '.'] {
            assert(name@.len() == 2 && name@[0] == '.' && name@[1] == '.');
        }
    }
    match find_last_dot(name) {
        None => None,
        Some(p) => {
            if p == 0 {
                None
            } else {
                let tail: &str = name.substring_char(p + 1, length);
                assert(tail@ =~= name@.skip(p + 1));
                Some(String::from_str(tail))
            }
        },
    }
}

/// Whether a file of the server directory with this name belongs to the
/// build and not to the program: it has the extension `d`, or its name
/// starts with a dot.
pub fn is_metadata_name(name: &str) -> (skip: bool)
    ensures
        skip == is_build_metadata(name@),
{
    let length: usize = name.unicode_len();
    if length > 0 && name.get_char(0) == '.' {
        return true;
    }
    match extension(name) {
        None => false,
        Some(e) => {
            let reserved: bool = e.as_str().unicode_len() == 1 && e.as_str().get_char(0) == 'd';
            proof {
                if reserved {
                    assert(e@ =~= reserved_extension());
                } else {
                    assert(e@ != reserved_extension());
                }
            }
            reserved
        },
    }
}

/// The files taken from a listing in the given role.
fn select(listing: &Vec<DirEntry>, role: FileRole) -> (files: Vec<FileEntry>)
    ensures
        files_view(files@) == selected(listing_view(listing@), role),
{
    let ghost entries = listing_view(listing@);
    let mut files: Vec<FileEntry> = Vec::new();
    let mut i: usize = 0;
    assert(entries.take(0).len() == 0);
    assert(files_view(files@) =~= selected(entries.take(0), role));
    while i < listing.len()
        invariant
            i <= listing.len(),
            entries == listing_view(listing@),
            files_view(files@) == selected(entries.take(i as int), role),
        decreases listing.len() - i,
    {
        let entry: &DirEntry = &listing[i];
        let take: bool = match role {
            FileRole::FrontendAsset => entry.is_file,
            FileRole::ServerArtifact => entry.is_file && !is_metadata_name(entry.name.as_str()),
        };
        proof {
            let next = entries.take(i + 1);
            assert(next.last() == entry@);
            assert(next.drop_last() =~= entries.take(i as int));
        }
        if take {
            let ghost before = files@;
            files.push(FileEntry { path: entry.path.clone(), size: entry.size, role });
            assert(files_view(files@) =~= files_view(before).push(file_of(entry@, role)));
        }
        i = i + 1;
    }
    assert(entries.take(listing.len() as int) =~= entries);
    files
}

/// The assets among the entries found by walking the frontend directory:
/// every regular file, whatever its name.
pub fn recursive_files_from_dir(listing: &Vec<DirEntry>) -> (files: Vec<FileEntry>)
    ensures
        files_view(files@) == selected(listing_view(listing@), FileRole::FrontendAsset),
{
    select(listing, FileRole::FrontendAsset)
}

/// The artifacts among the entries of the server directory: every regular
/// file but for dependency files and files whose name starts with a dot.
pub fn server_files(listing: &Vec<DirEntry>) -> (files: Vec<FileEntry>)
    ensures
        files_view(files@) == selected(listing_view(listing@), FileRole::ServerArtifact),
{
    select(listing, FileRole::ServerArtifact)
}

/// The listing that stands for a directory: its entries, or none where it
/// could not be read.
pub open spec fn tolerated(listing: Result<Vec<DirEntry>, String>) -> Seq<DirEntryView> {
    match listing {
        Ok(entries) => listing_view(entries@),
        Err(_) => Seq::empty(),
    }
}

/// The files of a deployment. Each argument is the listing of a directory,
/// or the reason why it could not be read. A frontend directory that cannot
/// be read counts as empty; a server directory that cannot be read is an
/// error, which carries the reason.
pub fn enumerate(
    frontend: Result<Vec<DirEntry>, String>,
    server: Result<Vec<DirEntry>, String>,
) -> (result: Result<Vec<FileEntry>, EnumerationError>)
    ensures
        match server {
            Ok(entries) => (result matches Ok(files) && files_view(files@) == enumerated(
                tolerated(frontend),
                listing_view(entries@),
            )),
            Err(reason) => (result matches Err(e) && e.message@ == reason@),
        },
{
    match server {
        Err(reason) => Err(EnumerationError { message: reason }),
        Ok(entries) => {
            let mut files: Vec<FileEntry> = match frontend {
                Ok(assets) => recursive_files_from_dir(&assets),
                Err(_) => {
                    let none: Vec<FileEntry> = Vec::new();
                    assert(files_view(none@) =~= selected(
                        Seq::empty(),
                        FileRole::FrontendAsset,
                    ));
                    none
                },
            };
            let ghost assets = files@;
            let mut artifacts: Vec<FileEntry> = server_files(&entries);
            let ghost rest = artifacts@;
            files.append(&mut artifacts);
            assert(files_view(files@) =~= files_view(assets) + files_view(rest));
            Ok(files)
        },
    }
}

/// `last_dot` finds the last dot: where it tells a position, a dot stands
/// there and none behind it, and where it tells -1, the name holds no dot.
pub proof fn lemma_last_dot(name: Seq<char>)
    ensures
        -1 <= last_dot(name) < name.len(),
        last_dot(name) >= 0 ==> name[last_dot(name)] == '.',
        forall|i: int| last_dot(name) < i < name.len() ==> #[trigger] name[i] != '.',
    decreases name.len(),
{
    if name.len() > 0 && name.last() != '.' {
        let front = name.drop_last();
        lemma_last_dot(front);
        assert forall|i: int| last_dot(name) < i < name.len() implies #[trigger] name[i]
            != '.' by {
            if i < front.len() {
                assert(front[i] == name[i]);
            }
        }
    }
}

/// Whether no two entries of a listing have the same path.
pub open spec fn distinct_paths(listing: Seq<DirEntryView>) -> bool {
    forall|i: int, j: int|
        0 <= i < j < listing.len() ==> (#[trigger] listing[i]).path != (#[trigger] listing[j]).path
}

/// Whether no two files have the same path.
pub open spec fn distinct_files(files: Seq<FileEntryView>) -> bool {
    forall|i: int, j: int|
        0 <= i < j < files.len() ==> (#[trigger] files[i]).path != (#[trigger] files[j]).path
}

/// Files taken from a listing without repeated paths have no repeated paths.
pub proof fn lemma_selected_distinct(listing: Seq<DirEntryView>, role: FileRole)
    requires
        distinct_paths(listing),
    ensures
        distinct_files(selected(listing, role)),
        forall|k: int|
            0 <= k < selected(listing, role).len() ==> exists|i: int|
                0 <= i < listing.len() && (#[trigger] selected(listing, role)[k]).path
                    == listing[i].path,
    decreases listing.len(),
{
    if listing.len() > 0 {
        let front = listing.drop_last();
        assert(distinct_paths(front)) by {
            assert forall|i: int, j: int| 0 <= i < j < front.len() implies (#[trigger] front[i]).path
                != (#[trigger] front[j]).path by {
                assert(front[i] == listing[i] && front[j] == listing[j]);
            }
        }
        lemma_selected_distinct(front, role);
        let inner = selected(front, role);
        let out = selected(listing, role);
        assert forall|k: int| 0 <= k < out.len() implies exists|i: int|
            0 <= i < listing.len() && (#[trigger] out[k]).path == listing[i].path by {
            if k < inner.len() {
                let i = choose|i: int| 0 <= i < front.len() && inner[k].path == front[i].path;
                assert(front[i] == listing[i]);
            } else {
                assert(out[k].path == listing[listing.len() - 1].path);
            }
        }
        assert forall|a: int, b: int| 0 <= a < b < out.len() implies (#[trigger] out[a]).path != (
        #[trigger] out[b]).path by {
            if b < inner.len() {
                assert(out[a] == inner[a] && out[b] == inner[b]);
            } else {
                let i = choose|i: int| 0 <= i < front.len() && inner[a].path == front[i].path;
                assert(front[i] == listing[i]);
                assert(out[b].path == listing[listing.len() - 1].path);
            }
        }
    }
}

/// The enumerated files hold no path twice, provided that the two listings
/// together hold none twice.
pub proof fn lemma_enumerated_distinct(frontend: Seq<DirEntryView>, server: Seq<DirEntryView>)
    requires
        distinct_paths(frontend + server),
    ensures
        distinct_files(enumerated(frontend, server)),
{
    let both = frontend + server;
    assert(distinct_paths(frontend)) by {
        assert forall|i: int, j: int| 0 <= i < j < frontend.len() implies (
        #[trigger] frontend[i]).path != (#[trigger] frontend[j]).path by {
            assert(both[i] == frontend[i] && both[j] == frontend[j]);
        }
    }
    assert(distinct_paths(server)) by {
        assert forall|i: int, j: int| 0 <= i < j < server.len() implies (#[trigger] server[i]).path
            != (#[trigger] server[j]).path by {
            assert(both[frontend.len() + i] == server[i] && both[frontend.len() + j] == server[j]);
        }
    }
    lemma_selected_distinct(frontend, FileRole::FrontendAsset);
    lemma_selected_distinct(server, FileRole::ServerArtifact);
    let assets = selected(frontend, FileRole::FrontendAsset);
    let artifacts = selected(server, FileRole::ServerArtifact);
    let out = enumerated(frontend, server);
    assert forall|a: int, b: int| 0 <= a < b < out.len() implies (#[trigger] out[a]).path != (
    #[trigger] out[b]).path by {
        if b < assets.len() {
            assert(out[a] == assets[a] && out[b] == assets[b]);
        } else if a >= assets.len() {
            assert(out[a] == artifacts[a - assets.len()] && out[b] == artifacts[b - assets.len()]);
        } else {
            let i = choose|i: int| 0 <= i < frontend.len() && assets[a].path == frontend[i].path;
            let j = choose|j: int|
                0 <= j < server.len() && artifacts[b - assets.len()].path == server[j].path;
            assert(both[i] == frontend[i]);
            assert(both[frontend.len() + j] == server[j]);
        }
    }
}

} // verus!
