use oxyde_cloud::files::{
    enumerate, extension, is_metadata_name, recursive_files_from_dir, server_files, DirEntry,
    EnumerationError, FileEntry, FileRole,
};

fn file(path: &str, name: &str, size: u64) -> DirEntry {
    DirEntry { path: path.to_string(), name: name.to_string(), is_file: true, size }
}

fn directory(path: &str, name: &str) -> DirEntry {
    DirEntry { path: path.to_string(), name: name.to_string(), is_file: false, size: 4096 }
}

fn asset(path: &str, size: u64) -> FileEntry {
    FileEntry { path: path.to_string(), size, role: FileRole::FrontendAsset }
}

fn artifact(path: &str, size: u64) -> FileEntry {
    FileEntry { path: path.to_string(), size, role: FileRole::ServerArtifact }
}

#[test]
fn extension_is_what_follows_the_last_dot() {
    assert_eq!(extension("server.d"), Some("d".to_string()));
    assert_eq!(extension("archive.tar.gz"), Some("gz".to_string()));
    assert_eq!(extension("trailing."), Some("".to_string()));
    assert_eq!(extension("..."), Some("".to_string()));
    assert_eq!(extension("a.b"), Some("b".to_string()));
    assert_eq!(extension("naïve.é"), Some("é".to_string()));
}

#[test]
fn some_names_have_no_extension() {
    assert_eq!(extension("server"), None);
    assert_eq!(extension(""), None);
    assert_eq!(extension(".gitignore"), None);
    assert_eq!(extension("."), None);
    assert_eq!(extension(".."), None);
}

#[test]
fn extension_agrees_with_the_standard_library() {
    for name in
        ["server", "server.d", ".d", "..", "...", "a.", ".a.b", "a..b", "x.tar.gz", "", ".", "d"]
    {
        let expected =
            std::path::Path::new(name).extension().map(|e| e.to_str().unwrap().to_string());
        assert_eq!(extension(name), expected, "for {name:?}");
    }
}

#[test]
fn dependency_files_and_dot_files_are_build_metadata() {
    assert!(is_metadata_name("server.d"));
    assert!(is_metadata_name("lib.tar.d"));
    assert!(is_metadata_name(".cargo-lock"));
    assert!(is_metadata_name(".d"));
    assert!(is_metadata_name(".hidden.txt"));
}

#[test]
fn other_files_are_not_build_metadata() {
    assert!(!is_metadata_name("server"));
    assert!(!is_metadata_name("server.exe"));
    assert!(!is_metadata_name("d"));
    assert!(!is_metadata_name("server.dd"));
    assert!(!is_metadata_name("server.D"));
    assert!(!is_metadata_name("server.d."));
    assert!(!is_metadata_name(""));
}

#[test]
fn every_regular_file_of_the_frontend_is_an_asset() {
    let listing = vec![
        directory("target/site", "site"),
        file("target/site/index.html", "index.html", 120),
        directory("target/site/pkg", "pkg"),
        file("target/site/pkg/app.wasm", "app.wasm", 5000),
        file("target/site/.well-known", ".well-known", 0),
        file("target/site/notes.d", "notes.d", 3),
    ];
    assert_eq!(
        recursive_files_from_dir(&listing),
        vec![
            asset("target/site/index.html", 120),
            asset("target/site/pkg/app.wasm", 5000),
            asset("target/site/.well-known", 0),
            asset("target/site/notes.d", 3),
        ]
    );
}

#[test]
fn server_artifacts_leave_out_build_metadata_and_directories() {
    let listing = vec![
        file("target/release/server", "server", 9000),
        file("target/release/server.d", "server.d", 80),
        file("target/release/.cargo-lock", ".cargo-lock", 0),
        directory("target/release/deps", "deps"),
        directory("target/release/.fingerprint", ".fingerprint"),
        file("target/release/libserver.rlib", "libserver.rlib", 700),
    ];
    assert_eq!(
        server_files(&listing),
        vec![artifact("target/release/server", 9000), artifact("target/release/libserver.rlib", 700)]
    );
}

#[test]
fn empty_listings_give_no_files() {
    assert_eq!(recursive_files_from_dir(&vec![]), vec![]);
    assert_eq!(server_files(&vec![]), vec![]);
    assert_eq!(enumerate(Ok(vec![]), Ok(vec![])), Ok(vec![]));
}

#[test]
fn assets_come_before_artifacts() {
    let frontend = vec![file("site/a.css", "a.css", 1), file("site/b.js", "b.js", 2)];
    let server = vec![file("release/server", "server", 3)];
    assert_eq!(
        enumerate(Ok(frontend), Ok(server)),
        Ok(vec![asset("site/a.css", 1), asset("site/b.js", 2), artifact("release/server", 3)])
    );
}

#[test]
fn missing_frontend_directory_is_an_empty_asset_set() {
    let server = vec![file("release/server", "server", 3)];
    assert_eq!(
        enumerate(Err("No such file or directory".to_string()), Ok(server)),
        Ok(vec![artifact("release/server", 3)])
    );
}

#[test]
fn missing_server_directory_is_an_error() {
    let frontend = vec![file("site/a.css", "a.css", 1)];
    assert_eq!(
        enumerate(Ok(frontend), Err("No such file or directory".to_string())),
        Err(EnumerationError { message: "No such file or directory".to_string() })
    );
    assert_eq!(
        enumerate(Err("gone".to_string()), Err("denied".to_string())),
        Err(EnumerationError { message: "denied".to_string() })
    );
}

#[test]
fn distinct_paths_stay_distinct() {
    let frontend = vec![
        file("site/a", "a", 1),
        directory("site/d", "d"),
        file("site/d/a", "a", 2),
        file("site/b", "b", 3),
    ];
    let server = vec![file("release/a", "a", 4), file("release/a.d", "a.d", 5)];
    let files = enumerate(Ok(frontend), Ok(server)).unwrap();
    let mut paths: Vec<&str> = files.iter().map(|f| f.path.as_str()).collect();
    assert_eq!(paths, vec!["site/a", "site/d/a", "site/b", "release/a"]);
    paths.sort();
    paths.dedup();
    assert_eq!(paths.len(), files.len());
}

#[test]
fn enumerating_twice_gives_the_same_files() {
    let listing = || {
        (
            vec![file("site/a", "a", 1), file("site/b", "b", 0)],
            vec![file("release/server", "server", 25), file("release/server.d", "server.d", 5)],
        )
    };
    let (frontend, server) = listing();
    let (again_frontend, again_server) = listing();
    assert_eq!(enumerate(Ok(frontend), Ok(server)), enumerate(Ok(again_frontend), Ok(again_server)));
}
