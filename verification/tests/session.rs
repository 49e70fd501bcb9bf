use oxyde_cloud::chunk::ChunkDescriptor;
use oxyde_cloud::client::Client;
use oxyde_cloud::config::{AppConfig, CloudConfig, EnvValue, EnvVar};
use oxyde_cloud::error::{ClientError, DecodeError, RequestError};
use oxyde_cloud::files::{DirEntry, EnumerationError, FileEntry, FileRole};
use oxyde_cloud::net::Reply;
use oxyde_cloud::plan::{count_all_chunks, plan_upload};
use oxyde_cloud::request::{Body, ClientBuilder, Header, Method};
use oxyde_cloud::session::{
    Action, BuildError, ChunkUploadError, CommitError, Event, Session, SessionError,
    SessionState, UploadProgress,
};

const C: u64 = 10;

fn client() -> Client {
    Client::new("secret-token".to_string())
}

fn config() -> CloudConfig {
    CloudConfig {
        app: AppConfig { slug: "the-app".to_string(), team_id: Some(3) },
        env: vec![EnvVar { key: "KEY".to_string(), value: EnvValue::Text("value".to_string()) }],
    }
}

fn session() -> Session {
    Session::with_chunk_size(client(), config(), C).unwrap()
}

fn file(path: &str, size: u64) -> DirEntry {
    let name = path.rsplit('/').next().unwrap().to_string();
    DirEntry { path: path.to_string(), name, is_file: true, size }
}

fn built() -> Event {
    Event::Built { result: Ok(()) }
}

fn listed(frontend: Vec<DirEntry>, server: Vec<DirEntry>) -> Event {
    Event::Listed { frontend: Ok(frontend), server: Ok(server) }
}

fn ok() -> Event {
    Event::Replied { reply: Reply::Response { status: 200, body: r#"{"success":true}"#.to_string() } }
}

fn status(status: u16, body: &str) -> Event {
    Event::Replied { reply: Reply::Response { status, body: body.to_string() } }
}

fn progress(files_done: usize, chunks_done: u128, total_chunks: u128) -> UploadProgress {
    UploadProgress { files_done, chunks_done, total_chunks }
}

/// A session that is about to upload files of the given sizes: the first
/// from the frontend, the others from the server directory.
fn uploading(sizes: &[u64]) -> Session {
    let frontend = vec![file("site/f1", sizes[0])];
    let server: Vec<DirEntry> = sizes[1..]
        .iter()
        .enumerate()
        .map(|(i, size)| file(&format!("release/f{}", i + 2), *size))
        .collect();
    session().handle(built()).handle(listed(frontend, server))
}

fn upload_of(action: Action) -> (ChunkDescriptor, ClientBuilder) {
    match action {
        Action::Upload { chunk, request } => (chunk, request),
        other => panic!("expected an upload, got {other:?}"),
    }
}

#[test]
fn new_session_is_idle() {
    let session = Session::new(client(), config());
    assert_eq!(session.state(), SessionState::Idle);
    assert_eq!(session.action(), Action::Build);
    assert_eq!(session.progress(), progress(0, 0, 0));
    assert_eq!(session.error(), None);
    assert_eq!(session.chunk_size(), 90 * 1024 * 1024);
    assert_eq!(*session.files(), vec![]);
    assert_eq!(*session.config(), config());
    assert!(!session.is_finished());
}

#[test]
fn chunk_size_zero_is_refused() {
    assert!(Session::with_chunk_size(client(), config(), 0).is_none());
    assert_eq!(Session::with_chunk_size(client(), config(), 1).unwrap().chunk_size(), 1);
}

#[test]
fn build_success_leads_to_enumerating() {
    let session = session().handle(built());
    assert_eq!(session.state(), SessionState::Enumerating);
    assert_eq!(session.action(), Action::Enumerate);
    assert_eq!(session.error(), None);
}

#[test]
fn build_failure_aborts_before_anything_is_sent() {
    let session = session().handle(Event::Built { result: Err("compile error".to_string()) });
    assert_eq!(session.state(), SessionState::Aborted);
    assert_eq!(session.action(), Action::Finish);
    assert!(session.is_finished());
    let error = SessionError::Build(BuildError { message: "compile error".to_string() });
    assert_eq!(session.error(), Some(&error));
    assert_eq!(error.message(), "Failed to build project: compile error");
    assert_eq!(session.progress(), progress(0, 0, 0));
}

#[test]
fn missing_server_directory_aborts_before_any_request() {
    let session = session().handle(built()).handle(Event::Listed {
        frontend: Ok(vec![file("site/index.html", 5)]),
        server: Err("No such file or directory (os error 2)".to_string()),
    });
    assert_eq!(session.state(), SessionState::Aborted);
    assert_eq!(session.action(), Action::Finish);
    let error = SessionError::Enumeration(EnumerationError {
        message: "No such file or directory (os error 2)".to_string(),
    });
    assert_eq!(session.error(), Some(&error));
    assert_eq!(
        error.message(),
        "Failed to collect server files: No such file or directory (os error 2)"
    );
    assert_eq!(*session.files(), vec![]);
    let session = session.handle(ok());
    assert_eq!(session.state(), SessionState::Aborted);
    assert_eq!(session.action(), Action::Finish);
}

#[test]
fn empty_frontend_is_a_valid_deployment() {
    let session = session().handle(built()).handle(listed(vec![], vec![file("release/server", 25)]));
    assert_eq!(session.state(), SessionState::Uploading);
    assert_eq!(
        *session.files(),
        vec![FileEntry {
            path: "release/server".to_string(),
            size: 25,
            role: FileRole::ServerArtifact
        }]
    );
    assert_eq!(session.progress(), progress(0, 0, 3));
    let session = session.handle(ok()).handle(ok()).handle(ok());
    assert_eq!(session.state(), SessionState::Committing);
    let session = session.handle(ok());
    assert_eq!(session.state(), SessionState::Done);
    assert_eq!(session.error(), None);
}

#[test]
fn missing_frontend_directory_is_tolerated() {
    let session = session().handle(built()).handle(Event::Listed {
        frontend: Err("No such file or directory".to_string()),
        server: Ok(vec![file("release/server", 1)]),
    });
    assert_eq!(session.state(), SessionState::Uploading);
    assert_eq!(session.progress(), progress(0, 0, 1));
}

#[test]
fn nothing_to_upload_goes_straight_to_the_commit() {
    let session = session().handle(built()).handle(listed(vec![], vec![]));
    assert_eq!(session.state(), SessionState::Committing);
    assert_eq!(session.progress(), progress(0, 0, 0));
    assert!(matches!(session.action(), Action::Commit { .. }));
}

#[test]
fn three_files_are_five_chunks_and_one_commit() {
    let mut session = uploading(&[0, C - 1, 2 * C + 5]);
    assert_eq!(session.progress(), progress(0, 0, 5));
    let expected = [
        ("site/f1", ChunkDescriptor { file: 0, index: 0, total_chunks: 1, offset: 0, length: 0 }),
        ("release/f2", ChunkDescriptor { file: 1, index: 0, total_chunks: 1, offset: 0, length: 9 }),
        ("release/f3", ChunkDescriptor { file: 2, index: 0, total_chunks: 3, offset: 0, length: 10 }),
        ("release/f3", ChunkDescriptor { file: 2, index: 1, total_chunks: 3, offset: 10, length: 10 }),
        ("release/f3", ChunkDescriptor { file: 2, index: 2, total_chunks: 3, offset: 20, length: 5 }),
    ];
    let files_done_after = [1, 2, 2, 2, 3];
    let mut sent = 0;
    for (position, (path, chunk)) in expected.iter().enumerate() {
        assert_eq!(session.state(), SessionState::Uploading);
        let (due, request) = upload_of(session.action());
        assert_eq!(due, *chunk);
        assert_eq!(request, client().upload_chunk("the-app", path, chunk));
        sent += 1;
        session = session.handle(ok());
        assert_eq!(
            session.progress(),
            progress(files_done_after[position], position as u128 + 1, 5)
        );
    }
    assert_eq!(sent, 5);
    assert_eq!(session.state(), SessionState::Committing);
    assert_eq!(
        session.action(),
        Action::Commit { request: client().upload_done(&config()).unwrap() }
    );
    let session = session.handle(ok());
    assert_eq!(session.state(), SessionState::Done);
    assert_eq!(session.action(), Action::Finish);
    assert_eq!(session.error(), None);
    assert_eq!(session.progress(), progress(3, 5, 5));
    assert!(session.is_finished());
}

#[test]
fn commit_request_carries_the_manifest() {
    let session = session().handle(built()).handle(listed(vec![], vec![]));
    assert_eq!(
        session.action(),
        Action::Commit {
            request: ClientBuilder {
                method: Method::Post,
                url: "https://oxyde.cloud/api/v1/apps/upload-done".to_string(),
                headers: vec![
                    Header {
                        name: "Authorization".to_string(),
                        value: "Bearer secret-token".to_string()
                    },
                    Header {
                        name: "Content-Type".to_string(),
                        value: "application/json".to_string()
                    },
                ],
                body: Body::Text(
                    r#"{"app":{"slug":"the-app","team_id":3},"env":{"KEY":"value"}}"#.to_string()
                ),
            }
        }
    );
}

#[test]
fn failed_chunk_aborts_and_later_files_are_never_sent() {
    let mut session = uploading(&[C, 3 * C, C]).handle(ok()).handle(ok());
    let (due, _) = upload_of(session.action());
    assert_eq!(due, ChunkDescriptor { file: 1, index: 1, total_chunks: 3, offset: 10, length: 10 });
    session = session.handle(status(502, "Bad Gateway"));
    assert_eq!(session.state(), SessionState::Aborted);
    let error = SessionError::ChunkUpload(ChunkUploadError {
        file: 2,
        chunk: 2,
        path: "release/f2".to_string(),
        cause: ClientError::Request(RequestError { status: 502, body: "Bad Gateway".to_string() }),
    });
    assert_eq!(session.error(), Some(&error));
    assert_eq!(
        error.message(),
        "Failed to upload chunk 2 of file 2 (release/f2): HTTP request failed with status 502: Bad Gateway"
    );
    assert_eq!(session.progress(), progress(1, 2, 5));
    for _ in 0..4 {
        assert_eq!(session.action(), Action::Finish);
        session = session.handle(ok());
        assert_eq!(session.state(), SessionState::Aborted);
        assert_eq!(session.progress(), progress(1, 2, 5));
    }
    assert_eq!(session.error(), Some(&error));
}

#[test]
fn any_single_failed_chunk_prevents_the_commit() {
    let sizes = [0, C - 1, 2 * C + 5, C + 1];
    let total = 7;
    for failing in 0..total {
        let mut session = uploading(&sizes);
        let mut uploads = 0;
        let mut commits = 0;
        for _ in 0..20 {
            match session.action() {
                Action::Upload { .. } => {
                    let event = if uploads == failing { status(500, "boom") } else { ok() };
                    uploads += 1;
                    session = session.handle(event);
                }
                Action::Commit { .. } => {
                    commits += 1;
                    session = session.handle(ok());
                }
                Action::Finish => break,
                other => panic!("unexpected {other:?}"),
            }
        }
        assert_eq!(commits, 0, "failing chunk {failing}");
        assert_eq!(uploads, failing + 1);
        assert_eq!(session.state(), SessionState::Aborted);
        assert_eq!(session.progress().chunks_done, failing as u128);
    }
}

#[test]
fn commit_follows_when_every_chunk_succeeded() {
    let mut session = uploading(&[0, C - 1, 2 * C + 5, C + 1]);
    let mut uploads = 0;
    let mut commits = 0;
    loop {
        match session.action() {
            Action::Upload { .. } => {
                assert_eq!(commits, 0);
                uploads += 1;
            }
            Action::Commit { .. } => {
                assert_eq!(uploads, 7);
                commits += 1;
            }
            Action::Finish => break,
            other => panic!("unexpected {other:?}"),
        }
        session = session.handle(ok());
    }
    assert_eq!((uploads, commits), (7, 1));
    assert_eq!(session.state(), SessionState::Done);
}

#[test]
fn transport_failure_of_a_chunk_aborts() {
    let session = uploading(&[5])
        .handle(Event::Replied { reply: Reply::Failure { message: "broken pipe".to_string() } });
    let error = SessionError::ChunkUpload(ChunkUploadError {
        file: 1,
        chunk: 1,
        path: "site/f1".to_string(),
        cause: ClientError::Transport { message: "broken pipe".to_string() },
    });
    assert_eq!(session.error(), Some(&error));
    assert_eq!(session.state(), SessionState::Aborted);
}

#[test]
fn unreadable_acknowledgement_of_a_chunk_aborts() {
    let session = uploading(&[5]).handle(status(200, "<html>ok</html>"));
    let error = SessionError::ChunkUpload(ChunkUploadError {
        file: 1,
        chunk: 1,
        path: "site/f1".to_string(),
        cause: ClientError::Decode(DecodeError { body: "<html>ok</html>".to_string() }),
    });
    assert_eq!(session.error(), Some(&error));
    assert_eq!(
        error.message(),
        "Failed to upload chunk 1 of file 1 (site/f1): Failed to parse response JSON: <html>ok</html>"
    );
}

#[test]
fn failed_commit_is_told_apart_from_a_failed_upload() {
    let session = uploading(&[5]).handle(ok());
    assert_eq!(session.state(), SessionState::Committing);
    let session = session.handle(status(503, "try later"));
    assert_eq!(session.state(), SessionState::Aborted);
    let error = SessionError::Commit(CommitError {
        cause: ClientError::Request(RequestError { status: 503, body: "try later".to_string() }),
    });
    assert_eq!(session.error(), Some(&error));
    assert_eq!(
        error.message(),
        "All files were uploaded, but the deployment was not activated: HTTP request failed with status 503: try later"
    );
    assert_eq!(session.progress(), progress(1, 1, 1));
    assert_eq!(session.action(), Action::Finish);
}

#[test]
fn commit_without_reply_aborts() {
    let session = uploading(&[5])
        .handle(ok())
        .handle(Event::Replied { reply: Reply::Failure { message: "reset".to_string() } });
    let error = SessionError::Commit(CommitError {
        cause: ClientError::Transport { message: "reset".to_string() },
    });
    assert_eq!(session.error(), Some(&error));
}

#[test]
fn events_that_answer_nothing_are_ignored() {
    let session = session().handle(ok()).handle(listed(vec![], vec![]));
    assert_eq!(session.state(), SessionState::Idle);
    let session = session.handle(built()).handle(built()).handle(ok());
    assert_eq!(session.state(), SessionState::Enumerating);
    let session = session.handle(listed(vec![], vec![file("release/server", 15)]));
    let session = session.handle(built()).handle(listed(vec![], vec![]));
    assert_eq!(session.state(), SessionState::Uploading);
    assert_eq!(session.progress(), progress(0, 0, 2));
    let session = session.handle(ok()).handle(ok()).handle(built());
    assert_eq!(session.state(), SessionState::Committing);
    let session = session.handle(ok()).handle(ok()).handle(built());
    assert_eq!(session.state(), SessionState::Done);
    assert_eq!(session.progress(), progress(1, 2, 2));
}

#[test]
fn progress_never_falls() {
    let mut session = uploading(&[2 * C, 0, C + 1]);
    let mut last = session.progress();
    let events =
        [ok(), built(), ok(), ok(), status(200, "{}"), ok(), ok(), listed(vec![], vec![]), ok()];
    for event in events {
        session = session.handle(event);
        let now = session.progress();
        assert!(now.files_done >= last.files_done);
        assert!(now.chunks_done >= last.chunks_done);
        assert_eq!(now.total_chunks, last.total_chunks);
        assert!(now.chunks_done <= now.total_chunks);
        last = now;
    }
    assert_eq!(session.state(), SessionState::Aborted);
    assert_eq!(last, progress(2, 3, 5));
}

#[test]
fn session_uploads_in_the_order_of_the_plan() {
    let mut session = uploading(&[0, C - 1, 2 * C + 5, C]);
    let plan = plan_upload(session.files(), C);
    assert_eq!(plan.len() as u128, count_all_chunks(session.files(), C));
    assert_eq!(plan.len(), 6);
    for planned in &plan {
        let (due, _) = upload_of(session.action());
        assert_eq!(due, *planned);
        session = session.handle(ok());
    }
    assert_eq!(session.state(), SessionState::Committing);
}

#[test]
fn planning_twice_gives_the_same_chunks() {
    let first = uploading(&[3, 0, 10 * C, C + 1]);
    let second = uploading(&[3, 0, 10 * C, C + 1]);
    assert_eq!(first.files(), second.files());
    assert_eq!(plan_upload(first.files(), C), plan_upload(second.files(), C));
    assert_eq!(plan_upload(first.files(), C).len(), 14);
}

#[test]
fn plan_of_no_files_is_empty() {
    assert_eq!(plan_upload(&vec![], C), vec![]);
    assert_eq!(count_all_chunks(&vec![], C), 0);
}

#[test]
fn chunks_of_huge_files_are_counted_without_overflow() {
    let files = vec![
        FileEntry { path: "a".to_string(), size: u64::MAX, role: FileRole::FrontendAsset },
        FileEntry { path: "b".to_string(), size: u64::MAX, role: FileRole::ServerArtifact },
    ];
    assert_eq!(count_all_chunks(&files, 1), 2 * (u64::MAX as u128));
}
