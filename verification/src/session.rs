//! One deployment attempt, from the build to the commit.
//!
//! A `Session` decides; it does nothing by itself. It tells its caller what
//! to do next (`Session::action`), the caller does it and reports what came
//! of it (`Session::handle`). The session runs the builder, takes the
//! listings of the build output, has every chunk of every file uploaded in
//! order, each only once the one before it was acknowledged, and commits the
//! deployment when, and only when, all of them were. The first failure ends
//! the attempt: nothing further is sent, and the error tells what failed.

use vstd::prelude::*;
use crate::chunk::{chunk_at, chunk_count, ChunkDescriptor};
use crate::client::{chunk_request, json_request, Client, ClientView, ROUTE_UPLOAD_DONE};
use crate::config::{config_text, CloudConfig, CloudConfigView};
use crate::error::{client_error_text, ClientError, ClientErrorView};
use crate::files::{enumerated, files_view, listing_view, tolerated};
use crate::files::{DirEntry, DirEntryView, EnumerationError, FileEntry, FileEntryView};
use crate::json::json_bool_at;
use crate::net::{reply_body, Reply, ReplyView, SuccessResponse};
use crate::plan::{chunks_before, chunks_in_all};
use crate::request::{ClientBuilder, JsonBody, RequestView};
use crate::text::decimal;

verus! {

/// Where a session stands.
#[derive(Clone, Copy, Debug, PartialEq, Eq, Structural)]
pub enum SessionState {
    /// Nothing has happened yet; the build is due.
    Idle,
    /// The build succeeded; the listings of its output are due.
    Enumerating,
    /// Chunks are being uploaded.
    Uploading,
    /// Every chunk was acknowledged; the commit is due.
    Committing,
    /// The deployment was committed.
    Done,
    /// The attempt failed.
    Aborted,
}

/// How far the upload has come. No counter ever falls.
#[derive(Clone, Copy, Debug, PartialEq, Eq, Structural)]
pub struct UploadProgress {
    /// Files of which every chunk was acknowledged.
    pub files_done: usize,
    /// Chunks that were acknowledged.
    pub chunks_done: u128,
    /// Chunks of all files.
    pub total_chunks: u128,
}

/// The builder failed. Nothing was sent.
#[derive(Debug, PartialEq, Eq)]
pub struct BuildError {
    pub message: String,
}

/// A chunk was not acknowledged. `file` and `chunk` count from one, as an
/// operator reads them: chunk 1 of file 1 is the first chunk of the first
/// file.
#[derive(Debug, PartialEq, Eq)]
pub struct ChunkUploadError {
    pub file: usize,
    pub chunk: u64,
    pub path: String,
    pub cause: ClientError,
}

/// Every chunk was uploaded, but the deployment was not committed.
#[derive(Debug, PartialEq, Eq)]
pub struct CommitError {
    pub cause: ClientError,
}

/// Why a session was aborted.
#[derive(Debug, PartialEq, Eq)]
pub enum SessionError {
    Build(BuildError),
    Enumeration(EnumerationError),
    ChunkUpload(ChunkUploadError),
    Commit(CommitError),
}

/// A `SessionError` with its texts as sequences of characters.
pub enum SessionErrorView {
    Build { message: Seq<char> },
    Enumeration { message: Seq<char> },
    ChunkUpload { file: usize, chunk: u64, path: Seq<char>, cause: ClientErrorView },
    Commit { cause: ClientErrorView },
}

impl View for SessionError {
    type V = SessionErrorView;

    open spec fn view(&self) -> SessionErrorView {
        match self {
            SessionError::Build(e) => SessionErrorView::Build { message: e.message@ },
            SessionError::Enumeration(e) => SessionErrorView::Enumeration { message: e.message@ },
            SessionError::ChunkUpload(e) => SessionErrorView::ChunkUpload {
                file: e.file,
                chunk: e.chunk,
                path: e.path@,
                cause: e.cause@,
            },
            SessionError::Commit(e) => SessionErrorView::Commit { cause: e.cause@ },
        }
    }
}

/// The text of `SessionError::message`.
pub open spec fn session_error_text(error: SessionErrorView) -> Seq<char> {
    match error {
        SessionErrorView::Build { message } => "Failed to build project: "@ + message,
        SessionErrorView::Enumeration { message } => "Failed to collect server files: "@ + message,
        SessionErrorView::ChunkUpload { file, chunk, path, cause } => "Failed to upload chunk "@
            + decimal(chunk as nat) + " of file "@ + decimal(file as nat) + " ("@ + path + "): "@
            + client_error_text(cause),
        SessionErrorView::Commit { cause } =>
            "All files were uploaded, but the deployment was not activated: "@ + client_error_text(
                cause,
            ),
    }
}

impl SessionError {
    /// A line of text for the operator. It tells which step failed: the
    /// build, before anything was uploaded; the upload, with the file and
    /// the chunk; or the commit, after everything was uploaded.
    pub fn message(&self) -> (text: String)
        ensures
            text@ == session_error_text(self@),
    {
        match self {
            SessionError::Build(e) => crate::text::join(
                "Failed to build project: ",
                e.message.as_str(),
            ),
            SessionError::Enumeration(e) => crate::text::join(
                "Failed to collect server files: ",
                e.message.as_str(),
            ),
            SessionError::ChunkUpload(e) => {
                let mut text: String = String::from_str("Failed to upload chunk ");
                let chunk: String = crate::text::decimal_string(e.chunk);
                text.append(chunk.as_str());
                text.append(" of file ");
                let file: String = crate::text::decimal_string(e.file as u64);
                text.append(file.as_str());
                text.append(" (");
                text.append(e.path.as_str());
                text.append("): ");
                let cause: String = e.cause.message();
                text.append(cause.as_str());
                text
            },
            SessionError::Commit(e) => {
                let cause: String = e.cause.message();
                crate::text::join(
                    "All files were uploaded, but the deployment was not activated: ",
                    cause.as_str(),
                )
            },
        }
    }
}

/// What the caller reports to the session.
#[derive(Debug, PartialEq, Eq)]
pub enum Event {
    /// The builder ended: with success, or with the reason of its failure.
    Built { result: Result<(), String> },
    /// The two directories of the build output were listed. Each is given
    /// as its entries, or as the reason why it could not be read.
    Listed { frontend: Result<Vec<DirEntry>, String>, server: Result<Vec<DirEntry>, String> },
    /// The request of the last action was sent, and this came back.
    Replied { reply: Reply },
}

/// An `Event` with its texts as sequences of characters. A frontend
/// directory that could not be read stands here as an empty listing.
pub enum EventView {
    Built { result: Result<(), Seq<char>> },
    Listed { frontend: Seq<DirEntryView>, server: Result<Seq<DirEntryView>, Seq<char>> },
    Replied { reply: ReplyView },
}

impl View for Event {
    type V = EventView;

    open spec fn view(&self) -> EventView {
        match self {
            Event::Built { result } => EventView::Built {
                result: match result {
                    Ok(_) => Ok(()),
                    Err(message) => Err(message@),
                },
            },
            Event::Listed { frontend, server } => EventView::Listed {
                frontend: tolerated(*frontend),
                server: match server {
                    Ok(entries) => Ok(listing_view(entries@)),
                    Err(message) => Err(message@),
                },
            },
            Event::Replied { reply } => EventView::Replied { reply: reply@ },
        }
    }
}

/// What the session asks its caller to do.
#[derive(Debug, PartialEq, Eq)]
pub enum Action {
    /// Run the builder, and report `Event::Built`.
    Build,
    /// List the frontend directory and the server directory, and report
    /// `Event::Listed`.
    Enumerate,
    /// Send `request`, which uploads `chunk`, and report `Event::Replied`.
    Upload { chunk: ChunkDescriptor, request: ClientBuilder },
    /// Send `request`, which commits the deployment, and report
    /// `Event::Replied`.
    Commit { request: ClientBuilder },
    /// Nothing is left to do: the session is done or aborted.
    Finish,
}

/// An `Action` with its requests as views.
pub enum ActionView {
    Build,
    Enumerate,
    Upload { chunk: ChunkDescriptor, request: RequestView },
    Commit { request: RequestView },
    Finish,
}

impl View for Action {
    type V = ActionView;

    open spec fn view(&self) -> ActionView {
        match self {
            Action::Build => ActionView::Build,
            Action::Enumerate => ActionView::Enumerate,
            Action::Upload { chunk, request } => ActionView::Upload {
                chunk: *chunk,
                request: request@,
            },
            Action::Commit { request } => ActionView::Commit { request: request@ },
            Action::Finish => ActionView::Finish,
        }
    }
}

/// One deployment attempt.
pub struct Session {
    client: Client,
    config: CloudConfig,
    chunk_size: u64,
    state: SessionState,
    files: Vec<FileEntry>,
    file_index: usize,
    chunk_index: u64,
    progress: UploadProgress,
    error: Option<SessionError>,
}

/// A session as a value of the mathematical model.
pub struct SessionView {
    pub client: ClientView,
    pub config: CloudConfigView,
    pub chunk_size: u64,
    pub state: SessionState,
    /// The enumerated files; empty until they are known.
    pub files: Seq<FileEntryView>,
    /// While uploading: position of the file that is being sent.
    pub file_index: usize,
    /// While uploading: index of the chunk that is to be acknowledged next.
    pub chunk_index: u64,
    pub progress: UploadProgress,
    /// Why the session was aborted, if it was.
    pub error: Option<SessionErrorView>,
}

/// The view of an optional error.
pub open spec fn error_view(error: Option<SessionError>) -> Option<SessionErrorView> {
    match error {
        Some(e) => Some(e@),
        None => None,
    }
}

impl View for Session {
    type V = SessionView;

    closed spec fn view(&self) -> SessionView {
        SessionView {
            client: self.client@,
            config: self.config@,
            chunk_size: self.chunk_size,
            state: self.state,
            files: files_view(self.files@),
            file_index: self.file_index,
            chunk_index: self.chunk_index,
            progress: self.progress,
            error: error_view(self.error),
        }
    }
}

/// What holds of every session: the counters agree with the position in the
/// file list, the commit is due only when every chunk was acknowledged, and
/// an error is kept exactly when the session was aborted.
pub open spec fn well_formed(s: SessionView) -> bool {
    &&& s.chunk_size > 0
    &&& s.files.len() <= usize::MAX
    &&& s.progress.total_chunks == chunks_in_all(s.files, s.chunk_size)
    &&& s.progress.files_done <= s.files.len()
    &&& s.progress.chunks_done <= s.progress.total_chunks
    &&& (s.state == SessionState::Aborted <==> s.error is Some)
    &&& match s.state {
        SessionState::Idle | SessionState::Enumerating => {
            &&& s.files.len() == 0
            &&& s.file_index == 0
            &&& s.chunk_index == 0
            &&& s.progress.files_done == 0
            &&& s.progress.chunks_done == 0
        },
        SessionState::Uploading => {
            &&& s.file_index < s.files.len()
            &&& s.chunk_index < chunk_count(
                s.files[s.file_index as int].size as nat,
                s.chunk_size as nat,
            )
            &&& s.progress.files_done == s.file_index
            &&& s.progress.chunks_done == chunks_before(s.files, s.chunk_size, s.file_index as nat)
                + s.chunk_index
        },
        SessionState::Committing | SessionState::Done => {
            &&& s.file_index == s.files.len()
            &&& s.chunk_index == 0
            &&& s.progress.files_done == s.files.len()
            &&& s.progress.chunks_done == s.progress.total_chunks
            &&& config_text(s.config) is Some
        },
        SessionState::Aborted => true,
    }
}

/// Whether a reply acknowledges a request: `None` where it has a 2xx status
/// and a body that holds the member `success`, else the error that it
/// stands for.
pub open spec fn refusal(reply: ReplyView) -> Option<ClientErrorView> {
    match reply_body(reply) {
        Err(error) => Some(error),
        Ok(body) => if json_bool_at(body, "/success"@) is Some {
            None
        } else {
            Some(ClientErrorView::Decode { body })
        },
    }
}

/// The session `s`, aborted for `error`.
pub open spec fn aborted(s: SessionView, error: SessionErrorView) -> SessionView {
    SessionView { state: SessionState::Aborted, error: Some(error), ..s }
}

/// The session `s` once every chunk was acknowledged: the commit is due,
/// unless the manifest cannot be written.
pub open spec fn uploaded(s: SessionView) -> SessionView {
    if config_text(s.config) is Some {
        SessionView { state: SessionState::Committing, ..s }
    } else {
        aborted(s, SessionErrorView::Commit { cause: ClientErrorView::Encode })
    }
}

/// The session `s` once `files` were enumerated.
pub open spec fn enumerated_session(s: SessionView, files: Seq<FileEntryView>) -> SessionView {
    let listed = SessionView {
        files,
        file_index: 0,
        chunk_index: 0,
        progress: UploadProgress {
            files_done: 0,
            chunks_done: 0,
            total_chunks: chunks_in_all(files, s.chunk_size) as u128,
        },
        ..s
    };
    if files.len() == 0 {
        uploaded(listed)
    } else {
        SessionView { state: SessionState::Uploading, ..listed }
    }
}

/// The session `s` once the chunk that was due was acknowledged.
pub open spec fn acknowledged(s: SessionView) -> SessionView {
    let chunks_done = (s.progress.chunks_done + 1) as u128;
    if s.chunk_index + 1 < chunk_count(
        s.files[s.file_index as int].size as nat,
        s.chunk_size as nat,
    ) {
        SessionView {
            chunk_index: (s.chunk_index + 1) as u64,
            progress: UploadProgress { chunks_done, ..s.progress },
            ..s
        }
    } else {
        let next = SessionView {
            file_index: (s.file_index + 1) as usize,
            chunk_index: 0,
            progress: UploadProgress {
                files_done: (s.progress.files_done + 1) as usize,
                chunks_done,
                ..s.progress
            },
            ..s
        };
        if s.file_index + 1 < s.files.len() {
            next
        } else {
            uploaded(next)
        }
    }
}

/// The error for the chunk that is due, refused for `cause`.
pub open spec fn chunk_refused(s: SessionView, cause: ClientErrorView) -> SessionErrorView {
    SessionErrorView::ChunkUpload {
        file: (s.file_index + 1) as usize,
        chunk: (s.chunk_index + 1) as u64,
        path: s.files[s.file_index as int].path,
        cause,
    }
}

/// The session that follows `s` on `event`. An event that does not answer
/// the action of `s` changes nothing.
pub open spec fn step(s: SessionView, event: EventView) -> SessionView {
    match (s.state, event) {
        (SessionState::Idle, EventView::Built { result: Ok(_) }) => SessionView {
            state: SessionState::Enumerating,
            ..s
        },
        (SessionState::Idle, EventView::Built { result: Err(message) }) => aborted(
            s,
            SessionErrorView::Build { message },
        ),
        (SessionState::Enumerating, EventView::Listed { frontend, server: Ok(entries) }) =>
            enumerated_session(s, enumerated(frontend, entries)),
        (SessionState::Enumerating, EventView::Listed { frontend, server: Err(message) }) =>
            aborted(s, SessionErrorView::Enumeration { message }),
        (SessionState::Uploading, EventView::Replied { reply }) => match refusal(reply) {
            None => acknowledged(s),
            Some(cause) => aborted(s, chunk_refused(s, cause)),
        },
        (SessionState::Committing, EventView::Replied { reply }) => match refusal(reply) {
            None => SessionView { state: SessionState::Done, ..s },
            Some(cause) => aborted(s, SessionErrorView::Commit { cause }),
        },
        _ => s,
    }
}

/// What the session `s` asks its caller to do.
pub open spec fn action_of(s: SessionView) -> ActionView {
    match s.state {
        SessionState::Idle => ActionView::Build,
        SessionState::Enumerating => ActionView::Enumerate,
        SessionState::Uploading => {
            let file = s.files[s.file_index as int];
            let chunk = chunk_at(s.file_index, file.size, s.chunk_size, s.chunk_index as nat);
            ActionView::Upload {
                chunk,
                request: chunk_request(s.client, s.config.slug, file.path, chunk),
            }
        },
        SessionState::Committing => ActionView::Commit {
            request: json_request(s.client, ROUTE_UPLOAD_DONE@, config_text(s.config).unwrap()),
        },
        SessionState::Done | SessionState::Aborted => ActionView::Finish,
    }
}

impl Session {
    #[verifier::type_invariant]
    spec fn is_well_formed(self) -> bool {
        well_formed(self@)
    }

    /// A session that has not started, for the given manifest. Files are
    /// cut into chunks of `chunk_size` bytes. `None` where `chunk_size` is
    /// zero.
    pub fn with_chunk_size(client: Client, config: CloudConfig, chunk_size: u64) -> (session:
        Option<Session>)
        ensures
            chunk_size == 0 <==> session is None,
            session matches Some(s) ==> s@ == initial(client@, config@, chunk_size)
                && well_formed(s@),
    {
        if chunk_size == 0 {
            return None;
        }
        let files: Vec<FileEntry> = Vec::new();
        assert(files_view(files@) =~= Seq::empty());
        Some(
            Session {
                client,
                config,
                chunk_size,
                state: SessionState::Idle,
                files,
                file_index: 0,
                chunk_index: 0,
                progress: UploadProgress { files_done: 0, chunks_done: 0, total_chunks: 0 },
                error: None,
            },
        )
    }

    /// A session that has not started, with chunks of the default size.
    pub fn new(client: Client, config: CloudConfig) -> (session: Session)
        ensures
            session@ == initial(client@, config@, crate::chunk::DEFAULT_CHUNK_SIZE),
            well_formed(session@),
    {
        let files: Vec<FileEntry> = Vec::new();
        assert(files_view(files@) =~= Seq::empty());
        Session {
            client,
            config,
            chunk_size: crate::chunk::DEFAULT_CHUNK_SIZE,
            state: SessionState::Idle,
            files,
            file_index: 0,
            chunk_index: 0,
            progress: UploadProgress { files_done: 0, chunks_done: 0, total_chunks: 0 },
            error: None,
        }
    }

    /// Where the session stands.
    pub fn state(&self) -> (state: SessionState)
        ensures
            state == self@.state,
    {
        self.state
    }

    /// How far the upload has come.
    pub fn progress(&self) -> (progress: UploadProgress)
        ensures
            progress == self@.progress,
            progress.chunks_done <= progress.total_chunks,
            progress.files_done <= self@.files.len(),
    {
        proof {
            use_type_invariant(self);
        }
        self.progress
    }

    /// Why the session was aborted: `Some` exactly in the state `Aborted`.
    pub fn error(&self) -> (error: Option<&SessionError>)
        ensures
            error is Some <==> self@.state == SessionState::Aborted,
            match error {
                Some(e) => self@.error == Some(e@),
                None => self@.error is None,
            },
    {
        proof {
            use_type_invariant(self);
        }
        self.error.as_ref()
    }

    /// The enumerated files; none before they are known.
    pub fn files(&self) -> (files: &Vec<FileEntry>)
        ensures
            files_view(files@) == self@.files,
    {
        &self.files
    }

    /// The manifest of the deployment.
    pub fn config(&self) -> (config: &CloudConfig)
        ensures
            config@ == self@.config,
    {
        &self.config
    }

    /// The size of a full chunk.
    pub fn chunk_size(&self) -> (chunk_size: u64)
        ensures
            chunk_size == self@.chunk_size,
            chunk_size > 0,
    {
        proof {
            use_type_invariant(self);
        }
        self.chunk_size
    }

    /// Whether nothing is left to do.
    pub fn is_finished(&self) -> (finished: bool)
        ensures
            finished == (self@.state == SessionState::Done || self@.state
                == SessionState::Aborted),
    {
        match self.state {
            SessionState::Done | SessionState::Aborted => true,
            _ => false,
        }
    }

    /// What is to be done next. A request is handed out only for uploading
    /// the chunk that is due, or, when every chunk was acknowledged, for the
    /// commit.
    pub fn action(&self) -> (action: Action)
        ensures
            action@ == action_of(self@),
            well_formed(self@),
    {
        proof {
            use_type_invariant(self);
        }
        match self.state {
            SessionState::Idle => Action::Build,
            SessionState::Enumerating => Action::Enumerate,
            SessionState::Uploading => {
                let file: &FileEntry = &self.files[self.file_index];
                assert(files_view(self.files@)[self.file_index as int] == file@);
                match ChunkDescriptor::locate(
                    self.file_index,
                    file.size,
                    self.chunk_size,
                    self.chunk_index,
                ) {
                    Some(chunk) => {
                        let request = self.client.upload_chunk(
                            self.config.app.slug.as_str(),
                            file.path.as_str(),
                            &chunk,
                        );
                        Action::Upload { chunk, request }
                    },
                    None => {
                        assert(false);
                        Action::Finish
                    },
                }
            },
            SessionState::Committing => match self.client.upload_done(&self.config) {
                Ok(request) => Action::Commit { request },
                Err(_) => {
                    assert(false);
                    Action::Finish
                },
            },
            SessionState::Done | SessionState::Aborted => Action::Finish,
        }
    }

    /// Takes note of what the caller reports and moves on. An event that
    /// does not answer the action of the session is ignored. No counter of
    /// the progress falls, and a session that is done or aborted stays as it
    /// is.
    pub fn handle(self, event: Event) -> (next: Session)
        ensures
            next@ == step(self@, event@),
            well_formed(self@),
            well_formed(next@),
            self@.progress.files_done <= next@.progress.files_done,
            self@.progress.chunks_done <= next@.progress.chunks_done,
    {
        let ghost old_session = self@;
        let ghost reported = event@;
        proof {
            use_type_invariant(&self);
            lemma_progress_never_falls(old_session, reported);
            if !(reported is Listed) {
                lemma_step_keeps_well_formed(old_session, reported);
            }
        }
        let Session {
            client,
            config,
            chunk_size,
            state,
            files,
            file_index,
            chunk_index,
            progress,
            error,
        } = self;
        match (state, event) {
            (SessionState::Idle, Event::Built { result: Ok(_) }) => Session {
                client,
                config,
                chunk_size,
                state: SessionState::Enumerating,
                files,
                file_index,
                chunk_index,
                progress,
                error,
            },
            (SessionState::Idle, Event::Built { result: Err(message) }) => Session {
                client,
                config,
                chunk_size,
                state: SessionState::Aborted,
                files,
                file_index,
                chunk_index,
                progress,
                error: Some(SessionError::Build(BuildError { message })),
            },
            (SessionState::Enumerating, Event::Listed { frontend, server }) => {
                match crate::files::enumerate(frontend, server) {
                    Err(e) => Session {
                        client,
                        config,
                        chunk_size,
                        state: SessionState::Aborted,
                        files,
                        file_index,
                        chunk_index,
                        progress,
                        error: Some(SessionError::Enumeration(e)),
                    },
                    Ok(found) => {
                        let total: u128 = crate::plan::count_all_chunks(&found, chunk_size);
                        let number: usize = found.len();
                        proof {
                            lemma_step_keeps_well_formed(old_session, reported);
                        }
                        let progress = UploadProgress {
                            files_done: 0,
                            chunks_done: 0,
                            total_chunks: total,
                        };
                        if number == 0 {
                            Session::uploaded(client, config, chunk_size, found, 0, progress)
                        } else {
                            Session {
                                client,
                                config,
                                chunk_size,
                                state: SessionState::Uploading,
                                files: found,
                                file_index: 0,
                                chunk_index: 0,
                                progress,
                                error: None,
                            }
                        }
                    },
                }
            },
            (SessionState::Uploading, Event::Replied { reply }) => {
                let ghost before = files_view(files@);
                assert(before[file_index as int] == files@[file_index as int]@);
                proof {
                    crate::chunk::lemma_count_fits(
                        before[file_index as int].size as nat,
                        chunk_size as nat,
                    );
                }
                match crate::net::receive::<SuccessResponse>(reply) {
                    Err(cause) => {
                        let path: String = files[file_index].path.clone();
                        Session {
                            client,
                            config,
                            chunk_size,
                            state: SessionState::Aborted,
                            files,
                            file_index,
                            chunk_index,
                            progress,
                            error: Some(
                                SessionError::ChunkUpload(
                                    ChunkUploadError {
                                        file: file_index + 1,
                                        chunk: chunk_index + 1,
                                        path,
                                        cause,
                                    },
                                ),
                            ),
                        }
                    },
                    Ok(_) => {
                        proof {
                            crate::plan::lemma_plan_length(
                                before,
                                chunk_size,
                                (file_index + 1) as nat,
                            );
                        }
                        let count: u64 = crate::chunk::count_chunks(
                            files[file_index].size,
                            chunk_size,
                        );
                        let chunks_done: u128 = progress.chunks_done + 1;
                        if chunk_index + 1 < count {
                            Session {
                                client,
                                config,
                                chunk_size,
                                state: SessionState::Uploading,
                                files,
                                file_index,
                                chunk_index: chunk_index + 1,
                                progress: UploadProgress { chunks_done, ..progress },
                                error: None,
                            }
                        } else {
                            let progress = UploadProgress {
                                files_done: progress.files_done + 1,
                                chunks_done,
                                total_chunks: progress.total_chunks,
                            };
                            if file_index + 1 < files.len() {
                                Session {
                                    client,
                                    config,
                                    chunk_size,
                                    state: SessionState::Uploading,
                                    files,
                                    file_index: file_index + 1,
                                    chunk_index: 0,
                                    progress,
                                    error: None,
                                }
                            } else {
                                Session::uploaded(
                                    client,
                                    config,
                                    chunk_size,
                                    files,
                                    file_index + 1,
                                    progress,
                                )
                            }
                        }
                    },
                }
            },
            (SessionState::Committing, Event::Replied { reply }) => {
                match crate::net::receive::<SuccessResponse>(reply) {
                    Ok(_) => Session {
                        client,
                        config,
                        chunk_size,
                        state: SessionState::Done,
                        files,
                        file_index,
                        chunk_index,
                        progress,
                        error: None,
                    },
                    Err(cause) => Session {
                        client,
                        config,
                        chunk_size,
                        state: SessionState::Aborted,
                        files,
                        file_index,
                        chunk_index,
                        progress,
                        error: Some(SessionError::Commit(CommitError { cause })),
                    },
                }
            },
            (state, _) => Session {
                client,
                config,
                chunk_size,
                state,
                files,
                file_index,
                chunk_index,
                progress,
                error,
            },
        }
    }

    /// The session once every chunk was acknowledged.
    fn uploaded(
        client: Client,
        config: CloudConfig,
        chunk_size: u64,
        files: Vec<FileEntry>,
        file_index: usize,
        progress: UploadProgress,
    ) -> (next: Session)
        requires
            well_formed(
                uploaded(
                    SessionView {
                        client: client@,
                        config: config@,
                        chunk_size,
                        state: SessionState::Uploading,
                        files: files_view(files@),
                        file_index,
                        chunk_index: 0,
                        progress,
                        error: None,
                    },
                ),
            ),
        ensures
            next@ == uploaded(
                SessionView {
                    client: client@,
                    config: config@,
                    chunk_size,
                    state: SessionState::Uploading,
                    files: files_view(files@),
                    file_index,
                    chunk_index: 0,
                    progress,
                    error: None,
                },
            ),
    {
        match config.to_json() {
            Some(_) => Session {
                client,
                config,
                chunk_size,
                state: SessionState::Committing,
                files,
                file_index,
                chunk_index: 0,
                progress,
                error: None,
            },
            None => Session {
                client,
                config,
                chunk_size,
                state: SessionState::Aborted,
                files,
                file_index,
                chunk_index: 0,
                progress,
                error: Some(SessionError::Commit(CommitError { cause: ClientError::Encode })),
            },
        }
    }
}

/// The session before anything has happened.
pub open spec fn initial(client: ClientView, config: CloudConfigView, chunk_size: u64) -> SessionView {
    SessionView {
        client,
        config,
        chunk_size,
        state: SessionState::Idle,
        files: Seq::empty(),
        file_index: 0,
        chunk_index: 0,
        progress: UploadProgress { files_done: 0, chunks_done: 0, total_chunks: 0 },
        error: None,
    }
}

/// Whether an event can be reported: the files that two listings give can
/// be counted.
pub open spec fn reportable(event: EventView) -> bool {
    match event {
        EventView::Listed { frontend, server: Ok(entries) } => enumerated(frontend, entries).len()
            <= usize::MAX,
        _ => true,
    }
}

/// Whatever is reported, a session stays well formed.
pub proof fn lemma_step_keeps_well_formed(s: SessionView, event: EventView)
    requires
        well_formed(s),
        reportable(event),
    ensures
        well_formed(step(s, event)),
{
    match (s.state, event) {
        (SessionState::Enumerating, EventView::Listed { frontend, server: Ok(entries) }) => {
            let files = enumerated(frontend, entries);
            lemma_total_fits(files, s.chunk_size, files.len());
            assert(files.len() * 0xffff_ffff_ffff_ffff <= u128::MAX) by (nonlinear_arith)
                requires
                    files.len() <= 0xffff_ffff_ffff_ffff,
            ;
            if files.len() > 0 {
                crate::chunk::lemma_count_fits(files[0].size as nat, s.chunk_size as nat);
                crate::plan::lemma_plan_length(files, s.chunk_size, 1);
                assert(chunks_before(files, s.chunk_size, 0) == 0);
            }
        },
        (SessionState::Uploading, EventView::Replied { reply }) => {
            let file = s.file_index as nat;
            crate::plan::lemma_plan_length(s.files, s.chunk_size, file + 1);
            crate::chunk::lemma_count_fits(
                s.files[file as int].size as nat,
                s.chunk_size as nat,
            );
            if file + 1 < s.files.len() {
                crate::chunk::lemma_count_fits(
                    s.files[file as int + 1].size as nat,
                    s.chunk_size as nat,
                );
                crate::plan::lemma_plan_length(s.files, s.chunk_size, file + 2);
            }
        },
        _ => {},
    }
}

/// Whatever is reported, no counter of the progress falls, and the number of
/// chunks of all files changes only when the files are enumerated.
pub proof fn lemma_progress_never_falls(s: SessionView, event: EventView)
    requires
        well_formed(s),
    ensures
        s.progress.files_done <= step(s, event).progress.files_done,
        s.progress.chunks_done <= step(s, event).progress.chunks_done,
        s.state != SessionState::Enumerating ==> step(s, event).progress.total_chunks
            == s.progress.total_chunks,
{
    match (s.state, event) {
        (SessionState::Uploading, EventView::Replied { reply }) => {
            crate::plan::lemma_plan_length(s.files, s.chunk_size, (s.file_index + 1) as nat);
        },
        _ => {},
    }
}

/// The chunks of the first `k` files are fewer than 2^64 for each file.
proof fn lemma_total_fits(files: Seq<FileEntryView>, chunk_size: u64, k: nat)
    requires
        chunk_size > 0,
        k <= files.len(),
    ensures
        chunks_before(files, chunk_size, k) <= k * 0xffff_ffff_ffff_ffff,
    decreases k,
{
    if k > 0 {
        lemma_total_fits(files, chunk_size, (k - 1) as nat);
        crate::chunk::lemma_count_fits(files[k - 1].size as nat, chunk_size as nat);
    }
}

} // verus!
