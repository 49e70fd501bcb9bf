//! The requests of the platform's interface.
//!
//! A `Client` holds the credential and the address of the platform, and
//! builds every request that the platform understands. Each request carries
//! the credential as a bearer token. Sending is left to the caller; what
//! comes back is read with `crate::net::receive`.

use vstd::prelude::*;
use crate::chunk::{chunk_at, chunk_count, ChunkDescriptor};
use crate::config::CloudConfig;
use crate::error::{ClientError, ClientErrorView};
use crate::net::{log_text, new_app_text, new_team_text, set_team_name_text};
use crate::net::{AppMeta, LogRequest, NewAppRequest, NewTeamRequest, NoBody, SetTeamNameRequest};
use crate::net::APP_META;
use crate::request::{BodyView, ClientBuilder, Form, JsonBody, Method, PartView, RequestView};
use crate::request::{APPLICATION_JSON, AUTHORIZATION, BEARER_PREFIX, CONTENT_TYPE};
use crate::text::decimal;

verus! {

/// Address of the platform's interface, used unless another is given.
pub const DEFAULT_BASE_URL: &'static str = "https://oxyde.cloud/api/v1/";

/// Route that lists the teams of the user.
pub const ROUTE_TEAMS: &'static str = "teams";

/// Route that claims an application slug.
pub const ROUTE_NEW_APP: &'static str = "apps/new";

/// Route that claims a team slug.
pub const ROUTE_NEW_TEAM: &'static str = "teams/new";

/// Route that names a team.
pub const ROUTE_TEAM_NAME: &'static str = "teams/name";

/// Route that checks the credential.
pub const ROUTE_LOGIN: &'static str = "login";

/// Route that takes one chunk of a file.
pub const ROUTE_UPLOAD_FILE: &'static str = "apps/upload-file";

/// Route that commits a deployment.
pub const ROUTE_UPLOAD_DONE: &'static str = "apps/upload-done";

/// Route that returns the log of an application.
pub const ROUTE_LOG: &'static str = "log";

/// The credential and the address of the platform.
pub struct Client {
    api_key: String,
    base_url: String,
}

/// A `Client` with its texts as sequences of characters.
pub struct ClientView {
    pub api_key: Seq<char>,
    pub base_url: Seq<char>,
}

impl View for Client {
    type V = ClientView;

    closed spec fn view(&self) -> ClientView {
        ClientView { api_key: self.api_key@, base_url: self.base_url@ }
    }
}

/// The address to use: the one given when the program runs, else the one
/// given when it was built, else the default.
pub open spec fn resolved_base_url(runtime: Option<Seq<char>>, built_in: Option<Seq<char>>) -> Seq<
    char,
> {
    match runtime {
        Some(url) => url,
        None => match built_in {
            Some(url) => url,
            None => DEFAULT_BASE_URL@,
        },
    }
}

/// The view of an optional text.
pub open spec fn text_view(text: Option<String>) -> Option<Seq<char>> {
    match text {
        Some(t) => Some(t@),
        None => None,
    }
}

/// Chooses the address of the platform. An address given when the program
/// runs wins over one given when it was built, and that over the default.
pub fn resolve_base_url(runtime: Option<String>, built_in: Option<String>) -> (url: String)
    ensures
        url@ == resolved_base_url(text_view(runtime), text_view(built_in)),
{
    match runtime {
        Some(url) => url,
        None => match built_in {
            Some(url) => url,
            None => String::from_str(DEFAULT_BASE_URL),
        },
    }
}

/// A request to `route` that carries the credential and nothing else.
pub open spec fn authorized(client: ClientView, method: Method, route: Seq<char>) -> RequestView {
    RequestView {
        method,
        url: client.base_url + route,
        headers: seq![(AUTHORIZATION@, BEARER_PREFIX@ + client.api_key)],
        body: BodyView::Empty,
    }
}

/// A POST request to `route` with the JSON body `text`.
pub open spec fn json_request(client: ClientView, route: Seq<char>, text: Seq<char>) -> RequestView {
    RequestView {
        method: Method::Post,
        url: client.base_url + route,
        headers: seq![
            (AUTHORIZATION@, BEARER_PREFIX@ + client.api_key),
            (CONTENT_TYPE@, APPLICATION_JSON@),
        ],
        body: BodyView::Text(text),
    }
}

/// The form that carries one chunk: the bytes of the chunk under `file`,
/// then the index of the chunk and the number of chunks of the file, both as
/// decimal numerals.
pub open spec fn chunk_form(path: Seq<char>, chunk: ChunkDescriptor) -> Seq<PartView> {
    seq![
        PartView::FileRange {
            name: "file"@,
            file_name: path,
            offset: chunk.offset,
            length: chunk.length,
        },
        PartView::Text { name: "chunk_number"@, value: decimal(chunk.index as nat) },
        PartView::Text { name: "total_chunks"@, value: decimal(chunk.total_chunks as nat) },
    ]
}

/// The request that uploads one chunk of the file `path` for the
/// application `app_slug`.
pub open spec fn chunk_request(
    client: ClientView,
    app_slug: Seq<char>,
    path: Seq<char>,
    chunk: ChunkDescriptor,
) -> RequestView {
    RequestView {
        method: Method::Post,
        url: client.base_url + ROUTE_UPLOAD_FILE@,
        headers: seq![(AUTHORIZATION@, BEARER_PREFIX@ + client.api_key), (APP_META@, app_slug)],
        body: BodyView::Multipart(chunk_form(path, chunk)),
    }
}

/// What a function that sends `body` as JSON to `route` returns.
pub open spec fn posts_json(
    client: ClientView,
    route: Seq<char>,
    body: Option<Seq<char>>,
    result: Result<ClientBuilder, ClientError>,
) -> bool {
    match body {
        None => (result matches Err(e) && e@ == ClientErrorView::Encode),
        Some(text) => (result matches Ok(request) && request@ == json_request(
            client,
            route,
            text,
        )),
    }
}

/// The header that carries the credential of a client.
pub open spec fn credential_header(client: ClientView) -> (Seq<char>, Seq<char>) {
    (AUTHORIZATION@, BEARER_PREFIX@ + client.api_key)
}

/// Every request that a client builds carries the credential: its first
/// header is `Authorization`, with `Bearer ` and the token.
pub proof fn lemma_requests_carry_credential(
    client: ClientView,
    method: Method,
    route: Seq<char>,
    text: Seq<char>,
    app_slug: Seq<char>,
    path: Seq<char>,
    chunk: ChunkDescriptor,
)
    ensures
        authorized(client, method, route).headers[0] == credential_header(client),
        json_request(client, route, text).headers[0] == credential_header(client),
        chunk_request(client, app_slug, path, chunk).headers[0] == credential_header(client),
{
}

impl Client {
    /// A client for the platform at its default address.
    pub fn new(api_key: String) -> (client: Client)
        ensures
            client@ == (ClientView { api_key: api_key@, base_url: DEFAULT_BASE_URL@ }),
    {
        Client { api_key, base_url: String::from_str(DEFAULT_BASE_URL) }
    }

    /// A client for the platform at `base_url`.
    pub fn with_base_url(api_key: String, base_url: String) -> (client: Client)
        ensures
            client@ == (ClientView { api_key: api_key@, base_url: base_url@ }),
    {
        Client { api_key, base_url }
    }

    /// A copy of the client.
    pub fn duplicate(&self) -> (client: Client)
        ensures
            client@ == self@,
    {
        Client { api_key: self.api_key.clone(), base_url: self.base_url.clone() }
    }

    /// The address of `route`: the base address with the route behind it.
    pub fn build_route(&self, route: &str) -> (url: String)
        ensures
            url@ == self@.base_url + route@,
    {
        crate::text::join(self.base_url.as_str(), route)
    }

    /// A request to `route` with the given method, which carries the
    /// credential.
    fn request(&self, method: Method, route: &str) -> (request: ClientBuilder)
        ensures
            request@ == authorized(self@, method, route@),
    {
        let request = ClientBuilder::new(method, self.build_route(route)).auth_header(
            self.api_key.as_str(),
        );
        assert(request@.headers =~= authorized(self@, method, route@).headers);
        request
    }

    /// A POST request to `route`, which carries the credential.
    pub fn post(&self, route: &str) -> (request: ClientBuilder)
        ensures
            request@ == authorized(self@, Method::Post, route@),
    {
        self.request(Method::Post, route)
    }

    /// A GET request to `route`, which carries the credential.
    pub fn get(&self, route: &str) -> (request: ClientBuilder)
        ensures
            request@ == authorized(self@, Method::Get, route@),
    {
        self.request(Method::Get, route)
    }

    /// A POST request to `route` with `body` as JSON.
    fn post_json<B: JsonBody>(&self, route: &str, body: &B) -> (result: Result<
        ClientBuilder,
        ClientError,
    >)
        ensures
            posts_json(self@, route@, body.json_text(), result),
    {
        let result = self.post(route).json(body);
        proof {
            if result is Ok {
                assert(result.unwrap()@.headers =~= json_request(
                    self@,
                    route@,
                    body.json_text().unwrap(),
                ).headers);
            }
        }
        result
    }

    /// The request that lists the teams of the user. The reply is a
    /// `Vec<Team>`.
    pub fn teams(&self) -> (request: ClientBuilder)
        ensures
            request@ == authorized(self@, Method::Get, ROUTE_TEAMS@),
    {
        self.get(ROUTE_TEAMS)
    }

    /// The request that claims `app_slug` for the team `team_slug`. The
    /// reply is a `CheckAvailabilityResponse`.
    pub fn new_app(&self, app_slug: &str, team_slug: &str) -> (result: Result<
        ClientBuilder,
        ClientError,
    >)
        ensures
            posts_json(self@, ROUTE_NEW_APP@, new_app_text(team_slug@, app_slug@), result),
    {
        let body = NewAppRequest {
            team_slug: String::from_str(team_slug),
            app_slug: String::from_str(app_slug),
        };
        self.post_json(ROUTE_NEW_APP, &body)
    }

    /// The request that claims `team_slug` for a new team. The reply is a
    /// `CheckAvailabilityResponse`.
    pub fn new_team(&self, team_slug: &str) -> (result: Result<ClientBuilder, ClientError>)
        ensures
            posts_json(self@, ROUTE_NEW_TEAM@, new_team_text(team_slug@), result),
    {
        let body = NewTeamRequest { team_slug: String::from_str(team_slug) };
        self.post_json(ROUTE_NEW_TEAM, &body)
    }

    /// The request that sets the display name of the team `team_slug`. The
    /// reply is a `SuccessResponse`.
    pub fn set_team_name(&self, team_slug: &str, team_name: &str) -> (result: Result<
        ClientBuilder,
        ClientError,
    >)
        ensures
            posts_json(
                self@,
                ROUTE_TEAM_NAME@,
                set_team_name_text(team_slug@, team_name@),
                result,
            ),
    {
        let body = SetTeamNameRequest {
            team_slug: String::from_str(team_slug),
            team_name: String::from_str(team_name),
        };
        self.post_json(ROUTE_TEAM_NAME, &body)
    }

    /// The request that checks the credential. Its body is the JSON text
    /// `null`. The reply is a `LoginResponse`.
    pub fn login(&self) -> (request: ClientBuilder)
        ensures
            request@ == json_request(self@, ROUTE_LOGIN@, "null"@),
    {
        let result = self.post_json(ROUTE_LOGIN, &NoBody);
        match result {
            Ok(request) => request,
            Err(_) => {
                assert(false);
                self.post(ROUTE_LOGIN)
            },
        }
    }

    /// The request that asks for the log of the application `name`. The
    /// reply is a `LogResponse`.
    pub fn log(&self, name: &str) -> (result: Result<ClientBuilder, ClientError>)
        ensures
            posts_json(self@, ROUTE_LOG@, log_text(name@), result),
    {
        let body = LogRequest { name: String::from_str(name) };
        self.post_json(ROUTE_LOG, &body)
    }

    /// The request that uploads one chunk of the file `path` for the
    /// application `app_slug`: a multipart form with the bytes of the chunk,
    /// its index and the number of chunks, and the header that names the
    /// application.
    pub fn upload_chunk(&self, app_slug: &str, path: &str, chunk: &ChunkDescriptor) -> (request:
        ClientBuilder)
        ensures
            request@ == chunk_request(self@, app_slug@, path@, *chunk),
    {
        let form = Form::new().file_range("file", path, chunk.offset, chunk.length).text(
            "chunk_number",
            crate::text::decimal_string(chunk.index),
        ).text("total_chunks", crate::text::decimal_string(chunk.total_chunks));
        assert(form@ =~= chunk_form(path@, *chunk));
        let meta = AppMeta { app_slug: String::from_str(app_slug) };
        let value: String = meta.to_string_value();
        let request = self.post(ROUTE_UPLOAD_FILE).multipart(form).header(
            AppMeta::name(),
            value.as_str(),
        );
        assert(request@.headers =~= chunk_request(self@, app_slug@, path@, *chunk).headers);
        request
    }

    /// The requests that upload the file `path` of `size` bytes, which
    /// stands at position `file` of the file list: one for each of its
    /// chunks, in the order in which they are to be sent. Each is to be
    /// acknowledged before the next is sent.
    pub fn upload_file(
        &self,
        app_slug: &str,
        path: &str,
        file: usize,
        size: u64,
        chunk_size: u64,
    ) -> (requests: Vec<ClientBuilder>)
        requires
            chunk_size > 0,
            chunk_count(size as nat, chunk_size as nat) <= usize::MAX,
        ensures
            requests@.len() == chunk_count(size as nat, chunk_size as nat),
            forall|i: int|
                0 <= i < requests@.len() ==> (#[trigger] requests@[i])@ == chunk_request(
                    self@,
                    app_slug@,
                    path@,
                    chunk_at(file, size, chunk_size, i as nat),
                ),
    {
        let chunks: Vec<ChunkDescriptor> = crate::chunk::split_file(file, size, chunk_size);
        let mut requests: Vec<ClientBuilder> = Vec::new();
        let mut i: usize = 0;
        while i < chunks.len()
            invariant
                i <= chunks.len(),
                chunks@ == crate::chunk::file_chunks(file, size, chunk_size),
                requests@.len() == i,
                forall|j: int|
                    0 <= j < i ==> (#[trigger] requests@[j])@ == chunk_request(
                        self@,
                        app_slug@,
                        path@,
                        chunk_at(file, size, chunk_size, j as nat),
                    ),
            decreases chunks.len() - i,
        {
            requests.push(self.upload_chunk(app_slug, path, &chunks[i]));
            i = i + 1;
        }
        requests
    }

    /// The request that signals that every file was uploaded and commits
    /// the deployment described by `config`. The reply is a
    /// `SuccessResponse`.
    pub fn upload_done(&self, config: &CloudConfig) -> (result: Result<ClientBuilder, ClientError>)
        ensures
            posts_json(self@, ROUTE_UPLOAD_DONE@, config.json_text(), result),
    {
        self.post_json(ROUTE_UPLOAD_DONE, config)
    }
}

} // verus!
