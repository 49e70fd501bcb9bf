//! What travels between the client and the platform: the bodies of requests
//! and of replies, and the reply itself.
//!
//! Requests are written as JSON objects whose members stand in the order of
//! the fields. Replies are read by looking up the members that the expected
//! shape has; members beyond those are ignored.

use vstd::prelude::*;
use crate::error::{ClientError, ClientErrorView, DecodeError, RequestError};
use crate::json::{json_bool_at, json_length_at, json_string_at, json_string_text, object_text};
use crate::json::Member;
use crate::request::JsonBody;
use crate::text::decimal;

verus! {

/// Name of the header that tells the platform which application a file
/// belongs to.
pub const APP_META: &'static str = "app-meta";

/// What the transport hands back for one request.
#[derive(Debug, PartialEq, Eq)]
pub enum Reply {
    /// The server answered.
    Response { status: u16, body: String },
    /// No answer was received.
    Failure { message: String },
}

/// A `Reply` with its texts as sequences of characters.
pub enum ReplyView {
    Response { status: u16, body: Seq<char> },
    Failure { message: Seq<char> },
}

impl View for Reply {
    type V = ReplyView;

    open spec fn view(&self) -> ReplyView {
        match self {
            Reply::Response { status, body } => ReplyView::Response {
                status: *status,
                body: body@,
            },
            Reply::Failure { message } => ReplyView::Failure { message: message@ },
        }
    }
}

/// Whether a status tells success: the 2xx range.
pub open spec fn is_success_status(status: u16) -> bool {
    200 <= status < 300
}

/// The body of a reply that tells success, or the error that the reply
/// stands for.
pub open spec fn reply_body(reply: ReplyView) -> Result<Seq<char>, ClientErrorView> {
    match reply {
        ReplyView::Failure { message } => Err(ClientErrorView::Transport { message }),
        ReplyView::Response { status, body } => if is_success_status(status) {
            Ok(body)
        } else {
            Err(ClientErrorView::Request { status, body })
        },
    }
}

/// Whether a status tells success.
pub fn is_success(status: u16) -> (success: bool)
    ensures
        success == is_success_status(status),
{
    status >= 200 && status < 300
}

impl Reply {
    /// Checks the status before anything is made of the body: hands out the
    /// body of a reply with a 2xx status, and turns any other reply into the
    /// error that keeps its status and its text.
    pub fn into_body(self) -> (result: Result<String, ClientError>)
        ensures
            match reply_body(self@) {
                Ok(body) => (result matches Ok(text) && text@ == body),
                Err(error) => (result matches Err(e) && e@ == error),
            },
    {
        match self {
            Reply::Failure { message } => Err(ClientError::Transport { message }),
            Reply::Response { status, body } => {
                if is_success(status) {
                    Ok(body)
                } else {
                    Err(ClientError::Request(RequestError { status, body }))
                }
            },
        }
    }
}

/// A shape that the body of a reply can have.
pub trait FromJson: Sized {
    /// Whether `body` holds what the shape asks for.
    spec fn decodable(body: Seq<char>) -> bool;

    /// Whether `value` is what `body` holds.
    spec fn decoded(body: Seq<char>, value: &Self) -> bool;

    /// Reads a value of this shape from a JSON text.
    fn from_json(body: &str) -> (value: Option<Self>)
        ensures
            value is Some <==> Self::decodable(body@),
            value matches Some(v) ==> Self::decoded(body@, &v),
    ;
}

/// What `receive` makes of a reply: whether it ends in the value `value`.
pub open spec fn received<T: FromJson>(reply: ReplyView, result: Result<T, ClientError>) -> bool {
    match reply_body(reply) {
        Err(error) => (result matches Err(e) && e@ == error),
        Ok(body) => if T::decodable(body) {
            result matches Ok(v) && T::decoded(body, &v)
        } else {
            result matches Err(e) && e@ == (ClientErrorView::Decode { body })
        },
    }
}

/// Reads a reply as a value of the expected shape. The status is checked
/// first: a reply without a 2xx status is a `ClientError::Request` with its
/// status and text, and its body is not parsed. A 2xx reply whose body does
/// not have the shape is a `ClientError::Decode`.
pub fn receive<T: FromJson>(reply: Reply) -> (result: Result<T, ClientError>)
    ensures
        received(reply@, result),
{
    match reply.into_body() {
        Err(e) => Err(e),
        Ok(body) => match T::from_json(body.as_str()) {
            Some(v) => Ok(v),
            None => Err(ClientError::Decode(DecodeError { body })),
        },
    }
}

/// Reply to `login`.
#[derive(Debug, PartialEq, Eq)]
pub struct LoginResponse {
    pub username: String,
}

/// A team of the user.
#[derive(Debug, PartialEq, Eq)]
pub struct Team {
    pub slug: String,
    pub name: String,
}

impl View for Team {
    type V = (Seq<char>, Seq<char>);

    open spec fn view(&self) -> (Seq<char>, Seq<char>) {
        (self.slug@, self.name@)
    }
}

/// Asks whether an application slug is free, and claims it.
#[derive(Debug, PartialEq, Eq)]
pub struct NewAppRequest {
    pub team_slug: String,
    pub app_slug: String,
}

/// Asks whether a team slug is free, and claims it.
#[derive(Debug, PartialEq, Eq)]
pub struct NewTeamRequest {
    pub team_slug: String,
}

/// Reply to a request that claims a slug.
#[derive(Clone, Copy, Debug, PartialEq, Eq)]
pub struct CheckAvailabilityResponse {
    pub available: bool,
}

/// Sets the display name of a team.
#[derive(Debug, PartialEq, Eq)]
pub struct SetTeamNameRequest {
    pub team_slug: String,
    pub team_name: String,
}

/// Asks for the log of an application.
#[derive(Debug, PartialEq, Eq)]
pub struct LogRequest {
    pub name: String,
}

/// Reply to a `LogRequest`.
#[derive(Debug, PartialEq, Eq)]
pub struct LogResponse {
    pub log: String,
}

/// The application that an uploaded file belongs to, sent as a header.
#[derive(Debug, PartialEq, Eq)]
pub struct AppMeta {
    pub app_slug: String,
}

/// How far a deployment has come on the platform.
#[derive(Debug, Clone, Copy, PartialEq, Eq, Structural)]
pub enum DeploymentStatus {
    Pending,
    Success,
    Failure,
}

/// Reply to a request that has nothing else to return.
#[derive(Clone, Copy, Debug, PartialEq, Eq)]
pub struct SuccessResponse {
    pub success: bool,
}

/// The body of a request that has nothing to say.
#[derive(Clone, Copy, Debug, PartialEq, Eq)]
pub struct NoBody;

impl Default for SuccessResponse {
    fn default() -> (response: SuccessResponse)
        ensures
            response.success,
    {
        SuccessResponse { success: true }
    }
}

impl AppMeta {
    /// The name of the header.
    pub fn name() -> (name: &'static str)
        ensures
            name@ == APP_META@,
    {
        APP_META
    }

    /// The value of the header: the slug.
    pub fn to_string_value(&self) -> (value: String)
        ensures
            value@ == self.app_slug@,
    {
        self.app_slug.clone()
    }

    /// Writes the header: adds its value behind `values` and tells `true`,
    /// or, where the slug cannot be sent as the value of a header, leaves
    /// `values` as they are and tells `false`.
    pub fn encode(&self, values: &mut Vec<String>) -> (written: bool)
        ensures
            written == crate::request::valid_header_value(
                vstd::utf8::encode_utf8(self.app_slug@),
            ),
            written ==> final(values)@.len() == old(values)@.len() + 1 && final(values)@.last()@
                == self.app_slug@ && final(values)@.drop_last() == old(values)@,
            !written ==> final(values)@ == old(values)@,
    {
        let value: String = self.to_string_value();
        if crate::request::is_valid_header_value(value.as_str()) {
            let ghost before = values@;
            values.push(value);
            assert(values@.drop_last() =~= before);
            true
        } else {
            false
        }
    }

    /// Reads the header back from the values received under its name: the
    /// first value is the slug. `None` where there is no value.
    pub fn decode(values: &Vec<String>) -> (meta: Option<AppMeta>)
        ensures
            values@.len() == 0 <==> meta is None,
            meta matches Some(m) ==> m.app_slug@ == values@[0]@,
    {
        if values.len() == 0 {
            None
        } else {
            Some(AppMeta { app_slug: values[0].clone() })
        }
    }
}

impl DeploymentStatus {
    /// The word that stands for the status on the wire.
    pub fn as_str(&self) -> (word: &'static str)
        ensures
            word@ == match self {
                DeploymentStatus::Pending => "pending"@,
                DeploymentStatus::Success => "success"@,
                DeploymentStatus::Failure => "failure"@,
            },
    {
        match self {
            DeploymentStatus::Pending => "pending",
            DeploymentStatus::Success => "success",
            DeploymentStatus::Failure => "failure",
        }
    }
}

impl JsonBody for NoBody {
    open spec fn json_text(&self) -> Option<Seq<char>> {
        Some("null"@)
    }

    fn to_json(&self) -> (text: Option<String>) {
        Some(String::from_str("null"))
    }
}

/// The JSON text of a `NewAppRequest`, or `None` where a slug cannot be
/// written.
pub open spec fn new_app_text(team_slug: Seq<char>, app_slug: Seq<char>) -> Option<Seq<char>> {
    match (json_string_text(team_slug), json_string_text(app_slug)) {
        (Some(team), Some(app)) => Some(
            object_text(seq![("\"team_slug\""@, team), ("\"app_slug\""@, app)]),
        ),
        _ => None,
    }
}

/// The JSON text of a `NewTeamRequest`, or `None` where the slug cannot be
/// written.
pub open spec fn new_team_text(team_slug: Seq<char>) -> Option<Seq<char>> {
    match json_string_text(team_slug) {
        Some(team) => Some(object_text(seq![("\"team_slug\""@, team)])),
        None => None,
    }
}

/// The JSON text of a `SetTeamNameRequest`, or `None` where a text cannot be
/// written.
pub open spec fn set_team_name_text(team_slug: Seq<char>, team_name: Seq<char>) -> Option<
    Seq<char>,
> {
    match (json_string_text(team_slug), json_string_text(team_name)) {
        (Some(slug), Some(name)) => Some(
            object_text(seq![("\"team_slug\""@, slug), ("\"team_name\""@, name)]),
        ),
        _ => None,
    }
}

/// The JSON text of a `LogRequest`, or `None` where the name cannot be
/// written.
pub open spec fn log_text(name: Seq<char>) -> Option<Seq<char>> {
    match json_string_text(name) {
        Some(name) => Some(object_text(seq![("\"name\""@, name)])),
        None => None,
    }
}

impl JsonBody for NewAppRequest {
    open spec fn json_text(&self) -> Option<Seq<char>> {
        new_app_text(self.team_slug@, self.app_slug@)
    }

    fn to_json(&self) -> (text: Option<String>) {
        let team = crate::json::string_member("\"team_slug\"", self.team_slug.as_str());
        let app = crate::json::string_member("\"app_slug\"", self.app_slug.as_str());
        match (team, app) {
            (Some(team), Some(app)) => {
                let mut members: Vec<Member> = Vec::new();
                let ghost first = team@;
                let ghost second = app@;
                members.push(team);
                members.push(app);
                assert(crate::json::member_views(members@) =~= seq![first, second]);
                Some(crate::json::object(&members))
            },
            _ => None,
        }
    }
}

impl JsonBody for NewTeamRequest {
    open spec fn json_text(&self) -> Option<Seq<char>> {
        new_team_text(self.team_slug@)
    }

    fn to_json(&self) -> (text: Option<String>) {
        match crate::json::string_member("\"team_slug\"", self.team_slug.as_str()) {
            Some(team) => {
                let mut members: Vec<Member> = Vec::new();
                let ghost first = team@;
                members.push(team);
                assert(crate::json::member_views(members@) =~= seq![first]);
                Some(crate::json::object(&members))
            },
            None => None,
        }
    }
}

impl JsonBody for SetTeamNameRequest {
    open spec fn json_text(&self) -> Option<Seq<char>> {
        set_team_name_text(self.team_slug@, self.team_name@)
    }

    fn to_json(&self) -> (text: Option<String>) {
        let slug = crate::json::string_member("\"team_slug\"", self.team_slug.as_str());
        let name = crate::json::string_member("\"team_name\"", self.team_name.as_str());
        match (slug, name) {
            (Some(slug), Some(name)) => {
                let mut members: Vec<Member> = Vec::new();
                let ghost first = slug@;
                let ghost second = name@;
                members.push(slug);
                members.push(name);
                assert(crate::json::member_views(members@) =~= seq![first, second]);
                Some(crate::json::object(&members))
            },
            _ => None,
        }
    }
}

impl JsonBody for LogRequest {
    open spec fn json_text(&self) -> Option<Seq<char>> {
        log_text(self.name@)
    }

    fn to_json(&self) -> (text: Option<String>) {
        match crate::json::string_member("\"name\"", self.name.as_str()) {
            Some(name) => {
                let mut members: Vec<Member> = Vec::new();
                let ghost first = name@;
                members.push(name);
                assert(crate::json::member_views(members@) =~= seq![first]);
                Some(crate::json::object(&members))
            },
            None => None,
        }
    }
}

impl SuccessResponse {
    /// The reply that holds the given member `success`, if it holds one.
    pub fn from_field(success: Option<bool>) -> (response: Option<SuccessResponse>)
        ensures
            response == match success {
                Some(flag) => Some(SuccessResponse { success: flag }),
                None => None,
            },
    {
        match success {
            Some(flag) => Some(SuccessResponse { success: flag }),
            None => None,
        }
    }
}

impl FromJson for SuccessResponse {
    open spec fn decodable(body: Seq<char>) -> bool {
        json_bool_at(body, "/success"@) is Some
    }

    open spec fn decoded(body: Seq<char>, value: &Self) -> bool {
        json_bool_at(body, "/success"@) == Some(value.success)
    }

    fn from_json(body: &str) -> (value: Option<Self>) {
        SuccessResponse::from_field(crate::json::bool_at(body, "/success"))
    }
}

impl CheckAvailabilityResponse {
    /// The reply that holds the given member `available`, if it holds one.
    pub fn from_field(available: Option<bool>) -> (response: Option<CheckAvailabilityResponse>)
        ensures
            response == match available {
                Some(flag) => Some(CheckAvailabilityResponse { available: flag }),
                None => None,
            },
    {
        match available {
            Some(flag) => Some(CheckAvailabilityResponse { available: flag }),
            None => None,
        }
    }
}

impl FromJson for CheckAvailabilityResponse {
    open spec fn decodable(body: Seq<char>) -> bool {
        json_bool_at(body, "/available"@) is Some
    }

    open spec fn decoded(body: Seq<char>, value: &Self) -> bool {
        json_bool_at(body, "/available"@) == Some(value.available)
    }

    fn from_json(body: &str) -> (value: Option<Self>) {
        CheckAvailabilityResponse::from_field(crate::json::bool_at(body, "/available"))
    }
}

impl LoginResponse {
    /// The reply that holds the given member `username`, if it holds one.
    pub fn from_field(username: Option<String>) -> (response: Option<LoginResponse>)
        ensures
            username is None <==> response is None,
            response matches Some(r) ==> username matches Some(u) && r.username@ == u@,
    {
        match username {
            Some(username) => Some(LoginResponse { username }),
            None => None,
        }
    }
}

impl FromJson for LoginResponse {
    open spec fn decodable(body: Seq<char>) -> bool {
        json_string_at(body, "/username"@) is Some
    }

    open spec fn decoded(body: Seq<char>, value: &Self) -> bool {
        json_string_at(body, "/username"@) == Some(value.username@)
    }

    fn from_json(body: &str) -> (value: Option<Self>) {
        LoginResponse::from_field(crate::json::string_at(body, "/username"))
    }
}

impl LogResponse {
    /// The reply that holds the given member `log`, if it holds one.
    pub fn from_field(log: Option<String>) -> (response: Option<LogResponse>)
        ensures
            log is None <==> response is None,
            response matches Some(r) ==> log matches Some(l) && r.log@ == l@,
    {
        match log {
            Some(log) => Some(LogResponse { log }),
            None => None,
        }
    }
}

impl FromJson for LogResponse {
    open spec fn decodable(body: Seq<char>) -> bool {
        json_string_at(body, "/log"@) is Some
    }

    open spec fn decoded(body: Seq<char>, value: &Self) -> bool {
        json_string_at(body, "/log"@) == Some(value.log@)
    }

    fn from_json(body: &str) -> (value: Option<Self>) {
        LogResponse::from_field(crate::json::string_at(body, "/log"))
    }
}

/// The JSON pointer to the member `member` of element `index` of an array.
pub open spec fn element_pointer(index: nat, member: Seq<char>) -> Seq<char> {
    seq!['/'] + decimal(index) + seq!['/'] + member
}

/// The team that a JSON array holds at `index`, if it holds one there.
pub open spec fn team_at(body: Seq<char>, index: nat) -> Option<(Seq<char>, Seq<char>)> {
    match (
        json_string_at(body, element_pointer(index, "slug"@)),
        json_string_at(body, element_pointer(index, "name"@)),
    ) {
        (Some(slug), Some(name)) => Some((slug, name)),
        _ => None,
    }
}

/// The first `count` teams of a JSON array, or `None` where one is missing.
pub open spec fn teams_upto(body: Seq<char>, count: nat) -> Option<Seq<(Seq<char>, Seq<char>)>>
    decreases count,
{
    if count == 0 {
        Some(Seq::empty())
    } else {
        match (teams_upto(body, (count - 1) as nat), team_at(body, (count - 1) as nat)) {
            (Some(teams), Some(team)) => Some(teams.push(team)),
            _ => None,
        }
    }
}

/// The teams of a JSON array, or `None` where the text is no array of teams.
pub open spec fn team_list(body: Seq<char>) -> Option<Seq<(Seq<char>, Seq<char>)>> {
    match json_length_at(body, Seq::empty()) {
        Some(count) => teams_upto(body, count as nat),
        None => None,
    }
}

/// The views of a list of teams.
pub open spec fn team_views(teams: Seq<Team>) -> Seq<(Seq<char>, Seq<char>)> {
    teams.map_values(|t: Team| t@)
}

impl Team {
    /// The team with the given members, if both are there.
    pub fn from_fields(slug: Option<String>, name: Option<String>) -> (team: Option<Team>)
        ensures
            team is Some <==> slug is Some && name is Some,
            team matches Some(t) ==> slug matches Some(s) && name matches Some(n) && t@ == (
                s@,
                n@,
            ),
    {
        match (slug, name) {
            (Some(slug), Some(name)) => Some(Team { slug, name }),
            _ => None,
        }
    }

    /// The JSON pointer to the member `member` of element `index`.
    fn pointer(index: usize, member: &str) -> (pointer: String)
        ensures
            pointer@ == element_pointer(index as nat, member@),
    {
        proof {
            reveal_strlit("/");
        }
        let mut pointer: String = String::from_str("/");
        let digits: String = crate::text::decimal_string(index as u64);
        pointer.append(digits.as_str());
        pointer.append("/");
        pointer.append(member);
        assert(pointer@ =~= element_pointer(index as nat, member@));
        pointer
    }
}

/// Where a team is missing among the first of an array, the list cannot be
/// read.
proof fn lemma_teams_upto_none(body: Seq<char>, k: nat, count: nat)
    requires
        k <= count,
        teams_upto(body, k) is None,
    ensures
        teams_upto(body, count) is None,
    decreases count - k,
{
    if k < count {
        lemma_teams_upto_none(body, k + 1, count);
    }
}

impl FromJson for Vec<Team> {
    open spec fn decodable(body: Seq<char>) -> bool {
        team_list(body) is Some
    }

    open spec fn decoded(body: Seq<char>, value: &Self) -> bool {
        team_list(body) == Some(team_views(value@))
    }

    fn from_json(body: &str) -> (value: Option<Self>) {
        proof {
            reveal_strlit("");
            assert(""@ =~= Seq::<char>::empty());
        }
        let count: usize = match crate::json::length_at(body, "") {
            Some(count) => count,
            None => {
                return None;
            },
        };
        let mut teams: Vec<Team> = Vec::new();
        let mut i: usize = 0;
        assert(team_views(teams@) =~= Seq::empty());
        while i < count
            invariant
                i <= count,
                json_length_at(body@, Seq::empty()) == Some(count),
                teams_upto(body@, i as nat) == Some(team_views(teams@)),
            decreases count - i,
        {
            let slug_pointer: String = Team::pointer(i, "slug");
            let name_pointer: String = Team::pointer(i, "name");
            let slug = crate::json::string_at(body, slug_pointer.as_str());
            let name = crate::json::string_at(body, name_pointer.as_str());
            match Team::from_fields(slug, name) {
                None => {
                    proof {
                        assert(team_at(body@, i as nat) is None);
                        assert(teams_upto(body@, (i + 1) as nat) is None);
                        lemma_teams_upto_none(body@, (i + 1) as nat, count as nat);
                    }
                    return None;
                },
                Some(team) => {
                    let ghost before = teams@;
                    teams.push(team);
                    assert(team_views(teams@) =~= team_views(before).push(team@));
                },
            }
            i = i + 1;
        }
        Some(teams)
    }
}

} // verus!
