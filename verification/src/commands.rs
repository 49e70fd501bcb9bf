//! What the command-line front end decides.
//!
//! The front end asks the user, keeps the credential and opens the browser.
//! What it says and does then follows from what it was told, and that part
//! stands here: which credential to use, which team to take, what to make
//! of the callback of the browser, and the words for the user.

use vstd::prelude::*;
use vstd::string::StringSliceAdditionalSpecFns;
use crate::config::{valid_slug, AppConfig};
use crate::net::{team_views, Team};
use crate::text::decimal;

verus! {

/// Seconds to wait for the browser to hand over the credential.
pub const LOGIN_TIMEOUT_SECONDS: u64 = 300;

/// Address of the page on which the user authorizes this program. The
/// address to call back is appended.
pub const AUTHORIZE_URL: &'static str = "https://oxyde.cloud/dashboard/authorize-app?callback=";

/// Where the workflow of a deployment by GitHub is written.
pub const WORKFLOW_DIRECTORY: &'static str = ".github/workflows";

/// The workflow file of a deployment by GitHub.
pub const WORKFLOW_FILE: &'static str = ".github/workflows/oxyde-cloud-deploy.yml";

/// What is said when no application is named and no configuration is found.
pub const MISSING_APP_NAME: &'static str =
    "If you don't execute this command in a folder with a config you have to provide an app name!";

/// What is said when no credential is found.
pub const MISSING_API_KEY: &'static str =
    "Failed to get API key from keyring. Make sure you're logged in with 'oxy login'";

/// What the callback tells where it names no error.
pub const UNKNOWN_CALLBACK_ERROR: &'static str = "Unknown error occurred";

/// How a project is deployed.
#[derive(Clone, Copy, Debug, PartialEq, Eq, Structural)]
pub enum DeployConfig {
    /// The user sets up the deployment.
    Manual,
    /// A GitHub workflow deploys the project.
    GitHub,
}

/// The toolchain that a workflow installs.
#[derive(Clone, Copy, Debug, PartialEq, Eq, Structural)]
pub enum RustToolchain {
    Stable,
    Nightly,
}

impl RustToolchain {
    /// The name of the toolchain.
    pub fn as_str(&self) -> (name: &'static str)
        ensures
            name@ == match self {
                RustToolchain::Stable => "stable"@,
                RustToolchain::Nightly => "nightly"@,
            },
    {
        match self {
            RustToolchain::Stable => "stable",
            RustToolchain::Nightly => "nightly",
        }
    }
}

impl DeployConfig {
    /// The file that is written for this kind of deployment, if one is.
    pub fn workflow_file(&self) -> (file: Option<&'static str>)
        ensures
            match self {
                DeployConfig::GitHub => (file matches Some(f) && f@ == WORKFLOW_FILE@),
                DeployConfig::Manual => file is None,
            },
    {
        match self {
            DeployConfig::GitHub => Some(WORKFLOW_FILE),
            DeployConfig::Manual => None,
        }
    }

    /// What the user is told at the end.
    pub fn closing_message(&self) -> (message: &'static str)
        ensures
            message@ == match self {
                DeployConfig::GitHub => "Created .github/workflows/oxyde-cloud-deploy.yml"@,
                DeployConfig::Manual =>
                    "You can setup deployment yourself manually or call `leco deploy-config` at any time"@,
            },
    {
        match self {
            DeployConfig::GitHub => "Created .github/workflows/oxyde-cloud-deploy.yml",
            DeployConfig::Manual =>
                "You can setup deployment yourself manually or call `leco deploy-config` at any time",
        }
    }
}

/// The application whose log is asked for: the one named, else the one of
/// the configuration, else none.
pub open spec fn log_target_of(name: Option<Seq<char>>, configured: Option<Seq<char>>) -> Option<
    Seq<char>,
> {
    match name {
        Some(n) => Some(n),
        None => configured,
    }
}

/// Chooses the application whose log is shown. A name that was given wins
/// over the slug of the configuration found in the directory; where there
/// is neither, the error tells to give a name.
pub fn log_target(name: Option<String>, configured: Option<String>) -> (target: Result<
    String,
    &'static str,
>)
    ensures
        match log_target_of(crate::client::text_view(name), crate::client::text_view(configured)) {
            Some(app) => (target matches Ok(t) && t@ == app),
            None => (target matches Err(e) && e@ == MISSING_APP_NAME@),
        },
{
    match name {
        Some(n) => Ok(n),
        None => match configured {
            Some(slug) => Ok(slug),
            None => Err(MISSING_APP_NAME),
        },
    }
}

/// Chooses the credential. One given by the environment wins over the one
/// that is stored; where there is neither, the error tells to log in.
pub fn api_key(from_environment: Option<String>, stored: Option<String>) -> (key: Result<
    String,
    &'static str,
>)
    ensures
        match (from_environment, stored) {
            (Some(k), _) => (key matches Ok(chosen) && chosen@ == k@),
            (None, Some(k)) => (key matches Ok(chosen) && chosen@ == k@),
            (None, None) => (key matches Err(e) && e@ == MISSING_API_KEY@),
        },
{
    match from_environment {
        Some(k) => Ok(k),
        None => match stored {
            Some(k) => Ok(k),
            None => Err(MISSING_API_KEY),
        },
    }
}

/// What to do about the team of a new application.
#[derive(Debug, PartialEq, Eq)]
pub enum TeamChoice {
    /// The user has no team: one is created.
    CreateNew,
    /// The user has one team: it is taken.
    Use { team: Team },
    /// The user has several teams and picks one.
    Select { teams: Vec<Team> },
}

/// A `TeamChoice` with its teams as views.
pub enum TeamChoiceView {
    CreateNew,
    Use { team: (Seq<char>, Seq<char>) },
    Select { teams: Seq<(Seq<char>, Seq<char>)> },
}

impl View for TeamChoice {
    type V = TeamChoiceView;

    open spec fn view(&self) -> TeamChoiceView {
        match self {
            TeamChoice::CreateNew => TeamChoiceView::CreateNew,
            TeamChoice::Use { team } => TeamChoiceView::Use { team: team@ },
            TeamChoice::Select { teams } => TeamChoiceView::Select { teams: team_views(teams@) },
        }
    }
}

/// The choice that the teams of a user leave.
pub open spec fn team_choice(teams: Seq<(Seq<char>, Seq<char>)>) -> TeamChoiceView {
    if teams.len() == 0 {
        TeamChoiceView::CreateNew
    } else if teams.len() == 1 {
        TeamChoiceView::Use { team: teams[0] }
    } else {
        TeamChoiceView::Select { teams }
    }
}

/// Decides about the team of a new application from the teams of the user:
/// without a team one is created, a single team is taken, and among several
/// the user picks.
pub fn choose_team(teams: Vec<Team>) -> (choice: TeamChoice)
    ensures
        choice@ == team_choice(team_views(teams@)),
{
    let mut teams = teams;
    if teams.len() == 0 {
        TeamChoice::CreateNew
    } else if teams.len() == 1 {
        match teams.pop() {
            Some(team) => TeamChoice::Use { team },
            None => TeamChoice::CreateNew,
        }
    } else {
        TeamChoice::Select { teams }
    }
}

/// What is said when the single team of a user is taken.
pub fn using_team_message(team: &Team) -> (message: String)
    ensures
        message@ == "Using team: "@ + team.name@,
{
    crate::text::join("Using team: ", team.name.as_str())
}

/// What is asked of the slug of a team, in words.
pub fn team_slug_requirements() -> (text: String)
    ensures
        text@
            == "Team slug must be at least 5 characters long, lower case alphanumeric and can contain underscores or dashes."@,
{
    String::from_str(
        "Team slug must be at least 5 characters long, lower case alphanumeric and can contain underscores or dashes.",
    )
}

/// What a slug is for.
#[derive(Clone, Copy, Debug, PartialEq, Eq, Structural)]
pub enum SlugKind {
    App,
    Team,
}

/// Checks a slug while it is typed: `None` where it is valid, else what is
/// asked of a slug of this kind.
pub fn slug_problem(kind: SlugKind, input: &str) -> (problem: Option<String>)
    ensures
        valid_slug(input@) <==> problem is None,
        problem matches Some(text) ==> text@ == match kind {
            SlugKind::App =>
                "App slug must be at least 5 characters long, lower case alphanumeric and can contain underscores or dashes."@,
            SlugKind::Team =>
                "Team slug must be at least 5 characters long, lower case alphanumeric and can contain underscores or dashes."@,
        },
{
    if AppConfig::is_valid_slug(input) {
        None
    } else {
        match kind {
            SlugKind::App => Some(AppConfig::slug_requirements()),
            SlugKind::Team => Some(team_slug_requirements()),
        }
    }
}

/// What is said of a slug that is taken.
pub open spec fn unavailable_text(kind: SlugKind, slug: Seq<char>) -> Seq<char> {
    match kind {
        SlugKind::App => "App slug \""@ + slug + "\" is not available. Please try another one."@,
        SlugKind::Team => "Team slug \""@ + slug + "\" is not available. Please try another one."@,
    }
}

/// What follows the answer of the platform to a claim on a slug: the slug
/// is confirmed where it was free; else the user is told and asked again.
pub fn claim_outcome(kind: SlugKind, slug: &str, available: bool) -> (outcome: Result<
    &'static str,
    String,
>)
    ensures
        match outcome {
            Ok(message) => available && message@ == "Slug confirmed"@,
            Err(message) => !available && message@ == unavailable_text(kind, slug@),
        },
{
    if available {
        Ok("Slug confirmed")
    } else {
        let mut message: String = match kind {
            SlugKind::App => String::from_str("App slug \""),
            SlugKind::Team => String::from_str("Team slug \""),
        };
        message.append(slug);
        message.append("\" is not available. Please try another one.");
        Err(message)
    }
}

/// The title case of `text` as `heck` writes it: the words of the text,
/// each with a capital first letter, with one space between two.
pub uninterp spec fn title_case(text: Seq<char>) -> Seq<char>;

/// Calls `heck::ToTitleCase::to_title_case` on a text. The contract claims
/// only that the result is the one that `title_case` names.
#[verifier::external_body]
fn to_title_case(text: &str) -> (title: String)
    ensures
        title@ == title_case(text@),
{
    heck::ToTitleCase::to_title_case(text)
}

/// The display name that is proposed for a team: its slug in title case.
pub fn default_team_name(team_slug: &str) -> (name: String)
    ensures
        name@ == title_case(team_slug@),
{
    to_title_case(team_slug)
}

/// The display name of a team: what the user entered, or the proposed name
/// where nothing was entered.
pub fn team_name_or_default(entered: String, proposed: String) -> (name: String)
    ensures
        name@ == if entered@.len() == 0 {
            proposed@
        } else {
            entered@
        },
{
    if entered.as_str().unicode_len() == 0 {
        proposed
    } else {
        entered
    }
}

/// Whether a byte stands for itself in a percent-encoded text: a letter or
/// digit of ASCII, or one of `-`, `.`, `_`, `~`.
pub open spec fn is_unreserved(b: u8) -> bool {
    ||| 0x30 <= b <= 0x39
    ||| 0x41 <= b <= 0x5a
    ||| 0x61 <= b <= 0x7a
    ||| b == 0x2d
    ||| b == 0x2e
    ||| b == 0x5f
    ||| b == 0x7e
}

/// The upper-case hexadecimal digit of a number below sixteen.
pub open spec fn hex_digit(d: u8) -> char
    recommends
        d < 16,
{
    seq![
        '0',
        '1',
        '2',
        '3',
        '4',
        '5',
        '6',
        '7',
        '8',
        '9',
        'A',
        'B',
        'C',
        'D',
        'E',
        'F',
    ][d as int]
}

/// The percent-encoding of one byte: the byte itself where it is
/// unreserved, else a percent sign and its two hexadecimal digits.
pub open spec fn percent_encoded_byte(b: u8) -> Seq<char> {
    if is_unreserved(b) {
        seq![b as char]
    } else {
        seq!['%', hex_digit(b / 16), hex_digit(b % 16)]
    }
}

/// The percent-encoding of a sequence of bytes.
pub open spec fn percent_encoded(bytes: Seq<u8>) -> Seq<char>
    decreases bytes.len(),
{
    if bytes.len() == 0 {
        Seq::empty()
    } else {
        percent_encoded(bytes.drop_last()) + percent_encoded_byte(bytes.last())
    }
}

/// Calls `urlencoding::encode`, which percent-encodes every byte of the
/// text, taken in UTF-8, except the letters and digits of ASCII and `-`,
/// `.`, `_` and `~`, with upper-case hexadecimal digits.
#[verifier::external_body]
fn url_encode(text: &str) -> (encoded: String)
    ensures
        encoded@ == percent_encoded(text.spec_bytes()),
{
    urlencoding::encode(text).into_owned()
}

/// The address on this machine that the browser calls back.
pub open spec fn callback_address(port: u16) -> Seq<char> {
    "http://localhost:"@ + decimal(port as nat) + "/callback"@
}

/// The address on this machine that the browser calls back with the
/// credential, for the port on which the front end listens.
pub fn callback_url(port: u16) -> (url: String)
    ensures
        url@ == callback_address(port),
{
    let mut url: String = String::from_str("http://localhost:");
    let digits: String = crate::text::decimal_string(port as u64);
    url.append(digits.as_str());
    url.append("/callback");
    url
}

/// The address of the page on which the user authorizes this program: the
/// page of the platform, with the percent-encoded address to call back.
pub fn authorize_url(port: u16) -> (url: String)
    ensures
        url@ == AUTHORIZE_URL@ + percent_encoded(vstd::utf8::encode_utf8(callback_address(port))),
{
    let callback: String = callback_url(port);
    let encoded: String = url_encode(callback.as_str());
    crate::text::join(AUTHORIZE_URL, encoded.as_str())
}

/// What the browser is answered when it calls back, and the credential that
/// it brought.
#[derive(Debug, PartialEq, Eq)]
pub struct CallbackOutcome {
    /// The page shown in the browser.
    pub page: String,
    /// The credential, where the callback brought one.
    pub api_key: Option<String>,
}

/// The page that tells that the login succeeded.
pub const LOGIN_SUCCEEDED_PAGE: &'static str =
    "\n            <html>\n                <head><title>Login Successful</title></head>\n                <body>\n                    <h1>\u{2705} Login Successful!</h1>\n                    <p>You can now close this browser window and return to your terminal.</p>\n                    <script>setTimeout(() => window.close(), 2000);</script>\n                </body>\n            </html>\n        ";

/// The page that tells that the login failed, up to the reason.
pub const LOGIN_FAILED_PAGE_HEAD: &'static str =
    "\n            <html>\n                <head><title>Login Failed</title></head>\n                <body>\n                    <h1>\u{274c} Login Failed</h1>\n                    <p>Error: ";

/// The page that tells that the login failed, from the reason on.
pub const LOGIN_FAILED_PAGE_TAIL: &'static str =
    "</p>\n                    <p>Please return to your terminal and try again.</p>\n                </body>\n            </html>\n        ";

/// The reason that a failed callback gives, or the words for an unknown
/// error where it gives none.
pub open spec fn callback_reason(error: Option<Seq<char>>) -> Seq<char> {
    match error {
        Some(reason) => reason,
        None => UNKNOWN_CALLBACK_ERROR@,
    }
}

/// The view of an optional text slice.
pub open spec fn slice_view(text: Option<&str>) -> Option<Seq<char>> {
    match text {
        Some(t) => Some(t@),
        None => None,
    }
}

/// Answers the callback of the browser from its two parameters. Where it
/// brings a credential, the credential is taken and the page tells success.
/// Else the page tells the error that the callback names, or that the error
/// is unknown.
pub fn handle_callback(api_key: Option<&str>, error: Option<&str>) -> (outcome: CallbackOutcome)
    ensures
        crate::client::text_view(outcome.api_key) == slice_view(api_key),
        outcome.page@ == match api_key {
            Some(_) => LOGIN_SUCCEEDED_PAGE@,
            None => LOGIN_FAILED_PAGE_HEAD@ + callback_reason(slice_view(error))
                + LOGIN_FAILED_PAGE_TAIL@,
        },
{
    match api_key {
        Some(key) => CallbackOutcome {
            page: String::from_str(LOGIN_SUCCEEDED_PAGE),
            api_key: Some(String::from_str(key)),
        },
        None => {
            let reason: &str = match error {
                Some(reason) => reason,
                None => UNKNOWN_CALLBACK_ERROR,
            };
            let mut page: String = String::from_str(LOGIN_FAILED_PAGE_HEAD);
            page.append(reason);
            page.append(LOGIN_FAILED_PAGE_TAIL);
            CallbackOutcome { page, api_key: None }
        },
    }
}

/// How the wait for the browser ended.
#[derive(Debug, PartialEq, Eq)]
pub enum Authentication {
    /// The browser handed over a credential.
    Received { api_key: String },
    /// The wait was given up before the browser called back.
    Cancelled,
    /// The browser did not call back in time.
    TimedOut,
}

/// What the user is told when the wait for the browser has ended: the
/// status of the wait, and the closing words where the login ends here.
pub fn authentication_messages(outcome: &Authentication) -> (messages: (
    &'static str,
    Option<&'static str>,
))
    ensures
        match outcome {
            Authentication::Received { .. } => messages.0@ == "Successfully authenticated!"@
                && messages.1 is None,
            Authentication::Cancelled => messages.0@ == "Failed to receive authentication!"@ && (
            messages.1 matches Some(m) && m@ == "Authentication was cancelled"@),
            Authentication::TimedOut => messages.0@ == "Timeout!"@ && (messages.1 matches Some(m)
                && m@ == "Timed out waiting for authentication. Please try again."@),
        },
{
    match outcome {
        Authentication::Received { .. } => ("Successfully authenticated!", None),
        Authentication::Cancelled => (
            "Failed to receive authentication!",
            Some("Authentication was cancelled"),
        ),
        Authentication::TimedOut => (
            "Timeout!",
            Some("Timed out waiting for authentication. Please try again."),
        ),
    }
}

/// What the user is told when the credential was checked: who is logged
/// in, or, as an error, that the login failed and why. After a failed login
/// the stored credential is to be deleted.
pub fn login_message(checked: Result<&crate::net::LoginResponse, &str>) -> (message: Result<
    String,
    String,
>)
    ensures
        match checked {
            Ok(login) => (message matches Ok(m) && m@ == "You're now logged in as "@
                + login.username@ + "."@),
            Err(reason) => (message matches Err(m) && m@ == "Failed to login: "@ + reason@),
        },
{
    match checked {
        Ok(login) => {
            let mut message: String = String::from_str("You're now logged in as ");
            message.append(login.username.as_str());
            message.append(".");
            Ok(message)
        },
        Err(reason) => Err(crate::text::join("Failed to login: ", reason)),
    }
}

} // verus!
