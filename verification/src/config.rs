//! The configuration of an application: its identity and its environment.
//!
//! A `CloudConfig` is the manifest of a deployment. A session takes it as it
//! is and sends it, as JSON, with the request that commits the deployment.

use vstd::prelude::*;
use crate::json::{json_string_text, object_text, Member};
use crate::request::JsonBody;
use crate::text::signed_decimal;

verus! {

/// Domain under which deployed applications are served.
pub const DEPLOYMENT_DOMAIN: &'static str = ".oxydecloud.com";

/// Whether `c` is a lower-case letter of the ASCII alphabet.
pub open spec fn is_lowercase_letter(c: char) -> bool {
    'a' <= c <= 'z'
}

/// Whether `c` may stand in a slug: a lower-case letter, a digit, a dash or
/// an underscore.
pub open spec fn is_slug_char(c: char) -> bool {
    is_lowercase_letter(c) || '0' <= c <= '9' || c == '-' || c == '_'
}

/// Whether `slug` names an application or a team: at least five characters,
/// the first a lower-case letter, all of them allowed in a slug.
pub open spec fn valid_slug(slug: Seq<char>) -> bool {
    &&& slug.len() >= AppConfig::MIN_SLUG_LENGTH
    &&& is_lowercase_letter(slug[0])
    &&& forall|i: int| 0 <= i < slug.len() ==> is_slug_char(#[trigger] slug[i])
}

/// The identity of an application.
#[derive(Debug, PartialEq, Eq)]
pub struct AppConfig {
    /// The name of the application, unique on the platform.
    pub slug: String,
    /// The team that owns the application, if one does.
    pub team_id: Option<i64>,
}

/// What one environment variable is set to.
#[derive(Debug, PartialEq, Eq)]
pub enum EnvValue {
    Text(String),
    Integer(i64),
    Boolean(bool),
    /// A value of another kind, given as its JSON text.
    Encoded(String),
}

/// An `EnvValue` with its texts as sequences of characters.
pub enum EnvValueView {
    Text(Seq<char>),
    Integer(i64),
    Boolean(bool),
    Encoded(Seq<char>),
}

impl View for EnvValue {
    type V = EnvValueView;

    open spec fn view(&self) -> EnvValueView {
        match self {
            EnvValue::Text(t) => EnvValueView::Text(t@),
            EnvValue::Integer(n) => EnvValueView::Integer(*n),
            EnvValue::Boolean(b) => EnvValueView::Boolean(*b),
            EnvValue::Encoded(t) => EnvValueView::Encoded(t@),
        }
    }
}

/// One environment variable.
#[derive(Debug, PartialEq, Eq)]
pub struct EnvVar {
    pub key: String,
    pub value: EnvValue,
}

impl View for EnvVar {
    type V = (Seq<char>, EnvValueView);

    open spec fn view(&self) -> (Seq<char>, EnvValueView) {
        (self.key@, self.value@)
    }
}

/// The manifest of a deployment.
#[derive(Debug, PartialEq, Eq)]
pub struct CloudConfig {
    pub app: AppConfig,
    /// The environment of the application, in the order of the
    /// configuration file.
    pub env: Vec<EnvVar>,
}

/// A `CloudConfig` with its texts as sequences of characters.
pub struct CloudConfigView {
    pub slug: Seq<char>,
    pub team_id: Option<i64>,
    pub env: Seq<(Seq<char>, EnvValueView)>,
}

impl View for CloudConfig {
    type V = CloudConfigView;

    open spec fn view(&self) -> CloudConfigView {
        CloudConfigView {
            slug: self.app.slug@,
            team_id: self.app.team_id,
            env: self.env@.map_values(|v: EnvVar| v@),
        }
    }
}

/// The JSON text of the value of an environment variable, or `None` where
/// a text cannot be written.
pub open spec fn env_value_text(value: EnvValueView) -> Option<Seq<char>> {
    match value {
        EnvValueView::Text(t) => json_string_text(t),
        EnvValueView::Integer(n) => Some(signed_decimal(n as int)),
        EnvValueView::Boolean(b) => Some(
            if b {
                "true"@
            } else {
                "false"@
            },
        ),
        EnvValueView::Encoded(t) => Some(t),
    }
}

/// The JSON member that stands for an environment variable, or `None` where
/// its key or its value cannot be written.
pub open spec fn env_member(variable: (Seq<char>, EnvValueView)) -> Option<
    (Seq<char>, Seq<char>),
> {
    match (json_string_text(variable.0), env_value_text(variable.1)) {
        (Some(key), Some(value)) => Some((key, value)),
        _ => None,
    }
}

/// The JSON members that stand for an environment, or `None` where one of
/// them cannot be written.
pub open spec fn env_members(env: Seq<(Seq<char>, EnvValueView)>) -> Option<
    Seq<(Seq<char>, Seq<char>)>,
>
    decreases env.len(),
{
    if env.len() == 0 {
        Some(Seq::empty())
    } else {
        match (env_members(env.drop_last()), env_member(env.last())) {
            (Some(members), Some(member)) => Some(members.push(member)),
            _ => None,
        }
    }
}

/// The JSON text of a team identifier.
pub open spec fn team_text(team_id: Option<i64>) -> Seq<char> {
    match team_id {
        Some(id) => signed_decimal(id as int),
        None => "null"@,
    }
}

/// The JSON text of a manifest, from the JSON text of its slug, its team and
/// the members of its environment.
pub open spec fn manifest_text(
    slug: Seq<char>,
    team_id: Option<i64>,
    env: Seq<(Seq<char>, Seq<char>)>,
) -> Seq<char> {
    object_text(
        seq![
            (
                "\"app\""@,
                object_text(seq![("\"slug\""@, slug), ("\"team_id\""@, team_text(team_id))]),
            ),
            ("\"env\""@, object_text(env)),
        ],
    )
}

/// The JSON text of a manifest, or `None` where one of its texts cannot be
/// written.
pub open spec fn config_text(config: CloudConfigView) -> Option<Seq<char>> {
    match (json_string_text(config.slug), env_members(config.env)) {
        (Some(slug), Some(env)) => Some(manifest_text(slug, config.team_id, env)),
        _ => None,
    }
}

impl AppConfig {
    /// The characters that may stand in a slug.
    pub const ALLOWED_CHARS: [char; 38] = [
        'a', 'b', 'c', 'd', 'e', 'f', 'g', 'h', 'i', 'j', 'k', 'l', 'm', 'n', 'o', 'p', 'q', 'r',
        's', 't', 'u', 'v', 'w', 'x', 'y', 'z', '0', '1', '2', '3', '4', '5', '6', '7', '8', '9',
        '-', '_',
    ];

    /// Least number of characters of a slug.
    pub const MIN_SLUG_LENGTH: usize = 5;

    /// What is asked of a slug, in words.
    pub fn slug_requirements() -> (text: String)
        ensures
            text@
                == "App slug must be at least 5 characters long, lower case alphanumeric and can contain underscores or dashes."@,
    {
        String::from_str(
            "App slug must be at least 5 characters long, lower case alphanumeric and can contain underscores or dashes.",
        )
    }

    /// Whether `slug` can name an application or a team.
    pub fn is_valid_slug(slug: &str) -> (valid: bool)
        ensures
            valid == valid_slug(slug@),
    {
        let length: usize = slug.unicode_len();
        if length < AppConfig::MIN_SLUG_LENGTH {
            return false;
        }
        let first: char = slug.get_char(0);
        if !(first >= 'a' && first <= 'z') {
            return false;
        }
        let mut i: usize = 0;
        while i < length
            invariant
                i <= length,
                length == slug@.len(),
                forall|j: int| 0 <= j < i ==> is_slug_char(#[trigger] slug@[j]),
            decreases length - i,
        {
            let c: char = slug.get_char(i);
            let allowed: bool = (c >= 'a' && c <= 'z') || (c >= '0' && c <= '9') || c == '-' || c
                == '_';
            if !allowed {
                return false;
            }
            i = i + 1;
        }
        true
    }

    /// Whether `name` can name an application. Names follow the rule of
    /// slugs.
    pub fn is_valid_name(name: &str) -> (valid: bool)
        ensures
            valid == valid_slug(name@),
    {
        AppConfig::is_valid_slug(name)
    }
}

/// The characters that may stand in a slug are those of
/// `AppConfig::ALLOWED_CHARS`.
pub proof fn lemma_allowed_chars(c: char)
    ensures
        is_slug_char(c) <==> exists|i: int|
            0 <= i < 38 && #[trigger] AppConfig::ALLOWED_CHARS@[i] == c,
{
    let allowed = AppConfig::ALLOWED_CHARS@;
    if is_slug_char(c) {
        let i: int = if 'a' <= c <= 'z' {
            c as int - 'a' as int
        } else if '0' <= c <= '9' {
            26 + (c as int - '0' as int)
        } else if c == '-' {
            36
        } else {
            37
        };
        assert(allowed[i] == c);
    }
    if exists|i: int| 0 <= i < 38 && #[trigger] allowed[i] == c {
        let i = choose|i: int| 0 <= i < 38 && #[trigger] allowed[i] == c;
        assert(is_slug_char(allowed[i]));
    }
}

/// Writes the JSON text of a manifest from the JSON text of its slug, its
/// team and the members of its environment.
pub fn frame_manifest(slug: &str, team_id: Option<i64>, env: &Vec<Member>) -> (text: String)
    ensures
        text@ == manifest_text(slug@, team_id, crate::json::member_views(env@)),
{
    let team: String = match team_id {
        Some(id) => crate::text::signed_decimal_string(id),
        None => String::from_str("null"),
    };
    let mut app: Vec<Member> = Vec::new();
    app.push(Member { name: String::from_str("\"slug\""), value: String::from_str(slug) });
    app.push(Member { name: String::from_str("\"team_id\""), value: team });
    let app_text: String = crate::json::object(&app);
    let env_text: String = crate::json::object(env);
    let mut top: Vec<Member> = Vec::new();
    top.push(Member { name: String::from_str("\"app\""), value: app_text });
    top.push(Member { name: String::from_str("\"env\""), value: env_text });
    proof {
        assert(crate::json::member_views(app@) =~= seq![
            ("\"slug\""@, slug@),
            ("\"team_id\""@, team_text(team_id)),
        ]);
        assert(crate::json::member_views(top@) =~= seq![
            (
                "\"app\""@,
                object_text(seq![("\"slug\""@, slug@), ("\"team_id\""@, team_text(team_id))]),
            ),
            ("\"env\""@, object_text(crate::json::member_views(env@))),
        ]);
    }
    crate::json::object(&top)
}

/// Writes the JSON text of the value of an environment variable.
fn env_value_json(value: &EnvValue) -> (text: Option<String>)
    ensures
        text is None <==> env_value_text(value@) is None,
        text matches Some(t) ==> env_value_text(value@) == Some(t@),
{
    match value {
        EnvValue::Text(t) => crate::json::quote(t.as_str()),
        EnvValue::Integer(n) => Some(crate::text::signed_decimal_string(*n)),
        EnvValue::Boolean(b) => Some(
            if *b {
                String::from_str("true")
            } else {
                String::from_str("false")
            },
        ),
        EnvValue::Encoded(t) => Some(t.clone()),
    }
}

impl CloudConfig {
    /// The address under which the application is served once deployed.
    pub fn deployed_url(&self) -> (url: String)
        ensures
            url@ == "https://"@ + self.app.slug@ + DEPLOYMENT_DOMAIN@,
    {
        let mut url: String = String::from_str("https://");
        url.append(self.app.slug.as_str());
        url.append(DEPLOYMENT_DOMAIN);
        url
    }

    /// The JSON members that stand for the environment.
    fn env_json(&self) -> (members: Option<Vec<Member>>)
        ensures
            members is None <==> env_members(self@.env) is None,
            members matches Some(m) ==> env_members(self@.env) == Some(
                crate::json::member_views(m@),
            ),
    {
        let ghost env = self@.env;
        let mut members: Vec<Member> = Vec::new();
        let mut i: usize = 0;
        assert(env.take(0).len() == 0);
        assert(crate::json::member_views(members@) =~= Seq::empty());
        while i < self.env.len()
            invariant
                i <= self.env.len(),
                env == self@.env,
                env.len() == self.env.len(),
                env_members(env.take(i as int)) == Some(crate::json::member_views(members@)),
            decreases self.env.len() - i,
        {
            let variable: &EnvVar = &self.env[i];
            proof {
                let next = env.take(i + 1);
                assert(next.last() == variable@);
                assert(next.drop_last() =~= env.take(i as int));
                if env_members(next) is None {
                    lemma_env_members_prefix(env, i + 1);
                }
            }
            let key: String = match crate::json::quote(variable.key.as_str()) {
                Some(key) => key,
                None => {
                    return None;
                },
            };
            let value: String = match env_value_json(&variable.value) {
                Some(value) => value,
                None => {
                    return None;
                },
            };
            let ghost before = members@;
            members.push(Member { name: key, value });
            assert(crate::json::member_views(members@) =~= crate::json::member_views(before).push(
                (key@, value@),
            ));
            i = i + 1;
        }
        assert(env.take(self.env.len() as int) =~= env);
        Some(members)
    }
}

/// Where a part of an environment cannot be written, the whole cannot.
proof fn lemma_env_members_prefix(env: Seq<(Seq<char>, EnvValueView)>, k: int)
    requires
        0 <= k <= env.len(),
        env_members(env.take(k)) is None,
    ensures
        env_members(env) is None,
    decreases env.len() - k,
{
    if k < env.len() {
        let next = env.take(k + 1);
        assert(next.drop_last() =~= env.take(k));
        lemma_env_members_prefix(env, k + 1);
    } else {
        assert(env.take(k) =~= env);
    }
}

impl JsonBody for CloudConfig {
    open spec fn json_text(&self) -> Option<Seq<char>> {
        config_text(self@)
    }

    fn to_json(&self) -> (text: Option<String>) {
        let slug: String = match crate::json::quote(self.app.slug.as_str()) {
            Some(slug) => slug,
            None => {
                return None;
            },
        };
        match self.env_json() {
            None => None,
            Some(env) => Some(frame_manifest(slug.as_str(), self.app.team_id, &env)),
        }
    }
}

} // verus!
