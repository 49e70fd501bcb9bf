//! JSON text, written and read with `serde_json`.
//!
//! Request bodies are framed here as JSON objects; every string that goes
//! into one is escaped by `serde_json`. Replies are read by asking
//! `serde_json` for the value that a JSON pointer names in the reply's text.
//! What `serde_json` answers is not modelled: each answer has a name, and the
//! contracts of this crate speak of these names.

use vstd::prelude::*;

verus! {

/// The JSON text that `serde_json::to_string` writes for the string `s`, or
/// `None` where it reports an error.
pub uninterp spec fn json_string_text(s: Seq<char>) -> Option<Seq<char>>;

/// What a JSON document holds at a place.
#[derive(Debug, PartialEq, Eq)]
pub enum Found {
    /// The document is not JSON.
    Unreadable,
    /// The document holds nothing at the place.
    Missing,
    /// A boolean.
    Bool(bool),
    /// A string.
    Text(String),
    /// An array, with the number of its elements.
    Array(usize),
    /// A null, a number or an object.
    Other,
}

/// A `Found` with its text as a sequence of characters.
pub enum FoundView {
    Unreadable,
    Missing,
    Bool(bool),
    Text(Seq<char>),
    Array(usize),
    Other,
}

impl View for Found {
    type V = FoundView;

    open spec fn view(&self) -> FoundView {
        match self {
            Found::Unreadable => FoundView::Unreadable,
            Found::Missing => FoundView::Missing,
            Found::Bool(b) => FoundView::Bool(*b),
            Found::Text(t) => FoundView::Text(t@),
            Found::Array(n) => FoundView::Array(*n),
            Found::Other => FoundView::Other,
        }
    }
}

/// What the JSON document `document` holds at the JSON pointer `pointer`:
/// the value that `serde_json` finds by `Value::pointer` in what
/// `serde_json::from_str` reads from the document.
pub uninterp spec fn json_lookup(document: Seq<char>, pointer: Seq<char>) -> FoundView;

/// The boolean that a document holds at a pointer, if it holds one there.
pub open spec fn json_bool_at(document: Seq<char>, pointer: Seq<char>) -> Option<bool> {
    match json_lookup(document, pointer) {
        FoundView::Bool(b) => Some(b),
        _ => None,
    }
}

/// The string that a document holds at a pointer, if it holds one there.
pub open spec fn json_string_at(document: Seq<char>, pointer: Seq<char>) -> Option<Seq<char>> {
    match json_lookup(document, pointer) {
        FoundView::Text(t) => Some(t),
        _ => None,
    }
}

/// The number of elements of the array that a document holds at a pointer,
/// if it holds one there.
pub open spec fn json_length_at(document: Seq<char>, pointer: Seq<char>) -> Option<usize> {
    match json_lookup(document, pointer) {
        FoundView::Array(n) => Some(n),
        _ => None,
    }
}

/// Calls `serde_json::to_string` on a string. The contract claims only that
/// the result is the one that `json_string_text` names.
#[verifier::external_body]
pub(crate) fn quote(s: &str) -> (r: Option<String>)
    ensures
        r is None <==> json_string_text(s@) is None,
        r matches Some(t) ==> json_string_text(s@) == Some(t@),
{
    serde_json::to_string(s).ok()
}

/// Parses `document` with `serde_json::from_str` into a `serde_json::Value`,
/// follows `pointer` in it with `Value::pointer`, and tells the variant of
/// the value found. The contract claims only that the result is the one
/// that `json_lookup` names.
#[verifier::external_body]
pub(crate) fn lookup(document: &str, pointer: &str) -> (found: Found)
    ensures
        found@ == json_lookup(document@, pointer@),
{
    match serde_json::from_str::<serde_json::Value>(document) {
        Err(_) => Found::Unreadable,
        Ok(value) => match value.pointer(pointer) {
            None => Found::Missing,
            Some(serde_json::Value::Bool(b)) => Found::Bool(*b),
            Some(serde_json::Value::String(text)) => Found::Text(text.clone()),
            Some(serde_json::Value::Array(elements)) => Found::Array(elements.len()),
            Some(_) => Found::Other,
        },
    }
}

/// Reads a boolean from the member that was found.
pub fn bool_of(found: Found) -> (value: Option<bool>)
    ensures
        value == match found {
            Found::Bool(b) => Some(b),
            _ => None,
        },
{
    match found {
        Found::Bool(b) => Some(b),
        _ => None,
    }
}

/// Reads a string from the member that was found.
pub fn string_of(found: Found) -> (value: Option<String>)
    ensures
        match found {
            Found::Text(t) => (value matches Some(v) && v@ == t@),
            _ => value is None,
        },
{
    match found {
        Found::Text(t) => Some(t),
        _ => None,
    }
}

/// Reads the length of an array from the member that was found.
pub fn length_of(found: Found) -> (value: Option<usize>)
    ensures
        value == match found {
            Found::Array(n) => Some(n),
            _ => None,
        },
{
    match found {
        Found::Array(n) => Some(n),
        _ => None,
    }
}

/// The boolean that `document` holds at `pointer`, if it holds one there.
pub fn bool_at(document: &str, pointer: &str) -> (r: Option<bool>)
    ensures
        r == json_bool_at(document@, pointer@),
{
    bool_of(lookup(document, pointer))
}

/// The string that `document` holds at `pointer`, if it holds one there.
pub fn string_at(document: &str, pointer: &str) -> (r: Option<String>)
    ensures
        r is None <==> json_string_at(document@, pointer@) is None,
        r matches Some(t) ==> json_string_at(document@, pointer@) == Some(t@),
{
    string_of(lookup(document, pointer))
}

/// The number of elements of the array that `document` holds at `pointer`,
/// if it holds one there.
pub fn length_at(document: &str, pointer: &str) -> (r: Option<usize>)
    ensures
        r == json_length_at(document@, pointer@),
{
    length_of(lookup(document, pointer))
}

/// One member of a JSON object: its name as it is written between the
/// braces, quotes included, and the JSON text of its value.
#[derive(Debug, PartialEq, Eq)]
pub struct Member {
    pub name: String,
    pub value: String,
}

impl View for Member {
    type V = (Seq<char>, Seq<char>);

    open spec fn view(&self) -> (Seq<char>, Seq<char>) {
        (self.name@, self.value@)
    }
}

/// The member `name` whose value is the string `value`, or `None` where the
/// string cannot be written as JSON. `name` is taken as it is: it holds its
/// quotes.
pub fn string_member(name: &str, value: &str) -> (member: Option<Member>)
    ensures
        match json_string_text(value@) {
            None => member is None,
            Some(text) => (member matches Some(m) && m@ == (name@, text)),
        },
{
    match quote(value) {
        None => None,
        Some(text) => Some(Member { name: String::from_str(name), value: text }),
    }
}

/// The members of an object, each as `name:value`, with a comma between two.
pub open spec fn members_text(members: Seq<(Seq<char>, Seq<char>)>) -> Seq<char>
    decreases members.len(),
{
    if members.len() == 0 {
        Seq::empty()
    } else if members.len() == 1 {
        members[0].0 + seq![':'] + members[0].1
    } else {
        members_text(members.drop_last()) + seq![','] + members.last().0 + seq![':']
            + members.last().1
    }
}

/// The text of a JSON object with the given members, in their order.
pub open spec fn object_text(members: Seq<(Seq<char>, Seq<char>)>) -> Seq<char> {
    seq!['{'] + members_text(members) + seq!['}']
}

/// The views of a list of members.
pub open spec fn member_views(members: Seq<Member>) -> Seq<(Seq<char>, Seq<char>)> {
    members.map_values(|m: Member| m@)
}

/// Writes a JSON object with the given members, in their order.
pub fn object(members: &Vec<Member>) -> (text: String)
    ensures
        text@ == object_text(member_views(members@)),
{
    proof {
        reveal_strlit("{");
        reveal_strlit("}");
        reveal_strlit(",");
        reveal_strlit(":");
    }
    let ghost views = member_views(members@);
    let mut text: String = String::from_str("{");
    let mut i: usize = 0;
    while i < members.len()
        invariant
            i <= members.len(),
            views == member_views(members@),
            text@ == seq!['{'] + members_text(views.take(i as int)),
            ","@ == seq![','],
            ":"@ == seq![':'],
        decreases members.len() - i,
    {
        if i > 0 {
            text.append(",");
        }
        text.append(members[i].name.as_str());
        text.append(":");
        text.append(members[i].value.as_str());
        proof {
            let next = views.take(i + 1);
            assert(next.drop_last() =~= views.take(i as int));
            assert(next.last() == members@[i as int]@);
            assert(text@ =~= seq!['{'] + members_text(next));
        }
        i = i + 1;
    }
    text.append("}");
    proof {
        assert(views.take(members.len() as int) =~= views);
        assert("}"@ =~= seq!['}']);
    }
    text
}

} // verus!
