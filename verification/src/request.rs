//! Requests as plain values.
//!
//! A `ClientBuilder` describes one HTTP request completely: method, address,
//! headers and body. Nothing is sent from here; whoever performs the request
//! reads the description. The body of a file upload names the byte range to
//! send instead of holding the bytes, so that a request costs no more memory
//! than its headers.

use vstd::prelude::*;
use vstd::string::StringSliceAdditionalSpecFns;

verus! {

/// Name of the header that carries the credential.
pub const AUTHORIZATION: &'static str = "Authorization";

/// Name of the header that tells the kind of the body.
pub const CONTENT_TYPE: &'static str = "Content-Type";

/// Value of `Content-Type` for a JSON body.
pub const APPLICATION_JSON: &'static str = "application/json";

/// What stands before the token in the value of `Authorization`.
pub const BEARER_PREFIX: &'static str = "Bearer ";

/// The HTTP method of a request.
#[derive(Clone, Copy, Debug, PartialEq, Eq, Structural)]
pub enum Method {
    Get,
    Post,
}

/// One header line.
#[derive(Debug, PartialEq, Eq)]
pub struct Header {
    pub name: String,
    pub value: String,
}

impl View for Header {
    type V = (Seq<char>, Seq<char>);

    open spec fn view(&self) -> (Seq<char>, Seq<char>) {
        (self.name@, self.value@)
    }
}

/// One part of a multipart form.
#[derive(Debug, PartialEq, Eq)]
pub enum Part {
    /// A text field.
    Text { name: String, value: String },
    /// A file field whose content is `length` bytes of the file `file_name`,
    /// starting at `offset`.
    FileRange { name: String, file_name: String, offset: u64, length: u64 },
}

/// A `Part` with its texts as sequences of characters.
pub enum PartView {
    Text { name: Seq<char>, value: Seq<char> },
    FileRange { name: Seq<char>, file_name: Seq<char>, offset: u64, length: u64 },
}

impl View for Part {
    type V = PartView;

    open spec fn view(&self) -> PartView {
        match self {
            Part::Text { name, value } => PartView::Text { name: name@, value: value@ },
            Part::FileRange { name, file_name, offset, length } => PartView::FileRange {
                name: name@,
                file_name: file_name@,
                offset: *offset,
                length: *length,
            },
        }
    }
}

/// A multipart form: its parts in the order in which they were added.
#[derive(Debug, PartialEq, Eq)]
pub struct Form {
    pub parts: Vec<Part>,
}

impl View for Form {
    type V = Seq<PartView>;

    open spec fn view(&self) -> Seq<PartView> {
        self.parts@.map_values(|p: Part| p@)
    }
}

impl Form {
    /// A form without parts.
    pub fn new() -> (form: Form)
        ensures
            form@ == Seq::<PartView>::empty(),
    {
        let form = Form { parts: Vec::new() };
        assert(form@ =~= Seq::<PartView>::empty());
        form
    }

    /// Adds a part behind those that are there.
    pub fn part(self, part: Part) -> (form: Form)
        ensures
            form@ == self@.push(part@),
    {
        let ghost before = self.parts@;
        let mut parts = self.parts;
        parts.push(part);
        let form = Form { parts };
        assert(form@ =~= before.map_values(|p: Part| p@).push(part@));
        form
    }

    /// Adds a text field.
    pub fn text(self, name: &str, value: String) -> (form: Form)
        ensures
            form@ == self@.push(PartView::Text { name: name@, value: value@ }),
    {
        self.part(Part::Text { name: String::from_str(name), value })
    }

    /// Adds a file field that stands for a byte range of a file.
    pub fn file_range(self, name: &str, file_name: &str, offset: u64, length: u64) -> (form: Form)
        ensures
            form@ == self@.push(
                PartView::FileRange { name: name@, file_name: file_name@, offset, length },
            ),
    {
        self.part(
            Part::FileRange {
                name: String::from_str(name),
                file_name: String::from_str(file_name),
                offset,
                length,
            },
        )
    }
}

/// The body of a request.
#[derive(Debug, PartialEq, Eq)]
pub enum Body {
    /// No body.
    Empty,
    /// A body of text.
    Text(String),
    /// A multipart form.
    Multipart(Form),
}

/// A `Body` with its texts as sequences of characters.
pub enum BodyView {
    Empty,
    Text(Seq<char>),
    Multipart(Seq<PartView>),
}

impl View for Body {
    type V = BodyView;

    open spec fn view(&self) -> BodyView {
        match self {
            Body::Empty => BodyView::Empty,
            Body::Text(text) => BodyView::Text(text@),
            Body::Multipart(form) => BodyView::Multipart(form@),
        }
    }
}

/// A request under construction.
#[derive(Debug, PartialEq, Eq)]
pub struct ClientBuilder {
    pub method: Method,
    pub url: String,
    pub headers: Vec<Header>,
    pub body: Body,
}

/// A request with its texts as sequences of characters.
pub struct RequestView {
    pub method: Method,
    pub url: Seq<char>,
    pub headers: Seq<(Seq<char>, Seq<char>)>,
    pub body: BodyView,
}

impl View for ClientBuilder {
    type V = RequestView;

    open spec fn view(&self) -> RequestView {
        RequestView {
            method: self.method,
            url: self.url@,
            headers: self.headers@.map_values(|h: Header| h@),
            body: self.body@,
        }
    }
}

/// Something that can be sent as the JSON body of a request.
pub trait JsonBody {
    /// The JSON text of the value, or `None` where it cannot be written.
    spec fn json_text(&self) -> Option<Seq<char>>;

    /// Writes the value as JSON.
    fn to_json(&self) -> (text: Option<String>)
        ensures
            text is None <==> self.json_text() is None,
            text matches Some(t) ==> self.json_text() == Some(t@),
    ;
}

/// Whether `b` may stand in the value of a header: a tab, or any byte from
/// the space on but for the delete character.
pub open spec fn valid_header_byte(b: u8) -> bool {
    b >= 32 && b != 127 || b == 9
}

/// Whether every byte of `value` may stand in the value of a header.
pub open spec fn valid_header_value(value: Seq<u8>) -> bool {
    forall|i: int| 0 <= i < value.len() ==> valid_header_byte(#[trigger] value[i])
}

/// Whether every header of a request has a value whose bytes, in UTF-8, may
/// all be sent.
pub open spec fn valid_header_values(headers: Seq<Header>) -> bool {
    forall|i: int|
        0 <= i < headers.len() ==> valid_header_value(
            vstd::utf8::encode_utf8((#[trigger] headers[i]).value@),
        )
}

/// Asks `http::HeaderValue::from_str` whether it accepts `value`. It does so
/// exactly where every byte of the text is a tab or at least 32 and not 127.
#[verifier::external_body]
fn header_value_accepted(value: &str) -> (accepted: bool)
    ensures
        accepted == valid_header_value(value.spec_bytes()),
{
    http::HeaderValue::from_str(value).is_ok()
}

/// Whether `value` can be sent as the value of a header.
pub fn is_valid_header_value(value: &str) -> (valid: bool)
    ensures
        valid == valid_header_value(vstd::utf8::encode_utf8(value@)),
{
    header_value_accepted(value)
}

impl ClientBuilder {
    /// A request to `url` without headers and without body.
    pub fn new(method: Method, url: String) -> (request: ClientBuilder)
        ensures
            request@ == (RequestView {
                method,
                url: url@,
                headers: Seq::empty(),
                body: BodyView::Empty,
            }),
    {
        let request = ClientBuilder { method, url, headers: Vec::new(), body: Body::Empty };
        assert(request@.headers =~= Seq::empty());
        request
    }

    /// Adds a header behind those that are there. A name may occur more than
    /// once.
    pub fn header(self, name: &str, value: &str) -> (request: ClientBuilder)
        ensures
            request@ == (RequestView { headers: self@.headers.push((name@, value@)), ..self@ }),
    {
        let ghost before = self.headers@;
        let ClientBuilder { method, url, headers, body } = self;
        let mut headers = headers;
        headers.push(Header { name: String::from_str(name), value: String::from_str(value) });
        let request = ClientBuilder { method, url, headers, body };
        assert(request@.headers =~= before.map_values(|h: Header| h@).push((name@, value@)));
        request
    }

    /// Adds the header that carries the credential: `Authorization`, with
    /// `Bearer ` and the token.
    pub fn auth_header(self, api_key: &str) -> (request: ClientBuilder)
        ensures
            request@ == (RequestView {
                headers: self@.headers.push((AUTHORIZATION@, BEARER_PREFIX@ + api_key@)),
                ..self@
            }),
    {
        let value: String = crate::text::join(BEARER_PREFIX, api_key);
        self.header(AUTHORIZATION, value.as_str())
    }

    /// Sets the body to the given text and leaves the headers as they are.
    pub fn body(self, body: String) -> (request: ClientBuilder)
        ensures
            request@ == (RequestView { body: BodyView::Text(body@), ..self@ }),
    {
        let ClientBuilder { method, url, headers, body: _ } = self;
        ClientBuilder { method, url, headers, body: Body::Text(body) }
    }

    /// Sets the body to the given form and leaves the headers as they are:
    /// the boundary of the form is chosen when the request is sent, and the
    /// `Content-Type` that names it is added then.
    pub fn multipart(self, form: Form) -> (request: ClientBuilder)
        ensures
            request@ == (RequestView { body: BodyView::Multipart(form@), ..self@ }),
    {
        let ClientBuilder { method, url, headers, body: _ } = self;
        ClientBuilder { method, url, headers, body: Body::Multipart(form) }
    }

    /// Sets the body to the JSON text of `json` and adds the header
    /// `Content-Type: application/json`. Fails with `ClientError::Encode`
    /// exactly where the value cannot be written as JSON.
    pub fn json<B: JsonBody>(self, json: &B) -> (result: Result<
        ClientBuilder,
        crate::error::ClientError,
    >)
        ensures
            match json.json_text() {
                None => (result matches Err(e) && e@ == crate::error::ClientErrorView::Encode),
                Some(text) => (result matches Ok(request) && request@ == (RequestView {
                    headers: self@.headers.push((CONTENT_TYPE@, APPLICATION_JSON@)),
                    body: BodyView::Text(text),
                    ..self@
                })),
            },
    {
        match json.to_json() {
            None => Err(crate::error::ClientError::Encode),
            Some(text) => Ok(self.header(CONTENT_TYPE, APPLICATION_JSON).body(text)),
        }
    }

    /// Whether the value of every header can be sent. A request for which
    /// this is false is refused before anything reaches the network.
    pub fn has_valid_headers(&self) -> (valid: bool)
        ensures
            valid == valid_header_values(self.headers@),
    {
        let mut i: usize = 0;
        while i < self.headers.len()
            invariant
                i <= self.headers.len(),
                forall|j: int|
                    0 <= j < i ==> valid_header_value(
                        vstd::utf8::encode_utf8((#[trigger] self.headers@[j]).value@),
                    ),
            decreases self.headers.len() - i,
        {
            if !header_value_accepted(self.headers[i].value.as_str()) {
                return false;
            }
            i = i + 1;
        }
        true
    }
}

} // verus!
