//! Requests as the code that builds them describes them: method, address,
//! headers and body, and no credential.

use vstd::prelude::*;

verus! {

/// The HTTP methods that the helpers use.
#[derive(Debug, Clone, Copy, PartialEq, Eq, Structural)]
pub enum Method {
    Get,
    Post,
    Patch,
    Put,
}

/// One header of a request.
#[derive(Debug, PartialEq, Eq)]
pub struct Header {
    pub name: String,
    pub value: String,
}

/// A header as characters.
pub struct HeaderView {
    pub name: Seq<char>,
    pub value: Seq<char>,
}

impl View for Header {
    type V = HeaderView;

    open spec fn view(&self) -> HeaderView {
        HeaderView { name: self.name@, value: self.value@ }
    }
}

/// What a request carries.
#[derive(Debug, PartialEq, Eq)]
pub enum RequestBody {
    /// Nothing.
    Empty,
    /// A text, sent as it is.
    Text(String),
    /// The content of the file at this path, streamed when the request is sent.
    File(String),
}

/// A body as characters.
pub enum BodyView {
    Empty,
    Text(Seq<char>),
    File(Seq<char>),
}

impl View for RequestBody {
    type V = BodyView;

    open spec fn view(&self) -> BodyView {
        match self {
            RequestBody::Empty => BodyView::Empty,
            RequestBody::Text(text) => BodyView::Text(text@),
            RequestBody::File(path) => BodyView::File(path@),
        }
    }
}

/// A request without its authorization.
#[derive(Debug, PartialEq, Eq)]
pub struct OutboundRequestDescriptor {
    pub method: Method,
    pub url: String,
    pub headers: Vec<Header>,
    pub body: RequestBody,
}

/// A request as plain values.
pub struct RequestView {
    pub method: Method,
    pub url: Seq<char>,
    pub headers: Seq<HeaderView>,
    pub body: BodyView,
}

/// The headers of a list, as characters.
pub open spec fn header_views(headers: Seq<Header>) -> Seq<HeaderView> {
    headers.map_values(|header: Header| header@)
}

impl View for OutboundRequestDescriptor {
    type V = RequestView;

    open spec fn view(&self) -> RequestView {
        RequestView {
            method: self.method,
            url: self.url@,
            headers: header_views(self.headers@),
            body: self.body@,
        }
    }
}

/// The header with this name and value.
pub fn header(name: &str, value: &str) -> (made: Header)
    ensures
        made@ == (HeaderView { name: name@, value: value@ }),
{
    Header { name: name.to_owned(), value: value.to_owned() }
}

} // verus!
