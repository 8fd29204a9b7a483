//! What the service sends back: a status code, a content type and a body.

use vstd::prelude::*;

verus! {

/// The media type of a response body.
#[derive(Clone, Copy, Debug, PartialEq, Eq, Structural)]
pub enum ContentType {
    TextPlain,
    Json,
}

impl ContentType {
    /// The media type as it is written into the `Content-Type` header.
    pub open spec fn text(self) -> Seq<char> {
        match self {
            ContentType::TextPlain => "text/plain"@,
            ContentType::Json => "application/json"@,
        }
    }

    pub fn as_str(&self) -> (name: &'static str)
        ensures
            name@ == self.text(),
    {
        match self {
            ContentType::TextPlain => "text/plain",
            ContentType::Json => "application/json",
        }
    }
}

/// A response, ready to be written to the connection.
#[derive(Debug, PartialEq, Eq)]
pub struct Response {
    pub status: u16,
    /// `None` where the response has no body to describe.
    pub content_type: Option<ContentType>,
    pub body: String,
}

/// A response as a mathematical value: the body is a sequence of characters.
pub struct ResponseView {
    pub status: u16,
    pub content_type: Option<ContentType>,
    pub body: Seq<char>,
}

impl View for Response {
    type V = ResponseView;

    open spec fn view(&self) -> ResponseView {
        ResponseView { status: self.status, content_type: self.content_type, body: self.body@ }
    }
}

} // verus!
