//! What the backends ask of the HTTP layer and what they take back from it.
//! The library builds requests and reads replies; sending is the caller's
//! part.

use vstd::prelude::*;

verus! {

/// The HTTP method of a request.
#[derive(Clone, Copy, Debug, PartialEq, Eq)]
pub enum HttpMethod {
    Get,
    Post,
    Patch,
}

/// The JSON object sent when a record is created or patched.
#[derive(Clone, Debug, PartialEq, Eq)]
pub struct RecordPayload {
    pub record_type: String,
    pub name: String,
    pub content: String,
    pub ttl: u32,
    pub proxied: bool,
}

/// A `RecordPayload` with its texts as character sequences.
pub struct RecordPayloadView {
    pub record_type: Seq<char>,
    pub name: Seq<char>,
    pub content: Seq<char>,
    pub ttl: u32,
    pub proxied: bool,
}

impl View for RecordPayload {
    type V = RecordPayloadView;

    open spec fn view(&self) -> RecordPayloadView {
        RecordPayloadView {
            record_type: self.record_type@,
            name: self.name@,
            content: self.content@,
            ttl: self.ttl,
            proxied: self.proxied,
        }
    }
}

/// The body of a request.
#[derive(Clone, Debug, PartialEq, Eq)]
pub enum Payload {
    /// No body.
    Empty,
    /// A form, sent as `application/x-www-form-urlencoded`, fields in order.
    Form { fields: Vec<(String, String)> },
    /// A record, sent as a JSON object.
    Json { record: RecordPayload },
}

/// A `Payload` with its texts as character sequences.
pub enum PayloadView {
    Empty,
    Form { fields: Seq<(Seq<char>, Seq<char>)> },
    Json { record: RecordPayloadView },
}

impl View for Payload {
    type V = PayloadView;

    open spec fn view(&self) -> PayloadView {
        match self {
            Payload::Empty => PayloadView::Empty,
            Payload::Form { fields } => PayloadView::Form { fields: fields.deep_view() },
            Payload::Json { record } => PayloadView::Json { record: record@ },
        }
    }
}

/// One HTTP request, ready to be sent.
#[derive(Clone, Debug, PartialEq, Eq)]
pub struct HttpRequest {
    pub method: HttpMethod,
    pub url: String,
    pub headers: Vec<(String, String)>,
    pub payload: Payload,
}

/// An `HttpRequest` with its texts as character sequences.
pub struct HttpRequestView {
    pub method: HttpMethod,
    pub url: Seq<char>,
    pub headers: Seq<(Seq<char>, Seq<char>)>,
    pub payload: PayloadView,
}

impl View for HttpRequest {
    type V = HttpRequestView;

    open spec fn view(&self) -> HttpRequestView {
        HttpRequestView {
            method: self.method,
            url: self.url@,
            headers: self.headers.deep_view(),
            payload: self.payload@,
        }
    }
}

/// How sending a request ended, before anyone looked into the body.
#[derive(Clone, Debug, PartialEq, Eq)]
pub enum Delivery {
    /// The request could not be sent or the body could not be read.
    Failed { detail: String },
    /// A body came back.
    Answered { body: String },
}

/// How sending a request ended, with the body decoded into `T` where it had
/// the expected shape.
#[derive(Clone, Debug, PartialEq, Eq)]
pub enum Reply<T> {
    /// The request could not be sent or the body could not be read.
    Failed { detail: String },
    /// A body came back that does not have the expected shape.
    Malformed { body: String, reason: String },
    /// A body of the expected shape came back.
    Decoded { value: T },
}

/// A pair of owned strings from two string slices.
pub fn pair(name: &str, value: &str) -> (p: (String, String))
    ensures
        p.deep_view() == (name@, value@),
{
    (String::from_str(name), String::from_str(value))
}

} // verus!
