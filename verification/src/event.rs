//! The records that travel through the engine: the metadata kept while a
//! response loads, the finished event, and what can go wrong on the way.

use vstd::prelude::*;

verus! {

/// `chromiumoxide::error::CdpError`, the error of a command sent to the
/// page. Nothing is claimed of it: a value is carried through as it came.
#[verifier::external_type_specification]
#[verifier::external_body]
pub struct ExCdpError(chromiumoxide::error::CdpError);

/// `base64::DecodeError`, the error of the base64 decoder. Nothing is
/// claimed of it: a value is carried through as it came.
#[verifier::external_type_specification]
#[verifier::external_body]
pub struct ExDecodeError(base64::DecodeError);

/// The failures of the stream, each with the error that caused it.
#[derive(Debug)]
pub enum Error {
    /// Network tracking could not be enabled: no stream is started.
    EnableNetwork(chromiumoxide::error::CdpError),
    /// The body of one response could not be fetched: that event is dropped.
    GetResponseBody(chromiumoxide::error::CdpError),
    /// The body of one response was flagged as encoded and is not a valid
    /// encoding: that event is dropped.
    Base64Decode(base64::DecodeError),
}

/// A view of an optional string.
pub open spec fn opt_string_view(s: Option<String>) -> Option<Seq<char>> {
    match s {
        Some(t) => Some(t@),
        None => None,
    }
}

/// What is known of a response once its headers have arrived.
pub struct Metadata {
    pub url: Seq<char>,
    pub content_type: Option<Seq<char>>,
    pub status: Option<u16>,
}

/// A captured exchange as plain values.
pub struct Exchange {
    pub url: Seq<char>,
    pub content_type: Option<Seq<char>>,
    pub status: Option<u16>,
    pub body: Seq<char>,
}

/// The event that joins `metadata` with `body`.
pub open spec fn exchange_of(metadata: Metadata, body: Seq<char>) -> Exchange {
    Exchange {
        url: metadata.url,
        content_type: metadata.content_type,
        status: metadata.status,
        body,
    }
}

/// The metadata of a response that passed the filters, kept from the arrival
/// of its headers until its loading finishes.
#[derive(Debug)]
pub struct PendingResponse {
    pub url: String,
    pub content_type: Option<String>,
    pub status: Option<u16>,
}

impl View for PendingResponse {
    type V = Metadata;

    open spec fn view(&self) -> Metadata {
        Metadata {
            url: self.url@,
            content_type: opt_string_view(self.content_type),
            status: self.status,
        }
    }
}

/// A copy of an optional string, character for character.
pub fn copy_opt_string(s: &Option<String>) -> (copy: Option<String>)
    ensures
        opt_string_view(copy) == opt_string_view(*s),
{
    match s {
        Some(t) => Some(t.clone()),
        None => None,
    }
}

impl Clone for PendingResponse {
    fn clone(&self) -> (copy: Self)
        ensures
            copy@ == self@,
    {
        PendingResponse {
            url: self.url.clone(),
            content_type: copy_opt_string(&self.content_type),
            status: self.status,
        }
    }
}

/// A finished exchange: the metadata of a response together with its body.
#[derive(Debug)]
pub struct Event {
    pub url: String,
    pub content_type: Option<String>,
    pub status: Option<u16>,
    pub body: String,
}

impl View for Event {
    type V = Exchange;

    open spec fn view(&self) -> Exchange {
        Exchange {
            url: self.url@,
            content_type: opt_string_view(self.content_type),
            status: self.status,
            body: self.body@,
        }
    }
}

impl Clone for Event {
    fn clone(&self) -> (copy: Self)
        ensures
            copy@ == self@,
    {
        Event {
            url: self.url.clone(),
            content_type: copy_opt_string(&self.content_type),
            status: self.status,
            body: self.body.clone(),
        }
    }
}

impl Event {
    /// Joins the metadata of a response with its body.
    pub fn assemble(pending: PendingResponse, body: String) -> (event: Event)
        ensures
            event@ == exchange_of(pending@, body@),
    {
        Event {
            url: pending.url,
            content_type: pending.content_type,
            status: pending.status,
            body,
        }
    }
}

} // verus!
