//! The decisions of the two listeners.
//!
//! The metadata listener sees the headers of every response and records
//! those that pass the filters. The completion listener sees every finished
//! load, takes the record of its request out of the table, and joins it
//! with the body that the source hands over. What lies between the steps
//! (waiting for the source, asking it for a body, handing the event on) is
//! the caller's part.

use vstd::prelude::*;
use vstd::string::StringExecFns;
use crate::body::{body_text, decode_body, FetchedBody};
use crate::event::{exchange_of, Error, Event, Exchange, Metadata, PendingResponse};
use crate::filter::{should_capture, EventStreamConfig, FilterView};
use crate::headers::{content_type, record_of, status_code, Header, ResponseMetadata};
use crate::table::CorrelationTable;

verus! {

/// A view of an optional record.
pub open spec fn opt_record_view(record: Option<PendingResponse>) -> Option<Metadata> {
    match record {
        Some(r) => Some(r@),
        None => None,
    }
}

/// The table once the headers of a response have been seen: a response
/// that passes the filters leaves its record under its request id, in place
/// of any earlier one; any other response leaves the table as it is.
pub open spec fn after_response(
    table: Map<Seq<char>, Metadata>,
    filters: FilterView,
    request_id: Seq<char>,
    url: Seq<char>,
    status: i64,
    headers: Seq<Header>,
) -> Map<Seq<char>, Metadata> {
    match record_of(filters, url, status, headers) {
        Some(record) => table.insert(request_id, record),
        None => table,
    }
}

/// The table once a load has finished: the record of its request is gone.
pub open spec fn after_finished(
    table: Map<Seq<char>, Metadata>,
    request_id: Seq<char>,
) -> Map<Seq<char>, Metadata> {
    table.remove(request_id)
}

/// The record to keep for a response, or `None` where the response does
/// not pass the filters.
pub fn pending_of(
    config: &EventStreamConfig,
    response: ResponseMetadata,
) -> (record: Option<PendingResponse>)
    ensures
        opt_record_view(record) == record_of(
            config@,
            response.url@,
            response.status,
            response.headers@,
        ),
{
    let found = content_type(&response.headers);
    if should_capture(config, response.url.as_str(), found) {
        let kept = match found {
            Some(text) => Some(String::from_str(text)),
            None => None,
        };
        Some(
            PendingResponse {
                url: response.url,
                content_type: kept,
                status: Some(status_code(response.status)),
            },
        )
    } else {
        None
    }
}

/// The metadata listener's step: records the response under its request id
/// where it passes the filters. Returns whether it did.
pub fn on_response_received(
    table: &mut CorrelationTable,
    config: &EventStreamConfig,
    request_id: String,
    response: ResponseMetadata,
) -> (captured: bool)
    ensures
        final(table)@ == after_response(
            old(table)@,
            config@,
            request_id@,
            response.url@,
            response.status,
            response.headers@,
        ),
        captured == record_of(config@, response.url@, response.status, response.headers@)
            is Some,
{
    match pending_of(config, response) {
        Some(record) => {
            table.insert(request_id, record);
            true
        },
        None => false,
    }
}

/// The completion listener's first step: takes the record of the request
/// out of the table. `Some` asks the caller to fetch the body of that
/// request; `None` says that the request is not tracked, and nothing is to
/// be fetched for it.
pub fn on_loading_finished(
    table: &mut CorrelationTable,
    request_id: &str,
) -> (pending: Option<PendingResponse>)
    ensures
        final(table)@ == after_finished(old(table)@, request_id@),
        opt_record_view(pending) == (if old(table)@.contains_key(request_id@) {
            Some(old(table)@[request_id@])
        } else {
            None
        }),
{
    table.remove(request_id)
}

/// What a fetch that succeeded handed over, or `None` for one that failed.
pub open spec fn fetched_view<E>(fetched: Result<FetchedBody, E>) -> Option<(Seq<char>, bool)> {
    match fetched {
        Ok(body) => Some((body.body@, body.base64_encoded)),
        Err(_) => None,
    }
}

/// The event that a record and the outcome of its fetch give: none where
/// the fetch failed or the body is flagged as encoded and is no valid
/// encoding, else the record joined with the text of the body.
pub open spec fn event_of(record: Metadata, fetched: Option<(Seq<char>, bool)>) -> Option<Exchange> {
    match fetched {
        Some((body, base64_encoded)) => match body_text(body, base64_encoded) {
            Ok(text) => Some(exchange_of(record, text)),
            Err(_) => None,
        },
        None => None,
    }
}

/// The completion listener's second step: joins the record with the
/// outcome of the fetch. A failed fetch gives `Error::GetResponseBody` with
/// the source's error, a malformed encoding `Error::Base64Decode`; either
/// way the event is dropped for good.
pub fn on_body_fetched(
    pending: PendingResponse,
    fetched: Result<FetchedBody, chromiumoxide::error::CdpError>,
) -> (event: Result<Event, Error>)
    ensures
        match event_of(pending@, fetched_view(fetched)) {
            Some(exchange) => event is Ok && event->Ok_0@ == exchange,
            None => event is Err,
        },
        match fetched {
            Ok(body) => match body_text(body.body@, body.base64_encoded) {
                Ok(_) => event is Ok,
                Err(e) => event == Err::<Event, Error>(Error::Base64Decode(e)),
            },
            Err(e) => event == Err::<Event, Error>(Error::GetResponseBody(e)),
        },
{
    match fetched {
        Ok(body) => match decode_body(body) {
            Ok(text) => Ok(Event::assemble(pending, text)),
            Err(e) => Err(e),
        },
        Err(e) => Err(Error::GetResponseBody(e)),
    }
}

} // verus!
