//! The engine over a whole run.
//!
//! The two listeners touch the table one signal at a time, so a run is a
//! sequence of signals in the order in which they were processed. This
//! module says what table and what deliveries such a sequence leads to,
//! built from the same steps as the listeners' contracts, and proves what
//! the engine promises of every run.

use vstd::prelude::*;
use crate::event::{Exchange, Metadata};
use crate::filter::FilterView;
use crate::headers::{record_of, Header};
use crate::listener::{after_finished, after_response, event_of};

verus! {

/// One signal of the source, as the engine processes it.
pub enum Signal {
    /// The headers of a response have arrived.
    ResponseReceived { request_id: Seq<char>, url: Seq<char>, status: i64, headers: Seq<Header> },
    /// A load has finished. `fetched` is what asking for its body would
    /// give: the body and its encoding flag, or `None` for a failed fetch.
    LoadingFinished { request_id: Seq<char>, fetched: Option<(Seq<char>, bool)> },
}

/// `signal` reports a response of request `id` that passes the filters.
pub open spec fn records(filters: FilterView, signal: Signal, id: Seq<char>) -> bool {
    match signal {
        Signal::ResponseReceived { request_id, url, status, headers } => request_id == id
            && record_of(filters, url, status, headers) is Some,
        Signal::LoadingFinished { .. } => false,
    }
}

/// `signal` reports that the load of request `id` has finished.
pub open spec fn finishes(signal: Signal, id: Seq<char>) -> bool {
    match signal {
        Signal::ResponseReceived { .. } => false,
        Signal::LoadingFinished { request_id, .. } => request_id == id,
    }
}

/// The table after one signal.
pub open spec fn step_table(
    filters: FilterView,
    table: Map<Seq<char>, Metadata>,
    signal: Signal,
) -> Map<Seq<char>, Metadata> {
    match signal {
        Signal::ResponseReceived { request_id, url, status, headers } => after_response(
            table,
            filters,
            request_id,
            url,
            status,
            headers,
        ),
        Signal::LoadingFinished { request_id, .. } => after_finished(table, request_id),
    }
}

/// The event that one signal puts on the delivery channel, if any: only a
/// finished load whose request has a record can give one.
pub open spec fn step_event(table: Map<Seq<char>, Metadata>, signal: Signal) -> Option<Exchange> {
    match signal {
        Signal::ResponseReceived { .. } => None,
        Signal::LoadingFinished { request_id, fetched } => if table.contains_key(request_id) {
            event_of(table[request_id], fetched)
        } else {
            None
        },
    }
}

/// The table after a run that started with an empty table.
pub open spec fn table_after(filters: FilterView, trace: Seq<Signal>) -> Map<Seq<char>, Metadata>
    decreases trace.len(),
{
    if trace.len() == 0 {
        Map::empty()
    } else {
        step_table(filters, table_after(filters, trace.drop_last()), trace.last())
    }
}

/// The events that a run has put on the delivery channel, first to last.
pub open spec fn delivered(filters: FilterView, trace: Seq<Signal>) -> Seq<Exchange>
    decreases trace.len(),
{
    if trace.len() == 0 {
        Seq::empty()
    } else {
        let before = delivered(filters, trace.drop_last());
        match step_event(table_after(filters, trace.drop_last()), trace.last()) {
            Some(event) => before.push(event),
            None => before,
        }
    }
}

/// The event that the signal at position `at` of a run gives, if any.
pub open spec fn event_at(filters: FilterView, trace: Seq<Signal>, at: int) -> Option<Exchange> {
    step_event(table_after(filters, trace.take(at)), trace[at])
}

/// The positions of the signals of a run that give an event, in the order
/// of the run.
pub open spec fn delivering_positions(filters: FilterView, trace: Seq<Signal>) -> Seq<int>
    decreases trace.len(),
{
    if trace.len() == 0 {
        Seq::empty()
    } else {
        let before = delivering_positions(filters, trace.drop_last());
        if step_event(table_after(filters, trace.drop_last()), trace.last()) is Some {
            before.push(trace.len() - 1)
        } else {
            before
        }
    }
}

proof fn lemma_step(filters: FilterView, trace: Seq<Signal>, at: int)
    requires
        0 <= at < trace.len(),
    ensures
        table_after(filters, trace.take(at + 1)) == step_table(
            filters,
            table_after(filters, trace.take(at)),
            trace[at],
        ),
        delivered(filters, trace.take(at + 1)) == (match event_at(filters, trace, at) {
            Some(event) => delivered(filters, trace.take(at)).push(event),
            None => delivered(filters, trace.take(at)),
        }),
{
    assert(trace.take(at + 1).drop_last() =~= trace.take(at));
    assert(trace.take(at + 1).last() == trace[at]);
}

proof fn lemma_record_has_source(
    filters: FilterView,
    trace: Seq<Signal>,
    from: int,
    to: int,
    id: Seq<char>,
)
    requires
        0 <= from <= to <= trace.len(),
        !table_after(filters, trace.take(from)).contains_key(id),
        table_after(filters, trace.take(to)).contains_key(id),
    ensures
        exists|k: int| from <= k < to && records(filters, #[trigger] trace[k], id),
    decreases to - from,
{
    if from < to {
        lemma_step(filters, trace, to - 1);
        if !records(filters, trace[to - 1], id) {
            lemma_record_has_source(filters, trace, from, to - 1, id);
        }
    }
}

/// At most one event per record: between two finished loads of one
/// request of which the second gives an event, a response of that request
/// passed the filters. A load that finishes twice without such a response
/// in between gives no second event.
pub proof fn law_one_event_per_record(
    filters: FilterView,
    trace: Seq<Signal>,
    first: int,
    second: int,
    id: Seq<char>,
)
    requires
        0 <= first < second < trace.len(),
        finishes(trace[first], id),
        finishes(trace[second], id),
        event_at(filters, trace, second) is Some,
    ensures
        exists|k: int| first < k < second && records(filters, #[trigger] trace[k], id),
{
    lemma_step(filters, trace, first);
    lemma_record_has_source(filters, trace, first + 1, second, id);
}

/// The record in the table is that of the latest response: after a
/// response of request `id` that passes the filters, and as long as no
/// later such response and no finished load of that request follow, the
/// table holds what that response gave.
pub proof fn law_latest_response_is_kept(
    filters: FilterView,
    trace: Seq<Signal>,
    at: int,
    until: int,
    id: Seq<char>,
)
    requires
        0 <= at < until <= trace.len(),
        records(filters, trace[at], id),
        forall|p: int|
            at < p < until ==> !records(filters, #[trigger] trace[p], id) && !finishes(
                trace[p],
                id,
            ),
    ensures
        table_after(filters, trace.take(until)).contains_key(id),
        Some(table_after(filters, trace.take(until))[id]) == record_of(
            filters,
            trace[at]->ResponseReceived_url,
            trace[at]->ResponseReceived_status,
            trace[at]->ResponseReceived_headers,
        ),
    decreases until - at,
{
    lemma_step(filters, trace, until - 1);
    if at + 1 < until {
        law_latest_response_is_kept(filters, trace, at, until - 1, id);
    }
}

/// A finished load gives the event of the latest response: where the load
/// of request `id` finishes at `done`, the latest response of that request
/// that passed the filters came at `at`, and no load of that request
/// finished in between, the event is that response's record joined with
/// the fetched body, however many responses of the request came before.
pub proof fn law_event_joins_latest_response(
    filters: FilterView,
    trace: Seq<Signal>,
    at: int,
    done: int,
    id: Seq<char>,
)
    requires
        0 <= at < done < trace.len(),
        records(filters, trace[at], id),
        finishes(trace[done], id),
        forall|p: int|
            at < p < done ==> !records(filters, #[trigger] trace[p], id) && !finishes(
                trace[p],
                id,
            ),
    ensures
        event_at(filters, trace, done) == event_of(
            record_of(
                filters,
                trace[at]->ResponseReceived_url,
                trace[at]->ResponseReceived_status,
                trace[at]->ResponseReceived_headers,
            )->Some_0,
            trace[done]->LoadingFinished_fetched,
        ),
{
    law_latest_response_is_kept(filters, trace, at, done, id);
}

/// A request that was never recorded gives no event: where no response of
/// request `id` passed the filters before its load finishes, nothing is
/// delivered for it.
pub proof fn law_untracked_request_gives_nothing(
    filters: FilterView,
    trace: Seq<Signal>,
    done: int,
    id: Seq<char>,
)
    requires
        0 <= done < trace.len(),
        finishes(trace[done], id),
        forall|p: int| 0 <= p < done ==> !records(filters, #[trigger] trace[p], id),
    ensures
        event_at(filters, trace, done) is None,
{
    if table_after(filters, trace.take(done)).contains_key(id) {
        assert(trace.take(0) =~= Seq::<Signal>::empty());
        lemma_record_has_source(filters, trace, 0, done, id);
    }
}

/// Deliveries are never taken back: what a run has delivered after its
/// first `n` signals is the front of what it delivers in all.
pub proof fn law_deliveries_only_grow(filters: FilterView, trace: Seq<Signal>, n: int)
    requires
        0 <= n <= trace.len(),
    ensures
        delivered(filters, trace.take(n)).is_prefix_of(delivered(filters, trace)),
    decreases trace.len() - n,
{
    if n == trace.len() {
        assert(trace.take(n) =~= trace);
    } else {
        lemma_step(filters, trace, n);
        law_deliveries_only_grow(filters, trace, n + 1);
    }
}

proof fn lemma_event_at_prefix(filters: FilterView, trace: Seq<Signal>, at: int)
    requires
        0 <= at < trace.len() - 1,
    ensures
        event_at(filters, trace.drop_last(), at) == event_at(filters, trace, at),
{
    assert(trace.drop_last().take(at) =~= trace.take(at));
}

/// Events come in the order in which the loads finished: the deliveries of
/// a run are the events of its delivering signals, one each, in the order
/// of their positions in the run; and every signal that gives an event is
/// among them. Where the responses came in the run plays no part.
pub proof fn law_events_in_completion_order(filters: FilterView, trace: Seq<Signal>)
    ensures
        delivering_positions(filters, trace).len() == delivered(filters, trace).len(),
        forall|n: int|
            0 <= n < delivered(filters, trace).len() ==> {
                let at = #[trigger] delivering_positions(filters, trace)[n];
                &&& 0 <= at < trace.len()
                &&& trace[at] is LoadingFinished
                &&& event_at(filters, trace, at) == Some(delivered(filters, trace)[n])
            },
        forall|m: int, n: int|
            0 <= m < n < delivered(filters, trace).len() ==> delivering_positions(
                filters,
                trace,
            )[m] < delivering_positions(filters, trace)[n],
        forall|at: int|
            0 <= at < trace.len() && event_at(filters, trace, at) is Some
                ==> delivering_positions(filters, trace).contains(at),
    decreases trace.len(),
{
    if trace.len() > 0 {
        let shorter = trace.drop_last();
        let last = trace.len() - 1;
        law_events_in_completion_order(filters, shorter);
        assert(trace.take(last) =~= shorter);
        let positions = delivering_positions(filters, trace);
        let before = delivering_positions(filters, shorter);
        assert forall|n: int| 0 <= n < delivered(filters, trace).len() implies {
            let at = #[trigger] positions[n];
            &&& 0 <= at < trace.len()
            &&& trace[at] is LoadingFinished
            &&& event_at(filters, trace, at) == Some(delivered(filters, trace)[n])
        } by {
            if n < before.len() {
                lemma_event_at_prefix(filters, trace, before[n]);
            }
        }
        assert forall|at: int|
            0 <= at < trace.len() && event_at(filters, trace, at) is Some implies positions.contains(
            at,
        ) by {
            if at < last {
                lemma_event_at_prefix(filters, trace, at);
                assert(before.contains(at));
                let n = choose|n: int| 0 <= n < before.len() && before[n] == at;
                assert(positions[n] == at);
            } else {
                assert(positions[positions.len() - 1] == at);
            }
        }
    }
}

/// The order of responses of different requests plays no part: a run in
/// which two such responses follow each other, and the run with those two
/// exchanged, lead to the same table and the same deliveries.
pub proof fn law_response_order_is_irrelevant(
    filters: FilterView,
    before: Seq<Signal>,
    one: Signal,
    other: Signal,
    after: Seq<Signal>,
)
    requires
        one is ResponseReceived,
        other is ResponseReceived,
        one->ResponseReceived_request_id != other->ResponseReceived_request_id,
    ensures
        table_after(filters, before.push(one).push(other) + after) == table_after(
            filters,
            before.push(other).push(one) + after,
        ),
        delivered(filters, before.push(one).push(other) + after) == delivered(
            filters,
            before.push(other).push(one) + after,
        ),
    decreases after.len(),
{
    let left = before.push(one).push(other) + after;
    let right = before.push(other).push(one) + after;
    if after.len() == 0 {
        assert(left =~= before.push(one).push(other));
        assert(right =~= before.push(other).push(one));
        assert(left.drop_last() =~= before.push(one));
        assert(right.drop_last() =~= before.push(other));
        assert(before.push(one).drop_last() =~= before);
        assert(before.push(other).drop_last() =~= before);
        assert(table_after(filters, left) =~= table_after(filters, right));
        assert(delivered(filters, before.push(one)) == delivered(filters, before));
        assert(delivered(filters, before.push(other)) == delivered(filters, before));
        assert(delivered(filters, left) == delivered(filters, before));
        assert(delivered(filters, right) == delivered(filters, before));
    } else {
        law_response_order_is_irrelevant(filters, before, one, other, after.drop_last());
        assert(left.drop_last() =~= before.push(one).push(other) + after.drop_last());
        assert(right.drop_last() =~= before.push(other).push(one) + after.drop_last());
        assert(left.last() == after.last());
        assert(right.last() == after.last());
    }
}

} // verus!
