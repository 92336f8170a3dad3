//! The life of one list request: lease a connection, run the query, answer.
//! The caller does the waiting; this module decides what follows each
//! outcome.

use crate::event::{events_from_rows, listing_of, records, rows_are_events, Cell, Event, Record};
use crate::failure::{
    generic_message, internal_error_message, DatabaseError, PoolFault, QueryFault, Release,
    STATUS_INTERNAL_ERROR, STATUS_OK,
};
use vstd::prelude::*;

verus! {

/// The answer to a list request.
#[derive(Debug, Clone, PartialEq, Eq)]
pub enum Response {
    /// The events, to be sent as a JSON array of `{id, title}` objects.
    Listing(Vec<Event>),
    /// The one answer to every backend failure.
    InternalError,
}

impl Response {
    /// The events that the answer carries, if it carries any.
    pub open spec fn listing(self) -> Option<Seq<Record>> {
        match self {
            Response::Listing(events) => Some(records(events@)),
            Response::InternalError => None,
        }
    }

    /// The HTTP status of the answer.
    pub fn status(&self) -> (code: u16)
        ensures
            code == (if self is Listing {
                STATUS_OK
            } else {
                STATUS_INTERNAL_ERROR
            }),
    {
        match self {
            Response::Listing(_) => STATUS_OK,
            Response::InternalError => STATUS_INTERNAL_ERROR,
        }
    }

    /// The text of an error answer; `None` for a listing.
    pub fn error_message(&self) -> (text: Option<String>)
        ensures
            match text {
                Some(t) => self is InternalError && t@ == generic_message(),
                None => self is Listing,
            },
    {
        match self {
            Response::Listing(_) => None,
            Response::InternalError => Some(internal_error_message()),
        }
    }
}

/// Turns the outcome of the list operation into the answer: the events as
/// they are, and any failure into the one generic error.
pub fn respond(outcome: Result<Vec<Event>, DatabaseError>) -> (response: Response)
    ensures
        match outcome {
            Ok(events) => response == Response::Listing(events),
            Err(_) => response is InternalError,
        },
{
    match outcome {
        Ok(events) => Response::Listing(events),
        Err(_) => Response::InternalError,
    }
}

/// The text of the one statement that the service runs.
pub open spec fn list_query_text() -> Seq<char> {
    "SELECT id, title FROM event"@
}

/// The statement that lists the events. It takes no parameters.
pub fn list_query() -> (sql: &'static str)
    ensures
        sql@ == list_query_text(),
{
    "SELECT id, title FROM event"
}

/// Where a request stands.
#[derive(Debug, Clone, Copy, PartialEq, Eq, Structural)]
pub enum Phase {
    Received,
    Acquiring,
    Querying,
    Done,
}

/// What the caller reports back.
#[derive(Debug, Clone, PartialEq, Eq)]
pub enum Signal {
    /// The request has arrived.
    Start,
    /// The pool has leased a connection to this request.
    Leased,
    /// The pool could not lease a connection: the request holds none, and
    /// the pool has given up the room of a connection it could not establish.
    LeaseFailed(PoolFault),
    /// The query has returned these rows.
    Rows(Vec<Vec<Cell>>),
    /// The query has failed.
    QueryFailed(QueryFault),
}

/// What the caller is to do next.
#[derive(Debug, Clone, PartialEq, Eq)]
pub enum Action {
    /// Lease a connection from the pool.
    Acquire,
    /// Run the list query on the leased connection.
    Query,
    /// End the lease as `release` says, then send `response`.
    Reply { release: Release, response: Response },
    /// Nothing: the signal was out of turn.
    Ignore,
}

/// One transition: the next phase and what to do.
#[derive(Debug, Clone, PartialEq, Eq)]
pub struct Step {
    pub next: Phase,
    pub action: Action,
}

/// The signals that a phase waits for.
pub open spec fn in_turn(phase: Phase, signal: Signal) -> bool {
    match phase {
        Phase::Received => signal is Start,
        Phase::Acquiring => signal is Leased || signal is LeaseFailed,
        Phase::Querying => signal is Rows || signal is QueryFailed,
        Phase::Done => false,
    }
}

/// The step ends the request with this release and this listing (`None`: the
/// generic error).
pub open spec fn replies(out: Step, release: Release, listing: Option<Seq<Record>>) -> bool {
    &&& out.next == Phase::Done
    &&& out.action matches Action::Reply { release: r, response }
    &&& r == release
    &&& response.listing() == listing
}

/// How a connection is released after a query fault.
pub open spec fn release_after(fault: QueryFault) -> Release {
    if fault == QueryFault::Connection {
        Release::Broken
    } else {
        Release::Healthy
    }
}

/// The transition relation of a request.
pub open spec fn step_spec(phase: Phase, signal: Signal, out: Step) -> bool {
    if !in_turn(phase, signal) {
        out.next == phase && out.action is Ignore
    } else {
        match signal {
            Signal::Start => out.next == Phase::Acquiring && out.action is Acquire,
            Signal::Leased => out.next == Phase::Querying && out.action is Query,
            Signal::LeaseFailed(_) => replies(out, Release::Nothing, None),
            Signal::Rows(rows) => if rows_are_events(rows@) {
                replies(out, Release::Healthy, Some(listing_of(rows@)))
            } else {
                replies(out, Release::Healthy, None)
            },
            Signal::QueryFailed(fault) => replies(out, release_after(fault), None),
        }
    }
}

/// How far a request has come.
pub open spec fn rank(phase: Phase) -> int {
    match phase {
        Phase::Received => 0,
        Phase::Acquiring => 1,
        Phase::Querying => 2,
        Phase::Done => 3,
    }
}

fn conclude(release: Release, outcome: Result<Vec<Event>, DatabaseError>) -> (out: Step)
    ensures
        out.next == Phase::Done,
        out.action matches Action::Reply { release: r, response } && r == release && (match outcome {
            Ok(events) => response == Response::Listing(events),
            Err(_) => response is InternalError,
        }),
{
    Step { next: Phase::Done, action: Action::Reply { release, response: respond(outcome) } }
}

/// Advances a request by one signal. A signal that the phase does not wait
/// for changes nothing. A failed lease or query ends the request at once with
/// the generic error: nothing is tried again. Rows that describe no events
/// count as a rejected query.
pub fn step(phase: Phase, signal: Signal) -> (out: Step)
    ensures
        step_spec(phase, signal, out),
{
    match phase {
        Phase::Received => match signal {
            Signal::Start => Step { next: Phase::Acquiring, action: Action::Acquire },
            _ => Step { next: phase, action: Action::Ignore },
        },
        Phase::Acquiring => match signal {
            Signal::Leased => Step { next: Phase::Querying, action: Action::Query },
            Signal::LeaseFailed(fault) => conclude(
                Release::Nothing,
                Err(DatabaseError::Pool(fault)),
            ),
            _ => Step { next: phase, action: Action::Ignore },
        },
        Phase::Querying => match signal {
            Signal::Rows(rows) => match events_from_rows(&rows) {
                Ok(events) => conclude(Release::Healthy, Ok(events)),
                Err(_) => conclude(
                    QueryFault::Rejected.release(),
                    Err(DatabaseError::Query(QueryFault::Rejected)),
                ),
            },
            Signal::QueryFailed(fault) => conclude(
                fault.release(),
                Err(DatabaseError::Query(fault)),
            ),
            _ => Step { next: phase, action: Action::Ignore },
        },
        Phase::Done => Step { next: phase, action: Action::Ignore },
    }
}

/// Every failure gets the same answer: when a lease or a query fails, the
/// request ends with the generic error, whatever the kind of the failure.
pub proof fn lemma_failures_are_opaque(phase: Phase, signal: Signal, out: Step)
    requires
        step_spec(phase, signal, out),
        signal is LeaseFailed || signal is QueryFailed,
    ensures
        out.action is Ignore || (out.action matches Action::Reply { response, .. }
            && response is InternalError),
        in_turn(phase, signal) ==> out.next == Phase::Done && out.action is Reply,
{
}

/// No lease is lost and none is made up: a request that holds a connection
/// leaves `Querying` only by a reply that returns or discards it, and a reply
/// from any other phase releases nothing.
pub proof fn lemma_lease_is_settled(phase: Phase, signal: Signal, out: Step)
    requires
        step_spec(phase, signal, out),
    ensures
        phase == Phase::Querying && out.next != Phase::Querying ==> out.action is Reply,
        out.action matches Action::Reply { release, .. } ==> (release != Release::Nothing
            <==> phase == Phase::Querying),
        out.next == Phase::Querying ==> phase == Phase::Acquiring || phase == Phase::Querying,
{
}

/// A connection is discarded exactly when the transport under it failed.
pub proof fn lemma_discard_iff_transport_failed(phase: Phase, signal: Signal, out: Step)
    requires
        step_spec(phase, signal, out),
    ensures
        (out.action matches Action::Reply { release, .. } && release == Release::Broken) <==> (phase
            == Phase::Querying && signal == Signal::QueryFailed(QueryFault::Connection)),
{
}

/// A request only moves forward, so it ends after at most three signals that
/// were in turn, and nothing is retried.
pub proof fn lemma_request_advances(phase: Phase, signal: Signal, out: Step)
    requires
        step_spec(phase, signal, out),
    ensures
        in_turn(phase, signal) ==> rank(out.next) > rank(phase),
        !in_turn(phase, signal) ==> out.next == phase && out.action is Ignore,
        out.action is Acquire ==> phase == Phase::Received,
{
}

/// The same signal in the same phase gives the same step: with the same rows
/// the answer is the same listing.
pub proof fn lemma_step_is_a_function(phase: Phase, signal: Signal, a: Step, b: Step)
    requires
        step_spec(phase, signal, a),
        step_spec(phase, signal, b),
    ensures
        a.next == b.next,
        a.action is Reply <==> b.action is Reply,
        a.action is Acquire <==> b.action is Acquire,
        a.action is Query <==> b.action is Query,
        a.action matches Action::Reply { release: ra, response: pa } ==> (b.action matches Action::Reply {
            release: rb,
            response: pb,
        } && ra == rb && pa.listing() == pb.listing()),
{
}

} // verus!
