//! The pipeline orchestrator: runs the three stages strictly in sequence —
//! index lookup, metadata lookup, tile stream opening — and short-circuits
//! on the first failure, propagating its error unchanged.
//!
//! The orchestrator is a state machine over plain values. The unverified
//! driver performs each requested network action, reduces the outcome to a
//! [`FetchEvent`], and feeds it back through [`step_fetch`]; the machine
//! decides what happens next. No state is shared across invocations: each
//! run is a pure function of its start point and the events it was fed.

use vstd::prelude::*;
use crate::errors::PipelineError;
use crate::index::{IndexResponse, ObjectId, index_query_params, spec_first_object_id, first_object_id};
use crate::metadata::{MetadataResponse, TileUrl, spec_extract_file_url, extract_file_url};
use crate::point::{GeoPoint, geometry_text};

verus! {

/// Where one pipeline run stands: which stage's outcome it awaits, or how
/// it ended.
#[derive(Debug, Clone, PartialEq, Eq)]
pub enum FetchState {
    /// The index query was issued; its reply is awaited.
    AwaitingIndex,
    /// The metadata query for this identifier was issued; its reply is
    /// awaited.
    AwaitingMetadata(ObjectId),
    /// The streaming request was issued; its opening is awaited.
    AwaitingStream,
    /// The stream was opened and belongs to the caller.
    Done,
    /// The run failed with this error; nothing further happens.
    Failed(PipelineError),
}

/// The outcome of one network action, reduced to plain values.
#[derive(Debug, Clone, PartialEq, Eq)]
pub enum FetchEvent {
    /// The index query's reply arrived and parsed as JSON.
    IndexArrived(IndexResponse),
    /// The metadata query's reply arrived and parsed as JSON.
    MetadataArrived(MetadataResponse),
    /// The streaming request received its initial response.
    StreamOpened,
    /// The network call itself failed.
    TransportFailed,
}

/// What the driver is asked to do next.
#[derive(Debug, Clone, PartialEq, Eq)]
pub enum FetchAction {
    /// Issue the index query with these query parameters.
    QueryIndex(Vec<(String, String)>),
    /// Issue the metadata query for this identifier.
    QueryMetadata(ObjectId),
    /// Open the streaming request against this URL.
    OpenStream(TileUrl),
    /// Hand the opened stream to the caller.
    Deliver,
    /// Surface this error to the caller; issue no further request.
    Fail(PipelineError),
}

/// Which event a state can be fed: exactly the outcome of the action that
/// state awaits. Terminal states accept nothing.
pub open spec fn accepts(s: FetchState, ev: FetchEvent) -> bool {
    match (s, ev) {
        (FetchState::AwaitingIndex, FetchEvent::IndexArrived(_)) => true,
        (FetchState::AwaitingIndex, FetchEvent::TransportFailed) => true,
        (FetchState::AwaitingMetadata(_), FetchEvent::MetadataArrived(_)) => true,
        (FetchState::AwaitingMetadata(_), FetchEvent::TransportFailed) => true,
        (FetchState::AwaitingStream, FetchEvent::StreamOpened) => true,
        (FetchState::AwaitingStream, FetchEvent::TransportFailed) => true,
        _ => false,
    }
}

/// The orchestrator's transition: from a state and the awaited outcome to
/// the successor state and the next action. Meaningful for the pairs
/// `accepts` admits; elsewhere it stands still.
pub open spec fn spec_step(s: FetchState, ev: FetchEvent) -> (FetchState, FetchAction) {
    match (s, ev) {
        (FetchState::AwaitingIndex, FetchEvent::IndexArrived(r)) => match spec_first_object_id(
            r,
        ) {
            Result::Ok(id) => (FetchState::AwaitingMetadata(id), FetchAction::QueryMetadata(id)),
            Result::Err(e) => (FetchState::Failed(e), FetchAction::Fail(e)),
        },
        (FetchState::AwaitingMetadata(_), FetchEvent::MetadataArrived(m)) => match
        spec_extract_file_url(m) {
            Result::Ok(url) => (FetchState::AwaitingStream, FetchAction::OpenStream(url)),
            Result::Err(e) => (FetchState::Failed(e), FetchAction::Fail(e)),
        },
        (FetchState::AwaitingStream, FetchEvent::StreamOpened) => (
            FetchState::Done,
            FetchAction::Deliver,
        ),
        (_, FetchEvent::TransportFailed) => (
            FetchState::Failed(PipelineError::Transport),
            FetchAction::Fail(PipelineError::Transport),
        ),
        (s, _) => (s, FetchAction::Fail(PipelineError::Transport)),
    }
}

/// Begins one run for `p`: the machine awaits the index reply, and the
/// driver is asked to issue the index query with the four parameters of
/// the index lookup, the point's geometry among them.
pub fn start_fetch(p: &GeoPoint) -> (r: (FetchState, FetchAction))
    ensures
        r.0 == FetchState::AwaitingIndex,
        match r.1 {
            FetchAction::QueryIndex(q) => {
                &&& q@.len() == 4
                &&& q@[0].0@ == "f"@ && q@[0].1@ == "json"@
                &&& q@[1].0@ == "geometryType"@ && q@[1].1@ == "esriGeometryPoint"@
                &&& q@[2].0@ == "geometry"@ && q@[2].1@ == geometry_text(*p)
                &&& q@[3].0@ == "returnIdsOnly"@ && q@[3].1@ == "true"@
            },
            _ => false,
        },
{
    (FetchState::AwaitingIndex, FetchAction::QueryIndex(index_query_params(p)))
}

/// Feeds one outcome to the machine and returns its successor state and
/// the next action, exactly as [`spec_step`] lays down.
pub fn step_fetch(s: FetchState, ev: FetchEvent) -> (r: (FetchState, FetchAction))
    requires
        accepts(s, ev),
    ensures
        r == spec_step(s, ev),
{
    match (s, ev) {
        (FetchState::AwaitingIndex, FetchEvent::IndexArrived(resp)) => {
            match first_object_id(&resp) {
                Result::Ok(id) => (
                    FetchState::AwaitingMetadata(id),
                    FetchAction::QueryMetadata(id),
                ),
                Result::Err(e) => (FetchState::Failed(e), FetchAction::Fail(e)),
            }
        },
        (FetchState::AwaitingMetadata(_), FetchEvent::MetadataArrived(m)) => {
            match extract_file_url(m) {
                Result::Ok(url) => (FetchState::AwaitingStream, FetchAction::OpenStream(url)),
                Result::Err(e) => (FetchState::Failed(e), FetchAction::Fail(e)),
            }
        },
        (FetchState::AwaitingStream, FetchEvent::StreamOpened) => (
            FetchState::Done,
            FetchAction::Deliver,
        ),
        (_, FetchEvent::TransportFailed) => (
            FetchState::Failed(PipelineError::Transport),
            FetchAction::Fail(PipelineError::Transport),
        ),
        _ => unreached(),
    }
}

/// The state a run reaches from `s` after being fed `events`, in order.
pub open spec fn spec_run(s: FetchState, events: Seq<FetchEvent>) -> FetchState
    decreases events.len(),
{
    if events.len() == 0 {
        s
    } else {
        spec_run(spec_step(s, events.first()).0, events.drop_first())
    }
}

/// An index reply with no identifiers halts the run: the step reports
/// `NotFound`, asks for no further network call, and leaves the machine
/// in a state that accepts no further event.
pub proof fn lemma_empty_index_halts(r: IndexResponse)
    requires
        match r.object_ids {
            Option::Some(ids) => ids@.len() == 0,
            Option::None => true,
        },
    ensures
        spec_step(FetchState::AwaitingIndex, FetchEvent::IndexArrived(r)) == (
            FetchState::Failed(PipelineError::NotFound),
            FetchAction::Fail(PipelineError::NotFound),
        ),
        forall|ev: FetchEvent| !accepts(FetchState::Failed(PipelineError::NotFound), ev),
{
}

/// Ended runs stay ended: neither a delivered nor a failed machine
/// accepts any further event, so no further network call follows.
pub proof fn lemma_terminal_states_accept_nothing(s: FetchState, ev: FetchEvent)
    requires
        s == FetchState::Done || s matches FetchState::Failed(_),
    ensures
        !accepts(s, ev),
{
}

/// A run in which every stage succeeds issues its requests strictly in
/// sequence and against the values the replies pin down: the metadata
/// query for the index reply's first identifier, the streaming request
/// for the extracted URL, and then delivery.
pub proof fn lemma_successful_sequence(
    r: IndexResponse,
    m: MetadataResponse,
    id: ObjectId,
    url: TileUrl,
)
    requires
        spec_first_object_id(r) == Result::<ObjectId, PipelineError>::Ok(id),
        spec_extract_file_url(m) == Result::<TileUrl, PipelineError>::Ok(url),
    ensures
        spec_step(FetchState::AwaitingIndex, FetchEvent::IndexArrived(r)) == (
            FetchState::AwaitingMetadata(id),
            FetchAction::QueryMetadata(id),
        ),
        spec_step(FetchState::AwaitingMetadata(id), FetchEvent::MetadataArrived(m)) == (
            FetchState::AwaitingStream,
            FetchAction::OpenStream(url),
        ),
        spec_step(FetchState::AwaitingStream, FetchEvent::StreamOpened) == (
            FetchState::Done,
            FetchAction::Deliver,
        ),
{
}

/// A transport failure at any awaiting stage fails the run immediately
/// with `Transport`, asking for no further request.
pub proof fn lemma_transport_failure_halts(s: FetchState)
    requires
        s == FetchState::AwaitingIndex || s matches FetchState::AwaitingMetadata(_) || s
            == FetchState::AwaitingStream,
    ensures
        spec_step(s, FetchEvent::TransportFailed) == (
            FetchState::Failed(PipelineError::Transport),
            FetchAction::Fail(PipelineError::Transport),
        ),
{
}

/// Idempotence across invocations: a run's outcome is a function of its
/// start state and the events it was fed alone. Two runs started alike
/// and fed alike end alike; no shared state lets one observe the other.
pub proof fn lemma_run_deterministic(
    s1: FetchState,
    s2: FetchState,
    events1: Seq<FetchEvent>,
    events2: Seq<FetchEvent>,
)
    requires
        s1 == s2,
        events1 == events2,
    ensures
        spec_run(s1, events1) == spec_run(s2, events2),
{
}

} // verus!
