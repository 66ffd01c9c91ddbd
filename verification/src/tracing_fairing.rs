//! The per-request span slot and the two phases that run around a handler:
//! the first fills the slot, the second records the outcome on the span and
//! gives the slot's handle up, which closes the span.

use crate::context::{ContextModel, TraceContext};
use crate::inbound::answer;
use crate::propagation::{extract_from_header_map, inbound_parent, traceparent_name};
use crate::span::{duplicate, enter_scope, leave_scope, record_field};
use vstd::prelude::*;

verus! {

/// A span handed to a handler.
#[derive(Clone)]
pub struct TracingSpan<T = tracing::Span>(pub T);

/// The two-phase hook around a request.
pub struct TracingFairing;

/// The failure of a handler that asks for a span when the slot holds none:
/// the request phase never ran, or the span was closed already.
#[derive(Debug)]
pub struct Unavailable;

/// What the slot of one request holds.
pub enum SlotState {
    /// No request phase has run.
    Empty,
    /// The request's span, from the request phase until it is closed.
    Holding(tracing::Span),
    /// The slot has given its span up, after recording this status code on
    /// it, if any.
    Closed(Option<u16>),
}

/// The slot of one request. It takes a span once, hands out further handles
/// to it while it holds it, and gives it up once.
pub struct RequestSlot {
    state: SlotState,
}

impl View for RequestSlot {
    type V = SlotState;

    closed spec fn view(&self) -> SlotState {
        self.state
    }
}

/// The span that a slot holds.
pub open spec fn held(slot: SlotState) -> Option<tracing::Span> {
    match slot {
        SlotState::Holding(span) => Some(span),
        _ => None,
    }
}

/// The status code that was recorded on the slot's span when it was closed.
pub open spec fn recorded(slot: SlotState) -> Option<u16> {
    match slot {
        SlotState::Closed(status) => status,
        _ => None,
    }
}

/// The slot after the request phase offered it `span`: an empty slot takes
/// it, any other stays as it is.
pub open spec fn after_request(slot: SlotState, span: tracing::Span) -> SlotState {
    match slot {
        SlotState::Empty => SlotState::Holding(span),
        _ => slot,
    }
}

/// Whether there is a span to close.
pub open spec fn finalizes(slot: SlotState) -> bool {
    slot is Holding
}

/// The slot after a closing step that records `status`: a slot that holds a
/// span gives it up and keeps the status, any other stays as it is.
pub open spec fn after_response(slot: SlotState, status: Option<u16>) -> SlotState {
    match slot {
        SlotState::Holding(_) => SlotState::Closed(status),
        _ => slot,
    }
}

/// The slot is written once: a fresh slot takes the span of the request
/// phase, and no later request phase replaces or restores it. Reading takes
/// the slot by shared reference, so every read between the two phases sees
/// that span.
pub proof fn lemma_slot_written_once(slot: SlotState, first: tracing::Span, second: tracing::Span)
    ensures
        after_request(SlotState::Empty, first) == SlotState::Holding(first),
        held(after_request(SlotState::Empty, first)) == Some(first),
        after_request(after_request(slot, first), second) == after_request(slot, first),
        !(slot is Empty) ==> after_request(slot, second) == slot,
{
}

/// A span is closed at most once: after one closing step a further one has
/// nothing to close and changes nothing, whatever status it brings, and the
/// status of the first stays on record.
pub proof fn lemma_finalized_once(slot: SlotState, first: Option<u16>, second: Option<u16>)
    ensures
        !finalizes(after_response(slot, first)),
        after_response(after_response(slot, first), second) == after_response(slot, first),
        finalizes(slot) ==> after_response(slot, first) == SlotState::Closed(first),
        finalizes(slot) ==> recorded(after_response(after_response(slot, first), second))
            == first,
        !finalizes(slot) ==> after_response(slot, first) == slot,
{
}

impl RequestSlot {
    /// The slot of a request that has just come in.
    pub fn new() -> (r: RequestSlot)
        ensures
            r@ == SlotState::Empty,
    {
        RequestSlot { state: SlotState::Empty }
    }

    /// Offers `span` to the slot and says whether the slot took it.
    pub fn fill(&mut self, span: tracing::Span) -> (taken: bool)
        ensures
            final(self)@ == after_request(old(self)@, span),
            taken == (old(self)@ is Empty),
    {
        match &self.state {
            SlotState::Empty => {
                self.state = SlotState::Holding(span);
                true
            },
            _ => false,
        }
    }

    /// Whether the slot holds a span.
    pub fn is_filled(&self) -> (b: bool)
        ensures
            b == (held(self@) is Some),
    {
        match &self.state {
            SlotState::Holding(_) => true,
            _ => false,
        }
    }

    /// Whether the slot has given its span up.
    pub fn is_finalized(&self) -> (b: bool)
        ensures
            b == (self@ is Closed),
    {
        match &self.state {
            SlotState::Closed(_) => true,
            _ => false,
        }
    }

    /// The status code that was recorded when the span was closed.
    pub fn recorded_status(&self) -> (r: Option<u16>)
        ensures
            r == recorded(self@),
    {
        match &self.state {
            SlotState::Closed(status) => *status,
            _ => None,
        }
    }

    /// The closing step. If the slot holds a span: enters its scope, records
    /// `status` as the status code if one is given, leaves the scope and
    /// with it gives up the slot's handle, so that the span ends as soon as
    /// no handler holds another. Else nothing happens.
    fn finish(&mut self, status: Option<u16>) -> (closed: bool)
        ensures
            closed == finalizes(old(self)@),
            final(self)@ == after_response(old(self)@, status),
    {
        let mut taken = SlotState::Closed(status);
        core::mem::swap(&mut self.state, &mut taken);
        match taken {
            SlotState::Holding(span) => {
                let scope = enter_scope(span);
                if let Some(code) = status {
                    record_field(&scope, "http.status_code", code);
                }
                leave_scope(scope);
                true
            },
            other => {
                self.state = other;
                false
            },
        }
    }

    /// Another handle to the request's span; `Unavailable` exactly when the
    /// slot holds none.
    pub fn current_span(&self) -> (r: Result<tracing::Span, Unavailable>)
        ensures
            match r {
                Ok(handle) => held(self@) is Some && cloned(held(self@)->Some_0, handle),
                Err(_) => held(self@) is None,
            },
    {
        match &self.state {
            SlotState::Holding(span) => Ok(duplicate(span)),
            _ => Err(Unavailable),
        }
    }
}

impl TracingFairing {
    /// The request phase. `span` is the span that was started for this
    /// request; it gets the parent found in `headers` and goes into the slot,
    /// if the slot is empty. Returns that parent: "no parent" for a request
    /// without an identifier header, whose span then starts a new trace.
    pub fn on_request(
        &self,
        slot: &mut RequestSlot,
        headers: &rocket::http::HeaderMap<'_>,
        span: tracing::Span,
    ) -> (parent: TraceContext)
        ensures
            parent@ == inbound_parent(*headers),
            answer(*headers, traceparent_name()) is None ==> parent@ == ContextModel::root(),
            final(slot)@ == after_request(old(slot)@, span),
            old(slot)@ is Empty ==> held(final(slot)@) == Some(span),
    {
        let mut span = span;
        let parent = extract_from_header_map(headers, &mut span);
        let _taken = slot.fill(span);
        parent
    }

    /// The response phase, for any response, failed or not. If the slot
    /// holds a span: records `status` on it inside its scope and gives the
    /// slot's handle up; the slot keeps the status. Else does nothing. Says
    /// whether there was a span to close.
    pub fn on_response(&self, slot: &mut RequestSlot, status: u16) -> (closed: bool)
        ensures
            closed == finalizes(old(slot)@),
            final(slot)@ == after_response(old(slot)@, Some(status)),
            closed ==> recorded(final(slot)@) == Some(status) && held(final(slot)@) is None,
            !closed ==> final(slot)@ == old(slot)@,
    {
        slot.finish(Some(status))
    }

    /// The way out for a request that never reaches the response phase: if
    /// the slot holds a span, enters and leaves its scope without a status
    /// and gives the slot's handle up. Else does nothing. Says whether there
    /// was a span to close.
    pub fn on_drop(&self, slot: &mut RequestSlot) -> (closed: bool)
        ensures
            closed == finalizes(old(slot)@),
            final(slot)@ == after_response(old(slot)@, None),
            closed ==> recorded(final(slot)@) is None && held(final(slot)@) is None,
            !closed ==> final(slot)@ == old(slot)@,
    {
        slot.finish(None)
    }
}

impl TracingSpan<tracing::Span> {
    /// The span of the request that `slot` belongs to, for a handler;
    /// `Unavailable` exactly when the slot holds none.
    pub fn from_request(slot: &RequestSlot) -> (r: Result<TracingSpan, Unavailable>)
        ensures
            match r {
                Ok(found) => held(slot@) is Some && cloned(held(slot@)->Some_0, found.0),
                Err(_) => held(slot@) is None,
            },
    {
        match slot.current_span() {
            Ok(handle) => Ok(TracingSpan(handle)),
            Err(e) => Err(e),
        }
    }
}

} // verus!
