//! The trace context: the identifiers that place a unit of work in a
//! distributed trace.

use vstd::prelude::*;

verus! {

/// The identifiers that travel with a request.
#[derive(Clone, Debug)]
pub struct TraceContext {
    pub trace_id: u128,
    pub span_id: u64,
    pub flags: u8,
    /// Vendor state, in its header form; empty when there is none.
    pub state: String,
    /// Whether the context came in over the wire.
    pub remote: bool,
}

/// A trace context as a mathematical value.
pub ghost struct ContextModel {
    pub trace_id: u128,
    pub span_id: u64,
    pub flags: u8,
    pub state: Seq<char>,
    pub remote: bool,
}

impl ContextModel {
    /// A context names a trace when neither identifier is zero.
    pub open spec fn is_valid(self) -> bool {
        self.trace_id != 0 && self.span_id != 0
    }

    /// The context of a request that has no parent.
    pub open spec fn root() -> ContextModel {
        ContextModel { trace_id: 0, span_id: 0, flags: 0, state: Seq::empty(), remote: false }
    }
}

impl View for TraceContext {
    type V = ContextModel;

    open spec fn view(&self) -> ContextModel {
        ContextModel {
            trace_id: self.trace_id,
            span_id: self.span_id,
            flags: self.flags,
            state: self.state@,
            remote: self.remote,
        }
    }
}

impl TraceContext {
    /// The "no parent" context: a request that carries it starts a new trace.
    pub fn root() -> (r: TraceContext)
        ensures
            r@ == ContextModel::root(),
            !r@.is_valid(),
    {
        TraceContext { trace_id: 0, span_id: 0, flags: 0, state: String::new(), remote: false }
    }

    /// Whether the context names a trace.
    pub fn is_valid(&self) -> (b: bool)
        ensures
            b == self@.is_valid(),
    {
        self.trace_id != 0 && self.span_id != 0
    }
}

} // verus!
