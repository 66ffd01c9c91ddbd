//! Request-scoped trace-context propagation: a header carrier, the trace
//! context that travels in it, the propagation step in both directions, and
//! the per-request slot that ties one span to one request.

pub mod carrier;
pub mod context;
pub mod inbound;
pub mod init;
pub mod propagation;
pub mod span;
pub mod tracing_fairing;

pub use carrier::{Header, HeaderCarrier};
pub use context::TraceContext;
pub use inbound::known_inbound;
pub use init::InitGuard;
pub use propagation::{
    context_from_decoded, extract, extract_from_header_map, inject, injecte_into_header_map,
    known_headers, write_known,
};
pub use tracing_fairing::{RequestSlot, SlotState, TracingFairing, TracingSpan, Unavailable};
