//! An execution-trace collector: it consumes the call/return event stream of
//! an observed program and assembles an ordered, filtered record of stack
//! frames for later inspection.
//!
//! The crate holds the frame-classification, metadata-extraction, call-stack
//! correlation and trace-assembly engine.  The host runtime's event hook, the
//! value serializer and the durable persistence sink are external
//! collaborators: the host hands each event in as plain values
//! ([`event::FrameEvent`]) and carries flushed traces
//! ([`session::TracePayload`]) to storage.

pub mod event;
pub mod filter;
pub mod path;
pub mod qualname;
pub mod record;
pub mod session;
pub mod sink;
pub mod text;

mod host;
