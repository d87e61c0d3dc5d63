//! Capture of primitive values.
//!
//! This crate reduces a value to at most one primitive datum (integer,
//! float, boolean, character, string, or byte buffer) delivered to a
//! [`Visitor`]: a sink that receives exactly one `visit_*` call per
//! capture.  Values of the fixed primitive set implement [`Visit`] and
//! deliver themselves directly.  A value of a richer, structured
//! serialization model is instead classified by its opening serializer
//! call, reified as a [`Shape`]: the bridge in [`bridge`] forwards a
//! primitive-shaped opening call to the visitor and answers every
//! structured one (sequence, map, struct, enum variant with payload,
//! unit, optional-absent) with [`Unsupported`], so that the caller can
//! deliver a textual rendering of the value as a fallback instead.

pub mod bridge;
pub mod datum;
mod sealed;
pub mod value;
pub mod visitor;

pub use bridge::Shape;
pub use bridge::Unsupported;
pub use bridge::capture;
pub use bridge::drive;
pub use datum::Call;
pub use datum::Datum;
pub use value::Visit;
pub use visitor::Recorder;
pub use visitor::TextRecorder;
pub use visitor::Visitor;

