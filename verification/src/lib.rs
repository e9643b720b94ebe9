//! Verified core of a binding between an immediate-mode GUI library and an
//! OpenGL windowing/rendering library.
//!
//! The crate owns the decision logic of such a binding: translating window
//! events into the GUI's input model ([`bridge`]), classifying quit events,
//! and planning per-frame texture uploads and scissor-bounded draw calls
//! ([`painter`]). All GPU and window handles are modeled as opaque integer
//! capabilities, so the core stays independent of any one graphics API; a
//! thin unverified shell performs the actual GPU and window calls from the
//! plans this crate computes.

pub mod bridge;
pub mod geom;
pub mod painter;
