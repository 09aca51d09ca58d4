//! Bridges a listening-history feed to a rich-presence status surface.
//!
//! The core is the reconciliation loop: on every poll tick it decides whether
//! the displayed track changed, whether a presence update should be pushed or
//! suppressed, and how the "elapsed since track start" timestamp is preserved
//! across polls. The HTTP fetch and the presence-daemon connection live
//! outside this crate; they hand the library plain values.

pub mod laws;
pub mod parse;
pub mod payload;
pub mod reconcile;
pub mod text;
pub mod track;
