//! A verified driver core for a legacy video adapter's 640x480 16-color
//! planar graphics mode.
//!
//! The crate models the adapter itself — its four bit-planes, its
//! plane-selection registers and its palette — as a plain state machine
//! ([`vga::Vga`]), and verifies the driver logic against that model: the
//! packed color attribute type, the default palette table, and the planar
//! writer with its per-plane read-modify-write pixel path.

pub mod colors;
pub mod vga;
pub mod writers;
