//! Register-level control of the GPIO companion chip on a multi-revision
//! hardware dongle.
//!
//! The crate models the chip's fixed register map, the revision-keyed pin
//! capability table, and the semantic pin operations (power control, fault
//! sensing, USB data-path switch, forced-mode lines, header pins) built on
//! them.  Every operation is compiled to a short, fully specified plan of
//! register transfers; an unverified front end performs the transfers on
//! the real transport, while the same plans run directly against an
//! in-memory register file, e.g. for simulation in tests.

pub mod bits;
pub mod hal;
pub mod machine;
pub mod pins;
pub mod regfile;
pub mod regmap;
pub mod wire;
