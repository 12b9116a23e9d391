//! A minimal device crate for a generic target: the interrupt numbering
//! contract, the interrupt vector table layout, and a placeholder token for
//! peripheral ownership.
//!
//! The hardware defines two configurations. The base variant exposes the
//! interrupt sources with codes below 32; the extended variant adds further
//! sources and grows the vector table to 44 slots. Link-time artifacts (the
//! `extern` handler symbols, the `#[link_section]` statics and the unsafe
//! constructor) cannot be expressed here and live in the surrounding
//! unverified crate; this library states and proves the numbering and table
//! layout they must follow.

pub mod interrupt;
pub mod peripherals;
pub mod vectors;
