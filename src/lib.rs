//! A safety layer over one-sided remote memory access: a process group
//! registers a window of typed memory, and each member reads its own slice or
//! writes into another member's slice inside lock epochs.
//!
//! The library decides everything that can go wrong locally (which ranks and
//! indices are valid, how many bytes a window takes, where a put lands) and
//! hands the caller plain values to give the transport.

pub mod delivery;
pub mod epoch;
pub mod error;
pub mod group;
pub mod window;
