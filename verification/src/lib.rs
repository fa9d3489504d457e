//! Core of a flash-programming algorithm for the RP2040 / RP235x family.
//!
//! The algorithm runs from on-chip RAM while flash execute-in-place is
//! disabled, and is driven by an external programming host through a small
//! set of entry points. This crate holds the verified decision logic:
//! bootrom function-table resolution, the lifecycle state machine that
//! guards every operation against use-before-init, address translation,
//! and the erase/program operation logic. Each operation is described as a
//! sequence of [`algo::HardwareCall`] values; the thin unverified runtime
//! around this crate performs those calls through the resolved ROM
//! routines.

pub mod algo;
pub mod bootrom;
pub mod error;
pub mod region;
