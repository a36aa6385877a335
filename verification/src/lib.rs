//! Verified driver logic for an on-chip flash memory controller.
//!
//! The crate models the flash peripheral of a dual-bank microcontroller part
//! at the register level: each bank has a lock bit guarded by a two-word key
//! protocol, a control register that selects erase or program mode, a busy
//! flag that gates every new command, and a status register that reports
//! faults. The erase and program engines drive that model through the exact
//! hardware sequence (unlock, configure, trigger, busy-wait, decode faults,
//! re-lock) and their contracts pin down the resulting flash contents and the
//! lock state on every path, success or failure.
//!
//! Production firmware binds the same sequences to memory-mapped registers;
//! that binding is ordinary unverified glue and lives outside this crate.

pub mod bank;
pub mod engine;
pub mod error;
pub mod facade;
pub mod laws;
pub mod map;
pub mod status;
