//! A cycle-accurate simulation kernel for synchronous digital circuits,
//! carrying a five-stage RV32I pipeline built on top of it.
//!
//! A circuit is a graph of combinational ports and edge-triggered
//! controls, assembled by per-component builders and evaluated on demand;
//! registers break the feedback paths, and every cycle is two phases: a
//! rising edge that samples into shadow state and a falling edge that
//! commits it.

pub mod add;
pub mod args;
pub mod clock;
pub mod consts;
pub mod decode;
pub mod dis;
pub mod encode;
pub mod ex_stage;
pub mod hazard;
pub mod laws;
pub mod loader;
pub mod logic;
pub mod mem;
pub mod mux;
pub mod ranks;
pub mod reg;
pub mod regfile;
pub mod rtl;
pub mod rv32i;
pub mod sep_reg;
pub mod wb_stage;
