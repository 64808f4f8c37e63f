//! # LakeRTOS
//!
//! A minimal preemptive kernel for a Cortex-M4 class microcontroller,
//! verified against an explicit model of the machine: memory-mapped
//! registers, the process-stack SRAM and the callee-saved register file
//! are held as plain values, so every kernel rule — task creation and
//! stack synthesis, the round-robin policy, the context-switch protocol
//! and the supervisor-call gateway — is stated and proved here.

pub mod cp;
pub mod dp;
pub mod driver;
pub mod kernel;
pub mod led;
pub mod leds;
pub mod util;
