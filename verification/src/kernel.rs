//! # Kernel
//!
//! The process scheduler and context-switch subsystem: context-switch
//! state, process-stack memory, the callee-saved register file, the
//! scheduler with its round-robin policy, the exception handlers and the
//! supervisor-call gateway.

pub mod cpu;
pub mod cs;
pub mod exceptions;
pub mod scheduler;
pub mod sram;
pub mod svc;
