//! Per-thread trapping of floating-point divide-by-zero and invalid-operation
//! exceptions.
//!
//! The verified part of the crate holds the decisions: which bits of the
//! floating-point control registers change, which caller of the enabling
//! operation installs the process-wide fault handler and which unmasks its
//! thread, and how the fault report is laid out in fixed storage.
pub mod fault;
pub mod fpu;
pub mod gate;
pub mod report;
