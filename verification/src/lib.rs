//! A minimal, portable primitive for unconditional, non-unwinding process
//! termination ("abort") and a lighter-weight illegal-instruction variant
//! ("trap").
//!
//! The core of the library is pure decision logic, evaluated once per build:
//! given the capability flags a target reports, it selects exactly one trap
//! strategy and exactly one abort strategy from closed enumerations, and maps
//! the selection to the termination action the runtime layer must perform.
//! An unverified runtime layer performs that action; once it does, control
//! never returns.

pub mod action;
pub mod config;
pub mod guard;
pub mod select;

pub use action::{abort, fallback_abort, fallback_message, immediate_abort, invoke_trap, trap};
pub use action::{SignalPlan, TerminationAction, TrapInstruction};
pub use config::{Arch, Config, UnwindPolicy};
pub use guard::AbortGuard;
pub use select::{AbortStrategy, BuildError, Selection, TrapStrategy};
