//! The build-time configuration surface: the flags that the capability oracle
//! reports for a target, from which one trap strategy and one abort strategy
//! are selected before any code runs.

use vstd::prelude::*;

verus! {

/// Target CPU architecture, as reported by the capability oracle.
#[derive(Clone, Copy, Debug, PartialEq, Eq, Structural)]
pub enum Arch {
    X86,
    X86_64,
    Arm,
    Aarch64,
    Wasm32,
    Wasm64,
    /// Any architecture outside the supported set.
    Other,
}

/// Whether the toolchain turns a raised panic into an immediate abort,
/// lets it unwind the stack, or did not say.
#[derive(Clone, Copy, Debug, PartialEq, Eq, Structural)]
pub enum UnwindPolicy {
    AbortsOnUnwind,
    UnwindsNormally,
    Unknown,
}

/// The full set of capability flags for one build, reported once by the
/// capability oracle and immutable afterwards.
#[derive(Clone, Copy, Debug, PartialEq, Eq, Structural)]
pub struct Config {
    /// Target CPU architecture.
    pub arch: Arch,
    /// The toolchain exposes the target family's own `unreachable` trap
    /// intrinsic (only meaningful for the WASM families).
    pub wasm_intrinsic: bool,
    /// The toolchain exposes its internal, unstable abort intrinsic.
    pub core_intrinsic: bool,
    /// Standard-runtime access is enabled.
    pub std_runtime: bool,
    /// C-runtime linkage is enabled.
    pub c_runtime: bool,
    /// The caller opted in to aborting by executing a trap instruction.
    pub abort_via_trap: bool,
    /// The caller forbids the panic fallback: resolution must fail instead.
    pub always_immediate_abort: bool,
    /// How the toolchain treats a raised panic.
    pub unwind: UnwindPolicy,
}

/// Architectures with a known undefined-instruction encoding, eligible for
/// the inline-assembly trap strategy.
pub open spec fn supported_asm_arch(a: Arch) -> bool {
    a is X86 || a is X86_64 || a is Arm || a is Aarch64
}

/// Architecture families that may expose a platform `unreachable` intrinsic.
pub open spec fn wasm_family(a: Arch) -> bool {
    a is Wasm32 || a is Wasm64
}

/// Conservative reading of the unwind policy: an unknown policy is treated
/// as if panics unwind normally.
pub open spec fn may_unwind(p: UnwindPolicy) -> bool {
    p is UnwindsNormally || p is Unknown
}

/// Executable mirror of [`supported_asm_arch`].
pub fn is_supported_asm_arch(a: Arch) -> (b: bool)
    ensures
        b == supported_asm_arch(a),
{
    match a {
        Arch::X86 | Arch::X86_64 | Arch::Arm | Arch::Aarch64 => true,
        _ => false,
    }
}

/// Executable mirror of [`wasm_family`].
pub fn is_wasm_family(a: Arch) -> (b: bool)
    ensures
        b == wasm_family(a),
{
    match a {
        Arch::Wasm32 | Arch::Wasm64 => true,
        _ => false,
    }
}

} // verus!
