//! The runtime primitives, as decisions: each maps the baked-in selection to
//! the one termination action the runtime layer must perform. No runtime
//! branching on capability remains beyond the dispatch written here, and no
//! action returns control to the caller once performed.

use vstd::prelude::*;
use crate::config::{Arch, UnwindPolicy, may_unwind};
use crate::select::{AbortStrategy, Selection, TrapStrategy};

verus! {

/// The single instruction or intrinsic call a trap strategy executes.
#[derive(Clone, Copy, Debug, PartialEq, Eq, Structural)]
pub enum TrapInstruction {
    /// The 32-bit WASM family's `unreachable` intrinsic.
    WasmUnreachable32,
    /// The 64-bit WASM family's `unreachable` intrinsic.
    WasmUnreachable64,
    /// The toolchain's internal abort intrinsic.
    IntrinsicAbort,
    /// The x86 family's undefined instruction, `ud2`.
    Ud2,
    /// The ARM families' undefined instruction, `udf`.
    Udf,
}

/// How many panic signals the fallback protocol raises.
#[derive(Clone, Copy, Debug, PartialEq, Eq, Structural)]
pub enum SignalPlan {
    /// One signal suffices: the toolchain turns it into an immediate abort.
    Single,
    /// Two signals: the second is raised from a cleanup action while the
    /// first propagates, which the host runtime must turn into an immediate
    /// termination.
    Double,
}

/// The termination action the runtime layer performs. Every variant
/// terminates the process; none returns control to the caller.
#[derive(Clone, Copy, Debug, PartialEq, Eq, Structural)]
pub enum TerminationAction {
    /// Call the standard runtime's abort entry point.
    StandardAbort,
    /// Call the C runtime's `abort` function.
    CRuntimeAbort,
    /// Execute the given trap instruction.
    Trap(TrapInstruction),
    /// Raise the given number of panic signals, each carrying the fixed
    /// static fallback message.
    RaisePanic(SignalPlan),
}

/// The instruction a trap strategy executes: one exists exactly when the
/// strategy is not `Unavailable`.
pub open spec fn spec_trap_instruction(t: TrapStrategy) -> Option<TrapInstruction> {
    match t {
        TrapStrategy::PlatformIntrinsic(a) => if a is Wasm64 {
            Some(TrapInstruction::WasmUnreachable64)
        } else {
            Some(TrapInstruction::WasmUnreachable32)
        },
        TrapStrategy::CoreIntrinsic => Some(TrapInstruction::IntrinsicAbort),
        TrapStrategy::InlineAssembly(a) => if a is Arm || a is Aarch64 {
            Some(TrapInstruction::Udf)
        } else {
            Some(TrapInstruction::Ud2)
        },
        TrapStrategy::Unavailable => None,
    }
}

/// The signal plan the fallback protocol uses: a single signal only when the
/// toolchain is known to abort on unwind; on an unwinding or unknown policy,
/// conservatively the double-signal guarantee.
pub open spec fn spec_signal_plan(p: UnwindPolicy) -> SignalPlan {
    if p is AbortsOnUnwind {
        SignalPlan::Single
    } else {
        SignalPlan::Double
    }
}

/// The action `abort` performs for a selection.
pub open spec fn spec_abort_action(sel: Selection) -> TerminationAction {
    match sel.abort {
        AbortStrategy::StandardRuntime => TerminationAction::StandardAbort,
        AbortStrategy::CRuntime => TerminationAction::CRuntimeAbort,
        AbortStrategy::ViaTrap => match spec_trap_instruction(sel.trap) {
            Some(t) => TerminationAction::Trap(t),
            // Ruled out by `Selection::wf`: a trap abort is never selected
            // without a trap facility.
            None => TerminationAction::RaisePanic(spec_signal_plan(sel.unwind)),
        },
        AbortStrategy::PanicFallback => TerminationAction::RaisePanic(spec_signal_plan(sel.unwind)),
    }
}

/// The action `trap` performs for a selection: the trap instruction when one
/// exists, otherwise exactly the abort action.
pub open spec fn spec_trap_action(sel: Selection) -> TerminationAction {
    match spec_trap_instruction(sel.trap) {
        Some(t) => TerminationAction::Trap(t),
        None => spec_abort_action(sel),
    }
}

/// On a well-formed selection with an immediate abort strategy, the abort
/// action never raises a panic signal: `abort` takes exactly the path
/// `immediate_abort` takes.
pub proof fn lemma_abort_is_immediate(sel: Selection)
    requires
        sel.wf(),
        !(sel.abort is PanicFallback),
    ensures
        !(spec_abort_action(sel) is RaisePanic),
{
}

/// The trap instruction the selection executes. Mirrors the trap strategy;
/// when the fallback trap strategy was selected, this decision is not part
/// of the build at all, which the precondition records.
pub fn invoke_trap(sel: &Selection) -> (t: TrapInstruction)
    requires
        !(sel.trap is Unavailable),
    ensures
        Some(t) == spec_trap_instruction(sel.trap),
{
    match sel.trap {
        TrapStrategy::PlatformIntrinsic(Arch::Wasm64) => TrapInstruction::WasmUnreachable64,
        TrapStrategy::PlatformIntrinsic(_) => TrapInstruction::WasmUnreachable32,
        TrapStrategy::CoreIntrinsic => TrapInstruction::IntrinsicAbort,
        TrapStrategy::InlineAssembly(Arch::Arm) | TrapStrategy::InlineAssembly(Arch::Aarch64) => {
            TrapInstruction::Udf
        },
        TrapStrategy::InlineAssembly(_) => TrapInstruction::Ud2,
        TrapStrategy::Unavailable => {
            proof {
                assert(false);
            }
            TrapInstruction::Ud2
        },
    }
}

/// The fallback protocol's decision: which signal plan terminates the
/// process under the given unwind policy. On any policy that may unwind,
/// the double-signal guarantee is used, so the process terminates even if a
/// custom handler lets the first signal keep unwinding.
pub fn fallback_abort(policy: UnwindPolicy) -> (a: TerminationAction)
    ensures
        a == TerminationAction::RaisePanic(spec_signal_plan(policy)),
        may_unwind(policy) ==> a == TerminationAction::RaisePanic(SignalPlan::Double),
{
    match policy {
        UnwindPolicy::AbortsOnUnwind => TerminationAction::RaisePanic(SignalPlan::Single),
        UnwindPolicy::UnwindsNormally | UnwindPolicy::Unknown => {
            TerminationAction::RaisePanic(SignalPlan::Double)
        },
    }
}

/// The immediate abort path: exactly the selected platform abort facility,
/// with no intervening code. It is never the panic fallback; in a build
/// whose selection resolved to the fallback, this entry point does not
/// exist, which the precondition records.
pub fn immediate_abort(sel: &Selection) -> (a: TerminationAction)
    requires
        sel.wf(),
        !(sel.abort is PanicFallback),
    ensures
        a == spec_abort_action(*sel),
        !(a is RaisePanic),
{
    match sel.abort {
        AbortStrategy::StandardRuntime => TerminationAction::StandardAbort,
        AbortStrategy::CRuntime => TerminationAction::CRuntimeAbort,
        AbortStrategy::ViaTrap => TerminationAction::Trap(invoke_trap(sel)),
        AbortStrategy::PanicFallback => {
            proof {
                assert(false);
            }
            TerminationAction::StandardAbort
        },
    }
}

/// The abort path: for every well-formed selection it yields exactly one
/// terminating action. With an immediate strategy it is `immediate_abort`'s
/// action; only with the fallback strategy does it raise panic signals.
pub fn abort(sel: &Selection) -> (a: TerminationAction)
    requires
        sel.wf(),
    ensures
        a == spec_abort_action(*sel),
        !(sel.abort is PanicFallback) ==> !(a is RaisePanic),
{
    match sel.abort {
        AbortStrategy::PanicFallback => fallback_abort(sel.unwind),
        _ => immediate_abort(sel),
    }
}

/// The trap path: the cheapest terminating action. When a trap facility was
/// selected it is that single instruction; otherwise it delegates to the
/// abort path.
pub fn trap(sel: &Selection) -> (a: TerminationAction)
    requires
        sel.wf(),
    ensures
        a == spec_trap_action(*sel),
{
    match sel.trap {
        TrapStrategy::Unavailable => abort(sel),
        _ => TerminationAction::Trap(invoke_trap(sel)),
    }
}

/// The fixed static message every fallback panic signal carries.
pub open spec fn spec_fallback_message() -> Seq<char> {
    "fatal error - aborting"@
}

/// The message the fallback protocol signals with: fixed, static and
/// allocation-free, so the fatal path pulls in no formatting machinery.
pub fn fallback_message() -> (s: &'static str)
    ensures
        s@ == spec_fallback_message(),
{
    "fatal error - aborting"
}

} // verus!
