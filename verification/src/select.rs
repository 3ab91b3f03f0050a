//! The implementation selector: pure decision logic that maps the capability
//! flags of one build to exactly one trap strategy and exactly one abort
//! strategy. Selection is total and never picks an unavailable strategy.

use vstd::prelude::*;
use crate::config::{Arch, Config, UnwindPolicy, supported_asm_arch, wasm_family};

verus! {

/// How `trap` is carried out, one closed choice per build.
#[derive(Clone, Copy, Debug, PartialEq, Eq, Structural)]
pub enum TrapStrategy {
    /// The target family's own `unreachable` intrinsic (WASM-like targets).
    PlatformIntrinsic(Arch),
    /// The toolchain's internal, unstable abort intrinsic.
    CoreIntrinsic,
    /// A single undefined instruction emitted as inline assembly.
    InlineAssembly(Arch),
    /// No trap facility exists for this target.
    Unavailable,
}

/// How `abort` is carried out, one closed choice per build.
#[derive(Clone, Copy, Debug, PartialEq, Eq, Structural)]
pub enum AbortStrategy {
    /// The standard runtime's own abort entry point.
    StandardRuntime,
    /// The C runtime's `abort` function.
    CRuntime,
    /// Execute the selected trap instruction (opt-in).
    ViaTrap,
    /// Raise one or two panic signals carrying a fixed static message.
    PanicFallback,
}

/// The trap strategy chosen for a configuration. Priority order, first
/// match wins: platform intrinsic, toolchain intrinsic, inline assembly,
/// unavailable.
pub open spec fn spec_trap_strategy(cfg: Config) -> TrapStrategy {
    if wasm_family(cfg.arch) && cfg.wasm_intrinsic {
        TrapStrategy::PlatformIntrinsic(cfg.arch)
    } else if cfg.core_intrinsic {
        TrapStrategy::CoreIntrinsic
    } else if supported_asm_arch(cfg.arch) {
        TrapStrategy::InlineAssembly(cfg.arch)
    } else {
        TrapStrategy::Unavailable
    }
}

/// The abort strategy chosen for a configuration. Priority order, first
/// match wins: standard runtime, C runtime, trap (only if opted in and a
/// trap facility exists), panic fallback.
pub open spec fn spec_abort_strategy(cfg: Config) -> AbortStrategy {
    if cfg.std_runtime {
        AbortStrategy::StandardRuntime
    } else if cfg.c_runtime {
        AbortStrategy::CRuntime
    } else if cfg.abort_via_trap && !(spec_trap_strategy(cfg) is Unavailable) {
        AbortStrategy::ViaTrap
    } else {
        AbortStrategy::PanicFallback
    }
}

/// The selected trap strategy is available under the flags that chose it,
/// and is the one the priority order demands.
pub open spec fn trap_strategy_valid(cfg: Config, t: TrapStrategy) -> bool {
    match t {
        TrapStrategy::PlatformIntrinsic(a) => {
            &&& a == cfg.arch
            &&& wasm_family(a)
            &&& cfg.wasm_intrinsic
        },
        TrapStrategy::CoreIntrinsic => cfg.core_intrinsic,
        TrapStrategy::InlineAssembly(a) => a == cfg.arch && supported_asm_arch(a),
        TrapStrategy::Unavailable => {
            &&& !(wasm_family(cfg.arch) && cfg.wasm_intrinsic)
            &&& !cfg.core_intrinsic
            &&& !supported_asm_arch(cfg.arch)
        },
    }
}

/// The selected abort strategy is available under the flags that chose it:
/// the standard runtime only when enabled; the C runtime only when enabled
/// and the standard runtime was not selected; a trap only on explicit opt-in
/// with a trap facility present; the panic fallback only as last resort.
pub open spec fn abort_strategy_valid(cfg: Config, a: AbortStrategy) -> bool {
    match a {
        AbortStrategy::StandardRuntime => cfg.std_runtime,
        AbortStrategy::CRuntime => cfg.c_runtime && !cfg.std_runtime,
        AbortStrategy::ViaTrap => {
            &&& cfg.abort_via_trap
            &&& !(spec_trap_strategy(cfg) is Unavailable)
            &&& !cfg.std_runtime
            &&& !cfg.c_runtime
        },
        AbortStrategy::PanicFallback => {
            &&& !cfg.std_runtime
            &&& !cfg.c_runtime
            &&& !(cfg.abort_via_trap && !(spec_trap_strategy(cfg) is Unavailable))
        },
    }
}

/// Selector totality: for every combination of architecture and capability
/// flags, the selector resolves to exactly one trap strategy and exactly one
/// abort strategy (they are total functions of the flags), and neither is an
/// unavailable choice.
pub proof fn lemma_selector_total(cfg: Config)
    ensures
        trap_strategy_valid(cfg, spec_trap_strategy(cfg)),
        abort_strategy_valid(cfg, spec_abort_strategy(cfg)),
        Selection::spec_of(cfg).wf(),
{
}

/// Executable selector for the trap strategy.
pub fn select_trap_strategy(cfg: &Config) -> (t: TrapStrategy)
    ensures
        t == spec_trap_strategy(*cfg),
{
    if crate::config::is_wasm_family(cfg.arch) && cfg.wasm_intrinsic {
        TrapStrategy::PlatformIntrinsic(cfg.arch)
    } else if cfg.core_intrinsic {
        TrapStrategy::CoreIntrinsic
    } else if crate::config::is_supported_asm_arch(cfg.arch) {
        TrapStrategy::InlineAssembly(cfg.arch)
    } else {
        TrapStrategy::Unavailable
    }
}

/// Executable selector for the abort strategy.
pub fn select_abort_strategy(cfg: &Config) -> (a: AbortStrategy)
    ensures
        a == spec_abort_strategy(*cfg),
{
    if cfg.std_runtime {
        AbortStrategy::StandardRuntime
    } else if cfg.c_runtime {
        AbortStrategy::CRuntime
    } else if cfg.abort_via_trap && select_trap_strategy(cfg) != TrapStrategy::Unavailable {
        AbortStrategy::ViaTrap
    } else {
        AbortStrategy::PanicFallback
    }
}

/// A build-time configuration contradiction: the flags demand an immediate
/// abort facility, but none resolves for the target. It must fail the build,
/// never the running program.
#[derive(Clone, Copy, Debug, PartialEq, Eq, Structural)]
pub enum BuildError {
    /// `always_immediate_abort` is set, yet only the panic fallback resolves.
    FallbackForbidden,
}

/// The immutable outcome of selection for one build: the two strategies and
/// the unwind policy the fallback protocol will consult. Computed once,
/// before any other code runs, and never changed.
#[derive(Clone, Copy, Debug, PartialEq, Eq, Structural)]
pub struct Selection {
    pub trap: TrapStrategy,
    pub abort: AbortStrategy,
    pub unwind: UnwindPolicy,
}

impl Selection {
    /// Well-formedness: each chosen strategy respects its availability
    /// invariant, without reference to the flags that produced it.
    pub open spec fn wf(self) -> bool {
        &&& (self.trap matches TrapStrategy::PlatformIntrinsic(a) ==> wasm_family(a))
        &&& (self.trap matches TrapStrategy::InlineAssembly(a) ==> supported_asm_arch(a))
        &&& (self.abort is ViaTrap ==> !(self.trap is Unavailable))
    }

    /// The selection a configuration resolves to.
    pub open spec fn spec_of(cfg: Config) -> Selection {
        Selection {
            trap: spec_trap_strategy(cfg),
            abort: spec_abort_strategy(cfg),
            unwind: cfg.unwind,
        }
    }

    /// Resolve a configuration to its selection, or report the one
    /// build-time contradiction: the flags forbid the panic fallback, yet
    /// only the panic fallback is available.
    pub fn resolve(cfg: &Config) -> (r: Result<Selection, BuildError>)
        ensures
            r is Err <==> cfg.always_immediate_abort
                && spec_abort_strategy(*cfg) is PanicFallback,
            r matches Err(e) ==> e == BuildError::FallbackForbidden,
            r matches Ok(sel) ==> sel == Selection::spec_of(*cfg) && sel.wf(),
    {
        let trap = select_trap_strategy(cfg);
        let abort = select_abort_strategy(cfg);
        if cfg.always_immediate_abort && abort == AbortStrategy::PanicFallback {
            Err(BuildError::FallbackForbidden)
        } else {
            Ok(Selection { trap, abort, unwind: cfg.unwind })
        }
    }
}

} // verus!
