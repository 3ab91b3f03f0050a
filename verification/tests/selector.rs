use libabort::{
    Arch, AbortStrategy, BuildError, Config, Selection, TrapStrategy, UnwindPolicy,
};
use libabort::select::{select_abort_strategy, select_trap_strategy};

fn all_archs() -> Vec<Arch> {
    vec![
        Arch::X86,
        Arch::X86_64,
        Arch::Arm,
        Arch::Aarch64,
        Arch::Wasm32,
        Arch::Wasm64,
        Arch::Other,
    ]
}

fn all_unwinds() -> Vec<UnwindPolicy> {
    vec![
        UnwindPolicy::AbortsOnUnwind,
        UnwindPolicy::UnwindsNormally,
        UnwindPolicy::Unknown,
    ]
}

fn is_asm_arch(a: Arch) -> bool {
    matches!(a, Arch::X86 | Arch::X86_64 | Arch::Arm | Arch::Aarch64)
}

fn is_wasm_arch(a: Arch) -> bool {
    matches!(a, Arch::Wasm32 | Arch::Wasm64)
}

/// Every combination of architecture and capability flags resolves to
/// exactly one trap strategy and one abort strategy, and never to an
/// unavailable one.
#[test]
fn selector_total_over_all_flag_combinations() {
    let bools = [false, true];
    let mut combinations = 0u32;
    for &arch in &all_archs() {
        for &wasm_intrinsic in &bools {
            for &core_intrinsic in &bools {
                for &std_runtime in &bools {
                    for &c_runtime in &bools {
                        for &abort_via_trap in &bools {
                            for &always_immediate_abort in &bools {
                                for &unwind in &all_unwinds() {
                                    let cfg = Config {
                                        arch,
                                        wasm_intrinsic,
                                        core_intrinsic,
                                        std_runtime,
                                        c_runtime,
                                        abort_via_trap,
                                        always_immediate_abort,
                                        unwind,
                                    };
                                    check_one(&cfg);
                                    combinations += 1;
                                }
                            }
                        }
                    }
                }
            }
        }
    }
    assert_eq!(combinations, 7 * 2 * 2 * 2 * 2 * 2 * 2 * 3);
}

fn check_one(cfg: &Config) {
    let trap = select_trap_strategy(cfg);
    let abort = select_abort_strategy(cfg);

    // The chosen trap strategy is available under the flags that chose it.
    match trap {
        TrapStrategy::PlatformIntrinsic(a) => {
            assert_eq!(a, cfg.arch);
            assert!(is_wasm_arch(a) && cfg.wasm_intrinsic);
        }
        TrapStrategy::CoreIntrinsic => assert!(cfg.core_intrinsic),
        TrapStrategy::InlineAssembly(a) => {
            assert_eq!(a, cfg.arch);
            assert!(is_asm_arch(a));
        }
        TrapStrategy::Unavailable => {
            assert!(!(is_wasm_arch(cfg.arch) && cfg.wasm_intrinsic));
            assert!(!cfg.core_intrinsic);
            assert!(!is_asm_arch(cfg.arch));
        }
    }

    // The chosen abort strategy is available under the flags that chose it.
    match abort {
        AbortStrategy::StandardRuntime => assert!(cfg.std_runtime),
        AbortStrategy::CRuntime => assert!(cfg.c_runtime && !cfg.std_runtime),
        AbortStrategy::ViaTrap => {
            assert!(cfg.abort_via_trap);
            assert_ne!(trap, TrapStrategy::Unavailable);
            assert!(!cfg.std_runtime && !cfg.c_runtime);
        }
        AbortStrategy::PanicFallback => {
            assert!(!cfg.std_runtime && !cfg.c_runtime);
            assert!(!(cfg.abort_via_trap && trap != TrapStrategy::Unavailable));
        }
    }

    // Resolution fails exactly when the fallback is both forbidden and the
    // only available choice.
    match Selection::resolve(cfg) {
        Ok(sel) => {
            assert_eq!(sel.trap, trap);
            assert_eq!(sel.abort, abort);
            assert_eq!(sel.unwind, cfg.unwind);
            assert!(!(cfg.always_immediate_abort && abort == AbortStrategy::PanicFallback));
        }
        Err(e) => {
            assert_eq!(e, BuildError::FallbackForbidden);
            assert!(cfg.always_immediate_abort);
            assert_eq!(abort, AbortStrategy::PanicFallback);
        }
    }
}

fn base_config(arch: Arch) -> Config {
    Config {
        arch,
        wasm_intrinsic: false,
        core_intrinsic: false,
        std_runtime: false,
        c_runtime: false,
        abort_via_trap: false,
        always_immediate_abort: false,
        unwind: UnwindPolicy::Unknown,
    }
}

#[test]
fn standard_runtime_beats_c_runtime() {
    let mut cfg = base_config(Arch::X86_64);
    cfg.std_runtime = true;
    cfg.c_runtime = true;
    assert_eq!(select_abort_strategy(&cfg), AbortStrategy::StandardRuntime);
}

#[test]
fn c_runtime_when_standard_runtime_is_absent() {
    let mut cfg = base_config(Arch::Aarch64);
    cfg.c_runtime = true;
    assert_eq!(select_abort_strategy(&cfg), AbortStrategy::CRuntime);
}

#[test]
fn via_trap_needs_opt_in_and_a_trap_facility() {
    let mut cfg = base_config(Arch::X86);
    cfg.abort_via_trap = true;
    assert_eq!(select_abort_strategy(&cfg), AbortStrategy::ViaTrap);

    // Opted in, but no trap facility: fall back.
    let mut no_trap = base_config(Arch::Other);
    no_trap.abort_via_trap = true;
    assert_eq!(select_trap_strategy(&no_trap), TrapStrategy::Unavailable);
    assert_eq!(select_abort_strategy(&no_trap), AbortStrategy::PanicFallback);

    // Trap facility present, but no opt-in: fall back.
    let without_opt_in = base_config(Arch::X86);
    assert_eq!(
        select_abort_strategy(&without_opt_in),
        AbortStrategy::PanicFallback
    );
}

#[test]
fn platform_intrinsic_beats_core_intrinsic() {
    let mut cfg = base_config(Arch::Wasm32);
    cfg.wasm_intrinsic = true;
    cfg.core_intrinsic = true;
    assert_eq!(
        select_trap_strategy(&cfg),
        TrapStrategy::PlatformIntrinsic(Arch::Wasm32)
    );
}

#[test]
fn core_intrinsic_beats_inline_assembly() {
    let mut cfg = base_config(Arch::Arm);
    cfg.core_intrinsic = true;
    assert_eq!(select_trap_strategy(&cfg), TrapStrategy::CoreIntrinsic);
}

#[test]
fn inline_assembly_only_on_supported_architectures() {
    assert_eq!(
        select_trap_strategy(&base_config(Arch::X86)),
        TrapStrategy::InlineAssembly(Arch::X86)
    );
    assert_eq!(
        select_trap_strategy(&base_config(Arch::X86_64)),
        TrapStrategy::InlineAssembly(Arch::X86_64)
    );
    assert_eq!(
        select_trap_strategy(&base_config(Arch::Arm)),
        TrapStrategy::InlineAssembly(Arch::Arm)
    );
    assert_eq!(
        select_trap_strategy(&base_config(Arch::Aarch64)),
        TrapStrategy::InlineAssembly(Arch::Aarch64)
    );
    assert_eq!(
        select_trap_strategy(&base_config(Arch::Other)),
        TrapStrategy::Unavailable
    );
}

#[test]
fn wasm_without_its_intrinsic_has_no_trap() {
    // The wasm families have no undefined-instruction encoding; without
    // their own intrinsic (and without the toolchain's), nothing resolves.
    assert_eq!(
        select_trap_strategy(&base_config(Arch::Wasm32)),
        TrapStrategy::Unavailable
    );
    assert_eq!(
        select_trap_strategy(&base_config(Arch::Wasm64)),
        TrapStrategy::Unavailable
    );
}

/// With the fallback forbidden and no immediate strategy resolvable, the
/// build must fail instead of silently selecting the panic fallback.
#[test]
fn forbidden_fallback_fails_resolution() {
    let mut cfg = base_config(Arch::Other);
    cfg.always_immediate_abort = true;
    assert_eq!(
        Selection::resolve(&cfg),
        Err(BuildError::FallbackForbidden)
    );
}

#[test]
fn forbidden_fallback_is_fine_when_an_immediate_strategy_exists() {
    let mut cfg = base_config(Arch::Other);
    cfg.always_immediate_abort = true;
    cfg.c_runtime = true;
    let sel = Selection::resolve(&cfg).unwrap();
    assert_eq!(sel.abort, AbortStrategy::CRuntime);
    assert_eq!(sel.trap, TrapStrategy::Unavailable);
}
