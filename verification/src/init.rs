use vstd::prelude::*;

verus! {

/// Process-wide one-time initialization of the decode engine, modelled as an
/// explicit value. The embedding program keeps one `EngineInit` for the whole
/// process (behind whatever once-guard it prefers) and performs the engine's
/// own initialization call only when [`check_or_init_gst`] says so.
#[derive(Clone, Copy, Debug, PartialEq, Eq, Structural)]
pub struct EngineInit {
    /// Whether the decode engine counts as initialized for this process.
    pub initialized: bool,
}

impl EngineInit {
    /// A fresh process starts with the engine not yet initialized.
    pub fn new() -> (r: EngineInit)
        ensures
            !r.initialized,
    {
        EngineInit { initialized: false }
    }
}

/// Marks the engine as already initialized without asking for any
/// initialization work: an embedding application that manages the engine
/// externally calls this once, and no initialization is requested afterwards.
pub fn assume_gst_init(engine: &mut EngineInit)
    ensures
        final(engine).initialized,
{
    engine.initialized = true;
}

/// The guarded single-execution initializer: reports whether the caller must
/// perform the engine's initialization call now. It answers yes at most once
/// per `EngineInit` value; afterwards the engine counts as initialized.
pub fn check_or_init_gst(engine: &mut EngineInit) -> (do_init: bool)
    ensures
        final(engine).initialized,
        do_init == !old(engine).initialized,
{
    let do_init = !engine.initialized;
    engine.initialized = true;
    do_init
}

} // verus!
