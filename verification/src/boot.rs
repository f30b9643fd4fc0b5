//! The order of the boot sequence.

use vstd::prelude::*;

verus! {

/// A stage of the boot sequence. What is done in each is the business of
/// the code that owns the hardware; the order is decided here.
#[derive(Clone, Copy, Debug, PartialEq, Eq, Structural)]
pub enum BootStage {
    /// Set up the processor: the steps of `cpu::setup`.
    PlatformSetup,
    /// Set up the memory management unit.
    MemorySetup,
    /// Let interrupts in: the steps of `cpu::enable_interrupts`.
    EnableInterrupts,
    /// Run the kernel's main routine.
    Main,
    /// Idle until the next interrupt.
    Idle,
}

/// The stage that follows `completed`; `None` stands for a machine on which
/// nothing has run yet. The processor is set up first, then memory; only
/// then are interrupts let in and the main routine run. After that the
/// kernel idles, again and again.
pub open spec fn stage_after(completed: Option<BootStage>) -> BootStage {
    match completed {
        None => BootStage::PlatformSetup,
        Some(BootStage::PlatformSetup) => BootStage::MemorySetup,
        Some(BootStage::MemorySetup) => BootStage::EnableInterrupts,
        Some(BootStage::EnableInterrupts) => BootStage::Main,
        Some(BootStage::Main) => BootStage::Idle,
        Some(BootStage::Idle) => BootStage::Idle,
    }
}

/// The stage that the boot sequence runs as its `n`-th, counted from 0.
pub open spec fn stage_at(n: nat) -> BootStage
    decreases n,
{
    if n == 0 {
        stage_after(None)
    } else {
        stage_after(Some(stage_at((n - 1) as nat)))
    }
}

/// The kernel's entry point, as a sequence: given the stage that has just
/// been completed, it names the one to run next. The caller starts with
/// `None` and never stops.
pub fn entry(completed: Option<BootStage>) -> (next: BootStage)
    ensures
        next == stage_after(completed),
{
    match completed {
        None => BootStage::PlatformSetup,
        Some(BootStage::PlatformSetup) => BootStage::MemorySetup,
        Some(BootStage::MemorySetup) => BootStage::EnableInterrupts,
        Some(BootStage::EnableInterrupts) => BootStage::Main,
        Some(BootStage::Main) => BootStage::Idle,
        Some(BootStage::Idle) => BootStage::Idle,
    }
}

/// The boot sequence runs each of its first four stages once, in their
/// order, and idles ever after: interrupts are let in exactly once, as the
/// third stage, after the processor and memory have been set up.
pub proof fn lemma_boot_order(n: nat)
    ensures
        stage_at(0) == BootStage::PlatformSetup,
        stage_at(1) == BootStage::MemorySetup,
        stage_at(2) == BootStage::EnableInterrupts,
        stage_at(3) == BootStage::Main,
        n >= 4 ==> stage_at(n) == BootStage::Idle,
    decreases n,
{
    reveal_with_fuel(stage_at, 5);
    if n > 4 {
        lemma_boot_order((n - 1) as nat);
    }
}

} // verus!
