//! The processor: platform setup, interrupt dispatch and identification.
//!
//! Nothing here touches the hardware. Each function decides what is to be
//! done and hands the steps back; the code that owns the hardware performs
//! them in the order given.

pub mod cpuid;
pub mod features;
pub mod vendor;

use vstd::prelude::*;

verus! {

/// The vector at which the lines of the interrupt controller begin once it
/// has been remapped: line `n` raises vector `IRQ_OFFSET + n`.
pub const IRQ_OFFSET: u8 = 0x20;

/// The rate of the periodic timer tick, in ticks per second.
pub const TIMER_HZ: u32 = 50;

/// What the trap-entry stub leaves on the stack before it calls the
/// dispatcher, in the order in which the fields lie in memory, lowest
/// address first: the data segment, the eight general registers as `pusha`
/// stores them, the vector and the error code that the stub pushed, and the
/// context that the processor saved when the interrupt arrived.
#[derive(Clone, Copy, Debug, PartialEq, Eq, Structural)]
pub struct InterruptArguments {
    pub ds: u32,
    pub edi: u32,
    pub esi: u32,
    pub ebp: u32,
    pub esp: u32,
    pub ebx: u32,
    pub edx: u32,
    pub ecx: u32,
    pub eax: u32,
    pub interrupt_number: u32,
    pub error_code: u32,
    pub eip: u32,
    pub cs: u32,
    pub eflags: u32,
    pub useresp: u32,
    pub ss: u32,
}

impl InterruptArguments {
    /// The sixteen words of the frame, in memory order.
    pub open spec fn spec_words(self) -> Seq<u32> {
        seq![
            self.ds,
            self.edi,
            self.esi,
            self.ebp,
            self.esp,
            self.ebx,
            self.edx,
            self.ecx,
            self.eax,
            self.interrupt_number,
            self.error_code,
            self.eip,
            self.cs,
            self.eflags,
            self.useresp,
            self.ss,
        ]
    }

    /// Reads a frame from the sixteen words that the stub stored.
    pub fn from_words(words: &[u32; 16]) -> (args: InterruptArguments)
        ensures
            args.spec_words() == words@,
    {
        let args = InterruptArguments {
            ds: words[0],
            edi: words[1],
            esi: words[2],
            ebp: words[3],
            esp: words[4],
            ebx: words[5],
            edx: words[6],
            ecx: words[7],
            eax: words[8],
            interrupt_number: words[9],
            error_code: words[10],
            eip: words[11],
            cs: words[12],
            eflags: words[13],
            useresp: words[14],
            ss: words[15],
        };
        assert(args.spec_words() =~= words@);
        args
    }

    /// The sixteen words of the frame, in memory order.
    pub fn words(&self) -> (words: [u32; 16])
        ensures
            words@ == self.spec_words(),
    {
        let words: [u32; 16] = [
            self.ds,
            self.edi,
            self.esi,
            self.ebp,
            self.esp,
            self.ebx,
            self.edx,
            self.ecx,
            self.eax,
            self.interrupt_number,
            self.error_code,
            self.eip,
            self.cs,
            self.eflags,
            self.useresp,
            self.ss,
        ];
        assert(words@ =~= self.spec_words());
        words
    }
}

/// A frame is determined by its sixteen words: two frames with the same
/// words are the same frame.
pub proof fn lemma_frame_layout(a: InterruptArguments, b: InterruptArguments)
    requires
        a.spec_words() == b.spec_words(),
    ensures
        a == b,
{
    let wa = a.spec_words();
    let wb = b.spec_words();
    assert(wa[0] == wb[0] && wa[1] == wb[1] && wa[2] == wb[2] && wa[3] == wb[3]);
    assert(wa[4] == wb[4] && wa[5] == wb[5] && wa[6] == wb[6] && wa[7] == wb[7]);
    assert(wa[8] == wb[8] && wa[9] == wb[9] && wa[10] == wb[10] && wa[11] == wb[11]);
    assert(wa[12] == wb[12] && wa[13] == wb[13] && wa[14] == wb[14] && wa[15] == wb[15]);
}

/// One thing that the dispatcher has done for it.
#[derive(Clone, Copy, Debug, PartialEq, Eq, Structural)]
pub enum DispatchStep {
    /// Hand the vector and its error code to the kernel's interrupt handler.
    Handle { vector: u32, error_code: u32 },
    /// Tell the interrupt controller that the interrupt of `line` was
    /// serviced.
    Acknowledge { line: u32 },
}

/// What is done for one interrupt when the controller's lines begin at
/// vector `irq_offset`: the vector and its error code go to the kernel's
/// handler, always; after that, a vector at or above `irq_offset` is
/// acknowledged once, for line `vector - irq_offset`. A vector below it is
/// an exception that the processor raised itself, and is not acknowledged.
pub open spec fn dispatch_plan(frame: InterruptArguments, irq_offset: u8) -> Seq<DispatchStep> {
    let handle = DispatchStep::Handle {
        vector: frame.interrupt_number,
        error_code: frame.error_code,
    };
    if frame.interrupt_number >= irq_offset {
        seq![
            handle,
            DispatchStep::Acknowledge { line: (frame.interrupt_number - irq_offset) as u32 },
        ]
    } else {
        seq![handle]
    }
}

/// Decides what is done for the interrupt described by `frame` when the
/// controller's lines begin at vector `irq_offset`. The steps are to be
/// performed in the order given.
pub fn dispatch(frame: InterruptArguments, irq_offset: u8) -> (steps: Vec<DispatchStep>)
    ensures
        steps@ == dispatch_plan(frame, irq_offset),
{
    let mut steps: Vec<DispatchStep> = Vec::new();
    steps.push(
        DispatchStep::Handle { vector: frame.interrupt_number, error_code: frame.error_code },
    );
    if frame.interrupt_number >= irq_offset as u32 {
        steps.push(DispatchStep::Acknowledge { line: frame.interrupt_number - irq_offset as u32 });
    }
    assert(steps@ =~= dispatch_plan(frame, irq_offset));
    steps
}

/// The dispatcher that the trap-entry stub calls for every vector: it
/// decides what is done for the interrupt, with the controller's lines
/// beginning at `IRQ_OFFSET`.
pub fn isr_handler(args: InterruptArguments) -> (steps: Vec<DispatchStep>)
    ensures
        steps@ == dispatch_plan(args, IRQ_OFFSET),
{
    dispatch(args, IRQ_OFFSET)
}

/// Every interrupt reaches the kernel's handler first, with its own vector
/// and error code; whatever follows is a single acknowledgement, and it
/// follows exactly for the vectors of the interrupt controller.
pub proof fn lemma_dispatch_shape(frame: InterruptArguments, irq_offset: u8)
    ensures
        dispatch_plan(frame, irq_offset).len() >= 1,
        dispatch_plan(frame, irq_offset)[0] == (DispatchStep::Handle {
            vector: frame.interrupt_number,
            error_code: frame.error_code,
        }),
        frame.interrupt_number < irq_offset ==> dispatch_plan(frame, irq_offset).len() == 1,
        frame.interrupt_number >= irq_offset ==> dispatch_plan(frame, irq_offset).len() == 2
            && dispatch_plan(frame, irq_offset)[1] == (DispatchStep::Acknowledge {
            line: (frame.interrupt_number - irq_offset) as u32,
        }),
{
}

/// One operation on the platform's hardware, performed for this module by
/// the code that owns the hardware.
#[derive(Clone, Copy, Debug, PartialEq, Eq, Structural)]
pub enum PlatformStep {
    /// Build and load the segment descriptor table.
    InitSegmentTable,
    /// Remap the interrupt controller so that its lines begin at this
    /// vector.
    RemapInterrupts(u8),
    /// Build and load the interrupt vector table.
    InitVectorTable,
    /// Switch on the processor features that the kernel relies on.
    EnableFeatures,
    /// Program the periodic timer to this many ticks per second.
    SetTimerInterval(u32),
    /// Run the processor identification sequence of `cpuid`.
    IdentifyProcessor,
    /// Unmask this line of the interrupt controller.
    EnableLine(u8),
    /// Mask this line of the interrupt controller.
    DisableLine(u8),
    /// Let the processor accept interrupts.
    EnableInterrupts,
    /// Raise the breakpoint trap.
    Breakpoint,
}

/// The steps of platform setup: the descriptor tables and the interrupt
/// controller first, then the processor's features, the timer and the
/// identification of the processor.
pub open spec fn setup_plan() -> Seq<PlatformStep> {
    seq![
        PlatformStep::InitSegmentTable,
        PlatformStep::RemapInterrupts(IRQ_OFFSET),
        PlatformStep::InitVectorTable,
        PlatformStep::EnableFeatures,
        PlatformStep::SetTimerInterval(TIMER_HZ),
        PlatformStep::IdentifyProcessor,
    ]
}

/// The steps of platform setup, to be performed once, in the order given,
/// before interrupts are enabled.
pub fn setup() -> (steps: Vec<PlatformStep>)
    ensures
        steps@ == setup_plan(),
{
    let mut steps: Vec<PlatformStep> = Vec::new();
    steps.push(PlatformStep::InitSegmentTable);
    steps.push(PlatformStep::RemapInterrupts(IRQ_OFFSET));
    steps.push(PlatformStep::InitVectorTable);
    steps.push(PlatformStep::EnableFeatures);
    steps.push(PlatformStep::SetTimerInterval(TIMER_HZ));
    steps.push(PlatformStep::IdentifyProcessor);
    assert(steps@ =~= setup_plan());
    steps
}

/// The steps that let interrupts in: the timer and the keyboard lines are
/// unmasked, then the processor accepts interrupts.
pub open spec fn enable_interrupts_plan() -> Seq<PlatformStep> {
    seq![PlatformStep::EnableLine(0), PlatformStep::EnableLine(1), PlatformStep::EnableInterrupts]
}

/// The steps that let interrupts in, to be performed in the order given.
pub fn enable_interrupts() -> (steps: Vec<PlatformStep>)
    ensures
        steps@ == enable_interrupts_plan(),
{
    let mut steps: Vec<PlatformStep> = Vec::new();
    steps.push(PlatformStep::EnableLine(0));
    steps.push(PlatformStep::EnableLine(1));
    steps.push(PlatformStep::EnableInterrupts);
    assert(steps@ =~= enable_interrupts_plan());
    steps
}

/// The steps of a requested breakpoint: the trap is raised, and the timer
/// line is masked once its handler has returned.
pub open spec fn request_int3_plan() -> Seq<PlatformStep> {
    seq![PlatformStep::Breakpoint, PlatformStep::DisableLine(0)]
}

/// The steps of a requested breakpoint, to be performed in the order given.
pub fn request_int3() -> (steps: Vec<PlatformStep>)
    ensures
        steps@ == request_int3_plan(),
{
    let mut steps: Vec<PlatformStep> = Vec::new();
    steps.push(PlatformStep::Breakpoint);
    steps.push(PlatformStep::DisableLine(0));
    assert(steps@ =~= request_int3_plan());
    steps
}

/// Platform setup never lets interrupts in, and it remaps the controller to
/// the very offset by which `isr_handler` tells its vectors apart; letting
/// interrupts in unmasks lines before the processor accepts any.
pub proof fn lemma_setup_before_interrupts()
    ensures
        forall|i: int|
            0 <= i < setup_plan().len() ==> setup_plan()[i] != PlatformStep::EnableInterrupts,
        setup_plan().contains(PlatformStep::RemapInterrupts(IRQ_OFFSET)),
        setup_plan().contains(PlatformStep::IdentifyProcessor),
        enable_interrupts_plan().last() == PlatformStep::EnableInterrupts,
        forall|i: int|
            0 <= i < enable_interrupts_plan().len() - 1 ==> enable_interrupts_plan()[i]
                != PlatformStep::EnableInterrupts,
{
    assert(setup_plan()[1] == PlatformStep::RemapInterrupts(IRQ_OFFSET));
    assert(setup_plan()[5] == PlatformStep::IdentifyProcessor);
}

} // verus!
