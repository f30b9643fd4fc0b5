use kernel::boot::{entry, BootStage};
use kernel::cpu::{
    dispatch, enable_interrupts, isr_handler, request_int3, setup, DispatchStep,
    InterruptArguments, PlatformStep, IRQ_OFFSET, TIMER_HZ,
};

fn frame(vector: u32, error_code: u32) -> InterruptArguments {
    InterruptArguments {
        ds: 0x10,
        edi: 1,
        esi: 2,
        ebp: 3,
        esp: 4,
        ebx: 5,
        edx: 6,
        ecx: 7,
        eax: 8,
        interrupt_number: vector,
        error_code,
        eip: 0x0010_0000,
        cs: 0x08,
        eflags: 0x202,
        useresp: 0,
        ss: 0x10,
    }
}

#[test]
fn irq_offset_is_0x20() {
    assert_eq!(IRQ_OFFSET, 0x20);
}

#[test]
fn hardware_interrupt_is_handled_then_acknowledged_once() {
    let vector = IRQ_OFFSET as u32 + 3;
    assert_eq!(
        isr_handler(frame(vector, 0xdead)),
        vec![
            DispatchStep::Handle { vector, error_code: 0xdead },
            DispatchStep::Acknowledge { line: 3 },
        ]
    );
}

#[test]
fn exception_is_handled_and_not_acknowledged() {
    assert_eq!(
        isr_handler(frame(13, 0x18)),
        vec![DispatchStep::Handle { vector: 13, error_code: 0x18 }]
    );
}

#[test]
fn acknowledgement_begins_at_the_offset() {
    assert_eq!(isr_handler(frame(0x1f, 0)), vec![DispatchStep::Handle { vector: 0x1f, error_code: 0 }]);
    assert_eq!(
        isr_handler(frame(0x20, 0)),
        vec![
            DispatchStep::Handle { vector: 0x20, error_code: 0 },
            DispatchStep::Acknowledge { line: 0 },
        ]
    );
    assert_eq!(isr_handler(frame(0, 7)), vec![DispatchStep::Handle { vector: 0, error_code: 7 }]);
}

#[test]
fn every_vector_reaches_the_handler_first() {
    for vector in (0u32..=0x1ff).chain([0xffff, u32::MAX]) {
        let steps = isr_handler(frame(vector, vector ^ 0x5a5a));
        assert_eq!(steps[0], DispatchStep::Handle { vector, error_code: vector ^ 0x5a5a });
        if vector >= 0x20 {
            assert_eq!(steps.len(), 2);
            assert_eq!(steps[1], DispatchStep::Acknowledge { line: vector - 0x20 });
        } else {
            assert_eq!(steps.len(), 1);
        }
    }
}

#[test]
fn dispatch_follows_the_offset_it_is_given() {
    assert_eq!(
        dispatch(frame(13, 1), 8),
        vec![
            DispatchStep::Handle { vector: 13, error_code: 1 },
            DispatchStep::Acknowledge { line: 5 },
        ]
    );
    assert_eq!(dispatch(frame(13, 1), 14), vec![DispatchStep::Handle { vector: 13, error_code: 1 }]);
    assert_eq!(
        dispatch(frame(0, 0), 0),
        vec![DispatchStep::Handle { vector: 0, error_code: 0 }, DispatchStep::Acknowledge { line: 0 }]
    );
    assert_eq!(
        dispatch(frame(u32::MAX, 0), 0xff),
        vec![
            DispatchStep::Handle { vector: u32::MAX, error_code: 0 },
            DispatchStep::Acknowledge { line: u32::MAX - 0xff },
        ]
    );
}

#[test]
fn frame_words_follow_the_stack_layout() {
    let words: [u32; 16] = [100, 101, 102, 103, 104, 105, 106, 107, 108, 109, 110, 111, 112, 113, 114, 115];
    let args = InterruptArguments::from_words(&words);
    assert_eq!(args.ds, 100);
    assert_eq!(args.edi, 101);
    assert_eq!(args.esi, 102);
    assert_eq!(args.ebp, 103);
    assert_eq!(args.esp, 104);
    assert_eq!(args.ebx, 105);
    assert_eq!(args.edx, 106);
    assert_eq!(args.ecx, 107);
    assert_eq!(args.eax, 108);
    assert_eq!(args.interrupt_number, 109);
    assert_eq!(args.error_code, 110);
    assert_eq!(args.eip, 111);
    assert_eq!(args.cs, 112);
    assert_eq!(args.eflags, 113);
    assert_eq!(args.useresp, 114);
    assert_eq!(args.ss, 115);
    assert_eq!(args.words(), words);
    assert_eq!(InterruptArguments::from_words(&frame(33, 2).words()), frame(33, 2));
}

#[test]
fn platform_setup_steps() {
    assert_eq!(TIMER_HZ, 50);
    assert_eq!(
        setup(),
        vec![
            PlatformStep::InitSegmentTable,
            PlatformStep::RemapInterrupts(0x20),
            PlatformStep::InitVectorTable,
            PlatformStep::EnableFeatures,
            PlatformStep::SetTimerInterval(50),
            PlatformStep::IdentifyProcessor,
        ]
    );
}

#[test]
fn enabling_interrupts_unmasks_two_lines_first() {
    assert_eq!(
        enable_interrupts(),
        vec![PlatformStep::EnableLine(0), PlatformStep::EnableLine(1), PlatformStep::EnableInterrupts]
    );
}

#[test]
fn requested_breakpoint_masks_the_timer_afterwards() {
    assert_eq!(request_int3(), vec![PlatformStep::Breakpoint, PlatformStep::DisableLine(0)]);
}

#[test]
fn boot_runs_its_stages_in_order_and_then_idles() {
    let mut stages = Vec::new();
    let mut completed = None;
    for _ in 0..8 {
        let next = entry(completed);
        stages.push(next);
        completed = Some(next);
    }
    assert_eq!(
        stages,
        vec![
            BootStage::PlatformSetup,
            BootStage::MemorySetup,
            BootStage::EnableInterrupts,
            BootStage::Main,
            BootStage::Idle,
            BootStage::Idle,
            BootStage::Idle,
            BootStage::Idle,
        ]
    );
}
