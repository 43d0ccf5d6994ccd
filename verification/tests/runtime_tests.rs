use partition_core::boot::BootPhase;
use partition_core::boot::EntryContext;
use partition_core::diag::Diagnostic;
use partition_core::diag::ExceptionClass;
use partition_core::diag::ExceptionOrigin;
use partition_core::interrupt::InterruptHandler;
use partition_core::interrupt::QemuInterriptHandler;
use partition_core::stack::Stack;
use partition_core::stack::StackPage;
use partition_core::stack::DEFAULT_BOOT_STACK_PAGES;
use partition_core::stack::PAGE_SIZE;
use partition_core::vectors::build_vector_table;
use partition_core::vectors::slot_index;
use partition_core::vectors::vector_entry;
use partition_core::vectors::VectorOutcome;
use partition_core::vectors::VECTOR_SLOT_COUNT;

#[test]
fn stack_reservation_is_zeroed_and_sized() {
    let stack: Stack<2> = Stack::new();
    assert_eq!(stack.page_count(), 2);
    assert_eq!(stack.top_offset(), 2 * PAGE_SIZE);
    for page in 0..2 {
        assert_eq!(stack.byte_at(page, 0), 0);
        assert_eq!(stack.byte_at(page, PAGE_SIZE - 1), 0);
        assert_eq!(stack.byte_at(page, 1234), 0);
    }
}

#[test]
fn default_stack_matches_new() {
    let stack: Stack<1> = Default::default();
    assert_eq!(stack.page_count(), 1);
    assert_eq!(stack.byte_at(0, 17), 0);
}

#[test]
fn stack_page_is_zeroed() {
    let page = StackPage::new();
    assert_eq!(page.byte_at(0), 0);
    assert_eq!(page.byte_at(PAGE_SIZE - 1), 0);
}

#[test]
fn default_reservation_is_forty_pages() {
    assert_eq!(DEFAULT_BOOT_STACK_PAGES, 40);
}

#[test]
fn entry_sequence_runs_in_order_and_forwards_arguments() {
    let stack: Stack<4> = Stack::new();
    let mut ctx = EntryContext::receive(11, 22, 33, 44);
    assert_eq!(ctx.phase, BootPhase::Reset);

    ctx.install_stack(0x4000_0000, stack.top_offset() as u64);
    assert_eq!(ctx.phase, BootPhase::StackInstalled);
    assert_eq!(ctx.stack_top, 0x4000_0000 + 4 * PAGE_SIZE as u64);

    ctx.install_vector_base(0x4010_0000);
    assert_eq!(ctx.phase, BootPhase::VectorsInstalled);

    let args = ctx.enter_application();
    assert_eq!(args, (11, 22, 33, 44));
    assert_eq!(ctx.phase, BootPhase::Running);
    assert_eq!(ctx.stack_top, 0x4000_0000 + 4 * PAGE_SIZE as u64);
}

#[test]
fn vector_table_has_sixteen_slots_in_architectural_order() {
    let t = build_vector_table();
    assert_eq!(t.len(), VECTOR_SLOT_COUNT);
    assert_eq!(t[0].origin, ExceptionOrigin::CurrentElSp0);
    assert_eq!(t[0].class, ExceptionClass::Synchronous);
    assert_eq!(t[5].origin, ExceptionOrigin::CurrentElSpx);
    assert_eq!(t[5].class, ExceptionClass::Irq);
    assert_eq!(t[10].origin, ExceptionOrigin::LowerElAarch64);
    assert_eq!(t[10].class, ExceptionClass::Fiq);
    assert_eq!(t[15].origin, ExceptionOrigin::LowerElAarch32);
    assert_eq!(t[15].class, ExceptionClass::SError);
    for k in 0..VECTOR_SLOT_COUNT {
        assert_eq!(slot_index(t[k].origin, t[k].class), k);
    }
}

#[test]
fn non_irq_slots_fail_stop_with_their_diagnostic() {
    let hook = QemuInterriptHandler;
    let outcome = vector_entry(
        &hook,
        ExceptionOrigin::LowerElAarch64,
        ExceptionClass::SError,
        0,
    );
    match outcome {
        VectorOutcome::FailStop { diagnostic } => assert_eq!(
            diagnostic,
            Diagnostic::Exception {
                origin: ExceptionOrigin::LowerElAarch64,
                class: ExceptionClass::SError,
            }
        ),
        _ => panic!("expected the fail-stop"),
    }
}

#[test]
fn irq_slots_delegate_to_the_hook() {
    let hook = QemuInterriptHandler;
    let outcome = vector_entry(
        &hook,
        ExceptionOrigin::CurrentElSpx,
        ExceptionClass::Irq,
        42,
    );
    match outcome {
        VectorOutcome::InterruptHandled { report } => {
            assert_eq!(report, Diagnostic::Interrupt { interrupt_id: 42 });
        }
        _ => panic!("expected the hook to handle the interrupt"),
    }
}

#[test]
fn qemu_hook_reports_the_interrupt_identifier() {
    let hook = QemuInterriptHandler;
    assert_eq!(hook.handle(7), Diagnostic::Interrupt { interrupt_id: 7 });
}
