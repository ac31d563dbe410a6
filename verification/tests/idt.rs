use fe_os::idt::init_idt;
use fe_os::idt::HandlerKind;
use fe_os::idt::BREAKPOINT_VECTOR;
use fe_os::idt::DOUBLE_FAULT_VECTOR;
use fe_os::idt::PAGE_FAULT_VECTOR;

#[test]
fn table_is_fully_populated() {
    let table = init_idt();
    assert_eq!(table.len(), 5);
    for kind in [
        HandlerKind::Breakpoint,
        HandlerKind::PageFault,
        HandlerKind::DoubleFault,
        HandlerKind::Timer,
        HandlerKind::Keyboard,
    ] {
        assert!(table.iter().any(|b| b.handler == kind));
    }
}

#[test]
fn vectors_are_distinct_and_correct() {
    let table = init_idt();
    for (i, a) in table.iter().enumerate() {
        for b in table.iter().skip(i + 1) {
            assert_ne!(a.vector, b.vector);
        }
    }
    for binding in table.iter() {
        let expected = match binding.handler {
            HandlerKind::Breakpoint => BREAKPOINT_VECTOR,
            HandlerKind::PageFault => PAGE_FAULT_VECTOR,
            HandlerKind::DoubleFault => DOUBLE_FAULT_VECTOR,
            HandlerKind::Timer => 32,
            HandlerKind::Keyboard => 33,
        };
        assert_eq!(binding.vector, expected);
    }
}

#[test]
fn hardware_vectors_clear_the_reserved_range() {
    for binding in init_idt().iter() {
        if matches!(binding.handler, HandlerKind::Timer | HandlerKind::Keyboard) {
            assert!(binding.vector >= 32);
        }
    }
}

#[test]
fn only_the_double_fault_handler_uses_the_alternate_stack() {
    for binding in init_idt().iter() {
        assert_eq!(
            binding.uses_alternate_stack,
            binding.handler == HandlerKind::DoubleFault
        );
    }
}
