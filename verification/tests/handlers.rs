use fe_os::decoder::DecoderSession;
use fe_os::handlers::exception_disposition;
use fe_os::handlers::keyboard_step;
use fe_os::handlers::timer_tick_step;
use fe_os::handlers::CpuException;
use fe_os::handlers::Disposition;
use fe_os::handlers::HandlerAction;

#[test]
fn timer_step_is_heartbeat_hook_acknowledge() {
    let actions = timer_tick_step();
    assert_eq!(actions.len(), 3);
    assert!(matches!(actions[0], HandlerAction::EmitHeartbeat));
    assert!(matches!(actions[1], HandlerAction::InvokeTickHook));
    assert!(matches!(actions[2], HandlerAction::Acknowledge(32)));
}

#[test]
fn breakpoint_resumes_faults_halt() {
    assert_eq!(exception_disposition(CpuException::Breakpoint), Disposition::Resume);
    // A page fault or double fault never returns to the interrupted
    // context: the caller enters the halt loop.
    assert_eq!(exception_disposition(CpuException::PageFault), Disposition::Halt);
    assert_eq!(exception_disposition(CpuException::DoubleFault), Disposition::Halt);
}

fn ack_positions(actions: &[HandlerAction]) -> Vec<usize> {
    actions
        .iter()
        .enumerate()
        .filter(|(_, a)| matches!(a, HandlerAction::Acknowledge(_)))
        .map(|(i, _)| i)
        .collect()
}

#[test]
fn every_interrupt_acknowledges_exactly_once() {
    // A thousand pseudo-randomly interleaved timer and keyboard interrupts
    // with pseudo-random scancodes: every step ends with exactly one
    // acknowledgment of its own vector, on every path.
    let mut session = DecoderSession::new();
    let mut state: u64 = 0x853C_49E6_748F_EA9B;
    for _ in 0..1000 {
        state = state
            .wrapping_mul(6364136223846793005)
            .wrapping_add(1442695040888963407);
        let is_timer = (state >> 33) & 1 == 0;
        let actions = if is_timer {
            timer_tick_step()
        } else {
            let scancode = (state >> 40) as u8;
            keyboard_step(&mut session, scancode)
        };
        let acks = ack_positions(&actions);
        assert_eq!(acks.len(), 1);
        assert_eq!(acks[0], actions.len() - 1);
        let expected = if is_timer { 32 } else { 33 };
        assert!(matches!(actions[acks[0]], HandlerAction::Acknowledge(v) if v == expected));
    }
}
