use winshim::dispatch::AssociationSlot;
use winshim::dispatch::DispatchOutcome;
use winshim::dispatch::EventMachine;
use winshim::dispatch::HostRequest;
use winshim::dispatch::StateCarrier;
use winshim::dispatch::WindowEvent;
use winshim::dispatch::CREATION_CONTINUE;
use winshim::dispatch::CREATION_REJECT;
use winshim::pump::pump_decision;
use winshim::pump::run_session;
use winshim::pump::PumpStep;

const WINDOW: usize = 7;

fn creation(counter: i32) -> WindowEvent {
    WindowEvent::CreationNotice { payload: Some(StateCarrier { counter }) }
}

fn attached_counter(m: &EventMachine) -> i32 {
    match m.slot {
        AssociationSlot::Attached { carrier, .. } => carrier.counter,
        _ => panic!("no carrier attached"),
    }
}

#[test]
fn creation_with_payload_attaches_and_continues() {
    let mut m = EventMachine::new();
    let (verdict, request) = m.dispatch(WINDOW, creation(0));
    assert_eq!(verdict, DispatchOutcome::Handled(CREATION_CONTINUE));
    assert_eq!(request, HostRequest::Idle);
    assert_eq!(
        m.slot,
        AssociationSlot::Attached { window: WINDOW, carrier: StateCarrier { counter: 0 } }
    );
}

#[test]
fn creation_without_record_rejects_and_stores_nothing() {
    let mut m = EventMachine::new();
    let (verdict, request) = m.dispatch(WINDOW, WindowEvent::CreationNotice { payload: None });
    assert_eq!(verdict, DispatchOutcome::Handled(CREATION_REJECT));
    assert_eq!(request, HostRequest::Idle);
    assert_eq!(m.slot, AssociationSlot::Unattached);
}

#[test]
fn three_paints_count_one_two_three() {
    let mut m = EventMachine::new();
    m.dispatch(WINDOW, creation(0));
    m.dispatch(WINDOW, WindowEvent::PaintRequest { fill_ok: true });
    assert_eq!(attached_counter(&m), 1);
    m.dispatch(WINDOW, WindowEvent::PaintRequest { fill_ok: true });
    assert_eq!(attached_counter(&m), 2);
    m.dispatch(WINDOW, WindowEvent::PaintRequest { fill_ok: true });
    assert_eq!(attached_counter(&m), 3);
}

#[test]
fn paint_requests_one_scoped_fill() {
    let mut m = EventMachine::new();
    m.dispatch(WINDOW, creation(4));
    let (verdict, request) = m.dispatch(WINDOW, WindowEvent::PaintRequest { fill_ok: true });
    assert_eq!(verdict, DispatchOutcome::Handled(0));
    assert_eq!(request, HostRequest::PaintScope { brush: 6 });
}

#[test]
fn failed_fill_changes_nothing_about_the_paint() {
    let mut ok = EventMachine::new();
    ok.dispatch(WINDOW, creation(4));
    let mut failed = EventMachine::new();
    failed.dispatch(WINDOW, creation(4));
    let outcome_ok = ok.dispatch(WINDOW, WindowEvent::PaintRequest { fill_ok: true });
    let outcome_failed = failed.dispatch(WINDOW, WindowEvent::PaintRequest { fill_ok: false });
    assert_eq!(outcome_ok, outcome_failed);
    assert_eq!(attached_counter(&ok), attached_counter(&failed));
}

#[test]
fn counter_wraps_at_maximum() {
    let mut m = EventMachine::with_state(
        AssociationSlot::Attached {
            window: WINDOW,
            carrier: StateCarrier { counter: i32::MAX },
        },
        false,
        false,
    );
    m.dispatch(WINDOW, WindowEvent::PaintRequest { fill_ok: true });
    assert_eq!(attached_counter(&m), i32::MIN);
}

#[test]
fn close_requests_destruction_only() {
    let mut m = EventMachine::new();
    m.dispatch(WINDOW, creation(0));
    let (verdict, request) = m.dispatch(WINDOW, WindowEvent::CloseRequest);
    assert_eq!(verdict, DispatchOutcome::Handled(0));
    assert_eq!(request, HostRequest::RequestDestruction);
    assert!(m.destroy_requested);
    assert!(!m.quit_posted);
    assert_eq!(
        m.slot,
        AssociationSlot::Attached { window: WINDOW, carrier: StateCarrier { counter: 0 } }
    );
}

#[test]
fn destroy_frees_the_carrier_then_posts_quit() {
    let mut m = EventMachine::new();
    m.dispatch(WINDOW, creation(0));
    let (verdict, request) = m.dispatch(WINDOW, WindowEvent::DestroyNotification);
    assert_eq!(verdict, DispatchOutcome::Handled(0));
    assert_eq!(request, HostRequest::PostQuit);
    assert_eq!(m.slot, AssociationSlot::Freed);
    assert!(m.quit_posted);
}

#[test]
fn destroy_without_attachment_frees_nothing_but_posts_quit() {
    let mut m = EventMachine::new();
    let (_, request) = m.dispatch(WINDOW, WindowEvent::DestroyNotification);
    assert_eq!(request, HostRequest::PostQuit);
    assert_eq!(m.slot, AssociationSlot::Unattached);
    assert!(m.quit_posted);
}

#[test]
fn destroy_for_another_handle_leaves_the_carrier() {
    let mut m = EventMachine::new();
    m.dispatch(WINDOW, creation(0));
    m.dispatch(WINDOW + 1, WindowEvent::DestroyNotification);
    assert_eq!(
        m.slot,
        AssociationSlot::Attached { window: WINDOW, carrier: StateCarrier { counter: 0 } }
    );
    assert!(m.quit_posted);
}

#[test]
fn plain_create_notice_is_acknowledged() {
    let mut m = EventMachine::new();
    let (verdict, request) = m.dispatch(WINDOW, WindowEvent::CreateNotice);
    assert_eq!(verdict, DispatchOutcome::Handled(0));
    assert_eq!(request, HostRequest::Idle);
    assert_eq!(m.slot, AssociationSlot::Unattached);
}

#[test]
fn unrecognized_event_forwards_to_default() {
    let mut m = EventMachine::new();
    let (verdict, request) = m.dispatch(
        WINDOW,
        WindowEvent::Unrecognized { message: 0x0200, w_param: 1, l_param: 2 },
    );
    assert_eq!(verdict, DispatchOutcome::ForwardToDefault);
    assert_eq!(request, HostRequest::Idle);
    assert_eq!(m.slot, AssociationSlot::Unattached);
    assert!(!m.quit_posted);
    assert!(!m.destroy_requested);
}

#[test]
fn pump_keeps_dispatching_ordinary_messages() {
    assert_eq!(pump_decision(1), PumpStep::Dispatch);
    assert_eq!(pump_decision(42), PumpStep::Dispatch);
}

#[test]
fn pump_terminates_on_quit_signal() {
    assert_eq!(pump_decision(0), PumpStep::Terminate);
}

#[test]
fn pump_treats_retrieval_error_as_fatal() {
    assert_eq!(pump_decision(-1), PumpStep::Fatal);
}

#[test]
fn session_terminates_after_the_carrier_is_freed() {
    let mut m = EventMachine::new();
    let events = vec![
        creation(0),
        WindowEvent::PaintRequest { fill_ok: true },
        WindowEvent::CloseRequest,
        WindowEvent::DestroyNotification,
        WindowEvent::CreateNotice,
    ];
    let consumed = run_session(&mut m, WINDOW, &events);
    assert_eq!(consumed, 4);
    assert_eq!(m.slot, AssociationSlot::Freed);
    assert!(m.quit_posted);
    assert!(m.destroy_requested);
}

#[test]
fn session_without_quit_consumes_everything() {
    let mut m = EventMachine::new();
    let events = vec![
        creation(5),
        WindowEvent::PaintRequest { fill_ok: true },
        WindowEvent::PaintRequest { fill_ok: false },
    ];
    let consumed = run_session(&mut m, WINDOW, &events);
    assert_eq!(consumed, 3);
    assert_eq!(attached_counter(&m), 7);
    assert!(!m.quit_posted);
}
