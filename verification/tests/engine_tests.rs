use partition_core::diag::Diagnostic;
use partition_core::diag::ExceptionClass;
use partition_core::diag::ExceptionOrigin;
use partition_core::engine::DispatchEngine;
use partition_core::engine::EngineAction;
use partition_core::engine::EngineEvent;
use partition_core::engine::EngineState;
use partition_core::message::DirectRequest;
use partition_core::message::HandlerReply;
use partition_core::message::Notification;
use partition_core::message::RegisterPayload;
use partition_core::message::ServiceFailure;
use partition_core::registry::ServiceDescriptor;
use partition_core::registry::ServiceRegistry;

const ID_A: u128 = 0xAAAA;
const ID_B: u128 = 0xBBBB;

fn engine_with_a_and_b() -> DispatchEngine {
    let reg = ServiceRegistry::build(vec![
        ServiceDescriptor { id: ID_A, name: "a" },
        ServiceDescriptor { id: ID_B, name: "b" },
    ])
    .unwrap();
    DispatchEngine::new(reg)
}

fn request_for(target: u128) -> DirectRequest {
    DirectRequest {
        source: 100,
        destination: 1,
        target_service: target,
        payload: RegisterPayload::from_bytes(vec![0xF1, 0xDE, 0, 0, 0, 0, 0, 0]).unwrap(),
    }
}

fn invoked_index(action: EngineAction) -> usize {
    match action {
        EngineAction::Invoke { service_index } => service_index,
        _ => panic!("expected an invocation"),
    }
}

#[test]
fn request_to_a_never_invokes_b() {
    let mut engine = engine_with_a_and_b();
    let action = engine.on_event(EngineEvent::RequestReceived { request: request_for(ID_A) });
    assert_eq!(invoked_index(action), 0);

    let done = engine.on_event(EngineEvent::HandlerCompleted {
        result: Ok(HandlerReply {
            payload: RegisterPayload::empty(),
            notification: None,
        }),
    });
    assert!(matches!(done, EngineAction::Reply { .. }));

    let action = engine.on_event(EngineEvent::RequestReceived { request: request_for(ID_B) });
    assert_eq!(invoked_index(action), 1);
}

#[test]
fn no_second_invocation_while_handler_runs() {
    let mut engine = engine_with_a_and_b();
    let first = engine.on_event(EngineEvent::RequestReceived { request: request_for(ID_A) });
    assert!(matches!(first, EngineAction::Invoke { .. }));
    let second = engine.on_event(EngineEvent::RequestReceived { request: request_for(ID_B) });
    assert!(matches!(second, EngineAction::Wait));
    assert!(matches!(engine.state, EngineState::HandlerRunning { .. }));
}

#[test]
fn completed_handler_reply_routes_back_to_caller() {
    let mut engine = engine_with_a_and_b();
    engine.on_event(EngineEvent::RequestReceived { request: request_for(ID_A) });
    let action = engine.on_event(EngineEvent::HandlerCompleted {
        result: Ok(HandlerReply {
            payload: RegisterPayload::from_bytes(vec![7, 7]).unwrap(),
            notification: None,
        }),
    });
    match action {
        EngineAction::Reply { response } => {
            assert_eq!(response.source, 1);
            assert_eq!(response.destination, 100);
            assert_eq!(response.payload.as_bytes(), &vec![7, 7]);
        }
        _ => panic!("expected a reply"),
    }
}

#[test]
fn reply_with_notification_raises_it_first() {
    let mut engine = engine_with_a_and_b();
    engine.on_event(EngineEvent::RequestReceived { request: request_for(ID_A) });
    let wanted = Notification { source: 100, destination: 1, flags: 2, bitmap: 32 };
    let action = engine.on_event(EngineEvent::HandlerCompleted {
        result: Ok(HandlerReply {
            payload: RegisterPayload::empty(),
            notification: Some(wanted),
        }),
    });
    match action {
        EngineAction::ReplyAndNotify { notification, response } => {
            assert_eq!(notification, wanted);
            assert_eq!(response.destination, 100);
        }
        _ => panic!("expected a reply with a notification"),
    }
}

#[test]
fn unknown_target_yields_structured_response_and_engine_continues() {
    let mut engine = engine_with_a_and_b();
    let action = engine.on_event(EngineEvent::RequestReceived { request: request_for(0xCCCC) });
    match action {
        EngineAction::Reply { response } => {
            assert_eq!(response.source, 1);
            assert_eq!(response.destination, 100);
            // The little-endian bytes of the unknown-target status word (-1).
            assert_eq!(response.payload.as_bytes(), &vec![0xFF; 8]);
        }
        _ => panic!("expected the unknown-target reply"),
    }
    assert!(matches!(engine.state, EngineState::AwaitingMessage));

    // The loop keeps serving: a known target is still dispatched.
    let action = engine.on_event(EngineEvent::RequestReceived { request: request_for(ID_A) });
    assert_eq!(invoked_index(action), 0);
}

#[test]
fn recoverable_failure_becomes_error_reply() {
    let mut engine = engine_with_a_and_b();
    engine.on_event(EngineEvent::RequestReceived { request: request_for(ID_A) });
    let action = engine.on_event(EngineEvent::HandlerCompleted {
        result: Err(ServiceFailure::Recoverable { status: -2 }),
    });
    match action {
        EngineAction::Reply { response } => {
            assert_eq!(response.destination, 100);
            assert_eq!(response.payload.as_bytes(), &vec![0xFE, 0xFF, 0xFF, 0xFF, 0xFF, 0xFF, 0xFF, 0xFF]);
        }
        _ => panic!("expected an error reply"),
    }
    assert!(matches!(engine.state, EngineState::AwaitingMessage));
}

#[test]
fn fatal_failure_emits_one_diagnostic_then_halts() {
    let mut engine = engine_with_a_and_b();
    engine.on_event(EngineEvent::RequestReceived { request: request_for(ID_A) });
    let action = engine.on_event(EngineEvent::HandlerCompleted {
        result: Err(ServiceFailure::Fatal { status: -9 }),
    });
    match action {
        EngineAction::FailStop { diagnostic } => {
            assert_eq!(diagnostic, Diagnostic::HandlerFatal { status: -9 });
        }
        _ => panic!("expected the fail-stop"),
    }
    assert!(matches!(engine.state, EngineState::Halted));
}

#[test]
fn injected_fault_emits_one_diagnostic_and_no_forward_progress() {
    let mut engine = engine_with_a_and_b();
    let fault = Diagnostic::Exception {
        origin: ExceptionOrigin::CurrentElSpx,
        class: ExceptionClass::Synchronous,
    };
    let action = engine.on_event(EngineEvent::FaultObserved { diagnostic: fault });
    match action {
        EngineAction::FailStop { diagnostic } => assert_eq!(diagnostic, fault),
        _ => panic!("expected the fail-stop"),
    }
    assert!(matches!(engine.state, EngineState::Halted));

    // After the halt: no event produces any further action or diagnostic.
    let after = engine.on_event(EngineEvent::RequestReceived { request: request_for(ID_A) });
    assert!(matches!(after, EngineAction::Wait));
    let after = engine.on_event(EngineEvent::FaultObserved { diagnostic: fault });
    assert!(matches!(after, EngineAction::Wait));
    assert!(matches!(engine.state, EngineState::Halted));
}
