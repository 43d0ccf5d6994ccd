//! Dispatch engine.
//!
//! A single logical thread of control per partition: the engine suspends at
//! the top of its loop until an inbound directed request or a handler result
//! arrives, and never runs two handler invocations at once.  The loop itself
//! — awaiting the transport, driving a handler to completion — is outside
//! work; the engine is the verified decision core, a state machine from
//! events to actions.  The unverified rim performs each action (invoke the
//! chosen handler, send a response, raise a notification, emit a diagnostic
//! and halt) and feeds the next event back.
//!
//! The loop never terminates under normal operation; a fatal condition moves
//! the engine to the halted state, from which no event produces any further
//! action.

use vstd::prelude::*;

use crate::diag::Diagnostic;
use crate::message::status_payload;
use crate::message::status_payload_bytes;
use crate::message::DirectRequest;
use crate::message::DirectResponse;
use crate::message::HandlerReply;
use crate::message::Notification;
use crate::message::ServiceFailure;
use crate::message::STATUS_UNKNOWN_TARGET;
use crate::registry::ServiceRegistry;

verus! {

/// Where the engine stands between events.
pub enum EngineState {
    /// Suspended at the top of the loop, waiting for an inbound request.
    AwaitingMessage,
    /// Exactly one request is in flight, with the service driving it.
    HandlerRunning {
        /// Index of the invoked service in the registry.
        service_index: usize,
        /// The request being served.
        request: DirectRequest,
    },
    /// A fatal condition was reported; the engine never leaves this state.
    Halted,
}

/// What the engine is told.
pub enum EngineEvent {
    /// The transport delivered a directed request.
    RequestReceived {
        /// The inbound request.
        request: DirectRequest,
    },
    /// The invoked handler ran to completion.
    HandlerCompleted {
        /// The handler's reply, or its typed failure.
        result: Result<HandlerReply, ServiceFailure>,
    },
    /// A hardware fault or fatal engine error was observed.
    FaultObserved {
        /// The diagnostic describing the fault.
        diagnostic: Diagnostic,
    },
}

/// What the engine asks its runner to do next.
pub enum EngineAction {
    /// Invoke the handler of the service at this registry index for the
    /// request now in flight.
    Invoke {
        /// Index of the addressed service.
        service_index: usize,
    },
    /// Send this response over the reply channel of the request it answers.
    Reply {
        /// The response to send.
        response: DirectResponse,
    },
    /// Raise this notification, then send the response.
    ReplyAndNotify {
        /// The fire-and-forget notification to raise first.
        notification: Notification,
        /// The response to send.
        response: DirectResponse,
    },
    /// Emit exactly this diagnostic, then halt: no further forward progress.
    FailStop {
        /// The diagnostic to emit.
        diagnostic: Diagnostic,
    },
    /// Nothing to do; keep waiting.
    Wait,
}

/// What an event may assume of its contents.
pub open spec fn event_wf(event: EngineEvent) -> bool {
    match event {
        EngineEvent::RequestReceived { request } => request.wf(),
        EngineEvent::HandlerCompleted { result } => match result {
            Ok(reply) => reply.wf(),
            Err(_) => true,
        },
        EngineEvent::FaultObserved { .. } => true,
    }
}

/// The engine's next state: the transition relation of the dispatch loop.
///
/// A request received while awaiting is routed by identifier; one received
/// while a handler runs is left to the transport (delivery is synchronous
/// and single-flight, so the case is unreachable in a run) and changes
/// nothing.  Any observed fault, and any fatal handler failure, moves to the
/// halted state; the halted state absorbs every event.
pub open spec fn next_state(
    registry: ServiceRegistry,
    state: EngineState,
    event: EngineEvent,
) -> EngineState {
    match state {
        EngineState::AwaitingMessage => match event {
            EngineEvent::RequestReceived { request } => {
                if registry.contains_id(request.target_service) {
                    EngineState::HandlerRunning {
                        service_index: registry.index_of_id(request.target_service) as usize,
                        request,
                    }
                } else {
                    EngineState::AwaitingMessage
                }
            },
            EngineEvent::HandlerCompleted { .. } => EngineState::AwaitingMessage,
            EngineEvent::FaultObserved { .. } => EngineState::Halted,
        },
        EngineState::HandlerRunning { service_index, request } => match event {
            EngineEvent::RequestReceived { .. } => EngineState::HandlerRunning {
                service_index,
                request,
            },
            EngineEvent::HandlerCompleted { result } => match result {
                Ok(_) => EngineState::AwaitingMessage,
                Err(ServiceFailure::Recoverable { .. }) => EngineState::AwaitingMessage,
                Err(ServiceFailure::Fatal { .. }) => EngineState::Halted,
            },
            EngineEvent::FaultObserved { .. } => EngineState::Halted,
        },
        EngineState::Halted => EngineState::Halted,
    }
}

/// The single-flight dispatch engine: the registry it owns and the state it
/// stands in.
pub struct DispatchEngine {
    /// The service registry, built once and immutable thereafter.
    pub registry: ServiceRegistry,
    /// The engine's current state.
    pub state: EngineState,
}

impl DispatchEngine {
    /// The registry's identifiers are unique, and an in-flight request is
    /// held with the index of exactly the service it addresses.
    pub open spec fn wf(&self) -> bool {
        &&& self.registry.wf()
        &&& match self.state {
            EngineState::HandlerRunning { service_index, request } => {
                &&& service_index < self.registry@.len()
                &&& request.wf()
                &&& self.registry@[service_index as int].id == request.target_service
            },
            _ => true,
        }
    }

    /// Creates an engine over a registry, awaiting its first message.
    pub fn new(registry: ServiceRegistry) -> (r: Self)
        requires
            registry.wf(),
        ensures
            r.wf(),
            r.registry == registry,
            r.state is AwaitingMessage,
    {
        DispatchEngine { registry, state: EngineState::AwaitingMessage }
    }

    /// Feeds one event to the engine and returns the action its runner owes.
    ///
    /// The contract pins the whole step: the registry never changes, the
    /// state moves along [`next_state`], a handler is invoked only for the
    /// service whose identifier the in-flight request carries, an unknown
    /// target yields the structured error reply and the loop continues, a
    /// completed handler's reply is routed back to the request's caller, a
    /// fault or fatal failure yields exactly one diagnostic, and a halted
    /// engine reacts to nothing.
    pub fn on_event(&mut self, event: EngineEvent) -> (r: EngineAction)
        requires
            old(self).wf(),
            event_wf(event),
        ensures
            final(self).wf(),
            final(self).registry == old(self).registry,
            final(self).state == next_state(old(self).registry, old(self).state, event),
            // A handler invocation names exactly the addressed service.
            r matches EngineAction::Invoke { service_index } ==> {
                &&& old(self).state is AwaitingMessage
                &&& event matches EngineEvent::RequestReceived { request }
                &&& service_index < old(self).registry@.len()
                &&& old(self).registry@[service_index as int].id
                    == (event->RequestReceived_request).target_service
                &&& final(self).state == (EngineState::HandlerRunning {
                    service_index,
                    request: event->RequestReceived_request,
                })
            },
            // Routing a fresh request: invoke on a known identifier,
            // structured unknown-target reply (and keep serving) otherwise.
            (old(self).state is AwaitingMessage && event matches EngineEvent::RequestReceived {
                request,
            }) ==> {
                if old(self).registry.contains_id(
                    (event->RequestReceived_request).target_service,
                ) {
                    r is Invoke
                } else {
                    &&& r matches EngineAction::Reply { response }
                    &&& response.source == (event->RequestReceived_request).destination
                    &&& response.destination == (event->RequestReceived_request).source
                    &&& response.payload@ == status_payload_bytes(STATUS_UNKNOWN_TARGET)
                    &&& final(self).state is AwaitingMessage
                }
            },
            // A completed handler: its reply is routed back to the caller of
            // the in-flight request, with exactly the payload it supplied.
            (old(self).state matches EngineState::HandlerRunning { request, .. }
                && event matches EngineEvent::HandlerCompleted { result: Ok(reply) }) ==> {
                let req = old(self).state->HandlerRunning_request;
                let rep = (event->HandlerCompleted_result)->Ok_0;
                match rep.notification {
                    Some(n) => {
                        &&& r matches EngineAction::ReplyAndNotify { notification, response }
                        &&& notification == n
                        &&& response.source == req.destination
                        &&& response.destination == req.source
                        &&& response.payload@ == rep.payload@
                    },
                    None => {
                        &&& r matches EngineAction::Reply { response }
                        &&& response.source == req.destination
                        &&& response.destination == req.source
                        &&& response.payload@ == rep.payload@
                    },
                }
            },
            // A recoverable handler failure: a structured error reply to the
            // caller, and the loop continues.
            (old(self).state matches EngineState::HandlerRunning { request, .. }
                && event matches EngineEvent::HandlerCompleted {
                result: Err(ServiceFailure::Recoverable { status }),
            }) ==> {
                let req = old(self).state->HandlerRunning_request;
                let st = (event->HandlerCompleted_result)->Err_0->Recoverable_status;
                &&& r matches EngineAction::Reply { response }
                &&& response.source == req.destination
                &&& response.destination == req.source
                &&& response.payload@ == status_payload_bytes(st)
                &&& final(self).state is AwaitingMessage
            },
            // A fatal handler failure: one diagnostic, then the halt.
            (old(self).state is HandlerRunning && event matches EngineEvent::HandlerCompleted {
                result: Err(ServiceFailure::Fatal { status }),
            }) ==> r == (EngineAction::FailStop {
                diagnostic: Diagnostic::HandlerFatal {
                    status: (event->HandlerCompleted_result)->Err_0->Fatal_status,
                },
            }),
            // An observed fault: exactly its diagnostic, then the halt.
            (!(old(self).state is Halted) && event matches EngineEvent::FaultObserved {
                diagnostic,
            }) ==> r == (EngineAction::FailStop { diagnostic: event->FaultObserved_diagnostic }),
            // The halted engine makes no further progress and emits nothing.
            old(self).state is Halted ==> r is Wait,
            // A diagnostic is emitted only on the one step into the halt.
            r is FailStop ==> !(old(self).state is Halted) && final(self).state is Halted,
    {
        match &self.state {
            EngineState::AwaitingMessage => match event {
                EngineEvent::RequestReceived { request } => {
                    match self.registry.lookup(request.target_service) {
                        Some(index) => {
                            proof {
                                let chosen = self.registry.index_of_id(request.target_service);
                                assert(0 <= chosen < self.registry@.len()
                                    && self.registry@[chosen].id == request.target_service);
                                assert(chosen == index as int);
                            }
                            self.state = EngineState::HandlerRunning {
                                service_index: index,
                                request,
                            };
                            EngineAction::Invoke { service_index: index }
                        },
                        None => {
                            let response = crate::message::build_response(
                                &request,
                                status_payload(STATUS_UNKNOWN_TARGET),
                            );
                            EngineAction::Reply { response }
                        },
                    }
                },
                EngineEvent::HandlerCompleted { .. } => EngineAction::Wait,
                EngineEvent::FaultObserved { diagnostic } => {
                    self.state = EngineState::Halted;
                    EngineAction::FailStop { diagnostic }
                },
            },
            EngineState::HandlerRunning { service_index: _, request } => {
                let caller = request.source;
                let callee = request.destination;
                match event {
                    EngineEvent::RequestReceived { .. } => EngineAction::Wait,
                    EngineEvent::HandlerCompleted { result } => match result {
                        Ok(reply) => {
                            let response = DirectResponse {
                                source: callee,
                                destination: caller,
                                payload: reply.payload,
                            };
                            self.state = EngineState::AwaitingMessage;
                            match reply.notification {
                                Some(notification) => EngineAction::ReplyAndNotify {
                                    notification,
                                    response,
                                },
                                None => EngineAction::Reply { response },
                            }
                        },
                        Err(ServiceFailure::Recoverable { status }) => {
                            let response = DirectResponse {
                                source: callee,
                                destination: caller,
                                payload: status_payload(status),
                            };
                            self.state = EngineState::AwaitingMessage;
                            EngineAction::Reply { response }
                        },
                        Err(ServiceFailure::Fatal { status }) => {
                            self.state = EngineState::Halted;
                            EngineAction::FailStop {
                                diagnostic: Diagnostic::HandlerFatal { status },
                            }
                        },
                    },
                    EngineEvent::FaultObserved { diagnostic } => {
                        self.state = EngineState::Halted;
                        EngineAction::FailStop { diagnostic }
                    },
                }
            },
            EngineState::Halted => EngineAction::Wait,
        }
    }
}

/// The state a run of the engine reaches after a sequence of events.
pub open spec fn run_from(
    registry: ServiceRegistry,
    state: EngineState,
    events: Seq<EngineEvent>,
) -> EngineState
    decreases events.len(),
{
    if events.len() == 0 {
        state
    } else {
        run_from(registry, next_state(registry, state, events[0]), events.subrange(1, events.len() as int))
    }
}

/// Dispatch is single-flight: a handler invocation begins only from the
/// awaiting state, and while a request is in flight no event starts another
/// — the in-flight request either stays as it is or the engine leaves the
/// running state before any new invocation.
pub proof fn lemma_single_flight(registry: ServiceRegistry, state: EngineState, event: EngineEvent)
    ensures
        (next_state(registry, state, event) is HandlerRunning && !(state is HandlerRunning))
            ==> state is AwaitingMessage,
        (state matches EngineState::HandlerRunning { service_index, request } && next_state(
            registry,
            state,
            event,
        ) is HandlerRunning) ==> next_state(registry, state, event) == state,
{
}

/// A request addressed to one identifier is never dispatched to a service
/// with another: the running state reached from a fresh request always pairs
/// the request with the index of the service carrying its target identifier.
pub proof fn lemma_dispatch_targets_addressed_service(
    registry: ServiceRegistry,
    request: DirectRequest,
)
    requires
        registry.wf(),
        registry@.len() <= usize::MAX,
    ensures
        next_state(
            registry,
            EngineState::AwaitingMessage,
            EngineEvent::RequestReceived { request },
        ) matches EngineState::HandlerRunning { service_index, request: held } ==> {
            &&& held == request
            &&& service_index < registry@.len()
            &&& registry@[service_index as int].id == request.target_service
            &&& forall|j: int|
                0 <= j < registry@.len() && #[trigger] registry@[j].id == request.target_service
                    ==> j == service_index
        },
{
    let after = next_state(
        registry,
        EngineState::AwaitingMessage,
        EngineEvent::RequestReceived { request },
    );
    if registry.contains_id(request.target_service) {
        let chosen = registry.index_of_id(request.target_service);
        assert(0 <= chosen < registry@.len() && registry@[chosen].id == request.target_service);
        assert((chosen as usize) as int == chosen);
        assert forall|j: int|
            0 <= j < registry@.len() && #[trigger] registry@[j].id == request.target_service
            implies j == chosen by {
            if j != chosen {
                if j < chosen {
                    assert(registry@[j].id != registry@[chosen].id);
                } else {
                    assert(registry@[chosen].id != registry@[j].id);
                }
            }
        }
    }
}

/// A request addressed to an identifier absent from the registry leaves the
/// engine awaiting the next message: the unknown target is answered, never
/// fatal, and the loop keeps serving.
pub proof fn lemma_unknown_target_keeps_serving(
    registry: ServiceRegistry,
    request: DirectRequest,
)
    requires
        !registry.contains_id(request.target_service),
    ensures
        next_state(
            registry,
            EngineState::AwaitingMessage,
            EngineEvent::RequestReceived { request },
        ) is AwaitingMessage,
{
}

/// Fail-stop: once halted, no sequence of events moves the engine again.
pub proof fn lemma_halted_never_resumes(registry: ServiceRegistry, events: Seq<EngineEvent>)
    ensures
        run_from(registry, EngineState::Halted, events) is Halted,
    decreases events.len(),
{
    if events.len() > 0 {
        lemma_halted_never_resumes(registry, events.subrange(1, events.len() as int));
    }
}

/// Whether one engine step emits a diagnostic: by [`DispatchEngine::on_event`]'s
/// contract these are exactly the steps whose action is the fail-stop, and
/// they are exactly the steps that move a live engine into the halted state.
pub open spec fn step_emits_diagnostic(
    registry: ServiceRegistry,
    state: EngineState,
    event: EngineEvent,
) -> bool {
    !(state is Halted) && next_state(registry, state, event) is Halted
}

/// Number of diagnostics a run of the engine emits.
pub open spec fn diagnostics_emitted(
    registry: ServiceRegistry,
    state: EngineState,
    events: Seq<EngineEvent>,
) -> int
    decreases events.len(),
{
    if events.len() == 0 {
        0
    } else {
        (if step_emits_diagnostic(registry, state, events[0]) {
            1int
        } else {
            0int
        }) + diagnostics_emitted(
            registry,
            next_state(registry, state, events[0]),
            events.subrange(1, events.len() as int),
        )
    }
}

/// Over any run whatsoever the engine emits at most one diagnostic, and a
/// halted engine emits none: the diagnostic accompanies the one step into
/// the halt.
pub proof fn lemma_at_most_one_diagnostic(
    registry: ServiceRegistry,
    state: EngineState,
    events: Seq<EngineEvent>,
)
    ensures
        state is Halted ==> diagnostics_emitted(registry, state, events) == 0,
        diagnostics_emitted(registry, state, events) <= 1,
    decreases events.len(),
{
    if events.len() > 0 {
        lemma_at_most_one_diagnostic(
            registry,
            next_state(registry, state, events[0]),
            events.subrange(1, events.len() as int),
        );
    }
}

/// Fail-stop on fault: injecting a fault into a live engine yields exactly
/// one diagnostic over the entire rest of the run, however it continues.
pub proof fn lemma_fault_exactly_one_diagnostic(
    registry: ServiceRegistry,
    state: EngineState,
    diagnostic: Diagnostic,
    rest: Seq<EngineEvent>,
)
    requires
        !(state is Halted),
    ensures
        diagnostics_emitted(
            registry,
            state,
            seq![EngineEvent::FaultObserved { diagnostic }].add(rest),
        ) == 1,
{
    let events = seq![EngineEvent::FaultObserved { diagnostic }].add(rest);
    assert(events[0] == (EngineEvent::FaultObserved { diagnostic }));
    assert(events.subrange(1, events.len() as int) =~= rest);
    let after = next_state(registry, state, events[0]);
    assert(after is Halted);
    lemma_at_most_one_diagnostic(registry, after, rest);
}

} // verus!
