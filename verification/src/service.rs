//! Service abstraction.
//!
//! A service is a named, identifier-addressed handler module created at
//! partition-init time and alive for the partition's whole lifetime.  Its
//! name is for diagnostics only; its 128-bit identifier is
//! protocol-significant and must match the identifier the privileged world
//! uses to target it.  The handler for a message kind accepts the inbound
//! request and produces either a reply or a typed failure; an opcode the
//! service does not know is the service's own responsibility to answer with
//! an explicit error, never with undefined processing.

use vstd::prelude::*;

use crate::message::DirectRequest;
use crate::message::HandlerReply;
use crate::message::ServiceFailure;

verus! {

/// The contract every pluggable service handler satisfies.
pub trait Service {
    /// The service's stable 128-bit identifier, as a specification value.
    spec fn uuid_spec(&self) -> u128;

    /// Reports the identifier inbound messages are matched against.
    fn service_uuid(&self) -> (r: u128)
        ensures
            r == self.uuid_spec(),
    ;

    /// Reports the service's stable human-readable name, for diagnostics
    /// only.
    fn service_name(&self) -> (r: &'static str);

    /// Handles one directed request, producing the reply to route back to
    /// the caller, or a typed failure for the engine to surface.
    fn handle_direct_request(&mut self, req: &DirectRequest) -> (r: Result<
        HandlerReply,
        ServiceFailure,
    >)
        requires
            req.wf(),
        ensures
            r matches Ok(reply) ==> reply.wf(),
    ;
}

} // verus!
