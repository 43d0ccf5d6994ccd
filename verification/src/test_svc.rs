//! Diagnostic test service.
//!
//! A service riding on the dispatch core: it answers one opcode, the
//! notification test, by planning a delayed notification back towards the
//! requesting endpoint and replying with a success status.  The waiting
//! itself (a timer-driven delay) and the call into the notification
//! subsystem are outside work the runner performs from the plan; the
//! decision — which notification, which reply, which error — is verified
//! here.

use vstd::prelude::*;

use crate::codec::word_at;
use crate::message::status_payload;
use crate::message::status_payload_bytes;
use crate::message::DirectRequest;
use crate::message::HandlerReply;
use crate::message::Notification;
use crate::message::ServiceFailure;
use crate::message::STATUS_INVALID_PARAMETER;
use crate::message::STATUS_OK;
use crate::message::STATUS_UNKNOWN_OPCODE;
use crate::service::Service;

verus! {

/// First opcode of the test service's command range.
pub const TEST_OPCODE_BASE: u64 = 0xDEF0;

/// Opcode of the notification test command.
pub const TEST_OPCODE_TEST_NOTIFICATION: u64 = 0xDEF1;

/// Bit position of the delayed schedule-receiver-interrupt flag in the
/// notification control word.
pub const DELAYED_SRI_BIT_POS: u64 = 1;

/// Seconds the runner waits before raising the planned notification.
pub const NOTIFICATION_DELAY_SECONDS: u64 = 20;

/// The test service's protocol identifier.
pub const TEST_SERVICE_UUID: u128 = 0xe0fad9b3_7f5c_42c5_b2ee_b7a82313cdb2;

/// The cookie parameter of a notification test request: the notification id
/// to raise, carried in the fourth payload register.
pub open spec fn notification_cookie(req: DirectRequest) -> u64 {
    word_at(req.payload@, 3)
}

/// The requester's 128-bit identifier, split little-endian across payload
/// registers 1 and 2 with the most significant half in the higher register.
pub open spec fn sender_uuid_spec(req: DirectRequest) -> u128 {
    ((word_at(req.payload@, 2) as u128) << 64u128) | (word_at(req.payload@, 1) as u128)
}

/// The notification a valid notification test request asks for: the delayed
/// flag set, and the bitmap bit named by the cookie.
pub open spec fn planned_notification(req: DirectRequest) -> Notification {
    Notification {
        source: req.source,
        destination: req.destination,
        flags: 1u64 << DELAYED_SRI_BIT_POS,
        bitmap: 1u64 << notification_cookie(req),
    }
}

/// The diagnostic test service.
#[derive(Default)]
pub struct Test {}

impl Test {
    /// Creates the test service.
    pub fn new() -> (r: Self) {
        Test {  }
    }

    /// Reads the requester's 128-bit identifier out of a notification test
    /// request, for the diagnostic record of the handled request.
    pub fn request_sender_uuid(req: &DirectRequest) -> (r: u128)
        ensures
            r == sender_uuid_spec(*req),
    {
        crate::codec::combine_registers(req.register_at(1), req.register_at(2))
    }

    /// Number of timer ticks the notification delay spans at a given
    /// counter frequency, or `None` when the product would not fit.
    pub fn delay_ticks(frequency: u64) -> (r: Option<u64>)
        ensures
            frequency <= u64::MAX as u64 / NOTIFICATION_DELAY_SECONDS ==> r == Some(
                (NOTIFICATION_DELAY_SECONDS * frequency) as u64,
            ),
            frequency > u64::MAX as u64 / NOTIFICATION_DELAY_SECONDS ==> r is None,
    {
        if frequency <= u64::MAX / NOTIFICATION_DELAY_SECONDS {
            proof {
                assert(NOTIFICATION_DELAY_SECONDS * frequency <= u64::MAX) by (nonlinear_arith)
                    requires
                        frequency <= u64::MAX as int / NOTIFICATION_DELAY_SECONDS as int,
                        NOTIFICATION_DELAY_SECONDS == 20,
                ;
            }
            Some(NOTIFICATION_DELAY_SECONDS * frequency)
        } else {
            None
        }
    }

    /// Decides the test service's answer to one directed request.
    ///
    /// The notification test opcode with a cookie under 64 yields a success
    /// reply and the planned notification; a cookie of 64 or more is a
    /// malformed parameter, answered with a structured error; any other
    /// opcode is answered with the unknown-opcode error.  Every failure is
    /// recoverable: the engine keeps serving.
    pub fn handle_request(&self, req: &DirectRequest) -> (r: Result<HandlerReply, ServiceFailure>)
        requires
            req.wf(),
        ensures
            (req.opcode_spec() == TEST_OPCODE_TEST_NOTIFICATION && notification_cookie(*req) < 64)
                ==> {
                &&& r matches Ok(reply)
                &&& reply.wf()
                &&& reply.payload@ == status_payload_bytes(STATUS_OK)
                &&& reply.notification == Some(planned_notification(*req))
            },
            (req.opcode_spec() == TEST_OPCODE_TEST_NOTIFICATION && notification_cookie(*req) >= 64)
                ==> r == Err::<HandlerReply, ServiceFailure>(
                ServiceFailure::Recoverable { status: STATUS_INVALID_PARAMETER },
            ),
            req.opcode_spec() != TEST_OPCODE_TEST_NOTIFICATION ==> r == Err::<
                HandlerReply,
                ServiceFailure,
            >(ServiceFailure::Recoverable { status: STATUS_UNKNOWN_OPCODE }),
    {
        let opcode = req.opcode();
        if opcode == TEST_OPCODE_TEST_NOTIFICATION {
            let cookie = req.u64_at(3);
            if cookie < 64 {
                let notification = Notification {
                    source: req.source,
                    destination: req.destination,
                    flags: 1u64 << DELAYED_SRI_BIT_POS,
                    bitmap: 1u64 << cookie,
                };
                Ok(
                    HandlerReply {
                        payload: status_payload(STATUS_OK),
                        notification: Some(notification),
                    },
                )
            } else {
                Err(ServiceFailure::Recoverable { status: STATUS_INVALID_PARAMETER })
            }
        } else {
            Err(ServiceFailure::Recoverable { status: STATUS_UNKNOWN_OPCODE })
        }
    }
}

impl Service for Test {
    open spec fn uuid_spec(&self) -> u128 {
        TEST_SERVICE_UUID
    }

    fn service_uuid(&self) -> (r: u128) {
        TEST_SERVICE_UUID
    }

    fn service_name(&self) -> (r: &'static str) {
        "Test"
    }

    fn handle_direct_request(&mut self, req: &DirectRequest) -> (r: Result<
        HandlerReply,
        ServiceFailure,
    >) {
        self.handle_request(req)
    }
}

} // verus!
