//! Protocol message model.
//!
//! A directed request carries source and destination endpoint ids, the
//! 128-bit identifier of the service it targets, and a register payload
//! whose first word is the opcode.  A directed response is built from a
//! request and a payload, with source and destination swapped so the reply
//! routes back to the caller.  A notification is a fire-and-forget signal
//! against a bitmap owned by the receiving endpoint.

use vstd::prelude::*;

use crate::codec::word_at;
use crate::codec::word_bytes;
use crate::codec::ProtocolError;
use crate::codec::PAYLOAD_BYTE_BUDGET;
use crate::codec::PAYLOAD_REGISTER_COUNT;

verus! {

/// Status word of a successful reply.
pub const STATUS_OK: i64 = 0;

/// Status word of the structured reply to a request whose target identifier
/// is absent from the registry.
pub const STATUS_UNKNOWN_TARGET: i64 = -1;

/// Status word a service reports for an opcode it does not implement.
pub const STATUS_UNKNOWN_OPCODE: i64 = -2;

/// Status word a service reports for a malformed parameter word.
pub const STATUS_INVALID_PARAMETER: i64 = -3;

/// An ordered sequence of payload bytes, bounded by the register budget,
/// viewed as that byte sequence.
pub struct RegisterPayload {
    bytes: Vec<u8>,
}

impl View for RegisterPayload {
    type V = Seq<u8>;

    closed spec fn view(&self) -> Seq<u8> {
        self.bytes@
    }
}

impl RegisterPayload {
    /// A payload never exceeds the register budget.
    pub open spec fn wf(&self) -> bool {
        self@.len() <= PAYLOAD_BYTE_BUDGET
    }

    /// An empty payload.
    pub fn empty() -> (r: Self)
        ensures
            r.wf(),
            r@ == Seq::<u8>::empty(),
    {
        RegisterPayload { bytes: Vec::new() }
    }

    /// Wraps payload bytes, rejecting a sequence over the register budget.
    pub fn from_bytes(bytes: Vec<u8>) -> (r: Result<Self, ProtocolError>)
        ensures
            bytes@.len() <= PAYLOAD_BYTE_BUDGET ==> (r matches Ok(p) && p.wf() && p@ == bytes@),
            bytes@.len() > PAYLOAD_BYTE_BUDGET ==> r == Err::<Self, ProtocolError>(
                ProtocolError::PayloadTooLarge,
            ),
    {
        if bytes.len() > PAYLOAD_BYTE_BUDGET {
            Err(ProtocolError::PayloadTooLarge)
        } else {
            Ok(RegisterPayload { bytes })
        }
    }

    /// A one-word payload: the eight little-endian bytes of `w`.
    pub fn from_word(w: u64) -> (r: Self)
        ensures
            r.wf(),
            r@ == word_bytes(w),
    {
        RegisterPayload { bytes: crate::codec::word_to_bytes(w) }
    }

    /// Number of payload bytes.
    pub fn len(&self) -> (r: usize)
        ensures
            r == self@.len(),
    {
        self.bytes.len()
    }

    /// The 64-bit word held by payload bytes `8r .. 8r+8`, bytes past the
    /// end read as zero.
    pub fn word_at(&self, r: usize) -> (w: u64)
        requires
            r < PAYLOAD_REGISTER_COUNT,
        ensures
            w == word_at(self@, r as int),
    {
        crate::codec::read_word(&self.bytes, r)
    }

    /// The payload bytes, in order.
    pub fn as_bytes(&self) -> (r: &Vec<u8>)
        ensures
            r@ == self@,
    {
        &self.bytes
    }

    /// An identical copy of the payload.
    pub fn duplicate(&self) -> (r: Self)
        ensures
            r@ == self@,
    {
        let mut bytes: Vec<u8> = Vec::new();
        let mut i: usize = 0;
        while i < self.bytes.len()
            invariant
                i <= self.bytes@.len(),
                bytes@ == self.bytes@.subrange(0, i as int),
            decreases self.bytes@.len() - i,
        {
            bytes.push(self.bytes[i]);
            proof {
                assert(bytes@ =~= self.bytes@.subrange(0, i + 1));
            }
            i = i + 1;
        }
        proof {
            assert(bytes@ =~= self.bytes@);
        }
        RegisterPayload { bytes }
    }
}

/// The payload encoding a one-word status reply.
pub open spec fn status_payload_bytes(status: i64) -> Seq<u8> {
    word_bytes(status as u64)
}

/// Builds the payload of a one-word status reply: the little-endian bytes of
/// the status word.
pub fn status_payload(status: i64) -> (r: RegisterPayload)
    ensures
        r.wf(),
        r@ == status_payload_bytes(status),
{
    RegisterPayload::from_word(status as u64)
}

/// A directed request, addressed to one service of the partition.
pub struct DirectRequest {
    /// Endpoint id of the caller.
    pub source: u16,
    /// Endpoint id of this partition.
    pub destination: u16,
    /// 128-bit identifier of the service the request targets.
    pub target_service: u128,
    /// Register payload; its first word is the opcode.
    pub payload: RegisterPayload,
}

impl DirectRequest {
    /// A request is well-formed when its payload is.
    pub open spec fn wf(&self) -> bool {
        self.payload.wf()
    }

    /// The request's opcode: the first payload word.
    pub open spec fn opcode_spec(&self) -> u64 {
        word_at(self.payload@, 0)
    }

    /// Reads the request's opcode.
    pub fn opcode(&self) -> (r: u64)
        ensures
            r == self.opcode_spec(),
    {
        self.payload.word_at(0)
    }

    /// Reads payload register `r` (register 0 is the opcode).
    pub fn register_at(&self, r: usize) -> (w: u64)
        requires
            r < PAYLOAD_REGISTER_COUNT,
        ensures
            w == word_at(self.payload@, r as int),
    {
        self.payload.word_at(r)
    }

    /// Reads the 64-bit scalar at payload register `r`; the same word
    /// [`Self::register_at`] reads, named for callers that parse parameters.
    pub fn u64_at(&self, r: usize) -> (w: u64)
        requires
            r < PAYLOAD_REGISTER_COUNT,
        ensures
            w == word_at(self.payload@, r as int),
    {
        self.payload.word_at(r)
    }

    /// An identical copy of the request.
    pub fn duplicate(&self) -> (r: Self)
        ensures
            r.source == self.source,
            r.destination == self.destination,
            r.target_service == self.target_service,
            r.payload@ == self.payload@,
            r.wf() == self.wf(),
    {
        DirectRequest {
            source: self.source,
            destination: self.destination,
            target_service: self.target_service,
            payload: self.payload.duplicate(),
        }
    }
}

/// A directed response, routed back to the caller of a request.
pub struct DirectResponse {
    /// Endpoint id of the replying partition.
    pub source: u16,
    /// Endpoint id of the original caller.
    pub destination: u16,
    /// Register payload supplied by the handler.
    pub payload: RegisterPayload,
}

impl DirectResponse {
    /// A response is well-formed when its payload is.
    pub open spec fn wf(&self) -> bool {
        self.payload.wf()
    }
}

/// The response `build_response` owes: the request's routing fields with
/// source and destination swapped, and exactly the supplied payload.
pub open spec fn response_spec(req: DirectRequest, payload: RegisterPayload) -> DirectResponse {
    DirectResponse { source: req.destination, destination: req.source, payload }
}

/// Builds the response to a request: routing fields preserved with source
/// and destination swapped, and no payload content beyond what the handler
/// supplied.
pub fn build_response(req: &DirectRequest, payload: RegisterPayload) -> (r: DirectResponse)
    ensures
        r == response_spec(*req, payload),
        r.source == req.destination,
        r.destination == req.source,
        r.payload@ == payload@,
{
    DirectResponse { source: req.destination, destination: req.source, payload }
}

/// A fire-and-forget signal: no response payload ever comes back.
#[derive(Clone, Copy, Debug, PartialEq, Eq, Structural)]
pub struct Notification {
    /// Endpoint id of the signalling side.
    pub source: u16,
    /// Endpoint id owning the notification bitmap.
    pub destination: u16,
    /// Control flags for the notification subsystem.
    pub flags: u64,
    /// Bitmap of notification ids to set.
    pub bitmap: u64,
}

/// What a service handler reports when it cannot produce a reply.
#[derive(Clone, Copy, Debug, PartialEq, Eq, Structural)]
pub enum ServiceFailure {
    /// The engine surfaces a protocol-level error response and continues.
    Recoverable {
        /// Status word of the error response.
        status: i64,
    },
    /// The engine aborts the dispatch loop; the partition fail-stops.
    Fatal {
        /// Status word recorded in the diagnostic.
        status: i64,
    },
}

/// A successful handler result: the reply payload, and at most one
/// notification to raise alongside the reply.
pub struct HandlerReply {
    /// Payload of the directed response.
    pub payload: RegisterPayload,
    /// Notification to raise before the reply is sent, if any.
    pub notification: Option<Notification>,
}

impl HandlerReply {
    /// A reply is well-formed when its payload is.
    pub open spec fn wf(&self) -> bool {
        self.payload.wf()
    }
}

} // verus!
