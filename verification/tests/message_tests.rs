use partition_core::message::build_response;
use partition_core::message::status_payload;
use partition_core::message::DirectRequest;
use partition_core::message::RegisterPayload;
use partition_core::message::STATUS_UNKNOWN_TARGET;

fn request_with_payload(source: u16, destination: u16, bytes: Vec<u8>) -> DirectRequest {
    DirectRequest {
        source,
        destination,
        target_service: 0x1234,
        payload: RegisterPayload::from_bytes(bytes).unwrap(),
    }
}

#[test]
fn response_swaps_source_and_destination() {
    let req = request_with_payload(10, 20, vec![1, 2, 3]);
    let reply_payload = RegisterPayload::from_bytes(vec![9, 8]).unwrap();
    let resp = build_response(&req, reply_payload);
    assert_eq!(resp.source, req.destination);
    assert_eq!(resp.destination, req.source);
    assert_eq!(resp.payload.as_bytes(), &vec![9, 8]);
}

#[test]
fn payload_rejects_bytes_over_budget() {
    let bytes: Vec<u8> = vec![0; 113];
    assert!(RegisterPayload::from_bytes(bytes).is_err());
}

#[test]
fn payload_words_read_little_endian() {
    let mut bytes: Vec<u8> = vec![0; 8];
    bytes.extend(vec![0xF1, 0xDE, 0, 0, 0, 0, 0, 0]);
    let req = request_with_payload(1, 2, bytes);
    assert_eq!(req.u64_at(0), 0);
    assert_eq!(req.register_at(1), 0xDEF1);
    assert_eq!(req.u64_at(2), 0);
}

#[test]
fn opcode_is_first_payload_word() {
    let req = request_with_payload(1, 2, vec![0xF1, 0xDE, 0, 0, 0, 0, 0, 0]);
    assert_eq!(req.opcode(), 0xDEF1);
}

#[test]
fn status_payload_holds_status_word() {
    let p = status_payload(STATUS_UNKNOWN_TARGET);
    assert_eq!(p.as_bytes(), &vec![0xFF; 8]);
    let ok = status_payload(0);
    assert_eq!(ok.as_bytes(), &vec![0; 8]);
}

#[test]
fn request_duplicate_preserves_everything() {
    let req = request_with_payload(3, 4, vec![5, 6, 7]);
    let copy = req.duplicate();
    assert_eq!(copy.source, 3);
    assert_eq!(copy.destination, 4);
    assert_eq!(copy.target_service, 0x1234);
    assert_eq!(copy.payload.as_bytes(), req.payload.as_bytes());
}
