use partition_core::codec::word_to_bytes;
use partition_core::message::DirectRequest;
use partition_core::message::Notification;
use partition_core::message::RegisterPayload;
use partition_core::message::ServiceFailure;
use partition_core::message::STATUS_INVALID_PARAMETER;
use partition_core::message::STATUS_UNKNOWN_OPCODE;
use partition_core::service::Service;
use partition_core::test_svc::Test;
use partition_core::test_svc::TEST_OPCODE_TEST_NOTIFICATION;
use partition_core::test_svc::TEST_SERVICE_UUID;

fn notification_request(opcode: u64, cookie: u64) -> DirectRequest {
    let mut bytes = word_to_bytes(opcode);
    bytes.extend(word_to_bytes(0x1111)); // sender identifier, low half
    bytes.extend(word_to_bytes(0x2222)); // sender identifier, high half
    bytes.extend(word_to_bytes(cookie));
    DirectRequest {
        source: 0x8003,
        destination: 0x8001,
        target_service: TEST_SERVICE_UUID,
        payload: RegisterPayload::from_bytes(bytes).unwrap(),
    }
}

#[test]
fn notification_test_plans_notification_and_replies_ok() {
    let svc = Test::new();
    let req = notification_request(TEST_OPCODE_TEST_NOTIFICATION, 5);
    let reply = svc.handle_request(&req).unwrap();
    assert_eq!(reply.payload.as_bytes(), &vec![0; 8]);
    assert_eq!(
        reply.notification,
        Some(Notification {
            source: 0x8003,
            destination: 0x8001,
            flags: 2,   // the delayed schedule-receiver-interrupt flag
            bitmap: 32, // bit 5, the requested cookie
        })
    );
}

#[test]
fn oversized_cookie_is_invalid_parameter() {
    let svc = Test::new();
    let req = notification_request(TEST_OPCODE_TEST_NOTIFICATION, 64);
    assert_eq!(
        svc.handle_request(&req).err(),
        Some(ServiceFailure::Recoverable { status: STATUS_INVALID_PARAMETER })
    );
}

#[test]
fn unknown_opcode_is_reported_not_processed() {
    let svc = Test::new();
    let req = notification_request(0xDEF7, 5);
    assert_eq!(
        svc.handle_request(&req).err(),
        Some(ServiceFailure::Recoverable { status: STATUS_UNKNOWN_OPCODE })
    );
}

#[test]
fn trait_handler_matches_inherent_handler() {
    let mut svc = Test::new();
    let req = notification_request(TEST_OPCODE_TEST_NOTIFICATION, 3);
    let reply = svc.handle_direct_request(&req).unwrap();
    assert_eq!(reply.notification.unwrap().bitmap, 8);
}

#[test]
fn sender_identifier_reconstructs_across_two_registers() {
    let req = notification_request(TEST_OPCODE_TEST_NOTIFICATION, 0);
    let uuid = Test::request_sender_uuid(&req);
    assert_eq!(uuid, (0x2222_u128 << 64) | 0x1111_u128);
}

#[test]
fn service_identity_is_stable() {
    let svc = Test::new();
    assert_eq!(svc.service_uuid(), 0xe0fad9b3_7f5c_42c5_b2ee_b7a82313cdb2);
    assert_eq!(svc.service_name(), "Test");
}

#[test]
fn delay_ticks_scales_the_counter_frequency() {
    assert_eq!(Test::delay_ticks(62_500_000), Some(1_250_000_000));
    assert_eq!(Test::delay_ticks(0), Some(0));
    assert_eq!(Test::delay_ticks(u64::MAX), None);
}
