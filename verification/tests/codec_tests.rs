use partition_core::codec::combine_registers;
use partition_core::codec::decode;
use partition_core::codec::encode;
use partition_core::codec::read_word;
use partition_core::codec::word_to_bytes;
use partition_core::codec::ProtocolError;
use partition_core::codec::PAYLOAD_BYTE_BUDGET;
use partition_core::codec::PAYLOAD_REGISTER_COUNT;

#[test]
fn round_trip_short_payload() {
    let bytes: Vec<u8> = vec![1, 2, 3];
    let regs = encode(&bytes).unwrap();
    assert_eq!(regs.len(), PAYLOAD_REGISTER_COUNT);
    let back = decode(&regs, bytes.len()).unwrap();
    assert_eq!(back, bytes);
}

#[test]
fn round_trip_full_budget() {
    let mut bytes: Vec<u8> = Vec::new();
    let mut i: usize = 0;
    while i < PAYLOAD_BYTE_BUDGET {
        bytes.push((i % 251) as u8);
        i += 1;
    }
    let regs = encode(&bytes).unwrap();
    let back = decode(&regs, bytes.len()).unwrap();
    assert_eq!(back, bytes);
}

#[test]
fn round_trip_empty_payload() {
    let bytes: Vec<u8> = Vec::new();
    let regs = encode(&bytes).unwrap();
    assert!(regs.iter().all(|w| *w == 0));
    let back = decode(&regs, 0).unwrap();
    assert_eq!(back, bytes);
}

#[test]
fn encode_exact_register_values() {
    let bytes: Vec<u8> = vec![0x11, 0x22, 0x33];
    let regs = encode(&bytes).unwrap();
    assert_eq!(regs[0], 0x0033_2211);
    for k in 1..PAYLOAD_REGISTER_COUNT {
        assert_eq!(regs[k], 0);
    }
}

#[test]
fn encode_rejects_payload_over_budget() {
    let bytes: Vec<u8> = vec![0xAA; PAYLOAD_BYTE_BUDGET + 1];
    assert_eq!(encode(&bytes), Err(ProtocolError::PayloadTooLarge));
}

#[test]
fn decode_rejects_register_count_mismatch() {
    let regs: Vec<u64> = vec![0; PAYLOAD_REGISTER_COUNT - 1];
    assert_eq!(decode(&regs, 4), Err(ProtocolError::RegisterCountMismatch));
}

#[test]
fn decode_rejects_length_over_budget() {
    let regs: Vec<u64> = vec![0; PAYLOAD_REGISTER_COUNT];
    assert_eq!(
        decode(&regs, PAYLOAD_BYTE_BUDGET + 1),
        Err(ProtocolError::PayloadTooLarge)
    );
}

#[test]
fn word_split_is_little_endian() {
    let bytes = word_to_bytes(0x0123_4567_89AB_CDEF);
    assert_eq!(bytes, vec![0xEF, 0xCD, 0xAB, 0x89, 0x67, 0x45, 0x23, 0x01]);
}

#[test]
fn word_survives_split_and_repack() {
    let w = 0xDEAD_BEEF_0BAD_F00D_u64;
    let bytes = word_to_bytes(w);
    assert_eq!(read_word(&bytes, 0), w);
}

#[test]
fn read_word_zero_fills_past_end() {
    let bytes: Vec<u8> = vec![0xFF];
    assert_eq!(read_word(&bytes, 0), 0xFF);
    assert_eq!(read_word(&bytes, 1), 0);
}

#[test]
fn combine_registers_reconstructs_u128() {
    let r = combine_registers(0x1122_3344_5566_7788, 0x99AA_BBCC_DDEE_FF00);
    assert_eq!(r, 0x99AA_BBCC_DDEE_FF00_1122_3344_5566_7788_u128);
    assert_eq!(combine_registers(1, 0), 1);
    assert_eq!(combine_registers(0, 1), 1u128 << 64);
}
