//! Register payload codec.
//!
//! A directed message carries its payload in a fixed budget of 64-bit
//! register slots.  A payload of `n` bytes is packed least-significant-first:
//! byte `i` lands in register `i / 8` at byte offset `i % 8`, little-endian.
//! Packing and unpacking are lossless and total for any sequence of at most
//! [`PAYLOAD_BYTE_BUDGET`] bytes; a longer payload is a hard error, never a
//! truncation.

use vstd::prelude::*;

verus! {

/// Number of 64-bit register slots available to a directed message payload.
pub const PAYLOAD_REGISTER_COUNT: usize = 14;

/// Register budget in bytes: the longest payload that can be packed.
pub const PAYLOAD_BYTE_BUDGET: usize = PAYLOAD_REGISTER_COUNT * 8;

/// Protocol-level codec errors; recovered locally, never a crash.
#[derive(Clone, Copy, Debug, PartialEq, Eq, Structural)]
pub enum ProtocolError {
    /// The payload does not fit the register budget.
    PayloadTooLarge,
    /// A register image does not span exactly the budgeted register count.
    RegisterCountMismatch,
}

/// Byte `i` of a payload, taking bytes past the end as zero (the unused tail
/// of the register file).
pub open spec fn byte_or_zero(bytes: Seq<u8>, i: int) -> u8 {
    if 0 <= i < bytes.len() {
        bytes[i]
    } else {
        0u8
    }
}

/// Byte `s` (0 = least significant) of the 64-bit word `w`.
pub open spec fn word_byte(w: u64, s: int) -> u8 {
    ((w >> ((8 * s) as u64)) & 0xff) as u8
}

/// Byte `i` of a packed register image: byte offset `i % 8` of register
/// `i / 8`.
pub open spec fn register_byte(regs: Seq<u64>, i: int) -> u8 {
    word_byte(regs[i / 8], i % 8)
}

/// The register image `regs` is the packing of `bytes`: full register count,
/// every byte of the payload in its slot, every slot past the payload zero.
pub open spec fn encodes(bytes: Seq<u8>, regs: Seq<u64>) -> bool {
    &&& regs.len() == PAYLOAD_REGISTER_COUNT
    &&& forall|i: int|
        0 <= i < PAYLOAD_BYTE_BUDGET ==> #[trigger] register_byte(regs, i) == byte_or_zero(
            bytes,
            i,
        )
}

/// The first `len` bytes read back from a register image.
pub open spec fn decoded_bytes(regs: Seq<u64>, len: int) -> Seq<u8> {
    Seq::new(len as nat, |i: int| register_byte(regs, i))
}

/// The 64-bit word formed by payload bytes `8r .. 8r+8`, little-endian, with
/// missing bytes read as zero.
pub open spec fn word_at(bytes: Seq<u8>, r: int) -> u64 {
    (byte_or_zero(bytes, 8 * r) as u64) | ((byte_or_zero(bytes, 8 * r + 1) as u64) << 8u64) | ((
    byte_or_zero(bytes, 8 * r + 2) as u64) << 16u64) | ((byte_or_zero(bytes, 8 * r + 3) as u64)
        << 24u64) | ((byte_or_zero(bytes, 8 * r + 4) as u64) << 32u64) | ((byte_or_zero(
        bytes,
        8 * r + 5,
    ) as u64) << 40u64) | ((byte_or_zero(bytes, 8 * r + 6) as u64) << 48u64) | ((byte_or_zero(
        bytes,
        8 * r + 7,
    ) as u64) << 56u64)
}

/// The eight bytes of the word `w`, least significant first.
pub open spec fn word_bytes(w: u64) -> Seq<u8> {
    Seq::new(8, |j: int| word_byte(w, j))
}

/// Byte `k` of the payload, or zero past its end.
fn byte_at_or_zero(bytes: &Vec<u8>, k: usize) -> (r: u8)
    ensures
        r == byte_or_zero(bytes@, k as int),
{
    if k < bytes.len() {
        bytes[k]
    } else {
        0u8
    }
}

/// Packs eight bytes, least significant first, into one register word.
fn pack_register(b0: u8, b1: u8, b2: u8, b3: u8, b4: u8, b5: u8, b6: u8, b7: u8) -> (w: u64)
    ensures
        word_byte(w, 0) == b0,
        word_byte(w, 1) == b1,
        word_byte(w, 2) == b2,
        word_byte(w, 3) == b3,
        word_byte(w, 4) == b4,
        word_byte(w, 5) == b5,
        word_byte(w, 6) == b6,
        word_byte(w, 7) == b7,
{
    let w: u64 = (b0 as u64) | ((b1 as u64) << 8u64) | ((b2 as u64) << 16u64) | ((b3 as u64)
        << 24u64) | ((b4 as u64) << 32u64) | ((b5 as u64) << 40u64) | ((b6 as u64) << 48u64) | ((
    b7 as u64) << 56u64);
    proof {
        assert(word_byte(w, 0) == b0 && word_byte(w, 1) == b1 && word_byte(w, 2) == b2 && word_byte(
            w,
            3,
        ) == b3 && word_byte(w, 4) == b4 && word_byte(w, 5) == b5 && word_byte(w, 6) == b6
            && word_byte(w, 7) == b7) by (bit_vector)
            requires
                w == (b0 as u64) | ((b1 as u64) << 8u64) | ((b2 as u64) << 16u64) | ((b3 as u64)
                    << 24u64) | ((b4 as u64) << 32u64) | ((b5 as u64) << 40u64) | ((b6 as u64)
                    << 48u64) | ((b7 as u64) << 56u64),
        ;
    }
    w
}

/// Packs a payload into its register image.
///
/// Returns the full [`PAYLOAD_REGISTER_COUNT`] register image when the
/// payload fits the budget, and [`ProtocolError::PayloadTooLarge`] otherwise.
pub fn encode(bytes: &Vec<u8>) -> (r: Result<Vec<u64>, ProtocolError>)
    ensures
        bytes@.len() <= PAYLOAD_BYTE_BUDGET ==> (r matches Ok(regs) && encodes(bytes@, regs@)),
        bytes@.len() > PAYLOAD_BYTE_BUDGET ==> r == Err::<Vec<u64>, ProtocolError>(
            ProtocolError::PayloadTooLarge,
        ),
{
    if bytes.len() > PAYLOAD_BYTE_BUDGET {
        return Err(ProtocolError::PayloadTooLarge);
    }
    let mut regs: Vec<u64> = Vec::new();
    let mut r: usize = 0;
    while r < PAYLOAD_REGISTER_COUNT
        invariant
            r <= PAYLOAD_REGISTER_COUNT,
            regs@.len() == r,
            forall|i: int|
                0 <= i < 8 * r ==> #[trigger] register_byte(regs@, i) == byte_or_zero(bytes@, i),
        decreases PAYLOAD_REGISTER_COUNT - r,
    {
        let ghost pre = regs@;
        let base: usize = 8 * r;
        let w = pack_register(
            byte_at_or_zero(bytes, base),
            byte_at_or_zero(bytes, base + 1),
            byte_at_or_zero(bytes, base + 2),
            byte_at_or_zero(bytes, base + 3),
            byte_at_or_zero(bytes, base + 4),
            byte_at_or_zero(bytes, base + 5),
            byte_at_or_zero(bytes, base + 6),
            byte_at_or_zero(bytes, base + 7),
        );
        regs.push(w);
        proof {
            assert forall|i: int| 0 <= i < 8 * (r + 1) implies #[trigger] register_byte(regs@, i)
                == byte_or_zero(bytes@, i) by {
                let k = i / 8;
                let s = i % 8;
                assert(i == 8 * k + s && 0 <= s < 8) by (nonlinear_arith)
                    requires
                        0 <= i,
                        k == i / 8,
                        s == i % 8,
                ;
                if i < 8 * r {
                    assert(k < r) by (nonlinear_arith)
                        requires
                            i < 8 * r,
                            i == 8 * k + s,
                            0 <= s < 8,
                    ;
                    assert(register_byte(pre, i) == byte_or_zero(bytes@, i));
                    assert(regs@[k] == pre[k]);
                } else {
                    assert(k == r && s == i - 8 * r) by (nonlinear_arith)
                        requires
                            8 * r <= i < 8 * r + 8,
                            i == 8 * k + s,
                            0 <= s < 8,
                    ;
                    assert(regs@[k] == w);
                    if s == 0 {
                        assert(word_byte(w, 0) == byte_or_zero(bytes@, i));
                    } else if s == 1 {
                        assert(word_byte(w, 1) == byte_or_zero(bytes@, i));
                    } else if s == 2 {
                        assert(word_byte(w, 2) == byte_or_zero(bytes@, i));
                    } else if s == 3 {
                        assert(word_byte(w, 3) == byte_or_zero(bytes@, i));
                    } else if s == 4 {
                        assert(word_byte(w, 4) == byte_or_zero(bytes@, i));
                    } else if s == 5 {
                        assert(word_byte(w, 5) == byte_or_zero(bytes@, i));
                    } else if s == 6 {
                        assert(word_byte(w, 6) == byte_or_zero(bytes@, i));
                    } else {
                        assert(word_byte(w, 7) == byte_or_zero(bytes@, i));
                    }
                }
            }
        }
        r = r + 1;
    }
    Ok(regs)
}

/// Reads the first `len` bytes back out of a register image.
///
/// Returns the bytes when `regs` spans the budgeted register count and `len`
/// is within the budget; the matching protocol error otherwise.
pub fn decode(regs: &Vec<u64>, len: usize) -> (r: Result<Vec<u8>, ProtocolError>)
    ensures
        regs@.len() == PAYLOAD_REGISTER_COUNT && len <= PAYLOAD_BYTE_BUDGET ==> (r matches Ok(out)
            && out@ == decoded_bytes(regs@, len as int)),
        regs@.len() != PAYLOAD_REGISTER_COUNT ==> r == Err::<Vec<u8>, ProtocolError>(
            ProtocolError::RegisterCountMismatch,
        ),
        regs@.len() == PAYLOAD_REGISTER_COUNT && len > PAYLOAD_BYTE_BUDGET ==> r == Err::<
            Vec<u8>,
            ProtocolError,
        >(ProtocolError::PayloadTooLarge),
{
    if regs.len() != PAYLOAD_REGISTER_COUNT {
        return Err(ProtocolError::RegisterCountMismatch);
    }
    if len > PAYLOAD_BYTE_BUDGET {
        return Err(ProtocolError::PayloadTooLarge);
    }
    let mut out: Vec<u8> = Vec::new();
    let mut i: usize = 0;
    while i < len
        invariant
            i <= len,
            len <= PAYLOAD_BYTE_BUDGET,
            regs@.len() == PAYLOAD_REGISTER_COUNT,
            out@.len() == i,
            forall|j: int| 0 <= j < i ==> out@[j] == register_byte(regs@, j),
        decreases len - i,
    {
        proof {
            assert(i / 8 < PAYLOAD_REGISTER_COUNT as int) by (nonlinear_arith)
                requires
                    0 <= i < PAYLOAD_BYTE_BUDGET as int,
                    PAYLOAD_BYTE_BUDGET == PAYLOAD_REGISTER_COUNT * 8,
            ;
        }
        let sh: u64 = (8 * (i % 8)) as u64;
        let b: u8 = ((regs[i / 8] >> sh) & 0xff) as u8;
        out.push(b);
        i = i + 1;
    }
    proof {
        assert(out@ =~= decoded_bytes(regs@, len as int));
    }
    Ok(out)
}

/// Round trip: reading a packed register image back yields the payload
/// unchanged, for every payload within the register budget.
pub proof fn lemma_codec_round_trip(bytes: Seq<u8>, regs: Seq<u64>)
    requires
        bytes.len() <= PAYLOAD_BYTE_BUDGET,
        encodes(bytes, regs),
    ensures
        decoded_bytes(regs, bytes.len() as int) == bytes,
{
    assert(decoded_bytes(regs, bytes.len() as int) =~= bytes);
}

/// Reads the 64-bit word held by payload bytes `8r .. 8r+8`.
pub fn read_word(bytes: &Vec<u8>, r: usize) -> (w: u64)
    requires
        r < PAYLOAD_REGISTER_COUNT,
    ensures
        w == word_at(bytes@, r as int),
{
    let base: usize = 8 * r;
    (byte_at_or_zero(bytes, base) as u64) | ((byte_at_or_zero(bytes, base + 1) as u64) << 8u64) | ((
    byte_at_or_zero(bytes, base + 2) as u64) << 16u64) | ((byte_at_or_zero(bytes, base + 3) as u64)
        << 24u64) | ((byte_at_or_zero(bytes, base + 4) as u64) << 32u64) | ((byte_at_or_zero(
        bytes,
        base + 5,
    ) as u64) << 40u64) | ((byte_at_or_zero(bytes, base + 6) as u64) << 48u64) | ((byte_at_or_zero(
        bytes,
        base + 7,
    ) as u64) << 56u64)
}

/// Splits a 64-bit word into its eight bytes, least significant first.
pub fn word_to_bytes(w: u64) -> (r: Vec<u8>)
    ensures
        r@ == word_bytes(w),
{
    let mut out: Vec<u8> = Vec::new();
    let mut j: usize = 0;
    while j < 8
        invariant
            j <= 8,
            out@.len() == j,
            forall|k: int| 0 <= k < j ==> out@[k] == word_byte(w, k),
        decreases 8 - j,
    {
        let sh: u64 = (8 * j) as u64;
        out.push(((w >> sh) & 0xff) as u8);
        j = j + 1;
    }
    proof {
        assert(out@ =~= word_bytes(w));
    }
    out
}

/// A word survives the split into bytes and the packing back into a word.
pub proof fn lemma_word_round_trip(w: u64)
    ensures
        word_at(word_bytes(w), 0) == w,
{
    assert((word_byte(w, 0) as u64) | ((word_byte(w, 1) as u64) << 8u64) | ((word_byte(
        w,
        2,
    ) as u64) << 16u64) | ((word_byte(w, 3) as u64) << 24u64) | ((word_byte(w, 4) as u64)
        << 32u64) | ((word_byte(w, 5) as u64) << 40u64) | ((word_byte(w, 6) as u64) << 48u64) | ((
    word_byte(w, 7) as u64) << 56u64) == w) by (bit_vector);
}

/// Reassembles a 128-bit value split little-endian across two consecutive
/// registers: the most significant half sits in the higher-indexed register.
pub fn combine_registers(low: u64, high: u64) -> (r: u128)
    ensures
        r == ((high as u128) << 64u128) | (low as u128),
        r == (high as u128) * 0x1_0000_0000_0000_0000 + (low as u128),
{
    let r: u128 = ((high as u128) << 64u128) | (low as u128);
    proof {
        assert(((high as u128) << 64u128) | (low as u128) == (high as u128)
            * 0x1_0000_0000_0000_0000 + (low as u128)) by (bit_vector);
    }
    r
}

} // verus!
