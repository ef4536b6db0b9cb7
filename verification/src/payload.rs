//! The fixed binary payload of an inbound settlement message.
//!
//! The payload is three 32-byte words, big-endian:
//!
//! | bytes     | content                                             |
//! |-----------|-----------------------------------------------------|
//! | `0..32`   | the payment identifier                              |
//! | `32..64`  | the amount as a 32-byte integer; its low 8 bytes,   |
//! |           | `56..64`, are the amount, the rest is not read      |
//! | `64..96`  | the receiver                                        |
//!
//! Bytes after the first 96 are not read.

use vstd::prelude::*;
use crate::errors::PayChainError;

verus! {

/// Length of the fixed layout.
pub const PAYLOAD_BYTES: usize = 96;

/// What a payload says: release `amount` to `receiver` for `payment_id`.
#[derive(Clone, Copy, Debug)]
pub struct SettlementPayload {
    pub payment_id: [u8; 32],
    pub amount: u64,
    pub receiver: [u8; 32],
}

/// A payload as mathematics.
pub struct PayloadView {
    pub payment_id: Seq<u8>,
    pub amount: nat,
    pub receiver: Seq<u8>,
}

impl View for SettlementPayload {
    type V = PayloadView;

    open spec fn view(&self) -> PayloadView {
        PayloadView {
            payment_id: self.payment_id@,
            amount: self.amount as nat,
            receiver: self.receiver@,
        }
    }
}

/// The number that eight bytes spell, most significant byte first.
pub open spec fn be_u64(bytes: Seq<u8>) -> nat
    recommends
        bytes.len() == 8,
{
    (bytes[0] as nat) * 0x0100_0000_0000_0000 + (bytes[1] as nat) * 0x0001_0000_0000_0000 + (
    bytes[2] as nat) * 0x0000_0100_0000_0000 + (bytes[3] as nat) * 0x0000_0001_0000_0000 + (
    bytes[4] as nat) * 0x0000_0000_0100_0000 + (bytes[5] as nat) * 0x0000_0000_0001_0000 + (
    bytes[6] as nat) * 0x0000_0000_0000_0100 + (bytes[7] as nat)
}

/// The eight bytes that spell `amount`, most significant byte first.
pub open spec fn be_bytes(amount: u64) -> Seq<u8> {
    seq![
        (amount / 0x0100_0000_0000_0000) as u8,
        (amount / 0x0001_0000_0000_0000 % 256) as u8,
        (amount / 0x0000_0100_0000_0000 % 256) as u8,
        (amount / 0x0000_0001_0000_0000 % 256) as u8,
        (amount / 0x0000_0000_0100_0000 % 256) as u8,
        (amount / 0x0000_0000_0001_0000 % 256) as u8,
        (amount / 0x0000_0000_0000_0100 % 256) as u8,
        (amount % 256) as u8,
    ]
}

/// What a payload of at least 96 bytes says; a shorter one says nothing.
pub open spec fn decoded(data: Seq<u8>) -> Option<PayloadView> {
    if data.len() < PAYLOAD_BYTES {
        None
    } else {
        Some(
            PayloadView {
                payment_id: data.subrange(0, 32),
                amount: be_u64(data.subrange(56, 64)),
                receiver: data.subrange(64, 96),
            },
        )
    }
}

/// The 96 bytes that say `payload`.
pub open spec fn encoded(payload: PayloadView) -> Seq<u8> {
    payload.payment_id + Seq::new(24, |i: int| 0u8) + be_bytes(payload.amount as u64)
        + payload.receiver
}

/// Spelling a number and reading it back gives the number.
pub proof fn lemma_be_round_trip(amount: u64)
    ensures
        be_bytes(amount).len() == 8,
        be_u64(be_bytes(amount)) == amount,
{
    let b0: u64 = amount / 0x0100_0000_0000_0000;
    let b1: u64 = amount / 0x0001_0000_0000_0000 % 256;
    let b2: u64 = amount / 0x0000_0100_0000_0000 % 256;
    let b3: u64 = amount / 0x0000_0001_0000_0000 % 256;
    let b4: u64 = amount / 0x0000_0000_0100_0000 % 256;
    let b5: u64 = amount / 0x0000_0000_0001_0000 % 256;
    let b6: u64 = amount / 0x0000_0000_0000_0100 % 256;
    let b7: u64 = amount % 256;
    assert(b0 < 256 && b0 * 0x0100_0000_0000_0000 + b1 * 0x0001_0000_0000_0000 + b2
        * 0x0000_0100_0000_0000 + b3 * 0x0000_0001_0000_0000 + b4 * 0x0000_0000_0100_0000 + b5
        * 0x0000_0000_0001_0000 + b6 * 0x0000_0000_0000_0100 + b7 == amount) by (bit_vector)
        requires
            b0 == amount / 0x0100_0000_0000_0000,
            b1 == amount / 0x0001_0000_0000_0000 % 256,
            b2 == amount / 0x0000_0100_0000_0000 % 256,
            b3 == amount / 0x0000_0001_0000_0000 % 256,
            b4 == amount / 0x0000_0000_0100_0000 % 256,
            b5 == amount / 0x0000_0000_0001_0000 % 256,
            b6 == amount / 0x0000_0000_0000_0100 % 256,
            b7 == amount % 256,
    ;
    let b = be_bytes(amount);
    assert(b[0] == b0);
    assert(b[1] == b1);
    assert(b[2] == b2);
    assert(b[3] == b3);
    assert(b[4] == b4);
    assert(b[5] == b5);
    assert(b[6] == b6);
    assert(b[7] == b7);
}

/// Encoding a payment identifier, an amount and a receiver into the 96-byte
/// layout and decoding the bytes recovers all three exactly.
pub proof fn lemma_decode_encode(payload: SettlementPayload)
    ensures
        encoded(payload@).len() == PAYLOAD_BYTES,
        decoded(encoded(payload@)) == Some(payload@),
{
    let bytes = encoded(payload@);
    lemma_be_round_trip(payload.amount);
    assert(bytes.len() == 96);
    assert(bytes.subrange(0, 32) =~= payload.payment_id@);
    assert(bytes.subrange(56, 64) =~= be_bytes(payload.amount));
    assert(bytes.subrange(64, 96) =~= payload.receiver@);
}

/// Reads the eight bytes of `data` from `at` on as a big-endian number.
fn read_be_u64(data: &[u8], at: usize) -> (value: u64)
    requires
        at + 8 <= data@.len(),
    ensures
        value == be_u64(data@.subrange(at as int, at + 8)),
{
    let b0: u64 = data[at] as u64;
    let b1: u64 = data[at + 1] as u64;
    let b2: u64 = data[at + 2] as u64;
    let b3: u64 = data[at + 3] as u64;
    let b4: u64 = data[at + 4] as u64;
    let b5: u64 = data[at + 5] as u64;
    let b6: u64 = data[at + 6] as u64;
    let b7: u64 = data[at + 7] as u64;
    b0 * 0x0100_0000_0000_0000 + b1 * 0x0001_0000_0000_0000 + b2 * 0x0000_0100_0000_0000 + b3
        * 0x0000_0001_0000_0000 + b4 * 0x0000_0000_0100_0000 + b5 * 0x0000_0000_0001_0000 + b6
        * 0x0000_0000_0000_0100 + b7
}

/// Copies the 32 bytes of `data` from `at` on.
fn read_word(data: &[u8], at: usize) -> (word: [u8; 32])
    requires
        at + 32 <= data@.len(),
    ensures
        word@ == data@.subrange(at as int, at + 32),
{
    let len = data.len();
    let mut word: [u8; 32] = [0u8; 32];
    let mut i: usize = 0;
    while i < 32
        invariant
            i <= 32,
            len == data@.len(),
            at + 32 <= len,
            forall|j: int| 0 <= j < i ==> word@[j] == data@[at + j],
        decreases 32 - i,
    {
        word[i] = data[at + i];
        i += 1;
    }
    assert(word@ =~= data@.subrange(at as int, at + 32));
    word
}

/// Decodes a payload.
///
/// A payload shorter than 96 bytes is refused; of a longer one only the first
/// 96 bytes are read. The high 24 bytes of the amount word are not read.
pub fn decode(data: &[u8]) -> (result: Result<SettlementPayload, PayChainError>)
    ensures
        match decoded(data@) {
            Some(said) => result matches Ok(payload) && payload@ == said,
            None => result == Err::<SettlementPayload, PayChainError>(
                PayChainError::InvalidMessageData,
            ),
        },
{
    if data.len() < PAYLOAD_BYTES {
        return Err(PayChainError::InvalidMessageData);
    }
    let payment_id = read_word(data, 0);
    let amount = read_be_u64(data, 56);
    let receiver = read_word(data, 64);
    Ok(SettlementPayload { payment_id, amount, receiver })
}

/// Encodes a payload into exactly 96 bytes, with the high 24 bytes of the
/// amount word zero.
pub fn encode(payload: &SettlementPayload) -> (data: Vec<u8>)
    ensures
        data@ == encoded(payload@),
        data@.len() == PAYLOAD_BYTES,
        decoded(data@) == Some(payload@),
{
    let amount = payload.amount;
    let mut data: Vec<u8> = Vec::new();
    let mut i: usize = 0;
    while i < 32
        invariant
            i <= 32,
            data@ == payload.payment_id@.subrange(0, i as int),
        decreases 32 - i,
    {
        data.push(payload.payment_id[i]);
        assert(data@ =~= payload.payment_id@.subrange(0, i + 1));
        i += 1;
    }
    assert(data@ =~= payload.payment_id@);
    let mut k: usize = 0;
    while k < 24
        invariant
            k <= 24,
            data@ == payload.payment_id@ + Seq::new(k as nat, |i: int| 0u8),
        decreases 24 - k,
    {
        data.push(0u8);
        assert(data@ =~= payload.payment_id@ + Seq::new((k + 1) as nat, |i: int| 0u8));
        k += 1;
    }
    data.push((amount / 0x0100_0000_0000_0000) as u8);
    data.push((amount / 0x0001_0000_0000_0000 % 256) as u8);
    data.push((amount / 0x0000_0100_0000_0000 % 256) as u8);
    data.push((amount / 0x0000_0001_0000_0000 % 256) as u8);
    data.push((amount / 0x0000_0000_0100_0000 % 256) as u8);
    data.push((amount / 0x0000_0000_0001_0000 % 256) as u8);
    data.push((amount / 0x0000_0000_0000_0100 % 256) as u8);
    data.push((amount % 256) as u8);
    assert(data@ =~= payload.payment_id@ + Seq::new(24, |i: int| 0u8) + be_bytes(amount));
    let mut j: usize = 0;
    while j < 32
        invariant
            j <= 32,
            data@ == payload.payment_id@ + Seq::new(24, |i: int| 0u8) + be_bytes(amount)
                + payload.receiver@.subrange(0, j as int),
        decreases 32 - j,
    {
        data.push(payload.receiver[j]);
        assert(data@ =~= payload.payment_id@ + Seq::new(24, |i: int| 0u8) + be_bytes(amount)
            + payload.receiver@.subrange(0, j + 1));
        j += 1;
    }
    assert(payload.receiver@.subrange(0, 32) =~= payload.receiver@);
    proof {
        lemma_decode_encode(*payload);
    }
    data
}

} // verus!
