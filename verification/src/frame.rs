//! The response frame and its checksum.
//!
//! A frame is laid out as
//!
//! ```text
//! 0x84 0xF0 0x10 | 0x61 | request | payload (1 or 2 bytes) | checksum
//! ```
//!
//! The checksum is the sum of every byte before it, kept to its low eight
//! bits. It is a plain wrapping sum, neither a CRC nor a complement.

use vstd::prelude::*;
use crate::error::Error;

verus! {

/// First header byte of every frame.
pub const HEADER_FORMAT: u8 = 0x84;

/// Second header byte: the address of the tester the frame is sent to.
pub const HEADER_TARGET: u8 = 0xF0;

/// Third header byte: the address of the unit that answers.
pub const HEADER_SOURCE: u8 = 0x10;

/// Marks the frame as a positive answer; follows the header in every frame.
pub const SERVICE_ECHO: u8 = 0x61;

/// The sum of `bytes` as a mathematical integer.
pub open spec fn byte_sum(bytes: Seq<u8>) -> int
    decreases bytes.len(),
{
    if bytes.len() == 0 {
        0
    } else {
        byte_sum(bytes.drop_last()) + bytes.last()
    }
}

/// The checksum of `bytes`: their sum modulo 256.
pub open spec fn checksum(bytes: Seq<u8>) -> u8 {
    (byte_sum(bytes) % 256) as u8
}

/// Whether a payload of `len` bytes fits a frame.
pub open spec fn valid_payload_len(len: nat) -> bool {
    len == 1 || len == 2
}

/// Everything the checksum covers: header, service echo, request byte and
/// the payload in the order given.
pub open spec fn frame_body(request: u8, payload: Seq<u8>) -> Seq<u8> {
    seq![HEADER_FORMAT, HEADER_TARGET, HEADER_SOURCE, SERVICE_ECHO, request] + payload
}

/// The complete frame for `request` and `payload`.
pub open spec fn frame_bytes(request: u8, payload: Seq<u8>) -> Seq<u8> {
    frame_body(request, payload).push(checksum(frame_body(request, payload)))
}

/// What makes a byte sequence a response frame, whatever built it.
pub open spec fn is_response_frame(frame: Seq<u8>) -> bool {
    &&& frame.len() == 7 || frame.len() == 8
    &&& frame[0] == HEADER_FORMAT
    &&& frame[1] == HEADER_TARGET
    &&& frame[2] == HEADER_SOURCE
    &&& frame[3] == SERVICE_ECHO
    &&& frame.last() == checksum(frame.drop_last())
}

/// The two bytes of `value`, most significant first.
pub open spec fn be_bytes(value: u16) -> Seq<u8> {
    seq![(value / 256) as u8, (value % 256) as u8]
}

/// The sum of two sequences laid end to end is the sum of their sums.
pub proof fn lemma_byte_sum_concat(front: Seq<u8>, back: Seq<u8>)
    ensures
        byte_sum(front + back) == byte_sum(front) + byte_sum(back),
    decreases back.len(),
{
    if back.len() == 0 {
        assert(front + back =~= front);
    } else {
        lemma_byte_sum_concat(front, back.drop_last());
        assert((front + back).drop_last() =~= front + back.drop_last());
    }
}

/// The sum of the covered part of a frame is the sum of its constants, the
/// request byte and the payload.
pub proof fn lemma_frame_body_sum(request: u8, payload: Seq<u8>)
    ensures
        byte_sum(frame_body(request, payload)) == 0x84 + 0xF0 + 0x10 + 0x61 + request + byte_sum(
            payload,
        ),
{
    let head = seq![HEADER_FORMAT, HEADER_TARGET, HEADER_SOURCE, SERVICE_ECHO, request];
    lemma_byte_sum_concat(head, payload);
    assert(byte_sum(head) == 0x84 + 0xF0 + 0x10 + 0x61 + request) by {
        reveal_with_fuel(byte_sum, 6);
    }
}

/// With a one-byte payload the frame has seven bytes and ends in
/// `(0x84 + 0xF0 + 0x10 + 0x61 + request + value) mod 256`.
pub proof fn lemma_checksum_one_byte(request: u8, value: u8)
    ensures
        frame_bytes(request, seq![value]).len() == 7,
        frame_bytes(request, seq![value]).last() == (0x84 + 0xF0 + 0x10 + 0x61 + request + value)
            % 256,
        frame_bytes(request, seq![value]) == seq![
            0x84u8,
            0xF0u8,
            0x10u8,
            0x61u8,
            request,
            value,
            ((0x84 + 0xF0 + 0x10 + 0x61 + request + value) % 256) as u8,
        ],
{
    lemma_frame_body_sum(request, seq![value]);
    assert(byte_sum(seq![value]) == value) by {
        reveal_with_fuel(byte_sum, 2);
    }
}

/// With a two-byte payload the frame has eight bytes and ends in
/// `(0x84 + 0xF0 + 0x10 + 0x61 + request + hi + lo) mod 256`.
pub proof fn lemma_checksum_two_bytes(request: u8, hi: u8, lo: u8)
    ensures
        frame_bytes(request, seq![hi, lo]).len() == 8,
        frame_bytes(request, seq![hi, lo]).last() == (0x84 + 0xF0 + 0x10 + 0x61 + request + hi
            + lo) % 256,
        frame_bytes(request, seq![hi, lo]) == seq![
            0x84u8,
            0xF0u8,
            0x10u8,
            0x61u8,
            request,
            hi,
            lo,
            ((0x84 + 0xF0 + 0x10 + 0x61 + request + hi + lo) % 256) as u8,
        ],
{
    lemma_frame_body_sum(request, seq![hi, lo]);
    assert(byte_sum(seq![hi, lo]) == hi + lo) by {
        reveal_with_fuel(byte_sum, 3);
    }
}

/// Every frame built for a payload of one or two bytes is a response frame.
pub proof fn lemma_frame_is_response_frame(request: u8, payload: Seq<u8>)
    requires
        valid_payload_len(payload.len()),
    ensures
        is_response_frame(frame_bytes(request, payload)),
        frame_bytes(request, payload).len() == 6 + payload.len(),
        frame_bytes(request, payload)[4] == request,
        frame_bytes(request, payload).subrange(5, 5 + payload.len() as int) == payload,
{
    let body = frame_body(request, payload);
    assert(frame_bytes(request, payload).drop_last() =~= body);
}

/// The 8-bit wrapping sum of `bytes`.
pub fn checksum_of(bytes: &[u8]) -> (sum: u8)
    ensures
        sum == checksum(bytes@),
{
    let mut sum: u8 = 0;
    let mut i: usize = 0;
    while i < bytes.len()
        invariant
            i <= bytes@.len(),
            sum == checksum(bytes@.take(i as int)),
        decreases bytes@.len() - i,
    {
        proof {
            assert(bytes@.take(i + 1).drop_last() =~= bytes@.take(i as int));
        }
        sum = sum.wrapping_add(bytes[i]);
        i += 1;
    }
    proof {
        assert(bytes@.take(i as int) =~= bytes@);
    }
    sum
}

/// Splits `value` into its two bytes, most significant first.
pub fn u16_be_bytes(value: u16) -> (bytes: [u8; 2])
    ensures
        bytes@ == be_bytes(value),
{
    let hi: u8 = (value / 256) as u8;
    let lo: u8 = (value % 256) as u8;
    [hi, lo]
}

/// Builds the frame that answers `request` with the payload `val`.
///
/// The payload must be one or two bytes long; [`generate_frame`] is the entry
/// point that tests the length itself.
pub fn generate_kwp_response(request: u8, val: &[u8]) -> (frame: Vec<u8>)
    requires
        valid_payload_len(val@.len()),
    ensures
        frame@ == frame_bytes(request, val@),
        is_response_frame(frame@),
        frame@.len() == 6 + val@.len(),
        frame@.last() == (0x84 + 0xF0 + 0x10 + 0x61 + request + byte_sum(val@)) % 256,
{
    let mut response: Vec<u8> = Vec::new();
    response.push(HEADER_FORMAT);
    response.push(HEADER_TARGET);
    response.push(HEADER_SOURCE);
    response.push(SERVICE_ECHO);
    response.push(request);
    response.extend_from_slice(val);
    proof {
        assert(response@ =~= frame_body(request, val@));
    }
    let sum: u8 = checksum_of(response.as_slice());
    response.push(sum);
    proof {
        lemma_frame_body_sum(request, val@);
        lemma_frame_is_response_frame(request, val@);
    }
    response
}

/// Builds the frame that answers `request` with `payload`, or refuses a
/// payload that is not one or two bytes long.
pub fn generate_frame(request: u8, payload: &[u8]) -> (result: Result<Vec<u8>, Error>)
    ensures
        valid_payload_len(payload@.len()) ==> (result matches Ok(frame) && frame@ == frame_bytes(
            request,
            payload@,
        ) && is_response_frame(frame@)),
        !valid_payload_len(payload@.len()) ==> result == Err::<Vec<u8>, Error>(
            Error::InvalidPayloadLength,
        ),
{
    let len: usize = payload.len();
    if len == 1 || len == 2 {
        Ok(generate_kwp_response(request, payload))
    } else {
        Err(Error::InvalidPayloadLength)
    }
}

} // verus!
