//! Framing: how messages are delimited in the byte stream.
//!
//! A message travels as its length, a little-endian `u64`, and then its
//! bytes. A request on the control connection has its opcode, a
//! little-endian `u32`, in front of that.

use crate::endian::{
    le_bytes, le_read_u32, le_read_u64, le_value, le_write_u32, le_write_u64, lemma_le_bytes_len,
    lemma_le_value_of_bytes, lemma_pow256_values,
};
use crate::message::CMD;
use vstd::prelude::*;
use vstd::slice::{slice_subrange, slice_to_vec};

verus! {

/// Width of the length field.
pub const LENGTH_SIZE: usize = 8;

/// Width of the opcode field.
pub const OPCODE_SIZE: usize = 4;

/// A message with its length in front.
pub open spec fn framed(payload: Seq<u8>) -> Seq<u8> {
    le_bytes(payload.len(), 8) + payload
}

/// A request: opcode, length, payload.
pub open spec fn request(code: u32, payload: Seq<u8>) -> Seq<u8> {
    le_bytes(code as nat, 4) + framed(payload)
}

/// The length that the first eight bytes of `input` announce.
pub open spec fn announced(input: Seq<u8>) -> int
    recommends
        input.len() >= 8,
{
    le_value(input.subrange(0, 8)) as int
}

/// The first message of `input` and the number of bytes it takes up, once
/// `input` holds all of it.
pub open spec fn first_message(input: Seq<u8>) -> Option<(Seq<u8>, int)> {
    if input.len() >= 8 && 8 + announced(input) <= input.len() {
        Some((input.subrange(8, 8 + announced(input)), 8 + announced(input)))
    } else {
        None
    }
}

/// The first request of `input`, as opcode and payload, and the number of
/// bytes it takes up, once `input` holds all of it.
pub open spec fn first_request(input: Seq<u8>) -> Option<(u32, Seq<u8>, int)> {
    if input.len() >= 4 {
        match first_message(input.skip(4)) {
            Some((payload, used)) => Some(
                (le_value(input.subrange(0, 4)) as u32, payload, 4 + used),
            ),
            None => None,
        }
    } else {
        None
    }
}

/// The length that the first eight bytes of `header` announce, once they
/// are there.
pub fn announced_length(header: &[u8]) -> (r: Option<u64>)
    ensures
        header@.len() < 8 ==> r.is_none(),
        header@.len() >= 8 ==> r == Some(announced(header@) as u64) && r.unwrap() == announced(
            header@,
        ),
{
    if header.len() < LENGTH_SIZE {
        None
    } else {
        Some(le_read_u64(header))
    }
}

/// The opcode and the payload length that the first twelve bytes of
/// `header` announce, once they are there.
pub fn request_header(header: &[u8]) -> (r: Option<(u32, u64)>)
    ensures
        header@.len() < 12 ==> r.is_none(),
        header@.len() >= 12 ==> r.is_some() && r.unwrap().0 == le_value(header@.subrange(0, 4))
            && r.unwrap().1 == announced(header@.skip(4)),
{
    if header.len() < OPCODE_SIZE + LENGTH_SIZE {
        None
    } else {
        let code = le_read_u32(header);
        let rest = slice_subrange(header, OPCODE_SIZE, header.len());
        assert(rest@ =~= header@.skip(4));
        Some((code, le_read_u64(rest)))
    }
}

/// Appends `buff` to `out` as one message.
pub fn write_msg_buffer(out: &mut Vec<u8>, buff: &[u8])
    ensures
        final(out)@ == old(out)@ + framed(buff@),
{
    let ghost before = out@;
    let length = le_write_u64(buff.len() as u64);
    out.extend_from_slice(length.as_slice());
    out.extend_from_slice(buff);
    proof {
        lemma_le_bytes_len(buff@.len(), 8);
        assert(out@ =~= before + framed(buff@));
    }
}

/// Takes the first message off `input`.
///
/// Gives the payload and the number of bytes used, or `None` as long as
/// `input` does not hold the whole message.
pub fn read_msg_buffer(input: &[u8]) -> (r: Option<(Vec<u8>, usize)>)
    ensures
        match r {
            Some((payload, used)) => first_message(input@) == Some((payload@, used as int)),
            None => first_message(input@).is_none(),
        },
{
    if input.len() < LENGTH_SIZE {
        return None;
    }
    let msg_size = le_read_u64(input);
    if msg_size > (input.len() - LENGTH_SIZE) as u64 {
        return None;
    }
    let end = LENGTH_SIZE + msg_size as usize;
    let payload = slice_to_vec(slice_subrange(input, LENGTH_SIZE, end));
    Some((payload, end))
}

/// A request with opcode and length in front of `payload`.
pub fn write_request(cmd: CMD, payload: &[u8]) -> (r: Vec<u8>)
    ensures
        r@ == request(cmd.code(), payload@),
{
    let mut out = le_write_u32(cmd.to_u32());
    proof {
        lemma_le_bytes_len(cmd.code() as nat, 4);
    }
    write_msg_buffer(&mut out, payload);
    out
}

/// Takes the first request off `input`.
///
/// Gives the opcode, the payload and the number of bytes used, or `None` as
/// long as `input` does not hold the whole request.
pub fn read_request(input: &[u8]) -> (r: Option<(u32, Vec<u8>, usize)>)
    ensures
        match r {
            Some((code, payload, used)) => first_request(input@) == Some(
                (code, payload@, used as int),
            ),
            None => first_request(input@).is_none(),
        },
{
    if input.len() < OPCODE_SIZE {
        return None;
    }
    let code = le_read_u32(input);
    let rest = slice_subrange(input, OPCODE_SIZE, input.len());
    assert(rest@ =~= input@.skip(4));
    match read_msg_buffer(rest) {
        Some((payload, used)) => Some((code, payload, OPCODE_SIZE + used)),
        None => None,
    }
}

/// Protocol framing: the length field of a message is the exact length of
/// the payload behind it, and a message followed by anything is read back as
/// its payload, using up the length field and the payload and no more.
pub proof fn lemma_frame_round_trip(payload: Seq<u8>, rest: Seq<u8>)
    requires
        payload.len() <= u64::MAX,
    ensures
        framed(payload).len() == 8 + payload.len(),
        announced(framed(payload) + rest) == payload.len(),
        first_message(framed(payload) + rest) == Some((payload, 8 + payload.len() as int)),
{
    let input = framed(payload) + rest;
    lemma_le_bytes_len(payload.len(), 8);
    lemma_pow256_values();
    lemma_le_value_of_bytes(payload.len(), 8);
    assert(input.subrange(0, 8) =~= le_bytes(payload.len(), 8));
    assert(input.subrange(8, 8 + payload.len() as int) =~= payload);
}

/// A request followed by anything is read back as its opcode and payload.
pub proof fn lemma_request_round_trip(code: u32, payload: Seq<u8>, rest: Seq<u8>)
    requires
        payload.len() <= u64::MAX,
    ensures
        request(code, payload).len() == 12 + payload.len(),
        first_request(request(code, payload) + rest) == Some(
            (code, payload, 12 + payload.len() as int),
        ),
{
    let input = request(code, payload) + rest;
    lemma_le_bytes_len(code as nat, 4);
    lemma_pow256_values();
    lemma_le_value_of_bytes(code as nat, 4);
    lemma_frame_round_trip(payload, rest);
    assert(input.subrange(0, 4) =~= le_bytes(code as nat, 4));
    assert(input.skip(4) =~= framed(payload) + rest);
}

} // verus!
