//! The CBOR items that the wire messages are made of.
//!
//! Every item starts with a head: an initial byte that holds the major type
//! in its three high bits and, in its five low bits, either a small argument
//! or the width of the big-endian argument that follows.

use crate::endian::{be_bytes, be_value};
use vstd::prelude::*;
use vstd::utf8::{encode_utf8, valid_utf8};

verus! {

/// Initial byte of the smallest unsigned integer.
pub const UINT: u8 = 0x00;

/// Initial byte of the empty byte string.
pub const BYTES: u8 = 0x40;

/// Initial byte of the empty text string.
pub const TEXT: u8 = 0x60;

/// Initial byte of the empty array.
pub const ARRAY: u8 = 0x80;

/// Initial byte of an array of indefinite length.
pub const ARRAY_INDEFINITE: u8 = 0x9f;

/// The item `false`.
pub const FALSE: u8 = 0xf4;

/// The item `true`.
pub const TRUE: u8 = 0xf5;

/// The shortest head of major type `major` with argument `v`.
pub open spec fn head(major: u8, v: u64) -> Seq<u8>
    recommends
        major <= 0xe0,
{
    if v < 24 {
        seq![(major + v) as u8]
    } else if v <= 0xff {
        seq![(major + 24) as u8] + be_bytes(v as nat, 1)
    } else if v <= 0xffff {
        seq![(major + 25) as u8] + be_bytes(v as nat, 2)
    } else if v <= 0xffff_ffff {
        seq![(major + 26) as u8] + be_bytes(v as nat, 4)
    } else {
        seq![(major + 27) as u8] + be_bytes(v as nat, 8)
    }
}

/// Number of argument bytes that follow an initial byte whose low bits are
/// `info`.
pub open spec fn arg_width(info: int) -> int {
    if info < 24 {
        0
    } else if info == 24 {
        1
    } else if info == 25 {
        2
    } else if info == 26 {
        4
    } else {
        8
    }
}

/// The argument and the end of the head of major type `major` that starts
/// at `pos`, in any of the five widths; `None` where no such head is there.
pub open spec fn head_at(bytes: Seq<u8>, pos: int, major: u8) -> Option<(u64, int)>
    recommends
        major <= 0xe0,
{
    if 0 <= pos < bytes.len() && major <= bytes[pos] <= major + 27 {
        let info = bytes[pos] - major;
        let end = pos + 1 + arg_width(info);
        if info < 24 {
            Some((info as u64, end))
        } else if end <= bytes.len() {
            Some((be_value(bytes.subrange(pos + 1, end)) as u64, end))
        } else {
            None
        }
    } else {
        None
    }
}

/// The unsigned integer at `pos` and the position behind it.
pub open spec fn uint_at(bytes: Seq<u8>, pos: int) -> Option<(u64, int)> {
    head_at(bytes, pos, UINT)
}

/// The array header at `pos`: the number of items, or `None` for an array of
/// indefinite length, and the position of the first item.
pub open spec fn array_at(bytes: Seq<u8>, pos: int) -> Option<(Option<u64>, int)> {
    if 0 <= pos < bytes.len() && bytes[pos] == ARRAY_INDEFINITE {
        Some((None, pos + 1))
    } else {
        match head_at(bytes, pos, ARRAY) {
            Some((n, end)) => Some((Some(n), end)),
            None => None,
        }
    }
}

/// The byte string at `pos` and the position behind it.
pub open spec fn bytes_at(bytes: Seq<u8>, pos: int) -> Option<(Seq<u8>, int)> {
    match head_at(bytes, pos, BYTES) {
        Some((n, start)) => if start + n <= bytes.len() {
            Some((bytes.subrange(start, start + n), start + n))
        } else {
            None
        },
        None => None,
    }
}

/// The UTF-8 bytes of the text string at `pos` and the position behind it.
pub open spec fn text_at(bytes: Seq<u8>, pos: int) -> Option<(Seq<u8>, int)> {
    match head_at(bytes, pos, TEXT) {
        Some((n, start)) => if start + n <= bytes.len() && valid_utf8(
            bytes.subrange(start, start + n),
        ) {
            Some((bytes.subrange(start, start + n), start + n))
        } else {
            None
        },
        None => None,
    }
}

/// The boolean at `pos` and the position behind it.
pub open spec fn bool_at(bytes: Seq<u8>, pos: int) -> Option<(bool, int)> {
    if 0 <= pos < bytes.len() && bytes[pos] == FALSE {
        Some((false, pos + 1))
    } else if 0 <= pos < bytes.len() && bytes[pos] == TRUE {
        Some((true, pos + 1))
    } else {
        None
    }
}

/// A byte string as an item.
pub open spec fn bytes_item(b: Seq<u8>) -> Seq<u8> {
    head(BYTES, b.len() as u64) + b
}

/// A text string as an item.
pub open spec fn text_item(s: Seq<char>) -> Seq<u8> {
    head(TEXT, encode_utf8(s).len() as u64) + encode_utf8(s)
}

/// A boolean as an item.
pub open spec fn bool_item(b: bool) -> Seq<u8> {
    if b {
        seq![TRUE]
    } else {
        seq![FALSE]
    }
}

/// Appends the unsigned integer `v` in its shortest form.
///
/// Calls `minicbor::Encoder::u64` on an encoder over `buf`. The contract
/// claims the head that the method writes: the value itself below 24, else
/// `0x18`, `0x19`, `0x1a` or `0x1b` and the value in 1, 2, 4 or 8 big-endian
/// bytes, whichever is the first to hold it.
#[verifier::external_body]
pub(crate) fn put_uint(buf: &mut Vec<u8>, v: u64)
    ensures
        final(buf)@ == old(buf)@ + head(UINT, v),
{
    let _ = minicbor::Encoder::new(buf).u64(v);
}

/// Appends the header of an array of `len` items.
///
/// Calls `minicbor::Encoder::array`. The contract claims the head of major
/// type 4 with `len` as its argument, in the shortest form.
#[verifier::external_body]
pub(crate) fn put_array(buf: &mut Vec<u8>, len: u64)
    ensures
        final(buf)@ == old(buf)@ + head(ARRAY, len),
{
    let _ = minicbor::Encoder::new(buf).array(len);
}

/// Appends `x` as a byte string.
///
/// Calls `minicbor::Encoder::bytes`. The contract claims the head of major
/// type 2 with the length of `x` as its argument, followed by `x`.
#[verifier::external_body]
pub(crate) fn put_bytes(buf: &mut Vec<u8>, x: &[u8])
    ensures
        final(buf)@ == old(buf)@ + bytes_item(x@),
{
    let _ = minicbor::Encoder::new(buf).bytes(x);
}

/// Appends `s` as a text string.
///
/// Calls `minicbor::Encoder::str`. The contract claims the head of major
/// type 3 with the length of the UTF-8 form of `s` as its argument, followed
/// by that form.
#[verifier::external_body]
pub(crate) fn put_text(buf: &mut Vec<u8>, s: &str)
    ensures
        final(buf)@ == old(buf)@ + text_item(s@),
{
    let _ = minicbor::Encoder::new(buf).str(s);
}

/// Appends a boolean.
///
/// Calls `minicbor::Encoder::bool`. The contract claims the single byte
/// `0xf5` for `true` and `0xf4` for `false`.
#[verifier::external_body]
pub(crate) fn put_bool(buf: &mut Vec<u8>, b: bool)
    ensures
        final(buf)@ == old(buf)@ + bool_item(b),
{
    let _ = minicbor::Encoder::new(buf).bool(b);
}

/// Reads an unsigned integer at `pos`.
///
/// Calls `minicbor::Decoder::u64` on a decoder placed at `pos`, and
/// `position` after it. The contract claims that the method accepts an
/// initial byte up to `0x1b` with its argument in full, in any of the five
/// widths, and fails on everything else, the end of the input included.
#[verifier::external_body]
pub(crate) fn take_uint(bytes: &[u8], pos: usize) -> (r: Option<(u64, usize)>)
    ensures
        match r {
            Some((v, end)) => uint_at(bytes@, pos as int) == Some((v, end as int)),
            None => uint_at(bytes@, pos as int).is_none(),
        },
{
    let mut d = minicbor::Decoder::new(bytes);
    d.set_position(pos);
    match d.u64() {
        Ok(v) => Some((v, d.position())),
        Err(_) => None,
    }
}

/// Reads an array header at `pos`.
///
/// Calls `minicbor::Decoder::array` on a decoder placed at `pos`, and
/// `position` after it. The contract claims that the method gives no length
/// for the initial byte `0x9f`, the argument of any other head of major
/// type 4, and fails on everything else.
#[verifier::external_body]
pub(crate) fn take_array(bytes: &[u8], pos: usize) -> (r: Option<(Option<u64>, usize)>)
    ensures
        match r {
            Some((n, end)) => array_at(bytes@, pos as int) == Some((n, end as int)),
            None => array_at(bytes@, pos as int).is_none(),
        },
{
    let mut d = minicbor::Decoder::new(bytes);
    d.set_position(pos);
    match d.array() {
        Ok(n) => Some((n, d.position())),
        Err(_) => None,
    }
}

/// Reads a byte string of definite length at `pos`.
///
/// Calls `minicbor::Decoder::bytes` on a decoder placed at `pos`, and
/// `position` after it. The contract claims that the method accepts a head
/// of major type 2 whose argument is a length that the input still holds,
/// gives those bytes, and fails on everything else.
#[verifier::external_body]
pub(crate) fn take_bytes(bytes: &[u8], pos: usize) -> (r: Option<(Vec<u8>, usize)>)
    ensures
        match r {
            Some((b, end)) => bytes_at(bytes@, pos as int) == Some((b@, end as int)),
            None => bytes_at(bytes@, pos as int).is_none(),
        },
{
    let mut d = minicbor::Decoder::new(bytes);
    d.set_position(pos);
    match d.bytes() {
        Ok(b) => Some((b.to_vec(), d.position())),
        Err(_) => None,
    }
}

/// Reads a text string of definite length at `pos`.
///
/// Calls `minicbor::Decoder::str` on a decoder placed at `pos`, and
/// `position` after it. The contract claims that the method accepts a head
/// of major type 3 whose argument is a length that the input still holds,
/// where those bytes are valid UTF-8, gives the string that they encode, and
/// fails on everything else.
#[verifier::external_body]
pub(crate) fn take_text(bytes: &[u8], pos: usize) -> (r: Option<(String, usize)>)
    ensures
        match r {
            Some((s, end)) => text_at(bytes@, pos as int) == Some((encode_utf8(s@), end as int)),
            None => text_at(bytes@, pos as int).is_none(),
        },
{
    let mut d = minicbor::Decoder::new(bytes);
    d.set_position(pos);
    match d.str() {
        Ok(s) => Some((s.to_string(), d.position())),
        Err(_) => None,
    }
}

/// Reads a boolean at `pos`.
///
/// Calls `minicbor::Decoder::bool` on a decoder placed at `pos`, and
/// `position` after it. The contract claims that the method accepts the
/// bytes `0xf4` and `0xf5` and fails on everything else.
#[verifier::external_body]
pub(crate) fn take_bool(bytes: &[u8], pos: usize) -> (r: Option<(bool, usize)>)
    ensures
        match r {
            Some((b, end)) => bool_at(bytes@, pos as int) == Some((b, end as int)),
            None => bool_at(bytes@, pos as int).is_none(),
        },
{
    let mut d = minicbor::Decoder::new(bytes);
    d.set_position(pos);
    match d.bool() {
        Ok(b) => Some((b, d.position())),
        Err(_) => None,
    }
}

/// The items of a list of unsigned integers, one after the other.
pub open spec fn uint_items(l: Seq<u64>) -> Seq<u8>
    decreases l.len(),
{
    if l.len() == 0 {
        Seq::<u8>::empty()
    } else {
        uint_items(l.drop_last()) + head(UINT, l.last())
    }
}

/// A list of unsigned integers as an array.
pub open spec fn uint_array(l: Seq<u64>) -> Seq<u8> {
    head(ARRAY, l.len() as u64) + uint_items(l)
}

/// The `n` unsigned integers that start at `pos`, and the position behind
/// the last.
pub open spec fn uints_at(bytes: Seq<u8>, pos: int, n: nat) -> Option<(Seq<u64>, int)>
    decreases n,
{
    if n == 0 {
        Some((Seq::<u64>::empty(), pos))
    } else {
        match uints_at(bytes, pos, (n - 1) as nat) {
            Some((front, mid)) => match uint_at(bytes, mid) {
                Some((v, end)) => Some((front.push(v), end)),
                None => None,
            },
            None => None,
        }
    }
}

/// The array of unsigned integers at `pos`, of definite length, and the
/// position behind it.
pub open spec fn uint_array_at(bytes: Seq<u8>, pos: int) -> Option<(Seq<u64>, int)> {
    match array_at(bytes, pos) {
        Some((Some(n), start)) => uints_at(bytes, start, n as nat),
        _ => None,
    }
}

/// Appends a list of unsigned integers as an array.
pub fn put_uint_array(buf: &mut Vec<u8>, l: &Vec<u64>)
    ensures
        final(buf)@ == old(buf)@ + uint_array(l@),
{
    let ghost before = buf@;
    put_array(buf, l.len() as u64);
    let mut i: usize = 0;
    while i < l.len()
        invariant
            i <= l@.len(),
            buf@ == before + head(ARRAY, l@.len() as u64) + uint_items(l@.take(i as int)),
        decreases l@.len() - i,
    {
        put_uint(buf, l[i]);
        proof {
            assert(l@.take(i + 1).drop_last() =~= l@.take(i as int));
            assert(buf@ =~= before + head(ARRAY, l@.len() as u64) + uint_items(l@.take(i + 1)));
        }
        i = i + 1;
    }
    proof {
        assert(l@.take(i as int) =~= l@);
        assert(buf@ =~= before + uint_array(l@));
    }
}

/// Where the first `i` integers cannot be read, no more of them can.
pub proof fn lemma_uints_at_none(bytes: Seq<u8>, pos: int, i: nat, n: nat)
    requires
        i <= n,
        uints_at(bytes, pos, i).is_none(),
    ensures
        uints_at(bytes, pos, n).is_none(),
    decreases n,
{
    if i < n {
        lemma_uints_at_none(bytes, pos, i, (n - 1) as nat);
    }
}

/// Reads an array of unsigned integers at `pos`.
///
/// Succeeds exactly on an array header of definite length followed by that
/// many unsigned integers.
pub fn take_uint_array(bytes: &[u8], pos: usize) -> (r: Option<(Vec<u64>, usize)>)
    ensures
        match r {
            Some((l, end)) => uint_array_at(bytes@, pos as int) == Some((l@, end as int)),
            None => uint_array_at(bytes@, pos as int).is_none(),
        },
{
    let (n, start) = match take_array(bytes, pos) {
        Some((Some(n), start)) => (n, start),
        _ => {
            return None;
        },
    };
    let mut out: Vec<u64> = Vec::new();
    let mut cur: usize = start;
    let mut i: u64 = 0;
    while i < n
        invariant
            i <= n,
            array_at(bytes@, pos as int) == Some((Some(n), start as int)),
            uints_at(bytes@, start as int, i as nat) == Some((out@, cur as int)),
        decreases n - i,
    {
        match take_uint(bytes, cur) {
            Some((v, end)) => {
                out.push(v);
                cur = end;
            },
            None => {
                proof {
                    lemma_uints_at_none(bytes@, start as int, (i + 1) as nat, n as nat);
                }
                return None;
            },
        }
        i = i + 1;
    }
    Some((out, cur))
}

} // verus!
