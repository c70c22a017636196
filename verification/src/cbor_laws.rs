//! Reading back what was written: each item, found at the position where it
//! was put, is read as the value it was made from.

use crate::cbor::{
    array_at, bool_at, bool_item, bytes_at, bytes_item, head, head_at, text_at, text_item,
    uint_array, uint_array_at, uint_at, uint_items, uints_at, ARRAY, BYTES, TEXT, UINT,
};
use crate::endian::{be_bytes, lemma_be_bytes_len, lemma_be_value_of_bytes, lemma_pow256_values};
use vstd::prelude::*;
use vstd::utf8::{encode_utf8, encode_utf8_valid_utf8};

verus! {

/// Whether `item` lies in `bytes` at `pos`.
pub open spec fn holds_at(bytes: Seq<u8>, pos: int, item: Seq<u8>) -> bool {
    0 <= pos && pos + item.len() <= bytes.len() && bytes.subrange(pos, pos + item.len()) == item
}

/// Where a sequence of two parts lies, each part lies.
pub proof fn lemma_holds_at_split(bytes: Seq<u8>, pos: int, a: Seq<u8>, b: Seq<u8>)
    requires
        holds_at(bytes, pos, a + b),
    ensures
        holds_at(bytes, pos, a),
        holds_at(bytes, pos + a.len(), b),
{
    let whole = bytes.subrange(pos, pos + (a + b).len());
    assert(bytes.subrange(pos, pos + a.len()) =~= whole.subrange(0, a.len() as int));
    assert(whole.subrange(0, a.len() as int) =~= a);
    assert(bytes.subrange(pos + a.len(), pos + a.len() + b.len()) =~= whole.subrange(
        a.len() as int,
        (a + b).len() as int,
    ));
    assert(whole.subrange(a.len() as int, (a + b).len() as int) =~= b);
}

/// A head takes between one and nine bytes.
pub proof fn lemma_head_len(major: u8, v: u64)
    ensures
        1 <= head(major, v).len() <= 9,
        v < 24 ==> head(major, v).len() == 1,
{
    lemma_be_bytes_len(v as nat, 1);
    lemma_be_bytes_len(v as nat, 2);
    lemma_be_bytes_len(v as nat, 4);
    lemma_be_bytes_len(v as nat, 8);
}

/// A head that was written is read as its argument.
pub proof fn lemma_head_at(bytes: Seq<u8>, pos: int, major: u8, v: u64)
    requires
        major <= 0xe0,
        holds_at(bytes, pos, head(major, v)),
    ensures
        head_at(bytes, pos, major) == Some((v, pos + head(major, v).len())),
        major <= bytes[pos] <= major + 27,
{
    let h = head(major, v);
    lemma_head_len(major, v);
    lemma_pow256_values();
    assert(bytes[pos] == bytes.subrange(pos, pos + h.len())[0]);
    let w: nat = if v < 24 {
        0
    } else if v <= 0xff {
        1
    } else if v <= 0xffff {
        2
    } else if v <= 0xffff_ffff {
        4
    } else {
        8
    };
    lemma_be_bytes_len(v as nat, w);
    if v >= 24 {
        assert(bytes.subrange(pos + 1, pos + 1 + w) =~= bytes.subrange(
            pos,
            pos + h.len(),
        ).subrange(1, 1 + w as int));
        assert(h.subrange(1, 1 + w as int) =~= be_bytes(v as nat, w));
        lemma_be_value_of_bytes(v as nat, w);
    }
}

/// An unsigned integer that was written is read as itself.
pub proof fn lemma_uint_at(bytes: Seq<u8>, pos: int, v: u64)
    requires
        holds_at(bytes, pos, head(UINT, v)),
    ensures
        uint_at(bytes, pos) == Some((v, pos + head(UINT, v).len())),
{
    lemma_head_at(bytes, pos, UINT, v);
}

/// An array header that was written is read as its length.
pub proof fn lemma_array_at(bytes: Seq<u8>, pos: int, n: u64)
    requires
        holds_at(bytes, pos, head(ARRAY, n)),
    ensures
        array_at(bytes, pos) == Some((Some(n), pos + head(ARRAY, n).len())),
{
    lemma_head_at(bytes, pos, ARRAY, n);
}

/// A byte string that was written is read as itself.
pub proof fn lemma_bytes_at(bytes: Seq<u8>, pos: int, b: Seq<u8>)
    requires
        b.len() <= u64::MAX,
        holds_at(bytes, pos, bytes_item(b)),
    ensures
        bytes_at(bytes, pos) == Some((b, pos + bytes_item(b).len())),
{
    let h = head(BYTES, b.len() as u64);
    lemma_holds_at_split(bytes, pos, h, b);
    lemma_head_at(bytes, pos, BYTES, b.len() as u64);
}

/// A text string that was written is read as its UTF-8 form.
pub proof fn lemma_text_at(bytes: Seq<u8>, pos: int, s: Seq<char>)
    requires
        encode_utf8(s).len() <= u64::MAX,
        holds_at(bytes, pos, text_item(s)),
    ensures
        text_at(bytes, pos) == Some((encode_utf8(s), pos + text_item(s).len())),
{
    let utf8 = encode_utf8(s);
    let h = head(TEXT, utf8.len() as u64);
    lemma_holds_at_split(bytes, pos, h, utf8);
    lemma_head_at(bytes, pos, TEXT, utf8.len() as u64);
    encode_utf8_valid_utf8(s);
}

/// A boolean that was written is read as itself.
pub proof fn lemma_bool_at(bytes: Seq<u8>, pos: int, b: bool)
    requires
        holds_at(bytes, pos, bool_item(b)),
    ensures
        bool_at(bytes, pos) == Some((b, pos + 1)),
{
    assert(bytes[pos] == bytes.subrange(pos, pos + 1)[0]);
}

/// Integers that were written one after the other are read as the same
/// list.
pub proof fn lemma_uints_at(bytes: Seq<u8>, pos: int, l: Seq<u64>)
    requires
        holds_at(bytes, pos, uint_items(l)),
    ensures
        uints_at(bytes, pos, l.len()) == Some((l, pos + uint_items(l).len())),
    decreases l.len(),
{
    if l.len() > 0 {
        let front = uint_items(l.drop_last());
        let last = head(UINT, l.last());
        lemma_holds_at_split(bytes, pos, front, last);
        lemma_uints_at(bytes, pos, l.drop_last());
        lemma_uint_at(bytes, pos + front.len(), l.last());
        assert(l.drop_last().push(l.last()) =~= l);
    }
}

/// An array of integers that was written is read as the same list.
pub proof fn lemma_uint_array_at(bytes: Seq<u8>, pos: int, l: Seq<u64>)
    requires
        l.len() <= u64::MAX,
        holds_at(bytes, pos, uint_array(l)),
    ensures
        uint_array_at(bytes, pos) == Some((l, pos + uint_array(l).len())),
{
    let h = head(ARRAY, l.len() as u64);
    lemma_holds_at_split(bytes, pos, h, uint_items(l));
    lemma_array_at(bytes, pos, l.len() as u64);
    lemma_uints_at(bytes, pos + h.len(), l);
}

} // verus!
