//! Protocol framing, second half: decoding the bytes of a message gives back
//! the message that was encoded.

use crate::cbor::{bool_item, bytes_item, head, text_item, uint_array, ARRAY, UINT};
use crate::cbor_laws::{
    holds_at, lemma_array_at, lemma_bool_at, lemma_bytes_at, lemma_holds_at_split, lemma_text_at,
    lemma_uint_array_at, lemma_uint_at,
};
use crate::hook_message::{
    HookPostCall, HookPostCallResponse, HookPreCallResponseView, HookPrecallView,
};
use crate::message::{
    fixed_array_at, CallCmdView, InstallHookCmd, ReadCmd, ToggleHookCmd, UninstallHookCmd,
    WriteCmdView,
};
use crate::response::{ResponseStatusView, ResponseView};
use vstd::prelude::*;
use vstd::utf8::{encode_utf8, encode_utf8_decode_utf8};

verus! {

/// Every sequence lies in itself at position 0.
pub proof fn lemma_holds_at_start(item: Seq<u8>)
    ensures
        holds_at(item, 0, item),
{
    assert(item.subrange(0, item.len() as int) =~= item);
}

/// An array header that was written for `n` items is read as one for `n`
/// items.
pub proof fn lemma_fixed_array_at(bytes: Seq<u8>, pos: int, n: u64)
    requires
        holds_at(bytes, pos, head(ARRAY, n)),
    ensures
        fixed_array_at(bytes, pos, n) == Some(pos + head(ARRAY, n).len()),
{
    lemma_array_at(bytes, pos, n);
}

/// A `ReadCmd` that was encoded is decoded as itself, and the decoder stops
/// where the encoding ends.
pub proof fn lemma_read_cmd_round_trip(c: ReadCmd)
    ensures
        ReadCmd::parse(c.wire(), 0) == Some((c, c.wire().len() as int)),
{
    let w = c.wire();
    let a = head(ARRAY, 2);
    let b = head(UINT, c.address);
    let d = head(UINT, c.size);
    lemma_holds_at_start(w);
    lemma_holds_at_split(w, 0, a + b, d);
    lemma_holds_at_split(w, 0, a, b);
    lemma_fixed_array_at(w, 0, 2);
    lemma_uint_at(w, a.len() as int, c.address);
    lemma_uint_at(w, (a + b).len() as int, c.size);
}

/// A `WriteCmd` that was encoded is decoded as itself, and the decoder
/// stops where the encoding ends.
pub proof fn lemma_write_cmd_round_trip(c: WriteCmdView)
    requires
        c.buff.len() <= u64::MAX,
    ensures
        WriteCmdView::parse(c.wire(), 0) == Some((c, c.wire().len() as int)),
{
    let w = c.wire();
    let a = head(ARRAY, 2);
    let b = head(UINT, c.address);
    let d = bytes_item(c.buff);
    lemma_holds_at_start(w);
    lemma_holds_at_split(w, 0, a + b, d);
    lemma_holds_at_split(w, 0, a, b);
    lemma_fixed_array_at(w, 0, 2);
    lemma_uint_at(w, a.len() as int, c.address);
    lemma_bytes_at(w, (a + b).len() as int, c.buff);
}

/// A `CallCmd` that was encoded is decoded as itself, and the decoder stops
/// where the encoding ends.
pub proof fn lemma_call_cmd_round_trip(c: CallCmdView)
    requires
        c.arguments.len() <= u64::MAX,
    ensures
        CallCmdView::parse(c.wire(), 0) == Some((c, c.wire().len() as int)),
{
    let w = c.wire();
    let a = head(ARRAY, 2);
    let b = head(UINT, c.address);
    let d = uint_array(c.arguments);
    lemma_holds_at_start(w);
    lemma_holds_at_split(w, 0, a + b, d);
    lemma_holds_at_split(w, 0, a, b);
    lemma_fixed_array_at(w, 0, 2);
    lemma_uint_at(w, a.len() as int, c.address);
    lemma_uint_array_at(w, (a + b).len() as int, c.arguments);
}

/// An `InstallHookCmd` that was encoded is decoded as itself, and the
/// decoder stops where the encoding ends.
pub proof fn lemma_install_hook_cmd_round_trip(c: InstallHookCmd)
    ensures
        InstallHookCmd::parse(c.wire(), 0) == Some((c, c.wire().len() as int)),
{
    let w = c.wire();
    let a = head(ARRAY, 3);
    let b = head(UINT, c.address);
    let d = head(UINT, c.prefix_size);
    let e = head(UINT, c.port);
    lemma_holds_at_start(w);
    lemma_holds_at_split(w, 0, a + b + d, e);
    lemma_holds_at_split(w, 0, a + b, d);
    lemma_holds_at_split(w, 0, a, b);
    lemma_fixed_array_at(w, 0, 3);
    lemma_uint_at(w, a.len() as int, c.address);
    lemma_uint_at(w, (a + b).len() as int, c.prefix_size);
    lemma_uint_at(w, (a + b + d).len() as int, c.port);
}

/// An `UninstallHookCmd` that was encoded is decoded as itself, and the
/// decoder stops where the encoding ends.
pub proof fn lemma_uninstall_hook_cmd_round_trip(c: UninstallHookCmd)
    ensures
        UninstallHookCmd::parse(c.wire(), 0) == Some((c, c.wire().len() as int)),
{
    let w = c.wire();
    let a = head(ARRAY, 1);
    lemma_holds_at_start(w);
    lemma_holds_at_split(w, 0, a, head(UINT, c.address));
    lemma_fixed_array_at(w, 0, 1);
    lemma_uint_at(w, a.len() as int, c.address);
}

/// A `ToggleHookCmd` that was encoded is decoded as itself, and the decoder
/// stops where the encoding ends.
pub proof fn lemma_toggle_hook_cmd_round_trip(c: ToggleHookCmd)
    ensures
        ToggleHookCmd::parse(c.wire(), 0) == Some((c, c.wire().len() as int)),
{
    let w = c.wire();
    let a = head(ARRAY, 2);
    let b = head(UINT, c.address);
    let d = bool_item(c.enabled);
    lemma_holds_at_start(w);
    lemma_holds_at_split(w, 0, a + b, d);
    lemma_holds_at_split(w, 0, a, b);
    lemma_fixed_array_at(w, 0, 2);
    lemma_uint_at(w, a.len() as int, c.address);
    lemma_bool_at(w, (a + b).len() as int, c.enabled);
}

/// A `HookPrecall` that was encoded is decoded as itself, and the decoder
/// stops where the encoding ends.
pub proof fn lemma_hook_precall_round_trip(m: HookPrecallView)
    requires
        m.hook_arguments.len() <= u64::MAX,
    ensures
        HookPrecallView::parse(m.wire(), 0) == Some((m, m.wire().len() as int)),
{
    let w = m.wire();
    let a = head(ARRAY, 1);
    lemma_holds_at_start(w);
    lemma_holds_at_split(w, 0, a, uint_array(m.hook_arguments));
    lemma_fixed_array_at(w, 0, 1);
    lemma_uint_array_at(w, a.len() as int, m.hook_arguments);
}

/// A `HookPreCallResponse` that was encoded is decoded as itself, and the
/// decoder stops where the encoding ends.
pub proof fn lemma_hook_precall_response_round_trip(m: HookPreCallResponseView)
    requires
        m.hook_arguments.len() <= u64::MAX,
    ensures
        HookPreCallResponseView::parse(m.wire(), 0) == Some((m, m.wire().len() as int)),
{
    let w = m.wire();
    let a = head(ARRAY, 2);
    let b = uint_array(m.hook_arguments);
    let d = bool_item(m.call_original);
    lemma_holds_at_start(w);
    lemma_holds_at_split(w, 0, a + b, d);
    lemma_holds_at_split(w, 0, a, b);
    lemma_fixed_array_at(w, 0, 2);
    lemma_uint_array_at(w, a.len() as int, m.hook_arguments);
    lemma_bool_at(w, (a + b).len() as int, m.call_original);
}

/// A `HookPostCall` that was encoded is decoded as itself, and the decoder
/// stops where the encoding ends.
pub proof fn lemma_hook_postcall_round_trip(m: HookPostCall)
    ensures
        HookPostCall::parse(m.wire(), 0) == Some((m, m.wire().len() as int)),
{
    let w = m.wire();
    let a = head(ARRAY, 1);
    lemma_holds_at_start(w);
    lemma_holds_at_split(w, 0, a, head(UINT, m.hook_return_value));
    lemma_fixed_array_at(w, 0, 1);
    lemma_uint_at(w, a.len() as int, m.hook_return_value);
}

/// A `HookPostCallResponse` that was encoded is decoded as itself, and the
/// decoder stops where the encoding ends.
pub proof fn lemma_hook_postcall_response_round_trip(m: HookPostCallResponse)
    ensures
        HookPostCallResponse::parse(m.wire(), 0) == Some((m, m.wire().len() as int)),
{
    let w = m.wire();
    let a = head(ARRAY, 1);
    lemma_holds_at_start(w);
    lemma_holds_at_split(w, 0, a, head(UINT, m.hook_return_value));
    lemma_fixed_array_at(w, 0, 1);
    lemma_uint_at(w, a.len() as int, m.hook_return_value);
}

/// A response that lies in `bytes` at `pos` is read there as itself.
pub proof fn lemma_response_at(bytes: Seq<u8>, pos: int, r: ResponseView)
    requires
        r matches ResponseView::BytesRead { buff } ==> buff.len() <= u64::MAX,
        holds_at(bytes, pos, r.wire()),
    ensures
        ResponseView::parse(bytes, pos) == Some((r, pos + r.wire().len())),
{
    let a = head(ARRAY, 2);
    let b = head(UINT, r.index());
    let f = r.fields();
    lemma_holds_at_split(bytes, pos, a + b, f);
    lemma_holds_at_split(bytes, pos, a, b);
    lemma_fixed_array_at(bytes, pos, 2);
    lemma_uint_at(bytes, pos + a.len(), r.index());
    let pos2 = pos + (a + b).len();
    match r {
        ResponseView::BytesRead { buff } => {
            lemma_holds_at_split(bytes, pos2, head(ARRAY, 1), bytes_item(buff));
            lemma_fixed_array_at(bytes, pos2, 1);
            lemma_bytes_at(bytes, pos2 + head(ARRAY, 1).len(), buff);
        },
        ResponseView::BytesWritten { written } => {
            lemma_holds_at_split(bytes, pos2, head(ARRAY, 1), head(UINT, written));
            lemma_fixed_array_at(bytes, pos2, 1);
            lemma_uint_at(bytes, pos2 + head(ARRAY, 1).len(), written);
        },
        ResponseView::FunctionExecuted { ret } => {
            lemma_holds_at_split(bytes, pos2, head(ARRAY, 1), head(UINT, ret));
            lemma_fixed_array_at(bytes, pos2, 1);
            lemma_uint_at(bytes, pos2 + head(ARRAY, 1).len(), ret);
        },
        _ => {
            lemma_fixed_array_at(bytes, pos2, 0);
        },
    }
}

/// A `Response` that was encoded is decoded as itself, and the decoder
/// stops where the encoding ends.
pub proof fn lemma_response_round_trip(r: ResponseView)
    requires
        r matches ResponseView::BytesRead { buff } ==> buff.len() <= u64::MAX,
    ensures
        ResponseView::parse(r.wire(), 0) == Some((r, r.wire().len() as int)),
{
    lemma_holds_at_start(r.wire());
    lemma_response_at(r.wire(), 0, r);
}

/// A `ResponseStatus` that was encoded is decoded as itself, its message
/// character for character, and the decoder stops where the encoding ends.
pub proof fn lemma_response_status_round_trip(s: ResponseStatusView)
    requires
        s matches ResponseStatusView::Success { response: ResponseView::BytesRead { buff } }
            ==> buff.len() <= u64::MAX,
        s matches ResponseStatusView::Error { message } ==> encode_utf8(message).len()
            <= u64::MAX,
    ensures
        ResponseStatusView::parse(s.wire(), 0) == Some((s, s.wire().len() as int)),
{
    let w = s.wire();
    let a = head(ARRAY, 2);
    let c = head(ARRAY, 1);
    lemma_holds_at_start(w);
    match s {
        ResponseStatusView::Success { response } => {
            let b = head(UINT, 0);
            lemma_holds_at_split(w, 0, a + b + c, response.wire());
            lemma_holds_at_split(w, 0, a + b, c);
            lemma_holds_at_split(w, 0, a, b);
            lemma_fixed_array_at(w, 0, 2);
            lemma_uint_at(w, a.len() as int, 0);
            lemma_fixed_array_at(w, (a + b).len() as int, 1);
            lemma_response_at(w, (a + b + c).len() as int, response);
        },
        ResponseStatusView::Error { message } => {
            let b = head(UINT, 1);
            lemma_holds_at_split(w, 0, a + b + c, text_item(message));
            lemma_holds_at_split(w, 0, a + b, c);
            lemma_holds_at_split(w, 0, a, b);
            lemma_fixed_array_at(w, 0, 2);
            lemma_uint_at(w, a.len() as int, 1);
            lemma_fixed_array_at(w, (a + b).len() as int, 1);
            lemma_text_at(w, (a + b + c).len() as int, message);
            encode_utf8_decode_utf8(message);
        },
    }
}

} // verus!
