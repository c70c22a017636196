//! What the engine and a firing say on the wire, read back.

use crate::arena::{stored, within};
use crate::cbor::{uint_items, ARRAY, UINT};
use crate::cbor_laws::lemma_head_len;
use crate::engine::{
    call_step, read_step, reply, success, write_step, EffectView, Pending, MAX_CALL_ARGUMENTS,
};
use crate::firing::{announce, report, FiringStepView};
use crate::frame::{
    first_message, first_request, framed, lemma_frame_round_trip, lemma_request_round_trip,
    request,
};
use crate::hook_message::{HookPostCall, HookPrecallView};
use crate::message::{CallCmdView, ReadCmd, WriteCmdView, CMD};
use crate::message_laws::{
    lemma_call_cmd_round_trip, lemma_hook_postcall_round_trip, lemma_hook_precall_round_trip,
    lemma_read_cmd_round_trip, lemma_response_status_round_trip, lemma_write_cmd_round_trip,
};
use crate::response::{ResponseStatusView, ResponseView};
use vstd::prelude::*;
use vstd::utf8::encode_utf8;

verus! {

/// The envelope that a reply carries to the controller.
pub open spec fn replied(effect: EffectView) -> Option<ResponseStatusView> {
    match effect {
        EffectView::Reply { frame, close } => match first_message(frame) {
            Some((payload, _)) => match ResponseStatusView::parse(payload, 0) {
                Some((status, _)) => Some(status),
                None => None,
            },
            None => None,
        },
        _ => None,
    }
}

/// The payload of the message that a step of a firing sends.
pub open spec fn sent(step: FiringStepView) -> Option<Seq<u8>> {
    match step {
        FiringStepView::Exchange { frame } => match first_message(frame) {
            Some((payload, _)) => Some(payload),
            None => None,
        },
        _ => None,
    }
}

/// Whether an envelope is short enough for its lengths to be written.
pub open spec fn encodable(status: ResponseStatusView) -> bool {
    &&& status.wire().len() <= u64::MAX
    &&& (status matches ResponseStatusView::Success { response: ResponseView::BytesRead { buff } }
        ==> buff.len() <= u64::MAX)
    &&& (status matches ResponseStatusView::Error { message } ==> encode_utf8(message).len()
        <= u64::MAX)
}

/// Protocol framing of replies: the length in front of a reply is the exact
/// length of the encoded envelope, and the controller reads back the
/// envelope that the engine sent.
pub proof fn lemma_reply_round_trip(status: ResponseStatusView, close: Option<u64>)
    requires
        encodable(status),
    ensures
        reply(status, close) matches EffectView::Reply { frame, .. } && frame.len() == 8
            + status.wire().len() && first_message(frame) == Some(
            (status.wire(), 8 + status.wire().len() as int),
        ),
        replied(reply(status, close)) == Some(status),
{
    lemma_frame_round_trip(status.wire(), Seq::<u8>::empty());
    assert(framed(status.wire()) + Seq::<u8>::empty() =~= framed(
        status.wire(),
    ));
    lemma_response_status_round_trip(status);
}

/// Calls by address: a request with up to ten arguments leads to the call
/// of that address with exactly those arguments, as many and in that order,
/// and the controller reads in the reply exactly what the call returned.
pub proof fn lemma_call_dispatch(address: u64, arguments: Seq<u64>, ret: u64)
    requires
        arguments.len() <= MAX_CALL_ARGUMENTS,
    ensures
        first_request(
            request(CMD::Call.code(), (CallCmdView { address, arguments }).wire()),
        ) matches Some((code, payload, _)) && CMD::of_code(code) == Some(CMD::Call) && call_step(
            payload,
        ) == (Pending::Call, EffectView::CallFunction { address, arguments }),
        replied(success(ResponseView::FunctionExecuted { ret }, None)) == Some(
            ResponseStatusView::Success { response: ResponseView::FunctionExecuted { ret } },
        ),
{
    let c = CallCmdView { address, arguments };
    lemma_call_cmd_round_trip(c);
    lemma_wire_len_call(c);
    lemma_request_round_trip(CMD::Call.code(), c.wire(), Seq::<u8>::empty());
    assert(request(CMD::Call.code(), c.wire()) + Seq::<u8>::empty() =~= request(
        CMD::Call.code(),
        c.wire(),
    ));
    let status = ResponseStatusView::Success { response: ResponseView::FunctionExecuted { ret } };
    lemma_status_len_small(ret);
    lemma_reply_round_trip(status, None);
}

/// A call with at most ten arguments has a short payload.
proof fn lemma_wire_len_call(c: CallCmdView)
    requires
        c.arguments.len() <= MAX_CALL_ARGUMENTS,
    ensures
        c.wire().len() <= 200,
{
    lemma_head_len(ARRAY, 2);
    lemma_head_len(UINT, c.address);
    lemma_head_len(ARRAY, c.arguments.len() as u64);
    lemma_uint_items_len(c.arguments);
}

/// Each integer of a list takes at most nine bytes.
proof fn lemma_uint_items_len(l: Seq<u64>)
    ensures
        uint_items(l).len() <= 9 * l.len(),
    decreases l.len(),
{
    if l.len() > 0 {
        lemma_uint_items_len(l.drop_last());
        lemma_head_len(UINT, l.last());
    }
}

/// The envelope of a returned value is short.
proof fn lemma_status_len_small(ret: u64)
    ensures
        encodable(
            ResponseStatusView::Success { response: ResponseView::FunctionExecuted { ret } },
        ),
{
    lemma_head_len(ARRAY, 2);
    lemma_head_len(ARRAY, 1);
    lemma_head_len(UINT, 0);
    lemma_head_len(UINT, 2);
    lemma_head_len(UINT, ret);
}

/// Round trip through the engine: a `Write` of `buff` at an address inside
/// an arena, carried out, and then a `Read` of as many bytes at the same
/// address, carried out, is answered with `buff`, unchanged.
pub proof fn lemma_write_then_read(base: u64, mem: Seq<u8>, address: u64, buff: Seq<u8>)
    requires
        buff.len() <= u64::MAX,
        within(base, mem.len(), address, buff.len()),
    ensures
        ({
            let w = WriteCmdView { address, buff };
            let r = ReadCmd { address, size: buff.len() as u64 };
            let after = stored(mem, address - base, buff);
            &&& write_step(w.wire()) == (
                Pending::Write { len: buff.len() as u64 },
                EffectView::WriteMemory { address, buff },
            )
            &&& read_step(r.wire()) == (
                Pending::Read,
                EffectView::ReadMemory { address, size: buff.len() as u64 },
            )
            &&& after.len() == mem.len()
            &&& within(base, after.len(), address, buff.len())
            &&& after.subrange(address - base, address - base + buff.len()) == buff
        }),
{
    let w = WriteCmdView { address, buff };
    let r = ReadCmd { address, size: buff.len() as u64 };
    lemma_write_cmd_round_trip(w);
    lemma_read_cmd_round_trip(r);
    let after = stored(mem, address - base, buff);
    assert(after.subrange(address - base, address - base + buff.len()) =~= buff);
}

/// Hook firing: the twelve argument slots go to the controller exactly as
/// the hooked function was entered with them, and what the original
/// function returns goes to the controller unmodified.
pub proof fn lemma_firing_messages(arguments: Seq<u64>, ret: u64)
    requires
        arguments.len() == 12,
    ensures
        sent(announce(arguments).1) matches Some(payload) && HookPrecallView::parse(payload, 0)
            matches Some((m, _)) && m.hook_arguments == arguments,
        sent(report(ret).1) matches Some(payload) && HookPostCall::parse(payload, 0) matches Some(
            (m, _),
        ) && m.hook_return_value == ret,
{
    let pre = HookPrecallView { hook_arguments: arguments };
    let post = HookPostCall { hook_return_value: ret };
    lemma_hook_precall_round_trip(pre);
    lemma_hook_postcall_round_trip(post);
    lemma_head_len(ARRAY, 1);
    lemma_head_len(ARRAY, 12);
    lemma_head_len(UINT, ret);
    lemma_uint_items_len(arguments);
    lemma_frame_round_trip(pre.wire(), Seq::<u8>::empty());
    lemma_frame_round_trip(post.wire(), Seq::<u8>::empty());
    assert(framed(pre.wire()) + Seq::<u8>::empty() =~= framed(
        pre.wire(),
    ));
    assert(framed(post.wire()) + Seq::<u8>::empty() =~= framed(
        post.wire(),
    ));
}

} // verus!
