//! The messages of a hook's own connection: what is exchanged while a
//! hooked call is held.

use crate::cbor::{
    bool_at, bool_item, head, put_array, put_bool, put_uint, put_uint_array, take_bool, take_uint,
    take_uint_array, uint_array, uint_array_at, uint_at, ARRAY, UINT,
};
use crate::message::{fixed_array_at, take_fixed_array, ProtocolError};
use vstd::prelude::*;

verus! {

/// Sent when a hooked function is entered: the arguments of the call.
#[derive(Debug)]
pub struct HookPrecall {
    pub hook_arguments: Vec<u64>,
}

/// What a `HookPrecall` holds.
pub struct HookPrecallView {
    pub hook_arguments: Seq<u64>,
}

impl View for HookPrecall {
    type V = HookPrecallView;

    open spec fn view(&self) -> HookPrecallView {
        HookPrecallView { hook_arguments: self.hook_arguments@ }
    }
}

impl HookPrecallView {
    /// The encoding of this message.
    pub open spec fn wire(self) -> Seq<u8> {
        head(ARRAY, 1) + uint_array(self.hook_arguments)
    }

    /// The message encoded at `pos`, and the position behind it.
    pub open spec fn parse(bytes: Seq<u8>, pos: int) -> Option<(HookPrecallView, int)> {
        match fixed_array_at(bytes, pos, 1) {
            Some(pos1) => match uint_array_at(bytes, pos1) {
                Some((hook_arguments, pos2)) => Some((HookPrecallView { hook_arguments }, pos2)),
                None => None,
            },
            None => None,
        }
    }
}

impl HookPrecall {
    /// The encoding of this message.
    pub fn encode(&self) -> (r: Vec<u8>)
        ensures
            r@ == self@.wire(),
    {
        let mut buf: Vec<u8> = Vec::new();
        put_array(&mut buf, 1);
        put_uint_array(&mut buf, &self.hook_arguments);
        assert(buf@ =~= self@.wire());
        buf
    }

    /// The message that `bytes` starts with.
    ///
    /// Fails with `MalformedPayload` exactly when `bytes` does not start
    /// with an array of one array of unsigned integers.
    pub fn decode(bytes: &[u8]) -> (r: Result<HookPrecall, ProtocolError>)
        ensures
            match r {
                Ok(c) => HookPrecallView::parse(bytes@, 0).is_some() && HookPrecallView::parse(
                    bytes@,
                    0,
                ).unwrap().0 == c@,
                Err(e) => e == ProtocolError::MalformedPayload && HookPrecallView::parse(
                    bytes@,
                    0,
                ).is_none(),
            },
    {
        let pos1 = match take_fixed_array(bytes, 0, 1) {
            Some(p) => p,
            None => {
                return Err(ProtocolError::MalformedPayload);
            },
        };
        match take_uint_array(bytes, pos1) {
            Some((hook_arguments, _)) => Ok(HookPrecall { hook_arguments }),
            None => Err(ProtocolError::MalformedPayload),
        }
    }
}

/// The controller's decision on a held call: whether the original function
/// runs, and with which arguments.
#[derive(Debug)]
pub struct HookPreCallResponse {
    pub hook_arguments: Vec<u64>,
    pub call_original: bool,
}

/// What a `HookPreCallResponse` holds.
pub struct HookPreCallResponseView {
    pub hook_arguments: Seq<u64>,
    pub call_original: bool,
}

impl View for HookPreCallResponse {
    type V = HookPreCallResponseView;

    open spec fn view(&self) -> HookPreCallResponseView {
        HookPreCallResponseView {
            hook_arguments: self.hook_arguments@,
            call_original: self.call_original,
        }
    }
}

impl HookPreCallResponseView {
    /// The encoding of this message.
    pub open spec fn wire(self) -> Seq<u8> {
        head(ARRAY, 2) + uint_array(self.hook_arguments) + bool_item(self.call_original)
    }

    /// The message encoded at `pos`, and the position behind it.
    pub open spec fn parse(bytes: Seq<u8>, pos: int) -> Option<(HookPreCallResponseView, int)> {
        match fixed_array_at(bytes, pos, 2) {
            Some(pos1) => match uint_array_at(bytes, pos1) {
                Some((hook_arguments, pos2)) => match bool_at(bytes, pos2) {
                    Some((call_original, pos3)) => Some(
                        (HookPreCallResponseView { hook_arguments, call_original }, pos3),
                    ),
                    None => None,
                },
                None => None,
            },
            None => None,
        }
    }
}

impl HookPreCallResponse {
    /// The encoding of this message.
    pub fn encode(&self) -> (r: Vec<u8>)
        ensures
            r@ == self@.wire(),
    {
        let mut buf: Vec<u8> = Vec::new();
        put_array(&mut buf, 2);
        put_uint_array(&mut buf, &self.hook_arguments);
        put_bool(&mut buf, self.call_original);
        assert(buf@ =~= self@.wire());
        buf
    }

    /// The message that `bytes` starts with.
    ///
    /// Fails with `MalformedPayload` exactly when `bytes` does not start
    /// with an array of an array of unsigned integers and a boolean.
    pub fn decode(bytes: &[u8]) -> (r: Result<HookPreCallResponse, ProtocolError>)
        ensures
            match r {
                Ok(c) => HookPreCallResponseView::parse(bytes@, 0).is_some()
                    && HookPreCallResponseView::parse(bytes@, 0).unwrap().0 == c@,
                Err(e) => e == ProtocolError::MalformedPayload && HookPreCallResponseView::parse(
                    bytes@,
                    0,
                ).is_none(),
            },
    {
        let pos1 = match take_fixed_array(bytes, 0, 2) {
            Some(p) => p,
            None => {
                return Err(ProtocolError::MalformedPayload);
            },
        };
        let (hook_arguments, pos2) = match take_uint_array(bytes, pos1) {
            Some(x) => x,
            None => {
                return Err(ProtocolError::MalformedPayload);
            },
        };
        match take_bool(bytes, pos2) {
            Some((call_original, _)) => Ok(HookPreCallResponse { hook_arguments, call_original }),
            None => Err(ProtocolError::MalformedPayload),
        }
    }
}

/// Sent after the original function has run: what it returned.
#[derive(Clone, Copy, Debug, PartialEq, Eq, Structural)]
pub struct HookPostCall {
    pub hook_return_value: u64,
}

impl HookPostCall {
    /// The encoding of this message.
    pub open spec fn wire(self) -> Seq<u8> {
        head(ARRAY, 1) + head(UINT, self.hook_return_value)
    }

    /// The message encoded at `pos`, and the position behind it.
    pub open spec fn parse(bytes: Seq<u8>, pos: int) -> Option<(HookPostCall, int)> {
        match fixed_array_at(bytes, pos, 1) {
            Some(pos1) => match uint_at(bytes, pos1) {
                Some((hook_return_value, pos2)) => Some((HookPostCall { hook_return_value }, pos2)),
                None => None,
            },
            None => None,
        }
    }

    /// The encoding of this message.
    pub fn encode(&self) -> (r: Vec<u8>)
        ensures
            r@ == self.wire(),
    {
        let mut buf: Vec<u8> = Vec::new();
        put_array(&mut buf, 1);
        put_uint(&mut buf, self.hook_return_value);
        assert(buf@ =~= self.wire());
        buf
    }

    /// The message that `bytes` starts with.
    ///
    /// Fails with `MalformedPayload` exactly when `bytes` does not start
    /// with an array of one unsigned integer.
    pub fn decode(bytes: &[u8]) -> (r: Result<HookPostCall, ProtocolError>)
        ensures
            match r {
                Ok(c) => HookPostCall::parse(bytes@, 0).is_some() && HookPostCall::parse(
                    bytes@,
                    0,
                ).unwrap().0 == c,
                Err(e) => e == ProtocolError::MalformedPayload && HookPostCall::parse(
                    bytes@,
                    0,
                ).is_none(),
            },
    {
        let pos1 = match take_fixed_array(bytes, 0, 1) {
            Some(p) => p,
            None => {
                return Err(ProtocolError::MalformedPayload);
            },
        };
        match take_uint(bytes, pos1) {
            Some((hook_return_value, _)) => Ok(HookPostCall { hook_return_value }),
            None => Err(ProtocolError::MalformedPayload),
        }
    }
}

/// The controller's last word on a held call: the value that the caller of
/// the hooked function gets back.
#[derive(Clone, Copy, Debug, PartialEq, Eq, Structural)]
pub struct HookPostCallResponse {
    pub hook_return_value: u64,
}

impl HookPostCallResponse {
    /// The encoding of this message.
    pub open spec fn wire(self) -> Seq<u8> {
        head(ARRAY, 1) + head(UINT, self.hook_return_value)
    }

    /// The message encoded at `pos`, and the position behind it.
    pub open spec fn parse(bytes: Seq<u8>, pos: int) -> Option<(HookPostCallResponse, int)> {
        match fixed_array_at(bytes, pos, 1) {
            Some(pos1) => match uint_at(bytes, pos1) {
                Some((hook_return_value, pos2)) => Some(
                    (HookPostCallResponse { hook_return_value }, pos2),
                ),
                None => None,
            },
            None => None,
        }
    }

    /// The encoding of this message.
    pub fn encode(&self) -> (r: Vec<u8>)
        ensures
            r@ == self.wire(),
    {
        let mut buf: Vec<u8> = Vec::new();
        put_array(&mut buf, 1);
        put_uint(&mut buf, self.hook_return_value);
        assert(buf@ =~= self.wire());
        buf
    }

    /// The message that `bytes` starts with.
    ///
    /// Fails with `MalformedPayload` exactly when `bytes` does not start
    /// with an array of one unsigned integer.
    pub fn decode(bytes: &[u8]) -> (r: Result<HookPostCallResponse, ProtocolError>)
        ensures
            match r {
                Ok(c) => HookPostCallResponse::parse(bytes@, 0).is_some()
                    && HookPostCallResponse::parse(bytes@, 0).unwrap().0 == c,
                Err(e) => e == ProtocolError::MalformedPayload && HookPostCallResponse::parse(
                    bytes@,
                    0,
                ).is_none(),
            },
    {
        let pos1 = match take_fixed_array(bytes, 0, 1) {
            Some(p) => p,
            None => {
                return Err(ProtocolError::MalformedPayload);
            },
        };
        match take_uint(bytes, pos1) {
            Some((hook_return_value, _)) => Ok(HookPostCallResponse { hook_return_value }),
            None => Err(ProtocolError::MalformedPayload),
        }
    }
}

} // verus!
