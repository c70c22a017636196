//! What the engine answers on the control connection.

use crate::cbor::{
    bytes_at, bytes_item, head, put_array, put_bytes, put_text, put_uint, take_bytes, take_text,
    take_uint, text_at, text_item, uint_at, ARRAY, UINT,
};
use crate::message::{fixed_array_at, take_fixed_array, ProtocolError};
use vstd::prelude::*;
use vstd::utf8::{decode_utf8, encode_utf8_decode_utf8};

verus! {

/// The result of a command that was carried out.
#[derive(Debug)]
pub enum Response {
    BytesRead { buff: Vec<u8> },
    BytesWritten { written: u64 },
    FunctionExecuted { ret: u64 },
    Disconnecting,
    Shutdown,
    HookInstalled,
    HookToggled,
    HookUninstalled,
}

/// What a `Response` holds.
pub enum ResponseView {
    BytesRead { buff: Seq<u8> },
    BytesWritten { written: u64 },
    FunctionExecuted { ret: u64 },
    Disconnecting,
    Shutdown,
    HookInstalled,
    HookToggled,
    HookUninstalled,
}

impl View for Response {
    type V = ResponseView;

    open spec fn view(&self) -> ResponseView {
        match self {
            Response::BytesRead { buff } => ResponseView::BytesRead { buff: buff@ },
            Response::BytesWritten { written } => ResponseView::BytesWritten { written: *written },
            Response::FunctionExecuted { ret } => ResponseView::FunctionExecuted { ret: *ret },
            Response::Disconnecting => ResponseView::Disconnecting,
            Response::Shutdown => ResponseView::Shutdown,
            Response::HookInstalled => ResponseView::HookInstalled,
            Response::HookToggled => ResponseView::HookToggled,
            Response::HookUninstalled => ResponseView::HookUninstalled,
        }
    }
}

impl ResponseView {
    /// The index of the variant on the wire.
    pub open spec fn index(self) -> u64 {
        match self {
            ResponseView::BytesRead { .. } => 0,
            ResponseView::BytesWritten { .. } => 1,
            ResponseView::FunctionExecuted { .. } => 2,
            ResponseView::Disconnecting => 3,
            ResponseView::Shutdown => 4,
            ResponseView::HookInstalled => 5,
            ResponseView::HookToggled => 6,
            ResponseView::HookUninstalled => 7,
        }
    }

    /// The array of the variant's fields.
    pub open spec fn fields(self) -> Seq<u8> {
        match self {
            ResponseView::BytesRead { buff } => head(ARRAY, 1) + bytes_item(buff),
            ResponseView::BytesWritten { written } => head(ARRAY, 1) + head(UINT, written),
            ResponseView::FunctionExecuted { ret } => head(ARRAY, 1) + head(UINT, ret),
            _ => head(ARRAY, 0),
        }
    }

    /// The encoding of this response.
    pub open spec fn wire(self) -> Seq<u8> {
        head(ARRAY, 2) + head(UINT, self.index()) + self.fields()
    }

    /// The variant without fields that `index` names.
    pub open spec fn unit(index: u64) -> ResponseView
        recommends
            3 <= index <= 7,
    {
        if index == 3 {
            ResponseView::Disconnecting
        } else if index == 4 {
            ResponseView::Shutdown
        } else if index == 5 {
            ResponseView::HookInstalled
        } else if index == 6 {
            ResponseView::HookToggled
        } else {
            ResponseView::HookUninstalled
        }
    }

    /// The fields of variant `index` at `pos`, and the position behind them.
    pub open spec fn parse_fields(bytes: Seq<u8>, pos: int, index: u64) -> Option<
        (ResponseView, int),
    > {
        if index == 0 {
            match fixed_array_at(bytes, pos, 1) {
                Some(p) => match bytes_at(bytes, p) {
                    Some((buff, end)) => Some((ResponseView::BytesRead { buff }, end)),
                    None => None,
                },
                None => None,
            }
        } else if index == 1 {
            match fixed_array_at(bytes, pos, 1) {
                Some(p) => match uint_at(bytes, p) {
                    Some((written, end)) => Some((ResponseView::BytesWritten { written }, end)),
                    None => None,
                },
                None => None,
            }
        } else if index == 2 {
            match fixed_array_at(bytes, pos, 1) {
                Some(p) => match uint_at(bytes, p) {
                    Some((ret, end)) => Some((ResponseView::FunctionExecuted { ret }, end)),
                    None => None,
                },
                None => None,
            }
        } else if index <= 7 {
            match fixed_array_at(bytes, pos, 0) {
                Some(end) => Some((ResponseView::unit(index), end)),
                None => None,
            }
        } else {
            None
        }
    }

    /// The response encoded at `pos`, and the position behind it.
    pub open spec fn parse(bytes: Seq<u8>, pos: int) -> Option<(ResponseView, int)> {
        match fixed_array_at(bytes, pos, 2) {
            Some(pos1) => match uint_at(bytes, pos1) {
                Some((index, pos2)) => ResponseView::parse_fields(bytes, pos2, index),
                None => None,
            },
            None => None,
        }
    }
}

impl Response {
    /// Appends the encoding of this response.
    pub fn put(&self, buf: &mut Vec<u8>)
        ensures
            final(buf)@ == old(buf)@ + self@.wire(),
    {
        let ghost before = buf@;
        put_array(buf, 2);
        match self {
            Response::BytesRead { buff } => {
                put_uint(buf, 0);
                put_array(buf, 1);
                put_bytes(buf, buff.as_slice());
            },
            Response::BytesWritten { written } => {
                put_uint(buf, 1);
                put_array(buf, 1);
                put_uint(buf, *written);
            },
            Response::FunctionExecuted { ret } => {
                put_uint(buf, 2);
                put_array(buf, 1);
                put_uint(buf, *ret);
            },
            Response::Disconnecting => {
                put_uint(buf, 3);
                put_array(buf, 0);
            },
            Response::Shutdown => {
                put_uint(buf, 4);
                put_array(buf, 0);
            },
            Response::HookInstalled => {
                put_uint(buf, 5);
                put_array(buf, 0);
            },
            Response::HookToggled => {
                put_uint(buf, 6);
                put_array(buf, 0);
            },
            Response::HookUninstalled => {
                put_uint(buf, 7);
                put_array(buf, 0);
            },
        }
        assert(buf@ =~= before + self@.wire());
    }

    /// The encoding of this response.
    pub fn encode(&self) -> (r: Vec<u8>)
        ensures
            r@ == self@.wire(),
    {
        let mut buf: Vec<u8> = Vec::new();
        self.put(&mut buf);
        assert(buf@ =~= self@.wire());
        buf
    }

    /// Reads the response encoded at `pos`.
    pub fn take(bytes: &[u8], pos: usize) -> (r: Option<(Response, usize)>)
        ensures
            match r {
                Some((v, end)) => ResponseView::parse(bytes@, pos as int) == Some(
                    (v@, end as int),
                ),
                None => ResponseView::parse(bytes@, pos as int).is_none(),
            },
    {
        let pos1 = match take_fixed_array(bytes, pos, 2) {
            Some(p) => p,
            None => {
                return None;
            },
        };
        let (index, pos2) = match take_uint(bytes, pos1) {
            Some(x) => x,
            None => {
                return None;
            },
        };
        if index <= 2 {
            let pos3 = match take_fixed_array(bytes, pos2, 1) {
                Some(p) => p,
                None => {
                    return None;
                },
            };
            if index == 0 {
                match take_bytes(bytes, pos3) {
                    Some((buff, end)) => Some((Response::BytesRead { buff }, end)),
                    None => None,
                }
            } else {
                match take_uint(bytes, pos3) {
                    Some((v, end)) => if index == 1 {
                        Some((Response::BytesWritten { written: v }, end))
                    } else {
                        Some((Response::FunctionExecuted { ret: v }, end))
                    },
                    None => None,
                }
            }
        } else if index <= 7 {
            match take_fixed_array(bytes, pos2, 0) {
                Some(end) => {
                    let v = if index == 3 {
                        Response::Disconnecting
                    } else if index == 4 {
                        Response::Shutdown
                    } else if index == 5 {
                        Response::HookInstalled
                    } else if index == 6 {
                        Response::HookToggled
                    } else {
                        Response::HookUninstalled
                    };
                    Some((v, end))
                },
                None => None,
            }
        } else {
            None
        }
    }

    /// The response that `bytes` starts with.
    ///
    /// Fails with `MalformedPayload` exactly when `bytes` does not start
    /// with the encoding of a response.
    pub fn decode(bytes: &[u8]) -> (r: Result<Response, ProtocolError>)
        ensures
            match r {
                Ok(v) => ResponseView::parse(bytes@, 0).is_some() && ResponseView::parse(
                    bytes@,
                    0,
                ).unwrap().0 == v@,
                Err(e) => e == ProtocolError::MalformedPayload && ResponseView::parse(
                    bytes@,
                    0,
                ).is_none(),
            },
    {
        match Response::take(bytes, 0) {
            Some((v, _)) => Ok(v),
            None => Err(ProtocolError::MalformedPayload),
        }
    }
}

/// The envelope of every answer: the response of a command that was carried
/// out, or the reason why it was not.
#[derive(Debug)]
pub enum ResponseStatus {
    Success { response: Response },
    Error { message: String },
}

/// What a `ResponseStatus` holds.
pub enum ResponseStatusView {
    Success { response: ResponseView },
    Error { message: Seq<char> },
}

impl View for ResponseStatus {
    type V = ResponseStatusView;

    open spec fn view(&self) -> ResponseStatusView {
        match self {
            ResponseStatus::Success { response } => ResponseStatusView::Success {
                response: response@,
            },
            ResponseStatus::Error { message } => ResponseStatusView::Error { message: message@ },
        }
    }
}

impl ResponseStatusView {
    /// The encoding of this envelope.
    pub open spec fn wire(self) -> Seq<u8> {
        match self {
            ResponseStatusView::Success { response } => head(ARRAY, 2) + head(UINT, 0) + head(
                ARRAY,
                1,
            ) + response.wire(),
            ResponseStatusView::Error { message } => head(ARRAY, 2) + head(UINT, 1) + head(
                ARRAY,
                1,
            ) + text_item(message),
        }
    }

    /// The envelope encoded at `pos`, and the position behind it.
    pub open spec fn parse(bytes: Seq<u8>, pos: int) -> Option<(ResponseStatusView, int)> {
        match fixed_array_at(bytes, pos, 2) {
            Some(pos1) => match uint_at(bytes, pos1) {
                Some((index, pos2)) => match fixed_array_at(bytes, pos2, 1) {
                    Some(pos3) => if index == 0 {
                        match ResponseView::parse(bytes, pos3) {
                            Some((response, end)) => Some(
                                (ResponseStatusView::Success { response }, end),
                            ),
                            None => None,
                        }
                    } else if index == 1 {
                        match text_at(bytes, pos3) {
                            Some((utf8, end)) => Some(
                                (ResponseStatusView::Error { message: decode_utf8(utf8) }, end),
                            ),
                            None => None,
                        }
                    } else {
                        None
                    },
                    None => None,
                },
                None => None,
            },
            None => None,
        }
    }
}

impl ResponseStatus {
    /// The encoding of this envelope.
    pub fn encode(&self) -> (r: Vec<u8>)
        ensures
            r@ == self@.wire(),
    {
        let mut buf: Vec<u8> = Vec::new();
        put_array(&mut buf, 2);
        match self {
            ResponseStatus::Success { response } => {
                put_uint(&mut buf, 0);
                put_array(&mut buf, 1);
                response.put(&mut buf);
            },
            ResponseStatus::Error { message } => {
                put_uint(&mut buf, 1);
                put_array(&mut buf, 1);
                put_text(&mut buf, message.as_str());
            },
        }
        assert(buf@ =~= self@.wire());
        buf
    }

    /// The envelope that `bytes` starts with.
    ///
    /// Fails with `MalformedPayload` exactly when `bytes` does not start
    /// with the encoding of an envelope.
    pub fn decode(bytes: &[u8]) -> (r: Result<ResponseStatus, ProtocolError>)
        ensures
            match r {
                Ok(v) => ResponseStatusView::parse(bytes@, 0).is_some()
                    && ResponseStatusView::parse(bytes@, 0).unwrap().0 == v@,
                Err(e) => e == ProtocolError::MalformedPayload && ResponseStatusView::parse(
                    bytes@,
                    0,
                ).is_none(),
            },
    {
        let pos1 = match take_fixed_array(bytes, 0, 2) {
            Some(p) => p,
            None => {
                return Err(ProtocolError::MalformedPayload);
            },
        };
        let (index, pos2) = match take_uint(bytes, pos1) {
            Some(x) => x,
            None => {
                return Err(ProtocolError::MalformedPayload);
            },
        };
        let pos3 = match take_fixed_array(bytes, pos2, 1) {
            Some(p) => p,
            None => {
                return Err(ProtocolError::MalformedPayload);
            },
        };
        if index == 0 {
            match Response::take(bytes, pos3) {
                Some((response, _)) => Ok(ResponseStatus::Success { response }),
                None => Err(ProtocolError::MalformedPayload),
            }
        } else if index == 1 {
            match take_text(bytes, pos3) {
                Some((message, _)) => {
                    proof {
                        encode_utf8_decode_utf8(message@);
                    }
                    Ok(ResponseStatus::Error { message })
                },
                None => Err(ProtocolError::MalformedPayload),
            }
        } else {
            Err(ProtocolError::MalformedPayload)
        }
    }
}

/// The response of an envelope, or its message as the failure.
///
/// Fails with the message of an `Error` envelope, and with "Malformed
/// response" where `payload` is no envelope at all.
pub fn get_response_if_success(payload: &[u8]) -> (r: Result<Response, String>)
    ensures
        match ResponseStatusView::parse(payload@, 0) {
            Some((ResponseStatusView::Success { response }, _)) => r.is_ok() && r.unwrap()@
                == response,
            Some((ResponseStatusView::Error { message }, _)) => r.is_err() && r.unwrap_err()@
                == message,
            None => r.is_err() && r.unwrap_err()@ == "Malformed response"@,
        },
{
    match ResponseStatus::decode(payload) {
        Ok(ResponseStatus::Success { response }) => Ok(response),
        Ok(ResponseStatus::Error { message }) => Err(message),
        Err(_) => Err("Malformed response".to_string()),
    }
}

} // verus!
