//! The messages of the control connection and of a hook's own connection,
//! with their payload encodings.
//!
//! Every structure is an array of its fields in declaration order. Every
//! variant of an enumeration is an array of two items: the index of the
//! variant, and the array of its fields.

use crate::cbor::{
    array_at, bool_at, bool_item, bytes_at, bytes_item, head, put_array, put_bool, put_bytes,
    put_uint, put_uint_array, take_array, take_bool, take_bytes, take_uint, take_uint_array,
    uint_array, uint_array_at, uint_at, ARRAY, UINT,
};
use vstd::prelude::*;
use vstd::string::*;

verus! {

/// Why bytes from the wire were refused.
#[derive(Clone, Copy, Debug, PartialEq, Eq, Structural)]
pub enum ProtocolError {
    /// The opcode names no command.
    UnknownOpcode,
    /// The payload is not the encoding of the message that was expected.
    MalformedPayload,
}

/// The commands of the control connection.
#[derive(Clone, Copy, Debug, PartialEq, Eq, Structural)]
pub enum CMD {
    Read,
    Write,
    Call,
    Disconnect,
    Shutdown,
    InstallHook,
    ToggleHook,
    UninstallHook,
}

impl ProtocolError {
    /// The text that goes to the controller for this failure.
    pub open spec fn spec_message(self) -> Seq<char> {
        match self {
            ProtocolError::UnknownOpcode => "Unknown command"@,
            ProtocolError::MalformedPayload => "Malformed payload"@,
        }
    }

    /// The text that goes to the controller for this failure.
    pub fn message(&self) -> (r: String)
        ensures
            r@ == self.spec_message(),
    {
        match self {
            ProtocolError::UnknownOpcode => String::from_str("Unknown command"),
            ProtocolError::MalformedPayload => String::from_str("Malformed payload"),
        }
    }
}

impl CMD {
    /// The opcode of a command.
    pub open spec fn code(self) -> u32 {
        match self {
            CMD::Read => 0,
            CMD::Write => 1,
            CMD::Call => 2,
            CMD::Disconnect => 3,
            CMD::Shutdown => 4,
            CMD::InstallHook => 5,
            CMD::ToggleHook => 6,
            CMD::UninstallHook => 7,
        }
    }

    /// The command that an opcode names.
    pub open spec fn of_code(code: u32) -> Option<CMD> {
        if code == 0 {
            Some(CMD::Read)
        } else if code == 1 {
            Some(CMD::Write)
        } else if code == 2 {
            Some(CMD::Call)
        } else if code == 3 {
            Some(CMD::Disconnect)
        } else if code == 4 {
            Some(CMD::Shutdown)
        } else if code == 5 {
            Some(CMD::InstallHook)
        } else if code == 6 {
            Some(CMD::ToggleHook)
        } else if code == 7 {
            Some(CMD::UninstallHook)
        } else {
            None
        }
    }

    /// The opcode of this command.
    pub fn to_u32(&self) -> (r: u32)
        ensures
            r == self.code(),
            CMD::of_code(r) == Some(*self),
    {
        match self {
            CMD::Read => 0,
            CMD::Write => 1,
            CMD::Call => 2,
            CMD::Disconnect => 3,
            CMD::Shutdown => 4,
            CMD::InstallHook => 5,
            CMD::ToggleHook => 6,
            CMD::UninstallHook => 7,
        }
    }

    /// The command that `code` names.
    ///
    /// Fails with `UnknownOpcode` exactly when `code` is above 7.
    pub fn decode(code: u32) -> (r: Result<CMD, ProtocolError>)
        ensures
            match r {
                Ok(cmd) => CMD::of_code(code) == Some(cmd),
                Err(e) => e == ProtocolError::UnknownOpcode && CMD::of_code(code).is_none(),
            },
    {
        match CMD::from_u32(code) {
            Some(cmd) => Ok(cmd),
            None => Err(ProtocolError::UnknownOpcode),
        }
    }

    /// The command that `code` names, if any.
    pub fn from_u32(code: u32) -> (r: Option<CMD>)
        ensures
            r == CMD::of_code(code),
            r.is_some() <==> code <= 7,
            r.is_some() ==> r.unwrap().code() == code,
    {
        if code == 0 {
            Some(CMD::Read)
        } else if code == 1 {
            Some(CMD::Write)
        } else if code == 2 {
            Some(CMD::Call)
        } else if code == 3 {
            Some(CMD::Disconnect)
        } else if code == 4 {
            Some(CMD::Shutdown)
        } else if code == 5 {
            Some(CMD::InstallHook)
        } else if code == 6 {
            Some(CMD::ToggleHook)
        } else if code == 7 {
            Some(CMD::UninstallHook)
        } else {
            None
        }
    }
}

/// The position behind an array header at `pos` that announces exactly `n`
/// items.
pub open spec fn fixed_array_at(bytes: Seq<u8>, pos: int, n: u64) -> Option<int> {
    match array_at(bytes, pos) {
        Some((Some(m), end)) => if m == n {
            Some(end)
        } else {
            None
        },
        _ => None,
    }
}

/// Reads an array header that announces exactly `n` items.
pub fn take_fixed_array(bytes: &[u8], pos: usize, n: u64) -> (r: Option<usize>)
    ensures
        match r {
            Some(end) => fixed_array_at(bytes@, pos as int, n) == Some(end as int),
            None => fixed_array_at(bytes@, pos as int, n).is_none(),
        },
{
    match take_array(bytes, pos) {
        Some((Some(m), end)) => if m == n {
            Some(end)
        } else {
            None
        },
        _ => None,
    }
}

/// Read `size` bytes at `address`.
#[derive(Clone, Copy, Debug, PartialEq, Eq, Structural)]
pub struct ReadCmd {
    pub address: u64,
    pub size: u64,
}

impl ReadCmd {
    /// The payload of this command.
    pub open spec fn wire(self) -> Seq<u8> {
        head(ARRAY, 2) + head(UINT, self.address) + head(UINT, self.size)
    }

    /// The command encoded at `pos`, and the position behind it.
    pub open spec fn parse(bytes: Seq<u8>, pos: int) -> Option<(ReadCmd, int)> {
        match fixed_array_at(bytes, pos, 2) {
            Some(pos1) => match uint_at(bytes, pos1) {
                Some((address, pos2)) => match uint_at(bytes, pos2) {
                    Some((size, pos3)) => Some((ReadCmd { address, size }, pos3)),
                    None => None,
                },
                None => None,
            },
            None => None,
        }
    }

    /// The payload of this command.
    pub fn encode(&self) -> (r: Vec<u8>)
        ensures
            r@ == self.wire(),
    {
        let mut buf: Vec<u8> = Vec::new();
        put_array(&mut buf, 2);
        put_uint(&mut buf, self.address);
        put_uint(&mut buf, self.size);
        assert(buf@ =~= self.wire());
        buf
    }

    /// The command that `bytes` starts with.
    ///
    /// Fails with `MalformedPayload` exactly when `bytes` does not start
    /// with an array of two unsigned integers.
    pub fn decode(bytes: &[u8]) -> (r: Result<ReadCmd, ProtocolError>)
        ensures
            match r {
                Ok(c) => ReadCmd::parse(bytes@, 0).is_some() && ReadCmd::parse(bytes@, 0).unwrap().0
                    == c,
                Err(e) => e == ProtocolError::MalformedPayload && ReadCmd::parse(
                    bytes@,
                    0,
                ).is_none(),
            },
    {
        let pos1 = match take_fixed_array(bytes, 0, 2) {
            Some(p) => p,
            None => {
                return Err(ProtocolError::MalformedPayload);
            },
        };
        let (address, pos2) = match take_uint(bytes, pos1) {
            Some(x) => x,
            None => {
                return Err(ProtocolError::MalformedPayload);
            },
        };
        match take_uint(bytes, pos2) {
            Some((size, _)) => Ok(ReadCmd { address, size }),
            None => Err(ProtocolError::MalformedPayload),
        }
    }
}

/// Write `buff` at `address`.
#[derive(Debug)]
pub struct WriteCmd {
    pub address: u64,
    pub buff: Vec<u8>,
}

/// What a `WriteCmd` holds.
pub struct WriteCmdView {
    pub address: u64,
    pub buff: Seq<u8>,
}

impl View for WriteCmd {
    type V = WriteCmdView;

    open spec fn view(&self) -> WriteCmdView {
        WriteCmdView { address: self.address, buff: self.buff@ }
    }
}

impl WriteCmdView {
    /// The payload of this command.
    pub open spec fn wire(self) -> Seq<u8> {
        head(ARRAY, 2) + head(UINT, self.address) + bytes_item(self.buff)
    }

    /// The command encoded at `pos`, and the position behind it.
    pub open spec fn parse(bytes: Seq<u8>, pos: int) -> Option<(WriteCmdView, int)> {
        match fixed_array_at(bytes, pos, 2) {
            Some(pos1) => match uint_at(bytes, pos1) {
                Some((address, pos2)) => match bytes_at(bytes, pos2) {
                    Some((buff, pos3)) => Some((WriteCmdView { address, buff }, pos3)),
                    None => None,
                },
                None => None,
            },
            None => None,
        }
    }
}

impl WriteCmd {
    /// The payload of this command.
    pub fn encode(&self) -> (r: Vec<u8>)
        ensures
            r@ == self@.wire(),
    {
        let mut buf: Vec<u8> = Vec::new();
        put_array(&mut buf, 2);
        put_uint(&mut buf, self.address);
        put_bytes(&mut buf, self.buff.as_slice());
        assert(buf@ =~= self@.wire());
        buf
    }

    /// The command that `bytes` starts with.
    ///
    /// Fails with `MalformedPayload` exactly when `bytes` does not start
    /// with an array of an unsigned integer and a byte string.
    pub fn decode(bytes: &[u8]) -> (r: Result<WriteCmd, ProtocolError>)
        ensures
            match r {
                Ok(c) => WriteCmdView::parse(bytes@, 0).is_some() && WriteCmdView::parse(
                    bytes@,
                    0,
                ).unwrap().0 == c@,
                Err(e) => e == ProtocolError::MalformedPayload && WriteCmdView::parse(
                    bytes@,
                    0,
                ).is_none(),
            },
    {
        let pos1 = match take_fixed_array(bytes, 0, 2) {
            Some(p) => p,
            None => {
                return Err(ProtocolError::MalformedPayload);
            },
        };
        let (address, pos2) = match take_uint(bytes, pos1) {
            Some(x) => x,
            None => {
                return Err(ProtocolError::MalformedPayload);
            },
        };
        match take_bytes(bytes, pos2) {
            Some((buff, _)) => Ok(WriteCmd { address, buff }),
            None => Err(ProtocolError::MalformedPayload),
        }
    }
}

/// Call the function at `address` with `arguments`.
#[derive(Debug)]
pub struct CallCmd {
    pub address: u64,
    pub arguments: Vec<u64>,
}

/// What a `CallCmd` holds.
pub struct CallCmdView {
    pub address: u64,
    pub arguments: Seq<u64>,
}

impl View for CallCmd {
    type V = CallCmdView;

    open spec fn view(&self) -> CallCmdView {
        CallCmdView { address: self.address, arguments: self.arguments@ }
    }
}

impl CallCmdView {
    /// The payload of this command.
    pub open spec fn wire(self) -> Seq<u8> {
        head(ARRAY, 2) + head(UINT, self.address) + uint_array(self.arguments)
    }

    /// The command encoded at `pos`, and the position behind it.
    pub open spec fn parse(bytes: Seq<u8>, pos: int) -> Option<(CallCmdView, int)> {
        match fixed_array_at(bytes, pos, 2) {
            Some(pos1) => match uint_at(bytes, pos1) {
                Some((address, pos2)) => match uint_array_at(bytes, pos2) {
                    Some((arguments, pos3)) => Some((CallCmdView { address, arguments }, pos3)),
                    None => None,
                },
                None => None,
            },
            None => None,
        }
    }
}

impl CallCmd {
    /// The payload of this command.
    pub fn encode(&self) -> (r: Vec<u8>)
        ensures
            r@ == self@.wire(),
    {
        let mut buf: Vec<u8> = Vec::new();
        put_array(&mut buf, 2);
        put_uint(&mut buf, self.address);
        put_uint_array(&mut buf, &self.arguments);
        assert(buf@ =~= self@.wire());
        buf
    }

    /// The command that `bytes` starts with.
    ///
    /// Fails with `MalformedPayload` exactly when `bytes` does not start
    /// with an array of an unsigned integer and an array of unsigned
    /// integers.
    pub fn decode(bytes: &[u8]) -> (r: Result<CallCmd, ProtocolError>)
        ensures
            match r {
                Ok(c) => CallCmdView::parse(bytes@, 0).is_some() && CallCmdView::parse(
                    bytes@,
                    0,
                ).unwrap().0 == c@,
                Err(e) => e == ProtocolError::MalformedPayload && CallCmdView::parse(
                    bytes@,
                    0,
                ).is_none(),
            },
    {
        let pos1 = match take_fixed_array(bytes, 0, 2) {
            Some(p) => p,
            None => {
                return Err(ProtocolError::MalformedPayload);
            },
        };
        let (address, pos2) = match take_uint(bytes, pos1) {
            Some(x) => x,
            None => {
                return Err(ProtocolError::MalformedPayload);
            },
        };
        match take_uint_array(bytes, pos2) {
            Some((arguments, _)) => Ok(CallCmd { address, arguments }),
            None => Err(ProtocolError::MalformedPayload),
        }
    }
}

/// Hook the function at `address`: replace its first `prefix_size` bytes and
/// serve its calls over a connection accepted on `port`.
#[derive(Clone, Copy, Debug, PartialEq, Eq, Structural)]
pub struct InstallHookCmd {
    pub address: u64,
    pub prefix_size: u64,
    pub port: u64,
}

impl InstallHookCmd {
    /// The payload of this command.
    pub open spec fn wire(self) -> Seq<u8> {
        head(ARRAY, 3) + head(UINT, self.address) + head(UINT, self.prefix_size) + head(
            UINT,
            self.port,
        )
    }

    /// The command encoded at `pos`, and the position behind it.
    pub open spec fn parse(bytes: Seq<u8>, pos: int) -> Option<(InstallHookCmd, int)> {
        match fixed_array_at(bytes, pos, 3) {
            Some(pos1) => match uint_at(bytes, pos1) {
                Some((address, pos2)) => match uint_at(bytes, pos2) {
                    Some((prefix_size, pos3)) => match uint_at(bytes, pos3) {
                        Some((port, pos4)) => Some(
                            (InstallHookCmd { address, prefix_size, port }, pos4),
                        ),
                        None => None,
                    },
                    None => None,
                },
                None => None,
            },
            None => None,
        }
    }

    /// The payload of this command.
    pub fn encode(&self) -> (r: Vec<u8>)
        ensures
            r@ == self.wire(),
    {
        let mut buf: Vec<u8> = Vec::new();
        put_array(&mut buf, 3);
        put_uint(&mut buf, self.address);
        put_uint(&mut buf, self.prefix_size);
        put_uint(&mut buf, self.port);
        assert(buf@ =~= self.wire());
        buf
    }

    /// The command that `bytes` starts with.
    ///
    /// Fails with `MalformedPayload` exactly when `bytes` does not start
    /// with an array of three unsigned integers.
    pub fn decode(bytes: &[u8]) -> (r: Result<InstallHookCmd, ProtocolError>)
        ensures
            match r {
                Ok(c) => InstallHookCmd::parse(bytes@, 0).is_some() && InstallHookCmd::parse(
                    bytes@,
                    0,
                ).unwrap().0 == c,
                Err(e) => e == ProtocolError::MalformedPayload && InstallHookCmd::parse(
                    bytes@,
                    0,
                ).is_none(),
            },
    {
        let pos1 = match take_fixed_array(bytes, 0, 3) {
            Some(p) => p,
            None => {
                return Err(ProtocolError::MalformedPayload);
            },
        };
        let (address, pos2) = match take_uint(bytes, pos1) {
            Some(x) => x,
            None => {
                return Err(ProtocolError::MalformedPayload);
            },
        };
        let (prefix_size, pos3) = match take_uint(bytes, pos2) {
            Some(x) => x,
            None => {
                return Err(ProtocolError::MalformedPayload);
            },
        };
        match take_uint(bytes, pos3) {
            Some((port, _)) => Ok(InstallHookCmd { address, prefix_size, port }),
            None => Err(ProtocolError::MalformedPayload),
        }
    }
}

/// Remove the hook at `address`.
#[derive(Clone, Copy, Debug, PartialEq, Eq, Structural)]
pub struct UninstallHookCmd {
    pub address: u64,
}

impl UninstallHookCmd {
    /// The payload of this command.
    pub open spec fn wire(self) -> Seq<u8> {
        head(ARRAY, 1) + head(UINT, self.address)
    }

    /// The command encoded at `pos`, and the position behind it.
    pub open spec fn parse(bytes: Seq<u8>, pos: int) -> Option<(UninstallHookCmd, int)> {
        match fixed_array_at(bytes, pos, 1) {
            Some(pos1) => match uint_at(bytes, pos1) {
                Some((address, pos2)) => Some((UninstallHookCmd { address }, pos2)),
                None => None,
            },
            None => None,
        }
    }

    /// The payload of this command.
    pub fn encode(&self) -> (r: Vec<u8>)
        ensures
            r@ == self.wire(),
    {
        let mut buf: Vec<u8> = Vec::new();
        put_array(&mut buf, 1);
        put_uint(&mut buf, self.address);
        assert(buf@ =~= self.wire());
        buf
    }

    /// The command that `bytes` starts with.
    ///
    /// Fails with `MalformedPayload` exactly when `bytes` does not start
    /// with an array of one unsigned integer.
    pub fn decode(bytes: &[u8]) -> (r: Result<UninstallHookCmd, ProtocolError>)
        ensures
            match r {
                Ok(c) => UninstallHookCmd::parse(bytes@, 0).is_some() && UninstallHookCmd::parse(
                    bytes@,
                    0,
                ).unwrap().0 == c,
                Err(e) => e == ProtocolError::MalformedPayload && UninstallHookCmd::parse(
                    bytes@,
                    0,
                ).is_none(),
            },
    {
        let pos1 = match take_fixed_array(bytes, 0, 1) {
            Some(p) => p,
            None => {
                return Err(ProtocolError::MalformedPayload);
            },
        };
        match take_uint(bytes, pos1) {
            Some((address, _)) => Ok(UninstallHookCmd { address }),
            None => Err(ProtocolError::MalformedPayload),
        }
    }
}

/// Enable or disable the hook at `address`.
#[derive(Clone, Copy, Debug, PartialEq, Eq, Structural)]
pub struct ToggleHookCmd {
    pub address: u64,
    pub enabled: bool,
}

impl ToggleHookCmd {
    /// The payload of this command.
    pub open spec fn wire(self) -> Seq<u8> {
        head(ARRAY, 2) + head(UINT, self.address) + bool_item(self.enabled)
    }

    /// The command encoded at `pos`, and the position behind it.
    pub open spec fn parse(bytes: Seq<u8>, pos: int) -> Option<(ToggleHookCmd, int)> {
        match fixed_array_at(bytes, pos, 2) {
            Some(pos1) => match uint_at(bytes, pos1) {
                Some((address, pos2)) => match bool_at(bytes, pos2) {
                    Some((enabled, pos3)) => Some((ToggleHookCmd { address, enabled }, pos3)),
                    None => None,
                },
                None => None,
            },
            None => None,
        }
    }

    /// The payload of this command.
    pub fn encode(&self) -> (r: Vec<u8>)
        ensures
            r@ == self.wire(),
    {
        let mut buf: Vec<u8> = Vec::new();
        put_array(&mut buf, 2);
        put_uint(&mut buf, self.address);
        put_bool(&mut buf, self.enabled);
        assert(buf@ =~= self.wire());
        buf
    }

    /// The command that `bytes` starts with.
    ///
    /// Fails with `MalformedPayload` exactly when `bytes` does not start
    /// with an array of an unsigned integer and a boolean.
    pub fn decode(bytes: &[u8]) -> (r: Result<ToggleHookCmd, ProtocolError>)
        ensures
            match r {
                Ok(c) => ToggleHookCmd::parse(bytes@, 0).is_some() && ToggleHookCmd::parse(
                    bytes@,
                    0,
                ).unwrap().0 == c,
                Err(e) => e == ProtocolError::MalformedPayload && ToggleHookCmd::parse(
                    bytes@,
                    0,
                ).is_none(),
            },
    {
        let pos1 = match take_fixed_array(bytes, 0, 2) {
            Some(p) => p,
            None => {
                return Err(ProtocolError::MalformedPayload);
            },
        };
        let (address, pos2) = match take_uint(bytes, pos1) {
            Some(x) => x,
            None => {
                return Err(ProtocolError::MalformedPayload);
            },
        };
        match take_bool(bytes, pos2) {
            Some((enabled, _)) => Ok(ToggleHookCmd { address, enabled }),
            None => Err(ProtocolError::MalformedPayload),
        }
    }
}

} // verus!
