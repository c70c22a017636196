//! The dispatch loop of the control connection, as a machine that is told
//! what arrived and says what to do.
//!
//! A request leads to one effect: memory to read or write, a function to
//! call, a connection to open, a patch to carry out, or the reply itself.
//! The outcome of an effect leads to the next one, until the reply is out.
//! Exactly one reply goes out for every request.

use crate::error::HookError;
use crate::frame::{first_request, framed, read_request, write_msg_buffer};
use crate::interactive_hook::{
    hooked, install_refusal, lemma_position, lemma_position_found, position, HookEntry,
    InteractiveHooks,
};
use crate::message::{
    CallCmd, CallCmdView, InstallHookCmd, ProtocolError, ReadCmd, ToggleHookCmd,
    UninstallHookCmd, WriteCmd, WriteCmdView, CMD,
};
use crate::patcher::PatchAction;
use crate::response::{Response, ResponseStatus, ResponseStatusView, ResponseView};
use vstd::prelude::*;
use vstd::string::*;

verus! {

/// The most arguments that a call by address can carry.
pub const MAX_CALL_ARGUMENTS: usize = 10;

/// Where the serving loop stands.
#[derive(Clone, Copy, Debug, PartialEq, Eq, Structural)]
pub enum EngineState {
    /// Requests are served.
    Running,
    /// The controller has taken leave; the next one may connect.
    Disconnecting,
    /// The engine is to exit.
    ShuttingDown,
}

/// What the serving loop does after a reply.
#[derive(Clone, Copy, Debug, PartialEq, Eq, Structural)]
pub enum Control {
    /// Read the next request.
    Serve,
    /// Drop the connection and accept a new one.
    Accept,
    /// Leave the loop.
    Exit,
}

/// The effect whose outcome the engine waits for.
#[derive(Clone, Copy, Debug, PartialEq, Eq, Structural)]
pub enum Pending {
    Idle,
    Read,
    Write { len: u64 },
    Call,
    Open { cmd: InstallHookCmd },
    Install { address: u64, connection: u64 },
    Toggle,
    Uninstall { connection: u64 },
}

/// What is to be done for the engine.
#[derive(Debug)]
pub enum Effect {
    /// Read `size` bytes at `address`.
    ReadMemory { address: u64, size: u64 },
    /// Write `buff` at `address`.
    WriteMemory { address: u64, buff: Vec<u8> },
    /// Call the function at `address` with `arguments`.
    CallFunction { address: u64, arguments: Vec<u64> },
    /// Accept a connection on `port`, and capture the first `prefix_size`
    /// bytes at `address`.
    OpenHook { address: u64, prefix_size: u64, port: u64 },
    /// Carry out `actions` at `target`, in order.
    Patch { target: u64, actions: Vec<PatchAction> },
    /// Send `frame` on the control connection, and close the hook
    /// connection `close` where one is named.
    Reply { frame: Vec<u8>, close: Option<u64> },
}

/// What an `Effect` holds.
pub enum EffectView {
    ReadMemory { address: u64, size: u64 },
    WriteMemory { address: u64, buff: Seq<u8> },
    CallFunction { address: u64, arguments: Seq<u64> },
    OpenHook { address: u64, prefix_size: u64, port: u64 },
    Patch { target: u64, actions: Seq<PatchAction> },
    Reply { frame: Seq<u8>, close: Option<u64> },
}

impl View for Effect {
    type V = EffectView;

    open spec fn view(&self) -> EffectView {
        match self {
            Effect::ReadMemory { address, size } => EffectView::ReadMemory {
                address: *address,
                size: *size,
            },
            Effect::WriteMemory { address, buff } => EffectView::WriteMemory {
                address: *address,
                buff: buff@,
            },
            Effect::CallFunction { address, arguments } => EffectView::CallFunction {
                address: *address,
                arguments: arguments@,
            },
            Effect::OpenHook { address, prefix_size, port } => EffectView::OpenHook {
                address: *address,
                prefix_size: *prefix_size,
                port: *port,
            },
            Effect::Patch { target, actions } => EffectView::Patch {
                target: *target,
                actions: actions@,
            },
            Effect::Reply { frame, close } => EffectView::Reply { frame: frame@, close: *close },
        }
    }
}

/// How an effect ended.
#[derive(Debug)]
pub enum Outcome {
    /// The bytes that were read.
    BytesRead { buff: Vec<u8> },
    /// The bytes were written.
    Written,
    /// What the function returned.
    Returned { ret: u64 },
    /// The handle of the connection that was accepted, and the bytes that
    /// were captured.
    HookOpened { connection: u64, original_bytes: Vec<u8> },
    /// The patch was carried out.
    Patched,
    /// The effect could not be carried out.
    Failed,
}

/// What an `Outcome` holds.
pub enum OutcomeView {
    BytesRead { buff: Seq<u8> },
    Written,
    Returned { ret: u64 },
    HookOpened { connection: u64, original_bytes: Seq<u8> },
    Patched,
    Failed,
}

impl View for Outcome {
    type V = OutcomeView;

    open spec fn view(&self) -> OutcomeView {
        match self {
            Outcome::BytesRead { buff } => OutcomeView::BytesRead { buff: buff@ },
            Outcome::Written => OutcomeView::Written,
            Outcome::Returned { ret } => OutcomeView::Returned { ret: *ret },
            Outcome::HookOpened { connection, original_bytes } => OutcomeView::HookOpened {
                connection: *connection,
                original_bytes: original_bytes@,
            },
            Outcome::Patched => OutcomeView::Patched,
            Outcome::Failed => OutcomeView::Failed,
        }
    }
}

/// The reply that carries `status`.
pub open spec fn reply(status: ResponseStatusView, close: Option<u64>) -> EffectView {
    EffectView::Reply { frame: framed(status.wire()), close }
}

/// The reply to a command that was carried out.
pub open spec fn success(response: ResponseView, close: Option<u64>) -> EffectView {
    reply(ResponseStatusView::Success { response }, close)
}

/// The reply to a command that was not carried out.
pub open spec fn failure(message: Seq<char>, close: Option<u64>) -> EffectView {
    reply(ResponseStatusView::Error { message }, close)
}

/// What the controller reads where the opcode names no command.
pub open spec fn unknown_command() -> Seq<char> {
    ProtocolError::UnknownOpcode.spec_message()
}

/// What the controller reads where the payload cannot be decoded.
pub open spec fn malformed_payload() -> Seq<char> {
    ProtocolError::MalformedPayload.spec_message()
}

/// What the controller reads where memory could not be read.
pub open spec fn read_failed() -> Seq<char> {
    "Error reading from address"@
}

/// What the controller reads where memory could not be written.
pub open spec fn write_failed() -> Seq<char> {
    "Error writing to address"@
}

/// What the controller reads where a function could not be called.
pub open spec fn call_failed() -> Seq<char> {
    "Error executing function"@
}

/// Why a call with more than ten arguments is refused.
pub open spec fn too_many_params() -> Seq<char> {
    "Too many params"@
}

/// What the controller reads where a hook to toggle is not installed.
pub open spec fn toggle_not_found() -> Seq<char> {
    "Cannot toggle hook, hook not found"@
}

/// What the controller reads where no connection for a hook could be had.
pub open spec fn open_failed() -> Seq<char> {
    "Could not open the hook connection"@
}

/// What a `Read` request leads to.
pub open spec fn read_step(payload: Seq<u8>) -> (Pending, EffectView) {
    match ReadCmd::parse(payload, 0) {
        Some((c, _)) => (
            Pending::Read,
            EffectView::ReadMemory { address: c.address, size: c.size },
        ),
        None => (Pending::Idle, failure(malformed_payload(), None)),
    }
}

/// What a `Write` request leads to.
pub open spec fn write_step(payload: Seq<u8>) -> (Pending, EffectView) {
    match WriteCmdView::parse(payload, 0) {
        Some((c, _)) => (
            Pending::Write { len: c.buff.len() as u64 },
            EffectView::WriteMemory { address: c.address, buff: c.buff },
        ),
        None => (Pending::Idle, failure(malformed_payload(), None)),
    }
}

/// What a `Call` request leads to: the call with exactly the arguments of
/// the request, unless they are more than ten.
pub open spec fn call_step(payload: Seq<u8>) -> (Pending, EffectView) {
    match CallCmdView::parse(payload, 0) {
        Some((c, _)) => if c.arguments.len() <= MAX_CALL_ARGUMENTS {
            (
                Pending::Call,
                EffectView::CallFunction { address: c.address, arguments: c.arguments },
            )
        } else {
            (Pending::Idle, failure(call_failed(), None))
        },
        None => (Pending::Idle, failure(malformed_payload(), None)),
    }
}

/// What an `InstallHook` request leads to.
pub open spec fn open_step(payload: Seq<u8>) -> (Pending, EffectView) {
    match InstallHookCmd::parse(payload, 0) {
        Some((c, _)) => (
            Pending::Open { cmd: c },
            EffectView::OpenHook { address: c.address, prefix_size: c.prefix_size, port: c.port },
        ),
        None => (Pending::Idle, failure(malformed_payload(), None)),
    }
}

/// What a `ToggleHook` request leads to.
pub open spec fn toggle_step(entries: Seq<HookEntry>, payload: Seq<u8>) -> (Pending, EffectView) {
    match ToggleHookCmd::parse(payload, 0) {
        Some((c, _)) => if hooked(entries, c.address) {
            (
                Pending::Toggle,
                EffectView::Patch {
                    target: c.address,
                    actions: entries[position(entries, c.address)].hook.plan(c.enabled),
                },
            )
        } else {
            (Pending::Idle, failure(toggle_not_found(), None))
        },
        None => (Pending::Idle, failure(malformed_payload(), None)),
    }
}

/// What an `UninstallHook` request leads to: the entry leaves the registry,
/// and the patch that restores the original bytes is to be carried out.
pub open spec fn uninstall_step(entries: Seq<HookEntry>, payload: Seq<u8>) -> (
    Seq<HookEntry>,
    Pending,
    EffectView,
) {
    match UninstallHookCmd::parse(payload, 0) {
        Some((c, _)) => if hooked(entries, c.address) {
            let i = position(entries, c.address);
            (
                entries.remove(i),
                Pending::Uninstall { connection: entries[i].connection },
                EffectView::Patch { target: c.address, actions: entries[i].hook.plan(false) },
            )
        } else {
            (entries, Pending::Idle, failure(HookError::HookNotFound.spec_message(), None))
        },
        None => (entries, Pending::Idle, failure(malformed_payload(), None)),
    }
}

/// The call of the function at `address` with `arguments`.
///
/// Fails with "Too many params" exactly when there are more than ten
/// arguments; else the call carries exactly the arguments given.
pub fn make_call(address: u64, arguments: Vec<u64>) -> (r: Result<Effect, String>)
    ensures
        arguments@.len() > MAX_CALL_ARGUMENTS ==> r.is_err() && r.unwrap_err()@
            == too_many_params(),
        arguments@.len() <= MAX_CALL_ARGUMENTS ==> r.is_ok() && r.unwrap()@
            == (EffectView::CallFunction { address, arguments: arguments@ }),
{
    if arguments.len() >= 11 {
        return Err(String::from_str("Too many params"));
    }
    Ok(Effect::CallFunction { address, arguments })
}

/// The reply that carries `status`.
pub fn reply_with(status: &ResponseStatus, close: Option<u64>) -> (r: Effect)
    ensures
        r@ == reply(status@, close),
{
    let payload = status.encode();
    let mut frame: Vec<u8> = Vec::new();
    write_msg_buffer(&mut frame, payload.as_slice());
    assert(frame@ =~= framed(payload@));
    Effect::Reply { frame, close }
}

/// The serving side of the control connection.
pub struct Engine {
    state: EngineState,
    pending: Pending,
    hooks: InteractiveHooks,
    callback: u64,
}

impl Engine {
    /// Where the serving loop stands.
    pub closed spec fn state(&self) -> EngineState {
        self.state
    }

    /// The effect whose outcome is awaited.
    pub closed spec fn pending(&self) -> Pending {
        self.pending
    }

    /// The installed hooks.
    pub closed spec fn hooks(&self) -> InteractiveHooks {
        self.hooks
    }

    /// The entries of the registry.
    pub open spec fn entries(&self) -> Seq<HookEntry> {
        self.hooks().entries()
    }

    /// The address of the callback that every hook branches to.
    pub closed spec fn callback(&self) -> u64 {
        self.callback
    }

    /// The registry is in order, and a hook whose first patch is under way
    /// is in it.
    pub open spec fn wf(&self) -> bool {
        &&& self.hooks().wf()
        &&& (self.pending() matches Pending::Install { address, connection } ==> hooked(
            self.entries(),
            address,
        ))
    }

    /// Whether the engine waits for a request.
    pub open spec fn ready(&self) -> bool {
        self.state() == EngineState::Running && self.pending() == Pending::Idle
    }

    /// An engine without hooks, whose hooks will branch to `callback`.
    pub fn new(callback: u64) -> (r: Engine)
        ensures
            r.wf(),
            r.ready(),
            r.callback() == callback,
            r.entries().len() == 0,
    {
        Engine {
            state: EngineState::Running,
            pending: Pending::Idle,
            hooks: InteractiveHooks::new(),
            callback,
        }
    }

    /// Where the serving loop stands.
    pub fn current_state(&self) -> (r: EngineState)
        ensures
            r == self.state(),
    {
        self.state
    }

    /// Whether the engine waits for a request, not for an outcome.
    pub fn is_ready(&self) -> (r: bool)
        ensures
            r == self.ready(),
    {
        self.state == EngineState::Running && self.pending == Pending::Idle
    }

    /// Whether the engine waits for the outcome of an effect.
    pub fn is_waiting(&self) -> (r: bool)
        ensures
            r == (self.pending() != Pending::Idle),
    {
        self.pending != Pending::Idle
    }

    /// The installed hooks.
    pub fn registry(&self) -> (r: &InteractiveHooks)
        ensures
            *r == self.hooks(),
    {
        &self.hooks
    }

    /// What the serving loop does after a reply: it goes on, takes a new
    /// controller after a `Disconnect`, or ends after a `Shutdown`.
    pub fn run(&mut self) -> (r: Control)
        requires
            old(self).wf(),
        ensures
            final(self).wf(),
            final(self).hooks() == old(self).hooks(),
            final(self).pending() == old(self).pending(),
            final(self).callback() == old(self).callback(),
            old(self).state() == EngineState::Running ==> r == Control::Serve && final(self).state() == EngineState::Running,
            old(self).state() == EngineState::Disconnecting ==> r == Control::Accept && final(self).state() == EngineState::Running,
            old(self).state() == EngineState::ShuttingDown ==> r == Control::Exit && final(self).state() == EngineState::ShuttingDown,
    {
        match self.state {
            EngineState::Running => Control::Serve,
            EngineState::Disconnecting => {
                self.state = EngineState::Running;
                Control::Accept
            },
            EngineState::ShuttingDown => Control::Exit,
        }
    }

    /// Takes note that the control connection failed: whatever was awaited
    /// is given up, and the next controller may connect. The registry stays
    /// as it is.
    pub fn connection_lost(&mut self) -> (r: Control)
        requires
            old(self).wf(),
        ensures
            final(self).wf(),
            final(self).hooks() == old(self).hooks(),
            final(self).callback() == old(self).callback(),
            final(self).pending() == Pending::Idle,
            old(self).state() == EngineState::ShuttingDown ==> r == Control::Exit && final(self).state() == EngineState::ShuttingDown,
            old(self).state() != EngineState::ShuttingDown ==> r == Control::Accept && final(self).state() == EngineState::Running,
    {
        self.pending = Pending::Idle;
        match self.state {
            EngineState::ShuttingDown => Control::Exit,
            _ => {
                self.state = EngineState::Running;
                Control::Accept
            },
        }
    }

    /// The reply to a command that was not carried out.
    fn refuse(message: String, close: Option<u64>) -> (r: Effect)
        ensures
            r@ == failure(message@, close),
    {
        reply_with(&ResponseStatus::Error { message }, close)
    }

    /// The reply to a command that was carried out.
    fn grant(response: Response, close: Option<u64>) -> (r: Effect)
        ensures
            r@ == success(response@, close),
    {
        reply_with(&ResponseStatus::Success { response }, close)
    }

    /// The effect of a `Read` request.
    fn handle_read(&mut self, message: &[u8]) -> (r: Effect)
        requires
            old(self).wf(),
            old(self).ready(),
        ensures
            final(self).wf(),
            final(self).state() == old(self).state(),
            final(self).hooks() == old(self).hooks(),
            final(self).callback() == old(self).callback(),
            (final(self).pending(), r@) == read_step(message@),
    {
        match ReadCmd::decode(message) {
            Ok(c) => {
                self.pending = Pending::Read;
                Effect::ReadMemory { address: c.address, size: c.size }
            },
            Err(err) => Engine::refuse(err.message(), None),
        }
    }

    /// The effect of a `Write` request.
    fn handle_write(&mut self, message: &[u8]) -> (r: Effect)
        requires
            old(self).wf(),
            old(self).ready(),
        ensures
            final(self).wf(),
            final(self).state() == old(self).state(),
            final(self).hooks() == old(self).hooks(),
            final(self).callback() == old(self).callback(),
            (final(self).pending(), r@) == write_step(message@),
    {
        match WriteCmd::decode(message) {
            Ok(c) => {
                self.pending = Pending::Write { len: c.buff.len() as u64 };
                Effect::WriteMemory { address: c.address, buff: c.buff }
            },
            Err(err) => Engine::refuse(err.message(), None),
        }
    }

    /// The effect of a `Call` request.
    fn handle_call(&mut self, message: &[u8]) -> (r: Effect)
        requires
            old(self).wf(),
            old(self).ready(),
        ensures
            final(self).wf(),
            final(self).state() == old(self).state(),
            final(self).hooks() == old(self).hooks(),
            final(self).callback() == old(self).callback(),
            (final(self).pending(), r@) == call_step(message@),
    {
        match CallCmd::decode(message) {
            Ok(c) => match make_call(c.address, c.arguments) {
                Ok(effect) => {
                    self.pending = Pending::Call;
                    effect
                },
                Err(_) => Engine::refuse(String::from_str("Error executing function"), None),
            },
            Err(err) => Engine::refuse(err.message(), None),
        }
    }

    /// The effect of an `InstallHook` request.
    fn install_hook(&mut self, message: &[u8]) -> (r: Effect)
        requires
            old(self).wf(),
            old(self).ready(),
        ensures
            final(self).wf(),
            final(self).state() == old(self).state(),
            final(self).hooks() == old(self).hooks(),
            final(self).callback() == old(self).callback(),
            (final(self).pending(), r@) == open_step(message@),
    {
        match InstallHookCmd::decode(message) {
            Ok(c) => {
                self.pending = Pending::Open { cmd: c };
                Effect::OpenHook { address: c.address, prefix_size: c.prefix_size, port: c.port }
            },
            Err(err) => Engine::refuse(err.message(), None),
        }
    }

    /// The effect of a `ToggleHook` request.
    fn handle_toggle_hook(&mut self, message: &[u8]) -> (r: Effect)
        requires
            old(self).wf(),
            old(self).ready(),
        ensures
            final(self).wf(),
            final(self).state() == old(self).state(),
            final(self).hooks() == old(self).hooks(),
            final(self).callback() == old(self).callback(),
            (final(self).pending(), r@) == toggle_step(old(self).entries(), message@),
    {
        match ToggleHookCmd::decode(message) {
            Ok(c) => match self.hooks.toggle_interactive_hook(c) {
                Ok(actions) => {
                    self.pending = Pending::Toggle;
                    Effect::Patch { target: c.address, actions }
                },
                Err(_) => Engine::refuse(
                    String::from_str("Cannot toggle hook, hook not found"),
                    None,
                ),
            },
            Err(err) => Engine::refuse(err.message(), None),
        }
    }

    /// The effect of an `UninstallHook` request.
    fn uninstall_hook(&mut self, message: &[u8]) -> (r: Effect)
        requires
            old(self).wf(),
            old(self).ready(),
        ensures
            final(self).wf(),
            final(self).state() == old(self).state(),
            final(self).callback() == old(self).callback(),
            (final(self).entries(), final(self).pending(), r@) == uninstall_step(
                old(self).entries(),
                message@,
            ),
    {
        match UninstallHookCmd::decode(message) {
            Ok(c) => match self.hooks.uninintialize_interactive_hook(c) {
                Ok((connection, actions)) => {
                    self.pending = Pending::Uninstall { connection };
                    Effect::Patch { target: c.address, actions }
                },
                Err(err) => Engine::refuse(err.message(), None),
            },
            Err(err) => Engine::refuse(err.message(), None),
        }
    }

    /// Takes the request with opcode `code` and payload `payload`, and says
    /// what is to be done for it.
    ///
    /// An opcode that names no command, and a payload that is not the
    /// encoding of the command's arguments, are answered with an error at
    /// once. `Disconnect` and `Shutdown` are answered at once and change the
    /// state. Every other command leads to the effect that carries it out.
    pub fn handle_request(&mut self, code: u32, payload: &[u8]) -> (r: Effect)
        requires
            old(self).wf(),
            old(self).ready(),
        ensures
            final(self).wf(),
            handled(*old(self), *final(self), code, payload@, r@),
    {
        match CMD::decode(code) {
            Ok(CMD::Read) => self.handle_read(payload),
            Ok(CMD::Write) => self.handle_write(payload),
            Ok(CMD::Call) => self.handle_call(payload),
            Ok(CMD::InstallHook) => self.install_hook(payload),
            Ok(CMD::UninstallHook) => self.uninstall_hook(payload),
            Ok(CMD::ToggleHook) => self.handle_toggle_hook(payload),
            Ok(CMD::Disconnect) => {
                self.state = EngineState::Disconnecting;
                Engine::grant(Response::Disconnecting, None)
            },
            Ok(CMD::Shutdown) => {
                self.state = EngineState::ShuttingDown;
                Engine::grant(Response::Shutdown, None)
            },
            Err(err) => Engine::refuse(err.message(), None),
        }
    }

    /// Takes the first request off `input`, where `input` holds all of it,
    /// and says what is to be done for it and how many bytes were used.
    /// As long as the request is incomplete, nothing happens.
    pub fn handle_client(&mut self, input: &[u8]) -> (r: Option<(Effect, usize)>)
        requires
            old(self).wf(),
            old(self).ready(),
        ensures
            final(self).wf(),
            match first_request(input@) {
                Some((code, payload, used)) => r.is_some() && r.unwrap().1 == used && handled(
                    *old(self),
                    *final(self),
                    code,
                    payload,
                    r.unwrap().0@,
                ),
                None => r.is_none() && *final(self) == *old(self),
            },
    {
        match read_request(input) {
            Some((code, payload, used)) => {
                let effect = self.handle_request(code, payload.as_slice());
                Some((effect, used))
            },
            None => None,
        }
    }

    /// Takes the outcome of the effect that is awaited, and says what is to
    /// be done next: the reply, or for a hook that has just been made, its
    /// first patch.
    ///
    /// What a read gave and what a call returned go into the reply as they
    /// are. An outcome that does not belong to the effect counts as its
    /// failure. A hook whose first patch fails leaves the registry again. A
    /// hook that cannot be restored on removal ends the engine.
    pub fn handle_outcome(&mut self, outcome: Outcome) -> (r: Effect)
        requires
            old(self).wf(),
            old(self).pending() != Pending::Idle,
        ensures
            final(self).wf(),
            concluded(*old(self), *final(self), outcome@, r@),
    {
        let pending = self.pending;
        self.pending = Pending::Idle;
        match pending {
            Pending::Idle => Engine::refuse(ProtocolError::UnknownOpcode.message(), None),
            Pending::Read => match outcome {
                Outcome::BytesRead { buff } => Engine::grant(Response::BytesRead { buff }, None),
                _ => Engine::refuse(String::from_str("Error reading from address"), None),
            },
            Pending::Write { len } => match outcome {
                Outcome::Written => Engine::grant(Response::BytesWritten { written: len }, None),
                _ => Engine::refuse(String::from_str("Error writing to address"), None),
            },
            Pending::Call => match outcome {
                Outcome::Returned { ret } => Engine::grant(
                    Response::FunctionExecuted { ret },
                    None,
                ),
                _ => Engine::refuse(String::from_str("Error executing function"), None),
            },
            Pending::Open { cmd } => match outcome {
                Outcome::HookOpened { connection, original_bytes } => {
                    match self.hooks.initialize_interactive_hook(
                        cmd,
                        self.callback,
                        original_bytes,
                        connection,
                    ) {
                        Ok(actions) => {
                            self.pending = Pending::Install { address: cmd.address, connection };
                            proof {
                                let entries = self.hooks.entries();
                                lemma_position_found(entries.drop_last(), cmd.address);
                                assert forall|k: int| 0 <= k < entries.len() - 1 implies (
                                #[trigger] entries[k]).hook.address() != cmd.address by {
                                    assert(entries[k] == entries.drop_last()[k]);
                                }
                                lemma_position(entries, cmd.address, entries.len() - 1);
                            }
                            Effect::Patch { target: cmd.address, actions }
                        },
                        Err(err) => Engine::refuse(err.message(), Some(connection)),
                    }
                },
                _ => Engine::refuse(String::from_str("Could not open the hook connection"), None),
            },
            Pending::Install { address, connection } => match outcome {
                Outcome::Patched => Engine::grant(Response::HookInstalled, None),
                _ => {
                    let _ = self.hooks.uninintialize_interactive_hook(
                        UninstallHookCmd { address },
                    );
                    Engine::refuse(HookError::MemoryProtectionFailed.message(), Some(connection))
                },
            },
            Pending::Toggle => match outcome {
                Outcome::Patched => Engine::grant(Response::HookToggled, None),
                _ => Engine::refuse(HookError::MemoryProtectionFailed.message(), None),
            },
            Pending::Uninstall { connection } => match outcome {
                Outcome::Patched => Engine::grant(Response::HookUninstalled, Some(connection)),
                _ => {
                    self.state = EngineState::ShuttingDown;
                    Engine::refuse(HookError::MemoryProtectionFailed.message(), Some(connection))
                },
            },
        }
    }
}

/// What `handle_request` does with a request: the engine before and after,
/// and the effect.
pub open spec fn handled(
    before: Engine,
    after: Engine,
    code: u32,
    payload: Seq<u8>,
    effect: EffectView,
) -> bool {
    &&& after.callback() == before.callback()
    &&& match CMD::of_code(code) {
        None => {
            &&& after.state() == EngineState::Running
            &&& after.pending() == Pending::Idle
            &&& after.hooks() == before.hooks()
            &&& effect == failure(unknown_command(), None)
        },
        Some(CMD::Read) => {
            &&& after.state() == EngineState::Running
            &&& after.hooks() == before.hooks()
            &&& (after.pending(), effect) == read_step(payload)
        },
        Some(CMD::Write) => {
            &&& after.state() == EngineState::Running
            &&& after.hooks() == before.hooks()
            &&& (after.pending(), effect) == write_step(payload)
        },
        Some(CMD::Call) => {
            &&& after.state() == EngineState::Running
            &&& after.hooks() == before.hooks()
            &&& (after.pending(), effect) == call_step(payload)
        },
        Some(CMD::InstallHook) => {
            &&& after.state() == EngineState::Running
            &&& after.hooks() == before.hooks()
            &&& (after.pending(), effect) == open_step(payload)
        },
        Some(CMD::ToggleHook) => {
            &&& after.state() == EngineState::Running
            &&& after.hooks() == before.hooks()
            &&& (after.pending(), effect) == toggle_step(before.entries(), payload)
        },
        Some(CMD::UninstallHook) => {
            &&& after.state() == EngineState::Running
            &&& (after.entries(), after.pending(), effect) == uninstall_step(
                before.entries(),
                payload,
            )
        },
        Some(CMD::Disconnect) => {
            &&& after.state() == EngineState::Disconnecting
            &&& after.pending() == Pending::Idle
            &&& after.hooks() == before.hooks()
            &&& effect == success(ResponseView::Disconnecting, None)
        },
        Some(CMD::Shutdown) => {
            &&& after.state() == EngineState::ShuttingDown
            &&& after.pending() == Pending::Idle
            &&& after.hooks() == before.hooks()
            &&& effect == success(ResponseView::Shutdown, None)
        },
    }
}

/// What `handle_outcome` does with an outcome: the engine before and after,
/// and the effect.
pub open spec fn concluded(
    before: Engine,
    after: Engine,
    outcome: OutcomeView,
    effect: EffectView,
) -> bool {
    &&& after.callback() == before.callback()
    &&& match before.pending() {
        Pending::Idle => false,
        Pending::Read => {
            &&& after.state() == before.state()
            &&& after.pending() == Pending::Idle
            &&& after.hooks() == before.hooks()
            &&& effect == match outcome {
                OutcomeView::BytesRead { buff } => success(ResponseView::BytesRead { buff }, None),
                _ => failure(read_failed(), None),
            }
        },
        Pending::Write { len } => {
            &&& after.state() == before.state()
            &&& after.pending() == Pending::Idle
            &&& after.hooks() == before.hooks()
            &&& effect == match outcome {
                OutcomeView::Written => success(ResponseView::BytesWritten { written: len }, None),
                _ => failure(write_failed(), None),
            }
        },
        Pending::Call => {
            &&& after.state() == before.state()
            &&& after.pending() == Pending::Idle
            &&& after.hooks() == before.hooks()
            &&& effect == match outcome {
                OutcomeView::Returned { ret } => success(
                    ResponseView::FunctionExecuted { ret },
                    None,
                ),
                _ => failure(call_failed(), None),
            }
        },
        Pending::Open { cmd } => {
            &&& after.state() == before.state()
            &&& match outcome {
                OutcomeView::HookOpened { connection, original_bytes } => match install_refusal(
                    before.entries(),
                    cmd,
                    original_bytes,
                ) {
                    Some(e) => {
                        &&& after.pending() == Pending::Idle
                        &&& after.entries() == before.entries()
                        &&& effect == failure(e.spec_message(), Some(connection))
                    },
                    None => {
                        let added = after.entries().last();
                        &&& after.pending() == Pending::Install { address: cmd.address, connection }
                        &&& after.entries().len() == before.entries().len() + 1
                        &&& after.entries().drop_last() == before.entries()
                        &&& added.connection == connection
                        &&& added.hook.address() == cmd.address
                        &&& added.hook.callback_address() == before.callback()
                        &&& added.hook.original() == original_bytes
                        &&& effect == EffectView::Patch {
                            target: cmd.address,
                            actions: added.hook.plan(true),
                        }
                    },
                },
                _ => {
                    &&& after.pending() == Pending::Idle
                    &&& after.hooks() == before.hooks()
                    &&& effect == failure(open_failed(), None)
                },
            }
        },
        Pending::Install { address, connection } => {
            &&& after.state() == before.state()
            &&& after.pending() == Pending::Idle
            &&& match outcome {
                OutcomeView::Patched => {
                    &&& after.hooks() == before.hooks()
                    &&& effect == success(ResponseView::HookInstalled, None)
                },
                _ => {
                    &&& after.entries() == before.entries().remove(
                        position(before.entries(), address),
                    )
                    &&& effect == failure(
                        HookError::MemoryProtectionFailed.spec_message(),
                        Some(connection),
                    )
                },
            }
        },
        Pending::Toggle => {
            &&& after.state() == before.state()
            &&& after.pending() == Pending::Idle
            &&& after.hooks() == before.hooks()
            &&& effect == match outcome {
                OutcomeView::Patched => success(ResponseView::HookToggled, None),
                _ => failure(HookError::MemoryProtectionFailed.spec_message(), None),
            }
        },
        Pending::Uninstall { connection } => {
            &&& after.pending() == Pending::Idle
            &&& after.hooks() == before.hooks()
            &&& match outcome {
                OutcomeView::Patched => {
                    &&& after.state() == before.state()
                    &&& effect == success(ResponseView::HookUninstalled, Some(connection))
                },
                _ => {
                    &&& after.state() == EngineState::ShuttingDown
                    &&& effect == failure(
                        HookError::MemoryProtectionFailed.spec_message(),
                        Some(connection),
                    )
                },
            }
        },
    }
}

} // verus!
