//! What happens when a hooked function is entered.
//!
//! The thread that made the call is held while the controller is asked
//! twice: first whether the original function is to run, and with which
//! arguments; then what the caller is to get back. Each step names what the
//! holder of the thread has to do next.

use crate::frame::{framed, write_msg_buffer};
use crate::hook::{DetourHook, DynamicTrampoline, TrampolineCall, MAX_HOOK_ARGUMENTS};
use crate::hook_message::{
    HookPostCall, HookPostCallResponse, HookPreCallResponse, HookPreCallResponseView, HookPrecall,
    HookPrecallView,
};
use crate::interactive_hook::{hooked, position, InteractiveHooks};
use vstd::prelude::*;

verus! {

/// How far a firing has come.
#[derive(Clone, Copy, Debug, PartialEq, Eq, Structural)]
pub enum FiringState {
    /// The arguments are with the controller; its decision is awaited.
    AwaitingDecision,
    /// The original function is running.
    CallingOriginal,
    /// The controller's return value is awaited.
    AwaitingVerdict,
    /// The caller has its return value.
    Finished,
}

/// What the holder of the hooked thread has to do next.
#[derive(Debug)]
pub enum FiringStep {
    /// Send `frame` over the hook's connection, read one message and hand it
    /// to `on_message`.
    Exchange { frame: Vec<u8> },
    /// Read one message and hand it to `on_message`.
    Await,
    /// Run the original function and hand what it returns to `on_return`.
    CallOriginal { call: TrampolineCall },
    /// Return `value` to the caller of the hooked function.
    Return { value: u64 },
}

/// What a `FiringStep` holds.
pub enum FiringStepView {
    Exchange { frame: Seq<u8> },
    Await,
    CallOriginal { arguments: Seq<u64> },
    Return { value: u64 },
}

impl View for FiringStep {
    type V = FiringStepView;

    open spec fn view(&self) -> FiringStepView {
        match self {
            FiringStep::Exchange { frame } => FiringStepView::Exchange { frame: frame@ },
            FiringStep::Await => FiringStepView::Await,
            FiringStep::CallOriginal { call } => FiringStepView::CallOriginal {
                arguments: call.arguments@,
            },
            FiringStep::Return { value } => FiringStepView::Return { value: *value },
        }
    }
}

/// The twelve argument slots filled from `arguments`: what is missing is 0,
/// what is too many is dropped.
pub open spec fn slots(arguments: Seq<u64>) -> Seq<u64> {
    Seq::new(
        12,
        |i: int|
            if i < arguments.len() {
                arguments[i]
            } else {
                0
            },
    )
}

/// The first step of a firing: the arguments go to the controller.
pub open spec fn announce(arguments: Seq<u64>) -> (FiringState, FiringStepView) {
    (
        FiringState::AwaitingDecision,
        FiringStepView::Exchange {
            frame: framed((HookPrecallView { hook_arguments: arguments }).wire()),
        },
    )
}

/// The step after the controller's decision; a decision that cannot be read
/// ends the firing with 0.
pub open spec fn decide(decision: Option<HookPreCallResponseView>) -> (
    FiringState,
    FiringStepView,
) {
    match decision {
        Some(d) => if d.call_original {
            (
                FiringState::CallingOriginal,
                FiringStepView::CallOriginal { arguments: slots(d.hook_arguments) },
            )
        } else {
            (FiringState::AwaitingVerdict, FiringStepView::Await)
        },
        None => (FiringState::Finished, FiringStepView::Return { value: 0 }),
    }
}

/// The step after the original function has returned `ret`: the value goes
/// to the controller.
pub open spec fn report(ret: u64) -> (FiringState, FiringStepView) {
    (
        FiringState::AwaitingVerdict,
        FiringStepView::Exchange { frame: framed((HookPostCall { hook_return_value: ret }).wire()) },
    )
}

/// The last step: the caller gets the controller's value, or 0 where that
/// cannot be read.
pub open spec fn conclude(verdict: Option<HookPostCallResponse>) -> (FiringState, FiringStepView) {
    (
        FiringState::Finished,
        FiringStepView::Return {
            value: match verdict {
                Some(v) => v.hook_return_value,
                None => 0,
            },
        },
    )
}

/// The end of a firing that cannot go on.
pub open spec fn abandon() -> (FiringState, FiringStepView) {
    (FiringState::Finished, FiringStepView::Return { value: 0 })
}

/// The step that follows when `payload` arrives in `state`.
pub open spec fn message_step(state: FiringState, payload: Seq<u8>) -> (
    FiringState,
    FiringStepView,
) {
    match state {
        FiringState::AwaitingDecision => decide(
            match HookPreCallResponseView::parse(payload, 0) {
                Some((d, _)) => Some(d),
                None => None,
            },
        ),
        FiringState::AwaitingVerdict => conclude(
            match HookPostCallResponse::parse(payload, 0) {
                Some((v, _)) => Some(v),
                None => None,
            },
        ),
        _ => abandon(),
    }
}

/// The step that follows when the original function returns `ret` in
/// `state`.
pub open spec fn return_step(state: FiringState, ret: u64) -> (FiringState, FiringStepView) {
    match state {
        FiringState::CallingOriginal => report(ret),
        _ => abandon(),
    }
}

/// Fills the twelve argument slots from `arguments`.
pub fn fill_slots(arguments: &Vec<u64>) -> (r: Vec<u64>)
    ensures
        r@ == slots(arguments@),
{
    let mut out: Vec<u64> = Vec::new();
    let mut i: usize = 0;
    while i < MAX_HOOK_ARGUMENTS
        invariant
            i <= 12,
            out@.len() == i,
            forall|k: int| 0 <= k < i ==> out@[k] == slots(arguments@)[k],
        decreases 12 - i,
    {
        if i < arguments.len() {
            out.push(arguments[i]);
        } else {
            out.push(0);
        }
        i = i + 1;
    }
    assert(out@ =~= slots(arguments@));
    out
}

/// One firing of a hook.
pub struct HookFiring {
    state: FiringState,
}

impl HookFiring {
    /// How far the firing has come.
    pub closed spec fn phase(&self) -> FiringState {
        self.state
    }

    /// How far the firing has come.
    pub fn state(&self) -> (r: FiringState)
        ensures
            r == self.phase(),
    {
        self.state
    }

    /// Starts a firing with the values of the twelve argument slots: they go
    /// to the controller in one message.
    pub fn begin(arguments: Vec<u64>) -> (r: (HookFiring, FiringStep))
        ensures
            (r.0.phase(), r.1@) == announce(arguments@),
    {
        let payload = (HookPrecall { hook_arguments: arguments }).encode();
        let mut frame: Vec<u8> = Vec::new();
        write_msg_buffer(&mut frame, payload.as_slice());
        assert(frame@ =~= framed(payload@));
        (HookFiring { state: FiringState::AwaitingDecision }, FiringStep::Exchange { frame })
    }

    /// Takes a message of the controller.
    ///
    /// While the decision is awaited, the message is the decision: the
    /// original function is called with the arguments it names, or skipped.
    /// While the return value is awaited, the message names it. A message
    /// that cannot be read, or that nothing waits for, ends the firing with
    /// the return value 0.
    pub fn on_message(&mut self, hook: &DetourHook<DynamicTrampoline>, payload: &[u8]) -> (r:
        FiringStep)
        ensures
            (final(self).phase(), r@) == message_step(old(self).phase(), payload@),
    {
        match self.state {
            FiringState::AwaitingDecision => match HookPreCallResponse::decode(payload) {
                Ok(decision) => {
                    if decision.call_original {
                        let args = fill_slots(&decision.hook_arguments);
                        let call = hook.call_trampoline(
                            args[0],
                            args[1],
                            args[2],
                            args[3],
                            args[4],
                            args[5],
                            args[6],
                            args[7],
                            args[8],
                            args[9],
                            args[10],
                            args[11],
                        );
                        assert(call.arguments@ =~= slots(decision.hook_arguments@));
                        self.state = FiringState::CallingOriginal;
                        FiringStep::CallOriginal { call }
                    } else {
                        self.state = FiringState::AwaitingVerdict;
                        FiringStep::Await
                    }
                },
                Err(_) => {
                    self.state = FiringState::Finished;
                    FiringStep::Return { value: 0 }
                },
            },
            FiringState::AwaitingVerdict => {
                self.state = FiringState::Finished;
                match HookPostCallResponse::decode(payload) {
                    Ok(verdict) => FiringStep::Return { value: verdict.hook_return_value },
                    Err(_) => FiringStep::Return { value: 0 },
                }
            },
            _ => {
                self.state = FiringState::Finished;
                FiringStep::Return { value: 0 }
            },
        }
    }

    /// Takes what the original function returned: it goes to the controller
    /// in one message. Where the original function was not running, the
    /// firing ends with the return value 0.
    pub fn on_return(&mut self, ret: u64) -> (r: FiringStep)
        ensures
            (final(self).phase(), r@) == return_step(old(self).phase(), ret),
    {
        match self.state {
            FiringState::CallingOriginal => {
                let payload = (HookPostCall { hook_return_value: ret }).encode();
                let mut frame: Vec<u8> = Vec::new();
                write_msg_buffer(&mut frame, payload.as_slice());
                assert(frame@ =~= framed(payload@));
                self.state = FiringState::AwaitingVerdict;
                FiringStep::Exchange { frame }
            },
            _ => {
                self.state = FiringState::Finished;
                FiringStep::Return { value: 0 }
            },
        }
    }

    /// Gives the firing up after the connection has failed: the original
    /// function is not called, and the caller gets 0.
    pub fn on_failure(&mut self) -> (r: FiringStep)
        ensures
            (final(self).phase(), r@) == abandon(),
    {
        self.state = FiringState::Finished;
        FiringStep::Return { value: 0 }
    }
}

/// What the one callback of all hooks does when control arrives from the
/// function at `target` with the given values in the twelve argument slots.
///
/// Where a hook on `target` branches to `callback`, its position in the
/// registry and the firing come back with the first step, which sends the
/// arguments to the controller. Where none does, the caller gets 0.
pub fn generic_call_hook_handler(
    hooks: &InteractiveHooks,
    callback: u64,
    target: u64,
    arguments: Vec<u64>,
) -> (r: (Option<(usize, HookFiring)>, FiringStep))
    requires
        arguments@.len() == MAX_HOOK_ARGUMENTS,
    ensures
        match r.0 {
            Some((i, firing)) => {
                &&& hooked(hooks.entries(), target)
                &&& i == position(hooks.entries(), target)
                &&& hooks.entries()[i as int].hook.callback_address() == callback
                &&& (firing.phase(), r.1@) == announce(arguments@)
            },
            None => {
                &&& r.1@ == FiringStepView::Return { value: 0 }
                &&& (!hooked(hooks.entries(), target) || hooks.entries()[position(
                    hooks.entries(),
                    target,
                )].hook.callback_address() != callback)
            },
        },
{
    match hooks.find_by_callback(callback, target) {
        Some(i) => {
            let (firing, step) = HookFiring::begin(arguments);
            (Some((i, firing)), step)
        },
        None => (None, FiringStep::Return { value: 0 }),
    }
}

/// What a firing comes to: the arguments that the original function was
/// called with, if it was called, and the value that the caller gets.
pub struct FiringOutcome {
    pub called_with: Option<Seq<u64>>,
    pub returned: u64,
}

/// The outcome of a firing in which the controller decides `decision`, the
/// original function computes `original`, and the controller, told what the
/// original returned (or nothing, where it did not run), answers `verdict`.
pub open spec fn firing_outcome(
    decision: HookPreCallResponseView,
    original: spec_fn(Seq<u64>) -> u64,
    verdict: spec_fn(Option<u64>) -> u64,
) -> FiringOutcome {
    match decide(Some(decision)).1 {
        FiringStepView::CallOriginal { arguments } => {
            let ret = original(arguments);
            let answer = HookPostCallResponse { hook_return_value: verdict(Some(ret)) };
            match conclude(Some(answer)).1 {
                FiringStepView::Return { value } => FiringOutcome {
                    called_with: Some(arguments),
                    returned: value,
                },
                _ => FiringOutcome { called_with: Some(arguments), returned: 0 },
            }
        },
        _ => {
            let answer = HookPostCallResponse { hook_return_value: verdict(None) };
            match conclude(Some(answer)).1 {
                FiringStepView::Return { value } => FiringOutcome {
                    called_with: None,
                    returned: value,
                },
                _ => FiringOutcome { called_with: None, returned: 0 },
            }
        },
    }
}

/// Hook semantics. Where the controller lets the original function run with
/// arguments of its choice and passes on what it returns, the caller gets
/// what the function computes on those arguments; with the caller's own
/// arguments, that is what the call would have given without the hook.
/// Where the controller skips the original function, the function does not
/// run, and the caller gets exactly the value that the controller names.
pub proof fn lemma_hook_semantics(
    arguments: Seq<u64>,
    decision: HookPreCallResponseView,
    original: spec_fn(Seq<u64>) -> u64,
    verdict: spec_fn(Option<u64>) -> u64,
)
    requires
        arguments.len() == 12,
    ensures
        decision.call_original && (forall|r: u64| #[trigger] verdict(Some(r)) == r) ==> {
            &&& firing_outcome(decision, original, verdict).called_with == Some(
                slots(decision.hook_arguments),
            )
            &&& firing_outcome(decision, original, verdict).returned == original(
                slots(decision.hook_arguments),
            )
        },
        decision.call_original && decision.hook_arguments == arguments && (forall|r: u64| #[trigger]
            verdict(Some(r)) == r) ==> firing_outcome(decision, original, verdict).returned
            == original(arguments),
        !decision.call_original ==> {
            &&& firing_outcome(decision, original, verdict).called_with.is_none()
            &&& firing_outcome(decision, original, verdict).returned == verdict(None)
        },
{
    assert(slots(arguments) =~= arguments);
}

} // verus!
