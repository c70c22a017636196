//! Detours: a patch at the entry of a function that sends every call to a
//! callback, and a trampoline through which the function can still be run.

use crate::branch::{
    absolute_branch, generate_absolute_branch, lemma_absolute_branch_len, ABSOLUTE_BRANCH_SIZE,
};
use crate::error::HookError;
use crate::patcher::{PatchAction, Patcher};
use vstd::prelude::*;

verus! {

/// Number of argument slots that a hooked call carries.
pub const MAX_HOOK_ARGUMENTS: usize = 12;

/// Width of a pointer on the target.
pub const POINTER_SIZE: u64 = 8;

/// A call of the original function: the values of the twelve argument slots,
/// in order.
#[derive(Debug)]
pub struct TrampolineCall {
    pub arguments: Vec<u64>,
}

/// The code of a trampoline for a function at `target` whose first bytes
/// were `original_bytes`: those bytes, and a branch to the first byte of the
/// function that the patch leaves alone.
pub open spec fn trampoline_code(original_bytes: Seq<u8>, target: u64) -> Seq<u8> {
    original_bytes + absolute_branch((target + original_bytes.len()) as u64)
}

/// Code that stands in for the overwritten entry of a function.
pub trait Trampoline: Sized {
    /// The code of the trampoline.
    spec fn code(&self) -> Seq<u8>;

    /// The trampoline of the function at `target` whose first bytes are
    /// `original_bytes`.
    fn build(original_bytes: &[u8], target: u64) -> (r: Result<Self, HookError>)
        requires
            target + original_bytes@.len() <= u64::MAX,
        ensures
            r.is_ok(),
            r.unwrap().code() == trampoline_code(original_bytes@, target),
    ;

    /// The code, to be put where it can be executed.
    fn slide(&self) -> (r: &Vec<u8>)
        ensures
            r@ == self.code(),
    ;

    /// The address one pointer behind `base`, where `base` is the place of
    /// the code in memory.
    fn start_address(&self, base: u64) -> (r: u64)
        requires
            base + self.code().len() <= u64::MAX,
            self.code().len() >= POINTER_SIZE,
        ensures
            r == base + POINTER_SIZE,
    ;

    /// The call of the trampoline with the given values in the twelve
    /// argument slots.
    fn call(
        &self,
        a: u64,
        b: u64,
        c: u64,
        d: u64,
        e: u64,
        f: u64,
        g: u64,
        h: u64,
        i: u64,
        j: u64,
        k: u64,
        m: u64,
    ) -> (r: TrampolineCall)
        ensures
            r.arguments@ == seq![a, b, c, d, e, f, g, h, i, j, k, m],
    ;
}

/// A trampoline that is assembled when the hook is made.
pub struct DynamicTrampoline {
    slide: Vec<u8>,
}

impl Trampoline for DynamicTrampoline {
    closed spec fn code(&self) -> Seq<u8> {
        self.slide@
    }

    fn build(original_bytes: &[u8], target: u64) -> (r: Result<DynamicTrampoline, HookError>) {
        let mut slide: Vec<u8> = Vec::new();
        slide.extend_from_slice(original_bytes);
        let address_to_jump_from_trampoline = target + original_bytes.len() as u64;
        match generate_absolute_branch(address_to_jump_from_trampoline) {
            Ok(branch) => {
                slide.extend_from_slice(branch.as_slice());
                assert(slide@ =~= trampoline_code(original_bytes@, target));
                Ok(DynamicTrampoline { slide })
            },
            Err(err) => Err(err),
        }
    }

    fn slide(&self) -> (r: &Vec<u8>) {
        &self.slide
    }

    fn start_address(&self, base: u64) -> (r: u64) {
        base + POINTER_SIZE
    }

    fn call(
        &self,
        a: u64,
        b: u64,
        c: u64,
        d: u64,
        e: u64,
        f: u64,
        g: u64,
        h: u64,
        i: u64,
        j: u64,
        k: u64,
        m: u64,
    ) -> (r: TrampolineCall) {
        let mut arguments: Vec<u64> = Vec::new();
        arguments.push(a);
        arguments.push(b);
        arguments.push(c);
        arguments.push(d);
        arguments.push(e);
        arguments.push(f);
        arguments.push(g);
        arguments.push(h);
        arguments.push(i);
        arguments.push(j);
        arguments.push(k);
        arguments.push(m);
        assert(arguments@ =~= seq![a, b, c, d, e, f, g, h, i, j, k, m]);
        TrampolineCall { arguments }
    }
}

/// One interception point: the patch at the entry of a function, the
/// callback that the patch branches to, and the trampoline that still runs
/// the function.
pub struct DetourHook<T: Trampoline> {
    pub callback: u64,
    pub trampoline: T,
    patcher: Patcher,
}

impl<T: Trampoline> DetourHook<T> {
    /// The address of the hooked function.
    pub closed spec fn address(&self) -> u64 {
        self.patcher.address()
    }

    /// The address that the patch branches to.
    pub closed spec fn callback_address(&self) -> u64 {
        self.callback
    }

    /// The bytes of the function's entry from before the hook.
    pub closed spec fn original(&self) -> Seq<u8> {
        self.patcher.original()
    }

    /// The code of the trampoline.
    pub closed spec fn trampoline_bytes(&self) -> Seq<u8> {
        self.trampoline.code()
    }

    /// The patch behind this hook.
    pub closed spec fn patcher(&self) -> Patcher {
        self.patcher
    }

    /// A hook is a branch to the callback over a region that holds it, and a
    /// trampoline made of the bytes of that region.
    pub closed spec fn wf(&self) -> bool {
        &&& self.patcher.wf()
        &&& self.patcher.patch() == absolute_branch(self.callback)
        &&& self.address() + self.original().len() <= u64::MAX
        &&& self.trampoline.code() == trampoline_code(self.original(), self.address())
    }

    /// What `wf` says, for those who cannot see inside.
    pub proof fn lemma_wf(&self)
        requires
            self.wf(),
        ensures
            self.patcher().wf(),
            self.patcher().address() == self.address(),
            self.patcher().original() == self.original(),
            self.patcher().patch() == absolute_branch(self.callback_address()),
            self.original().len() >= ABSOLUTE_BRANCH_SIZE,
            self.trampoline_bytes() == trampoline_code(self.original(), self.address()),
    {
        lemma_absolute_branch_len(self.callback);
    }

    /// The patch that `toggle` plans.
    pub open spec fn plan(&self, enabled: bool) -> Seq<PatchAction> {
        self.patcher().plan(enabled)
    }

    /// A hook on the function at `target`, whose first bytes are
    /// `original_bytes`, that sends its callers to `callback`.
    ///
    /// Fails with `PatchTooLarge` exactly when `original_bytes` is shorter
    /// than an absolute branch. Nothing is written by making a hook.
    pub fn new(target: u64, callback: u64, original_bytes: Vec<u8>) -> (r: Result<Self, HookError>)
        requires
            target + original_bytes@.len() <= u64::MAX,
        ensures
            original_bytes@.len() < ABSOLUTE_BRANCH_SIZE ==> r matches Err(
                HookError::PatchTooLarge,
            ),
            original_bytes@.len() >= ABSOLUTE_BRANCH_SIZE ==> r.is_ok() && r.unwrap().wf()
                && r.unwrap().address() == target && r.unwrap().callback_address() == callback
                && r.unwrap().original() == original_bytes@,
    {
        let patch = match generate_absolute_branch(callback) {
            Ok(patch) => patch,
            Err(err) => {
                return Err(err);
            },
        };
        let tramp = match T::build(original_bytes.as_slice(), target) {
            Ok(tramp) => tramp,
            Err(err) => {
                return Err(err);
            },
        };
        match Patcher::new(target, patch, original_bytes) {
            Ok(patcher) => Ok(DetourHook { callback, trampoline: tramp, patcher }),
            Err(err) => Err(err),
        }
    }

    /// Plans the patch that puts the branch to the callback at the target.
    pub fn enable(&self) -> (r: Result<Vec<PatchAction>, HookError>)
        ensures
            r.is_ok(),
            r.unwrap()@ == self.plan(true),
    {
        self.patcher.enable()
    }

    /// Plans the patch that puts the original bytes back.
    pub fn disable(&self) -> (r: Result<Vec<PatchAction>, HookError>)
        ensures
            r.is_ok(),
            r.unwrap()@ == self.plan(false),
    {
        self.patcher.disable()
    }

    /// Plans the patch for the state `enabled`.
    pub fn toggle(&self, enabled: bool) -> (r: Result<Vec<PatchAction>, HookError>)
        ensures
            r.is_ok(),
            r.unwrap()@ == self.plan(enabled),
    {
        self.patcher.toggle_hook(enabled)
    }

    /// The address that the patch branches to.
    pub fn callback(&self) -> (r: u64)
        ensures
            r == self.callback_address(),
    {
        self.callback
    }

    /// The code of the trampoline, to be put where it can be executed.
    pub fn trampoline_code(&self) -> (r: &Vec<u8>)
        ensures
            r@ == self.trampoline_bytes(),
    {
        self.trampoline.slide()
    }

    /// The address of the hooked function.
    pub fn target(&self) -> (r: u64)
        ensures
            r == self.address(),
    {
        self.patcher.target()
    }

    /// The call of the original function with the given values in the twelve
    /// argument slots.
    pub fn call_trampoline(
        &self,
        a: u64,
        b: u64,
        c: u64,
        d: u64,
        e: u64,
        f: u64,
        g: u64,
        h: u64,
        i: u64,
        j: u64,
        k: u64,
        m: u64,
    ) -> (r: TrampolineCall)
        ensures
            r.arguments@ == seq![a, b, c, d, e, f, g, h, i, j, k, m],
    {
        self.trampoline.call(a, b, c, d, e, f, g, h, i, j, k, m)
    }
}

} // verus!
