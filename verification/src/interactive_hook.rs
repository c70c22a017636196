//! The hooks that are installed, each with the connection that serves it.

use crate::error::HookError;
use crate::hook::{DetourHook, DynamicTrampoline};
use crate::message::{InstallHookCmd, ToggleHookCmd, UninstallHookCmd};
use crate::patcher::PatchAction;
use vstd::prelude::*;

verus! {

/// An installed hook and the handle of its own connection.
pub struct HookEntry {
    pub hook: DetourHook<DynamicTrampoline>,
    pub connection: u64,
}

/// The installed hooks, in the order of their installation.
pub struct InteractiveHooks {
    hooks: Vec<HookEntry>,
}

/// The position of the first entry of `entries` that hooks `address`; the
/// length of `entries` where none does.
pub open spec fn position(entries: Seq<HookEntry>, address: u64) -> int
    decreases entries.len(),
{
    if entries.len() == 0 {
        0
    } else if entries[0].hook.address() == address {
        0
    } else {
        1 + position(entries.drop_first(), address)
    }
}

/// Whether some entry of `entries` hooks `address`.
pub open spec fn hooked(entries: Seq<HookEntry>, address: u64) -> bool {
    position(entries, address) < entries.len()
}

/// The position of an address is that of the first entry that hooks it.
pub proof fn lemma_position(entries: Seq<HookEntry>, address: u64, i: int)
    requires
        0 <= i <= entries.len(),
        forall|k: int| 0 <= k < i ==> (#[trigger] entries[k]).hook.address() != address,
        i < entries.len() ==> entries[i].hook.address() == address,
    ensures
        position(entries, address) == i,
    decreases i,
{
    if i > 0 {
        let rest = entries.drop_first();
        assert(entries[0].hook.address() != address);
        assert forall|k: int| 0 <= k < i - 1 implies (#[trigger] rest[k]).hook.address()
            != address by {
            assert(rest[k] == entries[k + 1]);
        }
        lemma_position(rest, address, i - 1);
    }
}

/// The position of an address lies in the registry exactly where the entry
/// there hooks it, and no entry before it does.
pub proof fn lemma_position_found(entries: Seq<HookEntry>, address: u64)
    ensures
        0 <= position(entries, address) <= entries.len(),
        hooked(entries, address) ==> entries[position(entries, address)].hook.address() == address,
        forall|k: int|
            0 <= k < position(entries, address) ==> (#[trigger] entries[k]).hook.address()
                != address,
    decreases entries.len(),
{
    if entries.len() > 0 && entries[0].hook.address() != address {
        let rest = entries.drop_first();
        lemma_position_found(rest, address);
        assert forall|k: int| 0 <= k < position(entries, address) implies (
        #[trigger] entries[k]).hook.address() != address by {
            if k > 0 {
                assert(rest[k - 1] == entries[k]);
            }
        }
    }
}

impl InteractiveHooks {
    /// The entries, oldest first.
    pub closed spec fn entries(&self) -> Seq<HookEntry> {
        self.hooks@
    }

    /// Every hook is well formed, and no address is hooked twice.
    pub open spec fn wf(&self) -> bool {
        &&& forall|i: int| 0 <= i < self.entries().len() ==> (#[trigger] self.entries()[i]).hook.wf()
        &&& forall|i: int, j: int|
            0 <= i < j < self.entries().len() ==> (#[trigger] self.entries()[i]).hook.address() != (
            #[trigger] self.entries()[j]).hook.address()
    }

    /// A registry without hooks.
    pub fn new() -> (r: InteractiveHooks)
        ensures
            r.wf(),
            r.entries().len() == 0,
    {
        InteractiveHooks { hooks: Vec::new() }
    }

    /// The number of installed hooks.
    pub fn len(&self) -> (r: usize)
        ensures
            r == self.entries().len(),
    {
        self.hooks.len()
    }

    /// The position of the hook on `address`.
    pub fn find(&self, address: u64) -> (r: Option<usize>)
        ensures
            match r {
                Some(i) => hooked(self.entries(), address) && i == position(
                    self.entries(),
                    address,
                ) && self.entries()[i as int].hook.address() == address,
                None => !hooked(self.entries(), address),
            },
    {
        let mut i: usize = 0;
        while i < self.hooks.len()
            invariant
                i <= self.hooks@.len(),
                forall|k: int| 0 <= k < i ==> (#[trigger] self.hooks@[k]).hook.address() != address,
            decreases self.hooks@.len() - i,
        {
            if self.hooks[i].hook.target() == address {
                proof {
                    lemma_position(self.hooks@, address, i as int);
                }
                return Some(i);
            }
            i = i + 1;
        }
        proof {
            lemma_position(self.hooks@, address, i as int);
        }
        None
    }

    /// The hook that fired: the one on `target`, provided that it branches
    /// to `callback`.
    ///
    /// Every hook shares one callback, so the callback alone tells nothing;
    /// the address of the function that was entered decides.
    pub fn find_by_callback(&self, callback: u64, target: u64) -> (r: Option<usize>)
        ensures
            match r {
                Some(i) => hooked(self.entries(), target) && i == position(self.entries(), target)
                    && self.entries()[i as int].hook.callback_address() == callback,
                None => !hooked(self.entries(), target) || self.entries()[position(
                    self.entries(),
                    target,
                )].hook.callback_address() != callback,
            },
    {
        match self.find(target) {
            Some(i) => {
                if self.hooks[i].hook.callback() == callback {
                    Some(i)
                } else {
                    None
                }
            },
            None => None,
        }
    }

    /// The connection of entry `i`.
    pub fn connection(&self, i: usize) -> (r: u64)
        requires
            i < self.entries().len(),
        ensures
            r == self.entries()[i as int].connection,
    {
        self.hooks[i].connection
    }

    /// The hook of entry `i`.
    pub fn hook(&self, i: usize) -> (r: &DetourHook<DynamicTrampoline>)
        requires
            i < self.entries().len(),
        ensures
            *r == self.entries()[i as int].hook,
    {
        &self.hooks[i].hook
    }

    /// Installs a hook on the function at `hook_cmd.address`, whose first
    /// `hook_cmd.prefix_size` bytes are `original_bytes`, to be served over
    /// `connection`, and plans the patch that enables it.
    ///
    /// Fails with `HookConstructionFailed` when the address is hooked
    /// already, when `original_bytes` has not the length that was asked for,
    /// or when the prefix runs past the end of the address space; else with
    /// `PatchTooLarge` when the prefix is shorter than an absolute branch. A
    /// failure leaves the registry as it was.
    pub fn initialize_interactive_hook(
        &mut self,
        hook_cmd: InstallHookCmd,
        callback: u64,
        original_bytes: Vec<u8>,
        connection: u64,
    ) -> (r: Result<Vec<PatchAction>, HookError>)
        requires
            old(self).wf(),
        ensures
            final(self).wf(),
            install_refusal(old(self).entries(), hook_cmd, original_bytes@) matches Some(e)
                ==> r == Err::<Vec<PatchAction>, HookError>(e) && final(self).entries() == old(self).entries(),
            install_refusal(old(self).entries(), hook_cmd, original_bytes@).is_none() ==> {
                let added = final(self).entries().last();
                &&& r.is_ok()
                &&& final(self).entries().len() == old(self).entries().len() + 1
                &&& final(self).entries().drop_last() == old(self).entries()
                &&& added.connection == connection
                &&& added.hook.address() == hook_cmd.address
                &&& added.hook.callback_address() == callback
                &&& added.hook.original() == original_bytes@
                &&& r.unwrap()@ == added.hook.plan(true)
            },
    {
        if self.find(hook_cmd.address).is_some() {
            return Err(HookError::HookConstructionFailed);
        }
        if original_bytes.len() as u64 != hook_cmd.prefix_size {
            return Err(HookError::HookConstructionFailed);
        }
        if hook_cmd.address > u64::MAX - hook_cmd.prefix_size {
            return Err(HookError::HookConstructionFailed);
        }
        let hook = match DetourHook::<DynamicTrampoline>::new(
            hook_cmd.address,
            callback,
            original_bytes,
        ) {
            Ok(hook) => hook,
            Err(err) => {
                return Err(err);
            },
        };
        let plan = hook.enable();
        let ghost before = self.hooks@;
        self.hooks.push(HookEntry { hook, connection });
        proof {
            assert(self.hooks@.drop_last() =~= before);
            assert forall|i: int, j: int| 0 <= i < j < self.hooks@.len() implies (
            #[trigger] self.hooks@[i]).hook.address() != (#[trigger] self.hooks@[j]).hook.address() by {
                if j == before.len() {
                    lemma_position_found(before, hook_cmd.address);
                    assert(before[i].hook.address() != hook_cmd.address);
                }
            }
        }
        plan
    }

    /// Removes the hook on `hook_cmd.address` and plans the patch that puts
    /// the original bytes back; the connection of the hook is handed out to
    /// be closed.
    ///
    /// Fails with `HookNotFound` exactly when no hook is on that address.
    pub fn uninintialize_interactive_hook(&mut self, hook_cmd: UninstallHookCmd) -> (r: Result<
        (u64, Vec<PatchAction>),
        HookError,
    >)
        requires
            old(self).wf(),
        ensures
            final(self).wf(),
            !hooked(old(self).entries(), hook_cmd.address) ==> r == Err::<
                (u64, Vec<PatchAction>),
                HookError,
            >(HookError::HookNotFound) && final(self).entries() == old(self).entries(),
            hooked(old(self).entries(), hook_cmd.address) ==> {
                let i = position(old(self).entries(), hook_cmd.address);
                &&& r.is_ok()
                &&& !hooked(final(self).entries(), hook_cmd.address)
                &&& final(self).entries() == old(self).entries().remove(i)
                &&& r.unwrap().0 == old(self).entries()[i].connection
                &&& r.unwrap().1@ == old(self).entries()[i].hook.plan(false)
            },
    {
        match self.find(hook_cmd.address) {
            Some(index) => {
                let ghost before = self.hooks@;
                let plan = match self.hooks[index].hook.disable() {
                    Ok(plan) => plan,
                    Err(err) => {
                        return Err(err);
                    },
                };
                let entry = self.hooks.remove(index);
                proof {
                    assert(self.hooks@ =~= before.remove(index as int));
                    assert forall|k: int| 0 <= k < self.hooks@.len() implies (
                    #[trigger] self.hooks@[k]).hook.address() != hook_cmd.address by {
                        if k < index {
                            assert(self.hooks@[k] == before[k]);
                        } else {
                            assert(self.hooks@[k] == before[k + 1]);
                        }
                    }
                    lemma_position(self.hooks@, hook_cmd.address, self.hooks@.len() as int);
                    assert forall|i: int, j: int| 0 <= i < j < self.hooks@.len() implies (
                    #[trigger] self.hooks@[i]).hook.address() != (
                    #[trigger] self.hooks@[j]).hook.address() by {
                        let bi = if i < index { i } else { i + 1 };
                        let bj = if j < index { j } else { j + 1 };
                        assert(self.hooks@[i] == before[bi]);
                        assert(self.hooks@[j] == before[bj]);
                    }
                    assert forall|k: int| 0 <= k < self.hooks@.len() implies (
                    #[trigger] self.hooks@[k]).hook.wf() by {
                        let bk = if k < index { k } else { k + 1 };
                        assert(self.hooks@[k] == before[bk]);
                    }
                }
                Ok((entry.connection, plan))
            },
            None => Err(HookError::HookNotFound),
        }
    }

    /// Plans the patch that enables or disables the hook on
    /// `hook_cmd.address`.
    ///
    /// Fails with `HookNotFound` exactly when no hook is on that address.
    pub fn toggle_interactive_hook(&self, hook_cmd: ToggleHookCmd) -> (r: Result<
        Vec<PatchAction>,
        HookError,
    >)
        ensures
            !hooked(self.entries(), hook_cmd.address) ==> r == Err::<Vec<PatchAction>, HookError>(
                HookError::HookNotFound,
            ),
            hooked(self.entries(), hook_cmd.address) ==> r.is_ok() && r.unwrap()@
                == self.entries()[position(self.entries(), hook_cmd.address)].hook.plan(
                hook_cmd.enabled,
            ),
    {
        match self.find(hook_cmd.address) {
            Some(index) => self.hooks[index].hook.toggle(hook_cmd.enabled),
            None => Err(HookError::HookNotFound),
        }
    }
}

/// Why a hook cannot be installed, if it cannot.
pub open spec fn install_refusal(
    entries: Seq<HookEntry>,
    hook_cmd: InstallHookCmd,
    original_bytes: Seq<u8>,
) -> Option<HookError> {
    if hooked(entries, hook_cmd.address) {
        Some(HookError::HookConstructionFailed)
    } else if original_bytes.len() != hook_cmd.prefix_size {
        Some(HookError::HookConstructionFailed)
    } else if hook_cmd.address + hook_cmd.prefix_size > u64::MAX {
        Some(HookError::HookConstructionFailed)
    } else if hook_cmd.prefix_size < 12 {
        Some(HookError::PatchTooLarge)
    } else {
        None
    }
}

} // verus!
