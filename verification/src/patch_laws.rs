//! What a patch does to memory, step by step and as a whole.

use crate::branch::relative_branch;
use crate::hook::{DetourHook, Trampoline};
use crate::endian::{le_value, lemma_le_bytes_of_value, lemma_pow256_values};
use crate::patcher::{
    apply_action, apply_actions, lemma_lock_bytes, lock_bytes, patch_plan, tail_stores,
    unlock_bytes, unlock_stores, PatchAction, Patcher,
};
use vstd::prelude::*;

verus! {

/// Memory after a patch that put `src` at position 0 of `mem`: `src`, then
/// what the spin word left of the first machine word, then `mem` unchanged.
pub open spec fn patched(target: u64, src: Seq<u8>, mem: Seq<u8>) -> Seq<u8> {
    Seq::new(
        mem.len(),
        |i: int|
            if i < src.len() {
                src[i]
            } else if i < 8 {
                lock_bytes(target)[i]
            } else {
                mem[i]
            },
    )
}

/// Memory while the function is locked and the `j` highest bytes past the
/// first word have been stored.
pub open spec fn locked(target: u64, src: Seq<u8>, mem: Seq<u8>, j: int) -> Seq<u8> {
    Seq::new(
        mem.len(),
        |i: int|
            if i < 8 {
                lock_bytes(target)[i]
            } else if src.len() - j <= i < src.len() {
                src[i]
            } else {
                mem[i]
            },
    )
}

/// A word store of the number that eight bytes stand for puts those bytes.
proof fn lemma_store_word(mem: Seq<u8>, bytes: Seq<u8>)
    requires
        bytes.len() == 8,
        mem.len() >= 8,
    ensures
        apply_action(mem, PatchAction::StoreWord { word: le_value(bytes) as u64 }) == bytes
            + mem.skip(8),
{
    lemma_le_bytes_of_value(bytes);
    lemma_pow256_values();
}

/// The state after the spin word and the first `j` ordinary stores.
proof fn lemma_locked_prefix(target: u64, src: Seq<u8>, reserved: nat, mem: Seq<u8>, j: int)
    requires
        src.len() <= mem.len(),
        8 <= mem.len() <= usize::MAX,
        0 <= j <= tail_stores(src).len(),
    ensures
        apply_actions(mem, patch_plan(target, src, reserved).take(2 + j)) == locked(
            target,
            src,
            mem,
            j,
        ),
    decreases j,
{
    let plan = patch_plan(target, src, reserved);
    let pre = plan.take(2 + j);
    lemma_lock_bytes(target);
    if j == 0 {
        let one = pre.drop_last();
        assert(one.drop_last() =~= Seq::<PatchAction>::empty());
        assert(apply_actions(mem, one.drop_last()) == mem);
        assert(apply_actions(mem, one) == mem);
        lemma_store_word(mem, lock_bytes(target));
        assert(pre.last() == PatchAction::StoreWord {
            word: le_value(lock_bytes(target)) as u64,
        });
        assert(apply_actions(mem, pre) =~= locked(target, src, mem, 0));
    } else {
        lemma_locked_prefix(target, src, reserved, mem, j - 1);
        assert(pre.drop_last() =~= plan.take(2 + j - 1));
        assert(pre.last() == tail_stores(src)[j - 1]);
        assert(apply_actions(mem, pre) =~= locked(target, src, mem, j));
    }
}

/// A completed patch leaves `src` at the target, keeps every byte past the
/// first machine word and past `src`, and fills the rest of the first word,
/// where `src` is shorter, with what the spin word put there.
pub proof fn lemma_patch_plan_effect(target: u64, src: Seq<u8>, reserved: nat, mem: Seq<u8>)
    requires
        0 < src.len() <= mem.len(),
        8 <= mem.len() <= usize::MAX,
    ensures
        apply_actions(mem, patch_plan(target, src, reserved)) == patched(target, src, mem),
{
    let plan = patch_plan(target, src, reserved);
    let t = tail_stores(src).len() as int;
    lemma_lock_bytes(target);
    lemma_locked_prefix(target, src, reserved, mem, t);
    let before = locked(target, src, mem, t);
    let unlocked = plan.take(3 + t);
    assert(unlocked.drop_last() =~= plan.take(2 + t));
    assert(unlocked.last() == unlock_stores(target, src)[0]);
    lemma_store_word(before, unlock_bytes(target, src));
    assert(apply_actions(mem, unlocked) =~= patched(target, src, mem));
    assert(plan.drop_last() =~= unlocked);
    assert(plan.last() == PatchAction::MakeExecutable {
        len: crate::patcher::protect_len(reserved) as usize,
    });
}

/// Hot-patch atomicity: whatever prefix of a patch has been carried out, the
/// code at the target is the code from before the patch, or starts with the
/// jump-to-self that keeps every arriving thread spinning, or is the
/// finished code. No other state is ever in memory.
pub proof fn lemma_patch_atomic(target: u64, src: Seq<u8>, reserved: nat, mem: Seq<u8>, k: int)
    requires
        src.len() <= mem.len(),
        8 <= mem.len() <= usize::MAX,
        0 <= k <= patch_plan(target, src, reserved).len(),
    ensures
        ({
            let now = apply_actions(mem, patch_plan(target, src, reserved).take(k));
            let done = apply_actions(mem, patch_plan(target, src, reserved));
            now == mem || now.subrange(0, 5) == relative_branch(target, target, false) || now
                == done
        }),
{
    let plan = patch_plan(target, src, reserved);
    let t = tail_stores(src).len() as int;
    let now = apply_actions(mem, plan.take(k));
    let done = apply_actions(mem, plan);
    lemma_lock_bytes(target);
    if k == 0 {
        assert(plan.take(0) =~= Seq::<PatchAction>::empty());
    } else if k == 1 {
        assert(plan.take(1).drop_last() =~= Seq::<PatchAction>::empty());
        assert(apply_actions(mem, plan.take(1).drop_last()) == mem);
    } else if k <= 2 + t {
        lemma_locked_prefix(target, src, reserved, mem, k - 2);
        assert(now.subrange(0, 5) =~= lock_bytes(target).subrange(0, 5));
        assert(lock_bytes(target).subrange(0, 5) =~= relative_branch(target, target, false));
    } else if k == plan.len() {
        assert(plan.take(k) =~= plan);
    } else {
        assert(src.len() > 0);
        assert(k == 3 + t);
        assert(plan.drop_last() =~= plan.take(k));
        assert(plan.last() == PatchAction::MakeExecutable {
            len: crate::patcher::protect_len(reserved) as usize,
        });
    }
}

/// Lifecycle: enabling a hook and disabling it again puts back, bit for bit,
/// the memory from before, whenever that memory held the captured original
/// and the region is at least one machine word.
pub proof fn lemma_enable_disable_restores(p: Patcher, mem: Seq<u8>)
    requires
        p.wf(),
        0 < p.patch().len(),
        8 <= p.original().len() <= mem.len() <= usize::MAX,
        mem.subrange(0, p.original().len() as int) == p.original(),
    ensures
        apply_actions(apply_actions(mem, p.plan(true)), p.plan(false)) == mem,
{
    let reserved = p.original().len();
    let hooked = apply_actions(mem, p.plan(true));
    lemma_patch_plan_effect(p.address(), p.patch(), reserved, mem);
    lemma_patch_plan_effect(p.address(), p.original(), reserved, hooked);
    let back = apply_actions(hooked, p.plan(false));
    assert forall|i: int| 0 <= i < mem.len() implies back[i] == mem[i] by {
        if i < reserved {
            assert(mem.subrange(0, reserved as int)[i] == mem[i]);
        }
    }
    assert(back =~= mem);
}

/// Lifecycle of a hook: the patch that installing a hook plans, followed by
/// the patch that removing it plans, puts back bit for bit the memory from
/// before, whenever the bytes that were captured for the hook are the ones
/// that memory held at the target.
pub proof fn lemma_install_uninstall_restores<T: Trampoline>(hook: DetourHook<T>, mem: Seq<u8>)
    requires
        hook.wf(),
        hook.original().len() <= mem.len() <= usize::MAX,
        mem.subrange(0, hook.original().len() as int) == hook.original(),
    ensures
        apply_actions(apply_actions(mem, hook.plan(true)), hook.plan(false)) == mem,
{
    hook.lemma_wf();
    lemma_enable_disable_restores(hook.patcher(), mem);
}

/// While a hook is enabled the target holds the replacement, and every byte
/// behind the region is the one from before.
pub proof fn lemma_enable_installs(p: Patcher, mem: Seq<u8>)
    requires
        p.wf(),
        8 <= p.patch().len(),
        p.original().len() <= mem.len() <= usize::MAX,
    ensures
        apply_actions(mem, p.plan(true)).len() == mem.len(),
        apply_actions(mem, p.plan(true)).subrange(0, p.patch().len() as int) == p.patch(),
        apply_actions(mem, p.plan(true)).skip(p.patch().len() as int) == mem.skip(
            p.patch().len() as int,
        ),
{
    lemma_patch_plan_effect(p.address(), p.patch(), p.original().len(), mem);
    let hooked = apply_actions(mem, p.plan(true));
    assert(hooked.subrange(0, p.patch().len() as int) =~= p.patch());
    assert(hooked.skip(p.patch().len() as int) =~= mem.skip(p.patch().len() as int));
}

} // verus!
