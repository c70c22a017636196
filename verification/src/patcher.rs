//! Rewriting code that other threads may be running.
//!
//! A patch is carried out as a list of memory operations. The first store
//! plants a jump-to-self at the entry of the function, so that a thread
//! arriving there spins; the following stores fill in the new bytes from the
//! highest offset down; the last one replaces the whole first machine word at
//! once and thereby releases the spinning threads into finished code.

use crate::branch::{generate_relative_branch, lemma_self_jump, relative_branch};
use crate::endian::{
    le_bytes, le_read_u64, le_value, le_write_u64, lemma_le_bytes_of_value, lemma_pow256_values,
};
use crate::error::HookError;
use vstd::prelude::*;

verus! {

/// Width of the machine word that is stored atomically.
pub const WORD_SIZE: usize = 8;

/// The one-byte instruction that pads the spin instruction to a full word.
pub const NOP: u8 = 0x90;

/// One step of a patch, relative to the patched address.
#[derive(Clone, Copy, Debug, PartialEq, Eq, Structural)]
pub enum PatchAction {
    /// Make the first `len` bytes writable.
    MakeWritable { len: usize },
    /// Store `value` over the first eight bytes with one aligned atomic store.
    StoreWord { word: u64 },
    /// Store `value` at `offset` with an ordinary store.
    StoreByte { offset: usize, value: u8 },
    /// Make the first `len` bytes executable and read-only again.
    MakeExecutable { len: usize },
}

/// Memory at the patched address after one step. Position 0 of `mem` is the
/// patched address; a little-endian machine is assumed for the word store.
pub open spec fn apply_action(mem: Seq<u8>, action: PatchAction) -> Seq<u8> {
    match action {
        PatchAction::MakeWritable { len } => mem,
        PatchAction::MakeExecutable { len } => mem,
        PatchAction::StoreWord { word } => le_bytes(word as nat, 8) + mem.skip(8),
        PatchAction::StoreByte { offset, value } => mem.update(offset as int, value),
    }
}

/// Memory at the patched address after all of `actions`, in order.
pub open spec fn apply_actions(mem: Seq<u8>, actions: Seq<PatchAction>) -> Seq<u8>
    decreases actions.len(),
{
    if actions.len() == 0 {
        mem
    } else {
        apply_action(apply_actions(mem, actions.drop_last()), actions.last())
    }
}

/// The spin instruction at `target`, padded to a machine word.
pub open spec fn lock_bytes(target: u64) -> Seq<u8> {
    relative_branch(target, target, false) + seq![NOP, NOP, NOP]
}

/// The spin word is the same wherever it lies: `e9 fb ff ff ff 90 90 90`.
pub proof fn lemma_lock_bytes(target: u64)
    ensures
        lock_bytes(target) == seq![0xE9u8, 0xFBu8, 0xFFu8, 0xFFu8, 0xFFu8, 0x90u8, 0x90u8, 0x90u8],
        lock_bytes(target).len() == 8,
{
    lemma_self_jump(target);
    assert(lock_bytes(target) =~= seq![
        0xE9u8,
        0xFBu8,
        0xFFu8,
        0xFFu8,
        0xFFu8,
        0x90u8,
        0x90u8,
        0x90u8,
    ]);
}

/// The ordinary stores of a patch: one for each byte of `src` past the first
/// word, the highest offset first.
pub open spec fn tail_stores(src: Seq<u8>) -> Seq<PatchAction> {
    Seq::new(
        if src.len() > 8 {
            (src.len() - 8) as nat
        } else {
            0nat
        },
        |j: int|
            PatchAction::StoreByte {
                offset: (src.len() - 1 - j) as usize,
                value: src[src.len() - 1 - j],
            },
    )
}

/// The first machine word once the patch is complete: the first bytes of
/// `src`, and behind a shorter `src` what the spin word left there.
pub open spec fn unlock_bytes(target: u64, src: Seq<u8>) -> Seq<u8> {
    merged_word(lock_bytes(target), src)
}

/// The stores that release the spinning threads: none for an empty `src`.
pub open spec fn unlock_stores(target: u64, src: Seq<u8>) -> Seq<PatchAction> {
    if src.len() == 0 {
        Seq::<PatchAction>::empty()
    } else {
        seq![PatchAction::StoreWord { word: le_value(unlock_bytes(target, src)) as u64 }]
    }
}

/// The number of bytes that a patch of a region of `reserved` bytes may
/// touch: the region, and at least one machine word.
pub open spec fn protect_len(reserved: nat) -> nat {
    if reserved >= 8 {
        reserved
    } else {
        8
    }
}

/// The whole patch that puts `src` at `target`.
pub open spec fn patch_plan(target: u64, src: Seq<u8>, reserved: nat) -> Seq<PatchAction> {
    seq![
        PatchAction::MakeWritable { len: protect_len(reserved) as usize },
        PatchAction::StoreWord { word: le_value(lock_bytes(target)) as u64 },
    ] + tail_stores(src) + unlock_stores(target, src) + seq![
        PatchAction::MakeExecutable { len: protect_len(reserved) as usize },
    ]
}

/// What the failure of a step means for the whole patch.
pub fn patch_result(failed: Option<PatchAction>) -> (r: Result<(), HookError>)
    ensures
        failed.is_none() ==> r == Ok::<(), HookError>(()),
        failed.is_some() ==> r == Err::<(), HookError>(HookError::MemoryProtectionFailed),
{
    match failed {
        None => Ok(()),
        Some(_) => Err(HookError::MemoryProtectionFailed),
    }
}

/// The first machine word of a finished patch, over a function whose first
/// word holds `dest`: the first bytes of `src`, and behind a shorter `src`
/// the bytes of `dest`.
pub open spec fn merged_word(dest: Seq<u8>, src: Seq<u8>) -> Seq<u8> {
    if src.len() >= 8 {
        src.subrange(0, 8)
    } else {
        src + dest.skip(src.len() as int)
    }
}

/// The word of the one atomic store that ends a patch: the first bytes of
/// `src`, filled up to a machine word with the bytes that `dest`, the first
/// word of the target, holds behind them.
pub fn write_atomic_patch(dest: &[u8], src: &[u8]) -> (r: u64)
    requires
        dest@.len() == 8,
    ensures
        r == le_value(merged_word(dest@, src@)),
{
    let mut to_write: Vec<u8> = Vec::new();
    let mut i: usize = 0;
    let n = src.len();
    while i < WORD_SIZE
        invariant
            i <= 8,
            n == src@.len(),
            dest@.len() == 8,
            to_write@.len() == i,
            forall|k: int|
                0 <= k < i ==> to_write@[k] == (if k < n {
                    src@[k]
                } else {
                    dest@[k]
                }),
        decreases 8 - i,
    {
        if i < n {
            to_write.push(src[i]);
        } else {
            to_write.push(dest[i]);
        }
        i = i + 1;
    }
    assert(to_write@ =~= merged_word(dest@, src@));
    assert(to_write@.subrange(0, 8) =~= to_write@);
    proof {
        lemma_le_bytes_of_value(to_write@);
        lemma_pow256_values();
    }
    le_read_u64(to_write.as_slice())
}

/// Appends the stores that put `src` over a locked function whose first
/// word holds `dest`: every byte past the first word with an ordinary store,
/// the highest offset first, and then the first word with one atomic store,
/// which takes the lock away. For an empty `src` there is nothing to store.
pub fn patch_and_unlock(dest: &[u8], src: &[u8], actions: &mut Vec<PatchAction>)
    requires
        dest@.len() == 8,
    ensures
        final(actions)@ == old(actions)@ + tail_stores(src@) + (if src@.len() == 0 {
            Seq::<PatchAction>::empty()
        } else {
            seq![PatchAction::StoreWord { word: le_value(merged_word(dest@, src@)) as u64 }]
        }),
{
    let ghost head = actions@;
    let n = src.len();
    let mut i: usize = n;
    while i > WORD_SIZE
        invariant
            n == src@.len(),
            i <= n,
            n > 8 ==> i >= 8,
            n <= 8 ==> i == n,
            actions@ =~= head + tail_stores(src@).subrange(0, n - i),
        decreases i,
    {
        i = i - 1;
        actions.push(PatchAction::StoreByte { offset: i, value: src[i] });
    }
    assert(actions@ =~= head + tail_stores(src@));
    if n > 0 {
        let word = write_atomic_patch(dest, src);
        actions.push(PatchAction::StoreWord { word });
    }
}

/// A region of code with its original bytes and the bytes that replace them.
pub struct Patcher {
    pub target: u64,
    bytes_to_write: Vec<u8>,
    original_bytes: Vec<u8>,
}

impl Patcher {
    /// The patched address.
    pub closed spec fn address(&self) -> u64 {
        self.target
    }

    /// The replacement bytes.
    pub closed spec fn patch(&self) -> Seq<u8> {
        self.bytes_to_write@
    }

    /// The bytes that were at the target before any patch.
    pub closed spec fn original(&self) -> Seq<u8> {
        self.original_bytes@
    }

    /// The replacement never outgrows the region.
    pub open spec fn wf(&self) -> bool {
        self.patch().len() <= self.original().len()
    }

    /// The bytes that `toggle_hook` puts at the target.
    pub open spec fn source(&self, enabled: bool) -> Seq<u8> {
        if enabled {
            self.patch()
        } else {
            self.original()
        }
    }

    /// The patch that `toggle_hook` plans.
    pub open spec fn plan(&self, enabled: bool) -> Seq<PatchAction> {
        patch_plan(self.address(), self.source(enabled), self.original().len())
    }

    /// A patcher for the region at `target` that currently holds `original`
    /// and is to hold `patch` while enabled.
    ///
    /// Fails with `PatchTooLarge` exactly when `patch` is longer than the
    /// region.
    pub fn new(target: u64, patch: Vec<u8>, original: Vec<u8>) -> (r: Result<Patcher, HookError>)
        ensures
            patch@.len() > original@.len() ==> r matches Err(HookError::PatchTooLarge),
            patch@.len() <= original@.len() ==> r.is_ok() && r.unwrap().wf() && r.unwrap().address()
                == target && r.unwrap().patch() == patch@ && r.unwrap().original() == original@,
    {
        if patch.len() > original.len() {
            Err(HookError::PatchTooLarge)
        } else {
            Ok(Patcher { target, bytes_to_write: patch, original_bytes: original })
        }
    }

    /// The patched address.
    pub fn target(&self) -> (r: u64)
        ensures
            r == self.address(),
    {
        self.target
    }

    /// The replacement bytes.
    pub fn patch_bytes(&self) -> (r: &Vec<u8>)
        ensures
            r@ == self.patch(),
    {
        &self.bytes_to_write
    }

    /// The bytes that were at the target before any patch.
    pub fn saved_bytes(&self) -> (r: &Vec<u8>)
        ensures
            r@ == self.original(),
    {
        &self.original_bytes
    }

    /// The machine word that makes the function spin at its entry: a jump
    /// from the target to itself, padded with no-ops.
    ///
    /// `LockEncodingFailed` is reserved for a spin instruction wider than a
    /// word; on this architecture it has five bytes and the call succeeds.
    pub fn lock_function(&self) -> (r: Result<u64, HookError>)
        ensures
            r == Ok::<u64, HookError>(le_value(lock_bytes(self.address())) as u64),
    {
        proof {
            lemma_self_jump(self.target);
            lemma_lock_bytes(self.target);
        }
        match generate_relative_branch(self.target, self.target, false) {
            Err(err) => Err(err),
            Ok(lock) => {
                if lock.len() > WORD_SIZE {
                    return Err(HookError::LockEncodingFailed);
                }
                let mut atomic_buffer = lock;
                while atomic_buffer.len() < WORD_SIZE
                    invariant
                        5 <= atomic_buffer@.len() <= 8,
                        lock_bytes(self.target) == seq![
                            0xE9u8,
                            0xFBu8,
                            0xFFu8,
                            0xFFu8,
                            0xFFu8,
                            0x90u8,
                            0x90u8,
                            0x90u8,
                        ],
                        atomic_buffer@ =~= lock_bytes(self.target).subrange(
                            0,
                            atomic_buffer@.len() as int,
                        ),
                    decreases 8 - atomic_buffer@.len(),
                {
                    atomic_buffer.push(NOP);
                }
                assert(atomic_buffer@ =~= lock_bytes(self.target));
                assert(atomic_buffer@.subrange(0, 8) =~= atomic_buffer@);
                Ok(le_read_u64(atomic_buffer.as_slice()))
            },
        }
    }

    /// Plans the patch that puts the replacement at the target, or with
    /// `enabled` false the original bytes.
    ///
    /// The plan makes the region writable, stores the spin word, stores every
    /// byte past the first word from the highest offset down, stores the
    /// first word, and makes the region executable again.
    pub fn toggle_hook(&self, enabled: bool) -> (r: Result<Vec<PatchAction>, HookError>)
        ensures
            r.is_ok(),
            r.unwrap()@ == self.plan(enabled),
    {
        let src: &Vec<u8> = if enabled {
            &self.bytes_to_write
        } else {
            &self.original_bytes
        };
        assert(src@ == self.source(enabled));
        let reserved = self.original_bytes.len();
        let len: usize = if reserved >= WORD_SIZE {
            reserved
        } else {
            WORD_SIZE
        };
        let lock = match self.lock_function() {
            Ok(lock) => lock,
            Err(err) => {
                return Err(err);
            },
        };
        let mut actions: Vec<PatchAction> = Vec::new();
        actions.push(PatchAction::MakeWritable { len });
        actions.push(PatchAction::StoreWord { word: lock });
        let locked = le_write_u64(lock);
        proof {
            lemma_lock_bytes(self.target);
            lemma_le_bytes_of_value(lock_bytes(self.target));
            lemma_pow256_values();
        }
        patch_and_unlock(locked.as_slice(), src.as_slice(), &mut actions);
        actions.push(PatchAction::MakeExecutable { len });
        assert(actions@ =~= self.plan(enabled));
        Ok(actions)
    }

    /// Plans the patch that puts the replacement at the target.
    pub fn enable(&self) -> (r: Result<Vec<PatchAction>, HookError>)
        ensures
            r.is_ok(),
            r.unwrap()@ == self.plan(true),
    {
        self.toggle_hook(true)
    }

    /// Plans the patch that puts the original bytes back.
    pub fn disable(&self) -> (r: Result<Vec<PatchAction>, HookError>)
        ensures
            r.is_ok(),
            r.unwrap()@ == self.plan(false),
    {
        self.toggle_hook(false)
    }
}

} // verus!
