//! A stretch of memory as plain bytes: what the memory operations of the
//! engine mean, on a buffer that stands for the memory of the target.

use crate::endian::{le_write_u64, lemma_le_bytes_len};
use crate::patcher::{apply_action, apply_actions, PatchAction};
use vstd::prelude::*;

verus! {

/// `mem` with `data` stored at position `at`.
pub open spec fn stored(mem: Seq<u8>, at: int, data: Seq<u8>) -> Seq<u8> {
    mem.take(at) + data + mem.skip(at + data.len())
}

/// Whether the `size` bytes at `address` lie in the `len` bytes at `base`.
pub open spec fn within(base: u64, len: nat, address: u64, size: nat) -> bool {
    base <= address && address + size <= base + len
}

/// Whether a step of a patch stays inside `len` bytes.
pub open spec fn action_fits(len: nat, action: PatchAction) -> bool {
    match action {
        PatchAction::MakeWritable { len: n } => n <= len,
        PatchAction::MakeExecutable { len: n } => n <= len,
        PatchAction::StoreWord { word } => 8 <= len,
        PatchAction::StoreByte { offset, value } => offset < len,
    }
}

/// Whether every step of a patch stays inside `len` bytes.
pub open spec fn actions_fit(len: nat, actions: Seq<PatchAction>) -> bool {
    forall|i: int| 0 <= i < actions.len() ==> action_fits(len, #[trigger] actions[i])
}

/// No step of a patch changes the length of memory.
pub proof fn lemma_apply_actions_len(mem: Seq<u8>, actions: Seq<PatchAction>)
    requires
        actions_fit(mem.len(), actions),
    ensures
        apply_actions(mem, actions).len() == mem.len(),
    decreases actions.len(),
{
    if actions.len() > 0 {
        let front = actions.drop_last();
        assert forall|i: int| 0 <= i < front.len() implies action_fits(
            mem.len(),
            #[trigger] front[i],
        ) by {
            assert(front[i] == actions[i]);
        }
        lemma_apply_actions_len(mem, front);
        assert(action_fits(mem.len(), actions[actions.len() - 1]));
        match actions.last() {
            PatchAction::StoreWord { word } => {
                lemma_le_bytes_len(word as nat, 8);
            },
            _ => {},
        }
    }
}

/// Memory from `base` on.
pub struct Arena {
    base: u64,
    bytes: Vec<u8>,
}

impl Arena {
    /// The address of the first byte.
    pub closed spec fn start(&self) -> u64 {
        self.base
    }

    /// The bytes.
    pub closed spec fn contents(&self) -> Seq<u8> {
        self.bytes@
    }

    /// The arena does not run past the end of the address space.
    pub open spec fn wf(&self) -> bool {
        self.start() + self.contents().len() <= u64::MAX
    }

    /// The arena that holds `bytes` at `base`, where they fit in the address
    /// space.
    pub fn new(base: u64, bytes: Vec<u8>) -> (r: Option<Arena>)
        ensures
            base + bytes@.len() <= u64::MAX ==> r.is_some() && r.unwrap().wf() && r.unwrap().start()
                == base && r.unwrap().contents() == bytes@,
            base + bytes@.len() > u64::MAX ==> r.is_none(),
    {
        if bytes.len() as u64 > u64::MAX - base {
            None
        } else {
            Some(Arena { base, bytes })
        }
    }

    /// The position of `address` in the arena, where `size` bytes from it
    /// lie inside.
    fn locate(&self, address: u64, size: u64) -> (r: Option<usize>)
        requires
            self.wf(),
        ensures
            match r {
                Some(at) => within(self.start(), self.contents().len(), address, size as nat)
                    && at == address - self.start(),
                None => !within(self.start(), self.contents().len(), address, size as nat),
            },
    {
        if address < self.base {
            return None;
        }
        let at = address - self.base;
        let len = self.bytes.len() as u64;
        if at > len || size > len - at {
            return None;
        }
        Some(at as usize)
    }

    /// The `size` bytes at `address`, where they lie inside the arena.
    pub fn read(&self, address: u64, size: u64) -> (r: Option<Vec<u8>>)
        requires
            self.wf(),
        ensures
            match r {
                Some(buff) => within(self.start(), self.contents().len(), address, size as nat)
                    && buff@ == self.contents().subrange(
                    address - self.start(),
                    address - self.start() + size,
                ),
                None => !within(self.start(), self.contents().len(), address, size as nat),
            },
    {
        match self.locate(address, size) {
            Some(at) => {
                let mut out: Vec<u8> = Vec::new();
                let mut i: usize = 0;
                let total = self.bytes.len();
                assert(size <= total - at);
                let n = size as usize;
                while i < n
                    invariant
                        i <= n,
                        at + n <= self.bytes@.len() <= usize::MAX,
                        out@ =~= self.bytes@.subrange(at as int, at + i),
                    decreases n - i,
                {
                    out.push(self.bytes[at + i]);
                    i = i + 1;
                }
                Some(out)
            },
            None => None,
        }
    }

    /// Stores `buff` at `address`, where it lies inside the arena; else
    /// changes nothing and says so.
    pub fn write(&mut self, address: u64, buff: &[u8]) -> (r: bool)
        requires
            old(self).wf(),
        ensures
            final(self).wf(),
            final(self).start() == old(self).start(),
            r == within(old(self).start(), old(self).contents().len(), address, buff@.len()),
            r ==> final(self).contents() == stored(
                old(self).contents(),
                address - old(self).start(),
                buff@,
            ),
            !r ==> final(self).contents() == old(self).contents(),
    {
        match self.locate(address, buff.len() as u64) {
            Some(at) => {
                self.store(at, buff);
                true
            },
            None => false,
        }
    }

    /// Stores `data` at position `at`.
    fn store(&mut self, at: usize, data: &[u8])
        requires
            at + data@.len() <= old(self).contents().len(),
        ensures
            final(self).start() == old(self).start(),
            final(self).contents() == stored(old(self).contents(), at as int, data@),
            final(self).contents().len() == old(self).contents().len(),
    {
        let ghost before = self.bytes@;
        let total = self.bytes.len();
        let mut i: usize = 0;
        while i < data.len()
            invariant
                i <= data@.len(),
                at + data@.len() <= before.len() <= usize::MAX,
                self.base == old(self).base,
                self.bytes@.len() == before.len(),
                self.bytes@ =~= stored(before, at as int, data@.take(i as int)),
            decreases data@.len() - i,
        {
            self.bytes.set(at + i, data[i]);
            i = i + 1;
        }
        assert(data@.take(i as int) =~= data@);
    }

    /// Carries out a patch at `target`, where the arena holds every byte
    /// that the patch touches; else changes nothing and says so.
    pub fn patch(&mut self, target: u64, actions: &Vec<PatchAction>) -> (r: bool)
        requires
            old(self).wf(),
        ensures
            final(self).wf(),
            final(self).start() == old(self).start(),
            r == (within(old(self).start(), old(self).contents().len(), target, 0) && actions_fit(
                (old(self).contents().len() - (target - old(self).start())) as nat,
                actions@,
            )),
            r ==> final(self).contents() == old(self).contents().take(target - old(self).start())
                + apply_actions(
                old(self).contents().skip(target - old(self).start()),
                actions@,
            ),
            !r ==> final(self).contents() == old(self).contents(),
    {
        let at = match self.locate(target, 0) {
            Some(at) => at,
            None => {
                return false;
            },
        };
        let room = self.bytes.len() - at;
        let mut i: usize = 0;
        while i < actions.len()
            invariant
                i <= actions@.len(),
                *self == *old(self),
                self.wf(),
                within(self.start(), self.contents().len(), target, 0),
                at == target - self.start(),
                room == self.contents().len() - at,
                forall|k: int| 0 <= k < i ==> action_fits(room as nat, #[trigger] actions@[k]),
            decreases actions@.len() - i,
        {
            let fits = match actions[i] {
                PatchAction::MakeWritable { len } => len <= room,
                PatchAction::MakeExecutable { len } => len <= room,
                PatchAction::StoreWord { word } => 8 <= room,
                PatchAction::StoreByte { offset, value } => offset < room,
            };
            if !fits {
                return false;
            }
            i = i + 1;
        }
        let ghost before = self.bytes@;
        let ghost mem = before.skip(at as int);
        let mut j: usize = 0;
        while j < actions.len()
            invariant
                j <= actions@.len(),
                at + room == before.len() <= usize::MAX,
                mem == before.skip(at as int),
                self.base == old(self).base,
                actions_fit(room as nat, actions@),
                self.bytes@.len() == before.len(),
                self.bytes@ =~= before.take(at as int) + apply_actions(mem, actions@.take(j as int)),
            decreases actions@.len() - j,
        {
            let ghost done = actions@.take(j as int);
            let ghost now = apply_actions(mem, done);
            proof {
                assert forall|k: int| 0 <= k < done.len() implies action_fits(
                    mem.len(),
                    #[trigger] done[k],
                ) by {
                    assert(done[k] == actions@[k]);
                }
                lemma_apply_actions_len(mem, done);
                assert(actions@.take(j + 1).drop_last() =~= done);
                assert(actions@.take(j + 1).last() == actions@[j as int]);
                assert(action_fits(room as nat, actions@[j as int]));
            }
            match actions[j] {
                PatchAction::StoreWord { word } => {
                    let data = le_write_u64(word);
                    proof {
                        lemma_le_bytes_len(word as nat, 8);
                    }
                    self.store(at, data.as_slice());
                    assert(self.bytes@ =~= before.take(at as int) + apply_action(
                        now,
                        actions@[j as int],
                    ));
                },
                PatchAction::StoreByte { offset, value } => {
                    self.bytes.set(at + offset, value);
                    assert(self.bytes@ =~= before.take(at as int) + apply_action(
                        now,
                        actions@[j as int],
                    ));
                },
                _ => {},
            }
            j = j + 1;
        }
        assert(actions@.take(j as int) =~= actions@);
        true
    }
}

} // verus!
