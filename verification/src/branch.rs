//! Branch instructions of x86-64, as bytes.

use crate::endian::{le_bytes, le_write_u32, le_write_u64, lemma_le_bytes_len};
use crate::error::HookError;
use vstd::prelude::*;

verus! {

/// Length of a relative jump or call: one opcode byte and a 32-bit offset.
pub const REL_JMP_SIZE: usize = 5;

/// Length of an absolute branch: `mov rax, imm64` followed by `jmp rax`.
pub const ABSOLUTE_BRANCH_SIZE: usize = 12;

/// Opcode of a relative jump with a 32-bit offset.
pub const JMP: u8 = 0xE9;

/// Opcode of a relative call with a 32-bit offset.
pub const CALL: u8 = 0xE8;

/// A relative branch: its opcode and the offset from the end of the
/// instruction to the destination, in two's complement.
#[derive(Clone, Copy, Debug, PartialEq, Eq, Structural)]
pub struct RelJump {
    pub opcode: u8,
    pub displacement: u32,
}

impl RelJump {
    /// The instruction as it lies in memory.
    pub open spec fn spec_bytes(self) -> Seq<u8> {
        seq![self.opcode] + le_bytes(self.displacement as nat, 4)
    }

    /// The instruction as it lies in memory: the opcode, then the offset with
    /// its least significant byte first.
    pub fn to_bytes(&self) -> (r: Vec<u8>)
        ensures
            r@ == self.spec_bytes(),
            r@.len() == REL_JMP_SIZE,
    {
        let mut out: Vec<u8> = Vec::new();
        out.push(self.opcode);
        let tail = le_write_u32(self.displacement);
        proof {
            lemma_le_bytes_len(self.displacement as nat, 4);
        }
        out.extend_from_slice(tail.as_slice());
        assert(out@ =~= self.spec_bytes());
        out
    }
}

/// The distance from the end of an instruction of `instruction_size` bytes at
/// `from` to the address `to`, in the 64-bit two's complement arithmetic of
/// the processor: the difference modulo 2^64, read as a signed number.
pub open spec fn displacement(from: u64, to: u64, instruction_size: u64) -> int {
    let raw = (to as int - from as int - instruction_size as int) % 0x1_0000_0000_0000_0000;
    if raw < 0x8000_0000_0000_0000 {
        raw
    } else {
        raw - 0x1_0000_0000_0000_0000
    }
}

/// Whether a distance fits the signed 32-bit offset of a relative branch.
pub open spec fn fits_rel32(d: int) -> bool {
    -0x8000_0000 <= d <= 0x7fff_ffff
}

/// The 32-bit two's complement pattern of a distance that fits.
pub open spec fn rel32(d: int) -> u32
    recommends
        fits_rel32(d),
{
    if d >= 0 {
        d as u32
    } else {
        (d + 0x1_0000_0000) as u32
    }
}

/// Whether `displacement` fits the signed 32-bit offset of a relative branch.
pub fn is_displacement_in_range(displacement: i64) -> (r: bool)
    ensures
        r == fits_rel32(displacement as int),
{
    -0x8000_0000 <= displacement && displacement <= 0x7fff_ffff
}

/// The offset field of a relative branch at `from` that lands on `to`.
///
/// Fails with `DisplacementOutOfRange` exactly when the distance does not fit
/// in 32 signed bits.
pub fn calc_displacment(from: u64, to: u64, instruction_size: u64) -> (r: Result<u32, HookError>)
    ensures
        fits_rel32(displacement(from, to, instruction_size)) ==> r == Ok::<u32, HookError>(
            rel32(displacement(from, to, instruction_size)),
        ),
        !fits_rel32(displacement(from, to, instruction_size)) ==> r == Err::<u32, HookError>(
            HookError::DisplacementOutOfRange,
        ),
{
    let end = from.wrapping_add(instruction_size);
    let raw = to.wrapping_sub(end);
    assert(raw as int == (to as int - from as int - instruction_size as int)
        % 0x1_0000_0000_0000_0000) by (nonlinear_arith)
        requires
            end as int == (from as int + instruction_size as int) % 0x1_0000_0000_0000_0000,
            raw as int == (to as int - end as int) % 0x1_0000_0000_0000_0000,
    ;
    let signed: i64 = if raw < 0x8000_0000_0000_0000 {
        raw as i64
    } else {
        -((u64::MAX - raw) as i64) - 1
    };
    assert(signed as int == displacement(from, to, instruction_size));
    if is_displacement_in_range(signed) {
        if signed >= 0 {
            Ok(signed as u32)
        } else {
            Ok((signed + 0x1_0000_0000) as u32)
        }
    } else {
        Err(HookError::DisplacementOutOfRange)
    }
}

/// A relative jump, or a relative call where `is_call` holds, placed at
/// `from` and landing on `to`.
///
/// The result is five bytes: the opcode and the little-endian offset counted
/// from the end of the instruction. Fails with `DisplacementOutOfRange`
/// exactly when that offset does not fit in 32 signed bits.
pub fn generate_relative_branch(from: u64, to: u64, is_call: bool) -> (r: Result<
    Vec<u8>,
    HookError,
>)
    ensures
        fits_rel32(displacement(from, to, 5)) ==> r.is_ok() && r.unwrap()@ == relative_branch(
            from,
            to,
            is_call,
        ),
        !fits_rel32(displacement(from, to, 5)) ==> r == Err::<Vec<u8>, HookError>(
            HookError::DisplacementOutOfRange,
        ),
        r.is_ok() ==> r.unwrap()@.len() == REL_JMP_SIZE,
{
    match calc_displacment(from, to, 5) {
        Ok(displacement) => {
            let jmp = RelJump { opcode: if is_call { CALL } else { JMP }, displacement };
            Ok(jmp.to_bytes())
        },
        Err(err) => Err(err),
    }
}

/// The bytes of the relative branch from `from` to `to`, where it exists.
pub open spec fn relative_branch(from: u64, to: u64, is_call: bool) -> Seq<u8>
    recommends
        fits_rel32(displacement(from, to, 5)),
{
    (RelJump {
        opcode: if is_call { CALL } else { JMP },
        displacement: rel32(displacement(from, to, 5)),
    }).spec_bytes()
}

/// `mov rax, imm64`: the prefix `48 b8` and the operand, least significant
/// byte first.
pub open spec fn mov_rax(immediate: u64) -> Seq<u8> {
    seq![0x48u8, 0xb8u8] + le_bytes(immediate as nat, 8)
}

/// `jmp rax`.
pub open spec fn jmp_rax() -> Seq<u8> {
    seq![0xffu8, 0xe0u8]
}

/// The instruction pair that continues at `to` from anywhere.
pub open spec fn absolute_branch(to: u64) -> Seq<u8> {
    mov_rax(to) + jmp_rax()
}

/// An absolute branch has twelve bytes, whatever its destination.
pub proof fn lemma_absolute_branch_len(to: u64)
    ensures
        absolute_branch(to).len() == ABSOLUTE_BRANCH_SIZE,
{
    lemma_le_bytes_len(to as nat, 8);
}

/// The instruction that loads `immidiate` into `rax`.
pub fn build_mov_rax_i64(immidiate: u64) -> (r: Vec<u8>)
    ensures
        r@ == mov_rax(immidiate),
        r@.len() == 10,
{
    let mut out: Vec<u8> = Vec::new();
    out.push(0x48);
    out.push(0xb8);
    let operand = le_write_u64(immidiate);
    proof {
        lemma_le_bytes_len(immidiate as nat, 8);
    }
    out.extend_from_slice(operand.as_slice());
    assert(out@ =~= mov_rax(immidiate));
    out
}

/// The instruction that jumps to the address in `rax`.
pub fn build_jmp_rax() -> (r: Vec<u8>)
    ensures
        r@ == jmp_rax(),
{
    let mut out: Vec<u8> = Vec::new();
    out.push(0xff);
    out.push(0xe0);
    assert(out@ =~= jmp_rax());
    out
}

/// A branch to `to` that works from any address: it loads `to` into `rax`
/// and jumps through the register. Always succeeds, always twelve bytes.
pub fn generate_absolute_branch(to: u64) -> (r: Result<Vec<u8>, HookError>)
    ensures
        r.is_ok(),
        r.unwrap()@ == absolute_branch(to),
        r.unwrap()@.len() == ABSOLUTE_BRANCH_SIZE,
{
    let mut out = build_mov_rax_i64(to);
    let jmp = build_jmp_rax();
    out.extend_from_slice(jmp.as_slice());
    Ok(out)
}

/// A relative jump from an address to itself: wherever it lies, its offset
/// field is minus its own length.
pub proof fn lemma_self_jump(at: u64)
    ensures
        fits_rel32(displacement(at, at, 5)),
        displacement(at, at, 5) == -5,
        relative_branch(at, at, false) == seq![0xE9u8, 0xFBu8, 0xFFu8, 0xFFu8, 0xFFu8],
{
    reveal_with_fuel(le_bytes, 5);
    assert(relative_branch(at, at, false) =~= seq![0xE9u8, 0xFBu8, 0xFFu8, 0xFFu8, 0xFFu8]);
}

} // verus!
