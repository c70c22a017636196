//! The failures that constructing, patching and looking up hooks can report.

use vstd::prelude::*;
use vstd::string::*;

verus! {

/// Why a hook operation was refused.
#[derive(Clone, Copy, Debug, PartialEq, Eq, Structural)]
pub enum HookError {
    /// A relative branch cannot reach its destination with a 32-bit offset.
    DisplacementOutOfRange,
    /// The replacement code is longer than the region reserved for it.
    PatchTooLarge,
    /// The code region could not be made writable, or executable again.
    MemoryProtectionFailed,
    /// The spin instruction does not fit in one machine word.
    LockEncodingFailed,
    /// No hook is installed at the given address.
    HookNotFound,
    /// The hook cannot be made: the address is hooked already, the captured
    /// bytes are not the prefix that was asked for, or the prefix runs past
    /// the end of the address space.
    HookConstructionFailed,
}

impl HookError {
    /// The text that goes to the controller for this failure.
    pub open spec fn spec_message(self) -> Seq<char> {
        match self {
            HookError::DisplacementOutOfRange => "Displacement is too big"@,
            HookError::PatchTooLarge => "Hook patch is too big for given actual_patch_size"@,
            HookError::MemoryProtectionFailed => "Could not mprotect."@,
            HookError::LockEncodingFailed => "Lock size is too big for atomic locking"@,
            HookError::HookNotFound => "Hook was not found"@,
            HookError::HookConstructionFailed => "Hook could not be constructed"@,
        }
    }

    /// The text that goes to the controller for this failure.
    pub fn message(&self) -> (r: String)
        ensures
            r@ == self.spec_message(),
    {
        match self {
            HookError::DisplacementOutOfRange => String::from_str("Displacement is too big"),
            HookError::PatchTooLarge => String::from_str(
                "Hook patch is too big for given actual_patch_size",
            ),
            HookError::MemoryProtectionFailed => String::from_str("Could not mprotect."),
            HookError::LockEncodingFailed => String::from_str(
                "Lock size is too big for atomic locking",
            ),
            HookError::HookNotFound => String::from_str("Hook was not found"),
            HookError::HookConstructionFailed => String::from_str("Hook could not be constructed"),
        }
    }
}

} // verus!
