//! Constants describing the code stored in a bundle directory.

use vstd::prelude::*;

verus! {

/// The machine architectures a bundle's executable code can target.
#[derive(Debug, Clone, Copy, PartialEq, Eq, Structural)]
pub enum MachOArchitecture {
    /// Sixty-four-bit ARM.
    ARM64,
    /// Thirty-two-bit Intel.
    I386,
    /// Sixty-four-bit Intel.
    X86_64,
    /// Thirty-two-bit PowerPC.
    PPC,
    /// Sixty-four-bit PowerPC.
    PPC64,
}

impl MachOArchitecture {
    /// The number the native framework uses for this constant.
    pub open spec fn value_spec(self) -> u64 {
        match self {
            Self::ARM64 => 0x0100000c,
            Self::I386 => 0x00000007,
            Self::X86_64 => 0x01000007,
            Self::PPC => 0x00000012,
            Self::PPC64 => 0x01000012,
        }
    }

    /// Returns the number the native framework uses for this constant.
    pub fn value(self) -> (r: u64)
        ensures
            r == self.value_spec(),
    {
        match self {
            Self::ARM64 => 0x0100000c,
            Self::I386 => 0x00000007,
            Self::X86_64 => 0x01000007,
            Self::PPC => 0x00000012,
            Self::PPC64 => 0x01000012,
        }
    }
}

} // verus!
