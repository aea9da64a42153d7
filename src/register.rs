use vstd::prelude::*;

verus! {

/// A 64-bit general-purpose register of x86-64, in hardware-encoding order.
#[derive(Copy, Clone, PartialEq, Eq, Structural, Hash, PartialOrd, Ord, Debug)]
pub enum X86_64GPReg {
    RAX,
    RCX,
    RDX,
    RBX,
    RSP,
    RBP,
    RSI,
    RDI,
    R8,
    R9,
    R10,
    R11,
    R12,
    R13,
    R14,
    R15,
}

impl X86_64GPReg {
    /// The 4-bit hardware number of the register.
    pub open spec fn spec_encoding(self) -> u8 {
        match self {
            X86_64GPReg::RAX => 0,
            X86_64GPReg::RCX => 1,
            X86_64GPReg::RDX => 2,
            X86_64GPReg::RBX => 3,
            X86_64GPReg::RSP => 4,
            X86_64GPReg::RBP => 5,
            X86_64GPReg::RSI => 6,
            X86_64GPReg::RDI => 7,
            X86_64GPReg::R8 => 8,
            X86_64GPReg::R9 => 9,
            X86_64GPReg::R10 => 10,
            X86_64GPReg::R11 => 11,
            X86_64GPReg::R12 => 12,
            X86_64GPReg::R13 => 13,
            X86_64GPReg::R14 => 14,
            X86_64GPReg::R15 => 15,
        }
    }

    /// Registers R8 to R15 need an extension bit in the REX prefix.
    pub open spec fn is_numbered(self) -> bool {
        self.spec_encoding() > 7
    }

    /// The low three bits of the encoding, as they stand in a ModRM byte or an opcode.
    pub open spec fn low_bits(self) -> u8 {
        (self.spec_encoding() % 8) as u8
    }

    /// Returns the register's hardware encoding, a number from 0 to 15.
    pub fn encoding(&self) -> (r: u8)
        ensures
            r == self.spec_encoding(),
            r <= 15,
    {
        match self {
            X86_64GPReg::RAX => 0,
            X86_64GPReg::RCX => 1,
            X86_64GPReg::RDX => 2,
            X86_64GPReg::RBX => 3,
            X86_64GPReg::RSP => 4,
            X86_64GPReg::RBP => 5,
            X86_64GPReg::RSI => 6,
            X86_64GPReg::RDI => 7,
            X86_64GPReg::R8 => 8,
            X86_64GPReg::R9 => 9,
            X86_64GPReg::R10 => 10,
            X86_64GPReg::R11 => 11,
            X86_64GPReg::R12 => 12,
            X86_64GPReg::R13 => 13,
            X86_64GPReg::R14 => 14,
            X86_64GPReg::R15 => 15,
        }
    }
}

/// Distinct registers have distinct encodings, and every encoding is below 16.
pub proof fn lemma_encoding_injective(a: X86_64GPReg, b: X86_64GPReg)
    ensures
        a.spec_encoding() <= 15,
        a.spec_encoding() == b.spec_encoding() <==> a == b,
{
}

} // verus!
