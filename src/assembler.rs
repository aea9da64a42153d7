use vstd::prelude::*;
use crate::buffer::{append_bytes, bump_bytes, byte_count, push_byte, reserve_bytes};
use crate::encoding::{
    add_opcode_extension, add_reg_extension, add_rm_extension, le_bytes, le_bytes_i32,
    le_bytes_i64, low_bits, reg_field, rex_b, rex_r, REX, REX_W,
};
use crate::register::X86_64GPReg;

verus! {

/// A ModRM byte in register-direct mode: `rm` in the r/m field, `reg` in the reg field.
pub open spec fn modrm_direct(rm: u8, reg: u8) -> u8 {
    (0xC0 + rm + reg * 8) as u8
}

/// `ADD r/m64, imm32`: REX.W(+B), `81`, ModRM `/0` with `dst` as r/m, then the immediate.
pub open spec fn add_reg_imm32_bytes(dst: X86_64GPReg, imm: i32) -> Seq<u8> {
    seq![(REX_W + rex_b(dst)) as u8, 0x81u8, modrm_direct(dst.low_bits(), 0)] + le_bytes(
        imm as int,
        4,
    )
}

/// `ADD r/m64, r64`: REX.W(+B for `dst`, +R for `src`), `01`, ModRM.
pub open spec fn add_reg_reg_bytes(dst: X86_64GPReg, src: X86_64GPReg) -> Seq<u8> {
    seq![
        (REX_W + rex_b(dst) + rex_r(src)) as u8,
        0x01u8,
        modrm_direct(dst.low_bits(), src.low_bits()),
    ]
}

/// `CMOVL r64, r/m64`: REX.W(+R for `dst`, +B for `src`), `0F 4C`, ModRM.
pub open spec fn cmovl_reg_reg_bytes(dst: X86_64GPReg, src: X86_64GPReg) -> Seq<u8> {
    seq![
        (REX_W + rex_r(dst) + rex_b(src)) as u8,
        0x0Fu8,
        0x4Cu8,
        modrm_direct(src.low_bits(), dst.low_bits()),
    ]
}

/// `MOV r/m64, r64`: REX.W(+B for `dst`, +R for `src`), `89`, ModRM.
pub open spec fn mov_reg_reg_bytes(dst: X86_64GPReg, src: X86_64GPReg) -> Seq<u8> {
    seq![
        (REX_W + rex_b(dst) + rex_r(src)) as u8,
        0x89u8,
        modrm_direct(dst.low_bits(), src.low_bits()),
    ]
}

/// The ModRM and SIB bytes of `[RSP + disp32]` with `reg` in the reg field.
pub open spec fn stack_operand(reg: X86_64GPReg) -> Seq<u8> {
    seq![(0x84 + reg.low_bits() * 8) as u8, 0x24u8]
}

/// `MOV r64, [RSP + disp32]`: REX.W(+R), `8B`, ModRM, SIB, then the offset.
pub open spec fn mov_reg_stack_bytes(dst: X86_64GPReg, offset: i32) -> Seq<u8> {
    seq![(REX_W + rex_r(dst)) as u8, 0x8Bu8] + stack_operand(dst) + le_bytes(offset as int, 4)
}

/// `MOV [RSP + disp32], r64`: REX.W(+R), `89`, ModRM, SIB, then the offset.
pub open spec fn mov_stack_reg_bytes(offset: i32, src: X86_64GPReg) -> Seq<u8> {
    seq![(REX_W + rex_r(src)) as u8, 0x89u8] + stack_operand(src) + le_bytes(offset as int, 4)
}

/// `NEG r/m64`: REX.W(+B), `F7`, ModRM `/3` with `reg` as r/m.
pub open spec fn neg_reg_bytes(reg: X86_64GPReg) -> Seq<u8> {
    seq![(REX_W + rex_b(reg)) as u8, 0xF7u8, modrm_direct(reg.low_bits(), 3)]
}

/// `RET`.
pub open spec fn ret_bytes() -> Seq<u8> {
    seq![0xC3u8]
}

/// `SUB r/m64, imm32`: REX.W(+B), `81`, ModRM `/5` with `dst` as r/m, then the immediate.
pub open spec fn sub_reg_imm32_bytes(dst: X86_64GPReg, imm: i32) -> Seq<u8> {
    seq![(REX_W + rex_b(dst)) as u8, 0x81u8, modrm_direct(dst.low_bits(), 5)] + le_bytes(
        imm as int,
        4,
    )
}

/// `MOV r/m64, imm32`: REX.W(+B), `C7`, ModRM with `dst` as r/m, then the immediate.
pub open spec fn mov_reg_imm32_bytes(dst: X86_64GPReg, imm: i32) -> Seq<u8> {
    seq![(REX_W + rex_b(dst)) as u8, 0xC7u8, modrm_direct(dst.low_bits(), 0)] + le_bytes(
        imm as int,
        4,
    )
}

/// `MOV r64, imm64`: the sign-extended 32-bit form where the value fits in
/// an `i32`, else REX.W(+B), `B8 + reg`, then the eight-byte immediate.
pub open spec fn mov_reg_imm64_bytes(dst: X86_64GPReg, imm: i64) -> Seq<u8> {
    if i32::MIN <= imm <= i32::MAX {
        mov_reg_imm32_bytes(dst, imm as i32)
    } else {
        seq![(REX_W + rex_b(dst)) as u8, (0xB8 + dst.low_bits()) as u8] + le_bytes(imm as int, 8)
    }
}

/// A one-byte opcode that carries the register in its low bits (`PUSH`, `POP`):
/// a lone REX.B prefix comes first only for R8 to R15.
pub open spec fn opcode_reg_bytes(base: u8, reg: X86_64GPReg) -> Seq<u8> {
    if reg.is_numbered() {
        seq![(REX + 1) as u8, (base + reg.low_bits()) as u8]
    } else {
        seq![(base + reg.low_bits()) as u8]
    }
}

/// `POP r64`.
pub open spec fn pop_bytes(reg: X86_64GPReg) -> Seq<u8> {
    opcode_reg_bytes(0x58, reg)
}

/// `PUSH r64`.
pub open spec fn push_bytes(reg: X86_64GPReg) -> Seq<u8> {
    opcode_reg_bytes(0x50, reg)
}

/// One instruction of the forms the encoder supports, with its operands.
#[derive(Copy, Clone, PartialEq, Eq, Structural, Debug)]
pub enum X86_64Instruction {
    AddRegImm32 { dst: X86_64GPReg, imm: i32 },
    AddRegReg { dst: X86_64GPReg, src: X86_64GPReg },
    CmovlRegReg { dst: X86_64GPReg, src: X86_64GPReg },
    MovRegImm32 { dst: X86_64GPReg, imm: i32 },
    MovRegImm64 { dst: X86_64GPReg, imm: i64 },
    MovRegReg { dst: X86_64GPReg, src: X86_64GPReg },
    MovRegStack { dst: X86_64GPReg, offset: i32 },
    MovStackReg { offset: i32, src: X86_64GPReg },
    Neg { reg: X86_64GPReg },
    Ret,
    Sub { dst: X86_64GPReg, imm: i32 },
    Pop { reg: X86_64GPReg },
    Push { reg: X86_64GPReg },
}

/// The bytes that encode `inst`.
pub open spec fn instruction_bytes(inst: X86_64Instruction) -> Seq<u8> {
    match inst {
        X86_64Instruction::AddRegImm32 { dst, imm } => add_reg_imm32_bytes(dst, imm),
        X86_64Instruction::AddRegReg { dst, src } => add_reg_reg_bytes(dst, src),
        X86_64Instruction::CmovlRegReg { dst, src } => cmovl_reg_reg_bytes(dst, src),
        X86_64Instruction::MovRegImm32 { dst, imm } => mov_reg_imm32_bytes(dst, imm),
        X86_64Instruction::MovRegImm64 { dst, imm } => mov_reg_imm64_bytes(dst, imm),
        X86_64Instruction::MovRegReg { dst, src } => mov_reg_reg_bytes(dst, src),
        X86_64Instruction::MovRegStack { dst, offset } => mov_reg_stack_bytes(dst, offset),
        X86_64Instruction::MovStackReg { offset, src } => mov_stack_reg_bytes(offset, src),
        X86_64Instruction::Neg { reg } => neg_reg_bytes(reg),
        X86_64Instruction::Ret => ret_bytes(),
        X86_64Instruction::Sub { dst, imm } => sub_reg_imm32_bytes(dst, imm),
        X86_64Instruction::Pop { reg } => pop_bytes(reg),
        X86_64Instruction::Push { reg } => push_bytes(reg),
    }
}

/// The room an instruction of this form asks of the buffer: its longest encoding.
pub open spec fn spec_room_needed(inst: X86_64Instruction) -> nat {
    match inst {
        X86_64Instruction::AddRegImm32 { .. } => 7,
        X86_64Instruction::AddRegReg { .. } => 3,
        X86_64Instruction::CmovlRegReg { .. } => 4,
        X86_64Instruction::MovRegImm32 { .. } => 7,
        X86_64Instruction::MovRegImm64 { .. } => 10,
        X86_64Instruction::MovRegReg { .. } => 3,
        X86_64Instruction::MovRegStack { .. } => 8,
        X86_64Instruction::MovStackReg { .. } => 8,
        X86_64Instruction::Neg { .. } => 3,
        X86_64Instruction::Ret => 1,
        X86_64Instruction::Sub { .. } => 7,
        X86_64Instruction::Pop { .. } => 2,
        X86_64Instruction::Push { .. } => 2,
    }
}

impl X86_64Instruction {
    /// The room this instruction asks of the buffer.
    pub fn room_needed(&self) -> (r: usize)
        ensures
            r == spec_room_needed(*self),
    {
        match self {
            X86_64Instruction::AddRegImm32 { .. } => 7,
            X86_64Instruction::AddRegReg { .. } => 3,
            X86_64Instruction::CmovlRegReg { .. } => 4,
            X86_64Instruction::MovRegImm32 { .. } => 7,
            X86_64Instruction::MovRegImm64 { .. } => 10,
            X86_64Instruction::MovRegReg { .. } => 3,
            X86_64Instruction::MovRegStack { .. } => 8,
            X86_64Instruction::MovStackReg { .. } => 8,
            X86_64Instruction::Neg { .. } => 3,
            X86_64Instruction::Ret => 1,
            X86_64Instruction::Sub { .. } => 7,
            X86_64Instruction::Pop { .. } => 2,
            X86_64Instruction::Push { .. } => 2,
        }
    }
}

/// A 64-bit immediate `mov` takes the seven-byte sign-extended form exactly
/// when the value lies within the `i32` range, bounds included, and the
/// ten-byte `B8 + reg` form otherwise.
pub proof fn lemma_mov_immediate64bit_form(dst: X86_64GPReg, imm: i64)
    ensures
        i32::MIN <= imm <= i32::MAX ==> mov_reg_imm64_bytes(dst, imm) == mov_reg_imm32_bytes(
            dst,
            imm as i32,
        ) && mov_reg_imm64_bytes(dst, imm).len() == 7,
        !(i32::MIN <= imm <= i32::MAX) ==> mov_reg_imm64_bytes(dst, imm).len() == 10
            && mov_reg_imm64_bytes(dst, imm)[0] == REX_W + rex_b(dst) && mov_reg_imm64_bytes(
            dst,
            imm,
        )[1] == 0xB8 + dst.low_bits() && mov_reg_imm64_bytes(dst, imm).subrange(2, 10)
            == le_bytes(imm as int, 8),
{
    if !(i32::MIN <= imm <= i32::MAX) {
        assert(mov_reg_imm64_bytes(dst, imm).subrange(2, 10) =~= le_bytes(imm as int, 8));
    }
}

/// `PUSH` and `POP` take two bytes, a lone `41` prefix and the opcode, for
/// R8 to R15, and the opcode byte alone for the other registers.
pub proof fn lemma_push_pop_length(reg: X86_64GPReg)
    ensures
        push_bytes(reg).len() == (if reg.is_numbered() {
            2int
        } else {
            1int
        }),
        pop_bytes(reg).len() == push_bytes(reg).len(),
        reg.is_numbered() ==> push_bytes(reg)[0] == 0x41 && pop_bytes(reg)[0] == 0x41,
        push_bytes(reg).last() == 0x50 + reg.low_bits(),
        pop_bytes(reg).last() == 0x58 + reg.low_bits(),
{
}

/// The x86-64 instruction encoder: each function appends one instruction to `buf`.
pub struct X86_64Assembler {}

impl X86_64Assembler {
    /// Appends the encoding of `inst` when the buffer's length leaves room
    /// for it below `isize::MAX`, and returns whether it did; otherwise the
    /// buffer is left as it was.
    pub fn emit<'a>(buf: &mut bumpalo::collections::Vec<'a, u8>, inst: X86_64Instruction) -> (r:
        bool)
        ensures
            r == (bump_bytes(*old(buf)).len() + spec_room_needed(inst) <= isize::MAX),
            r ==> bump_bytes(*final(buf)) == bump_bytes(*old(buf)) + instruction_bytes(inst),
            !r ==> bump_bytes(*final(buf)) == bump_bytes(*old(buf)),
    {
        let len = byte_count(buf);
        if len > isize::MAX as usize - inst.room_needed() {
            return false;
        }
        match inst {
            X86_64Instruction::AddRegImm32 { dst, imm } => {
                Self::add_register64bit_immediate32bit(buf, dst, imm)
            },
            X86_64Instruction::AddRegReg { dst, src } => {
                Self::add_register64bit_register64bit(buf, dst, src)
            },
            X86_64Instruction::CmovlRegReg { dst, src } => {
                Self::cmovl_register64bit_register64bit(buf, dst, src)
            },
            X86_64Instruction::MovRegImm32 { dst, imm } => {
                Self::mov_register64bit_immediate32bit(buf, dst, imm)
            },
            X86_64Instruction::MovRegImm64 { dst, imm } => {
                Self::mov_register64bit_immediate64bit(buf, dst, imm)
            },
            X86_64Instruction::MovRegReg { dst, src } => {
                Self::mov_register64bit_register64bit(buf, dst, src)
            },
            X86_64Instruction::MovRegStack { dst, offset } => {
                Self::mov_register64bit_stackoffset32bit(buf, dst, offset)
            },
            X86_64Instruction::MovStackReg { offset, src } => {
                Self::mov_stackoffset32bit_register64bit(buf, offset, src)
            },
            X86_64Instruction::Neg { reg } => Self::neg_register64bit(buf, reg),
            X86_64Instruction::Ret => Self::ret(buf),
            X86_64Instruction::Sub { dst, imm } => {
                Self::sub_register64bit_immediate32bit(buf, dst, imm)
            },
            X86_64Instruction::Pop { reg } => Self::pop_register64bit(buf, reg),
            X86_64Instruction::Push { reg } => Self::push_register64bit(buf, reg),
        }
        true
    }

    /// `ADD r/m64, imm32` -> Add imm32 sign-extended to 64-bits to r/m64.
    pub fn add_register64bit_immediate32bit<'a>(
        buf: &mut bumpalo::collections::Vec<'a, u8>,
        dst: X86_64GPReg,
        imm: i32,
    )
        requires
            bump_bytes(*old(buf)).len() + 7 <= isize::MAX,
        ensures
            bump_bytes(*final(buf)) == bump_bytes(*old(buf)) + add_reg_imm32_bytes(dst, imm),
    {
        let rex = add_rm_extension(dst, REX_W);
        let dst_mod = low_bits(dst);
        reserve_bytes(buf, 7);
        append_bytes(buf, &[rex, 0x81, 0xC0 + dst_mod]);
        append_bytes(buf, &le_bytes_i32(imm));
        assert(bump_bytes(*buf) =~= bump_bytes(*old(buf)) + add_reg_imm32_bytes(dst, imm));
    }

    /// `ADD r/m64,r64` -> Add r64 to r/m64.
    pub fn add_register64bit_register64bit<'a>(
        buf: &mut bumpalo::collections::Vec<'a, u8>,
        dst: X86_64GPReg,
        src: X86_64GPReg,
    )
        requires
            bump_bytes(*old(buf)).len() + 3 <= isize::MAX,
        ensures
            bump_bytes(*final(buf)) == bump_bytes(*old(buf)) + add_reg_reg_bytes(dst, src),
    {
        let rex = add_rm_extension(dst, REX_W);
        let rex = add_reg_extension(src, rex);
        let dst_mod = low_bits(dst);
        let src_mod = reg_field(src);
        append_bytes(buf, &[rex, 0x01, 0xC0 + dst_mod + src_mod]);
    }

    /// `CMOVL r64,r/m64` -> Move if less (SF != OF).
    pub fn cmovl_register64bit_register64bit<'a>(
        buf: &mut bumpalo::collections::Vec<'a, u8>,
        dst: X86_64GPReg,
        src: X86_64GPReg,
    )
        requires
            bump_bytes(*old(buf)).len() + 4 <= isize::MAX,
        ensures
            bump_bytes(*final(buf)) == bump_bytes(*old(buf)) + cmovl_reg_reg_bytes(dst, src),
    {
        let rex = add_reg_extension(dst, REX_W);
        let rex = add_rm_extension(src, rex);
        let dst_mod = reg_field(dst);
        let src_mod = low_bits(src);
        append_bytes(buf, &[rex, 0x0F, 0x4C, 0xC0 + dst_mod + src_mod]);
    }

    /// `MOV r/m64, imm32` -> Move imm32 sign extended to 64-bits to r/m64.
    pub fn mov_register64bit_immediate32bit<'a>(
        buf: &mut bumpalo::collections::Vec<'a, u8>,
        dst: X86_64GPReg,
        imm: i32,
    )
        requires
            bump_bytes(*old(buf)).len() + 7 <= isize::MAX,
        ensures
            bump_bytes(*final(buf)) == bump_bytes(*old(buf)) + mov_reg_imm32_bytes(dst, imm),
    {
        let rex = add_rm_extension(dst, REX_W);
        let dst_mod = low_bits(dst);
        reserve_bytes(buf, 7);
        append_bytes(buf, &[rex, 0xC7, 0xC0 + dst_mod]);
        append_bytes(buf, &le_bytes_i32(imm));
        assert(bump_bytes(*buf) =~= bump_bytes(*old(buf)) + mov_reg_imm32_bytes(dst, imm));
    }

    /// `MOV r64, imm64` -> Move imm64 to r64.
    pub fn mov_register64bit_immediate64bit<'a>(
        buf: &mut bumpalo::collections::Vec<'a, u8>,
        dst: X86_64GPReg,
        imm: i64,
    )
        requires
            bump_bytes(*old(buf)).len() + 10 <= isize::MAX,
        ensures
            bump_bytes(*final(buf)) == bump_bytes(*old(buf)) + mov_reg_imm64_bytes(dst, imm),
    {
        if imm <= i32::MAX as i64 && imm >= i32::MIN as i64 {
            Self::mov_register64bit_immediate32bit(buf, dst, imm as i32)
        } else {
            let rex = add_opcode_extension(dst, REX_W);
            let dst_mod = low_bits(dst);
            reserve_bytes(buf, 10);
            append_bytes(buf, &[rex, 0xB8 + dst_mod]);
            append_bytes(buf, &le_bytes_i64(imm));
            assert(bump_bytes(*buf) =~= bump_bytes(*old(buf)) + mov_reg_imm64_bytes(dst, imm));
        }
    }

    /// `MOV r/m64,r64` -> Move r64 to r/m64.
    pub fn mov_register64bit_register64bit<'a>(
        buf: &mut bumpalo::collections::Vec<'a, u8>,
        dst: X86_64GPReg,
        src: X86_64GPReg,
    )
        requires
            bump_bytes(*old(buf)).len() + 3 <= isize::MAX,
        ensures
            bump_bytes(*final(buf)) == bump_bytes(*old(buf)) + mov_reg_reg_bytes(dst, src),
    {
        let rex = add_rm_extension(dst, REX_W);
        let rex = add_reg_extension(src, rex);
        let dst_mod = low_bits(dst);
        let src_mod = reg_field(src);
        append_bytes(buf, &[rex, 0x89, 0xC0 + dst_mod + src_mod]);
    }

    /// `MOV r64,r/m64` -> Move r/m64 to r64, with r/m64 a slot at `offset` from the stack pointer.
    pub fn mov_register64bit_stackoffset32bit<'a>(
        buf: &mut bumpalo::collections::Vec<'a, u8>,
        dst: X86_64GPReg,
        offset: i32,
    )
        requires
            bump_bytes(*old(buf)).len() + 8 <= isize::MAX,
        ensures
            bump_bytes(*final(buf)) == bump_bytes(*old(buf)) + mov_reg_stack_bytes(dst, offset),
    {
        // The four-byte displacement is used for every offset, even small ones.
        let rex = add_reg_extension(dst, REX_W);
        let dst_mod = reg_field(dst);
        reserve_bytes(buf, 8);
        append_bytes(buf, &[rex, 0x8B, 0x84 + dst_mod, 0x24]);
        append_bytes(buf, &le_bytes_i32(offset));
        assert(bump_bytes(*buf) =~= bump_bytes(*old(buf)) + mov_reg_stack_bytes(dst, offset));
    }

    /// `MOV r/m64,r64` -> Move r64 to r/m64, with r/m64 a slot at `offset` from the stack pointer.
    pub fn mov_stackoffset32bit_register64bit<'a>(
        buf: &mut bumpalo::collections::Vec<'a, u8>,
        offset: i32,
        src: X86_64GPReg,
    )
        requires
            bump_bytes(*old(buf)).len() + 8 <= isize::MAX,
        ensures
            bump_bytes(*final(buf)) == bump_bytes(*old(buf)) + mov_stack_reg_bytes(offset, src),
    {
        // The four-byte displacement is used for every offset, even small ones.
        let rex = add_reg_extension(src, REX_W);
        let src_mod = reg_field(src);
        reserve_bytes(buf, 8);
        append_bytes(buf, &[rex, 0x89, 0x84 + src_mod, 0x24]);
        append_bytes(buf, &le_bytes_i32(offset));
        assert(bump_bytes(*buf) =~= bump_bytes(*old(buf)) + mov_stack_reg_bytes(offset, src));
    }

    /// `NEG r/m64` -> Two's complement negate r/m64.
    pub fn neg_register64bit<'a>(buf: &mut bumpalo::collections::Vec<'a, u8>, reg: X86_64GPReg)
        requires
            bump_bytes(*old(buf)).len() + 3 <= isize::MAX,
        ensures
            bump_bytes(*final(buf)) == bump_bytes(*old(buf)) + neg_reg_bytes(reg),
    {
        let rex = add_rm_extension(reg, REX_W);
        let reg_mod = low_bits(reg);
        append_bytes(buf, &[rex, 0xF7, 0xD8 + reg_mod]);
    }

    /// `RET` -> Near return to calling procedure.
    pub fn ret<'a>(buf: &mut bumpalo::collections::Vec<'a, u8>)
        requires
            bump_bytes(*old(buf)).len() + 1 <= isize::MAX,
        ensures
            bump_bytes(*final(buf)) == bump_bytes(*old(buf)) + ret_bytes(),
    {
        push_byte(buf, 0xC3);
        assert(bump_bytes(*buf) =~= bump_bytes(*old(buf)) + ret_bytes());
    }

    /// `SUB r/m64, imm32` -> Subtract imm32 sign-extended to 64-bits from r/m64.
    pub fn sub_register64bit_immediate32bit<'a>(
        buf: &mut bumpalo::collections::Vec<'a, u8>,
        dst: X86_64GPReg,
        imm: i32,
    )
        requires
            bump_bytes(*old(buf)).len() + 7 <= isize::MAX,
        ensures
            bump_bytes(*final(buf)) == bump_bytes(*old(buf)) + sub_reg_imm32_bytes(dst, imm),
    {
        let rex = add_rm_extension(dst, REX_W);
        let dst_mod = low_bits(dst);
        reserve_bytes(buf, 7);
        append_bytes(buf, &[rex, 0x81, 0xE8 + dst_mod]);
        append_bytes(buf, &le_bytes_i32(imm));
        assert(bump_bytes(*buf) =~= bump_bytes(*old(buf)) + sub_reg_imm32_bytes(dst, imm));
    }

    /// `POP r64` -> Pop top of stack into r64; increment stack pointer. Cannot encode 32-bit operand size.
    pub fn pop_register64bit<'a>(buf: &mut bumpalo::collections::Vec<'a, u8>, reg: X86_64GPReg)
        requires
            bump_bytes(*old(buf)).len() + 2 <= isize::MAX,
        ensures
            bump_bytes(*final(buf)) == bump_bytes(*old(buf)) + pop_bytes(reg),
    {
        let reg_mod = low_bits(reg);
        if reg.encoding() > 7 {
            let rex = add_opcode_extension(reg, REX);
            append_bytes(buf, &[rex, 0x58 + reg_mod]);
        } else {
            push_byte(buf, 0x58 + reg_mod);
        }
        assert(bump_bytes(*buf) =~= bump_bytes(*old(buf)) + pop_bytes(reg));
    }

    /// `PUSH r64` -> Push r64.
    pub fn push_register64bit<'a>(buf: &mut bumpalo::collections::Vec<'a, u8>, reg: X86_64GPReg)
        requires
            bump_bytes(*old(buf)).len() + 2 <= isize::MAX,
        ensures
            bump_bytes(*final(buf)) == bump_bytes(*old(buf)) + push_bytes(reg),
    {
        let reg_mod = low_bits(reg);
        if reg.encoding() > 7 {
            let rex = add_opcode_extension(reg, REX);
            append_bytes(buf, &[rex, 0x50 + reg_mod]);
        } else {
            push_byte(buf, 0x50 + reg_mod);
        }
        assert(bump_bytes(*buf) =~= bump_bytes(*old(buf)) + push_bytes(reg));
    }
}

} // verus!
