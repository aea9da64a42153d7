use bumpalo::collections::Vec as BumpVec;
use bumpalo::Bump;
use gen_dev::assembler::{X86_64Assembler, X86_64Instruction};
use gen_dev::call_conv::{X86_64SystemV, X86_64WindowsFastcall};
use gen_dev::encoding::{
    add_opcode_extension, add_reg_extension, add_rm_extension, le_bytes_i32, le_bytes_i64,
    REX, REX_W,
};
use gen_dev::register::X86_64GPReg;
use gen_dev::register::X86_64GPReg::{
    R10, R11, R12, R13, R14, R15, R8, R9, RAX, RBP, RBX, RCX, RDI, RDX, RSI, RSP,
};

const ALL_REGS: [X86_64GPReg; 16] = [
    X86_64GPReg::RAX,
    X86_64GPReg::RCX,
    X86_64GPReg::RDX,
    X86_64GPReg::RBX,
    X86_64GPReg::RSP,
    X86_64GPReg::RBP,
    X86_64GPReg::RSI,
    X86_64GPReg::RDI,
    X86_64GPReg::R8,
    X86_64GPReg::R9,
    X86_64GPReg::R10,
    X86_64GPReg::R11,
    X86_64GPReg::R12,
    X86_64GPReg::R13,
    X86_64GPReg::R14,
    X86_64GPReg::R15,
];

#[test]
fn register_encodings_follow_hardware_order() {
    for (i, reg) in ALL_REGS.iter().enumerate() {
        assert_eq!(reg.encoding() as usize, i);
    }
    assert!(X86_64GPReg::RAX < X86_64GPReg::R15);
    assert!(X86_64GPReg::RDI < X86_64GPReg::R8);
}

#[test]
fn rex_extension_bits() {
    assert_eq!(REX, 0x40);
    assert_eq!(REX_W, 0x48);
    assert_eq!(add_rm_extension(X86_64GPReg::RDI, REX_W), 0x48);
    assert_eq!(add_rm_extension(X86_64GPReg::R8, REX_W), 0x49);
    assert_eq!(add_opcode_extension(X86_64GPReg::R12, REX), 0x41);
    assert_eq!(add_opcode_extension(X86_64GPReg::RBX, REX), 0x40);
    assert_eq!(add_reg_extension(X86_64GPReg::RSI, REX_W), 0x48);
    assert_eq!(add_reg_extension(X86_64GPReg::R9, REX_W), 0x4C);
    assert_eq!(add_reg_extension(X86_64GPReg::R9, add_rm_extension(X86_64GPReg::R10, REX_W)), 0x4D);
}

#[test]
fn little_endian_immediates() {
    assert_eq!(le_bytes_i32(0x12345678), [0x78, 0x56, 0x34, 0x12]);
    assert_eq!(le_bytes_i32(-1), [0xFF, 0xFF, 0xFF, 0xFF]);
    assert_eq!(le_bytes_i32(-2), [0xFE, 0xFF, 0xFF, 0xFF]);
    assert_eq!(le_bytes_i32(i32::MIN), [0x00, 0x00, 0x00, 0x80]);
    assert_eq!(le_bytes_i64(0x12345678_9ABCDEF0), [0xF0, 0xDE, 0xBC, 0x9A, 0x78, 0x56, 0x34, 0x12]);
    assert_eq!(le_bytes_i64(i64::MIN), i64::MIN.to_le_bytes());
    assert_eq!(le_bytes_i64(-300), (-300i64).to_le_bytes());
}

#[test]
fn negative_immediates_and_offsets() {
    let arena = Bump::new();
    let mut buf = BumpVec::new_in(&arena);
    X86_64Assembler::sub_register64bit_immediate32bit(&mut buf, X86_64GPReg::RSP, -16);
    assert_eq!(&buf[..], &[0x48, 0x81, 0xEC, 0xF0, 0xFF, 0xFF, 0xFF]);
    buf.clear();
    X86_64Assembler::mov_register64bit_stackoffset32bit(&mut buf, X86_64GPReg::RDX, -8);
    assert_eq!(&buf[..], &[0x48, 0x8B, 0x94, 0x24, 0xF8, 0xFF, 0xFF, 0xFF]);
    buf.clear();
    X86_64Assembler::mov_stackoffset32bit_register64bit(&mut buf, 8, X86_64GPReg::R9);
    assert_eq!(&buf[..], &[0x4C, 0x89, 0x8C, 0x24, 0x08, 0x00, 0x00, 0x00]);
}

#[test]
fn every_register_in_direct_forms() {
    let arena = Bump::new();
    let mut buf = BumpVec::new_in(&arena);
    for reg in ALL_REGS.iter() {
        let n = reg.encoding();
        buf.clear();
        X86_64Assembler::neg_register64bit(&mut buf, *reg);
        assert_eq!(&buf[..], &[0x48 + (n > 7) as u8, 0xF7, 0xD8 + n % 8]);
        buf.clear();
        X86_64Assembler::mov_register64bit_register64bit(&mut buf, X86_64GPReg::RCX, *reg);
        assert_eq!(&buf[..], &[0x48 + 4 * (n > 7) as u8, 0x89, 0xC1 + (n % 8) * 8]);
        buf.clear();
        X86_64Assembler::mov_register64bit_immediate32bit(&mut buf, *reg, 0);
        assert_eq!(&buf[..], &[0x48 + (n > 7) as u8, 0xC7, 0xC0 + n % 8, 0, 0, 0, 0]);
    }
}

#[test]
fn mov_immediate64bit_boundaries() {
    let arena = Bump::new();
    let mut buf = BumpVec::new_in(&arena);
    let short = [
        i32::MAX as i64,
        i32::MIN as i64,
        i32::MAX as i64 - 1,
        i32::MIN as i64 + 1,
    ];
    for imm in short.iter() {
        for (reg, prefix) in &[(X86_64GPReg::RAX, [0x48, 0xC7, 0xC0]), (X86_64GPReg::R15, [0x49, 0xC7, 0xC7])] {
            buf.clear();
            X86_64Assembler::mov_register64bit_immediate64bit(&mut buf, *reg, *imm);
            assert_eq!(buf.len(), 7);
            assert_eq!(&buf[..3], prefix);
            assert_eq!(&buf[3..], &(*imm as i32).to_le_bytes());
        }
    }
    let long = [i32::MAX as i64 + 1, i32::MIN as i64 - 1, i64::MAX, i64::MIN];
    for imm in long.iter() {
        for (reg, prefix) in &[(X86_64GPReg::RAX, [0x48, 0xB8]), (X86_64GPReg::R15, [0x49, 0xBF])] {
            buf.clear();
            X86_64Assembler::mov_register64bit_immediate64bit(&mut buf, *reg, *imm);
            assert_eq!(buf.len(), 10);
            assert_eq!(&buf[..2], prefix);
            assert_eq!(&buf[2..], &imm.to_le_bytes());
        }
    }
}

#[test]
fn push_pop_lengths() {
    let arena = Bump::new();
    let mut buf = BumpVec::new_in(&arena);
    X86_64Assembler::push_register64bit(&mut buf, X86_64GPReg::R15);
    assert_eq!(&buf[..], &[0x41, 0x57]);
    buf.clear();
    X86_64Assembler::pop_register64bit(&mut buf, X86_64GPReg::R15);
    assert_eq!(&buf[..], &[0x41, 0x5F]);
    buf.clear();
    X86_64Assembler::push_register64bit(&mut buf, X86_64GPReg::RAX);
    assert_eq!(buf.len(), 1);
    buf.clear();
    X86_64Assembler::pop_register64bit(&mut buf, X86_64GPReg::RAX);
    assert_eq!(buf.len(), 1);
    buf.clear();
    X86_64Assembler::push_register64bit(&mut buf, X86_64GPReg::RBP);
    X86_64Assembler::pop_register64bit(&mut buf, X86_64GPReg::R8);
    assert_eq!(&buf[..], &[0x55, 0x41, 0x58]);
}

#[test]
fn add_sequence_in_one_buffer() {
    let arena = Bump::new();
    let mut buf = BumpVec::new_in(&arena);
    buf.push(0x90);
    buf.clear();
    X86_64Assembler::add_register64bit_register64bit(&mut buf, X86_64GPReg::RAX, X86_64GPReg::RAX);
    X86_64Assembler::add_register64bit_register64bit(&mut buf, X86_64GPReg::R15, X86_64GPReg::R15);
    X86_64Assembler::add_register64bit_register64bit(&mut buf, X86_64GPReg::RAX, X86_64GPReg::R15);
    X86_64Assembler::add_register64bit_register64bit(&mut buf, X86_64GPReg::R15, X86_64GPReg::RAX);
    assert_eq!(
        &buf[..],
        &[0x48, 0x01, 0xC0, 0x4D, 0x01, 0xFF, 0x4C, 0x01, 0xF8, 0x49, 0x01, 0xC7]
    );
}

#[test]
fn encoder_appends_after_existing_bytes() {
    let arena = Bump::new();
    let mut buf = BumpVec::new_in(&arena);
    buf.push(0x55);
    X86_64Assembler::mov_register64bit_immediate32bit(&mut buf, X86_64GPReg::RBX, 1);
    X86_64Assembler::ret(&mut buf);
    assert_eq!(&buf[..], &[0x55, 0x48, 0xC7, 0xC3, 0x01, 0x00, 0x00, 0x00, 0xC3]);
}

fn assert_partition(caller: &[X86_64GPReg], callee: &[X86_64GPReg]) {
    for reg in ALL_REGS.iter() {
        assert!(caller.contains(reg) != callee.contains(reg), "{:?}", reg);
    }
    assert_eq!(caller.len() + callee.len(), 16);
}

#[test]
fn system_v_tables() {
    assert_eq!(X86_64SystemV::gp_param_regs(), &[RDI, RSI, RDX, RCX, R8, R9]);
    assert_eq!(X86_64SystemV::gp_return_regs(), &[RAX, RDX]);
    assert_eq!(X86_64SystemV::stack_pointer(), RSP);
    assert_eq!(X86_64SystemV::frame_pointer(), RBP);
    assert_eq!(X86_64SystemV::shadow_space_size(), 0);
    assert_eq!(X86_64SystemV::red_zone_size(), 128);
    let caller = X86_64SystemV::caller_saved_regs();
    let callee = X86_64SystemV::callee_saved_regs();
    assert_partition(&caller, &callee);
    assert!(caller.contains(&RSP));
    assert!(callee.contains(&RBP));
    for reg in X86_64SystemV::gp_param_regs().iter().chain(X86_64SystemV::gp_return_regs()) {
        assert!(caller.contains(reg));
    }
    let free = X86_64SystemV::gp_default_free_regs();
    assert!(!free.contains(&RSP) && !free.contains(&RBP));
}

#[test]
fn windows_fastcall_tables() {
    assert_eq!(X86_64WindowsFastcall::gp_param_regs(), &[RCX, RDX, R8, R9]);
    assert_eq!(X86_64WindowsFastcall::gp_return_regs(), &[RAX]);
    assert_eq!(X86_64WindowsFastcall::stack_pointer(), RSP);
    assert_eq!(X86_64WindowsFastcall::frame_pointer(), RBP);
    assert_eq!(X86_64WindowsFastcall::shadow_space_size(), 32);
    assert_eq!(X86_64WindowsFastcall::red_zone_size(), 0);
    let caller = X86_64WindowsFastcall::caller_saved_regs();
    let callee = X86_64WindowsFastcall::callee_saved_regs();
    assert_partition(&caller, &callee);
    assert!(callee.contains(&RSP) && callee.contains(&RSI) && callee.contains(&RDI));
    let free = X86_64WindowsFastcall::gp_default_free_regs();
    assert!(!free.contains(&RSP) && !free.contains(&RBP));
}

#[test]
fn system_v_free_registers_pop_order() {
    let mut free = X86_64SystemV::gp_default_free_regs().to_vec();
    let callee = X86_64SystemV::callee_saved_regs();
    let mut popped = Vec::new();
    while let Some(reg) = free.pop() {
        popped.push(reg);
    }
    assert_eq!(
        popped,
        vec![R11, R10, R9, R8, RDI, RSI, RDX, RCX, RAX, R15, R14, R13, R12, RBX]
    );
    let first_callee = popped.iter().position(|r| callee.contains(r)).unwrap();
    assert_eq!(first_callee, 9);
    assert!(popped[first_callee..].iter().all(|r| callee.contains(r)));
}

#[test]
fn windows_free_registers_pop_order() {
    let mut free = X86_64WindowsFastcall::gp_default_free_regs().to_vec();
    let mut popped = Vec::new();
    while let Some(reg) = free.pop() {
        popped.push(reg);
    }
    assert_eq!(
        popped,
        vec![R11, R10, R9, R8, RDX, RCX, RAX, R15, R14, R13, R12, RDI, RSI, RBX]
    );
}

#[test]
fn emit_instruction_list() {
    let arena = Bump::new();
    let mut buf = BumpVec::new_in(&arena);
    let body = [
        X86_64Instruction::Push { reg: RBP },
        X86_64Instruction::MovRegReg { dst: RBP, src: RSP },
        X86_64Instruction::Sub { dst: RSP, imm: 16 },
        X86_64Instruction::MovRegImm64 { dst: R12, imm: 1 << 40 },
        X86_64Instruction::MovStackReg { offset: 0, src: R12 },
        X86_64Instruction::MovRegStack { dst: RAX, offset: 0 },
        X86_64Instruction::AddRegImm32 { dst: RAX, imm: -1 },
        X86_64Instruction::AddRegReg { dst: RAX, src: R12 },
        X86_64Instruction::CmovlRegReg { dst: RAX, src: RCX },
        X86_64Instruction::MovRegImm32 { dst: RCX, imm: 2 },
        X86_64Instruction::Neg { reg: RAX },
        X86_64Instruction::Pop { reg: RBP },
        X86_64Instruction::Ret,
    ];
    for inst in body.iter() {
        assert!(X86_64Assembler::emit(&mut buf, *inst));
    }
    let expected: Vec<u8> = vec![
        0x55, // push rbp
        0x48, 0x89, 0xE5, // mov rbp, rsp
        0x48, 0x81, 0xEC, 0x10, 0x00, 0x00, 0x00, // sub rsp, 16
        0x49, 0xBC, 0x00, 0x00, 0x00, 0x00, 0x00, 0x01, 0x00, 0x00, // mov r12, 1 << 40
        0x4C, 0x89, 0xA4, 0x24, 0x00, 0x00, 0x00, 0x00, // mov [rsp], r12
        0x48, 0x8B, 0x84, 0x24, 0x00, 0x00, 0x00, 0x00, // mov rax, [rsp]
        0x48, 0x81, 0xC0, 0xFF, 0xFF, 0xFF, 0xFF, // add rax, -1
        0x4C, 0x01, 0xE0, // add rax, r12
        0x48, 0x0F, 0x4C, 0xC1, // cmovl rax, rcx
        0x48, 0xC7, 0xC1, 0x02, 0x00, 0x00, 0x00, // mov rcx, 2
        0x48, 0xF7, 0xD8, // neg rax
        0x5D, // pop rbp
        0xC3, // ret
    ];
    assert_eq!(&buf[..], &expected[..]);
    assert_eq!(X86_64Instruction::MovRegImm64 { dst: RAX, imm: 0 }.room_needed(), 10);
    assert_eq!(X86_64Instruction::Ret.room_needed(), 1);
}
