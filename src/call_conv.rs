use vstd::prelude::*;
use crate::register::X86_64GPReg;

verus! {

/// The System V AMD64 calling convention (Linux, macOS and the other POSIX systems).
pub struct X86_64SystemV {}

impl X86_64SystemV {
    /// The parameter registers, in argument order.
    pub open spec fn spec_gp_param_regs() -> Seq<X86_64GPReg> {
        seq![
            X86_64GPReg::RDI,
            X86_64GPReg::RSI,
            X86_64GPReg::RDX,
            X86_64GPReg::RCX,
            X86_64GPReg::R8,
            X86_64GPReg::R9,
        ]
    }

    /// The return registers, in order.
    pub open spec fn spec_gp_return_regs() -> Seq<X86_64GPReg> {
        seq![
            X86_64GPReg::RAX,
            X86_64GPReg::RDX,
        ]
    }

    /// The free-register list; the last element is handed out first.
    pub open spec fn spec_gp_default_free_regs() -> Seq<X86_64GPReg> {
        seq![
            X86_64GPReg::RBX,
            X86_64GPReg::R12,
            X86_64GPReg::R13,
            X86_64GPReg::R14,
            X86_64GPReg::R15,
            X86_64GPReg::RAX,
            X86_64GPReg::RCX,
            X86_64GPReg::RDX,
            X86_64GPReg::RSI,
            X86_64GPReg::RDI,
            X86_64GPReg::R8,
            X86_64GPReg::R9,
            X86_64GPReg::R10,
            X86_64GPReg::R11,
        ]
    }

    /// Membership in the caller-saved set: a call may overwrite these.
    pub open spec fn is_caller_saved(reg: X86_64GPReg) -> bool {
        match reg {
            X86_64GPReg::RAX | X86_64GPReg::RCX | X86_64GPReg::RDX | X86_64GPReg::RSP | X86_64GPReg::RSI | X86_64GPReg::RDI | X86_64GPReg::R8 | X86_64GPReg::R9 | X86_64GPReg::R10 | X86_64GPReg::R11 => true,
            _ => false,
        }
    }

    /// Membership in the callee-saved set: a callee that uses these restores them.
    pub open spec fn is_callee_saved(reg: X86_64GPReg) -> bool {
        match reg {
            X86_64GPReg::RBX | X86_64GPReg::RBP | X86_64GPReg::R12 | X86_64GPReg::R13 | X86_64GPReg::R14 | X86_64GPReg::R15 => true,
            _ => false,
        }
    }

    /// Integer arguments go in these registers, in argument order.
    pub fn gp_param_regs() -> (r: &'static [X86_64GPReg])
        ensures
            r@ == Self::spec_gp_param_regs(),
    {
        let r: &'static [X86_64GPReg] = &[
            X86_64GPReg::RDI,
            X86_64GPReg::RSI,
            X86_64GPReg::RDX,
            X86_64GPReg::RCX,
            X86_64GPReg::R8,
            X86_64GPReg::R9,
        ];
        assert(r@ =~= Self::spec_gp_param_regs());
        r
    }

    /// Integer results come back in these registers, in order.
    pub fn gp_return_regs() -> (r: &'static [X86_64GPReg])
        ensures
            r@ == Self::spec_gp_return_regs(),
    {
        let r: &'static [X86_64GPReg] = &[
            X86_64GPReg::RAX,
            X86_64GPReg::RDX,
        ];
        assert(r@ =~= Self::spec_gp_return_regs());
        r
    }

    /// The registers a register allocator may hand out, taken from the end:
    /// caller-saved scratch registers are last, so they are used first, and
    /// callee-saved ones first, so they are used last. The stack and frame
    /// pointers are never handed out.
    pub fn gp_default_free_regs() -> (r: &'static [X86_64GPReg])
        ensures
            r@ == Self::spec_gp_default_free_regs(),
    {
        let r: &'static [X86_64GPReg] = &[
            X86_64GPReg::RBX,
            X86_64GPReg::R12,
            X86_64GPReg::R13,
            X86_64GPReg::R14,
            X86_64GPReg::R15,
            X86_64GPReg::RAX,
            X86_64GPReg::RCX,
            X86_64GPReg::RDX,
            X86_64GPReg::RSI,
            X86_64GPReg::RDI,
            X86_64GPReg::R8,
            X86_64GPReg::R9,
            X86_64GPReg::R10,
            X86_64GPReg::R11,
        ];
        assert(r@ =~= Self::spec_gp_default_free_regs());
        r
    }

    /// The caller-saved registers, each once.
    pub fn caller_saved_regs() -> (r: Vec<X86_64GPReg>)
        ensures
            r@.no_duplicates(),
            forall|x: X86_64GPReg| r@.contains(x) <==> Self::is_caller_saved(x),
    {
        let r = vec![
            X86_64GPReg::RAX,
            X86_64GPReg::RCX,
            X86_64GPReg::RDX,
            X86_64GPReg::RSP,
            X86_64GPReg::RSI,
            X86_64GPReg::RDI,
            X86_64GPReg::R8,
            X86_64GPReg::R9,
            X86_64GPReg::R10,
            X86_64GPReg::R11,
        ];
        proof {
            lemma_listed_members(r@);
        }
        r
    }

    /// The callee-saved registers, each once.
    pub fn callee_saved_regs() -> (r: Vec<X86_64GPReg>)
        ensures
            r@.no_duplicates(),
            forall|x: X86_64GPReg| r@.contains(x) <==> Self::is_callee_saved(x),
    {
        let r = vec![
            X86_64GPReg::RBX,
            X86_64GPReg::RBP,
            X86_64GPReg::R12,
            X86_64GPReg::R13,
            X86_64GPReg::R14,
            X86_64GPReg::R15,
        ];
        proof {
            lemma_listed_members(r@);
        }
        r
    }

    /// The stack pointer, RSP.
    pub fn stack_pointer() -> (r: X86_64GPReg)
        ensures
            r == X86_64GPReg::RSP,
    {
        X86_64GPReg::RSP
    }

    /// The frame pointer, RBP.
    pub fn frame_pointer() -> (r: X86_64GPReg)
        ensures
            r == X86_64GPReg::RBP,
    {
        X86_64GPReg::RBP
    }

    /// Bytes the caller reserves on the stack for the callee before a call.
    pub fn shadow_space_size() -> (r: u8)
        ensures
            r == 0,
    {
        0
    }

    /// Bytes below the stack pointer that a leaf function may use without moving it.
    pub fn red_zone_size() -> (r: u8)
        ensures
            r == 128,
    {
        128
    }
}

/// The Microsoft x64 calling convention of Windows.
pub struct X86_64WindowsFastcall {}

impl X86_64WindowsFastcall {
    /// The parameter registers, in argument order.
    pub open spec fn spec_gp_param_regs() -> Seq<X86_64GPReg> {
        seq![
            X86_64GPReg::RCX,
            X86_64GPReg::RDX,
            X86_64GPReg::R8,
            X86_64GPReg::R9,
        ]
    }

    /// The return registers, in order.
    pub open spec fn spec_gp_return_regs() -> Seq<X86_64GPReg> {
        seq![
            X86_64GPReg::RAX,
        ]
    }

    /// The free-register list; the last element is handed out first.
    pub open spec fn spec_gp_default_free_regs() -> Seq<X86_64GPReg> {
        seq![
            X86_64GPReg::RBX,
            X86_64GPReg::RSI,
            X86_64GPReg::RDI,
            X86_64GPReg::R12,
            X86_64GPReg::R13,
            X86_64GPReg::R14,
            X86_64GPReg::R15,
            X86_64GPReg::RAX,
            X86_64GPReg::RCX,
            X86_64GPReg::RDX,
            X86_64GPReg::R8,
            X86_64GPReg::R9,
            X86_64GPReg::R10,
            X86_64GPReg::R11,
        ]
    }

    /// Membership in the caller-saved set: a call may overwrite these.
    pub open spec fn is_caller_saved(reg: X86_64GPReg) -> bool {
        match reg {
            X86_64GPReg::RAX | X86_64GPReg::RCX | X86_64GPReg::RDX | X86_64GPReg::R8 | X86_64GPReg::R9 | X86_64GPReg::R10 | X86_64GPReg::R11 => true,
            _ => false,
        }
    }

    /// Membership in the callee-saved set: a callee that uses these restores them.
    pub open spec fn is_callee_saved(reg: X86_64GPReg) -> bool {
        match reg {
            X86_64GPReg::RBX | X86_64GPReg::RBP | X86_64GPReg::RSI | X86_64GPReg::RSP | X86_64GPReg::RDI | X86_64GPReg::R12 | X86_64GPReg::R13 | X86_64GPReg::R14 | X86_64GPReg::R15 => true,
            _ => false,
        }
    }

    /// Integer arguments go in these registers, in argument order.
    pub fn gp_param_regs() -> (r: &'static [X86_64GPReg])
        ensures
            r@ == Self::spec_gp_param_regs(),
    {
        let r: &'static [X86_64GPReg] = &[
            X86_64GPReg::RCX,
            X86_64GPReg::RDX,
            X86_64GPReg::R8,
            X86_64GPReg::R9,
        ];
        assert(r@ =~= Self::spec_gp_param_regs());
        r
    }

    /// Integer results come back in these registers, in order.
    pub fn gp_return_regs() -> (r: &'static [X86_64GPReg])
        ensures
            r@ == Self::spec_gp_return_regs(),
    {
        let r: &'static [X86_64GPReg] = &[
            X86_64GPReg::RAX,
        ];
        assert(r@ =~= Self::spec_gp_return_regs());
        r
    }

    /// The registers a register allocator may hand out, taken from the end:
    /// caller-saved scratch registers are last, so they are used first, and
    /// callee-saved ones first, so they are used last. The stack and frame
    /// pointers are never handed out.
    pub fn gp_default_free_regs() -> (r: &'static [X86_64GPReg])
        ensures
            r@ == Self::spec_gp_default_free_regs(),
    {
        let r: &'static [X86_64GPReg] = &[
            X86_64GPReg::RBX,
            X86_64GPReg::RSI,
            X86_64GPReg::RDI,
            X86_64GPReg::R12,
            X86_64GPReg::R13,
            X86_64GPReg::R14,
            X86_64GPReg::R15,
            X86_64GPReg::RAX,
            X86_64GPReg::RCX,
            X86_64GPReg::RDX,
            X86_64GPReg::R8,
            X86_64GPReg::R9,
            X86_64GPReg::R10,
            X86_64GPReg::R11,
        ];
        assert(r@ =~= Self::spec_gp_default_free_regs());
        r
    }

    /// The caller-saved registers, each once.
    pub fn caller_saved_regs() -> (r: Vec<X86_64GPReg>)
        ensures
            r@.no_duplicates(),
            forall|x: X86_64GPReg| r@.contains(x) <==> Self::is_caller_saved(x),
    {
        let r = vec![
            X86_64GPReg::RAX,
            X86_64GPReg::RCX,
            X86_64GPReg::RDX,
            X86_64GPReg::R8,
            X86_64GPReg::R9,
            X86_64GPReg::R10,
            X86_64GPReg::R11,
        ];
        proof {
            lemma_listed_members(r@);
        }
        r
    }

    /// The callee-saved registers, each once.
    pub fn callee_saved_regs() -> (r: Vec<X86_64GPReg>)
        ensures
            r@.no_duplicates(),
            forall|x: X86_64GPReg| r@.contains(x) <==> Self::is_callee_saved(x),
    {
        let r = vec![
            X86_64GPReg::RBX,
            X86_64GPReg::RBP,
            X86_64GPReg::RSI,
            X86_64GPReg::RSP,
            X86_64GPReg::RDI,
            X86_64GPReg::R12,
            X86_64GPReg::R13,
            X86_64GPReg::R14,
            X86_64GPReg::R15,
        ];
        proof {
            lemma_listed_members(r@);
        }
        r
    }

    /// The stack pointer, RSP.
    pub fn stack_pointer() -> (r: X86_64GPReg)
        ensures
            r == X86_64GPReg::RSP,
    {
        X86_64GPReg::RSP
    }

    /// The frame pointer, RBP.
    pub fn frame_pointer() -> (r: X86_64GPReg)
        ensures
            r == X86_64GPReg::RBP,
    {
        X86_64GPReg::RBP
    }

    /// Bytes the caller reserves on the stack for the callee before a call.
    pub fn shadow_space_size() -> (r: u8)
        ensures
            r == 32,
    {
        32
    }

    /// Bytes below the stack pointer that a leaf function may use without moving it.
    pub fn red_zone_size() -> (r: u8)
        ensures
            r == 0,
    {
        0
    }
}

/// The order in which registers leave `s` when it is popped from the end,
/// one at a time, until it is empty.
pub open spec fn pop_order(s: Seq<X86_64GPReg>) -> Seq<X86_64GPReg>
    decreases s.len(),
{
    if s.len() == 0 {
        Seq::empty()
    } else {
        seq![s.last()] + pop_order(s.drop_last())
    }
}

/// In the System V tables: the caller-saved and callee-saved sets split the sixteen
/// registers between them; so each parameter and each return register is in
/// exactly one of the two. Neither the stack pointer nor the frame pointer is
/// ever a free register.
pub proof fn lemma_system_v_tables_consistent()
    ensures
        forall|x: X86_64GPReg| X86_64SystemV::is_caller_saved(x) != X86_64SystemV::is_callee_saved(x),
        forall|i: int|
            0 <= i < X86_64SystemV::spec_gp_param_regs().len() ==> X86_64SystemV::is_caller_saved(
                #[trigger] X86_64SystemV::spec_gp_param_regs()[i],
            ) != X86_64SystemV::is_callee_saved(X86_64SystemV::spec_gp_param_regs()[i]),
        forall|i: int|
            0 <= i < X86_64SystemV::spec_gp_return_regs().len() ==> X86_64SystemV::is_caller_saved(
                #[trigger] X86_64SystemV::spec_gp_return_regs()[i],
            ) != X86_64SystemV::is_callee_saved(X86_64SystemV::spec_gp_return_regs()[i]),
        !X86_64SystemV::spec_gp_default_free_regs().contains(X86_64GPReg::RSP),
        !X86_64SystemV::spec_gp_default_free_regs().contains(X86_64GPReg::RBP),
{
    let free = X86_64SystemV::spec_gp_default_free_regs();
    assert(forall|i: int| 0 <= i < free.len() ==> free[i] != X86_64GPReg::RSP && free[i]
        != X86_64GPReg::RBP);
}

/// Popping the System V free list from its end hands out R11, R10, R9 and R8,
/// then RDI, RSI, RDX, RCX and RAX, all nine caller-saved, and only then the
/// callee-saved R15, R14, R13, R12 and RBX.
pub proof fn lemma_system_v_allocation_order()
    ensures
        pop_order(X86_64SystemV::spec_gp_default_free_regs()) == seq![X86_64GPReg::R11, X86_64GPReg::R10, X86_64GPReg::R9, X86_64GPReg::R8, X86_64GPReg::RDI, X86_64GPReg::RSI, X86_64GPReg::RDX, X86_64GPReg::RCX, X86_64GPReg::RAX, X86_64GPReg::R15, X86_64GPReg::R14, X86_64GPReg::R13, X86_64GPReg::R12, X86_64GPReg::RBX],
        forall|i: int|
            0 <= i < 9 ==> X86_64SystemV::is_caller_saved(
                #[trigger] pop_order(X86_64SystemV::spec_gp_default_free_regs())[i],
            ),
        forall|i: int|
            9 <= i < 14 ==> X86_64SystemV::is_callee_saved(
                #[trigger] pop_order(X86_64SystemV::spec_gp_default_free_regs())[i],
            ),
{
    reveal_with_fuel(pop_order, 15);
    assert(pop_order(X86_64SystemV::spec_gp_default_free_regs()) =~= seq![X86_64GPReg::R11, X86_64GPReg::R10, X86_64GPReg::R9, X86_64GPReg::R8, X86_64GPReg::RDI, X86_64GPReg::RSI, X86_64GPReg::RDX, X86_64GPReg::RCX, X86_64GPReg::RAX, X86_64GPReg::R15, X86_64GPReg::R14, X86_64GPReg::R13, X86_64GPReg::R12, X86_64GPReg::RBX]);
}

/// In the Windows x64 tables: the caller-saved and callee-saved sets split the sixteen
/// registers between them; so each parameter and each return register is in
/// exactly one of the two. Neither the stack pointer nor the frame pointer is
/// ever a free register.
pub proof fn lemma_windows_fastcall_tables_consistent()
    ensures
        forall|x: X86_64GPReg| X86_64WindowsFastcall::is_caller_saved(x) != X86_64WindowsFastcall::is_callee_saved(x),
        forall|i: int|
            0 <= i < X86_64WindowsFastcall::spec_gp_param_regs().len() ==> X86_64WindowsFastcall::is_caller_saved(
                #[trigger] X86_64WindowsFastcall::spec_gp_param_regs()[i],
            ) != X86_64WindowsFastcall::is_callee_saved(X86_64WindowsFastcall::spec_gp_param_regs()[i]),
        forall|i: int|
            0 <= i < X86_64WindowsFastcall::spec_gp_return_regs().len() ==> X86_64WindowsFastcall::is_caller_saved(
                #[trigger] X86_64WindowsFastcall::spec_gp_return_regs()[i],
            ) != X86_64WindowsFastcall::is_callee_saved(X86_64WindowsFastcall::spec_gp_return_regs()[i]),
        !X86_64WindowsFastcall::spec_gp_default_free_regs().contains(X86_64GPReg::RSP),
        !X86_64WindowsFastcall::spec_gp_default_free_regs().contains(X86_64GPReg::RBP),
{
    let free = X86_64WindowsFastcall::spec_gp_default_free_regs();
    assert(forall|i: int| 0 <= i < free.len() ==> free[i] != X86_64GPReg::RSP && free[i]
        != X86_64GPReg::RBP);
}

/// Popping the Windows x64 free list from its end hands out the seven
/// caller-saved registers R11, R10, R9, R8, RDX, RCX and RAX, and only then
/// the callee-saved R15, R14, R13, R12, RDI, RSI and RBX.
pub proof fn lemma_windows_fastcall_allocation_order()
    ensures
        pop_order(X86_64WindowsFastcall::spec_gp_default_free_regs()) == seq![X86_64GPReg::R11, X86_64GPReg::R10, X86_64GPReg::R9, X86_64GPReg::R8, X86_64GPReg::RDX, X86_64GPReg::RCX, X86_64GPReg::RAX, X86_64GPReg::R15, X86_64GPReg::R14, X86_64GPReg::R13, X86_64GPReg::R12, X86_64GPReg::RDI, X86_64GPReg::RSI, X86_64GPReg::RBX],
        forall|i: int|
            0 <= i < 7 ==> X86_64WindowsFastcall::is_caller_saved(
                #[trigger] pop_order(X86_64WindowsFastcall::spec_gp_default_free_regs())[i],
            ),
        forall|i: int|
            7 <= i < 14 ==> X86_64WindowsFastcall::is_callee_saved(
                #[trigger] pop_order(X86_64WindowsFastcall::spec_gp_default_free_regs())[i],
            ),
{
    reveal_with_fuel(pop_order, 15);
    assert(pop_order(X86_64WindowsFastcall::spec_gp_default_free_regs()) =~= seq![X86_64GPReg::R11, X86_64GPReg::R10, X86_64GPReg::R9, X86_64GPReg::R8, X86_64GPReg::RDX, X86_64GPReg::RCX, X86_64GPReg::RAX, X86_64GPReg::R15, X86_64GPReg::R14, X86_64GPReg::R13, X86_64GPReg::R12, X86_64GPReg::RDI, X86_64GPReg::RSI, X86_64GPReg::RBX]);
}

/// Each element of `s` is one of its members (a hint for literal lists).
proof fn lemma_listed_members(s: Seq<X86_64GPReg>)
    ensures
        forall|i: int| 0 <= i < s.len() ==> s.contains(#[trigger] s[i]),
{
}

} // verus!
