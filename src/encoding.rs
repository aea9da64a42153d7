use vstd::prelude::*;
use crate::register::X86_64GPReg;

verus! {

/// The REX prefix with no bit set.
pub const REX: u8 = 0x40;

/// The REX prefix with its W bit set: 64-bit operand size.
pub const REX_W: u8 = REX + 0x8;

/// The weight of byte `k` in a little-endian number: 256 to the power `k`.
pub open spec fn byte_weight(k: nat) -> int
    decreases k,
{
    if k == 0 {
        1
    } else {
        256 * byte_weight((k - 1) as nat)
    }
}

/// The `n` low bytes of `v` in two's complement, least significant first.
pub open spec fn le_bytes(v: int, n: nat) -> Seq<u8> {
    Seq::new(n, |k: int| ((v / byte_weight(k as nat)) % 256) as u8)
}

/// The REX bit that extends the ModRM r/m field (or the opcode's register field).
pub open spec fn rex_b(reg: X86_64GPReg) -> u8 {
    if reg.is_numbered() {
        1
    } else {
        0
    }
}

/// The REX bit that extends the ModRM reg field.
pub open spec fn rex_r(reg: X86_64GPReg) -> u8 {
    if reg.is_numbered() {
        4
    } else {
        0
    }
}

/// Adds the r/m extension bit for `reg` to the prefix `byte`.
pub fn add_rm_extension(reg: X86_64GPReg, byte: u8) -> (r: u8)
    requires
        byte < 255,
    ensures
        r == byte + rex_b(reg),
{
    if reg.encoding() > 7 {
        byte + 1
    } else {
        byte
    }
}

/// Adds the extension bit for a register encoded in the opcode byte itself;
/// it is the same bit as the r/m extension.
pub fn add_opcode_extension(reg: X86_64GPReg, byte: u8) -> (r: u8)
    requires
        byte < 255,
    ensures
        r == byte + rex_b(reg),
{
    add_rm_extension(reg, byte)
}

/// Adds the reg-field extension bit for `reg` to the prefix `byte`.
pub fn add_reg_extension(reg: X86_64GPReg, byte: u8) -> (r: u8)
    requires
        byte <= 251,
    ensures
        r == byte + rex_r(reg),
{
    if reg.encoding() > 7 {
        byte + 4
    } else {
        byte
    }
}

/// The low three bits of the register's encoding.
pub fn low_bits(reg: X86_64GPReg) -> (r: u8)
    ensures
        r == reg.low_bits(),
        r < 8,
{
    reg.encoding() % 8
}

/// Adding a multiple of `256 * w` to `v` leaves byte `v / w % 256` as it is.
proof fn lemma_byte_offset(v: int, w: int, c: int)
    requires
        w > 0,
    ensures
        ((v + w * 256 * c) / w) % 256 == (v / w) % 256,
{
    let q = v / w;
    let r = v % w;
    vstd::arithmetic::div_mod::lemma_fundamental_div_mod(v, w);
    assert(v + w * 256 * c == w * (q + 256 * c) + r) by (nonlinear_arith)
        requires
            v == w * q + r,
    ;
    vstd::arithmetic::div_mod::lemma_div_multiples_vanish_fancy(q + 256 * c, r, w);
    vstd::arithmetic::div_mod::lemma_mod_multiples_vanish(c, q, 256);
}

/// The low three bits of the register's encoding, shifted into the ModRM reg field.
pub fn reg_field(reg: X86_64GPReg) -> (r: u8)
    ensures
        r == reg.low_bits() * 8,
        r <= 56,
{
    let low = low_bits(reg);
    assert(low << 3 == low * 8 && low * 8 <= 56) by (bit_vector)
        requires
            low < 8,
    ;
    low << 3
}

/// The four bytes of `v`, least significant first.
pub fn le_bytes_i32(v: i32) -> (r: [u8; 4])
    ensures
        r@ == le_bytes(v as int, 4),
{
    let u: u32 = if v < 0 {
        (v as i64 + 0x1_0000_0000i64) as u32
    } else {
        v as u32
    };
    let r = [
        (u % 256) as u8,
        ((u / 0x100) % 256) as u8,
        ((u / 0x1_0000) % 256) as u8,
        ((u / 0x100_0000) % 256) as u8,
    ];
    proof {
        reveal_with_fuel(byte_weight, 4);
        assert forall|k: int| 0 <= k < 4 implies ((u as int / #[trigger] byte_weight(k as nat)) % 256)
            == ((v as int / byte_weight(k as nat)) % 256) by {
            if v < 0 {
                let w = byte_weight(k as nat);
                if k == 0 {
                    lemma_byte_offset(v as int, w, 0x100_0000);
                } else if k == 1 {
                    lemma_byte_offset(v as int, w, 0x1_0000);
                } else if k == 2 {
                    lemma_byte_offset(v as int, w, 0x100);
                } else {
                    lemma_byte_offset(v as int, w, 1);
                }
            }
        }
        assert(byte_weight(0) == 1 && byte_weight(1) == 0x100 && byte_weight(2) == 0x1_0000 && byte_weight(3)
            == 0x100_0000);
        assert(r@ =~= le_bytes(v as int, 4));
    }
    r
}

/// The eight bytes of `v`, least significant first.
pub fn le_bytes_i64(v: i64) -> (r: [u8; 8])
    ensures
        r@ == le_bytes(v as int, 8),
{
    let u: u64 = if v < 0 {
        (v as i128 + 0x1_0000_0000_0000_0000i128) as u64
    } else {
        v as u64
    };
    let r = [
        (u % 256) as u8,
        ((u / 0x100) % 256) as u8,
        ((u / 0x1_0000) % 256) as u8,
        ((u / 0x100_0000) % 256) as u8,
        ((u / 0x1_0000_0000) % 256) as u8,
        ((u / 0x100_0000_0000) % 256) as u8,
        ((u / 0x1_0000_0000_0000) % 256) as u8,
        ((u / 0x100_0000_0000_0000) % 256) as u8,
    ];
    proof {
        reveal_with_fuel(byte_weight, 8);
        assert forall|k: int| 0 <= k < 8 implies ((u as int / #[trigger] byte_weight(k as nat)) % 256)
            == ((v as int / byte_weight(k as nat)) % 256) by {
            if v < 0 {
                let w = byte_weight(k as nat);
                if k == 0 {
                    lemma_byte_offset(v as int, w, 0x100_0000_0000_0000);
                } else if k == 1 {
                    lemma_byte_offset(v as int, w, 0x1_0000_0000_0000);
                } else if k == 2 {
                    lemma_byte_offset(v as int, w, 0x100_0000_0000);
                } else if k == 3 {
                    lemma_byte_offset(v as int, w, 0x1_0000_0000);
                } else if k == 4 {
                    lemma_byte_offset(v as int, w, 0x100_0000);
                } else if k == 5 {
                    lemma_byte_offset(v as int, w, 0x1_0000);
                } else if k == 6 {
                    lemma_byte_offset(v as int, w, 0x100);
                } else {
                    lemma_byte_offset(v as int, w, 1);
                }
            }
        }
        assert(r@ =~= le_bytes(v as int, 8));
    }
    r
}

} // verus!
