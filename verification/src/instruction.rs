//! Instruction words and their decoding.
//!
//! A CHIP-8 instruction is a 16-bit word whose four nibbles (most significant
//! first) select the operation family and carry its operand fields: register
//! indices, an 8-bit immediate, a 12-bit address, or a 4-bit count.

use vstd::prelude::*;

verus! {

/// A decoded CHIP-8 operation, one variant per opcode family, carrying only
/// the operand fields relevant to that family.
#[derive(Clone, Copy, Debug, PartialEq, Eq, Structural)]
pub enum Instruction {
    /// Clear the display. `CLS`
    Cls,
    /// Return from a subroutine: pop an address from the stack into PC. `RET`
    Ret,
    /// Jump: PC := addr. `JP addr`
    JpImm(u16),
    /// Call a subroutine: push PC, then PC := addr. `CALL addr`
    Call(u16),
    /// Skip the next instruction if Vx == byte. `SE Vx, byte`
    SeImm(u8, u8),
    /// Skip the next instruction if Vx != byte. `SNE Vx, byte`
    SneImm(u8, u8),
    /// Skip the next instruction if Vx == Vy. `SE Vx, Vy`
    SeReg(u8, u8),
    /// Load immediate: Vx := byte. `LD Vx, byte`
    LdImm(u8, u8),
    /// Add immediate: Vx := Vx + byte, 8-bit wraparound, no flag. `ADD Vx, byte`
    AddImm(u8, u8),
    /// Move: Vx := Vy. `LD Vx, Vy`
    LdReg(u8, u8),
    /// Bitwise or: Vx := Vx | Vy. `OR Vx, Vy`
    OrReg(u8, u8),
    /// Bitwise and: Vx := Vx & Vy. `AND Vx, Vy`
    AndReg(u8, u8),
    /// Bitwise xor: Vx := Vx ^ Vy. `XOR Vx, Vy`
    XorReg(u8, u8),
    /// Add: Vx := Vx + Vy with 8-bit wraparound; VF := carry. `ADD Vx, Vy`
    AddReg(u8, u8),
    /// Subtract: Vx := Vx - Vy with wraparound; VF := not borrow. `SUB Vx, Vy`
    SubReg(u8, u8),
    /// Shift right: Vx := Vx >> 1; VF := the bit shifted out. The second
    /// operand is a legacy artifact of the encoding and is ignored. `SHR Vx {, Vy}`
    Shr(u8, u8),
    /// Reversed subtract: Vx := Vy - Vx; VF := not borrow. `SUBN Vx, Vy`
    Subn(u8, u8),
    /// Shift left: Vx := Vx << 1 with wraparound; VF := the bit shifted out.
    /// The second operand is ignored, as for `Shr`. `SHL Vx {, Vy}`
    Shl(u8, u8),
    /// Skip the next instruction if Vx != Vy. `SNE Vx, Vy`
    SneReg(u8, u8),
    /// Load index: I := addr. `LD I, addr`
    LdI(u16),
    /// Jump with offset: PC := addr + V0. `JP V0, addr`
    JpReg(u16),
    /// Random: Vx := random byte & byte. `RND Vx, byte`
    Rnd(u8, u8),
    /// Draw an n-byte sprite from memory at I at (Vx, Vy); VF := collision.
    /// `DRW Vx, Vy, n`
    Drw(u8, u8, u8),
    /// Skip the next instruction if the key with value Vx is pressed. `SKP Vx`
    Skp(u8),
    /// Skip the next instruction if the key with value Vx is not pressed. `SKNP Vx`
    Sknp(u8),
    /// Vx := delay timer. `LD Vx, DT`
    LdRegDt(u8),
    /// Wait for a key press, then Vx := that key's value. `LD Vx, K`
    LdRegK(u8),
    /// Delay timer := Vx. `LD DT, Vx`
    LdDtReg(u8),
    /// Sound timer := Vx. `LD ST, Vx`
    LdStReg(u8),
    /// I := I + Vx, 16-bit wraparound, no flag. `ADD I, Vx`
    AddI(u8),
    /// I := address of the font sprite for the digit held in Vx. `LD F, Vx`
    LdF(u8),
    /// Store the decimal digits of Vx at memory[I..I+3]. `LD B, Vx`
    LdB(u8),
    /// Store V0 through Vx at memory starting at I. `LD [I], Vx`
    LdMemReg(u8),
    /// Read V0 through Vx from memory starting at I. `LD Vx, [I]`
    LdRegMem(u8),
}

/// A 16-bit word that matches no defined instruction encoding. The word is
/// kept so that the caller can report exactly what failed to decode.
#[derive(Clone, Copy, Debug, PartialEq, Eq, Structural)]
pub struct DecodeFault {
    pub word: u16,
}

/// The least significant nibble of an instruction word.
pub open spec fn nib0(w: u16) -> u8 {
    (w & 0xf) as u8
}

/// The second nibble of an instruction word.
pub open spec fn nib1(w: u16) -> u8 {
    ((w >> 4) & 0xf) as u8
}

/// The third nibble of an instruction word.
pub open spec fn nib2(w: u16) -> u8 {
    ((w >> 8) & 0xf) as u8
}

/// The most significant nibble of an instruction word.
pub open spec fn nib3(w: u16) -> u8 {
    ((w >> 12) & 0xf) as u8
}

/// The 12-bit address carried in the low three nibbles of a word.
pub open spec fn addr_of(w: u16) -> u16 {
    w & 0xfff
}

/// The 8-bit immediate carried in the low byte of a word.
pub open spec fn byte_of(w: u16) -> u8 {
    (w & 0xff) as u8
}

/// The decode table: maps every 16-bit word either to the instruction it
/// encodes or to `None` when no defined encoding matches.
pub open spec fn decode_spec(w: u16) -> Option<Instruction> {
    let n3 = nib3(w);
    let n2 = nib2(w);
    let n1 = nib1(w);
    let n0 = nib0(w);
    if n3 == 0x0 {
        if n2 == 0x0 && n1 == 0xe && n0 == 0x0 {
            Some(Instruction::Cls)
        } else if n2 == 0x0 && n1 == 0xe && n0 == 0xe {
            Some(Instruction::Ret)
        } else {
            None
        }
    } else if n3 == 0x1 {
        Some(Instruction::JpImm(addr_of(w)))
    } else if n3 == 0x2 {
        Some(Instruction::Call(addr_of(w)))
    } else if n3 == 0x3 {
        Some(Instruction::SeImm(n2, byte_of(w)))
    } else if n3 == 0x4 {
        Some(Instruction::SneImm(n2, byte_of(w)))
    } else if n3 == 0x5 {
        if n0 == 0x0 {
            Some(Instruction::SeReg(n2, n1))
        } else {
            None
        }
    } else if n3 == 0x6 {
        Some(Instruction::LdImm(n2, byte_of(w)))
    } else if n3 == 0x7 {
        Some(Instruction::AddImm(n2, byte_of(w)))
    } else if n3 == 0x8 {
        if n0 == 0x0 {
            Some(Instruction::LdReg(n2, n1))
        } else if n0 == 0x1 {
            Some(Instruction::OrReg(n2, n1))
        } else if n0 == 0x2 {
            Some(Instruction::AndReg(n2, n1))
        } else if n0 == 0x3 {
            Some(Instruction::XorReg(n2, n1))
        } else if n0 == 0x4 {
            Some(Instruction::AddReg(n2, n1))
        } else if n0 == 0x5 {
            Some(Instruction::SubReg(n2, n1))
        } else if n0 == 0x6 {
            Some(Instruction::Shr(n2, n1))
        } else if n0 == 0x7 {
            Some(Instruction::Subn(n2, n1))
        } else if n0 == 0xe {
            Some(Instruction::Shl(n2, n1))
        } else {
            None
        }
    } else if n3 == 0x9 {
        if n0 == 0x0 {
            Some(Instruction::SneReg(n2, n1))
        } else {
            None
        }
    } else if n3 == 0xa {
        Some(Instruction::LdI(addr_of(w)))
    } else if n3 == 0xb {
        Some(Instruction::JpReg(addr_of(w)))
    } else if n3 == 0xc {
        Some(Instruction::Rnd(n2, byte_of(w)))
    } else if n3 == 0xd {
        Some(Instruction::Drw(n2, n1, n0))
    } else if n3 == 0xe {
        if n1 == 0x9 && n0 == 0xe {
            Some(Instruction::Skp(n2))
        } else if n1 == 0xa && n0 == 0x1 {
            Some(Instruction::Sknp(n2))
        } else {
            None
        }
    } else {
        if n1 == 0x0 && n0 == 0x7 {
            Some(Instruction::LdRegDt(n2))
        } else if n1 == 0x0 && n0 == 0xa {
            Some(Instruction::LdRegK(n2))
        } else if n1 == 0x1 && n0 == 0x5 {
            Some(Instruction::LdDtReg(n2))
        } else if n1 == 0x1 && n0 == 0x8 {
            Some(Instruction::LdStReg(n2))
        } else if n1 == 0x1 && n0 == 0xe {
            Some(Instruction::AddI(n2))
        } else if n1 == 0x2 && n0 == 0x9 {
            Some(Instruction::LdF(n2))
        } else if n1 == 0x3 && n0 == 0x3 {
            Some(Instruction::LdB(n2))
        } else if n1 == 0x5 && n0 == 0x5 {
            Some(Instruction::LdMemReg(n2))
        } else if n1 == 0x6 && n0 == 0x5 {
            Some(Instruction::LdRegMem(n2))
        } else {
            None
        }
    }
}

impl Instruction {
    /// Every operand field is in the range its encoding slot can carry:
    /// register indices and nibble counts fit in 4 bits, addresses in 12 bits.
    pub open spec fn wf(self) -> bool {
        match self {
            Instruction::Cls => true,
            Instruction::Ret => true,
            Instruction::JpImm(a) => a <= 0xfff,
            Instruction::Call(a) => a <= 0xfff,
            Instruction::SeImm(x, _) => x <= 0xf,
            Instruction::SneImm(x, _) => x <= 0xf,
            Instruction::SeReg(x, y) => x <= 0xf && y <= 0xf,
            Instruction::LdImm(x, _) => x <= 0xf,
            Instruction::AddImm(x, _) => x <= 0xf,
            Instruction::LdReg(x, y) => x <= 0xf && y <= 0xf,
            Instruction::OrReg(x, y) => x <= 0xf && y <= 0xf,
            Instruction::AndReg(x, y) => x <= 0xf && y <= 0xf,
            Instruction::XorReg(x, y) => x <= 0xf && y <= 0xf,
            Instruction::AddReg(x, y) => x <= 0xf && y <= 0xf,
            Instruction::SubReg(x, y) => x <= 0xf && y <= 0xf,
            Instruction::Shr(x, y) => x <= 0xf && y <= 0xf,
            Instruction::Subn(x, y) => x <= 0xf && y <= 0xf,
            Instruction::Shl(x, y) => x <= 0xf && y <= 0xf,
            Instruction::SneReg(x, y) => x <= 0xf && y <= 0xf,
            Instruction::LdI(a) => a <= 0xfff,
            Instruction::JpReg(a) => a <= 0xfff,
            Instruction::Rnd(x, _) => x <= 0xf,
            Instruction::Drw(x, y, n) => x <= 0xf && y <= 0xf && n <= 0xf,
            Instruction::Skp(x) => x <= 0xf,
            Instruction::Sknp(x) => x <= 0xf,
            Instruction::LdRegDt(x) => x <= 0xf,
            Instruction::LdRegK(x) => x <= 0xf,
            Instruction::LdDtReg(x) => x <= 0xf,
            Instruction::LdStReg(x) => x <= 0xf,
            Instruction::AddI(x) => x <= 0xf,
            Instruction::LdF(x) => x <= 0xf,
            Instruction::LdB(x) => x <= 0xf,
            Instruction::LdMemReg(x) => x <= 0xf,
            Instruction::LdRegMem(x) => x <= 0xf,
        }
    }

    /// Decode a 16-bit instruction word. Total over all 65536 words: returns
    /// the instruction the word encodes, or a decode fault carrying the word
    /// when no defined encoding matches; a fault is never silently replaced
    /// by a no-op.
    pub fn decode(source: u16) -> (r: Result<Instruction, DecodeFault>)
        ensures
            decode_spec(source) matches Some(instr) ==> r == Ok::<Instruction, DecodeFault>(instr)
                && instr.wf(),
            decode_spec(source) is None ==> r == Err::<Instruction, DecodeFault>(
                DecodeFault { word: source },
            ),
    {
        proof {
            lemma_nibble_bounds(source);
        }
        let n0 = (source & 0xf) as u8;
        let n1 = ((source >> 4) & 0xf) as u8;
        let n2 = ((source >> 8) & 0xf) as u8;
        let n3 = ((source >> 12) & 0xf) as u8;
        let addr = source & 0xfff;
        let byte = (source & 0xff) as u8;
        match (n3, n2, n1, n0) {
            (0x0, 0x0, 0xe, 0x0) => Ok(Instruction::Cls),
            (0x0, 0x0, 0xe, 0xe) => Ok(Instruction::Ret),
            (0x1, _, _, _) => Ok(Instruction::JpImm(addr)),
            (0x2, _, _, _) => Ok(Instruction::Call(addr)),
            (0x3, x, _, _) => Ok(Instruction::SeImm(x, byte)),
            (0x4, x, _, _) => Ok(Instruction::SneImm(x, byte)),
            (0x5, x, y, 0x0) => Ok(Instruction::SeReg(x, y)),
            (0x6, x, _, _) => Ok(Instruction::LdImm(x, byte)),
            (0x7, x, _, _) => Ok(Instruction::AddImm(x, byte)),
            (0x8, x, y, 0x0) => Ok(Instruction::LdReg(x, y)),
            (0x8, x, y, 0x1) => Ok(Instruction::OrReg(x, y)),
            (0x8, x, y, 0x2) => Ok(Instruction::AndReg(x, y)),
            (0x8, x, y, 0x3) => Ok(Instruction::XorReg(x, y)),
            (0x8, x, y, 0x4) => Ok(Instruction::AddReg(x, y)),
            (0x8, x, y, 0x5) => Ok(Instruction::SubReg(x, y)),
            (0x8, x, y, 0x6) => Ok(Instruction::Shr(x, y)),
            (0x8, x, y, 0x7) => Ok(Instruction::Subn(x, y)),
            (0x8, x, y, 0xe) => Ok(Instruction::Shl(x, y)),
            (0x9, x, y, 0x0) => Ok(Instruction::SneReg(x, y)),
            (0xa, _, _, _) => Ok(Instruction::LdI(addr)),
            (0xb, _, _, _) => Ok(Instruction::JpReg(addr)),
            (0xc, x, _, _) => Ok(Instruction::Rnd(x, byte)),
            (0xd, x, y, n) => Ok(Instruction::Drw(x, y, n)),
            (0xe, x, 0x9, 0xe) => Ok(Instruction::Skp(x)),
            (0xe, x, 0xa, 0x1) => Ok(Instruction::Sknp(x)),
            (0xf, x, 0x0, 0x7) => Ok(Instruction::LdRegDt(x)),
            (0xf, x, 0x0, 0xa) => Ok(Instruction::LdRegK(x)),
            (0xf, x, 0x1, 0x5) => Ok(Instruction::LdDtReg(x)),
            (0xf, x, 0x1, 0x8) => Ok(Instruction::LdStReg(x)),
            (0xf, x, 0x1, 0xe) => Ok(Instruction::AddI(x)),
            (0xf, x, 0x2, 0x9) => Ok(Instruction::LdF(x)),
            (0xf, x, 0x3, 0x3) => Ok(Instruction::LdB(x)),
            (0xf, x, 0x5, 0x5) => Ok(Instruction::LdMemReg(x)),
            (0xf, x, 0x6, 0x5) => Ok(Instruction::LdRegMem(x)),
            _ => Err(DecodeFault { word: source }),
        }
    }
}

/// Nibbles fit in 4 bits, the low byte in 8, the address in 12, and the most
/// significant nibble of any word at most 0xf; so every field a decoded
/// instruction carries is in range.
pub proof fn lemma_nibble_bounds(w: u16)
    ensures
        nib0(w) <= 0xf,
        nib1(w) <= 0xf,
        nib2(w) <= 0xf,
        nib3(w) <= 0xf,
        addr_of(w) <= 0xfff,
{
    assert((w & 0xf) <= 0xf && ((w >> 4) & 0xf) <= 0xf && ((w >> 8) & 0xf) <= 0xf && ((w >> 12)
        & 0xf) <= 0xf && (w & 0xfff) <= 0xfff) by (bit_vector);
}

/// Whatever `decode_spec` returns is well formed: its register indices and
/// counts fit in 4 bits and its addresses in 12.
pub proof fn lemma_decode_wf(w: u16)
    ensures
        decode_spec(w) matches Some(instr) ==> instr.wf(),
{
    lemma_nibble_bounds(w);
}

/// One canonical encoding of each instruction, built by placing the operand
/// fields back into their nibble slots.
pub open spec fn encode_spec(i: Instruction) -> u16 {
    match i {
        Instruction::Cls => 0x00e0,
        Instruction::Ret => 0x00ee,
        Instruction::JpImm(a) => (0x1u16 << 12) | a,
        Instruction::Call(a) => (0x2u16 << 12) | a,
        Instruction::SeImm(x, k) => (0x3u16 << 12) | ((x as u16) << 8) | (k as u16),
        Instruction::SneImm(x, k) => (0x4u16 << 12) | ((x as u16) << 8) | (k as u16),
        Instruction::SeReg(x, y) => (0x5u16 << 12) | ((x as u16) << 8) | ((y as u16) << 4) | 0x0,
        Instruction::LdImm(x, k) => (0x6u16 << 12) | ((x as u16) << 8) | (k as u16),
        Instruction::AddImm(x, k) => (0x7u16 << 12) | ((x as u16) << 8) | (k as u16),
        Instruction::LdReg(x, y) => (0x8u16 << 12) | ((x as u16) << 8) | ((y as u16) << 4) | 0x0,
        Instruction::OrReg(x, y) => (0x8u16 << 12) | ((x as u16) << 8) | ((y as u16) << 4) | 0x1,
        Instruction::AndReg(x, y) => (0x8u16 << 12) | ((x as u16) << 8) | ((y as u16) << 4) | 0x2,
        Instruction::XorReg(x, y) => (0x8u16 << 12) | ((x as u16) << 8) | ((y as u16) << 4) | 0x3,
        Instruction::AddReg(x, y) => (0x8u16 << 12) | ((x as u16) << 8) | ((y as u16) << 4) | 0x4,
        Instruction::SubReg(x, y) => (0x8u16 << 12) | ((x as u16) << 8) | ((y as u16) << 4) | 0x5,
        Instruction::Shr(x, y) => (0x8u16 << 12) | ((x as u16) << 8) | ((y as u16) << 4) | 0x6,
        Instruction::Subn(x, y) => (0x8u16 << 12) | ((x as u16) << 8) | ((y as u16) << 4) | 0x7,
        Instruction::Shl(x, y) => (0x8u16 << 12) | ((x as u16) << 8) | ((y as u16) << 4) | 0xe,
        Instruction::SneReg(x, y) => (0x9u16 << 12) | ((x as u16) << 8) | ((y as u16) << 4) | 0x0,
        Instruction::LdI(a) => (0xau16 << 12) | a,
        Instruction::JpReg(a) => (0xbu16 << 12) | a,
        Instruction::Rnd(x, k) => (0xcu16 << 12) | ((x as u16) << 8) | (k as u16),
        Instruction::Drw(x, y, n) => (0xdu16 << 12) | ((x as u16) << 8) | ((y as u16) << 4) | (
        n as u16),
        Instruction::Skp(x) => (0xeu16 << 12) | ((x as u16) << 8) | (0x9u16 << 4) | 0xe,
        Instruction::Sknp(x) => (0xeu16 << 12) | ((x as u16) << 8) | (0xau16 << 4) | 0x1,
        Instruction::LdRegDt(x) => (0xfu16 << 12) | ((x as u16) << 8) | (0x0u16 << 4) | 0x7,
        Instruction::LdRegK(x) => (0xfu16 << 12) | ((x as u16) << 8) | (0x0u16 << 4) | 0xa,
        Instruction::LdDtReg(x) => (0xfu16 << 12) | ((x as u16) << 8) | (0x1u16 << 4) | 0x5,
        Instruction::LdStReg(x) => (0xfu16 << 12) | ((x as u16) << 8) | (0x1u16 << 4) | 0x8,
        Instruction::AddI(x) => (0xfu16 << 12) | ((x as u16) << 8) | (0x1u16 << 4) | 0xe,
        Instruction::LdF(x) => (0xfu16 << 12) | ((x as u16) << 8) | (0x2u16 << 4) | 0x9,
        Instruction::LdB(x) => (0xfu16 << 12) | ((x as u16) << 8) | (0x3u16 << 4) | 0x3,
        Instruction::LdMemReg(x) => (0xfu16 << 12) | ((x as u16) << 8) | (0x5u16 << 4) | 0x5,
        Instruction::LdRegMem(x) => (0xfu16 << 12) | ((x as u16) << 8) | (0x6u16 << 4) | 0x5,
    }
}

/// Placing four nibbles into their slots and reading them back returns each
/// one unchanged.
proof fn lemma_word_fields(h: u16, x: u16, y: u16, n: u16)
    requires
        h <= 0xf,
        x <= 0xf,
        y <= 0xf,
        n <= 0xf,
    ensures
        nib3((h << 12) | (x << 8) | (y << 4) | n) == h,
        nib2((h << 12) | (x << 8) | (y << 4) | n) == x,
        nib1((h << 12) | (x << 8) | (y << 4) | n) == y,
        nib0((h << 12) | (x << 8) | (y << 4) | n) == n,
{
    assert(nib3((h << 12) | (x << 8) | (y << 4) | n) == h && nib2(
        (h << 12) | (x << 8) | (y << 4) | n,
    ) == x && nib1((h << 12) | (x << 8) | (y << 4) | n) == y && nib0(
        (h << 12) | (x << 8) | (y << 4) | n,
    ) == n) by (bit_vector)
        requires
            h <= 0xf,
            x <= 0xf,
            y <= 0xf,
            n <= 0xf,
    ;
}

/// Placing a high nibble, a register index and an immediate byte into their
/// slots and reading them back returns each one unchanged.
proof fn lemma_word_imm(h: u16, x: u16, k: u8)
    requires
        h <= 0xf,
        x <= 0xf,
    ensures
        nib3((h << 12) | (x << 8) | (k as u16)) == h,
        nib2((h << 12) | (x << 8) | (k as u16)) == x,
        byte_of((h << 12) | (x << 8) | (k as u16)) == k,
{
    assert(nib3((h << 12) | (x << 8) | (k as u16)) == h && nib2((h << 12) | (x << 8) | (k as u16))
        == x && byte_of((h << 12) | (x << 8) | (k as u16)) == k) by (bit_vector)
        requires
            h <= 0xf,
            x <= 0xf,
    ;
}

/// Placing a high nibble and a 12-bit address into their slots and reading
/// them back returns each one unchanged.
proof fn lemma_word_addr(h: u16, a: u16)
    requires
        h <= 0xf,
        a <= 0xfff,
    ensures
        nib3((h << 12) | a) == h,
        addr_of((h << 12) | a) == a,
{
    assert(nib3((h << 12) | a) == h && addr_of((h << 12) | a) == a) by (bit_vector)
        requires
            h <= 0xf,
            a <= 0xfff,
    ;
}

/// The nibbles of the two fixed words `0x00e0` and `0x00ee`.
proof fn lemma_fixed_words()
    ensures
        nib3(0x00e0) == 0x0,
        nib2(0x00e0) == 0x0,
        nib1(0x00e0) == 0xe,
        nib0(0x00e0) == 0x0,
        nib3(0x00ee) == 0x0,
        nib2(0x00ee) == 0x0,
        nib1(0x00ee) == 0xe,
        nib0(0x00ee) == 0xe,
{
    assert(nib3(0x00e0) == 0x0 && nib2(0x00e0) == 0x0 && nib1(0x00e0) == 0xe && nib0(0x00e0) == 0x0
        && nib3(0x00ee) == 0x0 && nib2(0x00ee) == 0x0 && nib1(0x00ee) == 0xe && nib0(0x00ee)
        == 0xe) by (bit_vector);
}

/// Round trip: every well-formed instruction has an encoding that decodes
/// back to it with the exact operand fields.
pub proof fn lemma_decode_encode(i: Instruction)
    requires
        i.wf(),
    ensures
        decode_spec(encode_spec(i)) == Some(i),
{
    match i {
        Instruction::Cls => lemma_fixed_words(),
        Instruction::Ret => lemma_fixed_words(),
        Instruction::JpImm(a) => lemma_word_addr(0x1, a),
        Instruction::Call(a) => lemma_word_addr(0x2, a),
        Instruction::SeImm(x, k) => lemma_word_imm(0x3, x as u16, k),
        Instruction::SneImm(x, k) => lemma_word_imm(0x4, x as u16, k),
        Instruction::SeReg(x, y) => lemma_word_fields(0x5, x as u16, y as u16, 0x0),
        Instruction::LdImm(x, k) => lemma_word_imm(0x6, x as u16, k),
        Instruction::AddImm(x, k) => lemma_word_imm(0x7, x as u16, k),
        Instruction::LdReg(x, y) => lemma_word_fields(0x8, x as u16, y as u16, 0x0),
        Instruction::OrReg(x, y) => lemma_word_fields(0x8, x as u16, y as u16, 0x1),
        Instruction::AndReg(x, y) => lemma_word_fields(0x8, x as u16, y as u16, 0x2),
        Instruction::XorReg(x, y) => lemma_word_fields(0x8, x as u16, y as u16, 0x3),
        Instruction::AddReg(x, y) => lemma_word_fields(0x8, x as u16, y as u16, 0x4),
        Instruction::SubReg(x, y) => lemma_word_fields(0x8, x as u16, y as u16, 0x5),
        Instruction::Shr(x, y) => lemma_word_fields(0x8, x as u16, y as u16, 0x6),
        Instruction::Subn(x, y) => lemma_word_fields(0x8, x as u16, y as u16, 0x7),
        Instruction::Shl(x, y) => lemma_word_fields(0x8, x as u16, y as u16, 0xe),
        Instruction::SneReg(x, y) => lemma_word_fields(0x9, x as u16, y as u16, 0x0),
        Instruction::LdI(a) => lemma_word_addr(0xa, a),
        Instruction::JpReg(a) => lemma_word_addr(0xb, a),
        Instruction::Rnd(x, k) => lemma_word_imm(0xc, x as u16, k),
        Instruction::Drw(x, y, n) => lemma_word_fields(0xd, x as u16, y as u16, n as u16),
        Instruction::Skp(x) => lemma_word_fields(0xe, x as u16, 0x9, 0xe),
        Instruction::Sknp(x) => lemma_word_fields(0xe, x as u16, 0xa, 0x1),
        Instruction::LdRegDt(x) => lemma_word_fields(0xf, x as u16, 0x0, 0x7),
        Instruction::LdRegK(x) => lemma_word_fields(0xf, x as u16, 0x0, 0xa),
        Instruction::LdDtReg(x) => lemma_word_fields(0xf, x as u16, 0x1, 0x5),
        Instruction::LdStReg(x) => lemma_word_fields(0xf, x as u16, 0x1, 0x8),
        Instruction::AddI(x) => lemma_word_fields(0xf, x as u16, 0x1, 0xe),
        Instruction::LdF(x) => lemma_word_fields(0xf, x as u16, 0x2, 0x9),
        Instruction::LdB(x) => lemma_word_fields(0xf, x as u16, 0x3, 0x3),
        Instruction::LdMemReg(x) => lemma_word_fields(0xf, x as u16, 0x5, 0x5),
        Instruction::LdRegMem(x) => lemma_word_fields(0xf, x as u16, 0x6, 0x5),
    }
}

} // verus!

