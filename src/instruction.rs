use vstd::prelude::*;

verus! {

/// One decoded instruction word. `x` and `y` name registers, `kk` is an
/// immediate byte, an address is 12 bits wide and `n` is a 4-bit sprite height.
#[derive(Debug, Clone, Copy, PartialEq, Eq, Structural)]
pub enum Instruction {
    /// A word that encodes no known instruction; it is carried as it was read.
    Invalid(u16),
    /// `00E0`: clear the display.
    Cls,
    /// `00EE`: return from a subroutine.
    Ret,
    /// `1nnn`: jump to an address.
    Jp(usize),
    /// `2nnn`: call the subroutine at an address.
    Call(usize),
    /// `3xkk`: skip the next instruction if `Vx == kk`.
    SeVxKk(usize, u8),
    /// `4xkk`: skip the next instruction if `Vx != kk`.
    SneVxKk(usize, u8),
    /// `5xy0`: skip the next instruction if `Vx == Vy`.
    SeVxVy(usize, usize),
    /// `6xkk`: `Vx := kk`.
    LdVxKk(usize, u8),
    /// `7xkk`: `Vx := Vx + kk`, wrapping, flag untouched.
    AddVxKk(usize, u8),
    /// `8xy0`: `Vx := Vy`.
    LdVxVy(usize, usize),
    /// `8xy1`: `Vx := Vx | Vy`.
    OrVxVy(usize, usize),
    /// `8xy2`: `Vx := Vx & Vy`.
    AndVxVy(usize, usize),
    /// `8xy3`: `Vx := Vx ^ Vy`.
    XorVxVy(usize, usize),
    /// `8xy4`: `Vx := Vx + Vy`, then `VF` := carry.
    AddVxVy(usize, usize),
    /// `8xy5`: `VF` := no borrow, then `Vx := Vx - Vy`.
    SubVxVy(usize, usize),
    /// `8xy6`: `VF` := low bit of `Vx`, then `Vx := Vx >> 1`.
    ShrVxVy(usize, usize),
    /// `8xy7`: `VF` := no borrow, then `Vx := Vy - Vx`.
    SubnVxVy(usize, usize),
    /// `8xyE`: `VF` := high bit of `Vx`, then `Vx := Vx << 1`.
    ShlVxVy(usize, usize),
    /// `9xy0`: skip the next instruction if `Vx != Vy`.
    SneVxVy(usize, usize),
    /// `Annn`: `I := nnn`.
    LdIAddr(usize),
    /// `Bnnn`: jump to `nnn + V0`.
    JpV0Addr(usize),
    /// `Cxkk`: `Vx :=` a random byte `& kk`.
    RndVxKk(usize, u8),
    /// `Dxyn`: draw an `n`-byte sprite at `(Vx, Vy)`.
    DrwVxVyN(usize, usize, u8),
    /// `Ex9E`: skip the next instruction if the key `Vx` is pressed.
    SkpVx(usize),
    /// `ExA1`: skip the next instruction if the key `Vx` is not pressed.
    SknpVx(usize),
    /// `Fx07`: `Vx := DT`.
    LdVxDt(usize),
    /// `Fx0A`: wait for a key press and store the key in `Vx`.
    LdVxK(usize),
    /// `Fx15`: `DT := Vx`.
    LdDtVx(usize),
    /// `Fx18`: `ST := Vx`.
    LdStVx(usize),
    /// `Fx1E`: `I := I + Vx`.
    AddIVx(usize),
    /// `Fx29`: `I :=` the address of the font sprite for the digit `Vx`.
    LdFVx(usize),
    /// `Fx33`: store the decimal digits of `Vx` at `I`, `I + 1`, `I + 2`.
    LdBcdVx(usize),
    /// `Fx55`: store `V0` to `Vx` at `I` onwards.
    LdIVx(usize),
    /// `Fx65`: load `V0` to `Vx` from `I` onwards.
    LdVxI(usize),
}

/// Bits 12 to 15 of a word: the instruction family.
pub open spec fn family(w: u16) -> int {
    w as int / 0x1000
}

/// Bits 8 to 11 of a word: the register `x`.
pub open spec fn reg_x(w: u16) -> usize {
    ((w as int / 0x100) % 0x10) as usize
}

/// Bits 4 to 7 of a word: the register `y`.
pub open spec fn reg_y(w: u16) -> usize {
    ((w as int / 0x10) % 0x10) as usize
}

/// Bits 0 to 3 of a word.
pub open spec fn nibble(w: u16) -> int {
    w as int % 0x10
}

/// Bits 0 to 7 of a word: the immediate byte.
pub open spec fn low_byte(w: u16) -> u8 {
    (w as int % 0x100) as u8
}

/// Bits 0 to 11 of a word: the address.
pub open spec fn address(w: u16) -> usize {
    (w as int % 0x1000) as usize
}

/// The instruction that a word encodes.
pub open spec fn decoded(w: u16) -> Instruction {
    let f = family(w);
    let x = reg_x(w);
    let y = reg_y(w);
    let kk = low_byte(w);
    let a = address(w);
    let n = nibble(w);
    if f == 0x0 {
        if w == 0x00E0 {
            Instruction::Cls
        } else if w == 0x00EE {
            Instruction::Ret
        } else {
            Instruction::Invalid(w)
        }
    } else if f == 0x1 {
        Instruction::Jp(a)
    } else if f == 0x2 {
        Instruction::Call(a)
    } else if f == 0x3 {
        Instruction::SeVxKk(x, kk)
    } else if f == 0x4 {
        Instruction::SneVxKk(x, kk)
    } else if f == 0x5 {
        if n == 0x0 { Instruction::SeVxVy(x, y) } else { Instruction::Invalid(w) }
    } else if f == 0x6 {
        Instruction::LdVxKk(x, kk)
    } else if f == 0x7 {
        Instruction::AddVxKk(x, kk)
    } else if f == 0x8 {
        if n == 0x0 {
            Instruction::LdVxVy(x, y)
        } else if n == 0x1 {
            Instruction::OrVxVy(x, y)
        } else if n == 0x2 {
            Instruction::AndVxVy(x, y)
        } else if n == 0x3 {
            Instruction::XorVxVy(x, y)
        } else if n == 0x4 {
            Instruction::AddVxVy(x, y)
        } else if n == 0x5 {
            Instruction::SubVxVy(x, y)
        } else if n == 0x6 {
            Instruction::ShrVxVy(x, y)
        } else if n == 0x7 {
            Instruction::SubnVxVy(x, y)
        } else if n == 0xE {
            Instruction::ShlVxVy(x, y)
        } else {
            Instruction::Invalid(w)
        }
    } else if f == 0x9 {
        if n == 0x0 { Instruction::SneVxVy(x, y) } else { Instruction::Invalid(w) }
    } else if f == 0xA {
        Instruction::LdIAddr(a)
    } else if f == 0xB {
        Instruction::JpV0Addr(a)
    } else if f == 0xC {
        Instruction::RndVxKk(x, kk)
    } else if f == 0xD {
        Instruction::DrwVxVyN(x, y, n as u8)
    } else if f == 0xE {
        if kk == 0x9E {
            Instruction::SkpVx(x)
        } else if kk == 0xA1 {
            Instruction::SknpVx(x)
        } else {
            Instruction::Invalid(w)
        }
    } else {
        if kk == 0x07 {
            Instruction::LdVxDt(x)
        } else if kk == 0x0A {
            Instruction::LdVxK(x)
        } else if kk == 0x15 {
            Instruction::LdDtVx(x)
        } else if kk == 0x18 {
            Instruction::LdStVx(x)
        } else if kk == 0x1E {
            Instruction::AddIVx(x)
        } else if kk == 0x29 {
            Instruction::LdFVx(x)
        } else if kk == 0x33 {
            Instruction::LdBcdVx(x)
        } else if kk == 0x55 {
            Instruction::LdIVx(x)
        } else if kk == 0x65 {
            Instruction::LdVxI(x)
        } else {
            Instruction::Invalid(w)
        }
    }
}

/// Every register index is below 16, every address below 4096 and every
/// sprite height below 16.
pub open spec fn operands_in_range(inst: Instruction) -> bool {
    match inst {
        Instruction::Jp(a) | Instruction::Call(a) | Instruction::LdIAddr(a)
        | Instruction::JpV0Addr(a) => a < 0x1000,
        Instruction::SeVxKk(x, _) | Instruction::SneVxKk(x, _) | Instruction::LdVxKk(x, _)
        | Instruction::AddVxKk(x, _) | Instruction::RndVxKk(x, _) => x < 16,
        Instruction::SeVxVy(x, y) | Instruction::LdVxVy(x, y) | Instruction::OrVxVy(x, y)
        | Instruction::AndVxVy(x, y) | Instruction::XorVxVy(x, y)
        | Instruction::AddVxVy(x, y) | Instruction::SubVxVy(x, y)
        | Instruction::ShrVxVy(x, y) | Instruction::SubnVxVy(x, y)
        | Instruction::ShlVxVy(x, y) | Instruction::SneVxVy(x, y) => x < 16 && y < 16,
        Instruction::DrwVxVyN(x, y, n) => x < 16 && y < 16 && n < 16,
        Instruction::SkpVx(x) | Instruction::SknpVx(x) | Instruction::LdVxDt(x)
        | Instruction::LdVxK(x) | Instruction::LdDtVx(x) | Instruction::LdStVx(x)
        | Instruction::AddIVx(x) | Instruction::LdFVx(x) | Instruction::LdBcdVx(x)
        | Instruction::LdIVx(x) | Instruction::LdVxI(x) => x < 16,
        Instruction::Invalid(_) | Instruction::Cls | Instruction::Ret => true,
    }
}

/// Decoding is a function of the word alone, defined on every word, and
/// every operand it yields is in range.
pub proof fn lemma_decode_deterministic(a: u16, b: u16)
    requires
        a == b,
    ensures
        decoded(a) == decoded(b),
        operands_in_range(decoded(a)),
{
}

/// Decodes a big-endian instruction word. Every word decodes: a word that
/// encodes no instruction becomes `Instruction::Invalid`.
pub fn decode(w: u16) -> (r: Instruction)
    ensures
        r == decoded(w),
        operands_in_range(r),
{
    let f: u16 = w >> 12;
    let n: u16 = w & 0x000F;
    let xw: u16 = (w >> 8) & 0x000F;
    let yw: u16 = (w >> 4) & 0x000F;
    assert(w & 0x00FF <= 0xFF) by (bit_vector);
    let kk: u8 = (w & 0x00FF) as u8;
    let a: usize = (w & 0x0FFF) as usize;
    assert(w >> 12 == w / 0x1000 && w & 0x000F == w % 0x10 && (w >> 8) & 0x000F == (w / 0x100)
        % 0x10 && (w >> 4) & 0x000F == (w / 0x10) % 0x10 && w & 0x00FF == w % 0x100 && w & 0x0FFF
        == w % 0x1000) by (bit_vector);
    let x: usize = xw as usize;
    let y: usize = yw as usize;
    match f {
        0x0 => {
            if w == 0x00E0 {
                Instruction::Cls
            } else if w == 0x00EE {
                Instruction::Ret
            } else {
                Instruction::Invalid(w)
            }
        },
        0x1 => Instruction::Jp(a),
        0x2 => Instruction::Call(a),
        0x3 => Instruction::SeVxKk(x, kk),
        0x4 => Instruction::SneVxKk(x, kk),
        0x5 => if n == 0x0 {
            Instruction::SeVxVy(x, y)
        } else {
            Instruction::Invalid(w)
        },
        0x6 => Instruction::LdVxKk(x, kk),
        0x7 => Instruction::AddVxKk(x, kk),
        0x8 => match n {
            0x0 => Instruction::LdVxVy(x, y),
            0x1 => Instruction::OrVxVy(x, y),
            0x2 => Instruction::AndVxVy(x, y),
            0x3 => Instruction::XorVxVy(x, y),
            0x4 => Instruction::AddVxVy(x, y),
            0x5 => Instruction::SubVxVy(x, y),
            0x6 => Instruction::ShrVxVy(x, y),
            0x7 => Instruction::SubnVxVy(x, y),
            0xE => Instruction::ShlVxVy(x, y),
            _ => Instruction::Invalid(w),
        },
        0x9 => if n == 0x0 {
            Instruction::SneVxVy(x, y)
        } else {
            Instruction::Invalid(w)
        },
        0xA => Instruction::LdIAddr(a),
        0xB => Instruction::JpV0Addr(a),
        0xC => Instruction::RndVxKk(x, kk),
        0xD => Instruction::DrwVxVyN(x, y, n as u8),
        0xE => match kk {
            0x9E => Instruction::SkpVx(x),
            0xA1 => Instruction::SknpVx(x),
            _ => Instruction::Invalid(w),
        },
        _ => match kk {
            0x07 => Instruction::LdVxDt(x),
            0x0A => Instruction::LdVxK(x),
            0x15 => Instruction::LdDtVx(x),
            0x18 => Instruction::LdStVx(x),
            0x1E => Instruction::AddIVx(x),
            0x29 => Instruction::LdFVx(x),
            0x33 => Instruction::LdBcdVx(x),
            0x55 => Instruction::LdIVx(x),
            0x65 => Instruction::LdVxI(x),
            _ => Instruction::Invalid(w),
        },
    }
}

impl From<u16> for Instruction {
    fn from(w: u16) -> (r: Instruction) {
        decode(w)
    }
}

impl vstd::std_specs::convert::FromSpecImpl<u16> for Instruction {
    open spec fn obeys_from_spec() -> bool {
        true
    }

    open spec fn from_spec(w: u16) -> Instruction {
        decoded(w)
    }
}

} // verus!
