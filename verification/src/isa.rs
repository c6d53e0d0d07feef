//! The instruction set: registers, operands and operations of the 8086 subset
//! that the decoder produces and the emulator runs.
use vstd::prelude::*;

verus! {

/// A 16-bit general purpose register, in the order of its 3-bit encoding.
#[derive(Debug, Clone, Copy, PartialEq, Eq, Structural)]
pub enum Register16 {
    Ax,
    Cx,
    Dx,
    Bx,
    Sp,
    Bp,
    Si,
    Di,
}

/// The 16-bit register encoded by `code` (taken modulo 8).
pub open spec fn register16_of(code: int) -> Register16 {
    let c = code % 8;
    if c == 0 {
        Register16::Ax
    } else if c == 1 {
        Register16::Cx
    } else if c == 2 {
        Register16::Dx
    } else if c == 3 {
        Register16::Bx
    } else if c == 4 {
        Register16::Sp
    } else if c == 5 {
        Register16::Bp
    } else if c == 6 {
        Register16::Si
    } else {
        Register16::Di
    }
}

impl Register16 {
    /// The 3-bit encoding of the register.
    pub open spec fn code(self) -> int {
        match self {
            Register16::Ax => 0,
            Register16::Cx => 1,
            Register16::Dx => 2,
            Register16::Bx => 3,
            Register16::Sp => 4,
            Register16::Bp => 5,
            Register16::Si => 6,
            Register16::Di => 7,
        }
    }
}

impl From<u8> for Register16 {
    /// Decodes the low three bits of `value`.
    fn from(value: u8) -> (r: Self) {
        let code = value & 7;
        assert(value & 7 == value % 8) by (bit_vector);
        if code == 0 {
            Register16::Ax
        } else if code == 1 {
            Register16::Cx
        } else if code == 2 {
            Register16::Dx
        } else if code == 3 {
            Register16::Bx
        } else if code == 4 {
            Register16::Sp
        } else if code == 5 {
            Register16::Bp
        } else if code == 6 {
            Register16::Si
        } else {
            Register16::Di
        }
    }
}

impl vstd::std_specs::convert::FromSpecImpl<u8> for Register16 {
    open spec fn obeys_from_spec() -> bool {
        true
    }

    open spec fn from_spec(v: u8) -> Self {
        register16_of(v as int)
    }
}

/// An 8-bit register, in the order of its 3-bit encoding: the low bytes of
/// AX, CX, DX, BX, then their high bytes.
#[derive(Debug, Clone, Copy, PartialEq, Eq, Structural)]
pub enum Register8 {
    Al,
    Cl,
    Dl,
    Bl,
    Ah,
    Ch,
    Dh,
    Bh,
}

/// The 8-bit register encoded by `code` (taken modulo 8).
pub open spec fn register8_of(code: int) -> Register8 {
    let c = code % 8;
    if c == 0 {
        Register8::Al
    } else if c == 1 {
        Register8::Cl
    } else if c == 2 {
        Register8::Dl
    } else if c == 3 {
        Register8::Bl
    } else if c == 4 {
        Register8::Ah
    } else if c == 5 {
        Register8::Ch
    } else if c == 6 {
        Register8::Dh
    } else {
        Register8::Bh
    }
}

impl Register8 {
    /// The 3-bit encoding of the register.
    pub open spec fn code(self) -> int {
        match self {
            Register8::Al => 0,
            Register8::Cl => 1,
            Register8::Dl => 2,
            Register8::Bl => 3,
            Register8::Ah => 4,
            Register8::Ch => 5,
            Register8::Dh => 6,
            Register8::Bh => 7,
        }
    }

    /// The 16-bit register that holds this byte.
    pub open spec fn container(self) -> Register16 {
        register16_of(self.code() % 4)
    }

    /// Whether this is the high byte of its 16-bit register.
    pub open spec fn is_high(self) -> bool {
        self.code() >= 4
    }
}

impl From<u8> for Register8 {
    /// Decodes the low three bits of `value`.
    fn from(value: u8) -> (r: Self) {
        let code = value & 7;
        assert(value & 7 == value % 8) by (bit_vector);
        if code == 0 {
            Register8::Al
        } else if code == 1 {
            Register8::Cl
        } else if code == 2 {
            Register8::Dl
        } else if code == 3 {
            Register8::Bl
        } else if code == 4 {
            Register8::Ah
        } else if code == 5 {
            Register8::Ch
        } else if code == 6 {
            Register8::Dh
        } else {
            Register8::Bh
        }
    }
}

impl vstd::std_specs::convert::FromSpecImpl<u8> for Register8 {
    open spec fn obeys_from_spec() -> bool {
        true
    }

    open spec fn from_spec(v: u8) -> Self {
        register8_of(v as int)
    }
}

/// The base of a memory operand's effective address; `NoBase` stands for a
/// direct address.
#[derive(Debug, Clone, Copy, PartialEq, Eq, Structural)]
pub enum EffectiveAddressBase {
    BxSi,
    BxDi,
    BpSi,
    BpDi,
    Si,
    Di,
    Bp,
    Bx,
    NoBase,
}

/// The base encoded by the `rm` field `code` (taken modulo 8).
pub open spec fn base_of(code: int) -> EffectiveAddressBase {
    let c = code % 8;
    if c == 0 {
        EffectiveAddressBase::BxSi
    } else if c == 1 {
        EffectiveAddressBase::BxDi
    } else if c == 2 {
        EffectiveAddressBase::BpSi
    } else if c == 3 {
        EffectiveAddressBase::BpDi
    } else if c == 4 {
        EffectiveAddressBase::Si
    } else if c == 5 {
        EffectiveAddressBase::Di
    } else if c == 6 {
        EffectiveAddressBase::Bp
    } else {
        EffectiveAddressBase::Bx
    }
}

impl From<u8> for EffectiveAddressBase {
    /// Decodes the low three bits of `value` as an `rm` field.
    fn from(value: u8) -> (r: Self) {
        let code = value & 7;
        assert(value & 7 == value % 8) by (bit_vector);
        if code == 0 {
            EffectiveAddressBase::BxSi
        } else if code == 1 {
            EffectiveAddressBase::BxDi
        } else if code == 2 {
            EffectiveAddressBase::BpSi
        } else if code == 3 {
            EffectiveAddressBase::BpDi
        } else if code == 4 {
            EffectiveAddressBase::Si
        } else if code == 5 {
            EffectiveAddressBase::Di
        } else if code == 6 {
            EffectiveAddressBase::Bp
        } else {
            EffectiveAddressBase::Bx
        }
    }
}

impl vstd::std_specs::convert::FromSpecImpl<u8> for EffectiveAddressBase {
    open spec fn obeys_from_spec() -> bool {
        true
    }

    open spec fn from_spec(v: u8) -> Self {
        base_of(v as int)
    }
}

/// A memory operand: a base plus a displacement, or a direct address held
/// in `disp`.
#[derive(Debug, Clone, Copy, PartialEq, Eq, Structural)]
pub struct MemSpec {
    pub base: EffectiveAddressBase,
    /// Displacement
    pub disp: i16,
    pub is_direct: bool,
}

impl From<Register8> for Operand {
    fn from(val: Register8) -> (r: Self) {
        Operand::Register8(val)
    }
}

impl vstd::std_specs::convert::FromSpecImpl<Register8> for Operand {
    open spec fn obeys_from_spec() -> bool {
        true
    }

    open spec fn from_spec(v: Register8) -> Self {
        Operand::Register8(v)
    }
}

/// An instruction operand.
#[derive(Debug, Clone, Copy, PartialEq, Eq, Structural)]
pub enum Operand {
    Register8(Register8),
    Register16(Register16),
    Imm8(u8),
    Imm16(u16),
    RelAddress(u16),
    Mem8(MemSpec),
    Mem16(MemSpec),
}

impl Operand {
    /// Whether a value can be stored into the operand.
    pub open spec fn is_writable(self) -> bool {
        match self {
            Operand::Register8(_) | Operand::Register16(_) | Operand::Mem8(_) | Operand::Mem16(_) => true,
            _ => false,
        }
    }

    /// Whether a value can be stored into the operand.
    pub fn writable(&self) -> (r: bool)
        ensures
            r == self.is_writable(),
    {
        match self {
            Operand::Register8(_) | Operand::Register16(_) | Operand::Mem8(_) | Operand::Mem16(_) => true,
            _ => false,
        }
    }
}

/// A decoded operation.
#[derive(Debug, Clone, Copy, PartialEq, Eq, Structural)]
pub enum Op {
    Nop,
    Ret,
    Lodsw,
    PushEs,
    PopEs,
    PushCs,
    PopDs,
    Cld,
    Std,
    Int(u8),
    PopReg16(Register16),
    PushReg16(Register16),
    Inc(Operand),
    Dec(Operand),
    Jmp(Operand),
    Jz(Operand),
    Jnz(Operand),
    Call { target: Operand },
    Db(u8),
    Mov { src: Operand, dst: Operand },
    Xor { src: Operand, dst: Operand },
    Test { src: Operand, dst: Operand },
    Xchg { src: Operand, dst: Operand },
    Rol { src: Operand, dst: Operand },
    Ror { src: Operand, dst: Operand },
    Rcl { src: Operand, dst: Operand },
    Rcr { src: Operand, dst: Operand },
    Shl { src: Operand, dst: Operand },
    Shr { src: Operand, dst: Operand },
    Sar { src: Operand, dst: Operand },
    Add { src: Operand, dst: Operand },
    Or { src: Operand, dst: Operand },
    Adc { src: Operand, dst: Operand },
    Sbb { src: Operand, dst: Operand },
    And { src: Operand, dst: Operand },
    Sub { src: Operand, dst: Operand },
    Cmp { src: Operand, dst: Operand },
    Invalid,
}

} // verus!

verus! {

/// Decoding a register reads only the low three bits of the byte, and the
/// encoding of a register decodes back to it.
pub proof fn law_register_codes(v: u8, r16: Register16, r8: Register8)
    ensures
        register16_of(v as int) == register16_of((v % 8) as int),
        register8_of(v as int) == register8_of((v % 8) as int),
        base_of(v as int) == base_of((v % 8) as int),
        register16_of(r16.code()) == r16,
        register8_of(r8.code()) == r8,
        0 <= r16.code() < 8,
        0 <= r8.code() < 8,
{
}

/// The high bytes AH, CH, DH, BH live in AX, CX, DX, BX, as do the low
/// bytes AL, CL, DL, BL.
pub proof fn law_byte_registers(r: Register8)
    ensures
        r.container().code() == r.code() % 4,
        r.is_high() <==> r.code() >= 4,
{
}

} // verus!
