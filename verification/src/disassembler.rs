//! Assembly-language text of registers, operands and operations.
use vstd::prelude::*;
use vstd::string::StringExecFns;

use crate::emulator::add16;
use crate::isa::{EffectiveAddressBase, MemSpec, Op, Operand, Register16, Register8};
use crate::text::{hex_text, push_hex};

verus! {

/// The assembler name of a 16-bit register.
pub open spec fn register16_name(r: Register16) -> Seq<char> {
    match r {
        Register16::Ax => "ax"@,
        Register16::Cx => "cx"@,
        Register16::Dx => "dx"@,
        Register16::Bx => "bx"@,
        Register16::Sp => "sp"@,
        Register16::Bp => "bp"@,
        Register16::Si => "si"@,
        Register16::Di => "di"@,
    }
}

/// The assembler name of an 8-bit register.
pub open spec fn register8_name(r: Register8) -> Seq<char> {
    match r {
        Register8::Al => "al"@,
        Register8::Cl => "cl"@,
        Register8::Dl => "dl"@,
        Register8::Bl => "bl"@,
        Register8::Ah => "ah"@,
        Register8::Ch => "ch"@,
        Register8::Dh => "dh"@,
        Register8::Bh => "bh"@,
    }
}

/// The assembler text of an address base; empty for a direct address.
pub open spec fn base_name(b: EffectiveAddressBase) -> Seq<char> {
    match b {
        EffectiveAddressBase::BxSi => "bx+si"@,
        EffectiveAddressBase::BxDi => "bx+di"@,
        EffectiveAddressBase::BpSi => "bp+si"@,
        EffectiveAddressBase::BpDi => "bp+di"@,
        EffectiveAddressBase::Si => "si"@,
        EffectiveAddressBase::Di => "di"@,
        EffectiveAddressBase::Bp => "bp"@,
        EffectiveAddressBase::Bx => "bx"@,
        EffectiveAddressBase::NoBase => ""@,
    }
}

/// The text between the brackets of a memory operand: the direct address
/// as `0x` and four hexadecimal digits, or the base followed, when the
/// displacement is not zero, by `+` and the displacement's two's complement
/// bits in hexadecimal (at least four digits in a byte operand).
pub open spec fn address_text(m: MemSpec, byte: bool) -> Seq<char> {
    if m.is_direct {
        "0x"@ + hex_text(add16(0, m.disp as int), 4)
    } else if m.disp == 0 {
        base_name(m.base)
    } else {
        base_name(m.base) + "+"@ + hex_text(add16(0, m.disp as int), if byte { 4 } else { 0 })
    }
}

/// The assembler text of an operand.
pub open spec fn operand_text(o: Operand) -> Seq<char> {
    match o {
        Operand::Register8(r) => register8_name(r),
        Operand::Register16(r) => register16_name(r),
        Operand::Imm16(v) => hex_text(v, 4) + "h"@,
        Operand::Imm8(v) => hex_text(v as u16, 2) + "h"@,
        Operand::RelAddress(v) => hex_text(v, 4) + "h"@,
        Operand::Mem8(m) => "byte ptr ["@ + address_text(m, true) + "]"@,
        Operand::Mem16(m) => "word ptr ["@ + address_text(m, false) + "]"@,
    }
}

/// A mnemonic followed by its destination and source operands.
pub open spec fn binary_text(mnemonic: Seq<char>, dst: Operand, src: Operand) -> Seq<char> {
    mnemonic + " "@ + operand_text(dst) + ","@ + operand_text(src)
}

/// A shift or rotate by one of `dst`.
pub open spec fn shift_text(mnemonic: Seq<char>, dst: Operand) -> Seq<char> {
    mnemonic + " "@ + operand_text(dst) + ",1"@
}

/// A mnemonic followed by one operand.
pub open spec fn unary_text(mnemonic: Seq<char>, o: Operand) -> Seq<char> {
    mnemonic + " "@ + operand_text(o)
}

/// The assembler text of an operation.
pub open spec fn op_text(op: Op) -> Seq<char> {
    match op {
        Op::Nop => "nop"@,
        Op::Ret => "ret"@,
        Op::Lodsw => "lodsw"@,
        Op::PushEs => "push es"@,
        Op::PopEs => "pop es"@,
        Op::PushCs => "push cs"@,
        Op::PopDs => "pop ds"@,
        Op::Cld => "cld"@,
        Op::Std => "std"@,
        Op::Int(n) => "int "@ + hex_text(n as u16, 2) + "h"@,
        Op::PopReg16(r) => "pop "@ + register16_name(r),
        Op::PushReg16(r) => "push "@ + register16_name(r),
        Op::Inc(o) => unary_text("inc"@, o),
        Op::Dec(o) => unary_text("dec"@, o),
        Op::Jmp(o) => unary_text("jmp"@, o),
        Op::Jz(o) => unary_text("jz"@, o),
        Op::Jnz(o) => unary_text("jnz"@, o),
        Op::Call { target } => unary_text("call"@, target),
        Op::Mov { src, dst } => binary_text("mov"@, dst, src),
        Op::Xor { src, dst } => binary_text("xor"@, dst, src),
        Op::Test { src, dst } => binary_text("test"@, dst, src),
        Op::Xchg { src, dst } => binary_text("xchg"@, dst, src),
        Op::Rol { dst, .. } => shift_text("rol"@, dst),
        Op::Ror { dst, .. } => shift_text("ror"@, dst),
        Op::Rcl { dst, .. } => shift_text("rcl"@, dst),
        Op::Rcr { dst, .. } => shift_text("rcr"@, dst),
        Op::Shl { dst, .. } => shift_text("shl"@, dst),
        Op::Shr { dst, .. } => shift_text("shr"@, dst),
        Op::Sar { dst, .. } => shift_text("sar"@, dst),
        Op::Add { src, dst } => binary_text("add"@, dst, src),
        Op::Or { src, dst } => binary_text("or"@, dst, src),
        Op::Adc { src, dst } => binary_text("adc"@, dst, src),
        Op::Sbb { src, dst } => binary_text("sbb"@, dst, src),
        Op::And { src, dst } => binary_text("and"@, dst, src),
        Op::Sub { src, dst } => binary_text("sub"@, dst, src),
        Op::Cmp { src, dst } => binary_text("cmp"@, dst, src),
        Op::Db(v) => "db "@ + hex_text(v as u16, 2) + "h"@,
        Op::Invalid => "(invalid)"@,
    }
}

impl Register16 {
    /// The assembler name of the register.
    pub fn to_string(&self) -> (s: String)
        ensures
            s@ == register16_name(*self),
    {
        String::from_str(
            match self {
                Register16::Ax => "ax",
                Register16::Cx => "cx",
                Register16::Dx => "dx",
                Register16::Bx => "bx",
                Register16::Sp => "sp",
                Register16::Bp => "bp",
                Register16::Si => "si",
                Register16::Di => "di",
            },
        )
    }
}

impl Register8 {
    /// The assembler name of the register.
    pub fn to_string(&self) -> (s: String)
        ensures
            s@ == register8_name(*self),
    {
        String::from_str(
            match self {
                Register8::Al => "al",
                Register8::Cl => "cl",
                Register8::Dl => "dl",
                Register8::Bl => "bl",
                Register8::Ah => "ah",
                Register8::Ch => "ch",
                Register8::Dh => "dh",
                Register8::Bh => "bh",
            },
        )
    }
}

impl EffectiveAddressBase {
    /// The assembler text of the base; empty for a direct address.
    pub fn to_string(&self) -> (s: String)
        ensures
            s@ == base_name(*self),
    {
        String::from_str(
            match self {
                EffectiveAddressBase::BxSi => "bx+si",
                EffectiveAddressBase::BxDi => "bx+di",
                EffectiveAddressBase::BpSi => "bp+si",
                EffectiveAddressBase::BpDi => "bp+di",
                EffectiveAddressBase::Si => "si",
                EffectiveAddressBase::Di => "di",
                EffectiveAddressBase::Bp => "bp",
                EffectiveAddressBase::Bx => "bx",
                EffectiveAddressBase::NoBase => "",
            },
        )
    }
}

/// Appends the text between the brackets of a memory operand.
fn push_address(s: &mut String, m: &MemSpec, byte: bool)
    ensures
        final(s)@ == old(s)@ + address_text(*m, byte),
{
    proof {
        crate::emulator::lemma_i16_as_u16(m.disp);
    }
    let ghost start = s@;
    if m.is_direct {
        s.append("0x");
        push_hex(s, m.disp as u16, 4);
    } else if m.disp == 0 {
        s.append(m.base.to_string().as_str());
    } else {
        s.append(m.base.to_string().as_str());
        s.append("+");
        push_hex(s, m.disp as u16, if byte { 4 } else { 0 });
    }
    assert(s@ =~= start + address_text(*m, byte));
}

/// Appends the assembler text of an operand.
fn push_operand(s: &mut String, o: &Operand)
    ensures
        final(s)@ == old(s)@ + operand_text(*o),
{
    let ghost start = s@;
    match o {
        Operand::Register8(r) => s.append(r.to_string().as_str()),
        Operand::Register16(r) => s.append(r.to_string().as_str()),
        Operand::Imm16(v) => {
            push_hex(s, *v, 4);
            s.append("h");
        },
        Operand::Imm8(v) => {
            push_hex(s, *v as u16, 2);
            s.append("h");
        },
        Operand::RelAddress(v) => {
            push_hex(s, *v, 4);
            s.append("h");
        },
        Operand::Mem8(m) => {
            s.append("byte ptr [");
            push_address(s, m, true);
            s.append("]");
        },
        Operand::Mem16(m) => {
            s.append("word ptr [");
            push_address(s, m, false);
            s.append("]");
        },
    }
    assert(s@ =~= start + operand_text(*o));
}

impl Operand {
    /// The assembler text of the operand.
    pub fn to_string(&self) -> (s: String)
        ensures
            s@ == operand_text(*self),
    {
        let mut s = String::new();
        push_operand(&mut s, self);
        assert(s@ =~= operand_text(*self));
        s
    }
}

/// Appends a mnemonic followed by its destination and source operands.
fn push_binary(s: &mut String, mnemonic: &str, dst: &Operand, src: &Operand)
    ensures
        final(s)@ == old(s)@ + binary_text(mnemonic@, *dst, *src),
{
    let ghost start = s@;
    s.append(mnemonic);
    s.append(" ");
    push_operand(s, dst);
    s.append(",");
    push_operand(s, src);
    assert(s@ =~= start + binary_text(mnemonic@, *dst, *src));
}

/// Appends a shift or rotate by one of `dst`.
fn push_shift(s: &mut String, mnemonic: &str, dst: &Operand)
    ensures
        final(s)@ == old(s)@ + shift_text(mnemonic@, *dst),
{
    let ghost start = s@;
    s.append(mnemonic);
    s.append(" ");
    push_operand(s, dst);
    s.append(",1");
    assert(s@ =~= start + shift_text(mnemonic@, *dst));
}

/// Appends a mnemonic followed by one operand.
fn push_unary(s: &mut String, mnemonic: &str, o: &Operand)
    ensures
        final(s)@ == old(s)@ + unary_text(mnemonic@, *o),
{
    let ghost start = s@;
    s.append(mnemonic);
    s.append(" ");
    push_operand(s, o);
    assert(s@ =~= start + unary_text(mnemonic@, *o));
}

impl Op {
    /// The assembler text of the operation.
    pub fn to_string(&self) -> (s: String)
        ensures
            s@ == op_text(*self),
    {
        let mut s = String::new();
        match self {
            Op::Nop => s.append("nop"),
            Op::Ret => s.append("ret"),
            Op::Lodsw => s.append("lodsw"),
            Op::PushEs => s.append("push es"),
            Op::PopEs => s.append("pop es"),
            Op::PushCs => s.append("push cs"),
            Op::PopDs => s.append("pop ds"),
            Op::Cld => s.append("cld"),
            Op::Std => s.append("std"),
            Op::Int(num) => {
                s.append("int ");
                push_hex(&mut s, *num as u16, 2);
                s.append("h");
            },
            Op::PopReg16(reg) => {
                s.append("pop ");
                s.append(reg.to_string().as_str());
            },
            Op::PushReg16(reg) => {
                s.append("push ");
                s.append(reg.to_string().as_str());
            },
            Op::Inc(o) => push_unary(&mut s, "inc", o),
            Op::Dec(o) => push_unary(&mut s, "dec", o),
            Op::Jmp(j) => push_unary(&mut s, "jmp", j),
            Op::Jz(j) => push_unary(&mut s, "jz", j),
            Op::Jnz(j) => push_unary(&mut s, "jnz", j),
            Op::Call { target } => push_unary(&mut s, "call", target),
            Op::Mov { src, dst } => push_binary(&mut s, "mov", dst, src),
            Op::Xor { src, dst } => push_binary(&mut s, "xor", dst, src),
            Op::Test { src, dst } => push_binary(&mut s, "test", dst, src),
            Op::Xchg { src, dst } => push_binary(&mut s, "xchg", dst, src),
            Op::Rol { dst, .. } => push_shift(&mut s, "rol", dst),
            Op::Ror { dst, .. } => push_shift(&mut s, "ror", dst),
            Op::Rcl { dst, .. } => push_shift(&mut s, "rcl", dst),
            Op::Rcr { dst, .. } => push_shift(&mut s, "rcr", dst),
            Op::Shl { dst, .. } => push_shift(&mut s, "shl", dst),
            Op::Shr { dst, .. } => push_shift(&mut s, "shr", dst),
            Op::Sar { dst, .. } => push_shift(&mut s, "sar", dst),
            Op::Add { src, dst } => push_binary(&mut s, "add", dst, src),
            Op::Or { src, dst } => push_binary(&mut s, "or", dst, src),
            Op::Adc { src, dst } => push_binary(&mut s, "adc", dst, src),
            Op::Sbb { src, dst } => push_binary(&mut s, "sbb", dst, src),
            Op::And { src, dst } => push_binary(&mut s, "and", dst, src),
            Op::Sub { src, dst } => push_binary(&mut s, "sub", dst, src),
            Op::Cmp { src, dst } => push_binary(&mut s, "cmp", dst, src),
            Op::Db(v) => {
                s.append("db ");
                push_hex(&mut s, *v as u16, 2);
                s.append("h");
            },
            Op::Invalid => s.append("(invalid)"),
        }
        assert(s@ =~= op_text(*self));
        s
    }
}

} // verus!

verus! {

/// Each operation is written as its own mnemonic followed by its operand,
/// if it has one; no two kinds of operation share a mnemonic.
#[verifier::spinoff_prover]
#[verifier::rlimit(60)]
pub proof fn law_operation_text(o: Operand, r: Register16, n: u8)
    ensures
        op_text(Op::Inc(o)) == seq!['i', 'n', 'c', ' '] + operand_text(o),
        op_text(Op::Dec(o)) == seq!['d', 'e', 'c', ' '] + operand_text(o),
        op_text(Op::Jmp(o)) == seq!['j', 'm', 'p', ' '] + operand_text(o),
        op_text(Op::Jz(o)) == seq!['j', 'z', ' '] + operand_text(o),
        op_text(Op::Jnz(o)) == seq!['j', 'n', 'z', ' '] + operand_text(o),
        op_text(Op::Call { target: o }) == seq!['c', 'a', 'l', 'l', ' '] + operand_text(o),
        op_text(Op::Nop) == seq!['n', 'o', 'p'],
        op_text(Op::Ret) == seq!['r', 'e', 't'],
        op_text(Op::Lodsw) == seq!['l', 'o', 'd', 's', 'w'],
        op_text(Op::PushEs) == seq!['p', 'u', 's', 'h', ' ', 'e', 's'],
        op_text(Op::PopEs) == seq!['p', 'o', 'p', ' ', 'e', 's'],
        op_text(Op::PushCs) == seq!['p', 'u', 's', 'h', ' ', 'c', 's'],
        op_text(Op::PopDs) == seq!['p', 'o', 'p', ' ', 'd', 's'],
        op_text(Op::Cld) == seq!['c', 'l', 'd'],
        op_text(Op::Std) == seq!['s', 't', 'd'],
        op_text(Op::Invalid) == seq!['(', 'i', 'n', 'v', 'a', 'l', 'i', 'd', ')'],
        op_text(Op::PushReg16(r)) == seq!['p', 'u', 's', 'h', ' '] + register16_name(r),
        op_text(Op::PopReg16(r)) == seq!['p', 'o', 'p', ' '] + register16_name(r),
        op_text(Op::Int(n)) == seq!['i', 'n', 't', ' '] + hex_text(n as u16, 2) + seq!['h'],
        op_text(Op::Db(n)) == seq!['d', 'b', ' '] + hex_text(n as u16, 2) + seq!['h'],
{
    reveal_strlit(" ");
    reveal_strlit("(invalid)");
    reveal_strlit(",");
    reveal_strlit(",1");
    reveal_strlit("adc");
    reveal_strlit("add");
    reveal_strlit("and");
    reveal_strlit("call");
    reveal_strlit("cld");
    reveal_strlit("cmp");
    reveal_strlit("db ");
    reveal_strlit("dec");
    reveal_strlit("h");
    reveal_strlit("inc");
    reveal_strlit("int ");
    reveal_strlit("jmp");
    reveal_strlit("jnz");
    reveal_strlit("jz");
    reveal_strlit("lodsw");
    reveal_strlit("mov");
    reveal_strlit("nop");
    reveal_strlit("or");
    reveal_strlit("pop ");
    reveal_strlit("pop ds");
    reveal_strlit("pop es");
    reveal_strlit("push ");
    reveal_strlit("push cs");
    reveal_strlit("push es");
    reveal_strlit("rcl");
    reveal_strlit("rcr");
    reveal_strlit("ret");
    reveal_strlit("rol");
    reveal_strlit("ror");
    reveal_strlit("sar");
    reveal_strlit("sbb");
    reveal_strlit("shl");
    reveal_strlit("shr");
    reveal_strlit("std");
    reveal_strlit("sub");
    reveal_strlit("test");
    reveal_strlit("xchg");
    reveal_strlit("xor");
}

/// Operations on two operands are written as the mnemonic, the destination,
/// a comma and the source; shifts and rotates by one end in `,1`.
#[verifier::spinoff_prover]
#[verifier::rlimit(60)]
pub proof fn law_two_operand_text(src: Operand, dst: Operand)
    ensures
        op_text(Op::Mov { src, dst }) == seq!['m', 'o', 'v', ' '] + operand_text(dst) + seq![','] + operand_text(src),
        op_text(Op::Xor { src, dst }) == seq!['x', 'o', 'r', ' '] + operand_text(dst) + seq![','] + operand_text(src),
        op_text(Op::Test { src, dst }) == seq!['t', 'e', 's', 't', ' '] + operand_text(dst) + seq![','] + operand_text(src),
        op_text(Op::Xchg { src, dst }) == seq!['x', 'c', 'h', 'g', ' '] + operand_text(dst) + seq![','] + operand_text(src),
        op_text(Op::Add { src, dst }) == seq!['a', 'd', 'd', ' '] + operand_text(dst) + seq![','] + operand_text(src),
        op_text(Op::Or { src, dst }) == seq!['o', 'r', ' '] + operand_text(dst) + seq![','] + operand_text(src),
        op_text(Op::Adc { src, dst }) == seq!['a', 'd', 'c', ' '] + operand_text(dst) + seq![','] + operand_text(src),
        op_text(Op::Sbb { src, dst }) == seq!['s', 'b', 'b', ' '] + operand_text(dst) + seq![','] + operand_text(src),
        op_text(Op::And { src, dst }) == seq!['a', 'n', 'd', ' '] + operand_text(dst) + seq![','] + operand_text(src),
        op_text(Op::Sub { src, dst }) == seq!['s', 'u', 'b', ' '] + operand_text(dst) + seq![','] + operand_text(src),
        op_text(Op::Cmp { src, dst }) == seq!['c', 'm', 'p', ' '] + operand_text(dst) + seq![','] + operand_text(src),
        op_text(Op::Rol { src, dst }) == seq!['r', 'o', 'l', ' '] + operand_text(dst) + seq![',', '1'],
        op_text(Op::Ror { src, dst }) == seq!['r', 'o', 'r', ' '] + operand_text(dst) + seq![',', '1'],
        op_text(Op::Rcl { src, dst }) == seq!['r', 'c', 'l', ' '] + operand_text(dst) + seq![',', '1'],
        op_text(Op::Rcr { src, dst }) == seq!['r', 'c', 'r', ' '] + operand_text(dst) + seq![',', '1'],
        op_text(Op::Shl { src, dst }) == seq!['s', 'h', 'l', ' '] + operand_text(dst) + seq![',', '1'],
        op_text(Op::Shr { src, dst }) == seq!['s', 'h', 'r', ' '] + operand_text(dst) + seq![',', '1'],
        op_text(Op::Sar { src, dst }) == seq!['s', 'a', 'r', ' '] + operand_text(dst) + seq![',', '1'],
{
    reveal_strlit(" ");
    reveal_strlit("(invalid)");
    reveal_strlit(",");
    reveal_strlit(",1");
    reveal_strlit("adc");
    reveal_strlit("add");
    reveal_strlit("and");
    reveal_strlit("call");
    reveal_strlit("cld");
    reveal_strlit("cmp");
    reveal_strlit("db ");
    reveal_strlit("dec");
    reveal_strlit("h");
    reveal_strlit("inc");
    reveal_strlit("int ");
    reveal_strlit("jmp");
    reveal_strlit("jnz");
    reveal_strlit("jz");
    reveal_strlit("lodsw");
    reveal_strlit("mov");
    reveal_strlit("nop");
    reveal_strlit("or");
    reveal_strlit("pop ");
    reveal_strlit("pop ds");
    reveal_strlit("pop es");
    reveal_strlit("push ");
    reveal_strlit("push cs");
    reveal_strlit("push es");
    reveal_strlit("rcl");
    reveal_strlit("rcr");
    reveal_strlit("ret");
    reveal_strlit("rol");
    reveal_strlit("ror");
    reveal_strlit("sar");
    reveal_strlit("sbb");
    reveal_strlit("shl");
    reveal_strlit("shr");
    reveal_strlit("std");
    reveal_strlit("sub");
    reveal_strlit("test");
    reveal_strlit("xchg");
    reveal_strlit("xor");
}

/// The registers and address bases are written by their assembler names.
pub proof fn law_register_names()
    ensures
        register16_name(Register16::Ax) == seq!['a', 'x'],
        register16_name(Register16::Cx) == seq!['c', 'x'],
        register16_name(Register16::Dx) == seq!['d', 'x'],
        register16_name(Register16::Bx) == seq!['b', 'x'],
        register16_name(Register16::Sp) == seq!['s', 'p'],
        register16_name(Register16::Bp) == seq!['b', 'p'],
        register16_name(Register16::Si) == seq!['s', 'i'],
        register16_name(Register16::Di) == seq!['d', 'i'],
        register8_name(Register8::Al) == seq!['a', 'l'],
        register8_name(Register8::Cl) == seq!['c', 'l'],
        register8_name(Register8::Dl) == seq!['d', 'l'],
        register8_name(Register8::Bl) == seq!['b', 'l'],
        register8_name(Register8::Ah) == seq!['a', 'h'],
        register8_name(Register8::Ch) == seq!['c', 'h'],
        register8_name(Register8::Dh) == seq!['d', 'h'],
        register8_name(Register8::Bh) == seq!['b', 'h'],
        base_name(EffectiveAddressBase::BxSi) == seq!['b', 'x', '+', 's', 'i'],
        base_name(EffectiveAddressBase::BxDi) == seq!['b', 'x', '+', 'd', 'i'],
        base_name(EffectiveAddressBase::BpSi) == seq!['b', 'p', '+', 's', 'i'],
        base_name(EffectiveAddressBase::BpDi) == seq!['b', 'p', '+', 'd', 'i'],
        base_name(EffectiveAddressBase::Si) == seq!['s', 'i'],
        base_name(EffectiveAddressBase::Di) == seq!['d', 'i'],
        base_name(EffectiveAddressBase::Bp) == seq!['b', 'p'],
        base_name(EffectiveAddressBase::Bx) == seq!['b', 'x'],
        base_name(EffectiveAddressBase::NoBase) == Seq::<char>::empty(),
{
    reveal_strlit("");
    reveal_strlit("ah");
    reveal_strlit("al");
    reveal_strlit("ax");
    reveal_strlit("bh");
    reveal_strlit("bl");
    reveal_strlit("bp");
    reveal_strlit("bp+di");
    reveal_strlit("bp+si");
    reveal_strlit("bx");
    reveal_strlit("bx+di");
    reveal_strlit("bx+si");
    reveal_strlit("ch");
    reveal_strlit("cl");
    reveal_strlit("cx");
    reveal_strlit("dh");
    reveal_strlit("di");
    reveal_strlit("dl");
    reveal_strlit("dx");
    reveal_strlit("si");
    reveal_strlit("sp");
}

/// Operands: immediates and addresses in upper-case hexadecimal followed by
/// `h` (two digits for a byte, four for a word), memory operands as
/// `byte ptr [..]` or `word ptr [..]`.
pub proof fn law_operand_text(r8: Register8, r16: Register16, b: u8, w: u16, m: MemSpec)
    ensures
        operand_text(Operand::Register8(r8)) == register8_name(r8),
        operand_text(Operand::Register16(r16)) == register16_name(r16),
        operand_text(Operand::Imm8(b)) == hex_text(b as u16, 2) + seq!['h'],
        operand_text(Operand::Imm16(w)) == hex_text(w, 4) + seq!['h'],
        operand_text(Operand::RelAddress(w)) == hex_text(w, 4) + seq!['h'],
        operand_text(Operand::Mem8(m)) == seq!['b', 'y', 't', 'e', ' ', 'p', 't', 'r', ' ', '['] + address_text(m, true) + seq![']'],
        operand_text(Operand::Mem16(m)) == seq!['w', 'o', 'r', 'd', ' ', 'p', 't', 'r', ' ', '['] + address_text(m, false) + seq![']'],
        m.is_direct ==> address_text(m, true) == seq!['0', 'x'] + hex_text(add16(0, m.disp as int), 4),
        !m.is_direct && m.disp == 0 ==> address_text(m, false) == base_name(m.base),
        !m.is_direct && m.disp != 0 ==> address_text(m, true) == base_name(m.base) + seq!['+'] + hex_text(add16(0, m.disp as int), 4),
{
    reveal_strlit("h");
    reveal_strlit("byte ptr [");
    reveal_strlit("word ptr [");
    reveal_strlit("]");
    reveal_strlit("0x");
    reveal_strlit("+");
}

} // verus!
