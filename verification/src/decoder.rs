//! Decoding of instructions from the bytes at the instruction pointer.
use vstd::prelude::*;

use crate::emulator::{add16, Cpu};
use crate::isa::{
    base_of, register16_of, register8_of, EffectiveAddressBase, MemSpec, Op, Operand, Register16,
    Register8,
};

verus! {

/// A decoded instruction: where it starts, how many bytes it takes, and
/// what it does.
#[derive(Debug, Clone, Copy, PartialEq, Eq, Structural)]
pub struct Instruction {
    pub address: u16,
    pub size: u8,
    pub op: Op,
}

/// Reads instruction bytes at the CPU's instruction pointer, advancing it.
pub struct Decoder<'a> {
    pub cpu: &'a mut Cpu,
}

/// The byte `k` bytes after `at`; addresses wrap at 64 KiB.
pub open spec fn byte_at(mem: Seq<u8>, at: u16, k: int) -> u8 {
    mem[add16(at as int, k) as int]
}

/// The little-endian word that starts `k` bytes after `at`.
pub open spec fn word_at(mem: Seq<u8>, at: u16, k: int) -> u16 {
    let a = add16(at as int, k);
    (mem[a as int] + mem[a + 1] * 256) as u16
}

/// A byte read as a two's complement number.
pub open spec fn signed8(b: u8) -> int {
    if b < 0x80 { b as int } else { b - 0x100 }
}

/// A word read as a two's complement number.
pub open spec fn signed16(w: u16) -> int {
    if w < 0x8000 { w as int } else { w - 0x10000 }
}

/// The mode field of a ModRM byte.
pub open spec fn modrm_mode(b: u8) -> u8 {
    b / 64
}

/// The reg field of a ModRM byte.
pub open spec fn modrm_reg(b: u8) -> u8 {
    (b / 8) % 8
}

/// The rm field of a ModRM byte.
pub open spec fn modrm_rm(b: u8) -> u8 {
    b % 8
}

/// The memory operand that the mode and rm fields select, with the
/// displacement bytes starting at `at`, and the number of those bytes.
pub open spec fn memory_operand(mem: Seq<u8>, at: u16, mode: u8, rm: u8) -> (MemSpec, int) {
    if mode == 0 && rm == 6 {
        (MemSpec { base: EffectiveAddressBase::NoBase, disp: signed16(word_at(mem, at, 0)) as i16, is_direct: true }, 2)
    } else if mode == 0 {
        (MemSpec { base: base_of(rm as int), disp: 0, is_direct: false }, 0)
    } else if mode == 1 {
        (MemSpec { base: base_of(rm as int), disp: signed8(byte_at(mem, at, 0)) as i16, is_direct: false }, 1)
    } else {
        (MemSpec { base: base_of(rm as int), disp: signed16(word_at(mem, at, 0)) as i16, is_direct: false }, 2)
    }
}

/// The register or memory operand that the mode and rm fields select,
/// byte-sized or word-sized, and the number of displacement bytes it takes
/// from `at` on.
pub open spec fn rm_operand(mem: Seq<u8>, at: u16, mode: u8, rm: u8, wide: bool) -> (Operand, int) {
    if mode == 3 {
        (if wide { Operand::Register16(register16_of(rm as int)) } else { Operand::Register8(register8_of(rm as int)) }, 0)
    } else {
        let (m, n) = memory_operand(mem, at, mode, rm);
        (if wide { Operand::Mem16(m) } else { Operand::Mem8(m) }, n)
    }
}

/// The shift or rotate by one that the reg field selects (D0h/D1h).
pub open spec fn shift_op(reg: u8, dst: Operand) -> Op {
    let src = Operand::Imm8(1);
    if reg == 0 {
        Op::Rol { dst, src }
    } else if reg == 1 {
        Op::Ror { dst, src }
    } else if reg == 2 {
        Op::Rcl { dst, src }
    } else if reg == 3 {
        Op::Rcr { dst, src }
    } else if reg == 4 {
        Op::Shl { dst, src }
    } else if reg == 5 {
        Op::Shr { dst, src }
    } else if reg == 6 {
        Op::Invalid
    } else {
        Op::Sar { dst, src }
    }
}

/// The arithmetic operation with an immediate that the reg field selects
/// (80h/83h).
pub open spec fn arith_op(reg: u8, dst: Operand, src: Operand) -> Op {
    if reg == 0 {
        Op::Add { dst, src }
    } else if reg == 1 {
        Op::Or { dst, src }
    } else if reg == 2 {
        Op::Adc { dst, src }
    } else if reg == 3 {
        Op::Sbb { dst, src }
    } else if reg == 4 {
        Op::And { dst, src }
    } else if reg == 5 {
        Op::Sub { dst, src }
    } else if reg == 6 {
        Op::Xor { dst, src }
    } else {
        Op::Cmp { dst, src }
    }
}

/// Whether the opcode is followed by a ModRM byte.
pub open spec fn has_modrm(opcode: u8) -> bool {
    opcode == 0xD0 || opcode == 0xD1 || opcode == 0x30 || opcode == 0x31 || opcode == 0x88
        || opcode == 0x8B || opcode == 0x83 || opcode == 0xFE || opcode == 0x80 || opcode == 0x84
        || opcode == 0x86 || opcode == 0x8A
}

/// The operation of an opcode with a ModRM byte, whose ModRM byte is at
/// `at`, and the number of bytes from `at` on that it takes.
pub open spec fn modrm_operation(mem: Seq<u8>, at: u16, opcode: u8) -> (Op, int) {
    let modrm = byte_at(mem, at, 0);
    let mode = modrm_mode(modrm);
    let reg = modrm_reg(modrm);
    let rm = modrm_rm(modrm);
    let after = add16(at as int, 1);
    let rm8 = rm_operand(mem, after, mode, rm, false);
    let rm16 = rm_operand(mem, after, mode, rm, true);
    if opcode == 0xD0 {
        (shift_op(reg, rm8.0), 1 + rm8.1)
    } else if opcode == 0xD1 {
        (shift_op(reg, rm16.0), 1 + rm16.1)
    } else if opcode == 0x30 {
        (Op::Xor { src: Operand::Register8(register8_of(reg as int)), dst: rm8.0 }, 1 + rm8.1)
    } else if opcode == 0x31 {
        (Op::Xor { src: Operand::Register16(register16_of(reg as int)), dst: rm16.0 }, 1 + rm16.1)
    } else if opcode == 0x88 {
        (Op::Mov { src: Operand::Register8(register8_of(reg as int)), dst: rm8.0 }, 1 + rm8.1)
    } else if opcode == 0x8B {
        (Op::Mov { src: rm16.0, dst: Operand::Register16(register16_of(reg as int)) }, 1 + rm16.1)
    } else if opcode == 0x83 {
        let imm = byte_at(mem, after, rm16.1);
        (arith_op(reg, rm16.0, Operand::Imm16(add16(0, signed8(imm)))), 2 + rm16.1)
    } else if opcode == 0xFE {
        (
            if reg == 0 {
                Op::Inc(rm8.0)
            } else if reg == 1 {
                Op::Dec(rm8.0)
            } else {
                Op::Db(0xFE)
            },
            1 + rm8.1,
        )
    } else if opcode == 0x80 {
        let imm = byte_at(mem, after, rm8.1);
        (arith_op(reg, rm8.0, Operand::Imm8(imm)), 2 + rm8.1)
    } else if opcode == 0x84 {
        (Op::Test { src: Operand::Register8(register8_of(reg as int)), dst: rm8.0 }, 1 + rm8.1)
    } else if opcode == 0x86 {
        (Op::Xchg { src: Operand::Register8(register8_of(reg as int)), dst: rm8.0 }, 1 + rm8.1)
    } else {
        (Op::Mov { src: rm8.0, dst: Operand::Register8(register8_of(reg as int)) }, 1 + rm8.1)
    }
}

/// The operation of `opcode` whose operand bytes start at `at`, and the
/// number of those bytes.
pub open spec fn operation(mem: Seq<u8>, at: u16, opcode: u8) -> (Op, int) {
    if has_modrm(opcode) {
        modrm_operation(mem, at, opcode)
    } else if opcode == 0x06 {
        (Op::PushEs, 0)
    } else if opcode == 0x07 {
        (Op::PopEs, 0)
    } else if opcode == 0x0E {
        (Op::PushCs, 0)
    } else if opcode == 0xE9 {
        (Op::Jmp(Operand::RelAddress(add16(at + 2, signed16(word_at(mem, at, 0))))), 2)
    } else if opcode == 0xAD {
        (Op::Lodsw, 0)
    } else if opcode == 0x1F {
        (Op::PopDs, 0)
    } else if opcode == 0xFC {
        (Op::Cld, 0)
    } else if 0x40 <= opcode <= 0x47 {
        (Op::Inc(Operand::Register16(register16_of(opcode as int))), 0)
    } else if opcode == 0xCD {
        (Op::Int(byte_at(mem, at, 0)), 1)
    } else if opcode == 0x74 {
        (Op::Jz(Operand::RelAddress(add16(at + 1, signed8(byte_at(mem, at, 0))))), 1)
    } else if opcode == 0x75 {
        (Op::Jnz(Operand::RelAddress(add16(at + 1, signed8(byte_at(mem, at, 0))))), 1)
    } else if opcode == 0xEB {
        (Op::Jmp(Operand::RelAddress(add16(at + 1, signed8(byte_at(mem, at, 0))))), 1)
    } else if 0xB0 <= opcode <= 0xB7 {
        (Op::Mov { src: Operand::Imm8(byte_at(mem, at, 0)), dst: Operand::Register8(register8_of(opcode as int)) }, 1)
    } else if 0x50 <= opcode <= 0x57 {
        (Op::PushReg16(register16_of(opcode as int)), 0)
    } else if 0x58 <= opcode <= 0x5F {
        (Op::PopReg16(register16_of(opcode as int)), 0)
    } else if 0xB8 <= opcode <= 0xBF {
        (Op::Mov { src: Operand::Imm16(word_at(mem, at, 0)), dst: Operand::Register16(register16_of(opcode as int)) }, 2)
    } else if opcode == 0x90 {
        (Op::Nop, 0)
    } else if opcode == 0xC3 {
        (Op::Ret, 0)
    } else {
        (Op::Db(opcode), 0)
    }
}

/// The operation encoded at `ip` and its length in bytes.
pub open spec fn decoded(mem: Seq<u8>, ip: u16) -> (Op, int) {
    let (op, n) = operation(mem, add16(ip as int, 1), byte_at(mem, ip, 0));
    (op, 1 + n)
}

/// Sums modulo 2^16 from a fixed start can be regrouped.
proof fn lemma_add16_assoc_from(a: int)
    ensures
        forall|b: int, c: int| #[trigger] add16(add16(a, b) as int, c) == add16(a, b + c),
{
    assert forall|b: int, c: int| #[trigger] add16(add16(a, b) as int, c) == add16(a, b + c) by {
        lemma_add16_assoc(a, b, c);
    }
}

/// Sums modulo 2^16 can be regrouped.
pub proof fn lemma_add16_assoc(a: int, b: int, c: int)
    ensures
        add16(add16(a, b) as int, c) == add16(a, b + c),
{
    assert(add16(a, b) as int == (a + b) % 0x10000);
    assert(((a + b) % 0x10000 + c) % 0x10000 == (a + b + c) % 0x10000) by {
        vstd::arithmetic::div_mod::lemma_add_mod_noop(a + b, c, 0x10000);
        vstd::arithmetic::div_mod::lemma_mod_twice(c, 0x10000);
        vstd::arithmetic::div_mod::lemma_add_mod_noop(a + b, c % 0x10000, 0x10000);
    }
}

impl<'a> Decoder<'a> {
    /// Reads the word at the instruction pointer and moves past it.
    pub fn read_u16(&mut self) -> (r: u16)
        requires
            old(self).cpu.wf(),
        ensures
            final(self).cpu.wf(),
            r == word_at(old(self).cpu.state().memory, old(self).cpu.state().regs.ip, 0),
            final(self).cpu.state() == old(self).cpu.state().jump(add16(old(self).cpu.state().regs.ip as int, 2)),
    {
        let ip = self.cpu.registers.ip();
        let r = self.cpu.read_u16(ip);
        proof {
            assert(add16(ip as int, 0) == ip);
            crate::emulator::lemma_wrapping16(ip, 2);
        }
        self.cpu.registers.step_ip_by(2);
        r
    }

    /// Reads the byte at the instruction pointer and moves past it.
    pub fn read_u8(&mut self) -> (r: u8)
        requires
            old(self).cpu.wf(),
        ensures
            final(self).cpu.wf(),
            r == byte_at(old(self).cpu.state().memory, old(self).cpu.state().regs.ip, 0),
            final(self).cpu.state() == old(self).cpu.state().jump(add16(old(self).cpu.state().regs.ip as int, 1)),
    {
        let ip = self.cpu.registers.ip();
        let r = self.cpu.read_u8(ip);
        proof {
            assert(add16(ip as int, 0) == ip);
            crate::emulator::lemma_wrapping16(ip, 1);
        }
        self.cpu.registers.step_ip();
        r
    }

    /// Reads a signed byte offset and returns the target it designates,
    /// relative to the address after the offset.
    pub fn read_rel8(&mut self) -> (r: u16)
        requires
            old(self).cpu.wf(),
        ensures
            final(self).cpu.wf(),
            r == add16(
                old(self).cpu.state().regs.ip + 1,
                signed8(byte_at(old(self).cpu.state().memory, old(self).cpu.state().regs.ip, 0)),
            ),
            final(self).cpu.state() == old(self).cpu.state().jump(add16(old(self).cpu.state().regs.ip as int, 1)),
    {
        let b = self.read_u8();
        let offset = b as i8;
        let ip = self.cpu.registers.ip();
        proof {
            assert(offset as int == signed8(b)) by (bit_vector)
                requires offset == b as i8;
            assert((ip as i32 + offset as i32) as u16 == add16(ip as int, offset as int)) by (bit_vector);
            lemma_add16_assoc(old(self).cpu.state().regs.ip as int, 1, offset as int);
        }
        (ip as i32 + offset as i32) as u16
    }

    /// Reads a signed word offset and returns the target it designates,
    /// relative to the address after the offset.
    pub fn read_rel16(&mut self) -> (r: u16)
        requires
            old(self).cpu.wf(),
        ensures
            final(self).cpu.wf(),
            r == add16(
                old(self).cpu.state().regs.ip + 2,
                signed16(word_at(old(self).cpu.state().memory, old(self).cpu.state().regs.ip, 0)),
            ),
            final(self).cpu.state() == old(self).cpu.state().jump(add16(old(self).cpu.state().regs.ip as int, 2)),
    {
        let w = self.read_u16();
        let offset = w as i16;
        let ip = self.cpu.registers.ip();
        proof {
            assert(offset as int == signed16(w)) by (bit_vector)
                requires offset == w as i16;
            assert((ip as i32 + offset as i32) as u16 == add16(ip as int, offset as int)) by (bit_vector);
            lemma_add16_assoc(old(self).cpu.state().regs.ip as int, 2, offset as int);
        }
        (ip as i32 + offset as i32) as u16
    }
}

/// The number of displacement bytes that the mode and rm fields select.
fn displacement_len(mode: u8, rm: u8) -> (n: u16)
    requires
        mode < 4,
    ensures
        n == memory_operand(Seq::empty(), 0, mode, rm).1 || (mode == 3 && n == 0),
        mode == 3 ==> n == 0,
{
    if mode == 0 && rm == 6 {
        2
    } else if mode == 0 || mode == 3 {
        0
    } else if mode == 1 {
        1
    } else {
        2
    }
}

/// Whether the instruction at the instruction pointer ends before the top
/// of the 64 KiB address space, so that `decode` can take it.
pub fn can_decode(cpu: &Cpu) -> (r: bool)
    requires
        cpu.wf(),
    ensures
        r == (cpu.state().regs.ip + decoded(cpu.state().memory, cpu.state().regs.ip).1 < 0x10000),
{
    let ghost st = cpu.state();
    let ip = cpu.registers.ip();
    let opcode = cpu.read_u8(ip);
    proof {
        assert(add16(ip as int, 0) == ip);
        crate::emulator::lemma_wrapping16(ip, 1);
    }
    let len: u16 = if is_modrm_opcode(opcode) {
        let modrm = cpu.read_u8(ip.wrapping_add(1));
        let (mode, _reg, rm) = decode_modrm(modrm);
        let n = displacement_len(mode, rm);
        if opcode == 0x80 || opcode == 0x83 {
            3 + n
        } else {
            2 + n
        }
    } else if opcode == 0xE9 || (0xB8 <= opcode && opcode <= 0xBF) {
        3
    } else if opcode == 0xCD || opcode == 0x74 || opcode == 0x75 || opcode == 0xEB
        || (0xB0 <= opcode && opcode <= 0xB7) {
        2
    } else {
        1
    };
    assert(len == decoded(st.memory, st.regs.ip).1);
    (ip as u32) + (len as u32) < 0x10000
}

/// Splits a ModRM byte into its mode, reg and rm fields.
fn decode_modrm(byte: u8) -> (r: (u8, u8, u8))
    ensures
        r == (modrm_mode(byte), modrm_reg(byte), modrm_rm(byte)),
{
    let mode = (byte >> 6) & 3;
    let reg = (byte >> 3) & 7;
    let rm = byte & 7;
    assert((byte >> 6) & 3 == byte / 64) by (bit_vector);
    assert((byte >> 3) & 7 == (byte / 8) % 8) by (bit_vector);
    assert(byte & 7 == byte % 8) by (bit_vector);
    (mode, reg, rm)
}

/// Reads the byte-sized register or memory operand that `mode` and `rm`
/// select, with its displacement.
fn decode_rm8(decoder: &mut Decoder, mode: u8, rm: u8) -> (r: Operand)
    requires
        old(decoder).cpu.wf(),
        mode < 4,
        rm < 8,
    ensures
        final(decoder).cpu.wf(),
        ({
            let ip = old(decoder).cpu.state().regs.ip;
            let (o, n) = rm_operand(old(decoder).cpu.state().memory, ip, mode, rm, false);
            &&& r == o
            &&& final(decoder).cpu.state() == old(decoder).cpu.state().jump(add16(ip as int, n))
        }),
{
    let ghost ip = decoder.cpu.state().regs.ip;
    proof {
        assert(add16(ip as int, 0) == ip);
    }
    if mode == 0 && rm == 6 {
        let addr = decoder.read_u16();
        assert((addr as i16) as int == signed16(addr)) by (bit_vector);
        Operand::Mem8(MemSpec { base: EffectiveAddressBase::NoBase, disp: addr as i16, is_direct: true })
    } else if mode == 0 {
        Operand::Mem8(MemSpec { base: EffectiveAddressBase::from(rm), disp: 0, is_direct: false })
    } else if mode == 1 {
        let b = decoder.read_u8();
        let disp = b as i8;
        assert(((b as i8) as i16) as int == signed8(b)) by (bit_vector);
        Operand::Mem8(MemSpec { base: EffectiveAddressBase::from(rm), disp: disp as i16, is_direct: false })
    } else if mode == 2 {
        let w = decoder.read_u16();
        let disp = w as i16;
        assert((w as i16) as int == signed16(w)) by (bit_vector);
        Operand::Mem8(MemSpec { base: EffectiveAddressBase::from(rm), disp: disp, is_direct: false })
    } else {
        Operand::Register8(Register8::from(rm))
    }
}

/// Reads the word-sized register or memory operand that `mode` and `rm`
/// select, with its displacement.
fn decode_rm16(decoder: &mut Decoder, mode: u8, rm: u8) -> (r: Operand)
    requires
        old(decoder).cpu.wf(),
        mode < 4,
        rm < 8,
    ensures
        final(decoder).cpu.wf(),
        ({
            let ip = old(decoder).cpu.state().regs.ip;
            let (o, n) = rm_operand(old(decoder).cpu.state().memory, ip, mode, rm, true);
            &&& r == o
            &&& final(decoder).cpu.state() == old(decoder).cpu.state().jump(add16(ip as int, n))
        }),
{
    if mode == 3 {
        proof {
            assert(add16(old(decoder).cpu.state().regs.ip as int, 0) == old(decoder).cpu.state().regs.ip);
        }
        Operand::Register16(Register16::from(rm))
    } else {
        match decode_rm8(decoder, mode, rm) {
            Operand::Mem8(m) => Operand::Mem16(m),
            other => other,
        }
    }
}

/// Decodes the operation of an opcode that takes a ModRM byte, reading the
/// ModRM byte and what follows it.
fn decode_modrm_operation(decoder: &mut Decoder, opcode: u8) -> (op: Op)
    requires
        old(decoder).cpu.wf(),
        has_modrm(opcode),
    ensures
        final(decoder).cpu.wf(),
        ({
            let st = old(decoder).cpu.state();
            let (o, n) = modrm_operation(st.memory, st.regs.ip, opcode);
            &&& op == o
            &&& final(decoder).cpu.state() == st.jump(add16(st.regs.ip as int, n))
        }),
{
    if opcode == 0xD0 || opcode == 0xD1 {
        decode_shift(decoder, opcode)
    } else if opcode == 0x80 || opcode == 0x83 || opcode == 0xFE {
        decode_immediate_group(decoder, opcode)
    } else {
        decode_register_form(decoder, opcode)
    }
}

/// Decodes a shift or rotate by one (D0h, D1h).
fn decode_shift(decoder: &mut Decoder, opcode: u8) -> (op: Op)
    requires
        old(decoder).cpu.wf(),
        opcode == 0xD0 || opcode == 0xD1,
    ensures
        final(decoder).cpu.wf(),
        ({
            let st = old(decoder).cpu.state();
            let (o, n) = modrm_operation(st.memory, st.regs.ip, opcode);
            &&& op == o
            &&& final(decoder).cpu.state() == st.jump(add16(st.regs.ip as int, n))
        }),
{
    proof {
        lemma_add16_assoc_from(old(decoder).cpu.state().regs.ip as int);
    }
    match opcode {
        0xD0 => {
            let moderm = decoder.read_u8();
            let (mode, reg, rm) = decode_modrm(moderm);
            let dst = decode_rm8(decoder, mode, rm);
            let src = Operand::Imm8(1);
            match reg {
                0 => Op::Rol { dst, src },
                1 => Op::Ror { dst, src },
                2 => Op::Rcl { dst, src },
                3 => Op::Rcr { dst, src },
                4 => Op::Shl { dst, src },
                5 => Op::Shr { dst, src },
                6 => Op::Invalid,
                _ => Op::Sar { dst, src },
            }
        },
        _ => {
            let modrm = decoder.read_u8();
            let (mode, reg, rm) = decode_modrm(modrm);
            let dst = decode_rm16(decoder, mode, rm);
            let src = Operand::Imm8(1);
            match reg {
                0 => Op::Rol { dst, src },
                1 => Op::Ror { dst, src },
                2 => Op::Rcl { dst, src },
                3 => Op::Rcr { dst, src },
                4 => Op::Shl { dst, src },
                5 => Op::Shr { dst, src },
                6 => Op::Invalid,
                _ => Op::Sar { dst, src },
            }
        },
    }
}

/// Decodes an operation on an r/m operand and an immediate, or an increment or decrement of one (80h, 83h, FEh).
fn decode_immediate_group(decoder: &mut Decoder, opcode: u8) -> (op: Op)
    requires
        old(decoder).cpu.wf(),
        opcode == 0x80 || opcode == 0x83 || opcode == 0xFE,
    ensures
        final(decoder).cpu.wf(),
        ({
            let st = old(decoder).cpu.state();
            let (o, n) = modrm_operation(st.memory, st.regs.ip, opcode);
            &&& op == o
            &&& final(decoder).cpu.state() == st.jump(add16(st.regs.ip as int, n))
        }),
{
    proof {
        lemma_add16_assoc_from(old(decoder).cpu.state().regs.ip as int);
    }
    match opcode {
        0x83 => {
            let modrm = decoder.read_u8();
            let (mode, reg, rm) = decode_modrm(modrm);
            let dst = decode_rm16(decoder, mode, rm);
            let b = decoder.read_u8();
            let imm = b as i8 as i16 as u16;
            assert(b as i8 as i16 as u16 == add16(0, signed8(b))) by (bit_vector);
            let src = Operand::Imm16(imm);
            match reg {
                0 => Op::Add { src, dst },
                1 => Op::Or { src, dst },
                2 => Op::Adc { src, dst },
                3 => Op::Sbb { src, dst },
                4 => Op::And { src, dst },
                5 => Op::Sub { src, dst },
                6 => Op::Xor { src, dst },
                _ => Op::Cmp { src, dst },
            }
        },
        0xFE => {
            let moderm = decoder.read_u8();
            let (mode, reg, rm) = decode_modrm(moderm);
            let operand = decode_rm8(decoder, mode, rm);
            match reg {
                0 => Op::Inc(operand),
                1 => Op::Dec(operand),
                _ => Op::Db(0xFE),
            }
        },
        _ => {
            let moderm = decoder.read_u8();
            let (mode, reg, rm) = decode_modrm(moderm);
            let dst = decode_rm8(decoder, mode, rm);
            let imm = decoder.read_u8();
            let src = Operand::Imm8(imm);
            match reg {
                0 => Op::Add { dst, src },
                1 => Op::Or { dst, src },
                2 => Op::Adc { dst, src },
                3 => Op::Sbb { dst, src },
                4 => Op::And { dst, src },
                5 => Op::Sub { dst, src },
                6 => Op::Xor { dst, src },
                _ => Op::Cmp { dst, src },
            }
        },
    }
}

/// Decodes an operation between a register and an r/m operand (30h, 31h, 84h, 86h, 88h, 8Ah, 8Bh).
fn decode_register_form(decoder: &mut Decoder, opcode: u8) -> (op: Op)
    requires
        old(decoder).cpu.wf(),
        opcode == 0x30 || opcode == 0x31 || opcode == 0x84 || opcode == 0x86 || opcode == 0x88 || opcode == 0x8A || opcode == 0x8B,
    ensures
        final(decoder).cpu.wf(),
        ({
            let st = old(decoder).cpu.state();
            let (o, n) = modrm_operation(st.memory, st.regs.ip, opcode);
            &&& op == o
            &&& final(decoder).cpu.state() == st.jump(add16(st.regs.ip as int, n))
        }),
{
    proof {
        lemma_add16_assoc_from(old(decoder).cpu.state().regs.ip as int);
    }
    match opcode {
        0x30 => {
            let moderm = decoder.read_u8();
            let (mode, reg, rm) = decode_modrm(moderm);
            let src = Register8::from(reg);
            let dst = decode_rm8(decoder, mode, rm);
            Op::Xor { src: Operand::Register8(src), dst }
        },
        0x31 => {
            let moderm = decoder.read_u8();
            let (mode, reg, rm) = decode_modrm(moderm);
            let src = Register16::from(reg);
            let dst = decode_rm16(decoder, mode, rm);
            Op::Xor { src: Operand::Register16(src), dst }
        },
        0x88 => {
            let moderm = decoder.read_u8();
            let (mode, reg, rm) = decode_modrm(moderm);
            let src = Register8::from(reg);
            let dst = decode_rm8(decoder, mode, rm);
            Op::Mov { src: Operand::Register8(src), dst }
        },
        0x8B => {
            let modrm = decoder.read_u8();
            let (mode, reg, rm) = decode_modrm(modrm);
            let dst = Operand::Register16(Register16::from(reg));
            let src = decode_rm16(decoder, mode, rm);
            Op::Mov { src, dst }
        },
        0x84 => {
            let modrm = decoder.read_u8();
            let (mode, reg, rm) = decode_modrm(modrm);
            let src = Register8::from(reg).into();
            let dst = decode_rm8(decoder, mode, rm);
            Op::Test { src, dst }
        },
        0x86 => {
            let modrm = decoder.read_u8();
            let (mode, reg, rm) = decode_modrm(modrm);
            let src = Register8::from(reg).into();
            let dst = decode_rm8(decoder, mode, rm);
            Op::Xchg { src, dst }
        },
        _ => {
            let modrm = decoder.read_u8();
            let (mode, reg, rm) = decode_modrm(modrm);
            let dst = Operand::Register8(Register8::from(reg));
            let src = decode_rm8(decoder, mode, rm);
            Op::Mov { src, dst }
        },
    }
}

/// Decodes the instruction at the instruction pointer and moves the
/// instruction pointer past it. The instruction must end before the top of
/// the 64 KiB address space.
pub fn decode(decoder: &mut Decoder) -> (ins: Instruction)
    requires
        old(decoder).cpu.wf(),
        old(decoder).cpu.state().regs.ip + decoded(old(decoder).cpu.state().memory, old(decoder).cpu.state().regs.ip).1 < 0x10000,
    ensures
        final(decoder).cpu.wf(),
        ({
            let st = old(decoder).cpu.state();
            let (op, len) = decoded(st.memory, st.regs.ip);
            &&& ins.address == st.regs.ip
            &&& ins.op == op
            &&& ins.size == len
            &&& final(decoder).cpu.state() == st.jump((st.regs.ip + len) as u16)
        }),
{
    let ghost st = decoder.cpu.state();
    let address = decoder.cpu.registers.ip();
    let opcode = decoder.read_u8();
    let ghost at = decoder.cpu.state().regs.ip;
    let op: Op = if is_modrm_opcode(opcode) {
        decode_modrm_operation(decoder, opcode)
    } else {
        decode_plain_operation(decoder, opcode)
    };
    proof {
        let n = operation(st.memory, at, opcode).1;
        lemma_add16_assoc(address as int, 1, n);
    }
    Instruction { address, size: (decoder.cpu.registers.ip() - address) as u8, op }
}

/// Whether the opcode takes a ModRM byte.
fn is_modrm_opcode(opcode: u8) -> (r: bool)
    ensures
        r == has_modrm(opcode),
{
    match opcode {
        0xD0 | 0xD1 | 0x30 | 0x31 | 0x88 | 0x8B | 0x83 | 0xFE | 0x80 | 0x84 | 0x86 | 0x8A => true,
        _ => false,
    }
}

/// Decodes the operation of an opcode without a ModRM byte, reading its
/// immediate or offset if it has one.
fn decode_plain_operation(decoder: &mut Decoder, opcode: u8) -> (op: Op)
    requires
        old(decoder).cpu.wf(),
        !has_modrm(opcode),
    ensures
        final(decoder).cpu.wf(),
        ({
            let st = old(decoder).cpu.state();
            let (o, n) = operation(st.memory, st.regs.ip, opcode);
            &&& op == o
            &&& final(decoder).cpu.state() == st.jump(add16(st.regs.ip as int, n))
        }),
{
    proof {
        assert(add16(old(decoder).cpu.state().regs.ip as int, 0) == old(decoder).cpu.state().regs.ip);
    }
    match opcode {
        0x06 => Op::PushEs,
        0x07 => Op::PopEs,
        0x0E => Op::PushCs,
        0xE9 => Op::Jmp(Operand::RelAddress(decoder.read_rel16())),
        0xAD => Op::Lodsw,
        0x1F => Op::PopDs,
        0xFC => Op::Cld,
        0x40..=0x47 => Op::Inc(Operand::Register16(Register16::from(opcode))),
        0xCD => {
            let num = decoder.read_u8();
            Op::Int(num)
        },
        0x74 => Op::Jz(Operand::RelAddress(decoder.read_rel8())),
        0x75 => Op::Jnz(Operand::RelAddress(decoder.read_rel8())),
        0xEB => Op::Jmp(Operand::RelAddress(decoder.read_rel8())),
        0xB0..=0xB7 => {
            let value = decoder.read_u8();
            Op::Mov { src: Operand::Imm8(value), dst: Operand::Register8(Register8::from(opcode)) }
        },
        0x50..=0x57 => Op::PushReg16(Register16::from(opcode)),
        0x58..=0x5F => Op::PopReg16(Register16::from(opcode)),
        0xB8..=0xBF => {
            let value = decoder.read_u16();
            Op::Mov { src: Operand::Imm16(value), dst: Operand::Register16(Register16::from(opcode)) }
        },
        0x90 => Op::Nop,
        0xC3 => Op::Ret,
        _ => Op::Db(opcode),

    }
}

} // verus!

verus! {

/// Every instruction takes between one and five bytes.
pub proof fn law_decoded_length(mem: Seq<u8>, ip: u16)
    ensures
        1 <= decoded(mem, ip).1 <= 5,
{
}

/// The bytes at `at` and the next four, each with the byte after it.
pub open spec fn agree_on_window(m1: Seq<u8>, m2: Seq<u8>, at: u16) -> bool {
    forall|k: int|
        0 <= k < 5 ==> #[trigger] m1[add16(at as int, k) as int] == m2[add16(at as int, k) as int]
            && m1[add16(at as int, k) + 1] == m2[add16(at as int, k) + 1]
}

/// Decoding reads nothing but the bytes of the instruction: two memories
/// that agree on the five bytes from `ip` on decode the same instruction.
#[verifier::spinoff_prover]
#[verifier::rlimit(60)]
pub proof fn law_decoding_is_local(m1: Seq<u8>, m2: Seq<u8>, ip: u16)
    requires
        agree_on_window(m1, m2, ip),
    ensures
        decoded(m1, ip) == decoded(m2, ip),
{
    lemma_add16_assoc_from(ip as int);
    assert forall|j: int, k: int| 0 <= j && 0 <= k && j + k < 5 implies
        #[trigger] m1[add16(add16(ip as int, j) as int, k) as int] == m2[add16(add16(ip as int, j) as int, k) as int]
            && m1[add16(add16(ip as int, j) as int, k) + 1] == m2[add16(add16(ip as int, j) as int, k) + 1] by {
        assert(m1[add16(ip as int, j + k) as int] == m2[add16(ip as int, j + k) as int]);
    }
}

} // verus!

verus! {

/// The little-endian word whose low byte is at `a` (not wrapping) as a
/// two's complement number.
pub open spec fn signed_word(mem: Seq<u8>, a: int) -> int {
    let w = mem[a] + mem[a + 1] * 256;
    if w < 0x8000 { w } else { w - 0x10000 }
}

/// The byte at `a` as a two's complement number.
pub open spec fn signed_byte(mem: Seq<u8>, a: int) -> int {
    if mem[a] < 0x80 { mem[a] as int } else { mem[a] - 0x100 }
}

/// How the mode and rm fields of a ModRM byte `m` select an operand, with
/// the displacement bytes from `at` on: mode 3 names the register in the rm
/// field; mode 0 with rm 6 is a direct 16-bit address; otherwise the base
/// that rm names plus no displacement (mode 0), a signed byte (mode 1) or a
/// signed word (mode 2).
#[verifier::spinoff_prover]
#[verifier::rlimit(60)]
pub proof fn law_rm_operand(mem: Seq<u8>, at: u16, m: u8, wide: bool)
    requires
        at as int + 2 < 0x10000,
    ensures
        ({
            let mode = m / 64;
            let rm = m % 8;
            let (o, n) = rm_operand(mem, at, modrm_mode(m), modrm_rm(m), wide);
            &&& m >= 0xC0 && wide ==> o == Operand::Register16(register16_of(rm as int)) && n == 0
            &&& m >= 0xC0 && !wide ==> o == Operand::Register8(register8_of(rm as int)) && n == 0
            &&& m < 0xC0 ==> (wide <==> o is Mem16) && (!wide <==> o is Mem8)
            &&& m < 0xC0 ==> ({
                let ms = if wide { o->Mem16_0 } else { o->Mem8_0 };
                &&& mode == 0 && rm == 6 ==> ms.is_direct && ms.base == EffectiveAddressBase::NoBase
                    && ms.disp == signed_word(mem, at as int) && n == 2
                &&& mode == 0 && rm != 6 ==> !ms.is_direct && ms.base == base_of(rm as int) && ms.disp == 0 && n == 0
                &&& mode == 1 ==> !ms.is_direct && ms.base == base_of(rm as int) && ms.disp == signed_byte(mem, at as int) && n == 1
                &&& mode == 2 ==> !ms.is_direct && ms.base == base_of(rm as int) && ms.disp == signed_word(mem, at as int) && n == 2
            })
        }),
{
    assert(add16(at as int, 0) == at);
}

/// The opcodes with a register operand in the reg field of the ModRM byte:
/// which operand is the source and which the destination. 30h `xor r/m8,r8`,
/// 31h `xor r/m16,r16`, 84h `test r/m8,r8`, 86h `xchg r/m8,r8`, 88h
/// `mov r/m8,r8`, 8Ah `mov r8,r/m8`, 8Bh `mov r16,r/m16`. The instruction is
/// the opcode, the ModRM byte and the displacement.
#[verifier::spinoff_prover]
#[verifier::rlimit(60)]
pub proof fn law_register_forms(mem: Seq<u8>, ip: u16)
    requires
        ip as int + 5 < 0x10000,
    ensures
        ({
            let opcode = mem[ip as int];
            let m = mem[ip + 1];
            let reg8 = Operand::Register8(register8_of(((m / 8) % 8) as int));
            let reg16 = Operand::Register16(register16_of(((m / 8) % 8) as int));
            let rm8 = rm_operand(mem, (ip + 2) as u16, m / 64, m % 8, false);
            let rm16 = rm_operand(mem, (ip + 2) as u16, m / 64, m % 8, true);
            let (op, len) = decoded(mem, ip);
            &&& opcode == 0x30 ==> op == Op::Xor { src: reg8, dst: rm8.0 } && len == 2 + rm8.1
            &&& opcode == 0x31 ==> op == Op::Xor { src: reg16, dst: rm16.0 } && len == 2 + rm16.1
            &&& opcode == 0x84 ==> op == Op::Test { src: reg8, dst: rm8.0 } && len == 2 + rm8.1
            &&& opcode == 0x86 ==> op == Op::Xchg { src: reg8, dst: rm8.0 } && len == 2 + rm8.1
            &&& opcode == 0x88 ==> op == Op::Mov { src: reg8, dst: rm8.0 } && len == 2 + rm8.1
            &&& opcode == 0x8A ==> op == Op::Mov { src: rm8.0, dst: reg8 } && len == 2 + rm8.1
            &&& opcode == 0x8B ==> op == Op::Mov { src: rm16.0, dst: reg16 } && len == 2 + rm16.1
        }),
{
    assert(add16(ip as int, 0) == ip);
    assert(add16(ip as int, 1) == ip + 1);
    assert(add16((ip + 1) as int, 1) == ip + 2);
    assert(add16(ip as int, 1) as int == ip + 1);
}

/// The opcodes whose reg field selects the operation: 80h (byte operand,
/// byte immediate) and 83h (word operand, sign-extended byte immediate)
/// select add, or, adc, sbb, and, sub, xor, cmp; FEh selects inc, dec; D0h
/// (byte) and D1h (word) select rol, ror, rcl, rcr, shl, shr, an invalid
/// encoding, sar, each by one. The r/m operand is the destination.
#[verifier::spinoff_prover]
#[verifier::rlimit(60)]
pub proof fn law_operation_groups(mem: Seq<u8>, ip: u16)
    requires
        ip as int + 5 < 0x10000,
    ensures
        ({
            let opcode = mem[ip as int];
            let m = mem[ip + 1];
            let reg = (m / 8) % 8;
            let rm8 = rm_operand(mem, (ip + 2) as u16, m / 64, m % 8, false);
            let rm16 = rm_operand(mem, (ip + 2) as u16, m / 64, m % 8, true);
            let imm8 = mem[ip + 2 + rm8.1];
            let imm16 = mem[ip + 2 + rm16.1];
            let sext = if imm16 < 0x80 { imm16 as u16 } else { (imm16 + 0xFF00) as u16 };
            let (op, len) = decoded(mem, ip);
            let one = Operand::Imm8(1);
            &&& opcode == 0x80 ==> len == 3 + rm8.1 && ({
                let (d, s) = (rm8.0, Operand::Imm8(imm8));
                &&& reg == 0 ==> op == Op::Add { dst: d, src: s }
                &&& reg == 1 ==> op == Op::Or { dst: d, src: s }
                &&& reg == 2 ==> op == Op::Adc { dst: d, src: s }
                &&& reg == 3 ==> op == Op::Sbb { dst: d, src: s }
                &&& reg == 4 ==> op == Op::And { dst: d, src: s }
                &&& reg == 5 ==> op == Op::Sub { dst: d, src: s }
                &&& reg == 6 ==> op == Op::Xor { dst: d, src: s }
                &&& reg == 7 ==> op == Op::Cmp { dst: d, src: s }
            })
            &&& opcode == 0x83 ==> len == 3 + rm16.1 && ({
                let (d, s) = (rm16.0, Operand::Imm16(sext));
                &&& reg == 0 ==> op == Op::Add { dst: d, src: s }
                &&& reg == 1 ==> op == Op::Or { dst: d, src: s }
                &&& reg == 2 ==> op == Op::Adc { dst: d, src: s }
                &&& reg == 3 ==> op == Op::Sbb { dst: d, src: s }
                &&& reg == 4 ==> op == Op::And { dst: d, src: s }
                &&& reg == 5 ==> op == Op::Sub { dst: d, src: s }
                &&& reg == 6 ==> op == Op::Xor { dst: d, src: s }
                &&& reg == 7 ==> op == Op::Cmp { dst: d, src: s }
            })
            &&& opcode == 0xFE ==> len == 2 + rm8.1 && ({
                &&& reg == 0 ==> op == Op::Inc(rm8.0)
                &&& reg == 1 ==> op == Op::Dec(rm8.0)
                &&& reg >= 2 ==> op == Op::Db(0xFE)
            })
            &&& (opcode == 0xD0 || opcode == 0xD1) ==> ({
                let d = if opcode == 0xD0 { rm8.0 } else { rm16.0 };
                &&& len == 2 + (if opcode == 0xD0 { rm8.1 } else { rm16.1 })
                &&& reg == 0 ==> op == Op::Rol { dst: d, src: one }
                &&& reg == 1 ==> op == Op::Ror { dst: d, src: one }
                &&& reg == 2 ==> op == Op::Rcl { dst: d, src: one }
                &&& reg == 3 ==> op == Op::Rcr { dst: d, src: one }
                &&& reg == 4 ==> op == Op::Shl { dst: d, src: one }
                &&& reg == 5 ==> op == Op::Shr { dst: d, src: one }
                &&& reg == 6 ==> op == Op::Invalid
                &&& reg == 7 ==> op == Op::Sar { dst: d, src: one }
            })
        }),
{
    assert(add16(ip as int, 0) == ip);
    assert(add16(ip as int, 1) == ip + 1);
    assert(add16((ip + 1) as int, 1) == ip + 2);
    let m = mem[ip + 1];
    let rm8 = rm_operand(mem, (ip + 2) as u16, m / 64, m % 8, false);
    let rm16 = rm_operand(mem, (ip + 2) as u16, m / 64, m % 8, true);
    assert(0 <= rm8.1 <= 2 && 0 <= rm16.1 <= 2);
    assert(add16((ip + 2) as int, rm8.1) == ip + 2 + rm8.1);
    assert(add16((ip + 2) as int, rm16.1) == ip + 2 + rm16.1);
}

} // verus!

verus! {

/// The opcodes without a ModRM byte: 40h–47h `inc r16`, 50h–57h `push r16`,
/// 58h–5Fh `pop r16` and B8h–BFh `mov r16,imm16` with the register in the
/// low three bits; B0h–B7h `mov r8,imm8`; 74h `jz`, 75h `jnz`, EBh `jmp` with
/// a signed byte offset and E9h `jmp` with a signed word offset, both from
/// the end of the instruction; CDh `int imm8`; the single-byte operations;
/// every other byte is data.
#[verifier::spinoff_prover]
#[verifier::rlimit(60)]
pub proof fn law_plain_opcodes(mem: Seq<u8>, ip: u16)
    requires
        ip as int + 5 < 0x10000,
    ensures
        ({
            let opcode = mem[ip as int];
            let b = mem[ip + 1];
            let w = (mem[ip + 1] + mem[ip + 2] * 256) as u16;
            let r16 = register16_of((opcode % 8) as int);
            let r8 = register8_of((opcode % 8) as int);
            let (op, len) = decoded(mem, ip);
            &&& 0x40 <= opcode <= 0x47 ==> op == Op::Inc(Operand::Register16(r16)) && len == 1
            &&& 0x50 <= opcode <= 0x57 ==> op == Op::PushReg16(r16) && len == 1
            &&& 0x58 <= opcode <= 0x5F ==> op == Op::PopReg16(r16) && len == 1
            &&& 0xB8 <= opcode <= 0xBF ==> op == Op::Mov { src: Operand::Imm16(w), dst: Operand::Register16(r16) } && len == 3
            &&& 0xB0 <= opcode <= 0xB7 ==> op == Op::Mov { src: Operand::Imm8(b), dst: Operand::Register8(r8) } && len == 2
            &&& opcode == 0x74 ==> op == Op::Jz(Operand::RelAddress(((ip + 2 + signed_byte(mem, ip + 1)) % 0x10000) as u16)) && len == 2
            &&& opcode == 0x75 ==> op == Op::Jnz(Operand::RelAddress(((ip + 2 + signed_byte(mem, ip + 1)) % 0x10000) as u16)) && len == 2
            &&& opcode == 0xEB ==> op == Op::Jmp(Operand::RelAddress(((ip + 2 + signed_byte(mem, ip + 1)) % 0x10000) as u16)) && len == 2
            &&& opcode == 0xE9 ==> op == Op::Jmp(Operand::RelAddress(((ip + 3 + signed_word(mem, ip + 1)) % 0x10000) as u16)) && len == 3
            &&& opcode == 0xCD ==> op == Op::Int(b) && len == 2
            &&& opcode == 0x90 ==> op == Op::Nop && len == 1
            &&& opcode == 0xC3 ==> op == Op::Ret && len == 1
            &&& opcode == 0x06 ==> op == Op::PushEs && len == 1
            &&& opcode == 0x07 ==> op == Op::PopEs && len == 1
            &&& opcode == 0x0E ==> op == Op::PushCs && len == 1
            &&& opcode == 0x1F ==> op == Op::PopDs && len == 1
            &&& opcode == 0xFC ==> op == Op::Cld && len == 1
            &&& opcode == 0xAD ==> op == Op::Lodsw && len == 1
            &&& !has_modrm(opcode) && !(0x40 <= opcode <= 0x5F) && !(0xB0 <= opcode <= 0xBF) && opcode != 0x74
                && opcode != 0x75 && opcode != 0xEB && opcode != 0xE9 && opcode != 0xCD && opcode != 0x90
                && opcode != 0xC3 && opcode != 0x06 && opcode != 0x07 && opcode != 0x0E && opcode != 0x1F
                && opcode != 0xFC && opcode != 0xAD ==> op == Op::Db(opcode) && len == 1
        }),
{
    assert(add16(ip as int, 0) == ip);
    assert(add16(ip as int, 1) == ip + 1);
    assert(add16((ip + 1) as int, 0) == ip + 1);
}

} // verus!
