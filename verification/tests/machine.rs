use loader::bios::Bios;
use loader::decoder::{can_decode, decode, Decoder};
use loader::dos::Dos;
use loader::emulator::{cp437_to_unicode, Cpu, Flags, VideoCard};
use loader::isa::{EffectiveAddressBase, MemSpec, Op, Operand, Register16, Register8};

fn machine() -> Cpu {
    Cpu::new(VideoCard::new(80, 25))
}

fn load(cpu: &mut Cpu, at: usize, bytes: &[u8]) {
    cpu.memory[at..at + bytes.len()].copy_from_slice(bytes);
}

#[test]
fn new_machine_starts_like_a_com_program() {
    let cpu = machine();
    assert_eq!(cpu.registers.ip(), 0x100);
    assert_eq!(cpu.registers.read16(Register16::Sp), 0xFFFE);
    assert_eq!(cpu.registers.read16(Register16::Ax), 0);
    assert_eq!(cpu.memory.len(), 0x100000);
    assert!(!cpu.flags.zero);
    assert_eq!(cpu.screen.width, 80);
    assert_eq!(cpu.screen.data.len(), 2000);
}

#[test]
fn words_are_little_endian() {
    let mut cpu = machine();
    cpu.write_u16(0x200, 0x1234);
    assert_eq!(cpu.read_u8(0x200), 0x34);
    assert_eq!(cpu.read_u8(0x201), 0x12);
    assert_eq!(cpu.read_u16(0x200), 0x1234);
    cpu.write_u8(0x201, 0xAB);
    assert_eq!(cpu.read_u16(0x200), 0xAB34);
    cpu.write_u16(0xFFFF, 0x5678);
    assert_eq!(cpu.read_u16(0xFFFF), 0x5678);
    assert_eq!(cpu.memory[0x10000], 0x56);
}

#[test]
fn operands_read_and_write() {
    let mut cpu = machine();
    cpu.registers.write16(Register16::Bx, 0x300);
    cpu.registers.write16(Register16::Si, 0x10);
    let m = MemSpec { base: EffectiveAddressBase::BxSi, disp: -2, is_direct: false };
    cpu.set_operand_value(&Operand::Mem16(m), 0xCAFE);
    assert_eq!(cpu.read_u16(0x30E), 0xCAFE);
    assert_eq!(cpu.get_operand_value(&Operand::Mem16(m)), 0xCAFE);
    assert_eq!(cpu.get_operand_value(&Operand::Mem8(m)), 0xFE);
    let direct = MemSpec { base: EffectiveAddressBase::NoBase, disp: 0x30E, is_direct: true };
    assert_eq!(cpu.get_operand_value(&Operand::Mem16(direct)), 0xCAFE);
    cpu.set_operand_value(&Operand::Register8(Register8::Bh), 0x1FF);
    assert_eq!(cpu.registers.read16(Register16::Bx), 0xFF00);
    assert_eq!(cpu.get_operand_value(&Operand::Imm8(5)), 5);
    assert_eq!(cpu.get_operand_value(&Operand::RelAddress(0x1234)), 0x1234);
}

#[test]
fn effective_address_wraps_at_64k() {
    let mut cpu = machine();
    cpu.registers.write16(Register16::Bp, 0xFFFF);
    cpu.registers.write16(Register16::Di, 0x0003);
    let m = MemSpec { base: EffectiveAddressBase::BpDi, disp: 0, is_direct: false };
    cpu.write_u8(0x0002, 0x77);
    assert_eq!(cpu.get_operand_value(&Operand::Mem8(m)), 0x77);
}

fn decode_at(cpu: &mut Cpu, ip: u16) -> loader::decoder::Instruction {
    cpu.registers.set_ip(ip);
    assert!(can_decode(cpu));
    let mut d = Decoder { cpu };
    decode(&mut d)
}

#[test]
fn decodes_immediate_moves_and_interrupts() {
    let mut cpu = machine();
    load(&mut cpu, 0x100, &[0xB4, 0x09, 0xBA, 0x10, 0x01, 0xCD, 0x21, 0x90, 0xC3]);
    let i = decode_at(&mut cpu, 0x100);
    assert_eq!(i.op, Op::Mov { src: Operand::Imm8(9), dst: Operand::Register8(Register8::Ah) });
    assert_eq!((i.address, i.size), (0x100, 2));
    let i = decode_at(&mut cpu, 0x102);
    assert_eq!(i.op, Op::Mov { src: Operand::Imm16(0x0110), dst: Operand::Register16(Register16::Dx) });
    assert_eq!(i.size, 3);
    assert_eq!(cpu.registers.ip(), 0x105);
    let i = decode_at(&mut cpu, 0x105);
    assert_eq!(i.op, Op::Int(0x21));
    assert_eq!(decode_at(&mut cpu, 0x107).op, Op::Nop);
    assert_eq!(decode_at(&mut cpu, 0x108).op, Op::Ret);
}

#[test]
fn decodes_relative_jumps() {
    let mut cpu = machine();
    load(&mut cpu, 0x200, &[0x74, 0xFE, 0x75, 0x05, 0xEB, 0x80, 0xE9, 0xFD, 0xFF]);
    assert_eq!(decode_at(&mut cpu, 0x200).op, Op::Jz(Operand::RelAddress(0x200)));
    assert_eq!(decode_at(&mut cpu, 0x202).op, Op::Jnz(Operand::RelAddress(0x209)));
    assert_eq!(decode_at(&mut cpu, 0x204).op, Op::Jmp(Operand::RelAddress(0x186)));
    let i = decode_at(&mut cpu, 0x206);
    assert_eq!(i.op, Op::Jmp(Operand::RelAddress(0x206)));
    assert_eq!(i.size, 3);
}

#[test]
fn decodes_modrm_forms() {
    let mut cpu = machine();
    // mov cx, [bp+di-3] ; xor ax, ax ; add byte [0x1234], 7 ; cmp word [si], -1 ; shl bl, 1
    load(&mut cpu, 0x300, &[
        0x8B, 0x4B, 0xFD, 0x31, 0xC0, 0x80, 0x06, 0x34, 0x12, 0x07, 0x83, 0x3C, 0xFF, 0xD0, 0xE3,
    ]);
    let i = decode_at(&mut cpu, 0x300);
    assert_eq!(
        i.op,
        Op::Mov {
            src: Operand::Mem16(MemSpec { base: EffectiveAddressBase::BpDi, disp: -3, is_direct: false }),
            dst: Operand::Register16(Register16::Cx),
        }
    );
    assert_eq!(i.size, 3);
    let i = decode_at(&mut cpu, 0x303);
    assert_eq!(i.op, Op::Xor { src: Operand::Register16(Register16::Ax), dst: Operand::Register16(Register16::Ax) });
    let i = decode_at(&mut cpu, 0x305);
    assert_eq!(
        i.op,
        Op::Add {
            src: Operand::Imm8(7),
            dst: Operand::Mem8(MemSpec { base: EffectiveAddressBase::NoBase, disp: 0x1234, is_direct: true }),
        }
    );
    assert_eq!(i.size, 5);
    let i = decode_at(&mut cpu, 0x30A);
    assert_eq!(
        i.op,
        Op::Cmp {
            src: Operand::Imm16(0xFFFF),
            dst: Operand::Mem16(MemSpec { base: EffectiveAddressBase::Si, disp: 0, is_direct: false }),
        }
    );
    assert_eq!(i.size, 3);
    let i = decode_at(&mut cpu, 0x30D);
    assert_eq!(i.op, Op::Shl { src: Operand::Imm8(1), dst: Operand::Register8(Register8::Bl) });
}

#[test]
fn decodes_unknown_bytes_as_data() {
    let mut cpu = machine();
    load(&mut cpu, 0x100, &[0xF4, 0xFE, 0x10, 0xD0, 0xF0]);
    assert_eq!(decode_at(&mut cpu, 0x100).op, Op::Db(0xF4));
    let i = decode_at(&mut cpu, 0x101);
    assert_eq!(i.op, Op::Db(0xFE));
    assert_eq!(i.size, 2);
    assert_eq!(decode_at(&mut cpu, 0x103).op, Op::Invalid);
}

#[test]
fn decoder_reads_advance_the_instruction_pointer() {
    let mut cpu = machine();
    load(&mut cpu, 0x100, &[0x34, 0x12, 0xFC, 0x00, 0x10]);
    let mut d = Decoder { cpu: &mut cpu };
    assert_eq!(d.read_u16(), 0x1234);
    assert_eq!(d.read_rel8(), 0x00FF);
    assert_eq!(d.read_rel16(), 0x1105);
    d.cpu.registers.set_ip(0xFFFF);
    let _ = d.read_u8();
    assert_eq!(d.cpu.registers.ip(), 0);
}

#[test]
fn decode_refuses_only_instructions_that_run_past_the_segment() {
    let mut cpu = machine();
    cpu.registers.set_ip(0xFFFE);
    cpu.write_u8(0xFFFE, 0x90);
    assert!(can_decode(&cpu));
    cpu.write_u8(0xFFFE, 0xB8);
    assert!(!can_decode(&cpu));
}

fn run(cpu: &mut Cpu, op: Op) -> bool {
    assert!(cpu.can_execute(&op));
    cpu.execute(op)
}

#[test]
fn push_pop_call_ret() {
    let mut cpu = machine();
    cpu.registers.write16(Register16::Ax, 0x1111);
    assert!(run(&mut cpu, Op::PushReg16(Register16::Ax)));
    assert_eq!(cpu.registers.read16(Register16::Sp), 0xFFFC);
    assert_eq!(cpu.read_u16(0xFFFC), 0x1111);
    assert!(run(&mut cpu, Op::PopReg16(Register16::Bx)));
    assert_eq!(cpu.registers.read16(Register16::Bx), 0x1111);
    assert_eq!(cpu.registers.read16(Register16::Sp), 0xFFFE);

    cpu.registers.set_ip(0x123);
    assert!(run(&mut cpu, Op::Call { target: Operand::RelAddress(0x400) }));
    assert_eq!(cpu.registers.ip(), 0x400);
    assert!(run(&mut cpu, Op::Ret));
    assert_eq!(cpu.registers.ip(), 0x123);
    assert_eq!(cpu.registers.read16(Register16::Sp), 0xFFFE);

    assert!(run(&mut cpu, Op::PushCs));
    assert_eq!(cpu.read_u16(0xFFFC), 0);
    assert!(run(&mut cpu, Op::PopDs));
    assert_eq!(cpu.registers.read16(Register16::Sp), 0xFFFE);
}

#[test]
fn push_sp_stores_the_decremented_pointer() {
    let mut cpu = machine();
    assert!(run(&mut cpu, Op::PushReg16(Register16::Sp)));
    assert_eq!(cpu.read_u16(0xFFFC), 0xFFFC);
}

#[test]
fn arithmetic_and_flags() {
    let mut cpu = machine();
    let ax = Operand::Register16(Register16::Ax);
    let al = Operand::Register8(Register8::Al);
    assert!(run(&mut cpu, Op::Mov { src: Operand::Imm16(0xFFFF), dst: ax }));
    assert!(run(&mut cpu, Op::Add { src: Operand::Imm16(1), dst: ax }));
    assert_eq!(cpu.registers.read16(Register16::Ax), 0);
    assert!(cpu.flags.zero);
    assert!(run(&mut cpu, Op::Dec(ax)));
    assert_eq!(cpu.registers.read16(Register16::Ax), 0xFFFF);
    assert!(run(&mut cpu, Op::Inc(al)));
    assert_eq!(cpu.registers.read16(Register16::Ax), 0xFF00);
    assert!(run(&mut cpu, Op::Cmp { src: Operand::Imm16(0xFF00), dst: ax }));
    assert!(cpu.flags.zero);
    assert!(run(&mut cpu, Op::Test { src: Operand::Imm16(0x00FF), dst: ax }));
    assert!(cpu.flags.zero);
    assert!(run(&mut cpu, Op::Xor { src: Operand::Imm16(0x0F0F), dst: ax }));
    assert_eq!(cpu.registers.read16(Register16::Ax), 0xF00F);
    assert!(!cpu.flags.zero);
    assert!(run(&mut cpu, Op::Shl { src: Operand::Imm8(4), dst: ax }));
    assert_eq!(cpu.registers.read16(Register16::Ax), 0x00F0);
    assert!(run(&mut cpu, Op::Shr { src: Operand::Imm8(20), dst: ax }));
    assert_eq!(cpu.registers.read16(Register16::Ax), 0x000F);
    assert!(run(&mut cpu, Op::Xor { src: ax, dst: ax }));
    assert_eq!(cpu.registers.read16(Register16::Ax), 0);
    assert!(cpu.flags.zero);
}

#[test]
fn exchange_and_string_load() {
    let mut cpu = machine();
    cpu.registers.write16(Register16::Ax, 1);
    cpu.registers.write16(Register16::Cx, 2);
    let xchg = Op::Xchg { src: Operand::Register16(Register16::Ax), dst: Operand::Register16(Register16::Cx) };
    assert!(run(&mut cpu, xchg));
    assert_eq!((cpu.registers.read16(Register16::Ax), cpu.registers.read16(Register16::Cx)), (2, 1));
    assert!(run(&mut cpu, xchg));
    assert_eq!((cpu.registers.read16(Register16::Ax), cpu.registers.read16(Register16::Cx)), (1, 2));

    cpu.write_u16(0x500, 0xABCD);
    cpu.registers.write16(Register16::Si, 0x500);
    assert!(run(&mut cpu, Op::Lodsw));
    assert_eq!(cpu.registers.read16(Register16::Ax), 0xABCD);
    assert_eq!(cpu.registers.read16(Register16::Si), 0x502);
    assert!(run(&mut cpu, Op::Std));
    assert!(cpu.flags.direction);
    assert!(run(&mut cpu, Op::Lodsw));
    assert_eq!(cpu.registers.read16(Register16::Si), 0x500);
    assert!(run(&mut cpu, Op::Cld));
    assert!(!cpu.flags.direction);
}

#[test]
fn jumps_follow_the_zero_flag() {
    let mut cpu = machine();
    let t = Operand::RelAddress(0x777);
    cpu.flags.zero = false;
    assert!(run(&mut cpu, Op::Jz(t)));
    assert_eq!(cpu.registers.ip(), 0x100);
    assert!(run(&mut cpu, Op::Jnz(t)));
    assert_eq!(cpu.registers.ip(), 0x777);
    cpu.flags.zero = true;
    assert!(run(&mut cpu, Op::Jz(Operand::RelAddress(0x100))));
    assert_eq!(cpu.registers.ip(), 0x100);
    assert!(run(&mut cpu, Op::Jmp(t)));
    assert_eq!(cpu.registers.ip(), 0x777);
}

#[test]
fn unemulated_operations_stop_the_machine() {
    let mut cpu = machine();
    for op in [Op::PushEs, Op::Db(0xF4), Op::Invalid, Op::Int(0x20),
               Op::Sub { src: Operand::Imm8(1), dst: Operand::Register8(Register8::Al) }] {
        assert!(!Cpu::emulates(&op));
        assert!(!run(&mut cpu, op));
    }
    assert_eq!(cpu.registers.ip(), 0x100);
    assert!(Cpu::emulates(&Op::Nop));
    assert!(Cpu::emulates(&Op::Int(0x21)));
}

#[test]
fn writes_to_immediates_are_undefined() {
    let cpu = machine();
    assert!(!cpu.can_execute(&Op::Mov { src: Operand::Imm8(1), dst: Operand::Imm8(2) }));
    assert!(!cpu.can_execute(&Op::Inc(Operand::RelAddress(3))));
}

#[test]
fn bios_video_services() {
    let mut cpu = machine();
    cpu.registers.write8(Register8::Ah, 0x02);
    cpu.registers.write8(Register8::Dh, 5);
    cpu.registers.write8(Register8::Dl, 7);
    assert!(Bios::handle_interrupt(0x10, &mut cpu));
    assert_eq!((cpu.screen.current_row, cpu.screen.current_col), (5, 7));
    cpu.registers.write8(Register8::Ah, 0x03);
    assert!(Bios::handle_interrupt(0x10, &mut cpu));
    assert_eq!(cpu.registers.read8(Register8::Dh), 5);
    assert_eq!(cpu.registers.read8(Register8::Dl), 7);
    assert_eq!(cpu.registers.read16(Register16::Cx), 15);
    cpu.registers.write8(Register8::Ah, 0x0F);
    assert!(Bios::handle_interrupt(0x10, &mut cpu));
    assert_eq!(cpu.registers.read8(Register8::Al), 3);
    assert_eq!(cpu.registers.read8(Register8::Ah), 80);
    assert_eq!(cpu.registers.read8(Register8::Bh), 0);
}

#[test]
fn bios_writes_repeated_characters() {
    let mut cpu = Cpu::new(VideoCard::new(3, 1));
    cpu.registers.write8(Register8::Ah, 0x09);
    cpu.registers.write8(Register8::Al, b'x');
    cpu.registers.write8(Register8::Bl, 0x1E);
    cpu.registers.write16(Register16::Cx, 5);
    assert!(run(&mut cpu, Op::Int(0x10)));
    assert!(cpu.screen.dirty);
    assert_eq!(cpu.screen.to_string(), "\x1b[93;44mxxx\r\n\x1b[0m");
    assert_eq!((cpu.screen.current_row, cpu.screen.current_col), (0, 0));
}

#[test]
fn dos_services() {
    let mut cpu = machine();
    cpu.registers.write8(Register8::Ah, 0x30);
    cpu.registers.write16(Register16::Cx, 9);
    assert!(Dos::handle_interrupt(0x21, &mut cpu));
    assert_eq!(cpu.registers.read8(Register8::Al), 3);
    assert_eq!(cpu.registers.read8(Register8::Ah), 30);
    assert_eq!(cpu.registers.read16(Register16::Bx), 0);
    assert_eq!(cpu.registers.read16(Register16::Cx), 0);
    cpu.registers.write8(Register8::Ah, 0x02);
    cpu.registers.write8(Register8::Dl, b'Q');
    assert!(Dos::handle_interrupt(0x21, &mut cpu));
    assert_eq!(cpu.screen.current_col, 1);
    cpu.registers.write8(Register8::Ah, 0x4C);
    assert!(!Dos::handle_interrupt(0x21, &mut cpu));
}

#[test]
fn dos_string_needs_a_terminator() {
    let mut cpu = machine();
    cpu.registers.write8(Register8::Ah, 0x09);
    cpu.registers.write16(Register16::Dx, 0x300);
    assert!(!Dos::can_print_string(&cpu));
    cpu.write_u8(0x2FF, b'$');
    assert!(Dos::can_print_string(&cpu));
}

#[test]
fn runs_a_hello_program() {
    // mov ah,09 ; mov dx,010B ; int 21 ; mov ah,4C ; int 21 ; "Hi\r\n!$"
    let program = [0xB4, 0x09, 0xBA, 0x0B, 0x01, 0xCD, 0x21, 0xB4, 0x4C, 0xCD, 0x21,
                   b'H', b'i', 0x0D, 0x0A, b'!', b'$'];
    let mut cpu = Cpu::new(VideoCard::new(4, 2));
    load(&mut cpu, 0x100, &program);
    let mut steps = 0;
    loop {
        assert!(can_decode(&cpu));
        let ins = {
            let mut d = Decoder { cpu: &mut cpu };
            decode(&mut d)
        };
        assert!(Cpu::emulates(&ins.op));
        assert!(cpu.can_execute(&ins.op));
        steps += 1;
        if !cpu.execute(ins.op) {
            break;
        }
    }
    assert_eq!(steps, 5);
    assert_eq!(cpu.screen.to_string(), "\x1b[30;40mHi\0\0\r\n!\0\0\0\r\n\x1b[0m");
    assert_eq!((cpu.screen.current_row, cpu.screen.current_col), (1, 1));
}

#[test]
fn write_char_wraps_and_ignores_positions_off_screen() {
    let mut v = VideoCard::new(2, 2);
    v.write_char(b'a');
    v.write_char(b'b');
    assert_eq!((v.current_row, v.current_col), (1, 0));
    v.write_char(0x0D);
    v.write_char(0x0A);
    v.write_char(0x0A);
    assert_eq!((v.current_row, v.current_col), (3, 0));
    v.clean_dirty_flag();
    v.write_char(b'c');
    assert!(!v.dirty);
    assert_eq!((v.current_row, v.current_col), (3, 0));
    v.set_cursor_pos(0, 1, 1);
    v.write_char(b'd');
    assert!(v.dirty);
    assert_eq!(v.to_string(), "\x1b[30;40mab\r\n\0d\r\n\x1b[0m");
}

#[test]
fn screen_text_switches_colors_only_on_change() {
    let mut v = VideoCard::new(3, 1);
    v.write_char_and_attr_at_current(0, 0xDB, 0x07, 2);
    assert_eq!(v.to_string(), "\x1b[37;40m██\x1b[30;40m\0\r\n\x1b[0m");
    let empty = VideoCard::new(0, 2);
    assert_eq!(empty.to_string(), "\r\n\r\n\x1b[0m");
}

#[test]
fn code_page_437() {
    assert_eq!(cp437_to_unicode(b'A'), 'A');
    assert_eq!(cp437_to_unicode(0xB0), '░');
    assert_eq!(cp437_to_unicode(0xCD), '═');
    assert_eq!(cp437_to_unicode(0xE9), 'é');
}

#[test]
fn flags_start_clear() {
    let f = Flags::default();
    assert!(!f.zero && !f.carry && !f.direction && !f.overflow && !f.interrupt);
    assert!(!f.trap && !f.sign_flag && !f.parity && !f.half_carry);
}

#[test]
fn decoding_depends_only_on_the_instruction_bytes() {
    let mut a = machine();
    let mut b = machine();
    load(&mut a, 0x100, &[0x80, 0x46, 0x02, 0x09, 0x11, 0x22]);
    load(&mut b, 0x100, &[0x80, 0x46, 0x02, 0x09, 0x99, 0x88]);
    let x = decode_at(&mut a, 0x100);
    let y = decode_at(&mut b, 0x100);
    assert_eq!(x, y);
    assert_eq!(
        x.op,
        Op::Add {
            src: Operand::Imm8(9),
            dst: Operand::Mem8(MemSpec { base: EffectiveAddressBase::Bp, disp: 2, is_direct: false }),
        }
    );
    assert_eq!(x.size, 4);
}
