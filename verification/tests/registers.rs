use loader::emulator::Registers;
use loader::isa::{Register16, Register8};

#[test]
fn test_register_read_write() {
    let mut reg = Registers::default();

    reg.write8(Register8::Ah, 0x12);
    reg.write8(Register8::Al, 0x34);
    assert_eq!(reg.read8(Register8::Ah), 0x12);
    assert_eq!(reg.read8(Register8::Al), 0x34);
    assert_eq!(reg.read16(Register16::Ax), 0x1234);

    reg.write8(Register8::Bh, 0x56);
    reg.write8(Register8::Bl, 0x78);
    assert_eq!(reg.read8(Register8::Bh), 0x56);
    assert_eq!(reg.read8(Register8::Bl), 0x78);
    assert_eq!(reg.read16(Register16::Bx), 0x5678);
}

#[test]
fn write16_then_bytes_read_back() {
    let mut reg = Registers::default();
    reg.write16(Register16::Dx, 0xBEEF);
    assert_eq!(reg.read8(Register8::Dh), 0xBE);
    assert_eq!(reg.read8(Register8::Dl), 0xEF);
    reg.write8(Register8::Dl, 0x01);
    assert_eq!(reg.read16(Register16::Dx), 0xBE01);
    assert_eq!(reg.read16(Register16::Ax), 0);
}

#[test]
fn writing_one_register_leaves_the_others() {
    let mut reg = Registers::default();
    reg.write16(Register16::Si, 7);
    reg.write16(Register16::Di, 9);
    reg.write8(Register8::Ch, 0xFF);
    assert_eq!(reg.read16(Register16::Si), 7);
    assert_eq!(reg.read16(Register16::Di), 9);
    assert_eq!(reg.read16(Register16::Cx), 0xFF00);
    assert_eq!(reg.read8(Register8::Cl), 0);
}

#[test]
fn instruction_pointer_wraps() {
    let mut reg = Registers::default();
    reg.set_ip(0xFFFF);
    reg.step_ip();
    assert_eq!(reg.ip(), 0);
    reg.step_ip_by(0xFFFE);
    assert_eq!(reg.ip(), 0xFFFE);
    reg.step_ip_by(3);
    assert_eq!(reg.ip(), 1);
}

#[test]
fn register_from_low_three_bits() {
    assert_eq!(Register16::from(0x0Bu8), Register16::Bx);
    assert_eq!(Register16::from(0x57u8), Register16::Di);
    assert_eq!(Register8::from(0x0Cu8), Register8::Ah);
    assert_eq!(Register8::from(0xB1u8), Register8::Cl);
    assert_eq!(loader::isa::EffectiveAddressBase::from(0x46u8), loader::isa::EffectiveAddressBase::Bp);
    let o: loader::isa::Operand = Register8::Dh.into();
    assert_eq!(o, loader::isa::Operand::Register8(Register8::Dh));
}
