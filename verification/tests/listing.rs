use loader::isa::{EffectiveAddressBase, MemSpec, Op, Operand, Register16, Register8};

fn mem(base: EffectiveAddressBase, disp: i16) -> MemSpec {
    MemSpec { base, disp, is_direct: false }
}

#[test]
fn register_and_base_names() {
    assert_eq!(Register16::Sp.to_string(), "sp");
    assert_eq!(Register8::Dh.to_string(), "dh");
    assert_eq!(EffectiveAddressBase::BpSi.to_string(), "bp+si");
    assert_eq!(EffectiveAddressBase::NoBase.to_string(), "");
}

#[test]
fn operand_text() {
    assert_eq!(Operand::Imm8(0x9).to_string(), "09h");
    assert_eq!(Operand::Imm16(0xAB).to_string(), "00ABh");
    assert_eq!(Operand::RelAddress(0x1234).to_string(), "1234h");
    assert_eq!(
        Operand::Mem8(MemSpec { base: EffectiveAddressBase::NoBase, disp: 0x130, is_direct: true }).to_string(),
        "byte ptr [0x0130]"
    );
    assert_eq!(Operand::Mem8(mem(EffectiveAddressBase::Bx, 0)).to_string(), "byte ptr [bx]");
    assert_eq!(Operand::Mem8(mem(EffectiveAddressBase::BxSi, 5)).to_string(), "byte ptr [bx+si+0005]");
    assert_eq!(Operand::Mem8(mem(EffectiveAddressBase::Di, -2)).to_string(), "byte ptr [di+FFFE]");
    assert_eq!(Operand::Mem16(mem(EffectiveAddressBase::Bp, 5)).to_string(), "word ptr [bp+5]");
    assert_eq!(Operand::Mem16(mem(EffectiveAddressBase::Si, -1)).to_string(), "word ptr [si+FFFF]");
    assert_eq!(
        Operand::Mem16(MemSpec { base: EffectiveAddressBase::NoBase, disp: -2, is_direct: true }).to_string(),
        "word ptr [0xFFFE]"
    );
}

#[test]
fn operation_text() {
    let ax = Operand::Register16(Register16::Ax);
    let dl = Operand::Register8(Register8::Dl);
    assert_eq!(Op::Int(0x21).to_string(), "int 21h");
    assert_eq!(Op::Db(0xF).to_string(), "db 0Fh");
    assert_eq!(Op::Mov { src: Operand::Imm16(0x4C00), dst: ax }.to_string(), "mov ax,4C00h");
    assert_eq!(Op::Xor { src: ax, dst: ax }.to_string(), "xor ax,ax");
    assert_eq!(Op::Shl { src: Operand::Imm8(1), dst: dl }.to_string(), "shl dl,1");
    assert_eq!(Op::PushReg16(Register16::Bp).to_string(), "push bp");
    assert_eq!(Op::PopReg16(Register16::Di).to_string(), "pop di");
    assert_eq!(Op::Inc(dl).to_string(), "inc dl");
    assert_eq!(Op::Jz(Operand::RelAddress(0x10A)).to_string(), "jz 010Ah");
    assert_eq!(Op::Call { target: Operand::RelAddress(0x200) }.to_string(), "call 0200h");
    assert_eq!(Op::Invalid.to_string(), "(invalid)");
    assert_eq!(Op::PushEs.to_string(), "push es");
    assert_eq!(Op::Cld.to_string(), "cld");
    assert_eq!(Op::Std.to_string(), "std");
    assert_eq!(
        Op::Cmp { src: Operand::Imm8(0x24), dst: Operand::Mem8(mem(EffectiveAddressBase::Si, 0)) }.to_string(),
        "cmp byte ptr [si],24h"
    );
}
