//! The BIOS video service (interrupt 10h).
use vstd::prelude::*;

use crate::emulator::{Cpu, MachineState, ScreenState};
use crate::isa::{Register16, Register8};

verus! {

/// The BIOS: the firmware services the emulated programs call.
pub struct Bios;

/// Whether interrupt 10h handles the function selected by AH: set cursor
/// position (02h), read cursor position (03h), write character and attribute
/// (09h), get video mode (0Fh).
pub open spec fn video_service_supported(st: MachineState) -> bool {
    let ah = st.regs.get8(Register8::Ah);
    ah == 0x02 || ah == 0x03 || ah == 0x09 || ah == 0x0F
}

/// The machine after interrupt 10h with the function selected by AH.
pub open spec fn video_service(st: MachineState) -> MachineState {
    let r = st.regs;
    let ah = r.get8(Register8::Ah);
    if ah == 0x02 {
        MachineState {
            screen: ScreenState { row: r.get8(Register8::Dh), col: r.get8(Register8::Dl), ..st.screen },
            ..st
        }
    } else if ah == 0x03 {
        st.with_regs(
            r.set8(Register8::Ch, 0).set8(Register8::Cl, 15).set8(Register8::Dh, st.screen.row).set8(
                Register8::Dl,
                st.screen.col,
            ),
        )
    } else if ah == 0x09 {
        MachineState {
            screen: st.screen.after_fill(r.get8(Register8::Al), r.get8(Register8::Bl), r.get16(Register16::Cx)),
            ..st
        }
    } else {
        st.with_regs(r.set8(Register8::Al, 3).set8(Register8::Ah, 80).set8(Register8::Bh, 0))
    }
}

impl Bios {
    /// Serves interrupt 10h; the machine keeps running.
    pub fn handle_interrupt(interrupt: u8, cpu: &mut Cpu) -> (r: bool)
        requires
            old(cpu).wf(),
            interrupt == 0x10,
            video_service_supported(old(cpu).state()),
        ensures
            r,
            final(cpu).wf(),
            final(cpu).state() == video_service(old(cpu).state()),
    {
        let ah = cpu.registers.read8(Register8::Ah);
        if ah == 0x02 {
            let page = cpu.registers.read8(Register8::Bh);
            let row = cpu.registers.read8(Register8::Dh);
            let col = cpu.registers.read8(Register8::Dl);
            cpu.screen.set_cursor_pos(page, row, col);
        } else if ah == 0x03 {
            cpu.registers.write8(Register8::Ch, 0);
            cpu.registers.write8(Register8::Cl, 15);
            cpu.registers.write8(Register8::Dh, cpu.screen.current_row);
            cpu.registers.write8(Register8::Dl, cpu.screen.current_col);
        } else if ah == 0x09 {
            let character = cpu.registers.read8(Register8::Al);
            let page = cpu.registers.read8(Register8::Bh);
            let attribute = cpu.registers.read8(Register8::Bl);
            let count = cpu.registers.read16(Register16::Cx);
            cpu.screen.write_char_and_attr_at_current(page, character, attribute, count);
        } else {
            cpu.registers.write8(Register8::Al, 3);
            cpu.registers.write8(Register8::Ah, 80);
            cpu.registers.write8(Register8::Bh, 0);
        }
        true
    }
}

} // verus!

verus! {

/// Reading the cursor position (AH=03h) gives back the row and column that
/// setting it (AH=02h, DH=row, DL=column) stored.
#[verifier::spinoff_prover]
#[verifier::rlimit(60)]
pub proof fn law_cursor_set_then_read(st: MachineState, row: u8, col: u8)
    ensures
        ({
            let set = st.with_regs(
                st.regs.set8(Register8::Ah, 0x02).set8(Register8::Dh, row).set8(Register8::Dl, col),
            );
            let after_set = video_service(set);
            let read = after_set.with_regs(after_set.regs.set8(Register8::Ah, 0x03));
            let after_read = video_service(read);
            &&& video_service_supported(set)
            &&& video_service_supported(read)
            &&& after_set.screen.row == row
            &&& after_set.screen.col == col
            &&& after_read.regs.get8(Register8::Dh) == row
            &&& after_read.regs.get8(Register8::Dl) == col
            &&& after_read.regs.get8(Register8::Ch) == 0
            &&& after_read.regs.get8(Register8::Cl) == 15
        }),
{
    let r0 = st.regs;
    let r1 = r0.set8(Register8::Ah, 0x02);
    let r2 = r1.set8(Register8::Dh, row);
    let r3 = r2.set8(Register8::Dl, col);
    crate::emulator::law_write8_read8(r0, Register8::Ah, 0x02, Register8::Ah, Register16::Ax);
    crate::emulator::law_write8_read8(r1, Register8::Dh, row, Register8::Ah, Register16::Ax);
    crate::emulator::law_write8_read8(r2, Register8::Dl, col, Register8::Ah, Register16::Ax);
    crate::emulator::law_write8_read8(r2, Register8::Dl, col, Register8::Dh, Register16::Ax);
    let set = st.with_regs(r3);
    let after_set = video_service(set);
    let q0 = after_set.regs;
    let q1 = q0.set8(Register8::Ah, 0x03);
    crate::emulator::law_write8_read8(q0, Register8::Ah, 0x03, Register8::Ah, Register16::Ax);
    let q2 = q1.set8(Register8::Ch, 0);
    let q3 = q2.set8(Register8::Cl, 15);
    let q4 = q3.set8(Register8::Dh, row);
    let q5 = q4.set8(Register8::Dl, col);
    crate::emulator::law_write8_read8(q1, Register8::Ch, 0, Register8::Ch, Register16::Ax);
    crate::emulator::law_write8_read8(q2, Register8::Cl, 15, Register8::Ch, Register16::Ax);
    crate::emulator::law_write8_read8(q3, Register8::Dh, row, Register8::Ch, Register16::Ax);
    crate::emulator::law_write8_read8(q3, Register8::Dh, row, Register8::Cl, Register16::Ax);
    crate::emulator::law_write8_read8(q4, Register8::Dl, col, Register8::Ch, Register16::Ax);
    crate::emulator::law_write8_read8(q4, Register8::Dl, col, Register8::Cl, Register16::Ax);
    crate::emulator::law_write8_read8(q4, Register8::Dl, col, Register8::Dh, Register16::Ax);
    crate::emulator::law_write8_read8(q4, Register8::Dl, col, Register8::Dl, Register16::Ax);
}

} // verus!

verus! {

/// BIOS function 09h stores the cell (AL, BL) into the CX cells from the
/// cursor on, the whole 16-bit CX as the count, as far as the screen
/// reaches; the other cells, the cursor, the registers and memory stay as
/// they were.
#[verifier::spinoff_prover]
#[verifier::rlimit(60)]
pub proof fn law_write_character_and_attribute(st: MachineState)
    requires
        st.regs.get8(Register8::Ah) == 0x09,
    ensures
        video_service_supported(st),
        ({
            let after = video_service(st);
            let s = st.screen;
            let t = after.screen;
            let start = s.row * s.width + s.col;
            let count = st.regs.get16(Register16::Cx) as int;
            let cell = (st.regs.get8(Register8::Al), st.regs.get8(Register8::Bl));
            &&& after.regs == st.regs && after.memory == st.memory && after.flags == st.flags
            &&& t.row == s.row && t.col == s.col && t.width == s.width && t.height == s.height
            &&& t.dirty
            &&& t.cells.len() == s.cells.len()
            &&& forall|j: int| 0 <= j < s.cells.len() ==> #[trigger] t.cells[j] == if start <= j < start + count {
                cell
            } else {
                s.cells[j]
            }
        }),
{
}

/// BIOS function 0Fh reports text mode 3 with 80 columns on page 0.
pub proof fn law_video_mode(st: MachineState)
    requires
        st.regs.get8(Register8::Ah) == 0x0F,
    ensures
        video_service_supported(st),
        video_service(st).regs.get8(Register8::Al) == 3,
        video_service(st).regs.get8(Register8::Ah) == 80,
        video_service(st).regs.get8(Register8::Bh) == 0,
        video_service(st).screen == st.screen,
{
    let r1 = st.regs.set8(Register8::Al, 3);
    let r2 = r1.set8(Register8::Ah, 80);
    crate::emulator::law_write8_read8(r1, Register8::Ah, 80, Register8::Al, Register16::Bx);
    crate::emulator::law_write8_read8(r2, Register8::Bh, 0, Register8::Al, Register16::Ax);
    crate::emulator::law_write8_read8(r2, Register8::Bh, 0, Register8::Ah, Register16::Ax);
}

} // verus!
