//! The DOS services (interrupt 21h).
use vstd::prelude::*;

use crate::emulator::{add16, Cpu, MachineState, ScreenState};
use crate::isa::{Register16, Register8};

verus! {

/// The DOS: the operating system services the emulated programs call.
pub struct Dos;

/// The DOS version reported by function 30h: 3.30.
const DOS_VERSION_MAJOR: u8 = 3;

const DOS_VERSION_MINOR: u8 = 30;

/// The screen after printing the `$`-terminated string at `addr`, reading at
/// most `fuel` bytes; `None` if no `$` comes within them, or if a character
/// cannot be written.
pub open spec fn print_dollar_string(screen: ScreenState, memory: Seq<u8>, addr: u16, fuel: nat) -> Option<ScreenState>
    decreases fuel,
{
    if fuel == 0 {
        None
    } else {
        let ch = memory[addr as int];
        if ch == 0x24 {
            Some(screen)
        } else if !screen.can_write_char(ch) {
            None
        } else {
            print_dollar_string(screen.after_write_char(ch), memory, add16(addr as int, 1), (fuel - 1) as nat)
        }
    }
}

/// The screen after printing the string that DS:DX points to; addresses wrap
/// at 64 KiB, so a string without `$` in all of them never ends.
pub open spec fn printed_string(st: MachineState) -> Option<ScreenState> {
    print_dollar_string(st.screen, st.memory, st.regs.get16(Register16::Dx), 0x10000)
}

/// Whether interrupt 21h handles the function selected by AH: write
/// character (02h), write string (09h), get version (30h), terminate (4Ch).
pub open spec fn dos_service_supported(st: MachineState) -> bool {
    let ah = st.regs.get8(Register8::Ah);
    ||| ah == 0x02 && st.screen.can_write_char(st.regs.get8(Register8::Dl))
    ||| ah == 0x09 && printed_string(st) is Some
    ||| ah == 0x30
    ||| ah == 0x4C
}

/// The machine after interrupt 21h with the function selected by AH, and
/// whether the program keeps running.
pub open spec fn dos_service(st: MachineState) -> (MachineState, bool) {
    let r = st.regs;
    let ah = r.get8(Register8::Ah);
    if ah == 0x02 {
        (MachineState { screen: st.screen.after_write_char(r.get8(Register8::Dl)), ..st }, true)
    } else if ah == 0x09 {
        (MachineState { screen: printed_string(st).unwrap(), ..st }, true)
    } else if ah == 0x30 {
        (
            st.with_regs(
                r.set8(Register8::Al, 3).set8(Register8::Ah, 30).set8(Register8::Bh, 0).set8(
                    Register8::Bl,
                    0,
                ).set16(Register16::Cx, 0),
            ),
            true,
        )
    } else {
        (st, false)
    }
}

impl Dos {
    /// Whether printing the `$`-terminated string at DS:DX (function 09h)
    /// ends: a `$` comes within 64 KiB and every character before it can
    /// be written.
    pub fn can_print_string(cpu: &Cpu) -> (r: bool)
        requires
            cpu.wf(),
        ensures
            r == (printed_string(cpu.state()) is Some),
    {
        let mut screen = cpu.screen.duplicate();
        let mut addr = cpu.registers.read16(Register16::Dx);
        let mut left: u32 = 0x10000;
        while left > 0
            invariant
                cpu.wf(),
                print_dollar_string(screen@, cpu.state().memory, addr, left as nat) == printed_string(cpu.state()),
            decreases left,
        {
            let ch = cpu.read_u8(addr);
            if ch == 0x24 {
                return true;
            }
            if !screen.can_write_char(ch) {
                return false;
            }
            screen.write_char(ch);
            addr = addr.wrapping_add(1);
            left = left - 1;
        }
        false
    }

    /// Serves interrupt 21h; returns whether the program keeps running.
    pub fn handle_interrupt(interrupt: u8, cpu: &mut Cpu) -> (r: bool)
        requires
            old(cpu).wf(),
            interrupt == 0x21,
            dos_service_supported(old(cpu).state()),
        ensures
            final(cpu).wf(),
            (final(cpu).state(), r) == dos_service(old(cpu).state()),
    {
        let ah = cpu.registers.read8(Register8::Ah);
        if ah == 0x02 {
            let data = cpu.registers.read8(Register8::Dl);
            cpu.screen.write_char(data);
        } else if ah == 0x09 {
            let mut addr = cpu.registers.read16(Register16::Dx);
            let ghost s0 = cpu.state();
            let ghost mut fuel: nat = 0x10000;
            loop
                invariant
                    cpu.wf(),
                    cpu.state() == (MachineState { screen: cpu.screen@, ..s0 }),
                    print_dollar_string(cpu.screen@, s0.memory, addr, fuel) == printed_string(s0),
                    printed_string(s0) is Some,
                ensures
                    cpu.wf(),
                    cpu.state() == (MachineState { screen: cpu.screen@, ..s0 }),
                    printed_string(s0) == Some(cpu.screen@),
                decreases fuel,
            {
                let ch = cpu.read_u8(addr);
                if ch == 0x24 {
                    break;
                }
                cpu.screen.write_char(ch);
                addr = addr.wrapping_add(1);
                proof {
                    fuel = (fuel - 1) as nat;
                }
            }
        } else if ah == 0x30 {
            cpu.registers.write8(Register8::Al, DOS_VERSION_MAJOR);
            cpu.registers.write8(Register8::Ah, DOS_VERSION_MINOR);
            cpu.registers.write8(Register8::Bh, 0);
            cpu.registers.write8(Register8::Bl, 0);
            cpu.registers.write16(Register16::Cx, 0);
        } else {
            let _exit_status = cpu.registers.read8(Register8::Al);
            return false;
        }
        true
    }
}

} // verus!

verus! {

/// DOS function 02h writes the character in DL as a teletype, whatever AL
/// holds: a carriage return moves the cursor to column 0, a line feed one
/// row down, any other character goes into the cell at the cursor (keeping
/// its attribute) and the cursor moves right, or to the start of the next
/// row after the last column. Registers and memory stay as they were and
/// the program keeps running.
#[verifier::spinoff_prover]
#[verifier::rlimit(60)]
pub proof fn law_write_character(st: MachineState, al: u8)
    requires
        st.regs.get8(Register8::Ah) == 0x02,
        st.screen.can_write_char(st.regs.get8(Register8::Dl)),
    ensures
        dos_service_supported(st),
        ({
            let (after, running) = dos_service(st);
            let ch = st.regs.get8(Register8::Dl);
            let s = st.screen;
            let t = after.screen;
            let i = s.cursor_index();
            &&& running
            &&& after.regs == st.regs && after.memory == st.memory && after.flags == st.flags
            &&& t.width == s.width && t.height == s.height && t.cells.len() == s.cells.len()
            &&& ch == 0x0D ==> t.row == s.row && t.col == 0 && t.cells == s.cells
            &&& ch == 0x0A ==> t.row == s.row + 1 && t.col == s.col && t.cells == s.cells
            &&& ch != 0x0D && ch != 0x0A && i < s.cells.len() ==> {
                &&& t.cells == s.cells.update(i, (ch, s.cells[i].1))
                &&& t.dirty
                &&& s.col + 1 < s.width ==> t.row == s.row && t.col == s.col + 1
                &&& s.col + 1 >= s.width ==> t.row == s.row + 1 && t.col == 0
            }
            &&& ch != 0x0D && ch != 0x0A && i >= s.cells.len() ==> t == s
        }),
        ({
            let other = st.with_regs(st.regs.set8(Register8::Al, al));
            &&& dos_service_supported(other)
            &&& dos_service(other).0.screen == dos_service(st).0.screen
        }),
{
    crate::emulator::law_write8_read8(st.regs, Register8::Al, al, Register8::Ah, Register16::Ax);
    crate::emulator::law_write8_read8(st.regs, Register8::Al, al, Register8::Dl, Register16::Ax);
}

/// DOS function 30h reports version 3.30 (AL=3, AH=30), clears BX and CX,
/// and the program keeps running; function 4Ch ends it, changing nothing.
#[verifier::spinoff_prover]
#[verifier::rlimit(60)]
pub proof fn law_version_and_exit(st: MachineState)
    ensures
        st.regs.get8(Register8::Ah) == 0x30 ==> ({
            let (after, running) = dos_service(st);
            &&& running
            &&& after.regs.get8(Register8::Al) == 3
            &&& after.regs.get8(Register8::Ah) == 30
            &&& after.regs.get16(Register16::Bx) == 0
            &&& after.regs.get16(Register16::Cx) == 0
            &&& after.regs.get16(Register16::Dx) == st.regs.get16(Register16::Dx)
            &&& after.screen == st.screen && after.memory == st.memory
        }),
        st.regs.get8(Register8::Ah) == 0x4C ==> dos_service(st) == (st, false),
{
    let r = st.regs;
    let r1 = r.set8(Register8::Al, 3);
    let r2 = r1.set8(Register8::Ah, 30);
    let r3 = r2.set8(Register8::Bh, 0);
    let r4 = r3.set8(Register8::Bl, 0);
    crate::emulator::law_write8_read8(r1, Register8::Ah, 30, Register8::Al, Register16::Dx);
    crate::emulator::law_write8_read8(r2, Register8::Bh, 0, Register8::Al, Register16::Dx);
    crate::emulator::law_write8_read8(r2, Register8::Bh, 0, Register8::Ah, Register16::Dx);
    crate::emulator::law_write8_read8(r3, Register8::Bl, 0, Register8::Al, Register16::Dx);
    crate::emulator::law_write8_read8(r3, Register8::Bl, 0, Register8::Ah, Register16::Dx);
    crate::emulator::law_write8_read8(r3, Register8::Bl, 0, Register8::Bh, Register16::Dx);
    crate::emulator::law_bytes_make_word(r2, Register8::Bh, Register8::Bl, 0, 0);
    crate::emulator::law_write16_read16(r4, Register16::Cx, 0, Register16::Ax);
    crate::emulator::law_write16_read16(r4, Register16::Cx, 0, Register16::Bx);
    crate::emulator::law_write16_read16(r4, Register16::Cx, 0, Register16::Cx);
    crate::emulator::law_write16_read16(r4, Register16::Cx, 0, Register16::Dx);
}

} // verus!
