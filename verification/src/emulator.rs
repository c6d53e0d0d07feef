//! The machine state: registers, flags, memory and the text screen, and the
//! execution of decoded operations on them.
use vstd::prelude::*;

use crate::bios::{video_service, video_service_supported, Bios};
use crate::dos::{dos_service, dos_service_supported, Dos};
use crate::isa::{EffectiveAddressBase, MemSpec, Op, Operand, Register16, Register8};
use crate::text::{dec_text, push_char, push_dec};
use vstd::string::StringExecFns;

verus! {

/// The contents of the register file.
pub struct RegisterState {
    pub ax: u16,
    pub cx: u16,
    pub dx: u16,
    pub bx: u16,
    pub sp: u16,
    pub bp: u16,
    pub si: u16,
    pub di: u16,
    pub cs: u16,
    pub ds: u16,
    pub es: u16,
    pub ss: u16,
    pub ip: u16,
}

impl RegisterState {
    /// All registers zero.
    pub open spec fn zero() -> RegisterState {
        RegisterState {
            ax: 0, cx: 0, dx: 0, bx: 0, sp: 0, bp: 0, si: 0, di: 0,
            cs: 0, ds: 0, es: 0, ss: 0, ip: 0,
        }
    }

    /// The value of a 16-bit register.
    pub open spec fn get16(self, r: Register16) -> u16 {
        match r {
            Register16::Ax => self.ax,
            Register16::Cx => self.cx,
            Register16::Dx => self.dx,
            Register16::Bx => self.bx,
            Register16::Sp => self.sp,
            Register16::Bp => self.bp,
            Register16::Si => self.si,
            Register16::Di => self.di,
        }
    }

    /// The register file with `r` holding `v`.
    pub open spec fn set16(self, r: Register16, v: u16) -> RegisterState {
        match r {
            Register16::Ax => RegisterState { ax: v, ..self },
            Register16::Cx => RegisterState { cx: v, ..self },
            Register16::Dx => RegisterState { dx: v, ..self },
            Register16::Bx => RegisterState { bx: v, ..self },
            Register16::Sp => RegisterState { sp: v, ..self },
            Register16::Bp => RegisterState { bp: v, ..self },
            Register16::Si => RegisterState { si: v, ..self },
            Register16::Di => RegisterState { di: v, ..self },
        }
    }

    /// The value of an 8-bit register: the low or high byte of its container.
    pub open spec fn get8(self, r: Register8) -> u8 {
        let word = self.get16(r.container());
        if r.is_high() {
            (word / 256) as u8
        } else {
            (word % 256) as u8
        }
    }

    /// The register file with the byte `r` holding `v` and the other byte of
    /// its container unchanged.
    pub open spec fn set8(self, r: Register8, v: u8) -> RegisterState {
        let word = self.get16(r.container());
        if r.is_high() {
            self.set16(r.container(), (v * 256 + word % 256) as u16)
        } else {
            self.set16(r.container(), ((word / 256) * 256 + v) as u16)
        }
    }

    /// The register file with the instruction pointer set to `ip`.
    pub open spec fn with_ip(self, ip: u16) -> RegisterState {
        RegisterState { ip, ..self }
    }
}

/// The register file of the processor.
#[derive(Debug)]
pub struct Registers {
    // 0: AX, 1: CX, 2: DX, 3: BX, 4: SP, 5: BP, 6: SI, 7: DI
    gpr: [u16; 8],
    _cs: u16,
    _ds: u16,
    _es: u16,
    _ss: u16,
    ip: u16,
}

impl View for Registers {
    type V = RegisterState;

    closed spec fn view(&self) -> RegisterState {
        RegisterState {
            ax: self.gpr@[0],
            cx: self.gpr@[1],
            dx: self.gpr@[2],
            bx: self.gpr@[3],
            sp: self.gpr@[4],
            bp: self.gpr@[5],
            si: self.gpr@[6],
            di: self.gpr@[7],
            cs: self._cs,
            ds: self._ds,
            es: self._es,
            ss: self._ss,
            ip: self.ip,
        }
    }
}

impl Default for Registers {
    fn default() -> (r: Self)
        ensures
            r@ == RegisterState::zero(),
    {
        Registers { gpr: [0u16; 8], _cs: 0, _ds: 0, _es: 0, _ss: 0, ip: 0 }
    }
}

/// The slot of a 16-bit register in the register array.
fn slot16(reg: Register16) -> (i: usize)
    ensures
        i == reg.code(),
{
    match reg {
        Register16::Ax => 0,
        Register16::Cx => 1,
        Register16::Dx => 2,
        Register16::Bx => 3,
        Register16::Sp => 4,
        Register16::Bp => 5,
        Register16::Si => 6,
        Register16::Di => 7,
    }
}

/// The slot of an 8-bit register's encoding.
fn slot8(reg: Register8) -> (i: usize)
    ensures
        i == reg.code(),
{
    match reg {
        Register8::Al => 0,
        Register8::Cl => 1,
        Register8::Dl => 2,
        Register8::Bl => 3,
        Register8::Ah => 4,
        Register8::Ch => 5,
        Register8::Dh => 6,
        Register8::Bh => 7,
    }
}

impl Registers {
    /// Advances the instruction pointer by one, wrapping at 64 KiB.
    pub fn step_ip(&mut self)
        ensures
            final(self)@ == old(self)@.with_ip(old(self)@.ip.wrapping_add(1)),
    {
        self.ip = self.ip.wrapping_add(1);
    }

    /// Sets the instruction pointer.
    pub fn set_ip(&mut self, ip: u16)
        ensures
            final(self)@ == old(self)@.with_ip(ip),
    {
        self.ip = ip;
    }

    /// Advances the instruction pointer by `v`, wrapping at 64 KiB.
    pub fn step_ip_by(&mut self, v: u16)
        ensures
            final(self)@ == old(self)@.with_ip(old(self)@.ip.wrapping_add(v)),
    {
        self.ip = self.ip.wrapping_add(v);
    }

    /// The instruction pointer.
    pub fn ip(&self) -> (r: u16)
        ensures
            r == self@.ip,
    {
        self.ip
    }

    /// The value of a 16-bit register.
    pub fn read16(&self, reg: Register16) -> (r: u16)
        ensures
            r == self@.get16(reg),
    {
        self.gpr[slot16(reg)]
    }

    /// Sets a 16-bit register.
    pub fn write16(&mut self, reg: Register16, value: u16)
        ensures
            final(self)@ == old(self)@.set16(reg, value),
    {
        let i = slot16(reg);
        self.gpr[i] = value;
        assert(final(self)@ =~= old(self)@.set16(reg, value)) by {
            assert(final(self).gpr@ == old(self).gpr@.update(i as int, value));
        }
    }

    /// The value of an 8-bit register: the low or high byte of its 16-bit register.
    pub fn read8(&self, reg: Register8) -> (r: u8)
        ensures
            r == self@.get8(reg),
    {
        let index = slot8(reg);
        if index < 4 {
            let w = self.gpr[index];
            assert((w & 0xFF) as u8 == (w % 256) as u8) by (bit_vector);
            (w & 0xFF) as u8
        } else {
            let w = self.gpr[index - 4];
            assert(((w >> 8) & 0xFF) as u8 == (w / 256) as u8) by (bit_vector);
            ((w >> 8) & 0xFF) as u8
        }
    }

    /// Sets an 8-bit register, keeping the other byte of its 16-bit register.
    pub fn write8(&mut self, reg: Register8, value: u8)
        ensures
            final(self)@ == old(self)@.set8(reg, value),
    {
        let index = slot8(reg);
        if index < 4 {
            let w = self.gpr[index];
            let nw = (w & 0xFF00) | value as u16;
            assert((w & 0xFF00) | value as u16 == ((w / 256) * 256 + value) as u16) by (bit_vector);
            self.gpr[index] = nw;
        } else {
            let w = self.gpr[index - 4];
            let nw = (w & 0x00FF) | ((value as u16) << 8) as u16;
            assert((w & 0x00FF) | ((value as u16) << 8) as u16 == (value * 256 + w % 256) as u16) by (bit_vector);
            self.gpr[index - 4] = nw;
        }
        assert(final(self)@ =~= old(self)@.set8(reg, value));
    }
}

/// The processor flags.
#[derive(Debug, Clone, Copy)]
pub struct Flags {
    pub zero: bool,
    pub direction: bool,
    pub overflow: bool,
    pub interrupt: bool,
    pub trap: bool,
    pub sign_flag: bool,
    pub parity: bool,
    pub carry: bool,
    pub half_carry: bool,
}

impl Flags {
    /// All flags clear.
    pub open spec fn cleared() -> Flags {
        Flags {
            zero: false,
            direction: false,
            overflow: false,
            interrupt: false,
            trap: false,
            sign_flag: false,
            parity: false,
            carry: false,
            half_carry: false,
        }
    }
}

impl Default for Flags {
    fn default() -> (r: Self)
        ensures
            r == Flags::cleared(),
    {
        Flags {
            zero: false,
            direction: false,
            overflow: false,
            interrupt: false,
            trap: false,
            sign_flag: false,
            parity: false,
            carry: false,
            half_carry: false,
        }
    }
}

/// The character that code page 437 byte `byte` is shown as.
pub open spec fn cp437_char(byte: u8) -> char {
    if byte <= 0x7F {
        byte as char
    } else if byte == 0xFC {
        '█'
    } else if byte == 0xDB {
        '█'
    } else if byte == 0xB0 {
        '░'
    } else if byte == 0xB1 {
        '▒'
    } else if byte == 0xB2 {
        '▓'
    } else if byte == 0xFE {
        '■'
    } else if byte == 0xFF {
        '▬'
    } else if byte == 0xF0 {
        '≡'
    } else if byte == 0xF1 {
        '±'
    } else if byte == 0xF2 {
        '≥'
    } else if byte == 0xF3 {
        '≤'
    } else if byte == 0xDA {
        '╔'
    } else if byte == 0xBF {
        '╗'
    } else if byte == 0xC0 {
        '╚'
    } else if byte == 0xD9 {
        '╝'
    } else if byte == 0xC4 {
        '─'
    } else if byte == 0xCD {
        '═'
    } else if byte == 0xC2 {
        '╦'
    } else if byte == 0xCA {
        '╩'
    } else {
        byte as char
    }
}

pub fn cp437_to_unicode(byte: u8) -> (c: char)
    ensures
        c == cp437_char(byte),
{
    match byte {
        0x00..=0x7F => byte as char,
        0xFC => '█',
        0xDB => '█',
        0xB0 => '░',
        0xB1 => '▒',
        0xB2 => '▓',
        0xFE => '■',
        0xFF => '▬',
        0xF0 => '≡',
        0xF1 => '±',
        0xF2 => '≥',
        0xF3 => '≤',
        0xDA => '╔',
        0xBF => '╗',
        0xC0 => '╚',
        0xD9 => '╝',
        0xC4 => '─',
        0xCD => '═',
        0xC2 => '╦',
        0xCA => '╩',
        _ => byte as char,
    }
}

/// One character cell of the text screen.
#[derive(Debug, Clone, Copy)]
pub struct Cell {
    data: u8,
    attributes: u8,
}

impl View for Cell {
    /// The character byte and the attribute byte.
    type V = (u8, u8);

    closed spec fn view(&self) -> (u8, u8) {
        (self.data, self.attributes)
    }
}

impl Default for Cell {
    fn default() -> (r: Self)
        ensures
            r@ == (0u8, 0u8),
    {
        Cell { data: 0, attributes: 0 }
    }
}

/// The contents of the text screen.
pub struct ScreenState {
    pub width: u8,
    pub height: u8,
    pub row: u8,
    pub col: u8,
    /// Character and attribute of each cell, row by row.
    pub cells: Seq<(u8, u8)>,
    pub dirty: bool,
}

impl ScreenState {
    /// The position of the cursor in `cells`.
    pub open spec fn cursor_index(self) -> int {
        self.row * self.width + self.col
    }

    /// Whether writing `ch` at the cursor stays within the cursor's range.
    pub open spec fn can_write_char(self, ch: u8) -> bool {
        if ch == 0x0D {
            true
        } else if ch == 0x0A {
            self.row < 255
        } else if self.cursor_index() < self.cells.len() {
            self.col < 255 && (self.col + 1 >= self.width ==> self.row < 255)
        } else {
            true
        }
    }

    /// The screen after writing `ch` as a teletype: carriage return, line
    /// feed, or a character stored at the cursor with the cursor advanced
    /// (to the next row after the last column). A character whose cursor
    /// position lies outside the screen is dropped.
    pub open spec fn after_write_char(self, ch: u8) -> ScreenState {
        if ch == 0x0D {
            ScreenState { col: 0, ..self }
        } else if ch == 0x0A {
            ScreenState { row: (self.row + 1) as u8, ..self }
        } else if self.cursor_index() < self.cells.len() {
            let idx = self.cursor_index();
            let cells = self.cells.update(idx, (ch, self.cells[idx].1));
            if self.col + 1 >= self.width {
                ScreenState { cells, row: (self.row + 1) as u8, col: 0, dirty: true, ..self }
            } else {
                ScreenState { cells, col: (self.col + 1) as u8, dirty: true, ..self }
            }
        } else {
            self
        }
    }

    /// The screen after storing `count` copies of the cell `(ch, attr)` from
    /// the cursor on, as far as the screen reaches.
    pub open spec fn after_fill(self, ch: u8, attr: u8, count: u16) -> ScreenState {
        let start = self.cursor_index();
        ScreenState {
            cells: Seq::new(
                self.cells.len(),
                |j: int| if start <= j < start + count { (ch, attr) } else { self.cells[j] },
            ),
            dirty: true,
            ..self
        }
    }
}

/// The cursor offset `row * width + col` fits easily in a `usize`.
proof fn lemma_cursor_bound(row: u8, width: u8)
    ensures
        row as int * width as int <= 255 * 255,
{
    assert(row as int * width as int <= 255 * 255) by (nonlinear_arith)
        requires
            row <= 255,
            width <= 255,
    ;
}

/// The ANSI foreground color code of a text-mode color number (`< 16`).
pub open spec fn ansi_foreground(color: int) -> u8 {
    if color == 0 { 30 } else if color == 1 { 34 } else if color == 2 { 32 } else if color == 3 { 36 }
    else if color == 4 { 31 } else if color == 5 { 35 } else if color == 6 { 33 } else if color == 7 { 37 }
    else if color == 8 { 90 } else if color == 9 { 94 } else if color == 10 { 92 } else if color == 11 { 96 }
    else if color == 12 { 91 } else if color == 13 { 95 } else if color == 14 { 93 } else { 97 }
}

/// The ANSI background color code of a text-mode color number (`< 16`).
pub open spec fn ansi_background(color: int) -> u8 {
    (ansi_foreground(color) + 10) as u8
}

/// The escape sequence that selects the colors of an attribute byte: the
/// foreground in the low four bits, the background in the high four.
pub open spec fn attribute_text(attr: u8) -> Seq<char> {
    "\x1b["@ + dec_text(ansi_foreground((attr % 16) as int)) + ";"@ + dec_text(ansi_background((attr / 16) as int)) + "m"@
}

/// The text of cell `k` of the screen: its colors when they differ from
/// those of the cell before it (always for the first cell), then its
/// character.
pub open spec fn cell_text(s: ScreenState, k: int) -> Seq<char> {
    let c = s.cells[k];
    let colors = if k == 0 || s.cells[k - 1].1 != c.1 { attribute_text(c.1) } else { Seq::empty() };
    colors.push(cp437_char(c.0))
}

/// The text of row `y` of the screen from column `x` on, ending the line.
pub open spec fn row_text(s: ScreenState, y: int, x: int) -> Seq<char>
    decreases s.width - x,
{
    if x >= s.width {
        "\r\n"@
    } else {
        cell_text(s, y * s.width + x) + row_text(s, y, x + 1)
    }
}

/// The text of the screen from row `y` on, ending with the color reset.
pub open spec fn rows_text(s: ScreenState, y: int) -> Seq<char>
    decreases s.height - y,
{
    if y >= s.height {
        "\x1b[0m"@
    } else {
        row_text(s, y, 0) + rows_text(s, y + 1)
    }
}

/// The screen as a terminal shows it: rows of colored characters.
pub open spec fn screen_text(s: ScreenState) -> Seq<char> {
    rows_text(s, 0)
}

fn foreground_code(color: u8) -> (c: u8)
    requires
        color < 16,
    ensures
        c == ansi_foreground(color as int),
{
    match color {
        0 => 30,
        1 => 34,
        2 => 32,
        3 => 36,
        4 => 31,
        5 => 35,
        6 => 33,
        7 => 37,
        8 => 90,
        9 => 94,
        10 => 92,
        11 => 96,
        12 => 91,
        13 => 95,
        14 => 93,
        _ => 97,
    }
}

fn background_code(color: u8) -> (c: u8)
    requires
        color < 16,
    ensures
        c == ansi_background(color as int),
{
    match color {
        0 => 40,
        1 => 44,
        2 => 42,
        3 => 46,
        4 => 41,
        5 => 45,
        6 => 43,
        7 => 47,
        8 => 100,
        9 => 104,
        10 => 102,
        11 => 106,
        12 => 101,
        13 => 105,
        14 => 103,
        _ => 107,
    }
}

/// Appends the escape sequence that selects the colors of `attr`.
fn push_attribute(out: &mut String, attr: u8)
    ensures
        final(out)@ == old(out)@ + attribute_text(attr),
{
    let ghost start = out@;
    let fg = attr & 0x0F;
    let bg = (attr & 0xF0) >> 4;
    assert(attr & 0x0F == attr % 16) by (bit_vector);
    assert((attr & 0xF0) >> 4 == attr / 16) by (bit_vector);
    out.append("\x1b[");
    push_dec(out, foreground_code(fg));
    out.append(";");
    push_dec(out, background_code(bg));
    out.append("m");
    assert(out@ =~= start + attribute_text(attr));
}

/// The text-mode video card.
#[derive(Debug)]
pub struct VideoCard {
    pub width: u8,
    pub height: u8,
    pub current_row: u8,
    pub current_col: u8,
    pub data: Vec<Cell>,
    pub dirty: bool,
}

impl View for VideoCard {
    type V = ScreenState;

    open spec fn view(&self) -> ScreenState {
        ScreenState {
            width: self.width,
            height: self.height,
            row: self.current_row,
            col: self.current_col,
            cells: self.data@.map_values(|c: Cell| c@),
            dirty: self.dirty,
        }
    }
}

impl VideoCard {
    /// A blank screen of `width` by `height` cells with the cursor at the top left.
    pub fn new(width: u8, height: u8) -> (v: VideoCard)
        ensures
            v@.width == width,
            v@.height == height,
            v@.row == 0,
            v@.col == 0,
            v@.cells =~= Seq::new((width * height) as nat, |j: int| (0u8, 0u8)),
            !v@.dirty,
    {
        proof {
            lemma_cursor_bound(width, height);
        }
        let n = width as usize * height as usize;
        let mut data: Vec<Cell> = Vec::new();
        while data.len() < n
            invariant
                data.len() <= n,
                forall|j: int| 0 <= j < data.len() ==> (#[trigger] data@[j])@ == (0u8, 0u8),
            decreases n - data.len(),
        {
            data.push(Cell::default());
        }
        VideoCard { width, height, current_row: 0, current_col: 0, data, dirty: false }
    }

    /// The screen as a terminal shows it, with ANSI color escapes.
    pub fn to_string(&self) -> (t: String)
        requires
            self.data.len() >= self.width * self.height,
        ensures
            t@ == screen_text(self@),
    {
        let ghost s = self@;
        let ghost w = self.width as int;
        let ghost mut row_start: int = 0;
        let mut out = String::new();
        let mut current_attr: Option<u8> = None;
        let mut y: u8 = 0;
        while y < self.height
            invariant
                s == self@,
                w == self.width,
                y <= self.height,
                self.data.len() >= self.width * self.height,
                row_start == y * w,
                out@ + rows_text(s, y as int) == screen_text(s),
                current_attr == if row_start == 0 { None } else { Some(s.cells[row_start - 1].1) },
            decreases self.height - y,
        {
            proof {
                assert(row_start + w <= w * self.height) by (nonlinear_arith)
                    requires
                        row_start == y * w,
                        y < self.height,
                        w >= 0,
                ;
                assert(self.width as int * y as int == row_start) by (nonlinear_arith)
                    requires
                        row_start == y * w,
                        w == self.width,
                ;
                lemma_cursor_bound(y, self.width);
                assert(w * self.height == self.width * self.height) by (nonlinear_arith)
                    requires
                        w == self.width,
                ;
            }
            let mut x: u8 = 0;
            while x < self.width
                invariant
                    s == self@,
                    w == self.width,
                    y < self.height,
                    x <= self.width,
                    self.data.len() >= row_start + w,
                    row_start == y * w,
                    self.width as int * y as int == row_start,
                    row_start <= 255 * 255,
                    out@ + row_text(s, y as int, x as int) + rows_text(s, y + 1) == screen_text(s),
                    current_attr == if row_start + x == 0 { None } else { Some(s.cells[row_start + x - 1].1) },
                decreases self.width - x,
            {
                let idx = self.width as usize * y as usize + x as usize;
                let cell = self.data[idx];
                let same = match current_attr {
                    Some(a) => a == cell.attributes,
                    None => false,
                };
                let ghost before = out@;
                if !same {
                    current_attr = Some(cell.attributes);
                    push_attribute(&mut out, cell.attributes);
                }
                push_char(&mut out, cp437_to_unicode(cell.data));
                assert(out@ =~= before + cell_text(s, row_start + x));
                x = x + 1;
            }
            out.append("\r\n");
            proof {
                row_start = row_start + w;
                assert(row_start == (y + 1) * w) by (nonlinear_arith)
                    requires
                        row_start == y * w + w,
                ;
            }
            y = y + 1;
        }
        out.append("\x1b[0m");
        out
    }

    /// Whether writing `ch` as a teletype stays within the cursor's range.
    pub fn can_write_char(&self, ch: u8) -> (r: bool)
        ensures
            r == self@.can_write_char(ch),
    {
        proof {
            lemma_cursor_bound(self.current_row, self.width);
        }
        if ch == 0x0D {
            true
        } else if ch == 0x0A {
            self.current_row < 255
        } else if (self.current_row as usize * self.width as usize + self.current_col as usize) < self.data.len() {
            self.current_col < 255 && (self.current_col as u16 + 1 < self.width as u16 || self.current_row < 255)
        } else {
            true
        }
    }

    /// A copy of the screen.
    pub fn duplicate(&self) -> (v: VideoCard)
        ensures
            v@ == self@,
    {
        let mut data: Vec<Cell> = Vec::new();
        let mut i: usize = 0;
        while i < self.data.len()
            invariant
                i <= self.data.len(),
                data@.len() == i,
                forall|j: int| 0 <= j < i ==> (#[trigger] data@[j])@ == self.data@[j]@,
            decreases self.data.len() - i,
        {
            let c = self.data[i];
            data.push(Cell { data: c.data, attributes: c.attributes });
            i = i + 1;
        }
        let v = VideoCard {
            width: self.width,
            height: self.height,
            current_row: self.current_row,
            current_col: self.current_col,
            data,
            dirty: self.dirty,
        };
        assert(v@.cells =~= self@.cells);
        v
    }

    /// Marks the screen as drawn.
    pub fn clean_dirty_flag(&mut self)
        ensures
            final(self)@ == (ScreenState { dirty: false, ..old(self)@ }),
    {
        self.dirty = false;
    }

    /// Writes `ch` as a teletype does (DOS function 02h, 09h): carriage return,
    /// line feed, or the character at the cursor, keeping the cell's attribute.
    pub fn write_char(&mut self, ch: u8)
        requires
            old(self)@.can_write_char(ch),
        ensures
            final(self)@ == old(self)@.after_write_char(ch),
    {
        match ch {
            0x0D => {
                self.current_col = 0;
            },
            0x0A => {
                self.current_row += 1;
            },
            _ => {
                proof {
                    lemma_cursor_bound(self.current_row, self.width);
                }
                let idx = self.current_row as usize * self.width as usize + self.current_col as usize;
                if idx >= self.data.len() {
                    return;
                }
                let old_cell = self.data[idx];
                self.data.set(idx, Cell { data: ch, attributes: old_cell.attributes });
                self.current_col += 1;
                if self.current_col >= self.width {
                    self.current_row += 1;
                    self.current_col = 0;
                }
                self.dirty = true;
                assert(self@.cells =~= old(self)@.cells.update(idx as int, (ch, old(self)@.cells[idx as int].1)));
            },
        }
    }

    /// Moves the cursor (BIOS function 02h); there is one page.
    pub fn set_cursor_pos(&mut self, _page: u8, row: u8, col: u8)
        ensures
            final(self)@ == (ScreenState { row, col, ..old(self)@ }),
    {
        self.current_col = col;
        self.current_row = row;
    }

    /// Stores `count` copies of a character and attribute from the cursor on,
    /// without moving the cursor (BIOS function 09h); there is one page.
    pub fn write_char_and_attr_at_current(&mut self, _page: u8, character: u8, attribute: u8, count: u16)
        ensures
            final(self)@ == old(self)@.after_fill(character, attribute, count),
    {
        proof {
            lemma_cursor_bound(self.current_row, self.width);
        }
        let start = self.current_row as usize * self.width as usize + self.current_col as usize;
        let ghost s0 = self@;
        let mut i: u16 = 0;
        while i < count
            invariant_except_break
                self@ == (ScreenState { cells: self@.cells, ..s0 }),
                self@.cells.len() == s0.cells.len(),
                start == s0.cursor_index(),
                start <= 255 * 255 + 255,
                i <= count,
                forall|j: int| 0 <= j < self@.cells.len() ==> #[trigger] self@.cells[j]
                    == if start <= j < start + i { (character, attribute) } else { s0.cells[j] },
            ensures
                self@ == (ScreenState { cells: self@.cells, ..s0 }),
                self@.cells.len() == s0.cells.len(),
                forall|j: int| 0 <= j < self@.cells.len() ==> #[trigger] self@.cells[j]
                    == if start <= j < start + count { (character, attribute) } else { s0.cells[j] },
            decreases count - i,
        {
            let idx = start + i as usize;
            if idx >= self.data.len() {
                assert forall|j: int| 0 <= j < self@.cells.len() implies #[trigger] self@.cells[j]
                    == if start <= j < start + count { (character, attribute) } else { s0.cells[j] } by {
                    assert(j < start + i);
                }
                break;
            }
            let ghost before = self@.cells;
            self.data.set(idx, Cell { data: character, attributes: attribute });
            assert(self@.cells =~= before.update(idx as int, (character, attribute)));
            i = i + 1;
        }
        self.dirty = true;
        assert(self@.cells =~= s0.after_fill(character, attribute, count).cells);
    }
}

/// Bytes of memory: one megabyte.
pub const MEMORY_SIZE: usize = 0x100000;

/// The whole machine: registers, flags, memory and screen.
pub struct MachineState {
    pub regs: RegisterState,
    pub flags: Flags,
    pub memory: Seq<u8>,
    pub screen: ScreenState,
}

/// A 16-bit wrap-around sum.
pub open spec fn add16(a: int, b: int) -> u16 {
    ((a + b) % 0x10000) as u16
}

impl MachineState {
    /// The byte at `addr`.
    pub open spec fn byte(self, addr: u16) -> u8 {
        self.memory[addr as int]
    }

    /// The little-endian word at `addr`.
    pub open spec fn word(self, addr: u16) -> u16 {
        (self.memory[addr as int] + self.memory[addr + 1] * 256) as u16
    }

    /// The machine with the byte at `addr` set to `v`.
    pub open spec fn with_byte(self, addr: u16, v: u8) -> MachineState {
        MachineState { memory: self.memory.update(addr as int, v), ..self }
    }

    /// The machine with the little-endian word at `addr` set to `v`.
    pub open spec fn with_word(self, addr: u16, v: u16) -> MachineState {
        MachineState {
            memory: self.memory.update(addr as int, (v % 256) as u8).update(addr + 1, (v / 256) as u8),
            ..self
        }
    }

    /// The machine with register file `regs`.
    pub open spec fn with_regs(self, regs: RegisterState) -> MachineState {
        MachineState { regs, ..self }
    }

    /// The machine with flags `flags`.
    pub open spec fn with_flags(self, flags: Flags) -> MachineState {
        MachineState { flags, ..self }
    }

    /// The machine with the zero flag set to `z`.
    pub open spec fn with_zero(self, z: bool) -> MachineState {
        MachineState { flags: Flags { zero: z, ..self.flags }, ..self }
    }

    /// The machine with the instruction pointer at `ip`.
    pub open spec fn jump(self, ip: u16) -> MachineState {
        self.with_regs(self.regs.with_ip(ip))
    }

    /// The value of the base of a memory operand.
    pub open spec fn base_value(self, base: EffectiveAddressBase) -> u16 {
        let r = self.regs;
        match base {
            EffectiveAddressBase::BxSi => add16(r.bx as int, r.si as int),
            EffectiveAddressBase::BxDi => add16(r.bx as int, r.di as int),
            EffectiveAddressBase::BpSi => add16(r.bp as int, r.si as int),
            EffectiveAddressBase::BpDi => add16(r.bp as int, r.di as int),
            EffectiveAddressBase::Si => r.si,
            EffectiveAddressBase::Di => r.di,
            EffectiveAddressBase::Bp => r.bp,
            EffectiveAddressBase::Bx => r.bx,
            EffectiveAddressBase::NoBase => 0,
        }
    }

    /// The address a memory operand refers to: the direct address, or base
    /// plus displacement, modulo 2^16.
    pub open spec fn effective_address(self, m: MemSpec) -> u16 {
        if m.is_direct {
            add16(0, m.disp as int)
        } else {
            add16(self.base_value(m.base) as int, m.disp as int)
        }
    }

    /// The value an operand reads as, widened to 16 bits.
    pub open spec fn operand_value(self, o: Operand) -> u16 {
        match o {
            Operand::Register8(r) => self.regs.get8(r) as u16,
            Operand::Register16(r) => self.regs.get16(r),
            Operand::Imm8(v) => v as u16,
            Operand::Imm16(v) => v,
            Operand::RelAddress(v) => v,
            Operand::Mem8(m) => self.byte(self.effective_address(m)) as u16,
            Operand::Mem16(m) => self.word(self.effective_address(m)),
        }
    }

    /// The machine after storing `v` into a writable operand; byte-sized
    /// operands keep the low byte of `v`.
    pub open spec fn with_operand(self, o: Operand, v: u16) -> MachineState {
        match o {
            Operand::Register8(r) => self.with_regs(self.regs.set8(r, (v % 256) as u8)),
            Operand::Register16(r) => self.with_regs(self.regs.set16(r, v)),
            Operand::Mem8(m) => self.with_byte(self.effective_address(m), (v % 256) as u8),
            Operand::Mem16(m) => self.with_word(self.effective_address(m), v),
            _ => self,
        }
    }

    /// The machine after pushing `v`: SP decreases by two (modulo 2^16) and
    /// the word at the new SP is `v`.
    pub open spec fn push(self, v: u16) -> MachineState {
        let sp = add16(self.regs.sp as int, -2);
        self.with_regs(self.regs.set16(Register16::Sp, sp)).with_word(sp, v)
    }

    /// The word on top of the stack.
    pub open spec fn top(self) -> u16 {
        self.word(self.regs.sp)
    }

    /// The machine after popping a word: SP increases by two (modulo 2^16).
    pub open spec fn pop(self) -> MachineState {
        self.with_regs(self.regs.set16(Register16::Sp, add16(self.regs.sp as int, 2)))
    }
}

/// Whether `execute` handles the operation; the others stop the machine.
pub open spec fn is_emulated(op: Op) -> bool {
    match op {
        Op::Nop | Op::Mov { .. } | Op::Xor { .. } | Op::PushCs | Op::PopDs | Op::Cld | Op::Std
        | Op::Lodsw | Op::Xchg { .. } | Op::PushReg16(_) | Op::PopReg16(_) | Op::Cmp { .. }
        | Op::Test { .. } | Op::Jnz(_) | Op::Jz(_) | Op::Jmp(_) | Op::Dec(_) | Op::Inc(_)
        | Op::Shl { .. } | Op::Shr { .. } | Op::Add { .. } | Op::Ret | Op::Call { .. } => true,
        Op::Int(n) => n == 0x10 || n == 0x21,
        _ => false,
    }
}

/// Whether executing `op` on `st` is defined: the operands it stores into
/// can be written, and the interrupt services it calls handle the request.
pub open spec fn can_execute(st: MachineState, op: Op) -> bool {
    match op {
        Op::Mov { dst, .. } | Op::Xor { dst, .. } | Op::Shl { dst, .. } | Op::Shr { dst, .. }
        | Op::Add { dst, .. } => dst.is_writable(),
        Op::Xchg { src, dst } => src.is_writable() && dst.is_writable(),
        Op::Inc(o) | Op::Dec(o) => o.is_writable(),
        Op::Int(n) => (n == 0x10 ==> video_service_supported(st)) && (n == 0x21 ==> dos_service_supported(st)),
        _ => true,
    }
}

/// The machine after executing `op`, and whether it keeps running.
pub open spec fn step(st: MachineState, op: Op) -> (MachineState, bool) {
    let r = st.regs;
    match op {
        Op::Nop => (st, true),
        Op::Mov { src, dst } => (st.with_operand(dst, st.operand_value(src)), true),
        Op::Xor { src, dst } => {
            let v = st.operand_value(src) ^ st.operand_value(dst);
            (st.with_zero(v == 0).with_operand(dst, v), true)
        },
        Op::PushCs => (st.push(0), true),
        Op::PopDs => (st.pop(), true),
        Op::Cld => (st.with_flags(Flags { direction: false, ..st.flags }), true),
        Op::Std => (st.with_flags(Flags { direction: true, ..st.flags }), true),
        Op::Lodsw => {
            let si = r.get16(Register16::Si);
            let next = if st.flags.direction { add16(si as int, -2) } else { add16(si as int, 2) };
            (st.with_regs(r.set16(Register16::Ax, st.word(si)).set16(Register16::Si, next)), true)
        },
        Op::Xchg { src, dst } => {
            let s1 = st.with_operand(src, st.operand_value(dst));
            (s1.with_operand(dst, st.operand_value(src)), true)
        },
        Op::PushReg16(reg) => {
            let sp = add16(r.sp as int, -2);
            let s1 = st.with_regs(r.set16(Register16::Sp, sp));
            (s1.with_word(sp, s1.regs.get16(reg)), true)
        },
        Op::PopReg16(reg) => {
            let s1 = st.pop();
            (s1.with_regs(s1.regs.set16(reg, st.top())), true)
        },
        Op::Int(n) => if n == 0x10 {
            (video_service(st), true)
        } else if n == 0x21 {
            dos_service(st)
        } else {
            (st, false)
        },
        Op::Cmp { src, dst } => (st.with_zero(st.operand_value(dst) == st.operand_value(src)), true),
        Op::Test { src, dst } => (st.with_zero(st.operand_value(dst) & st.operand_value(src) == 0), true),
        Op::Jnz(target) => (if !st.flags.zero { st.jump(st.operand_value(target)) } else { st }, true),
        Op::Jz(target) => (if st.flags.zero { st.jump(st.operand_value(target)) } else { st }, true),
        Op::Jmp(target) => (st.jump(st.operand_value(target)), true),
        Op::Dec(o) => (st.with_operand(o, add16(st.operand_value(o) as int, -1)), true),
        Op::Inc(o) => (st.with_operand(o, add16(st.operand_value(o) as int, 1)), true),
        Op::Shl { src, dst } => (
            st.with_operand(dst, st.operand_value(dst) << (st.operand_value(src) % 16)),
            true,
        ),
        Op::Shr { src, dst } => (
            st.with_operand(dst, st.operand_value(dst) >> (st.operand_value(src) % 16)),
            true,
        ),
        Op::Add { src, dst } => {
            let v = add16(st.operand_value(src) as int, st.operand_value(dst) as int);
            (st.with_operand(dst, v).with_zero(v == 0), true)
        },
        Op::Ret => (st.pop().jump(st.top()), true),
        Op::Call { target } => (st.push(r.ip).jump(st.operand_value(target)), true),
        _ => (st, false),
    }
}

/// The processor together with its memory and screen.
#[derive(Debug)]
pub struct Cpu {
    pub registers: Registers,
    pub flags: Flags,
    pub memory: Vec<u8>,
    pub screen: VideoCard,
}

/// `d as u16` is `d` modulo 2^16.
pub(crate) proof fn lemma_i16_as_u16(d: i16)
    ensures
        d as u16 == add16(0, d as int),
{
    assert((d as u16) as int == if d < 0 { d + 0x10000 } else { d as int }) by (bit_vector);
}

/// The wrap-around operations of `u16` are sums modulo 2^16.
pub proof fn lemma_wrapping16(x: u16, y: u16)
    ensures
        x.wrapping_add(y) == add16(x as int, y as int),
        x.wrapping_sub(y) == add16(x as int, -(y as int)),
{
    if x + y > u16::MAX {
        assert((x + y) % 0x10000 == x + y - 0x10000);
    } else {
        assert((x + y) % 0x10000 == x + y);
    }
    if x - y < 0 {
        assert((x - y) % 0x10000 == x - y + 0x10000);
    } else {
        assert((x - y) % 0x10000 == x - y);
    }
}

/// Adding `d as u16` with wrap-around adds the signed displacement `d`.
proof fn lemma_add16_wraps(b: u16, d: i16)
    ensures
        b.wrapping_add(d as u16) == add16(b as int, d as int),
{
    lemma_i16_as_u16(d);
    let du = d as u16;
    assert(add16(b as int, du as int) == add16(b as int, d as int)) by {
        if d < 0 {
            assert(du == d + 0x10000);
            assert((b + d + 0x10000) % 0x10000 == (b + d) % 0x10000);
        }
    }
}

impl Cpu {
    /// The memory holds the full megabyte.
    pub open spec fn wf(&self) -> bool {
        self.memory@.len() == MEMORY_SIZE
    }

    /// The state of the whole machine.
    pub open spec fn state(&self) -> MachineState {
        MachineState {
            regs: self.registers@,
            flags: self.flags,
            memory: self.memory@,
            screen: self.screen@,
        }
    }

    /// A machine as a COM program finds it: IP at 0x100, SP at 0xFFFE,
    /// everything else zero.
    pub fn new(screen: VideoCard) -> (cpu: Self)
        ensures
            cpu.wf(),
            cpu.state().regs == RegisterState::zero().set16(Register16::Sp, 0xFFFE).with_ip(0x100),
            cpu.state().flags == Flags::cleared(),
            forall|a: int| 0 <= a < MEMORY_SIZE ==> cpu.memory@[a] == 0,
            cpu.state().screen == screen@,
    {
        let mut regs = Registers::default();
        regs.ip = 0x100;
        regs.write16(Register16::Sp, 0xFFFE);
        let memory = vec![0u8; MEMORY_SIZE];
        Self { registers: regs, flags: Flags::default(), memory, screen }
    }

    /// The byte at `addr`.
    pub fn read_u8(&self, addr: u16) -> (r: u8)
        requires
            self.wf(),
        ensures
            r == self.state().byte(addr),
    {
        self.memory[addr as usize]
    }

    /// The little-endian word at `addr`.
    pub fn read_u16(&self, addr: u16) -> (r: u16)
        requires
            self.wf(),
        ensures
            r == self.state().word(addr),
    {
        let lo = self.memory[addr as usize];
        let hi = self.memory[addr as usize + 1];
        hi as u16 * 256 + lo as u16
    }

    /// Stores a byte at `addr`.
    pub fn write_u8(&mut self, addr: u16, value: u8)
        requires
            old(self).wf(),
        ensures
            final(self).wf(),
            final(self).state() == old(self).state().with_byte(addr, value),
    {
        self.memory.set(addr as usize, value);
    }

    /// Stores a little-endian word at `addr`.
    pub fn write_u16(&mut self, addr: u16, value: u16)
        requires
            old(self).wf(),
        ensures
            final(self).wf(),
            final(self).state() == old(self).state().with_word(addr, value),
    {
        self.memory.set(addr as usize, (value % 256) as u8);
        self.memory.set(addr as usize + 1, (value / 256) as u8);
    }

    /// The value of the base of a memory operand.
    fn base_value(&self, base: EffectiveAddressBase) -> (r: u16)
        ensures
            r == self.state().base_value(base),
    {
        match base {
            EffectiveAddressBase::BxSi => self.registers.read16(Register16::Bx).wrapping_add(
                self.registers.read16(Register16::Si),
            ),
            EffectiveAddressBase::BxDi => self.registers.read16(Register16::Bx).wrapping_add(
                self.registers.read16(Register16::Di),
            ),
            EffectiveAddressBase::BpSi => self.registers.read16(Register16::Bp).wrapping_add(
                self.registers.read16(Register16::Si),
            ),
            EffectiveAddressBase::BpDi => self.registers.read16(Register16::Bp).wrapping_add(
                self.registers.read16(Register16::Di),
            ),
            EffectiveAddressBase::Bx => self.registers.read16(Register16::Bx),
            EffectiveAddressBase::Di => self.registers.read16(Register16::Di),
            EffectiveAddressBase::Si => self.registers.read16(Register16::Si),
            EffectiveAddressBase::Bp => self.registers.read16(Register16::Bp),
            EffectiveAddressBase::NoBase => 0,
        }
    }

    /// The address a memory operand refers to.
    fn resolve_address(&self, spec: &MemSpec) -> (r: u16)
        ensures
            r == self.state().effective_address(*spec),
    {
        proof {
            lemma_i16_as_u16(spec.disp);
        }
        if spec.is_direct {
            return spec.disp as u16;
        }
        let base_value = self.base_value(spec.base);
        let d = spec.disp as u16;
        proof {
            lemma_add16_wraps(base_value, spec.disp);
        }
        base_value.wrapping_add(d)
    }

    /// The value an operand reads as, widened to 16 bits.
    pub fn get_operand_value(&self, operand: &Operand) -> (r: u16)
        requires
            self.wf(),
        ensures
            r == self.state().operand_value(*operand),
    {
        match operand {
            Operand::Register8(reg) => self.registers.read8(*reg) as u16,
            Operand::Register16(reg) => self.registers.read16(*reg),
            Operand::Imm8(val) => *val as u16,
            Operand::Imm16(val) => *val,
            Operand::RelAddress(val) => *val,
            Operand::Mem8(spec) => self.read_u8(self.resolve_address(spec)) as u16,
            Operand::Mem16(spec) => self.read_u16(self.resolve_address(spec)),
        }
    }

    /// Stores `value` into a writable operand; byte-sized operands keep its
    /// low byte.
    pub fn set_operand_value(&mut self, operand: &Operand, value: u16)
        requires
            old(self).wf(),
            operand.is_writable(),
        ensures
            final(self).wf(),
            final(self).state() == old(self).state().with_operand(*operand, value),
    {
        match operand {
            Operand::Register8(reg) => {
                assert(value as u8 == (value % 256) as u8) by (bit_vector);
                self.registers.write8(*reg, value as u8)
            },
            Operand::Register16(reg) => self.registers.write16(*reg, value),
            Operand::Mem8(spec) => {
                assert(value as u8 == (value % 256) as u8) by (bit_vector);
                let addr = self.resolve_address(spec);
                self.write_u8(addr, value as u8)
            },
            Operand::Mem16(spec) => {
                let addr = self.resolve_address(spec);
                self.write_u16(addr, value)
            },
            _ => {},
        }
    }

    /// Whether executing `op` is defined on this machine (see `can_execute`).
    pub fn can_execute(&self, op: &Op) -> (r: bool)
        requires
            self.wf(),
        ensures
            r == can_execute(self.state(), *op),
    {
        match op {
            Op::Mov { dst, .. } | Op::Xor { dst, .. } | Op::Shl { dst, .. } | Op::Shr { dst, .. }
            | Op::Add { dst, .. } => dst.writable(),
            Op::Xchg { src, dst } => src.writable() && dst.writable(),
            Op::Inc(o) | Op::Dec(o) => o.writable(),
            Op::Int(n) => {
                let ah = self.registers.read8(Register8::Ah);
                if *n == 0x10 {
                    ah == 0x02 || ah == 0x03 || ah == 0x09 || ah == 0x0F
                } else if *n == 0x21 {
                    (ah == 0x02 && self.screen.can_write_char(self.registers.read8(Register8::Dl)))
                        || (ah == 0x09 && Dos::can_print_string(self))
                        || ah == 0x30
                        || ah == 0x4C
                } else {
                    true
                }
            },
            _ => true,
        }
    }

    /// Whether `execute` emulates `op`.
    pub fn emulates(op: &Op) -> (r: bool)
        ensures
            r == is_emulated(*op),
    {
        match op {
            Op::Nop | Op::Mov { .. } | Op::Xor { .. } | Op::PushCs | Op::PopDs | Op::Cld | Op::Std
            | Op::Lodsw | Op::Xchg { .. } | Op::PushReg16(_) | Op::PopReg16(_) | Op::Cmp { .. }
            | Op::Test { .. } | Op::Jnz(_) | Op::Jz(_) | Op::Jmp(_) | Op::Dec(_) | Op::Inc(_)
            | Op::Shl { .. } | Op::Shr { .. } | Op::Add { .. } | Op::Ret | Op::Call { .. } => true,
            Op::Int(n) => *n == 0x10 || *n == 0x21,
            _ => false,
        }
    }

    /// Executes one operation; returns whether the machine keeps running.
    /// Operations it does not emulate stop it and change nothing.
    pub fn execute(&mut self, instruction: Op) -> (r: bool)
        requires
            old(self).wf(),
            can_execute(old(self).state(), instruction),
        ensures
            final(self).wf(),
            (final(self).state(), r) == step(old(self).state(), instruction),
            r ==> is_emulated(instruction),
    {
        match instruction {
            Op::Mov { src, dst } => {
                self.execute_mov(src, dst);
            },
            Op::Xor { src, dst } => {
                self.execute_xor(src, dst);
            },
            Op::Xchg { src, dst } => {
                self.execute_xchg(src, dst);
            },
            Op::Cmp { src, dst } => {
                self.execute_cmp(src, dst);
            },
            Op::Test { src, dst } => {
                self.execute_test(src, dst);
            },
            Op::Dec(operand) => {
                self.execute_dec(operand);
            },
            Op::Inc(operand) => {
                self.execute_inc(operand);
            },
            Op::Shl { src, dst } => {
                self.execute_shl(src, dst);
            },
            Op::Shr { src, dst } => {
                self.execute_shr(src, dst);
            },
            Op::Add { src, dst } => {
                self.execute_add(src, dst);
            },
            Op::PushCs => {
                self.execute_push_cs();
            },
            Op::PopDs => {
                self.execute_pop_ds();
            },
            Op::Lodsw => {
                self.execute_lodsw();
            },
            Op::PushReg16(reg) => {
                self.execute_push_reg16(reg);
            },
            Op::PopReg16(reg) => {
                self.execute_pop_reg16(reg);
            },
            Op::Ret => {
                self.execute_ret();
            },
            Op::Call { target } => {
                self.execute_call(target);
            },
            Op::Nop => {},
            Op::Cld => {
                self.flags.direction = false;
            },
            Op::Std => {
                self.flags.direction = true;
            },
            Op::Int(n) => {
                if n == 0x10 {
                    return Bios::handle_interrupt(n, self);
                } else if n == 0x21 {
                    return Dos::handle_interrupt(n, self);
                } else {
                    return false;
                }
            },
            Op::Jnz(target) => {
                let dest = self.get_operand_value(&target);
                if !self.flags.zero {
                    self.registers.set_ip(dest);
                }
            },
            Op::Jz(target) => {
                let dest = self.get_operand_value(&target);
                if self.flags.zero {
                    self.registers.set_ip(dest);
                }
            },
            Op::Jmp(target) => {
                let dest = self.get_operand_value(&target);
                self.registers.set_ip(dest);
            },
            _ => {
                return false;
            },
        }
        true
    }

    /// `mov`: copies the source into the destination.
    fn execute_mov(&mut self, src: Operand, dst: Operand)
        requires
            old(self).wf(),
            can_execute(old(self).state(), Op::Mov { src, dst }),
        ensures
            final(self).wf(),
            (final(self).state(), true) == step(old(self).state(), Op::Mov { src, dst }),
    {
        let value = self.get_operand_value(&src);
        self.set_operand_value(&dst, value);
    }

    /// `xor`: exclusive or into the destination, setting the zero flag.
    fn execute_xor(&mut self, src: Operand, dst: Operand)
        requires
            old(self).wf(),
            can_execute(old(self).state(), Op::Xor { src, dst }),
        ensures
            final(self).wf(),
            (final(self).state(), true) == step(old(self).state(), Op::Xor { src, dst }),
    {
        let v1 = self.get_operand_value(&src);
        let v2 = self.get_operand_value(&dst);
        let r = v1 ^ v2;
        self.flags.zero = r == 0;
        self.set_operand_value(&dst, r);
    }

    /// `xchg`: swaps the two operands.
    fn execute_xchg(&mut self, src: Operand, dst: Operand)
        requires
            old(self).wf(),
            can_execute(old(self).state(), Op::Xchg { src, dst }),
        ensures
            final(self).wf(),
            (final(self).state(), true) == step(old(self).state(), Op::Xchg { src, dst }),
    {
        let v1 = self.get_operand_value(&src);
        let v2 = self.get_operand_value(&dst);
        self.set_operand_value(&src, v2);
        self.set_operand_value(&dst, v1);
    }

    /// `cmp`: sets the zero flag when the operands are equal.
    fn execute_cmp(&mut self, src: Operand, dst: Operand)
        requires
            old(self).wf(),
            can_execute(old(self).state(), Op::Cmp { src, dst }),
        ensures
            final(self).wf(),
            (final(self).state(), true) == step(old(self).state(), Op::Cmp { src, dst }),
    {
        let src_val = self.get_operand_value(&src);
        let dst_val = self.get_operand_value(&dst);
        let res = dst_val.wrapping_sub(src_val);
        self.flags.zero = res == 0;
    }

    /// `test`: sets the zero flag when the operands share no set bit.
    fn execute_test(&mut self, src: Operand, dst: Operand)
        requires
            old(self).wf(),
            can_execute(old(self).state(), Op::Test { src, dst }),
        ensures
            final(self).wf(),
            (final(self).state(), true) == step(old(self).state(), Op::Test { src, dst }),
    {
        let src_val = self.get_operand_value(&src);
        let dst_val = self.get_operand_value(&dst);
        let res = dst_val & src_val;
        self.flags.zero = res == 0;
    }

    /// `dec`: subtracts one, wrapping.
    fn execute_dec(&mut self, operand: Operand)
        requires
            old(self).wf(),
            can_execute(old(self).state(), Op::Dec(operand)),
        ensures
            final(self).wf(),
            (final(self).state(), true) == step(old(self).state(), Op::Dec(operand)),
    {
        let v = self.get_operand_value(&operand);
        proof {
            lemma_wrapping16(v, 1);
        }
        self.set_operand_value(&operand, v.wrapping_sub(1));
    }

    /// `inc`: adds one, wrapping.
    fn execute_inc(&mut self, operand: Operand)
        requires
            old(self).wf(),
            can_execute(old(self).state(), Op::Inc(operand)),
        ensures
            final(self).wf(),
            (final(self).state(), true) == step(old(self).state(), Op::Inc(operand)),
    {
        let v = self.get_operand_value(&operand);
        proof {
            lemma_wrapping16(v, 1);
        }
        self.set_operand_value(&operand, v.wrapping_add(1));
    }

    /// `shl`: shifts the destination left by the source modulo 16.
    fn execute_shl(&mut self, src: Operand, dst: Operand)
        requires
            old(self).wf(),
            can_execute(old(self).state(), Op::Shl { src, dst }),
        ensures
            final(self).wf(),
            (final(self).state(), true) == step(old(self).state(), Op::Shl { src, dst }),
    {
        let src_value = self.get_operand_value(&src);
        let dst_value = self.get_operand_value(&dst);
        let v = dst_value.wrapping_shl(src_value as u32);
        assert(dst_value << ((src_value as u32) % 16) == dst_value << (src_value % 16)) by (bit_vector);
        self.set_operand_value(&dst, v);
    }

    /// `shr`: shifts the destination right by the source modulo 16.
    fn execute_shr(&mut self, src: Operand, dst: Operand)
        requires
            old(self).wf(),
            can_execute(old(self).state(), Op::Shr { src, dst }),
        ensures
            final(self).wf(),
            (final(self).state(), true) == step(old(self).state(), Op::Shr { src, dst }),
    {
        let src_value = self.get_operand_value(&src);
        let dst_value = self.get_operand_value(&dst);
        let v = dst_value.wrapping_shr(src_value as u32);
        assert(dst_value >> ((src_value as u32) % 16) == dst_value >> (src_value % 16)) by (bit_vector);
        self.set_operand_value(&dst, v);
    }

    /// `add`: adds the source into the destination, wrapping, setting the zero flag.
    fn execute_add(&mut self, src: Operand, dst: Operand)
        requires
            old(self).wf(),
            can_execute(old(self).state(), Op::Add { src, dst }),
        ensures
            final(self).wf(),
            (final(self).state(), true) == step(old(self).state(), Op::Add { src, dst }),
    {
        let src_val = self.get_operand_value(&src);
        let dst_val = self.get_operand_value(&dst);
        proof {
            lemma_wrapping16(src_val, dst_val);
        }
        let result = src_val.wrapping_add(dst_val);
        self.set_operand_value(&dst, result);
        self.flags.zero = result == 0;
    }

    /// `push cs`: pushes the code segment, which is zero.
    fn execute_push_cs(&mut self)
        requires
            old(self).wf(),
            can_execute(old(self).state(), Op::PushCs),
        ensures
            final(self).wf(),
            (final(self).state(), true) == step(old(self).state(), Op::PushCs),
    {
        let curret_sp = self.registers.read16(Register16::Sp);
        proof {
            lemma_wrapping16(curret_sp, 2);
        }
        let new_sp = curret_sp.wrapping_sub(2);
        self.registers.write16(Register16::Sp, new_sp);
        let cs_val = 0u16;
        self.write_u16(new_sp, cs_val);
    }

    /// `pop ds`: discards the word on top of the stack.
    fn execute_pop_ds(&mut self)
        requires
            old(self).wf(),
            can_execute(old(self).state(), Op::PopDs),
        ensures
            final(self).wf(),
            (final(self).state(), true) == step(old(self).state(), Op::PopDs),
    {
        let curret_sp = self.registers.read16(Register16::Sp);
        let _val = self.read_u16(curret_sp);
        proof {
            lemma_wrapping16(curret_sp, 2);
        }
        self.registers.write16(Register16::Sp, curret_sp.wrapping_add(2));
        assert(self.state() == old(self).state().pop());
    }

    /// `lodsw`: loads the word at SI into AX and steps SI by two in the
    /// direction the direction flag selects.
    fn execute_lodsw(&mut self)
        requires
            old(self).wf(),
            can_execute(old(self).state(), Op::Lodsw),
        ensures
            final(self).wf(),
            (final(self).state(), true) == step(old(self).state(), Op::Lodsw),
    {
        let si_address = self.registers.read16(Register16::Si);
        proof {
            lemma_wrapping16(si_address, 2);
        }
        let val = self.read_u16(si_address);
        self.registers.write16(Register16::Ax, val);
        self.registers.write16(
            Register16::Si,
            if self.flags.direction {
                si_address.wrapping_sub(2)
            } else {
                si_address.wrapping_add(2)
            },
        );
    }

    /// `push`: pushes a register, after SP has moved.
    fn execute_push_reg16(&mut self, reg: Register16)
        requires
            old(self).wf(),
            can_execute(old(self).state(), Op::PushReg16(reg)),
        ensures
            final(self).wf(),
            (final(self).state(), true) == step(old(self).state(), Op::PushReg16(reg)),
    {
        let curret_sp = self.registers.read16(Register16::Sp);
        proof {
            lemma_wrapping16(curret_sp, 2);
        }
        let new_sp = curret_sp.wrapping_sub(2);
        self.registers.write16(Register16::Sp, new_sp);
        let val = self.registers.read16(reg);
        self.write_u16(new_sp, val);
    }

    /// `pop`: pops the word on top of the stack into a register.
    fn execute_pop_reg16(&mut self, reg: Register16)
        requires
            old(self).wf(),
            can_execute(old(self).state(), Op::PopReg16(reg)),
        ensures
            final(self).wf(),
            (final(self).state(), true) == step(old(self).state(), Op::PopReg16(reg)),
    {
        let curret_sp = self.registers.read16(Register16::Sp);
        proof {
            lemma_wrapping16(curret_sp, 2);
        }
        let value = self.read_u16(curret_sp);
        self.registers.write16(Register16::Sp, curret_sp.wrapping_add(2));
        self.registers.write16(reg, value);
    }

    /// `ret`: jumps to the address on top of the stack and pops it.
    fn execute_ret(&mut self)
        requires
            old(self).wf(),
            can_execute(old(self).state(), Op::Ret),
        ensures
            final(self).wf(),
            (final(self).state(), true) == step(old(self).state(), Op::Ret),
    {
        let ip = self.pop_u16();
        self.registers.set_ip(ip);
    }

    /// `call`: pushes the address of the next instruction and jumps.
    fn execute_call(&mut self, target: Operand)
        requires
            old(self).wf(),
            can_execute(old(self).state(), Op::Call { target }),
        ensures
            final(self).wf(),
            (final(self).state(), true) == step(old(self).state(), Op::Call { target }),
    {
        let dest = self.get_operand_value(&target);
        let ip = self.registers.ip();
        self.push_u16(ip);
        self.registers.set_ip(dest);
    }

    /// Pops the word on top of the stack.
    fn pop_u16(&mut self) -> (r: u16)
        requires
            old(self).wf(),
        ensures
            final(self).wf(),
            r == old(self).state().top(),
            final(self).state() == old(self).state().pop(),
    {
        let curret_sp = self.registers.read16(Register16::Sp);
        let value = self.read_u16(curret_sp);
        self.registers.write16(Register16::Sp, curret_sp.wrapping_add(2));
        value
    }

    /// Pushes a word onto the stack.
    fn push_u16(&mut self, val: u16)
        requires
            old(self).wf(),
        ensures
            final(self).wf(),
            final(self).state() == old(self).state().push(val),
    {
        let curret_sp = self.registers.read16(Register16::Sp);
        let new_sp = curret_sp.wrapping_sub(2);
        self.registers.write16(Register16::Sp, new_sp);
        self.write_u16(new_sp, val);
    }
}

} // verus!

verus! {

/// A 16-bit register reads back what was written to it, and writing it
/// leaves the other registers as they were.
pub proof fn law_write16_read16(s: RegisterState, r: Register16, v: u16, other: Register16)
    ensures
        s.set16(r, v).get16(r) == v,
        other != r ==> s.set16(r, v).get16(other) == s.get16(other),
        s.set16(r, v).ip == s.ip,
{
}

/// An 8-bit register reads back what was written to it; writing it leaves
/// the other byte of its 16-bit register and all other registers as they
/// were.
pub proof fn law_write8_read8(s: RegisterState, r: Register8, v: u8, other: Register8, word: Register16)
    ensures
        s.set8(r, v).get8(r) == v,
        other != r ==> s.set8(r, v).get8(other) == s.get8(other),
        word != r.container() ==> s.set8(r, v).get16(word) == s.get16(word),
{
    assert(((v * 256 + s.get16(r.container()) % 256) as u16) / 256 == v);
    assert(((v * 256 + s.get16(r.container()) % 256) as u16) % 256 == s.get16(r.container()) % 256);
    assert((((s.get16(r.container()) / 256) * 256 + v) as u16) % 256 == v);
    assert((((s.get16(r.container()) / 256) * 256 + v) as u16) / 256 == s.get16(r.container()) / 256);
}

/// A 16-bit register of AX, CX, DX, BX holds its high byte times 256 plus
/// its low byte: writing both bytes sets the word.
pub proof fn law_bytes_make_word(s: RegisterState, high: Register8, low: Register8, h: u8, l: u8)
    requires
        high.is_high(),
        !low.is_high(),
        high.container() == low.container(),
    ensures
        s.set8(high, h).set8(low, l).get16(high.container()) == h * 256 + l,
        s.set8(high, h).set8(low, l).get8(high) == h,
        s.set8(high, h).set8(low, l).get8(low) == l,
{
    let w = s.get16(high.container());
    assert(((h * 256 + w % 256) as u16) / 256 == h);
    assert((((h * 256 + w % 256) as u16 / 256) * 256 + l) as u16 == h * 256 + l);
}

/// Memory reads back what was written, in little-endian byte order, and a
/// write leaves the other bytes as they were.
pub proof fn law_memory_write_read(st: MachineState, a: u16, v: u16, b: u8, other: int)
    requires
        st.memory.len() == MEMORY_SIZE,
    ensures
        st.with_word(a, v).word(a) == v,
        st.with_word(a, v).byte(a) == v % 256,
        st.with_word(a, v).memory[a + 1] == v / 256,
        st.with_byte(a, b).byte(a) == b,
        0 <= other < MEMORY_SIZE && other != a && other != a + 1 ==> st.with_word(a, v).memory[other] == st.memory[other],
        0 <= other < MEMORY_SIZE && other != a ==> st.with_byte(a, b).memory[other] == st.memory[other],
        st.with_word(a, v).memory.len() == MEMORY_SIZE,
{
}

/// Popping after a push gives back the pushed word and restores the
/// registers.
pub proof fn law_push_pop(st: MachineState, v: u16)
    requires
        st.memory.len() == MEMORY_SIZE,
    ensures
        st.push(v).top() == v,
        st.push(v).pop().regs == st.regs,
{
    let sp = add16(st.regs.sp as int, -2);
    assert(add16(sp as int, 2) == st.regs.sp) by {
        if st.regs.sp >= 2 {
            assert(sp == st.regs.sp - 2);
        } else {
            assert(sp == st.regs.sp - 2 + 0x10000);
        }
    }
}

/// A call followed by a return comes back to the address after the call,
/// with the stack pointer restored.
#[verifier::spinoff_prover]
#[verifier::rlimit(60)]
pub proof fn law_call_ret(st: MachineState, target: Operand)
    requires
        st.memory.len() == MEMORY_SIZE,
    ensures
        ({
            let (after_call, go1) = step(st, Op::Call { target });
            let (after_ret, go2) = step(after_call, Op::Ret);
            &&& go1 && go2
            &&& after_call.regs.ip == st.operand_value(target)
            &&& after_ret.regs.ip == st.regs.ip
            &&& after_ret.regs.sp == st.regs.sp
            &&& after_ret.regs == st.regs
        }),
{
    law_push_pop(st, st.regs.ip);
    let pushed = st.push(st.regs.ip);
    assert(pushed.jump(st.operand_value(target)).top() == st.regs.ip);
    assert(pushed.jump(st.operand_value(target)).pop().regs == pushed.pop().regs.with_ip(st.operand_value(target)));
}

/// Two register files that agree on every register are equal.
proof fn lemma_registers_ext(s: RegisterState, t: RegisterState)
    requires
        forall|r: Register16| s.get16(r) == t.get16(r),
        s.cs == t.cs,
        s.ds == t.ds,
        s.es == t.es,
        s.ss == t.ss,
        s.ip == t.ip,
    ensures
        s == t,
{
    assert(s.get16(Register16::Ax) == t.get16(Register16::Ax));
    assert(s.get16(Register16::Cx) == t.get16(Register16::Cx));
    assert(s.get16(Register16::Dx) == t.get16(Register16::Dx));
    assert(s.get16(Register16::Bx) == t.get16(Register16::Bx));
    assert(s.get16(Register16::Sp) == t.get16(Register16::Sp));
    assert(s.get16(Register16::Bp) == t.get16(Register16::Bp));
    assert(s.get16(Register16::Si) == t.get16(Register16::Si));
    assert(s.get16(Register16::Di) == t.get16(Register16::Di));
}

/// Exchanging two 16-bit registers twice leaves the machine as it was.
#[verifier::spinoff_prover]
#[verifier::rlimit(60)]
pub proof fn law_xchg_twice(st: MachineState, a: Register16, b: Register16)
    ensures
        ({
            let op = Op::Xchg { src: Operand::Register16(a), dst: Operand::Register16(b) };
            step(step(st, op).0, op) == (st, true)
        }),
{
    let op = Op::Xchg { src: Operand::Register16(a), dst: Operand::Register16(b) };
    let r0 = st.regs;
    let va = r0.get16(a);
    let vb = r0.get16(b);
    let r1 = r0.set16(a, vb).set16(b, va);
    let s1 = step(st, op).0;
    assert(s1.regs == r1);
    let r2 = r1.set16(a, r1.get16(b)).set16(b, r1.get16(a));
    assert(step(s1, op).0.regs == r2);
    assert forall|r: Register16| r2.get16(r) == r0.get16(r) by {
        law_write16_read16(r0, a, vb, r);
        law_write16_read16(r0, a, vb, b);
        law_write16_read16(r0.set16(a, vb), b, va, r);
        law_write16_read16(r0.set16(a, vb), b, va, a);
        law_write16_read16(r1, a, r1.get16(b), r);
        law_write16_read16(r1, a, r1.get16(b), b);
        law_write16_read16(r1.set16(a, r1.get16(b)), b, r1.get16(a), r);
    }
    lemma_registers_ext(r2, r0);
}

/// `xor r, r` clears the register and sets the zero flag; `cmp` of equal
/// values sets the zero flag.
#[verifier::spinoff_prover]
#[verifier::rlimit(60)]
pub proof fn law_xor_self_and_cmp(st: MachineState, r: Register16, a: Operand, b: Operand)
    ensures
        ({
            let s1 = step(st, Op::Xor { src: Operand::Register16(r), dst: Operand::Register16(r) }).0;
            s1.regs.get16(r) == 0 && s1.flags.zero
        }),
        step(st, Op::Cmp { src: a, dst: b }).0.flags.zero <==> st.operand_value(a) == st.operand_value(b),
{
    let v = st.regs.get16(r);
    assert(v ^ v == 0) by (bit_vector);
    let z = st.with_zero(true);
    assert(step(st, Op::Xor { src: Operand::Register16(r), dst: Operand::Register16(r) }).0 == z.with_regs(
        z.regs.set16(r, 0),
    ));
    law_write16_read16(z.regs, r, 0, r);
}

/// A conditional jump is taken exactly when its condition holds; an
/// unconditional jump always is; other state is unchanged.
pub proof fn law_jumps(st: MachineState, t: Operand)
    ensures
        step(st, Op::Jz(t)).0.regs.ip == (if st.flags.zero { st.operand_value(t) } else { st.regs.ip }),
        step(st, Op::Jnz(t)).0.regs.ip == (if !st.flags.zero { st.operand_value(t) } else { st.regs.ip }),
        step(st, Op::Jmp(t)).0 == st.jump(st.operand_value(t)),
{
}

/// The operations that are not emulated stop the machine and change
/// nothing.
pub proof fn law_unemulated_stops(st: MachineState, op: Op)
    requires
        !is_emulated(op),
    ensures
        step(st, op) == (st, false),
{
}

/// Writing a character at the cursor stores it there, keeps the cell's
/// attribute and moves the cursor right, or to the start of the next row
/// after the last column; the screen keeps its size.
pub proof fn law_write_char_advances(s: ScreenState, ch: u8)
    requires
        ch != 0x0D,
        ch != 0x0A,
        s.cursor_index() < s.cells.len(),
        s.can_write_char(ch),
    ensures
        s.after_write_char(ch).cells[s.cursor_index()] == (ch, s.cells[s.cursor_index()].1),
        s.after_write_char(ch).cells.len() == s.cells.len(),
        s.col + 1 < s.width ==> s.after_write_char(ch).row == s.row && s.after_write_char(ch).col == s.col + 1,
        s.col + 1 >= s.width ==> s.after_write_char(ch).row == s.row + 1 && s.after_write_char(ch).col == 0,
        s.after_write_char(ch).dirty,
{
}

/// Code page 437 shows ASCII bytes as themselves.
pub proof fn law_cp437_ascii(b: u8)
    requires
        b <= 0x7F,
    ensures
        cp437_char(b) == b as char,
{
}

} // verus!

verus! {

/// Shifting a word left by `n < 16` multiplies it by 2^n, dropping what
/// overflows 16 bits.
proof fn lemma_shl16(x: u16, n: u16)
    requires
        n < 16,
    ensures
        x << n == (x * vstd::arithmetic::power2::pow2(n as nat)) % 0x10000,
{
    vstd::arithmetic::power2::lemma2_to64();
    if n == 0 { assert(x << 0u16 == (x as u32 * 1) % 0x10000) by (bit_vector); }
    else if n == 1 { assert(x << 1u16 == (x as u32 * 2) % 0x10000) by (bit_vector); }
    else if n == 2 { assert(x << 2u16 == (x as u32 * 4) % 0x10000) by (bit_vector); }
    else if n == 3 { assert(x << 3u16 == (x as u32 * 8) % 0x10000) by (bit_vector); }
    else if n == 4 { assert(x << 4u16 == (x as u32 * 16) % 0x10000) by (bit_vector); }
    else if n == 5 { assert(x << 5u16 == (x as u32 * 32) % 0x10000) by (bit_vector); }
    else if n == 6 { assert(x << 6u16 == (x as u32 * 64) % 0x10000) by (bit_vector); }
    else if n == 7 { assert(x << 7u16 == (x as u32 * 128) % 0x10000) by (bit_vector); }
    else if n == 8 { assert(x << 8u16 == (x as u32 * 256) % 0x10000) by (bit_vector); }
    else if n == 9 { assert(x << 9u16 == (x as u32 * 512) % 0x10000) by (bit_vector); }
    else if n == 10 { assert(x << 10u16 == (x as u32 * 1024) % 0x10000) by (bit_vector); }
    else if n == 11 { assert(x << 11u16 == (x as u32 * 2048) % 0x10000) by (bit_vector); }
    else if n == 12 { assert(x << 12u16 == (x as u32 * 4096) % 0x10000) by (bit_vector); }
    else if n == 13 { assert(x << 13u16 == (x as u32 * 8192) % 0x10000) by (bit_vector); }
    else if n == 14 { assert(x << 14u16 == (x as u32 * 16384) % 0x10000) by (bit_vector); }
    else { assert(x << 15u16 == (x as u32 * 32768) % 0x10000) by (bit_vector); }
}

/// `shr` divides its destination by 2^n, rounding down, and `shl`
/// multiplies it by 2^n modulo 2^16, where n is the source modulo 16; byte
/// destinations keep the low byte. For a 16-bit register this is the value
/// it then holds, and the shifted-out bits are gone: after `shr` by n the
/// result times 2^n is at most the old value and less than 2^16.
#[verifier::spinoff_prover]
#[verifier::rlimit(60)]
pub proof fn law_shifts(st: MachineState, src: Operand, dst: Operand, r: Register16)
    ensures
        ({
            let n = (st.operand_value(src) % 16) as nat;
            let v = st.operand_value(dst) as int;
            let p = vstd::arithmetic::power2::pow2(n) as int;
            &&& step(st, Op::Shr { src, dst }) == (st.with_operand(dst, (v / p) as u16), true)
            &&& step(st, Op::Shl { src, dst }) == (st.with_operand(dst, ((v * p) % 0x10000) as u16), true)
        }),
        ({
            let n = (st.operand_value(src) % 16) as nat;
            let v = st.regs.get16(r) as int;
            let p = vstd::arithmetic::power2::pow2(n) as int;
            let after = step(st, Op::Shr { src, dst: Operand::Register16(r) }).0.regs.get16(r) as int;
            &&& after == v / p
            &&& after * p <= v < (after + 1) * p
            &&& after * p < 0x10000
            &&& step(st, Op::Shl { src, dst: Operand::Register16(r) }).0.regs.get16(r) == (v * p) % 0x10000
        }),
{
    let n = st.operand_value(src) % 16;
    let p = vstd::arithmetic::power2::pow2(n as nat) as int;
    vstd::bits::lemma_u16_shr_is_div(st.operand_value(dst), n);
    lemma_shl16(st.operand_value(dst), n);
    let v = st.regs.get16(r);
    vstd::bits::lemma_u16_shr_is_div(v, n);
    lemma_shl16(v, n);
    law_write16_read16(st.regs, r, v >> n, r);
    law_write16_read16(st.regs, r, v << n, r);
    vstd::arithmetic::power2::lemma_pow2_pos(n as nat);
    vstd::arithmetic::div_mod::lemma_fundamental_div_mod(v as int, p);
    let q = v as int / p;
    assert(q * p <= v < (q + 1) * p) by (nonlinear_arith)
        requires
            p > 0,
            v == p * q + v as int % p,
            0 <= v as int % p < p,
    ;
}

/// `add`, `inc` and `dec` compute modulo 2^16 and store the result; `add`
/// sets the zero flag exactly when the sum is a multiple of 2^16.
#[verifier::spinoff_prover]
#[verifier::rlimit(60)]
pub proof fn law_arithmetic(st: MachineState, src: Operand, dst: Operand)
    ensures
        ({
            let (s, d) = (st.operand_value(src) as int, st.operand_value(dst) as int);
            &&& step(st, Op::Add { src, dst }).0 == st.with_operand(dst, ((s + d) % 0x10000) as u16).with_zero((s + d) % 0x10000 == 0)
            &&& step(st, Op::Inc(dst)).0 == st.with_operand(dst, ((d + 1) % 0x10000) as u16)
            &&& step(st, Op::Dec(dst)).0 == st.with_operand(dst, (if d == 0 { 0xFFFF } else { d - 1 }) as u16)
        }),
{
    let d = st.operand_value(dst) as int;
    assert(step(st, Op::Inc(dst)).0 == st.with_operand(dst, ((d + 1) % 0x10000) as u16));
    assert(step(st, Op::Dec(dst)).0 == st.with_operand(dst, (if d == 0 { 0xFFFF } else { d - 1 }) as u16)) by {
        if d == 0 {
            assert((d - 1) % 0x10000 == 0xFFFF);
        } else {
            assert((d - 1) % 0x10000 == d - 1);
        }
    }
}

/// `mov` stores the source's value into the destination; `cmp` sets the
/// zero flag exactly when the operands are equal and `test` exactly when
/// they share no set bit, changing nothing else.
#[verifier::spinoff_prover]
#[verifier::rlimit(60)]
pub proof fn law_moves_and_compares(st: MachineState, src: Operand, dst: Operand)
    ensures
        ({
            let (s, d) = (st.operand_value(src), st.operand_value(dst));
            &&& step(st, Op::Mov { src, dst }) == (st.with_operand(dst, s), true)
            &&& step(st, Op::Cmp { src, dst }) == (st.with_zero(s == d), true)
            &&& step(st, Op::Test { src, dst }) == (st.with_zero(s & d == 0), true)
        }),
{
    let (s, d) = (st.operand_value(src), st.operand_value(dst));
    assert(d & s == s & d) by (bit_vector);
}

} // verus!

verus! {

/// `xor` stores the bitwise exclusive or and sets the zero flag exactly
/// when it is zero; xoring the result with the source again gives back the
/// old destination.
#[verifier::spinoff_prover]
#[verifier::rlimit(60)]
pub proof fn law_xor(st: MachineState, src: Operand, dst: Operand)
    ensures
        ({
            let (s, d) = (st.operand_value(src), st.operand_value(dst));
            &&& step(st, Op::Xor { src, dst }) == (st.with_zero(s ^ d == 0).with_operand(dst, s ^ d), true)
            &&& (s ^ d) ^ s == d
            &&& (s ^ d == 0) <==> s == d
        }),
{
    let (s, d) = (st.operand_value(src), st.operand_value(dst));
    assert((s ^ d) ^ s == d) by (bit_vector);
    assert((s ^ d == 0) <==> s == d) by (bit_vector);
    assert(s ^ d == d ^ s) by (bit_vector);
}

/// `push r` lowers SP by two (modulo 2^16) and stores r at the new top,
/// where pushing SP stores the lowered SP; `pop r` loads the top into r and
/// raises SP by two; `lodsw` loads the word at SI into AX and moves SI two
/// bytes forward, or backward when the direction flag is set; `cld` and
/// `std` clear and set the direction flag.
#[verifier::spinoff_prover]
#[verifier::rlimit(60)]
pub proof fn law_stack_and_string_ops(st: MachineState, r: Register16)
    requires
        st.memory.len() == MEMORY_SIZE,
    ensures
        ({
            let sp = st.regs.sp as int;
            let low = ((sp - 2) % 0x10000) as u16;
            let pushed = step(st, Op::PushReg16(r)).0;
            &&& pushed.regs.sp == low
            &&& r != Register16::Sp ==> pushed.word(low) == st.regs.get16(r)
            &&& r == Register16::Sp ==> pushed.word(low) == low
            &&& pushed.regs.ip == st.regs.ip
        }),
        ({
            let popped = step(st, Op::PopReg16(r)).0;
            &&& popped.regs.get16(r) == st.word(st.regs.sp)
            &&& r != Register16::Sp ==> popped.regs.sp == ((st.regs.sp + 2) % 0x10000) as u16
            &&& popped.memory == st.memory
        }),
        ({
            let si = st.regs.si as int;
            let loaded = step(st, Op::Lodsw).0;
            &&& loaded.regs.ax == st.word(st.regs.si)
            &&& !st.flags.direction ==> loaded.regs.si == ((si + 2) % 0x10000) as u16
            &&& st.flags.direction ==> loaded.regs.si == ((si - 2) % 0x10000) as u16
            &&& loaded.memory == st.memory
        }),
        step(st, Op::Cld).0.flags.direction == false,
        step(st, Op::Std).0.flags.direction == true,
{
    let low = add16(st.regs.sp as int, -2);
    let s1 = st.with_regs(st.regs.set16(Register16::Sp, low));
    law_write16_read16(st.regs, Register16::Sp, low, r);
    law_memory_write_read(s1, low, s1.regs.get16(r), 0, 0);
    let top = st.top();
    let s2 = st.pop();
    law_write16_read16(s2.regs, r, top, r);
    law_write16_read16(st.regs, Register16::Sp, add16(st.regs.sp as int, 2), Register16::Sp);
    law_write16_read16(s2.regs, r, top, Register16::Sp);
}

/// The ANSI color codes follow the text-mode color bits: blue (1), green
/// (2) and red (4) become ANSI's red (1), green (2) and blue (4) added to 30
/// for the foreground or 40 for the background, and the intensity bit (8)
/// adds 60.
pub proof fn law_ansi_colors(c: int)
    requires
        0 <= c < 16,
    ensures
        ansi_foreground(c) == 30 + 60 * (c / 8) + 4 * (c % 2) + 2 * ((c / 2) % 2) + (c / 4) % 2,
        ansi_background(c) == 40 + 60 * (c / 8) + 4 * (c % 2) + 2 * ((c / 2) % 2) + (c / 4) % 2,
{
}

} // verus!
