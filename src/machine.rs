use vstd::prelude::*;

use crate::error::ExecutionError;
use crate::platform::Platform;

verus! {

/// Wraps an integer into an 8-bit register.
pub open spec fn wrap8(v: int) -> u8 {
    (v % 0x100) as u8
}

/// Wraps an integer into a 16-bit register.
pub open spec fn wrap16(v: int) -> u16 {
    (v % 0x10000) as u16
}

/// The top nibble of an instruction word: its family.
pub open spec fn class_of(word: u16) -> u16 {
    word / 0x1000
}

/// The second nibble: a register index.
pub open spec fn x_of(word: u16) -> u16 {
    (word / 0x100) % 0x10
}

/// The third nibble: a register index.
pub open spec fn y_of(word: u16) -> u16 {
    (word / 0x10) % 0x10
}

/// The low nibble.
pub open spec fn n_of(word: u16) -> u16 {
    word % 0x10
}

/// The low byte.
pub open spec fn nn_of(word: u16) -> u8 {
    (word % 0x100) as u8
}

/// The low 12 bits: an address.
pub open spec fn nnn_of(word: u16) -> u16 {
    word % 0x1000
}

/// The bit of sprite byte `b` for column `col` (0 is the leftmost, most significant bit).
pub open spec fn sprite_bit(b: u8, col: int) -> bool {
    b & (0x80u8 >> (col as u8)) != 0u8
}

/// Registers, timers, index, program counter and call stack.
pub struct CoreState {
    pub registers: Seq<u8>,
    pub stack: Seq<u16>,
    pub i: u16,
    pub pc: u16,
    pub sp: u8,
    pub dt: u8,
    pub st: u8,
}

/// Memory, framebuffer and keypad.
pub struct MemoryState {
    pub ram: Seq<u8>,
    pub video: Seq<u8>,
    pub keypad: Seq<bool>,
}

/// The whole observable state of one machine.
pub struct MachineState {
    pub core: CoreState,
    pub mem: MemoryState,
}

/// The built-in hexadecimal font, 5 bytes per glyph.
pub open spec fn font() -> Seq<u8> {
    seq![
        0xF0u8, 0x90, 0x90, 0x90, 0xF0,
        0x20, 0x60, 0x20, 0x20, 0x70,
        0xF0, 0x10, 0xF0, 0x80, 0xF0,
        0xF0, 0x10, 0xF0, 0x10, 0xF0,
        0x90, 0x90, 0xF0, 0x10, 0x10,
        0xF0, 0x80, 0xF0, 0x10, 0xF0,
        0xF0, 0x80, 0xF0, 0x90, 0xF0,
        0xF0, 0x10, 0x20, 0x40, 0x40,
        0xF0, 0x90, 0xF0, 0x90, 0xF0,
        0xF0, 0x90, 0xF0, 0x10, 0xF0,
        0xF0, 0x90, 0xF0, 0x90, 0x90,
        0xE0, 0x90, 0xE0, 0x90, 0xE0,
        0xF0, 0x80, 0x80, 0x80, 0xF0,
        0xE0, 0x90, 0x90, 0x90, 0xE0,
        0xF0, 0x80, 0xF0, 0x80, 0xF0,
        0xF0, 0x80, 0xF0, 0x80, 0x80,
    ]
}

/// Memory at power-on: the font at address 0, zeros elsewhere.
pub open spec fn initial_ram() -> Seq<u8> {
    Seq::new(0x1000, |a: int| if a < 80 { font()[a] } else { 0u8 })
}

impl CoreState {
    pub open spec fn wf(self) -> bool {
        self.registers.len() == 16 && self.stack.len() == 16
    }

    /// Registers at power-on: all zero, PC at the program start.
    pub open spec fn initial() -> CoreState {
        CoreState {
            registers: Seq::new(16, |k: int| 0u8),
            stack: Seq::new(16, |k: int| 0u16),
            i: 0,
            pc: 0x200,
            sp: 0,
            dt: 0,
            st: 0,
        }
    }

    pub open spec fn reg(self, x: int) -> int {
        self.registers[x] as int
    }

    pub open spec fn set_reg(self, x: int, v: u8) -> CoreState {
        CoreState { registers: self.registers.update(x, v), ..self }
    }

    pub open spec fn advance(self, k: int) -> CoreState {
        CoreState { pc: wrap16(self.pc + k), ..self }
    }

    /// Move past this instruction, and past the next one too when `c` holds.
    pub open spec fn skip_if(self, c: bool) -> CoreState {
        self.advance(if c { 4 } else { 2 })
    }

    pub open spec fn ret(self) -> CoreState {
        let sp = self.sp - 1;
        CoreState { sp: sp as u8, pc: wrap16(self.stack[sp] + 2), ..self }
    }

    pub open spec fn jump(self, nnn: u16) -> CoreState {
        CoreState { pc: nnn, ..self }
    }

    pub open spec fn call(self, nnn: u16) -> CoreState {
        CoreState {
            stack: self.stack.update(self.sp as int, self.pc),
            sp: (self.sp + 1) as u8,
            pc: nnn,
            ..self
        }
    }

    pub open spec fn skip_eq_imm(self, x: int, nn: u8) -> CoreState {
        self.skip_if(self.registers[x] == nn)
    }

    pub open spec fn skip_ne_imm(self, x: int, nn: u8) -> CoreState {
        self.skip_if(self.registers[x] != nn)
    }

    pub open spec fn skip_eq_reg(self, x: int, y: int) -> CoreState {
        self.skip_if(self.registers[x] == self.registers[y])
    }

    pub open spec fn skip_ne_reg(self, x: int, y: int) -> CoreState {
        self.skip_if(self.registers[x] != self.registers[y])
    }

    pub open spec fn load_imm(self, x: int, nn: u8) -> CoreState {
        self.set_reg(x, nn).advance(2)
    }

    pub open spec fn add_imm(self, x: int, nn: u8) -> CoreState {
        self.set_reg(x, wrap8(self.reg(x) + nn)).advance(2)
    }

    pub open spec fn copy_reg(self, x: int, y: int) -> CoreState {
        self.set_reg(x, self.registers[y]).advance(2)
    }

    /// Store `v` into VX, then clear VF when `vf_reset` holds.
    pub open spec fn logic_result(self, x: int, v: u8, vf_reset: bool) -> CoreState {
        let c = self.set_reg(x, v);
        (if vf_reset {
            c.set_reg(15, 0)
        } else {
            c
        }).advance(2)
    }

    pub open spec fn or_reg(self, x: int, y: int, vf_reset: bool) -> CoreState {
        self.logic_result(x, self.registers[x] | self.registers[y], vf_reset)
    }

    pub open spec fn and_reg(self, x: int, y: int, vf_reset: bool) -> CoreState {
        self.logic_result(x, self.registers[x] & self.registers[y], vf_reset)
    }

    pub open spec fn xor_reg(self, x: int, y: int, vf_reset: bool) -> CoreState {
        self.logic_result(x, self.registers[x] ^ self.registers[y], vf_reset)
    }

    /// VX = VX + VY modulo 256, then VF = 1 exactly when the sum carried.
    pub open spec fn add_reg(self, x: int, y: int) -> CoreState {
        let s = self.reg(x) + self.reg(y);
        self.set_reg(x, wrap8(s)).set_reg(15, if s >= 256 { 1u8 } else { 0u8 }).advance(2)
    }

    /// VX = VX - VY modulo 256, then VF = 1 exactly when no borrow occurred.
    pub open spec fn sub_reg(self, x: int, y: int) -> CoreState {
        let (a, b) = (self.reg(x), self.reg(y));
        self.set_reg(x, wrap8(a - b)).set_reg(15, if a >= b { 1u8 } else { 0u8 }).advance(2)
    }

    /// VX = VY - VX modulo 256, then VF = 1 exactly when no borrow occurred.
    pub open spec fn subn_reg(self, x: int, y: int) -> CoreState {
        let (a, b) = (self.reg(x), self.reg(y));
        self.set_reg(x, wrap8(b - a)).set_reg(15, if b >= a { 1u8 } else { 0u8 }).advance(2)
    }

    /// The operand a shift works on: VX itself, or VY under the legacy behaviour.
    pub open spec fn shift_operand(self, x: int, y: int, in_place: bool) -> int {
        if in_place {
            self.reg(x)
        } else {
            self.reg(y)
        }
    }

    pub open spec fn shift_right(self, x: int, y: int, in_place: bool) -> CoreState {
        let v = self.shift_operand(x, y, in_place);
        self.set_reg(x, (v / 2) as u8).set_reg(15, (v % 2) as u8).advance(2)
    }

    pub open spec fn shift_left(self, x: int, y: int, in_place: bool) -> CoreState {
        let v = self.shift_operand(x, y, in_place);
        self.set_reg(x, wrap8(2 * v)).set_reg(15, (v / 128) as u8).advance(2)
    }

    pub open spec fn set_index(self, nnn: u16) -> CoreState {
        CoreState { i: nnn, ..self }.advance(2)
    }

    /// PC = V0 + NNN, or VX + NNN (X the top nibble of NNN) when `use_x` holds.
    pub open spec fn jump_offset(self, nnn: u16, use_x: bool) -> CoreState {
        let base = if use_x {
            self.reg((nnn / 0x100 % 0x10) as int)
        } else {
            self.reg(0)
        };
        CoreState { pc: wrap16(base + nnn), ..self }
    }

    pub open spec fn random(self, x: int, nn: u8, r: u8) -> CoreState {
        self.set_reg(x, r & nn).advance(2)
    }

    pub open spec fn load_delay(self, x: int) -> CoreState {
        self.set_reg(x, self.dt).advance(2)
    }

    pub open spec fn set_delay(self, x: int) -> CoreState {
        CoreState { dt: self.registers[x], ..self }.advance(2)
    }

    pub open spec fn set_sound(self, x: int) -> CoreState {
        CoreState { st: self.registers[x], ..self }.advance(2)
    }

    pub open spec fn add_index(self, x: int) -> CoreState {
        CoreState { i: wrap16(self.i + self.reg(x)), ..self }.advance(2)
    }

    /// Both timers one tick closer to zero.
    pub open spec fn tick_timers(self) -> CoreState {
        CoreState {
            dt: if self.dt > 0 { (self.dt - 1) as u8 } else { 0 },
            st: if self.st > 0 { (self.st - 1) as u8 } else { 0 },
            ..self
        }
    }

    pub open spec fn font_index(self, x: int) -> CoreState {
        CoreState { i: (5 * self.reg(x)) as u16, ..self }.advance(2)
    }

    /// After a block load or store of V0..=VX: I moves past the block when `increment` holds.
    pub open spec fn after_block(self, x: int, increment: bool) -> CoreState {
        (if increment {
            CoreState { i: wrap16(self.i + x + 1), ..self }
        } else {
            self
        }).advance(2)
    }
}

/// `k` is the lowest-numbered key that is down.
pub open spec fn is_lowest_pressed(keypad: Seq<bool>, k: int) -> bool {
    &&& 0 <= k < 16
    &&& keypad[k]
    &&& forall|j: int| 0 <= j < k ==> !keypad[j]
}

pub open spec fn any_pressed(keypad: Seq<bool>) -> bool {
    exists|k: int| 0 <= k < 16 && keypad[k]
}

/// Memory with `bytes` written from address `at` on.
pub open spec fn write_bytes(ram: Seq<u8>, at: int, bytes: Seq<u8>) -> Seq<u8> {
    Seq::new(
        ram.len(),
        |a: int|
            if at <= a < at + bytes.len() {
                bytes[a - at]
            } else {
                ram[a]
            },
    )
}

/// The three decimal digits of `v`, most significant first.
pub open spec fn bcd_digits(v: u8) -> Seq<u8> {
    seq![(v / 100) as u8, ((v / 10) % 10) as u8, (v % 10) as u8]
}

/// Where a sprite drawn at origin (`vx`, `vy`) puts its pixel (`row`, `col`), if on screen.
/// The origin itself has already been wrapped onto the screen.
pub open spec fn sprite_column(p: Platform, vx: int, px: int) -> int {
    if p.quirks.wrap_sprites {
        (px - vx) % (p.video_width as int)
    } else {
        px - vx
    }
}

pub open spec fn sprite_row(p: Platform, vy: int, py: int) -> int {
    if p.quirks.wrap_sprites {
        (py - vy) % (p.video_height as int)
    } else {
        py - vy
    }
}

/// Whether cell `k` of the framebuffer is under a set bit of the `n`-row sprite
/// held in `ram` from `i`, drawn at (`vx`, `vy`).
pub open spec fn covered(ram: Seq<u8>, i: int, n: int, p: Platform, vx: int, vy: int, k: int) -> bool {
    let w = p.video_width as int;
    let col = sprite_column(p, vx, k % w);
    let row = sprite_row(p, vy, k / w);
    &&& 0 <= col < 8
    &&& 0 <= row < n
    &&& sprite_bit(ram[i + row], col)
}

/// Framebuffer after XOR-drawing the sprite.
pub open spec fn drawn(video: Seq<u8>, ram: Seq<u8>, i: int, n: int, p: Platform, vx: int, vy: int) -> Seq<u8> {
    Seq::new(
        video.len(),
        |k: int|
            if covered(ram, i, n, p, vx, vy, k) {
                video[k] ^ 1u8
            } else {
                video[k]
            },
    )
}

/// Whether drawing the sprite turns off a pixel that was on.
pub open spec fn collides(video: Seq<u8>, ram: Seq<u8>, i: int, n: int, p: Platform, vx: int, vy: int) -> bool {
    exists|k: int|
        0 <= k < video.len() && #[trigger] covered(ram, i, n, p, vx, vy, k) && video[k] & 1u8 == 1u8
}

impl MemoryState {
    pub open spec fn wf(self) -> bool {
        self.ram.len() == 0x1000 && self.keypad.len() == 16
    }

    pub open spec fn has_color(self, p: Platform, x: int, y: int) -> bool {
        self.video[y * p.video_width + x] == 1
    }

    pub open spec fn cleared(self) -> MemoryState {
        MemoryState { video: Seq::new(self.video.len(), |k: int| 0u8), ..self }
    }
}

/// The instruction word stored big-endian at `pc`.
pub open spec fn word_at(ram: Seq<u8>, pc: int) -> u16 {
    (ram[pc] * 0x100 + ram[pc + 1]) as u16
}

/// `after` and `result` are what executing `word` on `before` gives, with `r`
/// the byte a random instruction draws.
pub open spec fn executes_to(
    before: MachineState,
    after: MachineState,
    result: Result<(), ExecutionError>,
    word: u16,
    p: Platform,
    r: u8,
) -> bool {
    match before.execute(word, p, r) {
        Ok(m) => result == Ok::<(), ExecutionError>(()) && after == m,
        Err(e) => result == Err::<(), ExecutionError>(e) && after == before,
    }
}

/// An instruction word split into the fields the instruction families use.
#[derive(Debug, Clone, Copy, PartialEq, Eq, Structural)]
pub struct Instruction {
    /// The top nibble: which family the instruction belongs to.
    pub class: u16,
    /// The second nibble: a register index.
    pub x: usize,
    /// The third nibble: a register index.
    pub y: usize,
    /// The low nibble.
    pub n: u16,
    /// The low byte.
    pub nn: u8,
    /// The low 12 bits: an address.
    pub nnn: u16,
}

impl Instruction {
    /// Splits `word` into its fields.
    pub fn decode(word: u16) -> (r: Instruction)
        ensures
            r.class == class_of(word),
            r.x == x_of(word),
            r.y == y_of(word),
            r.n == n_of(word),
            r.nn == nn_of(word),
            r.nnn == nnn_of(word),
            r.class < 16 && r.x < 16 && r.y < 16 && r.n < 16 && r.nnn < 0x1000,
    {
        proof {
            lemma_field_ranges(word);
            lemma_field_bits(word);
        }
        Instruction {
            class: (word & 0xF000) >> 12,
            x: ((word & 0x0F00) >> 8) as usize,
            y: ((word & 0x00F0) >> 4) as usize,
            n: word & 0x000F,
            nn: (word & 0x00FF) as u8,
            nnn: word & 0x0FFF,
        }
    }
}

/// The instruction fields are nibbles, bytes and 12-bit addresses.
pub proof fn lemma_field_ranges(word: u16)
    ensures
        class_of(word) < 16,
        x_of(word) < 16,
        y_of(word) < 16,
        n_of(word) < 16,
        nnn_of(word) < 0x1000,
{
}

/// Masking and shifting an instruction word gives its fields.
pub proof fn lemma_field_bits(word: u16)
    ensures
        (word & 0xF000) >> 12u16 == class_of(word),
        (word & 0x0F00) >> 8u16 == x_of(word),
        (word & 0x00F0) >> 4u16 == y_of(word),
        word & 0x000F == n_of(word),
        (word & 0x00FF) as u8 == nn_of(word),
        word & 0x0FFF == nnn_of(word),
{
    assert((word & 0xF000) >> 12u16 == word / 0x1000) by (bit_vector);
    assert((word & 0x0F00) >> 8u16 == (word / 0x100) % 0x10) by (bit_vector);
    assert((word & 0x00F0) >> 4u16 == (word / 0x10) % 0x10) by (bit_vector);
    assert(word & 0x000F == word % 0x10) by (bit_vector);
    assert(word & 0x00FF == word % 0x100) by (bit_vector);
    assert(word & 0x0FFF == word % 0x1000) by (bit_vector);
}

impl MachineState {
    pub open spec fn wf(self) -> bool {
        self.core.wf() && self.mem.wf()
    }

    pub open spec fn with_core(self, core: CoreState) -> MachineState {
        MachineState { core, ..self }
    }

    pub open spec fn with_ram(self, ram: Seq<u8>) -> MachineState {
        MachineState { mem: MemoryState { ram, ..self.mem }, ..self }
    }

    pub open spec fn with_keypad(self, keypad: Seq<bool>) -> MachineState {
        MachineState { mem: MemoryState { keypad, ..self.mem }, ..self }
    }

    pub open spec fn clear_screen(self) -> MachineState {
        MachineState { core: self.core.advance(2), mem: self.mem.cleared() }
    }

    /// Skip when key VX is down (`pressed`) or up (`!pressed`).
    pub open spec fn skip_key(self, x: int, pressed: bool) -> MachineState {
        self.with_core(self.core.skip_if(self.mem.keypad[self.core.reg(x)] == pressed))
    }

    /// Store the lowest key that is down into VX and move on; with no key down, change nothing.
    pub open spec fn wait_key(self, x: int) -> MachineState {
        if any_pressed(self.mem.keypad) {
            let k = choose|k: int| is_lowest_pressed(self.mem.keypad, k);
            self.with_core(self.core.set_reg(x, k as u8).advance(2))
        } else {
            self
        }
    }

    pub open spec fn store_bcd(self, x: int) -> MachineState {
        MachineState {
            core: self.core.advance(2),
            mem: MemoryState {
                ram: write_bytes(self.mem.ram, self.core.i as int, bcd_digits(self.core.registers[x])),
                ..self.mem
            },
        }
    }

    pub open spec fn store_registers(self, x: int, increment: bool) -> MachineState {
        MachineState {
            core: self.core.after_block(x, increment),
            mem: MemoryState {
                ram: write_bytes(self.mem.ram, self.core.i as int, self.core.registers.take(x + 1)),
                ..self.mem
            },
        }
    }

    pub open spec fn load_registers(self, x: int, increment: bool) -> MachineState {
        let i = self.core.i as int;
        let loaded = CoreState {
            registers: write_bytes(self.core.registers, 0, self.mem.ram.subrange(i, i + x + 1)),
            ..self.core
        };
        self.with_core(loaded.after_block(x, increment))
    }

    /// Draw the `n`-row sprite at I to (VX mod width, VY mod height); VF reports a collision.
    pub open spec fn draw(self, x: int, y: int, n: int, p: Platform) -> MachineState {
        let vx = self.core.reg(x) % (p.video_width as int);
        let vy = self.core.reg(y) % (p.video_height as int);
        let i = self.core.i as int;
        MachineState {
            core: self.core.set_reg(
                15,
                if collides(self.mem.video, self.mem.ram, i, n, p, vx, vy) {
                    1u8
                } else {
                    0u8
                },
            ).advance(2),
            mem: MemoryState { video: drawn(self.mem.video, self.mem.ram, i, n, p, vx, vy), ..self.mem },
        }
    }

    /// The effect of executing `word` on `platform`; `r` is the byte a random
    /// instruction draws. On an error nothing changes.
    pub open spec fn execute(self, word: u16, p: Platform, r: u8) -> Result<
        MachineState,
        ExecutionError,
    > {
        let (c, x, y, n) = (class_of(word), x_of(word) as int, y_of(word) as int, n_of(word));
        let nn = nn_of(word);
        let nnn = nnn_of(word);
        let core = self.core;
        let q = p.quirks;
        let i = core.i as int;
        if c == 0 && x == 0 && y == 0xE && n == 0 {
            Ok(self.clear_screen())
        } else if c == 0 && x == 0 && y == 0xE && n == 0xE {
            if core.sp == 0 {
                Err(ExecutionError::StackUnderflow)
            } else if core.sp > 16 {
                Err(ExecutionError::StackOverflow)
            } else {
                Ok(self.with_core(core.ret()))
            }
        } else if c == 1 {
            Ok(self.with_core(core.jump(nnn)))
        } else if c == 2 {
            if core.sp >= 16 {
                Err(ExecutionError::StackOverflow)
            } else {
                Ok(self.with_core(core.call(nnn)))
            }
        } else if c == 3 {
            Ok(self.with_core(core.skip_eq_imm(x, nn)))
        } else if c == 4 {
            Ok(self.with_core(core.skip_ne_imm(x, nn)))
        } else if c == 5 && n == 0 {
            Ok(self.with_core(core.skip_eq_reg(x, y)))
        } else if c == 6 {
            Ok(self.with_core(core.load_imm(x, nn)))
        } else if c == 7 {
            Ok(self.with_core(core.add_imm(x, nn)))
        } else if c == 8 && n == 0 {
            Ok(self.with_core(core.copy_reg(x, y)))
        } else if c == 8 && n == 1 {
            Ok(self.with_core(core.or_reg(x, y, q.vf_reset)))
        } else if c == 8 && n == 2 {
            Ok(self.with_core(core.and_reg(x, y, q.vf_reset)))
        } else if c == 8 && n == 3 {
            Ok(self.with_core(core.xor_reg(x, y, q.vf_reset)))
        } else if c == 8 && n == 4 {
            Ok(self.with_core(core.add_reg(x, y)))
        } else if c == 8 && n == 5 {
            Ok(self.with_core(core.sub_reg(x, y)))
        } else if c == 8 && n == 6 {
            Ok(self.with_core(core.shift_right(x, y, q.shift_uses_second_operand)))
        } else if c == 8 && n == 7 {
            Ok(self.with_core(core.subn_reg(x, y)))
        } else if c == 8 && n == 0xE {
            Ok(self.with_core(core.shift_left(x, y, q.shift_uses_second_operand)))
        } else if c == 9 && n == 0 {
            Ok(self.with_core(core.skip_ne_reg(x, y)))
        } else if c == 0xA {
            Ok(self.with_core(core.set_index(nnn)))
        } else if c == 0xB {
            Ok(self.with_core(core.jump_offset(nnn, q.jump_adds_register_x)))
        } else if c == 0xC {
            Ok(self.with_core(core.random(x, nn, r)))
        } else if c == 0xD {
            if i + n > 0x1000 {
                Err(ExecutionError::MemoryAccessError(core.i))
            } else {
                Ok(self.draw(x, y, n as int, p))
            }
        } else if c == 0xE && ((y == 9 && n == 0xE) || (y == 0xA && n == 1)) {
            if core.reg(x) >= 16 {
                Err(ExecutionError::InvalidKey(core.registers[x]))
            } else {
                Ok(self.skip_key(x, y == 9))
            }
        } else if c == 0xF && y == 0 && n == 7 {
            Ok(self.with_core(core.load_delay(x)))
        } else if c == 0xF && y == 0 && n == 0xA {
            Ok(self.wait_key(x))
        } else if c == 0xF && y == 1 && n == 5 {
            Ok(self.with_core(core.set_delay(x)))
        } else if c == 0xF && y == 1 && n == 8 {
            Ok(self.with_core(core.set_sound(x)))
        } else if c == 0xF && y == 1 && n == 0xE {
            Ok(self.with_core(core.add_index(x)))
        } else if c == 0xF && y == 2 && n == 9 {
            Ok(self.with_core(core.font_index(x)))
        } else if c == 0xF && y == 3 && n == 3 {
            if i + 3 > 0x1000 {
                Err(ExecutionError::MemoryAccessError(core.i))
            } else {
                Ok(self.store_bcd(x))
            }
        } else if c == 0xF && y == 5 && n == 5 {
            if i + x + 1 > 0x1000 {
                Err(ExecutionError::MemoryAccessError(core.i))
            } else {
                Ok(self.store_registers(x, q.load_store_increment_index))
            }
        } else if c == 0xF && y == 6 && n == 5 {
            if i + x + 1 > 0x1000 {
                Err(ExecutionError::MemoryAccessError(core.i))
            } else {
                Ok(self.load_registers(x, q.load_store_increment_index))
            }
        } else {
            Err(ExecutionError::InvalidOpcode(word))
        }
    }
}

} // verus!
