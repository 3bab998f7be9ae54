use vstd::prelude::*;

use crate::error::ExecutionError;
use crate::machine::{
    class_of, executes_to, initial_ram, word_at, CoreState, Instruction, MachineState, MemoryState,
};
use crate::ops::{
    blank_frame, draw_sprite, first_pressed_key, initial_memory, load_block, store_block, write_bcd,
};
use crate::platform::{Platform, Quirk};
use crate::random::{next_byte, seeded_rng, DEFAULT_SEED};
use crate::{CHAR_SIZE, MEMORY_SIZE, PROGRAM_START_ADDRESS};

verus! {

/// One emulated machine: registers, memory, framebuffer, keypad and a random source.
#[derive(Debug)]
pub struct VirtualMachine {
    pub ram: [u8; 4096],
    pub keypad: [bool; 16],
    pub video: Vec<u8>,
    pub i: u16,
    pub pc: u16,
    pub sp: u8,
    pub dt: u8,
    pub st: u8,
    pub stack: [u16; 16],
    pub registers: [u8; 16],
    /// The source random instructions draw from; replace it to inject another.
    pub rng: fastrand::Rng,
}

impl View for VirtualMachine {
    type V = MachineState;

    open spec fn view(&self) -> MachineState {
        MachineState {
            core: CoreState {
                registers: self.registers@,
                stack: self.stack@,
                i: self.i,
                pc: self.pc,
                sp: self.sp,
                dt: self.dt,
                st: self.st,
            },
            mem: MemoryState { ram: self.ram@, video: self.video@, keypad: self.keypad@ },
        }
    }
}

impl VirtualMachine {
    /// Power-on state with a framebuffer of `frame_len` cells.
    pub open spec fn is_initial(&self, frame_len: nat) -> bool {
        &&& self@.core == CoreState::initial()
        &&& self@.mem.ram == initial_ram()
        &&& self@.mem.video == Seq::new(frame_len, |k: int| 0u8)
        &&& self@.mem.keypad == Seq::new(16, |k: int| false)
    }

    /// A machine for the 64x32 screen with the default random seed.
    pub fn new() -> (r: Self)
        ensures
            r.is_initial(2048),
    {
        Self::build(2048, DEFAULT_SEED)
    }

    /// A machine sized for `platform`'s screen, its random source seeded with `seed`.
    pub fn for_platform(platform: &Platform, seed: u64) -> (r: Self)
        requires
            platform.wf(),
        ensures
            r.is_initial(platform.frame_len()),
    {
        assert(platform.frame_len() <= 8192) by (nonlinear_arith)
            requires
                platform.frame_len() == platform.video_width * platform.video_height,
                platform.video_width <= 128,
                platform.video_height <= 64,
        ;
        Self::build(platform.video_width as usize * platform.video_height as usize, seed)
    }

    fn build(frame_len: usize, seed: u64) -> (r: Self)
        ensures
            r.is_initial(frame_len as nat),
    {
        let r = Self {
            ram: initial_memory(),
            keypad: [false; 16],
            video: blank_frame(frame_len),
            i: 0,
            pc: PROGRAM_START_ADDRESS,
            sp: 0,
            dt: 0,
            st: 0,
            stack: [0; 16],
            registers: [0; 16],
            rng: seeded_rng(seed),
        };
        assert(r@.core.registers =~= Seq::new(16, |k: int| 0u8));
        assert(r@.core.stack =~= Seq::new(16, |k: int| 0u16));
        assert(r@.mem.keypad =~= Seq::new(16, |k: int| false));
        r
    }

    /// A byte from the machine's random source; nothing else changes.
    pub fn rand_byte(&mut self) -> (r: u8)
        ensures
            final(self)@ == old(self)@,
    {
        next_byte(&mut self.rng)
    }

    /// The instruction word at PC; fails when its second byte lies past the end of memory.
    pub fn fetch(&self) -> (r: Result<u16, ExecutionError>)
        ensures
            self.pc + 1 >= 0x1000 ==> r == Err::<u16, ExecutionError>(
                ExecutionError::MemoryAccessError(self.pc),
            ),
            self.pc + 1 < 0x1000 ==> r == Ok::<u16, ExecutionError>(
                word_at(self.ram@, self.pc as int),
            ),
    {
        let pc = self.pc as usize;
        if pc + 1 >= MEMORY_SIZE {
            return Err(ExecutionError::MemoryAccessError(self.pc));
        }
        let (hi, lo) = (self.ram[pc], self.ram[pc + 1]);
        proof {
            assert((hi as u16) << 8u16 | (lo as u16) == hi as u16 * 0x100 + lo as u16) by (bit_vector);
        }
        Ok((hi as u16) << 8 | lo as u16)
    }

    /// Executes one instruction word. A random instruction draws its byte from
    /// the machine's source; every other instruction behaves as `execute_with` does.
    pub fn execute(&mut self, opcode: u16, platform: &Platform) -> (r: Result<(), ExecutionError>)
        requires
            platform.wf(),
            old(self).video@.len() == platform.frame_len(),
        ensures
            exists|b: u8| executes_to(old(self)@, final(self)@, r, opcode, *platform, b),
            class_of(opcode) != 0xC ==> executes_to(old(self)@, final(self)@, r, opcode, *platform, 0),
    {
        let random = if Instruction::decode(opcode).class == 0xC {
            self.rand_byte()
        } else {
            0
        };
        let r = self.execute_with(opcode, platform, random);
        assert(executes_to(old(self)@, self@, r, opcode, *platform, random));
        r
    }

    /// Executes one instruction word, `random` standing for the byte a random instruction draws.
    pub fn execute_with(&mut self, opcode: u16, platform: &Platform, random: u8) -> (r: Result<
        (),
        ExecutionError,
    >)
        requires
            platform.wf(),
            old(self).video@.len() == platform.frame_len(),
        ensures
            executes_to(old(self)@, final(self)@, r, opcode, *platform, random),
    {
        let Instruction { class: c, x, y, n: d, nn, nnn } = Instruction::decode(opcode);
        let i = self.i as usize;

        match (c, x, y, d) {
            (0x0, 0x0, 0xE, 0x0) => self.op_00e0(),
            (0x0, 0x0, 0xE, 0xE) => {
                if self.sp == 0 {
                    return Err(ExecutionError::StackUnderflow);
                } else if self.sp > 16 {
                    return Err(ExecutionError::StackOverflow);
                }
                self.op_00ee()
            },
            (0x1, _, _, _) => self.op_1nnn(nnn),
            (0x2, _, _, _) => {
                if self.sp >= 16 {
                    return Err(ExecutionError::StackOverflow);
                }
                self.op_2nnn(nnn)
            },
            (0x3, _, _, _) => self.op_3xkk(x, nn),
            (0x4, _, _, _) => self.op_4xkk(x, nn),
            (0x5, _, _, 0x0) => self.op_5xy0(x, y),
            (0x6, _, _, _) => self.op_6xkk(x, nn),
            (0x7, _, _, _) => self.op_7xkk(x, nn),
            (0x8, _, _, 0x0) => self.op_8xy0(x, y),
            (0x8, _, _, 0x1) => self.op_8xy1(platform, x, y),
            (0x8, _, _, 0x2) => self.op_8xy2(platform, x, y),
            (0x8, _, _, 0x3) => self.op_8xy3(platform, x, y),
            (0x8, _, _, 0x4) => self.op_8xy4(x, y),
            (0x8, _, _, 0x5) => self.op_8xy5(x, y),
            (0x8, _, _, 0x6) => self.op_8xy6(platform, x, y),
            (0x8, _, _, 0x7) => self.op_8xy7(x, y),
            (0x8, _, _, 0xE) => self.op_8xye(platform, x, y),
            (0x9, _, _, 0x0) => self.op_9xy0(x, y),
            (0xA, _, _, _) => self.op_annn(nnn),
            (0xB, _, _, _) => self.op_bnnn(platform, nnn),
            (0xC, _, _, _) => self.op_cxkk_with(x, nn, random),
            (0xD, _, _, _) => {
                if i + d as usize > MEMORY_SIZE {
                    return Err(ExecutionError::MemoryAccessError(self.i));
                }
                self.op_dxyn(platform, x, y, d as u8)
            },
            (0xE, _, 0x9, 0xE) => {
                if self.registers[x] >= 16 {
                    return Err(ExecutionError::InvalidKey(self.registers[x]));
                }
                self.op_ex9e(x)
            },
            (0xE, _, 0xA, 0x1) => {
                if self.registers[x] >= 16 {
                    return Err(ExecutionError::InvalidKey(self.registers[x]));
                }
                self.op_exa1(x)
            },
            (0xF, _, 0x0, 0x7) => self.op_fx07(x),
            (0xF, _, 0x0, 0xA) => self.op_fx0a(x),
            (0xF, _, 0x1, 0x5) => self.op_fx15(x),
            (0xF, _, 0x1, 0x8) => self.op_fx18(x),
            (0xF, _, 0x1, 0xE) => self.op_fx1e(x),
            (0xF, _, 0x2, 0x9) => self.op_fx29(x),
            (0xF, _, 0x3, 0x3) => {
                if i + 3 > MEMORY_SIZE {
                    return Err(ExecutionError::MemoryAccessError(self.i));
                }
                self.op_fx33(x)
            },
            (0xF, _, 0x5, 0x5) => {
                if i + x + 1 > MEMORY_SIZE {
                    return Err(ExecutionError::MemoryAccessError(self.i));
                }
                self.op_fx55(platform, x)
            },
            (0xF, _, 0x6, 0x5) => {
                if i + x + 1 > MEMORY_SIZE {
                    return Err(ExecutionError::MemoryAccessError(self.i));
                }
                self.op_fx65(platform, x)
            },
            _ => {
                return Err(ExecutionError::InvalidOpcode(opcode));
            },
        }
        Ok(())
    }

    /// Moves PC past the current instruction.
    pub fn sne(&mut self)
        ensures
            final(self)@ == old(self)@.with_core(old(self)@.core.advance(2)),
    {
        self.pc = self.pc.wrapping_add(2);
    }

    /// Clear screen.
    pub fn op_00e0(&mut self)
        ensures
            final(self)@ == old(self)@.clear_screen(),
    {
        self.video = blank_frame(self.video.len());
        self.sne();
    }

    /// Return from a subroutine: pop the call address and move past the call.
    pub fn op_00ee(&mut self)
        requires
            0 < old(self).sp <= 16,
        ensures
            final(self)@ == old(self)@.with_core(old(self)@.core.ret()),
    {
        self.sp -= 1;
        self.pc = self.stack[self.sp as usize];
        self.sne();
    }

    /// Jump to `nnn`.
    pub fn op_1nnn(&mut self, nnn: u16)
        ensures
            final(self)@ == old(self)@.with_core(old(self)@.core.jump(nnn)),
    {
        self.pc = nnn;
    }

    /// Call the subroutine at `nnn`, pushing the address of this instruction.
    pub fn op_2nnn(&mut self, nnn: u16)
        requires
            old(self).sp < 16,
        ensures
            final(self)@ == old(self)@.with_core(old(self)@.core.call(nnn)),
    {
        self.stack[self.sp as usize] = self.pc;
        self.sp += 1;
        self.pc = nnn;
    }

    /// Skip the next instruction if VX == `nn`.
    pub fn op_3xkk(&mut self, x: usize, nn: u8)
        requires
            x < 16,
        ensures
            final(self)@ == old(self)@.with_core(old(self)@.core.skip_eq_imm(x as int, nn)),
    {
        if self.registers[x] == nn {
            self.sne();
        }
        self.sne();
    }

    /// Skip the next instruction if VX != `nn`.
    pub fn op_4xkk(&mut self, x: usize, nn: u8)
        requires
            x < 16,
        ensures
            final(self)@ == old(self)@.with_core(old(self)@.core.skip_ne_imm(x as int, nn)),
    {
        if self.registers[x] != nn {
            self.sne();
        }
        self.sne();
    }

    /// Skip the next instruction if VX == VY.
    pub fn op_5xy0(&mut self, x: usize, y: usize)
        requires
            x < 16,
            y < 16,
        ensures
            final(self)@ == old(self)@.with_core(old(self)@.core.skip_eq_reg(x as int, y as int)),
    {
        if self.registers[x] == self.registers[y] {
            self.sne();
        }
        self.sne();
    }

    /// VX = `nn`.
    pub fn op_6xkk(&mut self, x: usize, nn: u8)
        requires
            x < 16,
        ensures
            final(self)@ == old(self)@.with_core(old(self)@.core.load_imm(x as int, nn)),
    {
        self.registers[x] = nn;
        self.sne();
    }

    /// VX = VX + `nn`, wrapping; VF is left alone.
    pub fn op_7xkk(&mut self, x: usize, nn: u8)
        requires
            x < 16,
        ensures
            final(self)@ == old(self)@.with_core(old(self)@.core.add_imm(x as int, nn)),
    {
        self.registers[x] = self.registers[x].wrapping_add(nn);
        self.sne();
    }

    /// VX = VY.
    pub fn op_8xy0(&mut self, x: usize, y: usize)
        requires
            x < 16,
            y < 16,
        ensures
            final(self)@ == old(self)@.with_core(old(self)@.core.copy_reg(x as int, y as int)),
    {
        self.registers[x] = self.registers[y];
        self.sne();
    }

    /// Clears VF after a logic instruction when the platform asks for it.
    fn logic_flag(&mut self, platform: &Platform)
        ensures
            final(self)@ == (if platform.quirks.vf_reset {
                old(self)@.with_core(old(self)@.core.set_reg(15, 0))
            } else {
                old(self)@
            }),
    {
        if platform.has_quirk(Quirk::VfReset) {
            self.registers[0xF] = 0;
        }
    }

    /// VX = VX | VY.
    pub fn op_8xy1(&mut self, platform: &Platform, x: usize, y: usize)
        requires
            x < 16,
            y < 16,
        ensures
            final(self)@ == old(self)@.with_core(
                old(self)@.core.or_reg(x as int, y as int, platform.quirks.vf_reset),
            ),
    {
        self.registers[x] = self.registers[x] | self.registers[y];
        self.logic_flag(platform);
        self.sne();
    }

    /// VX = VX & VY.
    pub fn op_8xy2(&mut self, platform: &Platform, x: usize, y: usize)
        requires
            x < 16,
            y < 16,
        ensures
            final(self)@ == old(self)@.with_core(
                old(self)@.core.and_reg(x as int, y as int, platform.quirks.vf_reset),
            ),
    {
        self.registers[x] = self.registers[x] & self.registers[y];
        self.logic_flag(platform);
        self.sne();
    }

    /// VX = VX ^ VY.
    pub fn op_8xy3(&mut self, platform: &Platform, x: usize, y: usize)
        requires
            x < 16,
            y < 16,
        ensures
            final(self)@ == old(self)@.with_core(
                old(self)@.core.xor_reg(x as int, y as int, platform.quirks.vf_reset),
            ),
    {
        self.registers[x] = self.registers[x] ^ self.registers[y];
        self.logic_flag(platform);
        self.sne();
    }

    /// VX = VX + VY; VF = carry.
    pub fn op_8xy4(&mut self, x: usize, y: usize)
        requires
            x < 16,
            y < 16,
        ensures
            final(self)@ == old(self)@.with_core(old(self)@.core.add_reg(x as int, y as int)),
    {
        let (a, b) = (self.registers[x], self.registers[y]);
        self.registers[x] = a.wrapping_add(b);
        self.registers[0xF] = if a as u16 + b as u16 > 0xFF { 1 } else { 0 };
        self.sne();
    }

    /// VX = VX - VY; VF = no borrow.
    pub fn op_8xy5(&mut self, x: usize, y: usize)
        requires
            x < 16,
            y < 16,
        ensures
            final(self)@ == old(self)@.with_core(old(self)@.core.sub_reg(x as int, y as int)),
    {
        let (a, b) = (self.registers[x], self.registers[y]);
        self.registers[x] = a.wrapping_sub(b);
        self.registers[0xF] = if a >= b { 1 } else { 0 };
        self.sne();
    }

    /// VX = operand >> 1; VF = the bit shifted out.
    pub fn op_8xy6(&mut self, platform: &Platform, x: usize, y: usize)
        requires
            x < 16,
            y < 16,
        ensures
            final(self)@ == old(self)@.with_core(
                old(self)@.core.shift_right(
                    x as int,
                    y as int,
                    platform.quirks.shift_uses_second_operand,
                ),
            ),
    {
        let v = if platform.has_quirk(Quirk::ShiftUsesSecondOperand) {
            self.registers[x]
        } else {
            self.registers[y]
        };
        self.registers[x] = v / 2;
        self.registers[0xF] = v % 2;
        self.sne();
    }

    /// VX = VY - VX; VF = no borrow.
    pub fn op_8xy7(&mut self, x: usize, y: usize)
        requires
            x < 16,
            y < 16,
        ensures
            final(self)@ == old(self)@.with_core(old(self)@.core.subn_reg(x as int, y as int)),
    {
        let (a, b) = (self.registers[x], self.registers[y]);
        self.registers[x] = b.wrapping_sub(a);
        self.registers[0xF] = if b >= a { 1 } else { 0 };
        self.sne();
    }

    /// VX = operand << 1; VF = the bit shifted out.
    pub fn op_8xye(&mut self, platform: &Platform, x: usize, y: usize)
        requires
            x < 16,
            y < 16,
        ensures
            final(self)@ == old(self)@.with_core(
                old(self)@.core.shift_left(
                    x as int,
                    y as int,
                    platform.quirks.shift_uses_second_operand,
                ),
            ),
    {
        let v = if platform.has_quirk(Quirk::ShiftUsesSecondOperand) {
            self.registers[x]
        } else {
            self.registers[y]
        };
        self.registers[x] = v.wrapping_mul(2);
        self.registers[0xF] = v / 128;
        self.sne();
    }

    /// Skip the next instruction if VX != VY.
    pub fn op_9xy0(&mut self, x: usize, y: usize)
        requires
            x < 16,
            y < 16,
        ensures
            final(self)@ == old(self)@.with_core(old(self)@.core.skip_ne_reg(x as int, y as int)),
    {
        if self.registers[x] != self.registers[y] {
            self.sne();
        }
        self.sne();
    }

    /// I = `nnn`.
    pub fn op_annn(&mut self, nnn: u16)
        ensures
            final(self)@ == old(self)@.with_core(old(self)@.core.set_index(nnn)),
    {
        self.i = nnn;
        self.sne();
    }

    /// Jump to V0 + `nnn`, or to VX + `nnn` on platforms whose offset jump uses VX.
    pub fn op_bnnn(&mut self, platform: &Platform, nnn: u16)
        ensures
            final(self)@ == old(self)@.with_core(
                old(self)@.core.jump_offset(nnn, platform.quirks.jump_adds_register_x),
            ),
    {
        let base = if platform.has_quirk(Quirk::JumpAddsRegisterX) {
            proof {
                assert((nnn >> 8u16) & 0xFu16 == nnn / 0x100 % 0x10) by (bit_vector);
            }
            self.registers[((nnn >> 8) & 0xF) as usize]
        } else {
            self.registers[0]
        };
        self.pc = (base as u16).wrapping_add(nnn);
    }

    /// VX = a byte drawn from the machine's random source, masked with `nn`.
    pub fn op_cxkk(&mut self, x: usize, nn: u8)
        requires
            x < 16,
        ensures
            exists|b: u8| final(self)@ == old(self)@.with_core(old(self)@.core.random(x as int, nn, b)),
    {
        let b = self.rand_byte();
        self.op_cxkk_with(x, nn, b);
    }

    /// VX = `random` & `nn`.
    pub fn op_cxkk_with(&mut self, x: usize, nn: u8, random: u8)
        requires
            x < 16,
        ensures
            final(self)@ == old(self)@.with_core(old(self)@.core.random(x as int, nn, random)),
    {
        self.registers[x] = random & nn;
        self.sne();
    }

    /// Draw the `n`-row sprite at I to (VX, VY); VF = collision.
    pub fn op_dxyn(&mut self, platform: &Platform, x: usize, y: usize, n: u8)
        requires
            platform.wf(),
            old(self).video@.len() == platform.frame_len(),
            x < 16,
            y < 16,
            n < 16,
            old(self).i + n <= 0x1000,
        ensures
            final(self)@ == old(self)@.draw(x as int, y as int, n as int, *platform),
    {
        let vx = self.registers[x] as u16 % platform.video_width;
        let vy = self.registers[y] as u16 % platform.video_height;
        let collision = draw_sprite(
            &mut self.video,
            &self.ram,
            self.i as usize,
            n as usize,
            platform,
            vx,
            vy,
        );
        self.registers[0xF] = collision;
        self.sne();
    }

    /// Skip the next instruction if key VX is down.
    pub fn op_ex9e(&mut self, x: usize)
        requires
            x < 16,
            old(self).registers[x as int] < 16,
        ensures
            final(self)@ == old(self)@.skip_key(x as int, true),
    {
        if self.keypad[self.registers[x] as usize] {
            self.sne();
        }
        self.sne();
    }

    /// Skip the next instruction if key VX is up.
    pub fn op_exa1(&mut self, x: usize)
        requires
            x < 16,
            old(self).registers[x as int] < 16,
        ensures
            final(self)@ == old(self)@.skip_key(x as int, false),
    {
        if !self.keypad[self.registers[x] as usize] {
            self.sne();
        }
        self.sne();
    }

    /// VX = delay timer.
    pub fn op_fx07(&mut self, x: usize)
        requires
            x < 16,
        ensures
            final(self)@ == old(self)@.with_core(old(self)@.core.load_delay(x as int)),
    {
        self.registers[x] = self.dt;
        self.sne();
    }

    /// Wait for a key: store the lowest key that is down into VX and move on;
    /// with no key down, stay on this instruction.
    pub fn op_fx0a(&mut self, x: usize)
        requires
            x < 16,
        ensures
            final(self)@ == old(self)@.wait_key(x as int),
    {
        match first_pressed_key(&self.keypad) {
            Some(k) => {
                self.registers[x] = k;
                self.sne();
            },
            None => {},
        }
    }

    /// Delay timer = VX.
    pub fn op_fx15(&mut self, x: usize)
        requires
            x < 16,
        ensures
            final(self)@ == old(self)@.with_core(old(self)@.core.set_delay(x as int)),
    {
        self.dt = self.registers[x];
        self.sne();
    }

    /// Sound timer = VX.
    pub fn op_fx18(&mut self, x: usize)
        requires
            x < 16,
        ensures
            final(self)@ == old(self)@.with_core(old(self)@.core.set_sound(x as int)),
    {
        self.st = self.registers[x];
        self.sne();
    }

    /// I = I + VX, wrapping at 16 bits.
    pub fn op_fx1e(&mut self, x: usize)
        requires
            x < 16,
        ensures
            final(self)@ == old(self)@.with_core(old(self)@.core.add_index(x as int)),
    {
        self.i = self.i.wrapping_add(self.registers[x] as u16);
        self.sne();
    }

    /// I = address of the font glyph for VX.
    pub fn op_fx29(&mut self, x: usize)
        requires
            x < 16,
        ensures
            final(self)@ == old(self)@.with_core(old(self)@.core.font_index(x as int)),
    {
        self.i = CHAR_SIZE as u16 * self.registers[x] as u16;
        self.sne();
    }

    /// Store the decimal digits of VX at I, I + 1, I + 2.
    pub fn op_fx33(&mut self, x: usize)
        requires
            x < 16,
            old(self).i + 3 <= 0x1000,
        ensures
            final(self)@ == old(self)@.store_bcd(x as int),
    {
        write_bcd(&mut self.ram, self.i as usize, self.registers[x]);
        self.sne();
    }

    /// Moves I past a block of `x + 1` bytes when the platform asks for it.
    fn block_index(&mut self, platform: &Platform, x: usize)
        requires
            x < 16,
        ensures
            final(self)@ == old(self)@.with_core(
                old(self)@.core.after_block(x as int, platform.quirks.load_store_increment_index),
            ),
    {
        if platform.has_quirk(Quirk::LoadStoreIncrementIndex) {
            self.i = self.i.wrapping_add(x as u16 + 1);
        }
        self.sne();
    }

    /// Store V0..=VX in memory from I on.
    pub fn op_fx55(&mut self, platform: &Platform, x: usize)
        requires
            x < 16,
            old(self).i + x + 1 <= 0x1000,
        ensures
            final(self)@ == old(self)@.store_registers(
                x as int,
                platform.quirks.load_store_increment_index,
            ),
    {
        store_block(&mut self.ram, self.i as usize, &self.registers, x);
        self.block_index(platform, x);
    }

    /// Load V0..=VX from memory from I on.
    pub fn op_fx65(&mut self, platform: &Platform, x: usize)
        requires
            x < 16,
            old(self).i + x + 1 <= 0x1000,
        ensures
            final(self)@ == old(self)@.load_registers(
                x as int,
                platform.quirks.load_store_increment_index,
            ),
    {
        load_block(&mut self.registers, &self.ram, self.i as usize, x);
        self.block_index(platform, x);
    }
}

} // verus!
