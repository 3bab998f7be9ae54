use vstd::prelude::*;

use crate::error::{ExecutionError, LoadError};
use crate::machine::{executes_to, initial_ram, word_at, write_bytes, CoreState, MachineState};
use crate::platform::{Platform, Target};
use crate::random::DEFAULT_SEED;
use crate::state::State;
use crate::virtual_machine::VirtualMachine;
use crate::{MAX_PROGRAM_SIZE, PROGRAM_START_ADDRESS};

verus! {

/// A machine together with its platform, its loaded program and its life-cycle state.
#[derive(Debug)]
pub struct Chip8 {
    pub state: State,
    platform: Platform,
    vm: VirtualMachine,
    program_size: usize,
}

/// A machine for `p` at power-on: the font in memory and nothing else.
pub open spec fn power_on(p: Platform) -> MachineState {
    MachineState {
        core: CoreState::initial(),
        mem: crate::machine::MemoryState {
            ram: initial_ram(),
            video: Seq::new(p.frame_len(), |k: int| 0u8),
            keypad: Seq::new(16, |k: int| false),
        },
    }
}

/// `after` is what one `step` makes of `before`, and `r` what it returns.
pub open spec fn stepped(before: Chip8, after: Chip8, r: Result<(), ExecutionError>) -> bool {
    let m = before.machine();
    let pc = m.core.pc as int;
    &&& after.wf()
    &&& after.config() == before.config()
    &&& after.program_size() == before.program_size()
    &&& if pc >= PROGRAM_START_ADDRESS + before.program_size() {
        r is Ok && after.status() == State::Finished && after.machine() == m
    } else if before.status() != State::Running {
        r is Ok && after.status() == before.status() && after.machine() == m
    } else if pc + 1 >= 0x1000 {
        r == Err::<(), ExecutionError>(ExecutionError::MemoryAccessError(m.core.pc))
            && after.status() == before.status() && after.machine() == m
    } else {
        &&& after.status() == before.status()
        &&& exists|b: u8|
            executes_to(m, after.machine(), r, word_at(m.mem.ram, pc), before.config(), b)
    }
}

/// `after` is what `n` steps that all succeed make of `before`.
pub open spec fn ran(before: Chip8, after: Chip8, n: nat) -> bool
    decreases n,
{
    if n == 0 {
        after == before
    } else {
        exists|mid: Chip8| ran(before, mid, (n - 1) as nat) && #[trigger] stepped(mid, after, Ok(()))
    }
}

/// `after` is `before` with both timers one tick closer to zero.
pub open spec fn ticked(before: Chip8, after: Chip8) -> bool {
    &&& after.wf()
    &&& after.config() == before.config()
    &&& after.program_size() == before.program_size()
    &&& after.status() == before.status()
    &&& after.machine() == before.machine().with_core(before.machine().core.tick_timers())
}

impl Chip8 {
    /// The emulated machine.
    pub closed spec fn machine(&self) -> MachineState {
        self.vm@
    }

    /// The platform the machine follows.
    pub closed spec fn config(&self) -> Platform {
        self.platform
    }

    /// The life-cycle state.
    pub closed spec fn status(&self) -> State {
        self.state
    }

    /// The length of the program last loaded.
    pub closed spec fn program_size(&self) -> nat {
        self.program_size as nat
    }

    /// The framebuffer fits the platform, and the program fits memory.
    pub closed spec fn wf(&self) -> bool {
        &&& self.platform.wf()
        &&& self.vm.video@.len() == self.platform.frame_len()
        &&& self.program_size <= MAX_PROGRAM_SIZE
    }

    /// A well-formed machine has its full memory and keypad, and a framebuffer
    /// of the platform's size.
    pub proof fn lemma_machine_wf(&self)
        requires
            self.wf(),
        ensures
            self.machine().wf(),
            self.config().wf(),
            self.machine().mem.video.len() == self.config().frame_len(),
            self.program_size() <= MAX_PROGRAM_SIZE,
    {
    }

    /// A machine for `platform`, powered off with no program.
    pub fn new(platform: Platform) -> (r: Self)
        requires
            platform.wf(),
        ensures
            r.wf(),
            r.status() == State::Off,
            r.config() == platform,
            r.program_size() == 0,
            r.machine() == power_on(platform),
    {
        Self::with_seed(platform, DEFAULT_SEED)
    }

    /// As `new`, with the random source seeded by `seed`.
    pub fn with_seed(platform: Platform, seed: u64) -> (r: Self)
        requires
            platform.wf(),
        ensures
            r.wf(),
            r.status() == State::Off,
            r.config() == platform,
            r.program_size() == 0,
            r.machine() == power_on(platform),
    {
        let vm = VirtualMachine::for_platform(&platform, seed);
        Self { vm, platform, state: State::Off, program_size: 0 }
    }

    /// The platform the machine follows.
    pub fn platform(&self) -> (r: Platform)
        ensures
            r == self.config(),
    {
        self.platform
    }

    /// Loads `rom` at the start address and starts running it. A program
    /// larger than the memory above the start address is refused and nothing changes.
    pub fn load_rom(&mut self, rom: &[u8]) -> (r: Result<(), LoadError>)
        requires
            old(self).wf(),
        ensures
            final(self).wf(),
            rom@.len() > MAX_PROGRAM_SIZE ==> r == Err::<(), LoadError>(
                LoadError::TooLarge { length: rom@.len() as usize },
            ) && *final(self) == *old(self),
            rom@.len() <= MAX_PROGRAM_SIZE ==> {
                &&& r is Ok
                &&& final(self).status() == State::Running
                &&& final(self).program_size() == rom@.len()
                &&& final(self).config() == old(self).config()
                &&& final(self).machine() == old(self).machine().with_ram(
                    write_bytes(old(self).machine().mem.ram, PROGRAM_START_ADDRESS as int, rom@),
                )
            },
    {
        if rom.len() > MAX_PROGRAM_SIZE {
            return Err(LoadError::TooLarge { length: rom.len() });
        }
        let mut k: usize = 0;
        let ghost old_ram = self.vm.ram@;
        while k < rom.len()
            invariant
                rom@.len() <= MAX_PROGRAM_SIZE,
                k <= rom@.len(),
                self.vm.ram@.len() == 4096,
                forall|a: int|
                    0 <= a < 4096 ==> self.vm.ram@[a] == (if 0x200 <= a < 0x200 + k {
                        rom@[a - 0x200]
                    } else {
                        old_ram[a]
                    }),
                self.platform == old(self).platform,
                self.state == old(self).status(),
                self.vm.video == old(self).vm.video,
                self.vm.keypad == old(self).vm.keypad,
                self.vm.registers == old(self).vm.registers,
                self.vm.stack == old(self).vm.stack,
                self.vm.i == old(self).vm.i,
                self.vm.pc == old(self).vm.pc,
                self.vm.sp == old(self).vm.sp,
                self.vm.dt == old(self).vm.dt,
                self.vm.st == old(self).vm.st,
                old_ram == old(self).vm.ram@,
            decreases rom@.len() - k,
        {
            self.vm.ram[0x200 + k] = rom[k];
            k += 1;
        }
        assert(self.vm.ram@ =~= write_bytes(old_ram, 0x200, rom@));
        self.program_size = rom.len();
        self.state = State::Running;
        Ok(())
    }

    /// Returns the machine to its power-on state, clears the screen and puts
    /// PC at the start address; a finished machine runs again.
    pub fn reset(&mut self)
        requires
            old(self).wf(),
        ensures
            final(self).wf(),
            final(self).config() == old(self).config(),
            final(self).program_size() == old(self).program_size(),
            final(self).machine() == power_on(old(self).config()),
            final(self).status() == (if old(self).status() == State::Finished {
                State::Running
            } else {
                old(self).status()
            }),
    {
        let mut vm = VirtualMachine::for_platform(&self.platform, DEFAULT_SEED);
        core::mem::swap(&mut vm.rng, &mut self.vm.rng);
        self.vm = vm;
        self.vm.op_00e0();
        self.vm.pc = PROGRAM_START_ADDRESS;
        if self.state == State::Finished {
            self.state = State::Running;
        }
    }

    /// Releases every key.
    pub fn reset_keys(&mut self)
        requires
            old(self).wf(),
        ensures
            final(self).wf(),
            final(self).status() == old(self).status(),
            final(self).config() == old(self).config(),
            final(self).program_size() == old(self).program_size(),
            final(self).machine() == old(self).machine().with_keypad(Seq::new(16, |k: int| false)),
    {
        self.vm.keypad = [false; 16];
        assert(self.vm.keypad@ =~= Seq::new(16, |k: int| false));
    }

    /// Presses key `i`.
    pub fn key_down(&mut self, i: usize)
        requires
            old(self).wf(),
            i < 16,
        ensures
            final(self).wf(),
            final(self).status() == old(self).status(),
            final(self).config() == old(self).config(),
            final(self).program_size() == old(self).program_size(),
            final(self).machine() == old(self).machine().with_keypad(
                old(self).machine().mem.keypad.update(i as int, true),
            ),
    {
        self.vm.keypad[i] = true;
    }

    /// Whether the pixel at column `x`, row `y` is lit.
    pub fn has_color(&self, x: u16, y: u16) -> (r: bool)
        requires
            self.wf(),
            x < self.config().video_width,
            y < self.config().video_height,
        ensures
            r == self.machine().mem.has_color(self.config(), x as int, y as int),
    {
        assert(y * self.platform.video_width + x < self.platform.frame_len() <= 8192)
            by (nonlinear_arith)
            requires
                x < self.platform.video_width,
                y < self.platform.video_height,
                self.platform.video_width <= 128,
                self.platform.video_height <= 64,
                self.platform.frame_len() == self.platform.video_width * self.platform.video_height,
        ;
        self.vm.video[y as usize * self.platform.video_width as usize + x as usize] == 1
    }

    /// Counts both timers down by one, stopping at zero.
    pub fn tick_timers(&mut self)
        requires
            old(self).wf(),
        ensures
            final(self).wf(),
            final(self).status() == old(self).status(),
            final(self).config() == old(self).config(),
            final(self).program_size() == old(self).program_size(),
            final(self).machine() == old(self).machine().with_core(
                old(self).machine().core.tick_timers(),
            ),
    {
        if self.vm.dt > 0 {
            self.vm.dt -= 1;
        }
        if self.vm.st > 0 {
            self.vm.st -= 1;
        }
    }

    /// The instruction word at PC.
    fn opcode(&self) -> (r: Result<u16, ExecutionError>)
        ensures
            self.machine().core.pc + 1 >= 0x1000 ==> r == Err::<u16, ExecutionError>(
                ExecutionError::MemoryAccessError(self.machine().core.pc),
            ),
            self.machine().core.pc + 1 < 0x1000 ==> r == Ok::<u16, ExecutionError>(
                word_at(self.machine().mem.ram, self.machine().core.pc as int),
            ),
    {
        self.vm.fetch()
    }

    /// Runs one instruction when the machine is running. A machine whose PC
    /// has reached the end of the program becomes finished instead.
    pub fn step(&mut self) -> (r: Result<(), ExecutionError>)
        requires
            old(self).wf(),
        ensures
            stepped(*old(self), *final(self), r),
    {
        if self.vm.pc as usize >= PROGRAM_START_ADDRESS as usize + self.program_size {
            self.state = State::Finished;
            return Ok(());
        }
        if self.state != State::Running {
            return Ok(());
        }
        match self.opcode() {
            Ok(opcode) => {
                let platform = self.platform;
                let ghost pre = self.vm@;
                let r = self.vm.execute(opcode, &platform);
                proof {
                    let b = choose|b: u8| executes_to(pre, self.vm@, r, opcode, platform, b);
                    assert(executes_to(old(self).machine(), self.machine(), r, opcode, old(self).config(), b));
                }
                r
            },
            Err(e) => Err(e),
        }
    }

    /// Runs one display frame: up to `tick_rate` steps, stopping at the first
    /// error. When every step succeeds both timers then tick once.
    pub fn run_frame(&mut self) -> (r: Result<(), ExecutionError>)
        requires
            old(self).wf(),
        ensures
            final(self).wf(),
            r is Ok ==> exists|mid: Chip8|
                ran(*old(self), mid, old(self).config().tick_rate as nat) && #[trigger] ticked(
                    mid,
                    *final(self),
                ),
            r is Err ==> exists|k: nat, mid: Chip8|
                k < old(self).config().tick_rate && #[trigger] ran(*old(self), mid, k) && stepped(
                    mid,
                    *final(self),
                    r,
                ),
    {
        let n = self.platform.tick_rate;
        let mut k: u16 = 0;
        while k < n
            invariant
                self.wf(),
                k <= n,
                n == old(self).config().tick_rate,
                ran(*old(self), *self, k as nat),
            decreases n - k,
        {
            let ghost prev = *self;
            let r = self.step();
            if r.is_err() {
                proof {
                    assert(ran(*old(self), prev, k as nat) && stepped(prev, *self, r));
                }
                return r;
            }
            proof {
                assert(stepped(prev, *self, Ok(())));
                assert(ran(*old(self), *self, (k + 1) as nat));
            }
            k += 1;
        }
        let ghost mid = *self;
        self.tick_timers();
        assert(ticked(mid, *self));
        Ok(())
    }
}

impl Default for Chip8 {
    /// A COSMAC VIP machine, powered off with no program.
    fn default() -> (r: Self)
        ensures
            r.wf(),
            r.status() == State::Off,
            r.config() == Platform::spec_new(Target::CosmacVIP),
            r.program_size() == 0,
            r.machine() == power_on(Platform::spec_new(Target::CosmacVIP)),
    {
        Self::new(Platform::default())
    }
}

} // verus!
