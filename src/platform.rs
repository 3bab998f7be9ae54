use vstd::prelude::*;

verus! {

/// A hardware variant whose screen geometry and quirks a machine follows.
#[derive(Debug, Clone, Copy, PartialEq, Eq, Structural)]
pub enum Target {
    CosmacVIP,
    Modern,
    Chip48,
    SuperChip,
    XoChip,
}

/// One behaviour toggle; each changes exactly one instruction.
#[derive(Debug, Clone, Copy, PartialEq, Eq, Structural)]
pub enum Quirk {
    /// OR, AND and XOR clear VF.
    VfReset,
    /// Block load and store leave I past the last byte touched.
    LoadStoreIncrementIndex,
    /// Drawing waits for the display's blank period. The engine keeps no frame
    /// timing and draws at once; pacing draws is left to the frame driver.
    WaitForBlank,
    /// Sprite pixels past an edge wrap to the other side instead of being clipped.
    WrapSprites,
    /// Shifts work on VX in place instead of first copying VY into VX.
    ShiftUsesSecondOperand,
    /// The offset jump adds VX (X the top nibble of the address) instead of V0.
    JumpAddsRegisterX,
}

/// The set of quirks a platform has.
#[derive(Debug, Clone, Copy, PartialEq, Eq, Structural)]
pub struct Quirks {
    pub vf_reset: bool,
    pub load_store_increment_index: bool,
    pub wait_for_blank: bool,
    pub wrap_sprites: bool,
    pub shift_uses_second_operand: bool,
    pub jump_adds_register_x: bool,
}

impl Quirks {
    pub open spec fn has(self, quirk: Quirk) -> bool {
        match quirk {
            Quirk::VfReset => self.vf_reset,
            Quirk::LoadStoreIncrementIndex => self.load_store_increment_index,
            Quirk::WaitForBlank => self.wait_for_blank,
            Quirk::WrapSprites => self.wrap_sprites,
            Quirk::ShiftUsesSecondOperand => self.shift_uses_second_operand,
            Quirk::JumpAddsRegisterX => self.jump_adds_register_x,
        }
    }

    /// Whether `quirk` is in the set.
    pub fn contains(&self, quirk: Quirk) -> (r: bool)
        ensures
            r == self.has(quirk),
    {
        match quirk {
            Quirk::VfReset => self.vf_reset,
            Quirk::LoadStoreIncrementIndex => self.load_store_increment_index,
            Quirk::WaitForBlank => self.wait_for_blank,
            Quirk::WrapSprites => self.wrap_sprites,
            Quirk::ShiftUsesSecondOperand => self.shift_uses_second_operand,
            Quirk::JumpAddsRegisterX => self.jump_adds_register_x,
        }
    }
}

/// Largest screen width of any supported variant.
pub const MAX_VIDEO_WIDTH: u16 = 128;

/// Largest screen height of any supported variant.
pub const MAX_VIDEO_HEIGHT: u16 = 64;

/// Fixed description of a hardware variant.
#[derive(Debug, Clone, Copy, PartialEq, Eq, Structural)]
pub struct Platform {
    pub target: Target,
    pub video_width: u16,
    pub video_height: u16,
    pub quirks: Quirks,
    pub tick_rate: u16,
}

impl Platform {
    /// A geometry the engine can draw on: a full sprite row (8 pixels) and a
    /// full sprite column (15 rows) fit, and the screen is no larger than the
    /// largest variant.
    pub open spec fn wf(self) -> bool {
        &&& 8 <= self.video_width <= MAX_VIDEO_WIDTH
        &&& 16 <= self.video_height <= MAX_VIDEO_HEIGHT
    }

    /// Number of framebuffer cells.
    pub open spec fn frame_len(self) -> nat {
        (self.video_width * self.video_height) as nat
    }

    pub open spec fn spec_new(variant: Target) -> Platform {
        match variant {
            Target::CosmacVIP => Platform {
                target: variant,
                video_width: 64,
                video_height: 32,
                quirks: Quirks {
                    vf_reset: true,
                    load_store_increment_index: false,
                    wait_for_blank: true,
                    wrap_sprites: false,
                    shift_uses_second_operand: false,
                    jump_adds_register_x: false,
                },
                tick_rate: 15,
            },
            Target::Modern => Platform {
                target: variant,
                video_width: 64,
                video_height: 32,
                quirks: Quirks {
                    vf_reset: true,
                    load_store_increment_index: false,
                    wait_for_blank: true,
                    wrap_sprites: false,
                    shift_uses_second_operand: false,
                    jump_adds_register_x: false,
                },
                tick_rate: 12,
            },
            Target::Chip48 => Platform {
                target: variant,
                video_width: 64,
                video_height: 32,
                quirks: Quirks {
                    vf_reset: false,
                    load_store_increment_index: false,
                    wait_for_blank: false,
                    wrap_sprites: false,
                    shift_uses_second_operand: true,
                    jump_adds_register_x: true,
                },
                tick_rate: 30,
            },
            Target::SuperChip => Platform {
                target: variant,
                video_width: 128,
                video_height: 64,
                quirks: Quirks {
                    vf_reset: false,
                    load_store_increment_index: true,
                    wait_for_blank: false,
                    wrap_sprites: false,
                    shift_uses_second_operand: false,
                    jump_adds_register_x: false,
                },
                tick_rate: 30,
            },
            Target::XoChip => Platform {
                target: variant,
                video_width: 128,
                video_height: 64,
                quirks: Quirks {
                    vf_reset: false,
                    load_store_increment_index: false,
                    wait_for_blank: false,
                    wrap_sprites: true,
                    shift_uses_second_operand: false,
                    jump_adds_register_x: false,
                },
                tick_rate: 100,
            },
        }
    }

    /// The fixed configuration of `variant`.
    pub fn new(variant: Target) -> (r: Self)
        ensures
            r == Self::spec_new(variant),
            r.wf(),
    {
        let no_quirks = Quirks {
            vf_reset: false,
            load_store_increment_index: false,
            wait_for_blank: false,
            wrap_sprites: false,
            shift_uses_second_operand: false,
            jump_adds_register_x: false,
        };
        match variant {
            Target::CosmacVIP => Self {
                target: variant,
                video_width: 64,
                video_height: 32,
                quirks: Quirks { vf_reset: true, wait_for_blank: true, ..no_quirks },
                tick_rate: 15,
            },
            Target::Modern => Self {
                target: variant,
                video_width: 64,
                video_height: 32,
                quirks: Quirks { vf_reset: true, wait_for_blank: true, ..no_quirks },
                tick_rate: 12,
            },
            Target::Chip48 => Self {
                target: variant,
                video_width: 64,
                video_height: 32,
                quirks: Quirks {
                    shift_uses_second_operand: true,
                    jump_adds_register_x: true,
                    ..no_quirks
                },
                tick_rate: 30,
            },
            Target::SuperChip => Self {
                target: variant,
                video_width: 128,
                video_height: 64,
                quirks: Quirks { load_store_increment_index: true, ..no_quirks },
                tick_rate: 30,
            },
            Target::XoChip => Self {
                target: variant,
                video_width: 128,
                video_height: 64,
                quirks: Quirks { wrap_sprites: true, ..no_quirks },
                tick_rate: 100,
            },
        }
    }

    /// The COSMAC VIP configuration.
    pub fn default() -> (r: Self)
        ensures
            r == Self::spec_new(Target::CosmacVIP),
            r.wf(),
    {
        Self::new(Target::CosmacVIP)
    }

    /// Whether this platform has `quirk`.
    pub fn has_quirk(&self, quirk: Quirk) -> (r: bool)
        ensures
            r == self.quirks.has(quirk),
    {
        self.quirks.contains(quirk)
    }

    /// Whether the geometry is one the engine can draw on.
    pub fn is_valid(&self) -> (r: bool)
        ensures
            r == self.wf(),
    {
        8 <= self.video_width && self.video_width <= MAX_VIDEO_WIDTH && 16 <= self.video_height
            && self.video_height <= MAX_VIDEO_HEIGHT
    }
}

} // verus!
