use vstd::prelude::*;

use crate::machine::{
    any_pressed, class_of, is_lowest_pressed, lemma_field_ranges, n_of, wrap16, x_of, y_of,
    MachineState,
};
use crate::platform::Platform;

verus! {

/// Adding VY into VX (word 8XY4), with VX = a and VY = b, leaves `(a + b) mod 256`
/// in VX and sets VF to 1 exactly when `a + b >= 256`. X is not VF, which the
/// flag overwrites.
pub proof fn add_with_carry(m: MachineState, word: u16, p: Platform, r: u8)
    requires
        m.wf(),
        class_of(word) == 8,
        n_of(word) == 4,
        x_of(word) != 15,
    ensures
        ({
            let (a, b) = (m.core.reg(x_of(word) as int), m.core.reg(y_of(word) as int));
            match m.execute(word, p, r) {
                Ok(after) => {
                    &&& after.core.reg(x_of(word) as int) == (a + b) % 256
                    &&& (after.core.registers[15] == 1) == (a + b >= 256)
                    &&& (after.core.registers[15] == 0) == (a + b < 256)
                    &&& after.core.pc == wrap16(m.core.pc + 2)
                },
                Err(_) => false,
            }
        }),
{
    lemma_field_ranges(word);
}

/// Subtracting VY from VX (word 8XY5) sets VF to 1 exactly when VX >= VY, that
/// is when no borrow occurs, and to 0 otherwise.
pub proof fn subtract_sets_no_borrow(m: MachineState, word: u16, p: Platform, r: u8)
    requires
        m.wf(),
        class_of(word) == 8,
        n_of(word) == 5,
    ensures
        ({
            let (a, b) = (m.core.reg(x_of(word) as int), m.core.reg(y_of(word) as int));
            match m.execute(word, p, r) {
                Ok(after) => {
                    &&& (after.core.registers[15] == 1) == (a >= b)
                    &&& (after.core.registers[15] == 0) == (a < b)
                },
                Err(_) => false,
            }
        }),
{
    lemma_field_ranges(word);
}

/// Clearing the screen (word 00E0) leaves no pixel lit, whatever was drawn before.
pub proof fn clear_screen_darkens_every_pixel(m: MachineState, p: Platform, r: u8)
    requires
        m.wf(),
        p.wf(),
        m.mem.video.len() == p.frame_len(),
    ensures
        ({
            match m.execute(0x00E0, p, r) {
                Ok(after) => forall|x: int, y: int|
                    0 <= x < p.video_width && 0 <= y < p.video_height
                        ==> !#[trigger] after.mem.has_color(p, x, y),
                Err(_) => false,
            }
        }),
{
    let after = m.clear_screen();
    assert forall|x: int, y: int|
        0 <= x < p.video_width && 0 <= y < p.video_height implies !#[trigger] after.mem.has_color(
        p,
        x,
        y,
    ) by {
        assert(0 <= y * p.video_width + x < p.frame_len()) by (nonlinear_arith)
            requires
                0 <= x < p.video_width,
                0 <= y < p.video_height,
                p.frame_len() == p.video_width * p.video_height,
        ;
    }
}

/// Waiting for a key (word FX0A) with no key down changes nothing, so PC stays
/// on the instruction however often it runs; with a key down, VX receives the
/// lowest key that is down and PC moves on by 2.
pub proof fn wait_for_key(m: MachineState, word: u16, p: Platform, r: u8)
    requires
        m.wf(),
        class_of(word) == 0xF,
        y_of(word) == 0,
        n_of(word) == 0xA,
    ensures
        !any_pressed(m.mem.keypad) ==> m.execute(word, p, r) == Ok::<MachineState, crate::error::ExecutionError>(m),
        any_pressed(m.mem.keypad) ==> (match m.execute(word, p, r) {
            Ok(after) => {
                &&& after.core.pc == wrap16(m.core.pc + 2)
                &&& is_lowest_pressed(m.mem.keypad, after.core.reg(x_of(word) as int))
                &&& after.mem == m.mem
            },
            Err(_) => false,
        }),
{
    lemma_field_ranges(word);
    if any_pressed(m.mem.keypad) {
        let k0 = choose|k: int| 0 <= k < 16 && m.mem.keypad[k];
        lemma_lowest_exists(m.mem.keypad, k0);
        let k = choose|k: int| is_lowest_pressed(m.mem.keypad, k);
        let after = m.execute(word, p, r)->Ok_0;
        assert(after.core.registers[x_of(word) as int] == k as u8);
    }
}

/// When key `k0` is down, some key is the lowest one down.
proof fn lemma_lowest_exists(keypad: Seq<bool>, k0: int)
    requires
        0 <= k0 < 16,
        keypad[k0],
    ensures
        exists|k: int| is_lowest_pressed(keypad, k),
    decreases k0,
{
    if forall|j: int| 0 <= j < k0 ==> !keypad[j] {
        assert(is_lowest_pressed(keypad, k0));
    } else {
        let j = choose|j: int| 0 <= j < k0 && keypad[j];
        lemma_lowest_exists(keypad, j);
    }
}

} // verus!
