use vstd::arithmetic::div_mod::{
    lemma_fundamental_div_mod, lemma_fundamental_div_mod_converse, lemma_mod_bound,
};
use vstd::prelude::*;

use crate::machine::{
    any_pressed, bcd_digits, collides, covered, drawn, font, initial_ram, is_lowest_pressed,
    sprite_bit, sprite_column, sprite_row, write_bytes,
};
use crate::platform::Platform;

verus! {

/// Memory at power-on: the hexadecimal font from address 0, zeros above it.
pub fn initial_memory() -> (r: [u8; 4096])
    ensures
        r@ == initial_ram(),
{
    let glyphs: [u8; 80] = [
        0xF0, 0x90, 0x90, 0x90, 0xF0,  // 0
        0x20, 0x60, 0x20, 0x20, 0x70,  // 1
        0xF0, 0x10, 0xF0, 0x80, 0xF0,  // 2
        0xF0, 0x10, 0xF0, 0x10, 0xF0,  // 3
        0x90, 0x90, 0xF0, 0x10, 0x10,  // 4
        0xF0, 0x80, 0xF0, 0x10, 0xF0,  // 5
        0xF0, 0x80, 0xF0, 0x90, 0xF0,  // 6
        0xF0, 0x10, 0x20, 0x40, 0x40,  // 7
        0xF0, 0x90, 0xF0, 0x90, 0xF0,  // 8
        0xF0, 0x90, 0xF0, 0x10, 0xF0,  // 9
        0xF0, 0x90, 0xF0, 0x90, 0x90,  // A
        0xE0, 0x90, 0xE0, 0x90, 0xE0,  // B
        0xF0, 0x80, 0x80, 0x80, 0xF0,  // C
        0xE0, 0x90, 0x90, 0x90, 0xE0,  // D
        0xF0, 0x80, 0xF0, 0x80, 0xF0,  // E
        0xF0, 0x80, 0xF0, 0x80, 0x80,  // F
    ];
    assert(glyphs@ =~= font());
    let mut ram = [0u8; 4096];
    let mut a: usize = 0;
    while a < 80
        invariant
            a <= 80,
            glyphs@ == font(),
            forall|b: int| 0 <= b < a ==> ram@[b] == font()[b],
            forall|b: int| a <= b < 4096 ==> ram@[b] == 0u8,
        decreases 80 - a,
    {
        ram[a] = glyphs[a];
        a += 1;
    }
    assert(ram@ =~= initial_ram());
    ram
}

/// A framebuffer of `len` dark cells.
pub fn blank_frame(len: usize) -> (r: Vec<u8>)
    ensures
        r@ == Seq::new(len as nat, |k: int| 0u8),
{
    let mut v: Vec<u8> = Vec::new();
    while v.len() < len
        invariant
            v.len() <= len,
            forall|k: int| 0 <= k < v.len() ==> v@[k] == 0u8,
        decreases len - v.len(),
    {
        v.push(0);
    }
    assert(v@ =~= Seq::new(len as nat, |k: int| 0u8));
    v
}

/// The lowest-numbered key that is down, if any.
pub fn first_pressed_key(keypad: &[bool; 16]) -> (r: Option<u8>)
    ensures
        match r {
            Some(k) => is_lowest_pressed(keypad@, k as int),
            None => !any_pressed(keypad@),
        },
{
    let mut k: usize = 0;
    while k < 16
        invariant
            k <= 16,
            forall|j: int| 0 <= j < k ==> !keypad@[j],
        decreases 16 - k,
    {
        if keypad[k] {
            return Some(k as u8);
        }
        k += 1;
    }
    None
}

/// Writes the decimal digits of `v` (hundreds, tens, ones) at `i`, `i + 1`, `i + 2`.
pub fn write_bcd(ram: &mut [u8; 4096], i: usize, v: u8)
    requires
        i + 3 <= 4096,
    ensures
        final(ram)@ == write_bytes(old(ram)@, i as int, bcd_digits(v)),
{
    ram[i] = v / 100;
    ram[i + 1] = (v / 10) % 10;
    ram[i + 2] = v % 10;
    assert(ram@ =~= write_bytes(old(ram)@, i as int, bcd_digits(v)));
}

/// Copies registers V0..=VX to memory from `i` on.
pub fn store_block(ram: &mut [u8; 4096], i: usize, registers: &[u8; 16], x: usize)
    requires
        x < 16,
        i + x + 1 <= 4096,
    ensures
        final(ram)@ == write_bytes(old(ram)@, i as int, registers@.take(x + 1)),
{
    let mut k: usize = 0;
    while k <= x
        invariant
            x < 16,
            i + x + 1 <= 4096,
            k <= x + 1,
            forall|a: int|
                0 <= a < 4096 ==> ram@[a] == (if i <= a < i + k {
                    registers@[a - i]
                } else {
                    old(ram)@[a]
                }),
        decreases x + 1 - k,
    {
        ram[i + k] = registers[k];
        k += 1;
    }
    assert(ram@ =~= write_bytes(old(ram)@, i as int, registers@.take(x + 1)));
}

/// Copies memory from `i` on into registers V0..=VX.
pub fn load_block(registers: &mut [u8; 16], ram: &[u8; 4096], i: usize, x: usize)
    requires
        x < 16,
        i + x + 1 <= 4096,
    ensures
        final(registers)@ == write_bytes(
            old(registers)@,
            0,
            ram@.subrange(i as int, i + x + 1),
        ),
{
    let mut k: usize = 0;
    while k <= x
        invariant
            x < 16,
            i + x + 1 <= 4096,
            k <= x + 1,
            forall|a: int|
                0 <= a < 16 ==> registers@[a] == (if a < k {
                    ram@[i + a]
                } else {
                    old(registers)@[a]
                }),
        decreases x + 1 - k,
    {
        registers[k] = ram[i + k];
        k += 1;
    }
    assert(registers@ =~= write_bytes(old(registers)@, 0, ram@.subrange(i as int, i + x + 1)));
}

/// For `-m <= a < m`, `a % m` is `a` or `a + m`.
proof fn lemma_mod_near(a: int, m: int)
    requires
        0 < m,
        -m <= a < m,
    ensures
        a % m == (if a >= 0 {
            a
        } else {
            a + m
        }),
{
    if a >= 0 {
        lemma_fundamental_div_mod_converse(a, m, 0, a);
    } else {
        lemma_fundamental_div_mod_converse(a, m, -1, a + m);
    }
}

/// Cell `k` of a `w`-wide framebuffer sits at column `k % w`, row `k / w`.
proof fn lemma_cell(k: int, w: int, h: int)
    requires
        0 < w,
        0 <= k < w * h,
    ensures
        k == (k / w) * w + k % w,
        0 <= k % w < w,
        0 <= k / w < h,
{
    lemma_fundamental_div_mod(k, w);
    lemma_mod_bound(k, w);
    assert(0 <= k / w < h) by (nonlinear_arith)
        requires
            k == w * (k / w) + k % w,
            0 <= k % w < w,
            0 <= k < w * h,
    ;
    assert((k / w) * w == w * (k / w)) by (nonlinear_arith);
}

/// The cell index of on-screen position (`tx`, `ty`) and its inverse.
proof fn lemma_position(tx: int, ty: int, w: int, h: int)
    requires
        0 <= tx < w,
        0 <= ty < h,
    ensures
        0 <= ty * w + tx < w * h,
        (ty * w + tx) % w == tx,
        (ty * w + tx) / w == ty,
{
    lemma_fundamental_div_mod_converse(ty * w + tx, w, ty, tx);
    assert(0 <= ty * w + tx < w * h) by (nonlinear_arith)
        requires
            0 <= tx < w,
            0 <= ty < h,
    ;
}

/// Where sprite pixel (`row`, `col`) lands when drawn at (`vx`, `vy`), or
/// `None` when it is clipped at the edge.
pub open spec fn pixel_target(p: Platform, vx: int, vy: int, row: int, col: int) -> Option<(int, int)> {
    let (w, h) = (p.video_width as int, p.video_height as int);
    if p.quirks.wrap_sprites {
        Some(((vx + col) % w, (vy + row) % h))
    } else if vx + col < w && vy + row < h {
        Some((vx + col, vy + row))
    } else {
        None
    }
}

/// The framebuffer cell sprite pixel (`row`, `col`) lands on, if any.
pub open spec fn target_cell(p: Platform, vx: int, vy: int, row: int, col: int) -> Option<int> {
    match pixel_target(p, vx, vy, row, col) {
        Some((tx, ty)) => Some(ty * p.video_width + tx),
        None => None,
    }
}

/// Cell `k` is covered, and its sprite pixel comes before (`row`, `col`) in drawing order.
pub open spec fn covered_before(
    ram: Seq<u8>,
    i: int,
    n: int,
    p: Platform,
    vx: int,
    vy: int,
    k: int,
    row: int,
    col: int,
) -> bool {
    let w = p.video_width as int;
    let (kc, kr) = (sprite_column(p, vx, k % w), sprite_row(p, vy, k / w));
    covered(ram, i, n, p, vx, vy, k) && (kr < row || (kr == row && kc < col))
}

/// Some cell drawn before (`row`, `col`) was on.
pub open spec fn hits_before(
    video: Seq<u8>,
    ram: Seq<u8>,
    i: int,
    n: int,
    p: Platform,
    vx: int,
    vy: int,
    row: int,
    col: int,
) -> bool {
    exists|k: int|
        0 <= k < video.len() && #[trigger] covered_before(ram, i, n, p, vx, vy, k, row, col)
            && video[k] & 1u8 == 1u8
}

/// A cell's sprite pixel is (`row`, `col`) exactly when the cell is that pixel's target.
proof fn lemma_target(p: Platform, vx: int, vy: int, row: int, col: int, k: int)
    requires
        p.wf(),
        0 <= vx < p.video_width,
        0 <= vy < p.video_height,
        0 <= row < 16,
        0 <= col < 8,
        0 <= k < p.frame_len(),
    ensures
        ({
            let w = p.video_width as int;
            let at_pixel = sprite_column(p, vx, k % w) == col && sprite_row(p, vy, k / w) == row;
            match pixel_target(p, vx, vy, row, col) {
                Some((tx, ty)) => {
                    &&& 0 <= tx < w
                    &&& 0 <= ty < p.video_height
                    &&& 0 <= ty * w + tx < p.frame_len()
                    &&& (at_pixel <==> k == ty * w + tx)
                },
                None => !at_pixel,
            }
        }),
{
    let (w, h) = (p.video_width as int, p.video_height as int);
    lemma_cell(k, w, h);
    let (px, py) = (k % w, k / w);
    if p.quirks.wrap_sprites {
        let tx = (vx + col) % w;
        let ty = (vy + row) % h;
        lemma_mod_near(vx + col - w, w);
        lemma_mod_near(vy + row - h, h);
        lemma_fundamental_div_mod_converse(vx + col, w, if vx + col < w { 0 } else { 1 }, if vx + col < w { vx + col } else { vx + col - w });
        lemma_fundamental_div_mod_converse(vy + row, h, if vy + row < h { 0 } else { 1 }, if vy + row < h { vy + row } else { vy + row - h });
        lemma_mod_near(px - vx, w);
        lemma_mod_near(py - vy, h);
        lemma_position(tx, ty, w, h);
        if k == ty * w + tx {
            assert(px == tx && py == ty);
        }
        if sprite_column(p, vx, px) == col && sprite_row(p, vy, py) == row {
            assert(px == tx && py == ty);
        }
    } else {
        if vx + col < w && vy + row < h {
            lemma_position(vx + col, vy + row, w, h);
        }
    }
}

/// XOR-draws the `n`-row sprite held in `ram` from `i` at on-screen origin
/// (`vx`, `vy`); returns 1 when a pixel that was on is turned off, else 0.
pub fn draw_sprite(
    video: &mut Vec<u8>,
    ram: &[u8; 4096],
    i: usize,
    n: usize,
    platform: &Platform,
    vx: u16,
    vy: u16,
) -> (collision: u8)
    requires
        platform.wf(),
        old(video)@.len() == platform.frame_len(),
        vx < platform.video_width,
        vy < platform.video_height,
        n < 16,
        i + n <= 4096,
    ensures
        final(video)@ == drawn(old(video)@, ram@, i as int, n as int, *platform, vx as int, vy as int),
        collision == (if collides(old(video)@, ram@, i as int, n as int, *platform, vx as int, vy as int) {
            1u8
        } else {
            0u8
        }),
{
    let ghost p = *platform;
    let ghost old_video = video@;
    let w = platform.video_width as usize;
    let h = platform.video_height as usize;
    let wrap = platform.quirks.wrap_sprites;
    let mut collision: u8 = 0;
    let mut row: usize = 0;
    while row < n
        invariant
            p == *platform,
            p.wf(),
            w == p.video_width,
            h == p.video_height,
            wrap == p.quirks.wrap_sprites,
            old_video.len() == p.frame_len(),
            video@.len() == old_video.len(),
            vx < w,
            vy < h,
            n < 16,
            i + n <= 4096,
            row <= n,
            forall|k: int|
                0 <= k < old_video.len() ==> #[trigger] video@[k] == (if covered_before(
                    ram@,
                    i as int,
                    n as int,
                    p,
                    vx as int,
                    vy as int,
                    k,
                    row as int,
                    0,
                ) {
                    old_video[k] ^ 1u8
                } else {
                    old_video[k]
                }),
            collision == (if hits_before(old_video, ram@, i as int, n as int, p, vx as int, vy as int, row as int, 0) {
                1u8
            } else {
                0u8
            }),
        decreases n - row,
    {
        let b = ram[i + row];
        let mut col: usize = 0;
        while col < 8
            invariant
                p == *platform,
                p.wf(),
                w == p.video_width,
                h == p.video_height,
                wrap == p.quirks.wrap_sprites,
                old_video.len() == p.frame_len(),
                video@.len() == old_video.len(),
                vx < w,
                vy < h,
                n < 16,
                i + n <= 4096,
                row < n,
                b == ram@[i + row],
                col <= 8,
                forall|k: int|
                    0 <= k < old_video.len() ==> #[trigger] video@[k] == (if covered_before(
                        ram@,
                        i as int,
                        n as int,
                        p,
                        vx as int,
                        vy as int,
                        k,
                        row as int,
                        col as int,
                    ) {
                        old_video[k] ^ 1u8
                    } else {
                        old_video[k]
                    }),
                collision == (if hits_before(old_video, ram@, i as int, n as int, p, vx as int, vy as int, row as int, col as int) {
                1u8
            } else {
                0u8
            }),
            decreases 8 - col,
        {
            let ghost before = video@;
            let ghost before_collision = collision;
            let set = b & (0x80u8 >> (col as u8)) != 0;
            assert(set == sprite_bit(b, col as int));
            let x_pos = vx as usize + col;
            let y_pos = vy as usize + row;
            let on_screen = wrap || (x_pos < w && y_pos < h);
            proof {
                assert forall|k: int|
                    #![trigger covered_before(ram@, i as int, n as int, p, vx as int, vy as int, k, row as int, col as int)]
                    0 <= k < old_video.len() implies {
                    let target = target_cell(p, vx as int, vy as int, row as int, col as int);
                    &&& (covered_before(ram@, i as int, n as int, p, vx as int, vy as int, k, row as int, col as int + 1)
                        <==> (covered_before(ram@, i as int, n as int, p, vx as int, vy as int, k, row as int, col as int)
                            || (set && target == Some(k))))
                    &&& !(covered_before(ram@, i as int, n as int, p, vx as int, vy as int, k, row as int, col as int)
                            && set && target == Some(k))
                } by {
                    lemma_target(p, vx as int, vy as int, row as int, col as int, k);
                }
            }
            proof {
                assert(p.frame_len() >= 128 && p.frame_len() <= 8192) by (nonlinear_arith)
                    requires
                        p.frame_len() == p.video_width * p.video_height,
                        8 <= p.video_width <= 128,
                        16 <= p.video_height <= 64,
                ;
            }
            if set && on_screen {
                let tx = if wrap { x_pos % w } else { x_pos };
                let ty = if wrap { y_pos % h } else { y_pos };
                proof {
                    lemma_target(p, vx as int, vy as int, row as int, col as int, 0);
                    lemma_position(tx as int, ty as int, w as int, h as int);
                }
                let k = ty * w + tx;
                let cell = video[k];
                collision = collision | (cell & 1);
                video.set(k, cell ^ 1);
                proof {
                    assert(cell & 1u8 == 1u8 || cell & 1u8 == 0u8) by (bit_vector);
                    assert(before_collision == 0u8 || before_collision == 1u8);
                    assert((before_collision | (cell & 1u8)) == (if before_collision == 1u8 || cell & 1u8 == 1u8 { 1u8 } else { 0u8 })) by (bit_vector)
                        requires before_collision == 0u8 || before_collision == 1u8;
                    assert(!covered_before(ram@, i as int, n as int, p, vx as int, vy as int, k as int, row as int, col as int));
                    assert(cell == old_video[k as int]);
                    assert(covered_before(ram@, i as int, n as int, p, vx as int, vy as int, k as int, row as int, col as int + 1));
                    let hb = hits_before(old_video, ram@, i as int, n as int, p, vx as int, vy as int, row as int, col as int);
                    let ha = hits_before(old_video, ram@, i as int, n as int, p, vx as int, vy as int, row as int, col as int + 1);
                    if hb {
                        let k2 = choose|k2: int| 0 <= k2 < old_video.len() && #[trigger] covered_before(ram@, i as int, n as int, p, vx as int, vy as int, k2, row as int, col as int) && old_video[k2] & 1u8 == 1u8;
                        assert(covered_before(ram@, i as int, n as int, p, vx as int, vy as int, k2, row as int, col as int + 1));
                    }
                    if ha {
                        let k2 = choose|k2: int| 0 <= k2 < old_video.len() && #[trigger] covered_before(ram@, i as int, n as int, p, vx as int, vy as int, k2, row as int, col as int + 1) && old_video[k2] & 1u8 == 1u8;
                        if k2 != k as int {
                            assert(covered_before(ram@, i as int, n as int, p, vx as int, vy as int, k2, row as int, col as int));
                        }
                    }
                    assert(ha == (hb || cell & 1u8 == 1u8));
                }
            } else {
                proof {
                    let hb = hits_before(old_video, ram@, i as int, n as int, p, vx as int, vy as int, row as int, col as int);
                    let ha = hits_before(old_video, ram@, i as int, n as int, p, vx as int, vy as int, row as int, col as int + 1);
                    lemma_target(p, vx as int, vy as int, row as int, col as int, 0);
                    assert(!set || target_cell(p, vx as int, vy as int, row as int, col as int) is None);
                    if hb {
                        let k2 = choose|k2: int| 0 <= k2 < old_video.len() && #[trigger] covered_before(ram@, i as int, n as int, p, vx as int, vy as int, k2, row as int, col as int) && old_video[k2] & 1u8 == 1u8;
                        assert(covered_before(ram@, i as int, n as int, p, vx as int, vy as int, k2, row as int, col as int + 1));
                    }
                    if ha {
                        let k2 = choose|k2: int| 0 <= k2 < old_video.len() && #[trigger] covered_before(ram@, i as int, n as int, p, vx as int, vy as int, k2, row as int, col as int + 1) && old_video[k2] & 1u8 == 1u8;
                        assert(covered_before(ram@, i as int, n as int, p, vx as int, vy as int, k2, row as int, col as int));
                    }
                }
            }
            col += 1;
        }
        proof {
            assert forall|k: int| 0 <= k < old_video.len() implies
                #[trigger] covered_before(ram@, i as int, n as int, p, vx as int, vy as int, k, row as int, 8)
                    == covered_before(ram@, i as int, n as int, p, vx as int, vy as int, k, row as int + 1, 0) by {
            }
            if hits_before(old_video, ram@, i as int, n as int, p, vx as int, vy as int, row as int, 8) {
                let k2 = choose|k2: int| 0 <= k2 < old_video.len() && #[trigger] covered_before(ram@, i as int, n as int, p, vx as int, vy as int, k2, row as int, 8) && old_video[k2] & 1u8 == 1u8;
                assert(covered_before(ram@, i as int, n as int, p, vx as int, vy as int, k2, row as int + 1, 0));
            }
            if hits_before(old_video, ram@, i as int, n as int, p, vx as int, vy as int, row as int + 1, 0) {
                let k2 = choose|k2: int| 0 <= k2 < old_video.len() && #[trigger] covered_before(ram@, i as int, n as int, p, vx as int, vy as int, k2, row as int + 1, 0) && old_video[k2] & 1u8 == 1u8;
                assert(covered_before(ram@, i as int, n as int, p, vx as int, vy as int, k2, row as int, 8));
            }
        }
        row += 1;
    }
    proof {
        assert forall|k: int| 0 <= k < old_video.len() implies
            #[trigger] covered_before(ram@, i as int, n as int, p, vx as int, vy as int, k, n as int, 0)
                == covered(ram@, i as int, n as int, p, vx as int, vy as int, k) by {
        }
        if hits_before(old_video, ram@, i as int, n as int, p, vx as int, vy as int, n as int, 0) {
            let k2 = choose|k2: int| 0 <= k2 < old_video.len() && #[trigger] covered_before(ram@, i as int, n as int, p, vx as int, vy as int, k2, n as int, 0) && old_video[k2] & 1u8 == 1u8;
            assert(covered(ram@, i as int, n as int, p, vx as int, vy as int, k2));
        }
        if collides(old_video, ram@, i as int, n as int, p, vx as int, vy as int) {
            let k2 = choose|k2: int| 0 <= k2 < old_video.len() && #[trigger] covered(ram@, i as int, n as int, p, vx as int, vy as int, k2) && old_video[k2] & 1u8 == 1u8;
            assert(covered_before(ram@, i as int, n as int, p, vx as int, vy as int, k2, n as int, 0));
        }
    }
    assert(video@ =~= drawn(old_video, ram@, i as int, n as int, p, vx as int, vy as int));
    collision
}

} // verus!
