//! A basic interface for interacting with vga graphics mode 640x480x16.
//!
//! Each of the four hardware planes stores one bit of a pixel's 4-bit color,
//! and eight horizontally adjacent pixels share one byte of each plane.
//! Writing a pixel therefore takes four register-select/read-modify-write
//! round trips, one per plane, against the device model in [`crate::vga`].

use vstd::prelude::*;
use vstd::arithmetic::div_mod::{lemma_fundamental_div_mod, lemma_mod_pos_bound};
use crate::colors::{palette_byte, default_palette, Color16Bit, PALETTE_SIZE};
use crate::vga::{
    all_planes_zero,
    same_planes,
    Vga,
    VideoMode,
    ALL_PLANES_SCREEN_SIZE,
    HEIGHT,
    WIDTH,
};

verus! {

/// Byte offset of pixel `(x, y)` within one plane: eight pixels share a
/// byte, and a row is `WIDTH / 8 == 80` bytes wide.
pub open spec fn pixel_offset(x: int, y: int) -> int {
    x / 8 + 80 * y
}

/// Bit position of pixel `x` inside its byte: the leftmost pixel of a group
/// of eight sits in the most significant bit.
pub open spec fn pixel_bit(x: int) -> int {
    7 - (x % 8)
}

/// Single-bit mask for pixel `x` inside its byte.
pub open spec fn pixel_mask(x: int) -> u8 {
    0x80u8 >> ((x % 8) as u8)
}

/// Whether bit `p` of the 4-bit color code `code` is set.
pub open spec fn code_bit(code: u8, p: u8) -> bool {
    code & (1u8 << p) != 0
}

/// Whether plane `p` holds a set bit for pixel `(x, y)`.
pub open spec fn plane_bit_set(vga: Vga, p: int, x: int, y: int) -> bool {
    vga.plane(p)[pixel_offset(x, y)] & pixel_mask(x) != 0
}

/// The four plane bits at `(x, y)` spell exactly the 4-bit code `code`.
pub open spec fn pixel_holds(vga: Vga, x: int, y: int, code: u8) -> bool {
    forall|p: int|
        0 <= p < 4 ==> (#[trigger] plane_bit_set(vga, p, x, y) <==> code_bit(code, p as u8))
}

/// What one pixel write does to the frame buffer: the target pixel's four
/// plane bits spell `code`, and every other bit of every plane is unchanged,
/// both in the bytes the pixel does not live in and in the other seven bits
/// of the byte it does live in.
pub open spec fn pixel_write_effect(pre: Vga, post: Vga, x: int, y: int, code: u8) -> bool {
    &&& pixel_holds(post, x, y, code)
    &&& forall|p: int, o: int|
        0 <= p < 4 && 0 <= o < ALL_PLANES_SCREEN_SIZE && o != pixel_offset(x, y)
            ==> post.plane(p)[o] == pre.plane(p)[o]
    &&& forall|p: int|
        0 <= p < 4 ==> post.plane(p)[pixel_offset(x, y)] & !pixel_mask(x)
            == pre.plane(p)[pixel_offset(x, y)] & !pixel_mask(x)
}

/// The addressing transform stays inside one plane's visible byte range:
/// every pixel's byte offset lies below `(WIDTH * HEIGHT) / 8 == 38400`, and
/// its bit position lies in `0..8`.
pub proof fn lemma_offset_in_range(x: int, y: int)
    requires
        0 <= x < WIDTH,
        0 <= y < HEIGHT,
    ensures
        0 <= pixel_offset(x, y) < 38400,
        pixel_offset(x, y) < ALL_PLANES_SCREEN_SIZE,
        0 <= x / 8 < 80,
        0 <= pixel_bit(x) < 8,
        0 <= x % 8 < 8,
{
    lemma_fundamental_div_mod(x, 8);
    lemma_mod_pos_bound(x, 8);
}

/// The pixel's mask is the single bit at the pixel's bit position.
pub proof fn lemma_pixel_mask_is_bit(x: int)
    requires
        0 <= x,
    ensures
        pixel_mask(x) == (1u8 << (pixel_bit(x) as u8)),
        pixel_mask(x) != 0,
{
    lemma_mod_pos_bound(x, 8);
    let r: u8 = (x % 8) as u8;
    assert(0x80u8 >> r == (1u8 << ((7 - r) as u8)) && 0x80u8 >> r != 0) by (bit_vector)
        requires
            r < 8,
    ;
    assert((7 - (x % 8)) as u8 == (7 - r) as u8);
}

/// Facts about writing one bit of a byte under a single-bit mask: an OR sets
/// the masked bit, an AND with the complement clears it, and either leaves
/// the unmasked bits of the byte alone.
proof fn lemma_mask_write(value: u8, mask: u8)
    requires
        mask != 0,
    ensures
        (value | mask) & mask != 0,
        (value & !mask) & mask == 0,
        (value | mask) & !mask == value & !mask,
        (value & !mask) & !mask == value & !mask,
{
    assert((value | mask) & mask != 0 && (value & !mask) & mask == 0 && (value | mask) & !mask
        == (value & !mask) && (value & !mask) & !mask == (value & !mask)) by (bit_vector)
        requires
            mask != 0,
    ;
}

/// Two bytes that agree outside the bits of `other` agree on the bit `bit`
/// whenever `bit` and `other` are disjoint.
proof fn lemma_masked_bits_agree(a: u8, b: u8, bit: u8, other: u8)
    requires
        a & !other == b & !other,
        bit & other == 0,
    ensures
        (a & bit != 0) == (b & bit != 0),
{
    assert((a & bit != 0) == (b & bit != 0)) by (bit_vector)
        requires
            a & !other == b & !other,
            bit & other == 0,
    ;
}

/// Four plane bits determine at most one 4-bit code: reading back the bits
/// of a pixel reconstructs exactly the code that was written there. This is
/// the round-trip law for [`Graphics640x480x16::set_pixel`], whose
/// postcondition establishes `pixel_holds` for the written color's code.
pub proof fn lemma_pixel_code_unique(vga: Vga, x: int, y: int, first: u8, second: u8)
    requires
        first < 16,
        second < 16,
        pixel_holds(vga, x, y, first),
        pixel_holds(vga, x, y, second),
    ensures
        first == second,
{
    assert(plane_bit_set(vga, 0, x, y) <==> code_bit(first, 0));
    assert(plane_bit_set(vga, 1, x, y) <==> code_bit(first, 1));
    assert(plane_bit_set(vga, 2, x, y) <==> code_bit(first, 2));
    assert(plane_bit_set(vga, 3, x, y) <==> code_bit(first, 3));
    assert(plane_bit_set(vga, 0, x, y) <==> code_bit(second, 0));
    assert(plane_bit_set(vga, 1, x, y) <==> code_bit(second, 1));
    assert(plane_bit_set(vga, 2, x, y) <==> code_bit(second, 2));
    assert(plane_bit_set(vga, 3, x, y) <==> code_bit(second, 3));
    assert(first == second) by (bit_vector)
        requires
            first < 16,
            second < 16,
            (first & (1u8 << 0u8) != 0) == (second & (1u8 << 0u8) != 0),
            (first & (1u8 << 1u8) != 0) == (second & (1u8 << 1u8) != 0),
            (first & (1u8 << 2u8) != 0) == (second & (1u8 << 2u8) != 0),
            (first & (1u8 << 3u8) != 0) == (second & (1u8 << 3u8) != 0),
    ;
}

/// Round trip: after a pixel write of `code`, any read-back of the four
/// plane bits at that pixel yields exactly `code`. The preconditions are the
/// postcondition of [`Graphics640x480x16::set_pixel`] and the shape of the
/// result of [`Graphics640x480x16::read_pixel`] on the written state.
pub proof fn lemma_set_pixel_roundtrip(
    pre: Vga,
    post: Vga,
    x: int,
    y: int,
    code: u8,
    readback: u8,
)
    requires
        code < 16,
        readback < 16,
        pixel_write_effect(pre, post, x, y, code),
        pixel_holds(post, x, y, readback),
    ensures
        readback == code,
{
    lemma_pixel_code_unique(post, x, y, code, readback);
}

/// Writes to distinct pixels do not disturb each other: after one caller's
/// pixel write and then another's at a different coordinate, both pixels
/// hold the codes written to them. Callers are serialized by the device
/// lock, so any interleaving of two whole writes is one of the two orders
/// this lemma covers.
pub proof fn lemma_disjoint_pixel_writes(
    v0: Vga,
    v1: Vga,
    v2: Vga,
    x1: int,
    y1: int,
    c1: u8,
    x2: int,
    y2: int,
    c2: u8,
)
    requires
        0 <= x1 < WIDTH,
        0 <= y1 < HEIGHT,
        0 <= x2 < WIDTH,
        0 <= y2 < HEIGHT,
        !(x1 == x2 && y1 == y2),
        pixel_write_effect(v0, v1, x1, y1, c1),
        pixel_write_effect(v1, v2, x2, y2, c2),
    ensures
        pixel_holds(v2, x1, y1, c1),
        pixel_holds(v2, x2, y2, c2),
{
    lemma_offset_in_range(x1, y1);
    lemma_offset_in_range(x2, y2);
    let o1: int = pixel_offset(x1, y1);
    let o2: int = pixel_offset(x2, y2);
    let m1: u8 = pixel_mask(x1);
    let m2: u8 = pixel_mask(x2);
    if o1 == o2 {
        lemma_fundamental_div_mod(x1, 8);
        lemma_fundamental_div_mod(x2, 8);
        assert(y1 == y2);
        assert(x1 % 8 != x2 % 8);
        let r1: u8 = (x1 % 8) as u8;
        let r2: u8 = (x2 % 8) as u8;
        assert((0x80u8 >> r1) & (0x80u8 >> r2) == 0) by (bit_vector)
            requires
                r1 < 8,
                r2 < 8,
                r1 != r2,
        ;
        assert(m1 & m2 == 0);
        assert forall|p: int| 0 <= p < 4 implies (#[trigger] plane_bit_set(v2, p, x1, y1)
            <==> code_bit(c1, p as u8)) by {
            assert(v2.plane(p)[o1] & !m2 == v1.plane(p)[o1] & !m2);
            lemma_masked_bits_agree(v2.plane(p)[o1], v1.plane(p)[o1], m1, m2);
            assert(plane_bit_set(v1, p, x1, y1) <==> code_bit(c1, p as u8));
        }
    } else {
        assert forall|p: int| 0 <= p < 4 implies (#[trigger] plane_bit_set(v2, p, x1, y1)
            <==> code_bit(c1, p as u8)) by {
            assert(v2.plane(p)[o1] == v1.plane(p)[o1]);
            assert(plane_bit_set(v1, p, x1, y1) <==> code_bit(c1, p as u8));
        }
    }
}

/// Clearing the screen twice leaves exactly the frame that clearing it once
/// leaves: the all-zero frame-buffer state is one single state of the
/// planes, so the second clear is a no-op on the frame contents.
pub proof fn lemma_clear_screen_idempotent(once: Vga, twice: Vga)
    requires
        once.wf(),
        twice.wf(),
        all_planes_zero(once),
        all_planes_zero(twice),
    ensures
        forall|p: int| 0 <= p < 4 ==> once.plane(p) =~= twice.plane(p),
{
    assert forall|p: int| 0 <= p < 4 implies once.plane(p) =~= twice.plane(p) by {
        assert(once.plane(p).len() == ALL_PLANES_SCREEN_SIZE);
        assert(twice.plane(p).len() == ALL_PLANES_SCREEN_SIZE);
        assert(forall|o: int| 0 <= o < ALL_PLANES_SCREEN_SIZE ==> once.plane(p)[o] == 0);
        assert(forall|o: int| 0 <= o < ALL_PLANES_SCREEN_SIZE ==> twice.plane(p)[o] == 0);
    }
}

/// Computes the frame-buffer byte offset of pixel `(x, y)`.
pub fn byte_offset(x: usize, y: usize) -> (offset: usize)
    requires
        x < WIDTH,
        y < HEIGHT,
    ensures
        offset == pixel_offset(x as int, y as int),
        offset < 38400,
{
    proof {
        lemma_offset_in_range(x as int, y as int);
    }
    x / 8 + (WIDTH / 8) * y
}

/// Computes the bit position of pixel `x` within its byte.
pub fn bit_index(x: usize) -> (bit: u8)
    requires
        x < WIDTH,
    ensures
        bit == pixel_bit(x as int),
        bit < 8,
{
    proof {
        lemma_mod_pos_bound(x as int, 8);
    }
    7 - (x % 8) as u8
}

/// A basic interface for interacting with vga graphics mode 640x480x16.
#[derive(Debug, Clone, Copy)]
pub struct Graphics640x480x16;

impl Graphics640x480x16 {
    /// Creates a new `Graphics640x480x16`.
    pub fn new() -> Graphics640x480x16 {
        Graphics640x480x16
    }

    /// Clears the screen by setting all pixels to `Color16Bit::Black`:
    /// selects all four planes for writing, disables the set/reset override,
    /// and sweeps the full all-planes byte range with the zero byte.
    #[verifier::loop_isolation(false)]
    pub fn clear_screen(&self, vga: &mut Vga)
        requires
            old(vga).wf(),
            old(vga).mode_is_set(),
        ensures
            final(vga).wf(),
            final(vga).mode_is_set(),
            all_planes_zero(*final(vga)),
            final(vga).plane_mask_reg() == 0xF,
            final(vga).write_enable_reg() == 0,
            final(vga).read_plane_reg() == old(vga).read_plane_reg(),
            final(vga).palette_reg() == old(vga).palette_reg(),
    {
        vga.set_plane_mask(0xF);
        vga.write_enable_set_reset(0x0);
        let black: u8 = Color16Bit::Black.code();
        let mut offset: usize = 0;
        while offset < ALL_PLANES_SCREEN_SIZE
            invariant
                vga.wf(),
                vga.mode_is_set(),
                vga.plane_mask_reg() == 0xF,
                vga.write_enable_reg() == 0,
                vga.read_plane_reg() == old(vga).read_plane_reg(),
                vga.palette_reg() == old(vga).palette_reg(),
                offset <= ALL_PLANES_SCREEN_SIZE,
                forall|p: int, o: int| 0 <= p < 4 && 0 <= o < offset ==> vga.plane(p)[o] == 0,
            decreases ALL_PLANES_SCREEN_SIZE - offset,
        {
            proof {
                assert(forall|q: u8| q < 4 ==> 0xFu8 & (1u8 << q) != 0) by (bit_vector);
            }
            vga.fb_write(offset, black);
            offset = offset + 1;
        }
    }

    /// Sets the given pixel at `(x, y)` to the given `color`, one plane at a
    /// time: for each plane, select it for reading and for writing, read the
    /// current byte, set or clear the pixel's bit according to that plane's
    /// bit of the color code, and write the byte back.
    ///
    /// The set/reset override must be disabled (its register zero), as the
    /// mode switch and the bulk clear leave it; this pixel path reasserts
    /// only the plane-select registers it depends on.
    #[verifier::loop_isolation(false)]
    pub fn set_pixel(&self, vga: &mut Vga, x: usize, y: usize, color: Color16Bit)
        requires
            old(vga).wf(),
            old(vga).mode_is_set(),
            old(vga).write_enable_reg() == 0,
            x < WIDTH,
            y < HEIGHT,
        ensures
            final(vga).wf(),
            final(vga).mode_is_set(),
            pixel_write_effect(*old(vga), *final(vga), x as int, y as int, color.spec_code()),
            final(vga).write_enable_reg() == 0,
            final(vga).palette_reg() == old(vga).palette_reg(),
            final(vga).plane_mask_reg() == 8,
            final(vga).read_plane_reg() == 3,
    {
        proof {
            lemma_offset_in_range(x as int, y as int);
            assert(WIDTH / 8 == 80);
            assert(x & 7 == x % 8) by (bit_vector);
        }
        let offset: usize = x / 8 + (WIDTH / 8) * y;
        let xm: usize = x & 7;
        let mask: u8 = 0x80u8 >> (xm as u8);
        let code: u8 = color.code();
        proof {
            assert(0x80u8 >> ((x % 8) as u8) != 0) by (bit_vector);
            assert(mask == pixel_mask(x as int));
            assert(mask != 0);
            assert(1u8 << 0u8 == 1) by (bit_vector);
        }
        let mut plane_bit: u8 = 0x01;
        let mut plane: u8 = 0;
        while plane < 4
            invariant
                vga.wf(),
                vga.mode_is_set(),
                vga.write_enable_reg() == 0,
                vga.palette_reg() == old(vga).palette_reg(),
                plane <= 4,
                plane_bit == 1u8 << plane,
                plane > 0 ==> vga.read_plane_reg() == plane - 1,
                plane > 0 ==> vga.plane_mask_reg() == (1u8 << ((plane - 1) as u8)),
                forall|p: int|
                    0 <= p < plane ==> vga.plane(p) == (if code_bit(code, p as u8) {
                        old(vga).plane(p).update(
                            offset as int,
                            old(vga).plane(p)[offset as int] | mask,
                        )
                    } else {
                        old(vga).plane(p).update(
                            offset as int,
                            old(vga).plane(p)[offset as int] & !mask,
                        )
                    }),
                forall|p: int| plane <= p < 4 ==> vga.plane(p) == old(vga).plane(p),
            decreases 4 - plane,
        {
            vga.write_read_plane(plane);
            proof {
                assert(1u8 << plane < 16) by (bit_vector)
                    requires
                        plane < 4,
                ;
            }
            vga.set_plane_mask(plane_bit);
            let current: u8 = vga.fb_read(offset);
            let new_value: u8 = if plane_bit & code != 0 {
                current | mask
            } else {
                current & !mask
            };
            vga.fb_write(offset, new_value);
            proof {
                assert(forall|pl: u8, q: u8|
                    pl < 4 && q < 4 ==> (((1u8 << pl) & (1u8 << q) != 0) <==> q == pl))
                    by (bit_vector);
                assert(((1u8 << plane) & code != 0) == (code & (1u8 << plane) != 0))
                    by (bit_vector);
            }
            let ghost prev: u8 = plane;
            plane_bit = plane_bit << 1;
            plane = plane + 1;
            proof {
                assert(plane_bit == 1u8 << plane) by (bit_vector)
                    requires
                        plane_bit == (1u8 << prev) << 1,
                        plane == prev + 1,
                        prev < 4,
                ;
            }
        }
        proof {
            assert forall|p: int| 0 <= p < 4 implies (#[trigger] plane_bit_set(
                *vga,
                p,
                x as int,
                y as int,
            ) <==> code_bit(code, p as u8)) by {
                lemma_mask_write(old(vga).plane(p)[offset as int], mask);
            }
            assert forall|p: int|
                0 <= p < 4 implies vga.plane(p)[pixel_offset(x as int, y as int)] & !pixel_mask(
                x as int,
            ) == old(vga).plane(p)[pixel_offset(x as int, y as int)] & !pixel_mask(x as int) by {
                lemma_mask_write(old(vga).plane(p)[offset as int], mask);
            }
            assert(1u8 << 3u8 == 8) by (bit_vector);
        }
    }

    /// Reads back the 4-bit color code of the pixel at `(x, y)` through the
    /// hardware read path: selects each plane in turn and collects the
    /// pixel's bit from each. The frame buffer is left untouched.
    #[verifier::loop_isolation(false)]
    pub fn read_pixel(&self, vga: &mut Vga, x: usize, y: usize) -> (code: u8)
        requires
            old(vga).wf(),
            old(vga).mode_is_set(),
            x < WIDTH,
            y < HEIGHT,
        ensures
            final(vga).wf(),
            final(vga).mode_is_set(),
            code < 16,
            pixel_holds(*old(vga), x as int, y as int, code),
            same_planes(*old(vga), *final(vga)),
            final(vga).plane_mask_reg() == old(vga).plane_mask_reg(),
            final(vga).write_enable_reg() == old(vga).write_enable_reg(),
            final(vga).palette_reg() == old(vga).palette_reg(),
            final(vga).read_plane_reg() == 3,
    {
        proof {
            lemma_offset_in_range(x as int, y as int);
            assert(WIDTH / 8 == 80);
            assert(x & 7 == x % 8) by (bit_vector);
        }
        let offset: usize = x / 8 + (WIDTH / 8) * y;
        let xm: usize = x & 7;
        let mask: u8 = 0x80u8 >> (xm as u8);
        proof {
            assert(mask == pixel_mask(x as int));
            assert(1u8 << 0u8 == 1) by (bit_vector);
        }
        let mut code: u8 = 0;
        let mut plane_bit: u8 = 0x01;
        let mut plane: u8 = 0;
        while plane < 4
            invariant
                vga.wf(),
                vga.mode_is_set(),
                vga.plane_mask_reg() == old(vga).plane_mask_reg(),
                vga.write_enable_reg() == old(vga).write_enable_reg(),
                vga.palette_reg() == old(vga).palette_reg(),
                same_planes(*old(vga), *vga),
                plane <= 4,
                plane_bit == 1u8 << plane,
                plane > 0 ==> vga.read_plane_reg() == plane - 1,
                forall|p: int|
                    0 <= p < plane ==> (#[trigger] plane_bit_set(*old(vga), p, x as int, y as int)
                        <==> code_bit(code, p as u8)),
                code < plane_bit,
            decreases 4 - plane,
        {
            vga.write_read_plane(plane);
            let current: u8 = vga.fb_read(offset);
            let ghost code_before: u8 = code;
            if current & mask != 0 {
                code = code | plane_bit;
                proof {
                    assert((code_before | (1u8 << plane)) < ((1u8 << plane) << 1) && (code_before
                        | (1u8 << plane)) & (1u8 << plane) != 0 && forall|q: u8|
                        q < plane ==> (((code_before | (1u8 << plane)) & (1u8 << q) != 0) == (
                        code_before & (1u8 << q) != 0))) by (bit_vector)
                        requires
                            code_before < (1u8 << plane),
                            plane < 4,
                    ;
                }
            } else {
                proof {
                    assert(code_before < ((1u8 << plane) << 1) && (code_before & (1u8 << plane))
                        == 0) by (bit_vector)
                        requires
                            code_before < (1u8 << plane),
                            plane < 4,
                    ;
                }
            }
            let ghost prev: u8 = plane;
            plane_bit = plane_bit << 1;
            plane = plane + 1;
            proof {
                assert(plane_bit == 1u8 << plane) by (bit_vector)
                    requires
                        plane_bit == (1u8 << prev) << 1,
                        plane == prev + 1,
                        prev < 4,
                ;
            }
        }
        proof {
            assert(1u8 << 4u8 == 16) by (bit_vector);
        }
        code
    }

    /// Sets the graphics device to `VideoMode::Mode640x480x16` and then
    /// explicitly reloads the default palette: the mode switch itself
    /// promises nothing about the palette registers, because some adapter
    /// firmware corrupts them while switching, so the reload is
    /// unconditional.
    pub fn set_mode(&self, vga: &mut Vga)
        requires
            old(vga).wf(),
        ensures
            final(vga).wf(),
            final(vga).mode_is_set(),
            final(vga).palette_reg().len() == PALETTE_SIZE,
            forall|j: int|
                0 <= j < final(vga).palette_reg().len() ==> final(vga).palette_reg()[j]
                    == palette_byte(j),
            same_planes(*old(vga), *final(vga)),
            final(vga).plane_mask_reg() == 0xF,
            final(vga).read_plane_reg() == 0,
            final(vga).write_enable_reg() == 0,
    {
        vga.set_video_mode(VideoMode::Mode640x480x16);
        let palette: Vec<u8> = default_palette();
        vga.load_palette(&palette);
    }
}

} // verus!
