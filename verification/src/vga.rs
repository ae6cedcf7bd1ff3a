//! A state-machine model of the vga adapter in its planar graphics mode.
//!
//! The real device is a bank of side-effecting registers plus four
//! interleaved bit-planes of memory-mapped video memory, reached through
//! volatile reads and writes. This module models that interface as plain
//! data with exact contracts: a write to the frame buffer lands in every
//! plane selected by the plane-mask register, and a read comes from the
//! plane selected by the read-plane register. The driver logic in
//! [`crate::writers`] is verified against this model.

use vstd::prelude::*;
use crate::colors::PALETTE_SIZE;

verus! {

/// Horizontal resolution of the graphics mode, in pixels.
pub const WIDTH: usize = 640;

/// Vertical resolution of the graphics mode, in pixels.
pub const HEIGHT: usize = 480;

/// Bytes swept by a full-screen bulk operation. The bulk path broadcasts one
/// write into all four planes at once, so the sweep is `(WIDTH * HEIGHT) / 4`
/// bytes long; each plane is modeled with that full byte range.
pub const ALL_PLANES_SCREEN_SIZE: usize = (WIDTH * HEIGHT) / 4;

/// The video modes this model knows. Pixel operations are only defined once
/// the adapter has been switched into `Mode640x480x16`.
#[derive(Debug, Clone, Copy)]
pub enum VideoMode {
    /// The 640x480 16-color planar graphics mode.
    Mode640x480x16,
}

/// Whether bit `plane` of a plane-mask register value selects that plane.
pub open spec fn mask_selects(mask: u8, plane: u8) -> bool {
    mask & (1u8 << plane) != 0
}

/// The model of the adapter: four bit-planes of frame-buffer memory, the
/// plane-selection registers, the DAC palette state and the configured mode.
pub struct Vga {
    plane0: Vec<u8>,
    plane1: Vec<u8>,
    plane2: Vec<u8>,
    plane3: Vec<u8>,
    plane_mask: u8,
    read_plane: u8,
    write_enable: u8,
    palette: Vec<u8>,
    mode_set: bool,
}

/// The two states hold the same frame-buffer contents in every plane.
pub open spec fn same_planes(pre: Vga, post: Vga) -> bool {
    forall|p: int| 0 <= p < 4 ==> pre.plane(p) == post.plane(p)
}

/// Every byte of every plane is zero: the frame that a full clear leaves.
pub open spec fn all_planes_zero(vga: Vga) -> bool {
    forall|p: int, o: int|
        0 <= p < 4 && 0 <= o < ALL_PLANES_SCREEN_SIZE ==> vga.plane(p)[o] == 0
}

impl Vga {
    /// The contents of bit-plane `p`.
    pub closed spec fn plane(self, p: int) -> Seq<u8> {
        if p == 0 {
            self.plane0@
        } else if p == 1 {
            self.plane1@
        } else if p == 2 {
            self.plane2@
        } else {
            self.plane3@
        }
    }

    /// The plane-mask register: which planes a frame-buffer write lands on.
    pub closed spec fn plane_mask_reg(self) -> u8 {
        self.plane_mask
    }

    /// The read-plane register: which plane a frame-buffer read comes from.
    pub closed spec fn read_plane_reg(self) -> u8 {
        self.read_plane
    }

    /// The write-enable set/reset register of the graphics controller.
    pub closed spec fn write_enable_reg(self) -> u8 {
        self.write_enable
    }

    /// The 768 channel bytes currently loaded into the DAC.
    pub closed spec fn palette_reg(self) -> Seq<u8> {
        self.palette@
    }

    /// Whether the adapter has been switched into the graphics mode.
    pub closed spec fn mode_is_set(self) -> bool {
        self.mode_set
    }

    /// Well-formed device state: full-length planes and palette, register
    /// values within their fields, palette bytes within the 6-bit DAC range.
    pub open spec fn wf(self) -> bool {
        &&& self.plane(0).len() == ALL_PLANES_SCREEN_SIZE
        &&& self.plane(1).len() == ALL_PLANES_SCREEN_SIZE
        &&& self.plane(2).len() == ALL_PLANES_SCREEN_SIZE
        &&& self.plane(3).len() == ALL_PLANES_SCREEN_SIZE
        &&& self.plane_mask_reg() < 16
        &&& self.read_plane_reg() < 4
        &&& self.write_enable_reg() < 16
        &&& self.palette_reg().len() == PALETTE_SIZE
        &&& forall|j: int| 0 <= j < self.palette_reg().len() ==> self.palette_reg()[j] <= 63
    }

    /// A fresh device model: all planes and the palette zeroed, registers at
    /// zero, no video mode configured yet.
    pub fn new() -> (vga: Vga)
        ensures
            vga.wf(),
            !vga.mode_is_set(),
            vga.plane_mask_reg() == 0,
            vga.read_plane_reg() == 0,
            vga.write_enable_reg() == 0,
            all_planes_zero(vga),
            forall|j: int| 0 <= j < vga.palette_reg().len() ==> vga.palette_reg()[j] == 0,
    {
        Vga {
            plane0: zeroed_bytes(ALL_PLANES_SCREEN_SIZE),
            plane1: zeroed_bytes(ALL_PLANES_SCREEN_SIZE),
            plane2: zeroed_bytes(ALL_PLANES_SCREEN_SIZE),
            plane3: zeroed_bytes(ALL_PLANES_SCREEN_SIZE),
            plane_mask: 0,
            read_plane: 0,
            write_enable: 0,
            palette: zeroed_bytes(PALETTE_SIZE),
            mode_set: false,
        }
    }

    /// Models the sequencer's plane/map mask register: selects which planes
    /// subsequent frame-buffer writes land on.
    pub fn set_plane_mask(&mut self, mask: u8)
        requires
            old(self).wf(),
            mask < 16,
        ensures
            final(self).wf(),
            final(self).plane_mask_reg() == mask,
            final(self).read_plane_reg() == old(self).read_plane_reg(),
            final(self).write_enable_reg() == old(self).write_enable_reg(),
            final(self).palette_reg() == old(self).palette_reg(),
            final(self).mode_is_set() == old(self).mode_is_set(),
            same_planes(*old(self), *final(self)),
    {
        self.plane_mask = mask;
    }

    /// Models the graphics controller's read-plane select register: selects
    /// which plane subsequent frame-buffer reads come from.
    pub fn write_read_plane(&mut self, plane: u8)
        requires
            old(self).wf(),
            plane < 4,
        ensures
            final(self).wf(),
            final(self).read_plane_reg() == plane,
            final(self).plane_mask_reg() == old(self).plane_mask_reg(),
            final(self).write_enable_reg() == old(self).write_enable_reg(),
            final(self).palette_reg() == old(self).palette_reg(),
            final(self).mode_is_set() == old(self).mode_is_set(),
            same_planes(*old(self), *final(self)),
    {
        self.read_plane = plane;
    }

    /// Models the graphics controller's write-enable set/reset register,
    /// which can force a uniform value across planes during a write. The
    /// data path modeled by [`Vga::fb_write`] is the one this driver uses,
    /// with the override disabled (mask zero).
    pub fn write_enable_set_reset(&mut self, mask: u8)
        requires
            old(self).wf(),
            mask < 16,
        ensures
            final(self).wf(),
            final(self).write_enable_reg() == mask,
            final(self).plane_mask_reg() == old(self).plane_mask_reg(),
            final(self).read_plane_reg() == old(self).read_plane_reg(),
            final(self).palette_reg() == old(self).palette_reg(),
            final(self).mode_is_set() == old(self).mode_is_set(),
            same_planes(*old(self), *final(self)),
    {
        self.write_enable = mask;
    }

    /// Models loading the DAC: copies the 768 channel bytes into the palette
    /// registers.
    pub fn load_palette(&mut self, palette: &Vec<u8>)
        requires
            old(self).wf(),
            palette@.len() == PALETTE_SIZE,
            forall|j: int| 0 <= j < palette@.len() ==> palette@[j] <= 63,
        ensures
            final(self).wf(),
            final(self).palette_reg() == palette@,
            final(self).plane_mask_reg() == old(self).plane_mask_reg(),
            final(self).read_plane_reg() == old(self).read_plane_reg(),
            final(self).write_enable_reg() == old(self).write_enable_reg(),
            final(self).mode_is_set() == old(self).mode_is_set(),
            same_planes(*old(self), *final(self)),
    {
        let mut copy: Vec<u8> = Vec::new();
        let mut i: usize = 0;
        while i < palette.len()
            invariant
                i <= palette@.len(),
                copy@.len() == i,
                forall|j: int| 0 <= j < i ==> copy@[j] == palette@[j],
            decreases palette@.len() - i,
        {
            copy.push(palette[i]);
            i = i + 1;
        }
        proof {
            assert(copy@ =~= palette@);
        }
        self.palette = copy;
    }

    /// Models the mode-switch sequence: reprograms the adapter into the
    /// requested mode and leaves the registers at that mode's defaults.
    ///
    /// Nothing is promised of the palette afterwards: some adapter firmware
    /// corrupts the DAC as a side effect of a mode switch, so a caller that
    /// needs a known palette must reload it unconditionally after switching.
    pub fn set_video_mode(&mut self, mode: VideoMode)
        requires
            old(self).wf(),
        ensures
            final(self).wf(),
            final(self).mode_is_set(),
            final(self).plane_mask_reg() == 0xF,
            final(self).read_plane_reg() == 0,
            final(self).write_enable_reg() == 0,
            same_planes(*old(self), *final(self)),
    {
        match mode {
            VideoMode::Mode640x480x16 => {
                self.mode_set = true;
                self.plane_mask = 0xF;
                self.read_plane = 0;
                self.write_enable = 0;
            },
        }
    }

    /// Models a volatile read of the frame-buffer byte at `offset`: the byte
    /// comes from the plane currently selected by the read-plane register.
    pub fn fb_read(&self, offset: usize) -> (byte: u8)
        requires
            self.wf(),
            offset < ALL_PLANES_SCREEN_SIZE,
        ensures
            byte == self.plane(self.read_plane_reg() as int)[offset as int],
    {
        if self.read_plane == 0 {
            self.plane0[offset]
        } else if self.read_plane == 1 {
            self.plane1[offset]
        } else if self.read_plane == 2 {
            self.plane2[offset]
        } else {
            self.plane3[offset]
        }
    }

    /// Models a volatile write of one frame-buffer byte: the value lands in
    /// every plane selected by the plane-mask register and nowhere else.
    /// Defined for the register configuration this driver uses, in which the
    /// set/reset override is disabled.
    pub fn fb_write(&mut self, offset: usize, value: u8)
        requires
            old(self).wf(),
            offset < ALL_PLANES_SCREEN_SIZE,
            old(self).write_enable_reg() == 0,
        ensures
            final(self).wf(),
            forall|p: int|
                0 <= p < 4 ==> final(self).plane(p) == (if mask_selects(
                    old(self).plane_mask_reg(),
                    p as u8,
                ) {
                    old(self).plane(p).update(offset as int, value)
                } else {
                    old(self).plane(p)
                }),
            final(self).plane_mask_reg() == old(self).plane_mask_reg(),
            final(self).read_plane_reg() == old(self).read_plane_reg(),
            final(self).write_enable_reg() == old(self).write_enable_reg(),
            final(self).palette_reg() == old(self).palette_reg(),
            final(self).mode_is_set() == old(self).mode_is_set(),
    {
        proof {
            assert(1u8 << 0 == 0x1 && 1u8 << 1 == 0x2 && 1u8 << 2 == 0x4 && 1u8 << 3 == 0x8)
                by (bit_vector);
        }
        if self.plane_mask & 0x1 != 0 {
            self.plane0[offset] = value;
        }
        if self.plane_mask & 0x2 != 0 {
            self.plane1[offset] = value;
        }
        if self.plane_mask & 0x4 != 0 {
            self.plane2[offset] = value;
        }
        if self.plane_mask & 0x8 != 0 {
            self.plane3[offset] = value;
        }
    }

    /// Reads one byte of one plane directly: an observer for the model state.
    pub fn plane_byte(&self, plane: u8, offset: usize) -> (byte: u8)
        requires
            self.wf(),
            plane < 4,
            offset < ALL_PLANES_SCREEN_SIZE,
        ensures
            byte == self.plane(plane as int)[offset as int],
    {
        if plane == 0 {
            self.plane0[offset]
        } else if plane == 1 {
            self.plane1[offset]
        } else if plane == 2 {
            self.plane2[offset]
        } else {
            self.plane3[offset]
        }
    }

    /// One byte of the palette state: an observer for the model state.
    pub fn palette_byte_at(&self, j: usize) -> (byte: u8)
        requires
            self.wf(),
            j < PALETTE_SIZE,
        ensures
            byte == self.palette_reg()[j as int],
    {
        self.palette[j]
    }

    /// Whether the graphics mode has been configured.
    pub fn is_mode_set(&self) -> (set_up: bool)
        ensures
            set_up == self.mode_is_set(),
    {
        self.mode_set
    }

    /// The current value of the write-enable set/reset register.
    pub fn write_enable_value(&self) -> (mask: u8)
        ensures
            mask == self.write_enable_reg(),
    {
        self.write_enable
    }
}

/// A zero-filled byte vector of the given length.
fn zeroed_bytes(len: usize) -> (bytes: Vec<u8>)
    ensures
        bytes@.len() == len,
        forall|i: int| 0 <= i < len ==> bytes@[i] == 0,
{
    let mut bytes: Vec<u8> = Vec::new();
    let mut i: usize = 0;
    while i < len
        invariant
            i <= len,
            bytes@.len() == i,
            forall|j: int| 0 <= j < i ==> bytes@[j] == 0,
        decreases len - i,
    {
        bytes.push(0);
        i = i + 1;
    }
    bytes
}

} // verus!
