use vstd::prelude::*;

use crate::color::Color;
use crate::display::Dimensions;
use crate::display::Display;
use crate::display::LifecycleState;
use crate::display::Rotation;
use crate::display::MAX_GATE_OUTPUTS;
use crate::display::MAX_SOURCE_OUTPUTS;
use crate::interface::DisplayInterface;

verus! {

/// The length in bytes of one plane for a panel of these dimensions: one bit
/// per pixel, rows of whole bytes.
pub open spec fn plane_len(dims: Dimensions) -> int {
    (dims.cols as int / 8) * (dims.rows as int)
}

/// Whether `(x, y)` lies within the rotated logical bounds: the logical
/// width and height swap for the 90 and 270 degree orientations.
pub open spec fn in_bounds(x: u32, y: u32, width: u32, height: u32, rotation: Rotation) -> bool {
    match rotation {
        Rotation::Rotate0 => x < width && y < height,
        Rotation::Rotate90 => x < height && y < width,
        Rotation::Rotate180 => x < width && y < height,
        Rotation::Rotate270 => x < height && y < width,
    }
}

/// The plane byte index a logical coordinate maps to, given the native
/// `width` (columns) and `height` (rows).
pub open spec fn rotation_index(x: int, y: int, width: int, height: int, rotation: Rotation) -> int {
    match rotation {
        Rotation::Rotate0 => x / 8 + (width / 8) * y,
        Rotation::Rotate90 => (width - 1 - y) / 8 + (width / 8) * x,
        Rotation::Rotate180 => (width / 8) * height - 1 - (x / 8 + (width / 8) * y),
        Rotation::Rotate270 => y / 8 + (height - 1 - x) * (width / 8),
    }
}

/// The single-bit mask a logical coordinate maps to within its plane byte.
pub open spec fn rotation_bit(x: u32, y: u32, rotation: Rotation) -> u8 {
    match rotation {
        Rotation::Rotate0 => 0x80u8 >> (x % 8),
        Rotation::Rotate90 => 0x01u8 << (y % 8),
        Rotation::Rotate180 => 0x01u8 << (x % 8),
        Rotation::Rotate270 => 0x80u8 >> (y % 8),
    }
}

/// A byte index of the form `x / 8 + wb * y` stays below `wb * h` whenever
/// `x < 8 * wb` and `y < h`.
proof fn lemma_index_bound(x: int, y: int, wb: int, h: int)
    by (nonlinear_arith)
    requires
        0 <= x,
        x < 8 * wb,
        0 <= y,
        y < h,
    ensures
        0 <= x / 8 + wb * y,
        x / 8 + wb * y < wb * h,
{
}

/// For every in-bounds coordinate the mapped byte index lies inside the
/// plane.
pub proof fn lemma_rotation_index_in_range(x: u32, y: u32, width: u32, height: u32, r: Rotation)
    requires
        width % 8 == 0,
        width <= MAX_SOURCE_OUTPUTS,
        height <= MAX_GATE_OUTPUTS,
        in_bounds(x, y, width, height, r),
    ensures
        0 <= rotation_index(x as int, y as int, width as int, height as int, r) < (width as int
            / 8) * (height as int),
{
    let xi = x as int;
    let yi = y as int;
    let w = width as int;
    let h = height as int;
    let wb = w / 8;
    assert(w == 8 * wb) by (nonlinear_arith)
        requires
            w % 8 == 0,
            wb == w / 8,
    ;
    match r {
        Rotation::Rotate0 => {
            lemma_index_bound(xi, yi, wb, h);
        },
        Rotation::Rotate90 => {
            lemma_index_bound(w - 1 - yi, xi, wb, h);
        },
        Rotation::Rotate180 => {
            lemma_index_bound(xi, yi, wb, h);
        },
        Rotation::Rotate270 => {
            lemma_index_bound(yi, h - 1 - xi, wb, h);
            assert(yi / 8 + (h - 1 - xi) * wb < wb * h) by (nonlinear_arith)
                requires
                    0 <= yi / 8 + wb * (h - 1 - xi) < wb * h,
            ;
        },
    }
}

/// Map a logical coordinate to its plane byte index and bit mask.
///
/// The four orientation formulas are load-bearing for hardware
/// compatibility; the ensures states them bit-exactly.
pub fn rotation(x: u32, y: u32, width: u32, height: u32, orientation: Rotation) -> (r: (u32, u8))
    requires
        width % 8 == 0,
        width <= MAX_SOURCE_OUTPUTS,
        height <= MAX_GATE_OUTPUTS,
        in_bounds(x, y, width, height, orientation),
    ensures
        r.0 == rotation_index(x as int, y as int, width as int, height as int, orientation),
        r.1 == rotation_bit(x, y, orientation),
{
    proof {
        lemma_rotation_index_in_range(x, y, width, height, orientation);
        assert((width as int / 8) * (height as int) <= 20 * 296) by (nonlinear_arith)
            requires
                0 <= width as int / 8 <= 20,
                0 <= height as int <= 296,
        ;
    }
    match orientation {
        Rotation::Rotate0 => (x / 8 + (width / 8) * y, 0x80 >> (x % 8)),
        Rotation::Rotate90 => ((width - 1 - y) / 8 + (width / 8) * x, 0x01 << (y % 8)),
        Rotation::Rotate180 => (
            ((width / 8) * height - 1) - (x / 8 + (width / 8) * y),
            0x01 << (x % 8),
        ),
        Rotation::Rotate270 => (y / 8 + (height - 1 - x) * (width / 8), 0x80 >> (y % 8)),
    }
}

/// Whether the black-plane bit is set for this color.
pub open spec fn black_plane_bit(color: Color) -> bool {
    match color {
        Color::Black => false,
        Color::White => true,
        Color::Red => true,
    }
}

/// Whether the red-plane bit is set for this color.
pub open spec fn red_plane_bit(color: Color) -> bool {
    match color {
        Color::Black => true,
        Color::White => true,
        Color::Red => false,
    }
}

/// The color a pair of plane bits encodes. The pair (clear, clear) is never
/// produced by this driver and decodes to nothing.
pub open spec fn color_from_bits(black: bool, red: bool) -> Option<Color> {
    if black && red {
        Some(Color::White)
    } else if red {
        Some(Color::Black)
    } else if black {
        Some(Color::Red)
    } else {
        None
    }
}

/// `byte` with the bits of `mask` set or cleared.
pub open spec fn apply_bit(byte: u8, mask: u8, set: bool) -> u8 {
    if set {
        byte | mask
    } else {
        byte & !mask
    }
}

/// The byte a whole plane is filled with when cleared to a bit value.
pub open spec fn clear_byte(bit: bool) -> u8 {
    if bit {
        0xFF
    } else {
        0x00
    }
}

/// Both planes after the pixel at the in-bounds logical coordinate `(x, y)`
/// is written with `color`: exactly one bit of one byte changes in each
/// plane.
pub open spec fn write_pixel(
    black: Seq<u8>,
    red: Seq<u8>,
    x: u32,
    y: u32,
    width: u32,
    height: u32,
    rotation: Rotation,
    color: Color,
) -> (Seq<u8>, Seq<u8>) {
    let idx = rotation_index(x as int, y as int, width as int, height as int, rotation);
    let mask = rotation_bit(x, y, rotation);
    (
        black.update(idx, apply_bit(black[idx], mask, black_plane_bit(color))),
        red.update(idx, apply_bit(red[idx], mask, red_plane_bit(color))),
    )
}

/// The color stored at the in-bounds logical coordinate `(x, y)`.
pub open spec fn pixel_at(
    black: Seq<u8>,
    red: Seq<u8>,
    x: u32,
    y: u32,
    width: u32,
    height: u32,
    rotation: Rotation,
) -> Option<Color> {
    let idx = rotation_index(x as int, y as int, width as int, height as int, rotation);
    let mask = rotation_bit(x, y, rotation);
    color_from_bits((black[idx] & mask) != 0, (red[idx] & mask) != 0)
}

/// Setting the bits of `mask` makes them read back as `mask`; clearing
/// them makes them read back as zero.
proof fn lemma_apply_bit_mask(v: u8, m: u8)
    by (bit_vector)
    ensures
        ((v | m) & m) == m,
        ((v & !m) & m) == 0,
{
}

/// Every rotation maps a coordinate to a mask with exactly one bit set; in
/// particular the mask is not zero.
proof fn lemma_rotation_bit_nonzero(x: u32, y: u32, r: Rotation)
    ensures
        rotation_bit(x, y, r) != 0,
{
    assert(0x80u8 >> (x % 8) != 0) by (bit_vector);
    assert(0x80u8 >> (y % 8) != 0) by (bit_vector);
    assert(0x01u8 << (x % 8) != 0) by (bit_vector);
    assert(0x01u8 << (y % 8) != 0) by (bit_vector);
}

/// Writing a pixel and then reading the same in-bounds coordinate yields
/// exactly the color written, in every orientation and for every color.
pub proof fn lemma_write_pixel_read_back(
    black: Seq<u8>,
    red: Seq<u8>,
    x: u32,
    y: u32,
    width: u32,
    height: u32,
    rotation: Rotation,
    color: Color,
)
    requires
        width % 8 == 0,
        width <= MAX_SOURCE_OUTPUTS,
        height <= MAX_GATE_OUTPUTS,
        in_bounds(x, y, width, height, rotation),
        black.len() == (width as int / 8) * (height as int),
        red.len() == black.len(),
    ensures
        ({
            let planes = write_pixel(black, red, x, y, width, height, rotation, color);
            pixel_at(planes.0, planes.1, x, y, width, height, rotation) == Some(color)
        }),
{
    lemma_rotation_index_in_range(x, y, width, height, rotation);
    lemma_rotation_bit_nonzero(x, y, rotation);
    let idx = rotation_index(x as int, y as int, width as int, height as int, rotation);
    let mask = rotation_bit(x, y, rotation);
    lemma_apply_bit_mask(black[idx], mask);
    lemma_apply_bit_mask(red[idx], mask);
}

/// A display that draws into two host-memory plane buffers and transmits
/// them to the controller on update.
pub struct GraphicDisplay<I> where I: DisplayInterface {
    pub display: Display<I>,
    pub black_buffer: Vec<u8>,
    pub red_buffer: Vec<u8>,
}

impl<I> GraphicDisplay<I> where I: DisplayInterface {
    /// The configuration is valid and both plane buffers have exactly one
    /// bit per pixel.
    pub open spec fn wf(self) -> bool {
        &&& self.display.config.wf()
        &&& self.black_buffer@.len() == plane_len(self.display.config.dimensions)
        &&& self.red_buffer@.len() == plane_len(self.display.config.dimensions)
    }

    /// The pixel stored at the logical coordinate `(x, y)`.
    pub open spec fn spec_pixel(self, x: u32, y: u32) -> Option<Color> {
        pixel_at(
            self.black_buffer@,
            self.red_buffer@,
            x,
            y,
            self.display.config.dimensions.cols as u32,
            self.display.config.dimensions.rows as u32,
            self.display.config.rotation,
        )
    }

    /// Promote a `Display` to a `GraphicDisplay`. The black and red plane
    /// buffers must each hold `rows * cols / 8` bytes.
    pub fn new(display: Display<I>, black_buffer: Vec<u8>, red_buffer: Vec<u8>) -> (r:
        GraphicDisplay<I>)
        requires
            display.config.wf(),
            black_buffer@.len() == plane_len(display.config.dimensions),
            red_buffer@.len() == plane_len(display.config.dimensions),
        ensures
            r.display == display,
            r.black_buffer == black_buffer,
            r.red_buffer == red_buffer,
            r.wf(),
    {
        GraphicDisplay { display, black_buffer, red_buffer }
    }

    /// Transmit both planes to the controller, start a refresh, and block
    /// until the controller goes idle again. On success the controller has
    /// observed the write-black opcode and the black plane, the write-red
    /// opcode and the red plane, then the refresh command; a transport
    /// failure aborts at once.
    pub fn update(&mut self) -> (r: Result<(), I::Error>)
        requires
            old(self).wf(),
            old(self).display.state@ == LifecycleState::Active,
            old(self).display.interface.supports_host_buffer(),
        ensures
            final(self).wf(),
            final(self).black_buffer == old(self).black_buffer,
            final(self).red_buffer == old(self).red_buffer,
            final(self).display.config == old(self).display.config,
            final(self).display.state == old(self).display.state,
            final(self).display.interface.supports_host_buffer() == old(
                self,
            ).display.interface.supports_host_buffer(),
            final(self).display.interface.sram() == old(self).display.interface.sram(),
            r is Ok ==> final(self).display.interface.log() == old(self).display.interface.log()
                + seq![0x10u8] + old(self).black_buffer@ + seq![0x13u8] + old(self).red_buffer@
                + seq![0x12u8],
    {
        let ghost l0 = self.display.interface.log();
        let rows = self.display.rows();
        let cols = self.display.cols();
        proof {
            assert(rows as int * cols as int <= 296 * 160 && (rows as int * cols as int) / 8 == (
            cols as int / 8) * rows as int) by (nonlinear_arith)
                requires
                    0 <= rows as int <= 296,
                    0 <= cols as int <= 160,
                    cols as int % 8 == 0,
            ;
        }
        let buf_limit: u16 = ((rows as u32 * cols as u32) / 8) as u16;
        self.display.interface().epd_update_data(0, buf_limit, self.black_buffer.as_slice())?;
        self.display.interface().epd_update_data(1, buf_limit, self.red_buffer.as_slice())?;
        let r = self.display.signal_update();
        if r.is_ok() {
            self.display.interface.busy_wait();
        }
        proof {
            if r is Ok {
                assert(self.display.interface.log() =~= l0 + seq![0x10u8] + old(self).black_buffer@ + seq![0x13u8] + old(self).red_buffer@ + seq![0x12u8]);
            }
        }
        r
    }

    /// Fill both plane buffers with a single color: each byte of the black
    /// plane becomes 0x00 for black and 0xFF otherwise, each byte of the red
    /// plane becomes 0x00 for red and 0xFF otherwise.
    pub fn clear(&mut self, color: Color)
        requires
            old(self).wf(),
        ensures
            final(self).wf(),
            final(self).display == old(self).display,
            final(self).black_buffer@ == Seq::new(
                old(self).black_buffer@.len(),
                |i: int| clear_byte(black_plane_bit(color)),
            ),
            final(self).red_buffer@ == Seq::new(
                old(self).red_buffer@.len(),
                |i: int| clear_byte(red_plane_bit(color)),
            ),
    {
        let (black, red): (u8, u8) = match color {
            Color::White => (0xFF, 0xFF),
            Color::Black => (0x00, 0xFF),
            Color::Red => (0xFF, 0x00),
        };
        let len = self.black_buffer.len();
        let mut i: usize = 0;
        while i < len
            invariant
                i <= len,
                self.black_buffer@.len() == len as int,
                self.display == old(self).display,
                self.red_buffer == old(self).red_buffer,
                black == clear_byte(black_plane_bit(color)),
                forall|j: int| 0 <= j < i as int ==> self.black_buffer@[j] == black,
                forall|j: int|
                    i as int <= j < len as int ==> self.black_buffer@[j] == old(self).black_buffer@[j],
            decreases len - i,
        {
            self.black_buffer.set(i, black);
            i = i + 1;
        }
        let len = self.red_buffer.len();
        let mut i: usize = 0;
        while i < len
            invariant
                i <= len,
                self.red_buffer@.len() == len as int,
                self.display == old(self).display,
                self.black_buffer@ == Seq::new(
                    old(self).black_buffer@.len(),
                    |j: int| clear_byte(black_plane_bit(color)),
                ),
                red == clear_byte(red_plane_bit(color)),
                forall|j: int| 0 <= j < i as int ==> self.red_buffer@[j] == red,
            decreases len - i,
        {
            self.red_buffer.set(i, red);
            i = i + 1;
        }
        proof {
            assert(self.red_buffer@ =~= Seq::new(
                old(self).red_buffer@.len(),
                |j: int| clear_byte(red_plane_bit(color)),
            ));
        }
    }

    /// Write one pixel in the rotated logical coordinate space. A
    /// coordinate beyond the rotated bounds is silently ignored, matching a
    /// clipping contract; an in-bounds write flips exactly one bit in each
    /// plane and the coordinate then reads back as `color`.
    pub fn set_pixel(&mut self, x: u32, y: u32, color: Color)
        requires
            old(self).wf(),
        ensures
            final(self).wf(),
            final(self).display == old(self).display,
            ({
                let width = old(self).display.config.dimensions.cols as u32;
                let height = old(self).display.config.dimensions.rows as u32;
                let rot = old(self).display.config.rotation;
                if in_bounds(x, y, width, height, rot) {
                    (final(self).black_buffer@, final(self).red_buffer@) == write_pixel(
                        old(self).black_buffer@,
                        old(self).red_buffer@,
                        x,
                        y,
                        width,
                        height,
                        rot,
                        color,
                    ) && final(self).spec_pixel(x, y) == Some(color)
                } else {
                    final(self).black_buffer == old(self).black_buffer && final(self).red_buffer
                        == old(self).red_buffer
                }
            }),
    {
        let width = self.display.cols() as u32;
        let height = self.display.rows() as u32;
        let rot = self.display.rotation();
        let inside = match rot {
            Rotation::Rotate0 => x < width && y < height,
            Rotation::Rotate90 => x < height && y < width,
            Rotation::Rotate180 => x < width && y < height,
            Rotation::Rotate270 => x < height && y < width,
        };
        if !inside {
            return ;
        }
        let (index, bit) = rotation(x, y, width, height, rot);
        proof {
            lemma_rotation_index_in_range(x, y, width, height, rot);
        }
        let idx = index as usize;
        match color {
            Color::Black => {
                let b = self.black_buffer[idx];
                self.black_buffer.set(idx, b & !bit);
                let r = self.red_buffer[idx];
                self.red_buffer.set(idx, r | bit);
            },
            Color::White => {
                let b = self.black_buffer[idx];
                self.black_buffer.set(idx, b | bit);
                let r = self.red_buffer[idx];
                self.red_buffer.set(idx, r | bit);
            },
            Color::Red => {
                let b = self.black_buffer[idx];
                self.black_buffer.set(idx, b | bit);
                let r = self.red_buffer[idx];
                self.red_buffer.set(idx, r & !bit);
            },
        }
        proof {
            lemma_write_pixel_read_back(
                old(self).black_buffer@,
                old(self).red_buffer@,
                x,
                y,
                width,
                height,
                rot,
                color,
            );
        }
    }

    /// Read back the pixel at a logical coordinate, or `None` when the
    /// coordinate is out of the rotated bounds or the byte pair holds the
    /// one bit combination the driver never writes.
    pub fn get_pixel(&self, x: u32, y: u32) -> (r: Option<Color>)
        requires
            self.wf(),
        ensures
            ({
                let width = self.display.config.dimensions.cols as u32;
                let height = self.display.config.dimensions.rows as u32;
                let rot = self.display.config.rotation;
                if in_bounds(x, y, width, height, rot) {
                    r == self.spec_pixel(x, y)
                } else {
                    r is None
                }
            }),
    {
        let width = self.display.cols() as u32;
        let height = self.display.rows() as u32;
        let rot = self.display.rotation();
        let inside = match rot {
            Rotation::Rotate0 => x < width && y < height,
            Rotation::Rotate90 => x < height && y < width,
            Rotation::Rotate180 => x < width && y < height,
            Rotation::Rotate270 => x < height && y < width,
        };
        if !inside {
            return None;
        }
        let (index, bit) = rotation(x, y, width, height, rot);
        proof {
            lemma_rotation_index_in_range(x, y, width, height, rot);
        }
        let idx = index as usize;
        let black_set = (self.black_buffer[idx] & bit) != 0;
        let red_set = (self.red_buffer[idx] & bit) != 0;
        if black_set && red_set {
            Some(Color::White)
        } else if red_set {
            Some(Color::Black)
        } else if black_set {
            Some(Color::Red)
        } else {
            None
        }
    }

    /// The logical size `(width, height)` of the drawing surface: the native
    /// columns and rows, swapped for the 90 and 270 degree orientations.
    pub fn size(&self) -> (r: (u32, u32))
        ensures
            ({
                let dims = self.display.config.dimensions;
                match self.display.config.rotation {
                    Rotation::Rotate0 | Rotation::Rotate180 => r == (
                        dims.cols as u32,
                        dims.rows as u32,
                    ),
                    Rotation::Rotate90 | Rotation::Rotate270 => r == (
                        dims.rows as u32,
                        dims.cols as u32,
                    ),
                }
            }),
    {
        match self.display.rotation() {
            Rotation::Rotate0 | Rotation::Rotate180 => (
                self.display.cols() as u32,
                self.display.rows() as u32,
            ),
            Rotation::Rotate90 | Rotation::Rotate270 => (
                self.display.rows() as u32,
                self.display.cols() as u32,
            ),
        }
    }
}

/// The black plane of an external memory image: the first `size` bytes.
pub open spec fn sram_black_plane(sram: Seq<u8>, size: int) -> Seq<u8> {
    sram.subrange(0, size)
}

/// The red plane of an external memory image: the `size` bytes that follow
/// the black plane.
pub open spec fn sram_red_plane(sram: Seq<u8>, size: int) -> Seq<u8> {
    sram.subrange(size, 2 * size)
}

/// A plane of a valid panel never exceeds 5920 bytes: at most 160 / 8
/// bytes per row and at most 296 rows.
proof fn lemma_plane_len_bound(dims: Dimensions)
    requires
        dims.wf(),
    ensures
        0 <= plane_len(dims) <= 5920,
{
    assert(0 <= (dims.cols as int / 8) * (dims.rows as int) <= 20 * 296) by (nonlinear_arith)
        requires
            0 <= dims.cols as int / 8 <= 20,
            0 <= dims.rows as int <= 296,
    ;
}

/// A display whose plane buffers live in the external memory chip rather
/// than in host memory: the black plane at address 0, the red plane
/// directly after it.
pub struct SramGraphicDisplay<I> where I: DisplayInterface {
    pub display: Display<I>,
    pub buffer_size: u16,
    pub black_address: u16,
    pub red_address: u16,
}

impl<I> SramGraphicDisplay<I> where I: DisplayInterface {
    /// The configuration is valid, the interface offers the external-memory
    /// operations, the two fixed regions cover one plane each and both fit
    /// inside the memory.
    pub open spec fn wf(self) -> bool {
        &&& self.display.config.wf()
        &&& self.display.interface.supports_sram()
        &&& self.buffer_size as int == plane_len(self.display.config.dimensions)
        &&& self.black_address == 0
        &&& self.red_address == self.buffer_size
        &&& 2 * self.buffer_size as int <= self.display.interface.sram().len()
    }

    /// The pixel stored at the logical coordinate `(x, y)`, read from the
    /// modelled external memory.
    pub open spec fn spec_pixel(self, x: u32, y: u32) -> Option<Color> {
        pixel_at(
            sram_black_plane(self.display.interface.sram(), self.buffer_size as int),
            sram_red_plane(self.display.interface.sram(), self.buffer_size as int),
            x,
            y,
            self.display.config.dimensions.cols as u32,
            self.display.config.dimensions.rows as u32,
            self.display.config.rotation,
        )
    }

    /// Promote a `Display` to a `SramGraphicDisplay`. The external memory
    /// must hold two planes of `rows * cols / 8` bytes each.
    pub fn new(display: Display<I>) -> (r: SramGraphicDisplay<I>)
        requires
            display.config.wf(),
            display.interface.supports_sram(),
            2 * plane_len(display.config.dimensions) <= display.interface.sram().len(),
        ensures
            r.display == display,
            r.buffer_size as int == plane_len(display.config.dimensions),
            r.black_address == 0,
            r.red_address == r.buffer_size,
            r.wf(),
    {
        let rows = display.rows();
        let cols = display.cols();
        proof {
            assert(rows as int * cols as int <= 296 * 160 && (rows as int * cols as int) / 8 == (
            cols as int / 8) * rows as int) by (nonlinear_arith)
                requires
                    0 <= rows as int <= 296,
                    0 <= cols as int <= 160,
                    cols as int % 8 == 0,
            ;
            lemma_plane_len_bound(display.config.dimensions);
        }
        let sz: u16 = ((rows as u32 * cols as u32) / 8) as u16;
        SramGraphicDisplay { display, buffer_size: sz, black_address: 0, red_address: sz }
    }

    /// For any valid configuration the two memory regions are fixed and
    /// disjoint: the black plane starts at address 0, the red plane starts
    /// exactly one plane later, and no byte belongs to both.
    pub proof fn lemma_regions_disjoint(self)
        requires
            self.wf(),
        ensures
            self.black_address == 0,
            self.red_address as int == plane_len(self.display.config.dimensions),
            self.black_address as int + self.buffer_size as int <= self.red_address as int,
            self.red_address as int + self.buffer_size as int <= self.display.interface.sram().len(),
    {
    }

    /// Stream both planes from external memory straight into the
    /// controller, start a refresh, and block until the controller goes
    /// idle again; nothing is staged in host memory.
    /// On success the controller has observed the write-black opcode, one
    /// plane of bytes, the write-red opcode, another plane, then the
    /// refresh command; when the memory model is faithful those bytes are
    /// exactly the stored planes.
    pub fn update(&mut self) -> (r: Result<(), I::Error>)
        requires
            old(self).wf(),
            old(self).display.state@ == LifecycleState::Active,
        ensures
            final(self).wf(),
            final(self).display.config == old(self).display.config,
            final(self).buffer_size == old(self).buffer_size,
            final(self).black_address == old(self).black_address,
            final(self).red_address == old(self).red_address,
            final(self).display.state == old(self).display.state,
            final(self).display.interface.obeys_sram_model() == old(self).display.interface.obeys_sram_model(),
            final(self).display.interface.sram() == old(self).display.interface.sram(),
            r is Ok ==> final(self).display.interface.log().len() == old(self).display.interface.log().len() + 2 * (1 + old(self).buffer_size as int) + 1,
            r is Ok && old(self).display.interface.obeys_sram_model() ==> final(self).display.interface.log() == old(self).display.interface.log() + seq![0x10u8]
                + sram_black_plane(old(self).display.interface.sram(), old(self).buffer_size as int)
                + seq![0x13u8] + sram_red_plane(
                old(self).display.interface.sram(),
                old(self).buffer_size as int,
            ) + seq![0x12u8],
    {
        let ghost l0 = self.display.interface.log();
        let ghost s0 = self.display.interface.sram();
        let size = self.buffer_size;
        self.display.interface().sram_epd_update_data(0, size, self.black_address)?;
        self.display.interface().sram_epd_update_data(1, size, self.red_address)?;
        let r = self.display.signal_update();
        if r.is_ok() {
            self.display.interface.busy_wait();
        }
        proof {
            if r is Ok && old(self).display.interface.obeys_sram_model() {
                assert(self.display.interface.log() =~= l0 + seq![0x10u8] + sram_black_plane(
                    s0,
                    size as int,
                ) + seq![0x13u8] + sram_red_plane(s0, size as int) + seq![0x12u8]);
            }
        }
        r
    }

    /// Fill both memory regions with a single color, by the same byte rule
    /// as the in-host clear; memory beyond the two planes is untouched.
    pub fn clear(&mut self, color: Color) -> (r: Result<(), I::Error>)
        requires
            old(self).wf(),
        ensures
            final(self).wf(),
            final(self).display.config == old(self).display.config,
            final(self).display.state == old(self).display.state,
            final(self).display.interface.obeys_sram_model() == old(
                self,
            ).display.interface.obeys_sram_model(),
            final(self).buffer_size == old(self).buffer_size,
            final(self).black_address == old(self).black_address,
            final(self).red_address == old(self).red_address,
            final(self).display.interface.log() == old(self).display.interface.log(),
            r is Ok ==> sram_black_plane(
                final(self).display.interface.sram(),
                old(self).buffer_size as int,
            ) == Seq::new(
                old(self).buffer_size as nat,
                |i: int| clear_byte(black_plane_bit(color)),
            ),
            r is Ok ==> sram_red_plane(
                final(self).display.interface.sram(),
                old(self).buffer_size as int,
            ) == Seq::new(old(self).buffer_size as nat, |i: int| clear_byte(red_plane_bit(color))),
            r is Ok ==> final(self).display.interface.sram().skip(
                2 * old(self).buffer_size as int,
            ) == old(self).display.interface.sram().skip(2 * old(self).buffer_size as int),
    {
        let (black, red): (u8, u8) = match color {
            Color::White => (0xFF, 0xFF),
            Color::Black => (0x00, 0xFF),
            Color::Red => (0xFF, 0x00),
        };
        let ghost s0 = self.display.interface.sram();
        let size = self.buffer_size;
        self.display.interface().sram_clear(self.black_address, size, black)?;
        let ghost s1 = self.display.interface.sram();
        let r = self.display.interface().sram_clear(self.red_address, size, red);
        proof {
            if r is Ok {
                let s2 = self.display.interface.sram();
                assert(sram_black_plane(s2, size as int) =~= Seq::new(
                    size as nat,
                    |i: int| clear_byte(black_plane_bit(color)),
                ));
                assert(sram_red_plane(s2, size as int) =~= Seq::new(
                    size as nat,
                    |i: int| clear_byte(red_plane_bit(color)),
                ));
                assert(s2.skip(2 * size as int) =~= s0.skip(2 * size as int));
            }
        }
        r
    }

    /// Write one pixel held in external memory: read one byte of each
    /// plane, flip the addressed bit by the same rule as the in-host
    /// variant, and write both bytes back. A coordinate beyond the rotated
    /// bounds is silently ignored. When the memory model is faithful, a
    /// successful in-bounds write leaves the planes exactly as the in-host
    /// write would, and the coordinate reads back as `color`.
    pub fn set_pixel(&mut self, x: u32, y: u32, color: Color) -> (r: Result<(), I::Error>)
        requires
            old(self).wf(),
        ensures
            final(self).wf(),
            final(self).display.config == old(self).display.config,
            final(self).display.state == old(self).display.state,
            final(self).display.interface.obeys_sram_model() == old(
                self,
            ).display.interface.obeys_sram_model(),
            final(self).buffer_size == old(self).buffer_size,
            final(self).black_address == old(self).black_address,
            final(self).red_address == old(self).red_address,
            final(self).display.interface.log() == old(self).display.interface.log(),
            ({
                let width = old(self).display.config.dimensions.cols as u32;
                let height = old(self).display.config.dimensions.rows as u32;
                let rot = old(self).display.config.rotation;
                let size = old(self).buffer_size as int;
                let s0 = old(self).display.interface.sram();
                if in_bounds(x, y, width, height, rot) {
                    let idx = rotation_index(x as int, y as int, width as int, height as int, rot);
                    (r is Ok ==> forall|j: int|
                        0 <= j < s0.len() && j != idx && j != size + idx
                            ==> final(self).display.interface.sram()[j] == s0[j]) && ((r is Ok
                        && old(self).display.interface.obeys_sram_model()) ==> ((
                    sram_black_plane(final(self).display.interface.sram(), size),
                    sram_red_plane(final(self).display.interface.sram(), size),
                    ) == write_pixel(
                        sram_black_plane(s0, size),
                        sram_red_plane(s0, size),
                        x,
                        y,
                        width,
                        height,
                        rot,
                        color,
                    ) && final(self).spec_pixel(x, y) == Some(color)))
                } else {
                    r is Ok && final(self).display.interface.sram() == s0
                }
            }),
    {
        let width = self.display.cols() as u32;
        let height = self.display.rows() as u32;
        let rot = self.display.rotation();
        let inside = match rot {
            Rotation::Rotate0 => x < width && y < height,
            Rotation::Rotate90 => x < height && y < width,
            Rotation::Rotate180 => x < width && y < height,
            Rotation::Rotate270 => x < height && y < width,
        };
        if !inside {
            return Ok(());
        }
        let (index, bit) = rotation(x, y, width, height, rot);
        proof {
            lemma_rotation_index_in_range(x, y, width, height, rot);
            lemma_plane_len_bound(self.display.config.dimensions);
        }
        let idx = index as u16;
        let ghost s0 = self.display.interface.sram();
        let ghost size = self.buffer_size as int;
        let black_addr = self.black_address + idx;
        let red_addr = self.red_address + idx;
        let black_bytes = self.display.interface().sram_read(black_addr, 1)?;
        let red_bytes = self.display.interface().sram_read(red_addr, 1)?;
        let (new_black, new_red): (u8, u8) = match color {
            Color::Black => (black_bytes[0] & !bit, red_bytes[0] | bit),
            Color::White => (black_bytes[0] | bit, red_bytes[0] | bit),
            Color::Red => (black_bytes[0] | bit, red_bytes[0] & !bit),
        };
        let mut black_out: Vec<u8> = Vec::new();
        black_out.push(new_black);
        let mut red_out: Vec<u8> = Vec::new();
        red_out.push(new_red);
        self.display.interface().sram_write(black_addr, black_out.as_slice())?;
        let r = self.display.interface().sram_write(red_addr, red_out.as_slice());
        proof {
            if r is Ok && old(self).display.interface.obeys_sram_model() {
                let s2 = self.display.interface.sram();
                let mask = rotation_bit(x, y, rot);
                assert(black_bytes@[0] == s0[idx as int]);
                assert(red_bytes@[0] == s0[size + idx as int]);
                assert(sram_black_plane(s2, size) =~= sram_black_plane(s0, size).update(
                    idx as int,
                    apply_bit(s0[idx as int], mask, black_plane_bit(color)),
                ));
                assert(sram_red_plane(s2, size) =~= sram_red_plane(s0, size).update(
                    idx as int,
                    apply_bit(s0[size + idx as int], mask, red_plane_bit(color)),
                ));
                lemma_write_pixel_read_back(
                    sram_black_plane(s0, size),
                    sram_red_plane(s0, size),
                    x,
                    y,
                    width,
                    height,
                    rot,
                    color,
                );
            }
        }
        r
    }

    /// The logical size `(width, height)` of the drawing surface: the native
    /// columns and rows, swapped for the 90 and 270 degree orientations.
    pub fn size(&self) -> (r: (u32, u32))
        ensures
            ({
                let dims = self.display.config.dimensions;
                match self.display.config.rotation {
                    Rotation::Rotate0 | Rotation::Rotate180 => r == (
                        dims.cols as u32,
                        dims.rows as u32,
                    ),
                    Rotation::Rotate90 | Rotation::Rotate270 => r == (
                        dims.rows as u32,
                        dims.cols as u32,
                    ),
                }
            }),
    {
        match self.display.rotation() {
            Rotation::Rotate0 | Rotation::Rotate180 => (
                self.display.cols() as u32,
                self.display.rows() as u32,
            ),
            Rotation::Rotate90 | Rotation::Rotate270 => (
                self.display.rows() as u32,
                self.display.cols() as u32,
            ),
        }
    }
}

} // verus!
