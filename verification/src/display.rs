//! A display with a framebuffer of one bit per pixel.
//!
//! The controller scans its RAM in a fixed order: eight pixels per byte along
//! a row of `width` pixels, most significant bit first, and `height` rows one
//! after the other. [`rotation`] maps a pixel of the logical image, which may
//! be rotated against the panel, to the byte and the bit that hold it. A bit
//! that is 0 shows a dark pixel.
use crate::basic_display::{
    init_requests, reset_requests, update_requests, BasicDisplay, DisplayUpdateMode, Rotation,
};
use crate::command::carried_out;
use crate::config::Config;
use crate::interface::{completed, stopped_short, Attempt, DisplayInterface};
use vstd::prelude::*;

verus! {

/// Width of the logical image on a panel of `width` by `height` pixels.
pub open spec fn logical_width(width: u32, height: u32, rotation: Rotation) -> u32 {
    match rotation {
        Rotation::Rotate0 | Rotation::Rotate180 => width,
        Rotation::Rotate90 | Rotation::Rotate270 => height,
    }
}

/// Height of the logical image on a panel of `width` by `height` pixels.
pub open spec fn logical_height(width: u32, height: u32, rotation: Rotation) -> u32 {
    match rotation {
        Rotation::Rotate0 | Rotation::Rotate180 => height,
        Rotation::Rotate90 | Rotation::Rotate270 => width,
    }
}

/// The pixel `(x, y)` lies within the logical image.
pub open spec fn in_bounds(x: u32, y: u32, width: u32, height: u32, rotation: Rotation) -> bool {
    x < logical_width(width, height, rotation) && y < logical_height(width, height, rotation)
}

/// Index of the framebuffer byte that holds the pixel `(x, y)`.
pub open spec fn byte_index(x: u32, y: u32, width: u32, height: u32, rotation: Rotation) -> int {
    match rotation {
        Rotation::Rotate0 => x / 8 + (width / 8) * y,
        Rotation::Rotate90 => (width - 1 - y) / 8 + (width / 8) * x,
        Rotation::Rotate180 => (width / 8) * height - 1 - (x / 8 + (width / 8) * y),
        Rotation::Rotate270 => y / 8 + (height - 1 - x) * (width / 8),
    }
}

/// The bit, within its byte, that holds the pixel `(x, y)`.
pub open spec fn bit_mask(x: u32, y: u32, rotation: Rotation) -> u8 {
    match rotation {
        Rotation::Rotate0 => 0x80u8 >> (x % 8),
        Rotation::Rotate90 => 0x01u8 << (y % 8),
        Rotation::Rotate180 => 0x01u8 << (x % 8),
        Rotation::Rotate270 => 0x80u8 >> (y % 8),
    }
}

/// Exactly one bit of `mask` is set.
pub open spec fn is_single_bit(mask: u8) -> bool {
    mask == 0x01 || mask == 0x02 || mask == 0x04 || mask == 0x08 || mask == 0x10 || mask == 0x20
        || mask == 0x40 || mask == 0x80
}

/// The byte `byte` after the pixel under `mask` was switched on or off: an
/// "on" pixel is dark and has its bit cleared, an "off" pixel has it set.
pub open spec fn painted_byte(byte: u8, mask: u8, on: bool) -> u8 {
    if on {
        byte & !mask
    } else {
        byte | mask
    }
}

/// The framebuffer `buffer` after the pixel `(x, y)` was switched on or off.
pub open spec fn painted(
    buffer: Seq<u8>,
    x: u32,
    y: u32,
    width: u32,
    height: u32,
    rotation: Rotation,
    on: bool,
) -> Seq<u8> {
    let index = byte_index(x, y, width, height, rotation);
    buffer.update(index, painted_byte(buffer[index], bit_mask(x, y, rotation), on))
}

/// A framebuffer of `len` bytes that shows dark pixels only (every byte
/// `0x00`) or light pixels only (every byte `0xFF`).
pub open spec fn filled(len: nat, fill_dark: bool) -> Seq<u8> {
    Seq::new(
        len,
        |i: int|
            if fill_dark {
                0x00u8
            } else {
                0xFFu8
            },
    )
}

/// A pixel to draw, in the coordinates of the logical image.
#[derive(Clone, Copy, Debug, PartialEq, Eq, Structural)]
pub struct Pixel {
    /// Column, counted from the left edge.
    pub x: i32,
    /// Row, counted from the top edge.
    pub y: i32,
    /// Whether the pixel is switched on, which shows as dark.
    pub on: bool,
}

impl Pixel {
    /// The pixel lies within the logical image.
    pub open spec fn visible(self, width: u32, height: u32, rotation: Rotation) -> bool {
        &&& 0 <= self.x < logical_width(width, height, rotation)
        &&& 0 <= self.y < logical_height(width, height, rotation)
    }
}

/// The framebuffer `buffer` after `pixels` were drawn in order. Pixels
/// outside the logical image are left out.
pub open spec fn drawn(
    buffer: Seq<u8>,
    pixels: Seq<Pixel>,
    width: u32,
    height: u32,
    rotation: Rotation,
) -> Seq<u8>
    decreases pixels.len(),
{
    if pixels.len() == 0 {
        buffer
    } else {
        let before = drawn(buffer, pixels.drop_last(), width, height, rotation);
        let pixel = pixels.last();
        if pixel.visible(width, height, rotation) {
            painted(before, pixel.x as u32, pixel.y as u32, width, height, rotation, pixel.on)
        } else {
            before
        }
    }
}

/// Every byte of a row lies within the framebuffer: with `row_bytes` bytes
/// per row and `rows` rows, byte `column` of row `row` has an index below
/// `row_bytes * rows`.
proof fn lemma_row_major_index_in_range(row_bytes: int, rows: int, column: int, row: int)
    by (nonlinear_arith)
    requires
        0 <= column < row_bytes,
        0 <= row < rows,
    ensures
        0 <= row_bytes * row,
        0 <= column + row_bytes * row < row_bytes * rows,
        row_bytes * row == row * row_bytes,
{
}

/// A row-major index determines its row and its column.
proof fn lemma_row_major_index_unique(
    row_bytes: int,
    column1: int,
    row1: int,
    column2: int,
    row2: int,
)
    by (nonlinear_arith)
    requires
        0 <= column1 < row_bytes,
        0 <= column2 < row_bytes,
        column1 + row_bytes * row1 == column2 + row_bytes * row2,
    ensures
        column1 == column2,
        row1 == row2,
{
}

/// The masks that count from the most significant bit have one bit each and
/// differ from one position to the next.
proof fn lemma_high_masks(a: u32, b: u32)
    requires
        a < 8,
        b < 8,
    ensures
        is_single_bit(0x80u8 >> a),
        (0x80u8 >> a) == (0x80u8 >> b) ==> a == b,
{
    masks_by_position();
}

/// The masks that count from the least significant bit have one bit each and
/// differ from one position to the next.
proof fn lemma_low_masks(a: u32, b: u32)
    requires
        a < 8,
        b < 8,
    ensures
        is_single_bit(0x01u8 << a),
        (0x01u8 << a) == (0x01u8 << b) ==> a == b,
{
    masks_by_position();
}

/// The masks by position: counted from the most significant bit they run
/// from `0x80` down to `0x01`, counted from the least significant bit from
/// `0x01` up to `0x80`.
pub proof fn masks_by_position()
    ensures
        0x80u8 >> 0u32 == 0x80,
        0x80u8 >> 1u32 == 0x40,
        0x80u8 >> 2u32 == 0x20,
        0x80u8 >> 3u32 == 0x10,
        0x80u8 >> 4u32 == 0x08,
        0x80u8 >> 5u32 == 0x04,
        0x80u8 >> 6u32 == 0x02,
        0x80u8 >> 7u32 == 0x01,
        0x01u8 << 0u32 == 0x01,
        0x01u8 << 1u32 == 0x02,
        0x01u8 << 2u32 == 0x04,
        0x01u8 << 3u32 == 0x08,
        0x01u8 << 4u32 == 0x10,
        0x01u8 << 5u32 == 0x20,
        0x01u8 << 6u32 == 0x40,
        0x01u8 << 7u32 == 0x80,
{
    assert(0x80u8 >> 0u32 == 0x80 && 0x80u8 >> 1u32 == 0x40 && 0x80u8 >> 2u32 == 0x20 && 0x80u8
        >> 3u32 == 0x10 && 0x80u8 >> 4u32 == 0x08 && 0x80u8 >> 5u32 == 0x04 && 0x80u8 >> 6u32
        == 0x02 && 0x80u8 >> 7u32 == 0x01) by (bit_vector);
    assert(0x01u8 << 0u32 == 0x01 && 0x01u8 << 1u32 == 0x02 && 0x01u8 << 2u32 == 0x04 && 0x01u8
        << 3u32 == 0x08 && 0x01u8 << 4u32 == 0x10 && 0x01u8 << 5u32 == 0x20 && 0x01u8 << 6u32
        == 0x40 && 0x01u8 << 7u32 == 0x80) by (bit_vector);
}

/// Every pixel of the logical image has a byte inside the framebuffer and a
/// mask of exactly one bit.
pub proof fn rotation_stays_in_buffer(x: u32, y: u32, width: u32, height: u32, rotation: Rotation)
    requires
        width % 8 == 0,
        in_bounds(x, y, width, height, rotation),
    ensures
        0 <= byte_index(x, y, width, height, rotation) < (width / 8) * height,
        (width / 8) * height == (width * height) / 8,
        is_single_bit(bit_mask(x, y, rotation)),
{
    let row_bytes = (width / 8) as int;
    assert((width / 8) * height == (width * height) / 8) by (nonlinear_arith)
        requires
            width % 8 == 0,
    ;
    match rotation {
        Rotation::Rotate0 => {
            lemma_row_major_index_in_range(row_bytes, height as int, (x / 8) as int, y as int);
            lemma_high_masks(x % 8, x % 8);
        },
        Rotation::Rotate90 => {
            lemma_row_major_index_in_range(
                row_bytes,
                height as int,
                (width - 1 - y) / 8,
                x as int,
            );
            lemma_low_masks(y % 8, y % 8);
        },
        Rotation::Rotate180 => {
            lemma_row_major_index_in_range(row_bytes, height as int, (x / 8) as int, y as int);
            lemma_low_masks(x % 8, x % 8);
        },
        Rotation::Rotate270 => {
            lemma_row_major_index_in_range(
                row_bytes,
                height as int,
                (y / 8) as int,
                height - 1 - x,
            );
            lemma_high_masks(y % 8, y % 8);
        },
    }
}

/// The place on the panel, in its native orientation, that shows the pixel
/// `(x, y)` of the logical image.
pub open spec fn native_position(
    x: u32,
    y: u32,
    width: u32,
    height: u32,
    rotation: Rotation,
) -> (int, int) {
    match rotation {
        Rotation::Rotate0 => (x as int, y as int),
        Rotation::Rotate90 => (width - 1 - y, x as int),
        Rotation::Rotate180 => (width - 1 - x, height - 1 - y),
        Rotation::Rotate270 => (y as int, height - 1 - x),
    }
}

/// A rotation turns the coordinates and nothing else: the pixel `(x, y)` of
/// a rotated image lies on the panel, and is held by the byte and the bit
/// that hold its place on the panel when the image is not rotated.
pub proof fn rotation_turns_coordinates(
    x: u32,
    y: u32,
    width: u32,
    height: u32,
    rotation: Rotation,
)
    requires
        width % 8 == 0,
        in_bounds(x, y, width, height, rotation),
    ensures
        ({
            let (column, row) = native_position(x, y, width, height, rotation);
            &&& 0 <= column < width
            &&& 0 <= row < height
            &&& byte_index(x, y, width, height, rotation) == byte_index(
                column as u32,
                row as u32,
                width,
                height,
                Rotation::Rotate0,
            )
            &&& bit_mask(x, y, rotation) == bit_mask(column as u32, row as u32, Rotation::Rotate0)
        }),
{
    masks_by_position();
    let row_bytes = (width / 8) as int;
    match rotation {
        Rotation::Rotate0 => {},
        Rotation::Rotate90 => {
            assert((width - 1 - y) % 8 == 7 - y % 8);
        },
        Rotation::Rotate180 => {
            assert((width - 1 - x) % 8 == 7 - x % 8);
            assert((width - 1 - x) / 8 == row_bytes - 1 - x / 8);
            assert(row_bytes * height - 1 - (x / 8 + row_bytes * y) == (width - 1 - x) / 8
                + row_bytes * (height - 1 - y)) by (nonlinear_arith)
                requires
                    (width - 1 - x) / 8 == row_bytes - 1 - x / 8,
            ;
        },
        Rotation::Rotate270 => {
            assert((height - 1 - x) * row_bytes == row_bytes * (height - 1 - x))
                by (nonlinear_arith);
        },
    }
}

/// No two pixels of the logical image share a bit of the framebuffer: pixels
/// with the same byte and the same mask are the same pixel.
pub proof fn rotation_is_injective(
    x1: u32,
    y1: u32,
    x2: u32,
    y2: u32,
    width: u32,
    height: u32,
    rotation: Rotation,
)
    requires
        width % 8 == 0,
        in_bounds(x1, y1, width, height, rotation),
        in_bounds(x2, y2, width, height, rotation),
        byte_index(x1, y1, width, height, rotation) == byte_index(x2, y2, width, height, rotation),
        bit_mask(x1, y1, rotation) == bit_mask(x2, y2, rotation),
    ensures
        x1 == x2,
        y1 == y2,
{
    let row_bytes = (width / 8) as int;
    match rotation {
        Rotation::Rotate0 | Rotation::Rotate180 => {
            lemma_row_major_index_unique(
                row_bytes,
                (x1 / 8) as int,
                y1 as int,
                (x2 / 8) as int,
                y2 as int,
            );
            lemma_high_masks(x1 % 8, x2 % 8);
            lemma_low_masks(x1 % 8, x2 % 8);
        },
        Rotation::Rotate90 => {
            lemma_row_major_index_unique(
                row_bytes,
                (width - 1 - y1) / 8,
                x1 as int,
                (width - 1 - y2) / 8,
                x2 as int,
            );
            lemma_low_masks(y1 % 8, y2 % 8);
        },
        Rotation::Rotate270 => {
            lemma_row_major_index_in_range(
                row_bytes,
                height as int,
                (y1 / 8) as int,
                height - 1 - x1,
            );
            lemma_row_major_index_in_range(
                row_bytes,
                height as int,
                (y2 / 8) as int,
                height - 1 - x2,
            );
            lemma_row_major_index_unique(
                row_bytes,
                (y1 / 8) as int,
                height - 1 - x1,
                (y2 / 8) as int,
                height - 1 - x2,
            );
            lemma_high_masks(y1 % 8, y2 % 8);
        },
    }
}

/// Switching a pixel leaves its bit cleared when the pixel is on and set when
/// it is off, and keeps every other bit of the byte.
pub proof fn painted_byte_changes_one_bit(byte: u8, mask: u8, on: bool)
    ensures
        on ==> painted_byte(byte, mask, on) & mask == 0,
        !on ==> painted_byte(byte, mask, on) & mask == mask,
        painted_byte(byte, mask, on) & !mask == byte & !mask,
{
    assert((byte & !mask) & mask == 0) by (bit_vector);
    assert((byte | mask) & mask == mask) by (bit_vector);
    assert((byte & !mask) & !mask == byte & !mask) by (bit_vector);
    assert((byte | mask) & !mask == byte & !mask) by (bit_vector);
}

/// Finds the byte and the bit of the framebuffer that hold the pixel
/// `(x, y)` of the logical image on a panel of `width` by `height` pixels.
///
/// The pixel has to lie within the logical image, whose sides are swapped
/// against the panel's for a rotation by 90 or 270 degrees.
pub fn rotation(x: u32, y: u32, width: u32, height: u32, orientation: Rotation) -> (r: (u32, u8))
    requires
        width % 8 == 0,
        (width / 8) * height <= u32::MAX,
        in_bounds(x, y, width, height, orientation),
    ensures
        r.0 == byte_index(x, y, width, height, orientation),
        r.1 == bit_mask(x, y, orientation),
        r.0 < (width * height) / 8,
        is_single_bit(r.1),
{
    proof {
        rotation_stays_in_buffer(x, y, width, height, orientation);
    }
    let row_bytes: u32 = width / 8;
    match orientation {
        Rotation::Rotate0 => {
            proof {
                lemma_row_major_index_in_range(
                    row_bytes as int,
                    height as int,
                    (x / 8) as int,
                    y as int,
                );
            }
            (x / 8 + row_bytes * y, 0x80u8 >> (x % 8))
        },
        Rotation::Rotate90 => {
            proof {
                lemma_row_major_index_in_range(
                    row_bytes as int,
                    height as int,
                    (width - 1 - y) / 8,
                    x as int,
                );
            }
            ((width - 1 - y) / 8 + row_bytes * x, 0x01u8 << (y % 8))
        },
        Rotation::Rotate180 => {
            proof {
                lemma_row_major_index_in_range(
                    row_bytes as int,
                    height as int,
                    (x / 8) as int,
                    y as int,
                );
            }
            ((row_bytes * height - 1) - (x / 8 + row_bytes * y), 0x01u8 << (x % 8))
        },
        Rotation::Rotate270 => {
            proof {
                lemma_row_major_index_in_range(
                    row_bytes as int,
                    height as int,
                    (y / 8) as int,
                    height - 1 - x,
                );
            }
            (y / 8 + (height - 1 - x) * row_bytes, 0x80u8 >> (y % 8))
        },
    }
}

/// A display that owns the framebuffer of its black-and-white plane.
///
/// The framebuffer always holds one bit for every pixel of the panel.
pub struct Display<I: DisplayInterface> {
    display: BasicDisplay<I>,
    bw_buffer: Vec<u8>,
}

impl<I: DisplayInterface> Display<I> {
    /// The controller and its configuration.
    pub closed spec fn controller(&self) -> BasicDisplay<I> {
        self.display
    }

    /// The bytes of the framebuffer.
    pub closed spec fn spec_buffer(&self) -> Seq<u8> {
        self.bw_buffer@
    }

    /// The framebuffer holds one bit for every pixel of the panel.
    pub open spec fn wf(&self) -> bool {
        self.spec_buffer().len() == self.controller().dimensions().buffer_len()
    }

    /// Native width of the panel, in pixels.
    pub open spec fn width(&self) -> u32 {
        self.controller().dimensions().cols as u32
    }

    /// Native height of the panel, in pixels.
    pub open spec fn height(&self) -> u32 {
        self.controller().dimensions().rows as u32
    }

    /// Rotation of the logical image.
    pub open spec fn spec_rotation(&self) -> Rotation {
        self.controller().spec_config().spec_rotation()
    }

    /// Whether drawing refreshes the panel by itself.
    pub open spec fn auto_update(&self) -> bool {
        self.controller().spec_config().spec_auto_update()
    }

    /// A display that has not been reset yet, with the given framebuffer,
    /// which has to hold one bit for every pixel of the panel.
    pub fn new(interface: I, bw_buffer: Vec<u8>, config: Config) -> (display: Self)
        requires
            bw_buffer@.len() == config.spec_dimensions().buffer_len(),
        ensures
            display.wf(),
            display.spec_buffer() == bw_buffer@,
            display.controller().spec_config() == config,
            display.controller().spec_interface() == interface,
            display.controller().history() == Seq::<Attempt>::empty(),
            !display.controller().spec_is_initialized(),
    {
        let display = BasicDisplay::new(interface, config);
        Display::from_basic_display(display, bw_buffer)
    }

    /// Gives a controller a framebuffer, which has to hold one bit for every
    /// pixel of the panel.
    pub fn from_basic_display(display: BasicDisplay<I>, bw_buffer: Vec<u8>) -> (promoted: Self)
        requires
            bw_buffer@.len() == display.dimensions().buffer_len(),
        ensures
            promoted.wf(),
            promoted.spec_buffer() == bw_buffer@,
            promoted.controller() == display,
    {
        Display { display, bw_buffer }
    }

    /// Resets the controller and initializes it; see [`BasicDisplay::reset`].
    pub fn reset(&mut self) -> (r: Result<(), I::Error>)
        requires
            old(self).wf(),
            old(self).height() >= 1,
            old(self).width() >= 1,
        ensures
            final(self).wf(),
            final(self).spec_buffer() == old(self).spec_buffer(),
            final(self).controller().spec_config() == old(self).controller().spec_config(),
            carried_out(
                r,
                old(self).controller().history(),
                final(self).controller().history(),
                reset_requests(old(self).controller().dimensions()),
            ),
            final(self).controller().spec_is_initialized() <==> r is Ok,
    {
        self.display.reset()
    }

    /// Writes the framebuffer to the black-and-white plane of the controller
    /// and refreshes the panel; see [`BasicDisplay::update`].
    pub fn update(&mut self, mode: DisplayUpdateMode) -> (r: Result<(), I::Error>)
        requires
            old(self).wf(),
            old(self).controller().spec_is_initialized(),
        ensures
            final(self).wf(),
            final(self).spec_buffer() == old(self).spec_buffer(),
            final(self).controller().spec_config() == old(self).controller().spec_config(),
            carried_out(
                r,
                old(self).controller().history(),
                final(self).controller().history(),
                update_requests(Some(old(self).spec_buffer()), None, mode),
            ),
            final(self).controller().spec_is_initialized() <==> r is Ok,
    {
        self.display.update(Some(self.bw_buffer.as_slice()), None, mode)
    }

    /// Fills the framebuffer with dark pixels (every byte `0x00`) or with
    /// light pixels (every byte `0xFF`). The controller is not touched.
    pub fn clear(&mut self, fill_dark: bool)
        requires
            old(self).wf(),
        ensures
            final(self).wf(),
            final(self).spec_buffer() == filled(old(self).spec_buffer().len(), fill_dark),
            final(self).controller() == old(self).controller(),
    {
        let fill_value: u8 = if fill_dark {
            0x00
        } else {
            0xFF
        };
        let len: usize = self.bw_buffer.len();
        let mut i: usize = 0;
        while i < len
            invariant
                i <= len,
                self.bw_buffer@.len() == len,
                self.display == old(self).display,
                forall|k: int| 0 <= k < i ==> #[trigger] self.bw_buffer@[k] == fill_value,
            decreases len - i,
        {
            self.bw_buffer[i] = fill_value;
            i = i + 1;
        }
    }

    /// Switches the pixel `(x, y)` of the logical image on, which shows as
    /// dark, or off. The pixel has to lie within the logical image. The
    /// controller is not touched.
    pub fn set_pixel(&mut self, x: u32, y: u32, on: bool)
        requires
            old(self).wf(),
            in_bounds(x, y, old(self).width(), old(self).height(), old(self).spec_rotation()),
        ensures
            final(self).wf(),
            final(self).spec_buffer() == painted(
                old(self).spec_buffer(),
                x,
                y,
                old(self).width(),
                old(self).height(),
                old(self).spec_rotation(),
                on,
            ),
            ({
                let index = byte_index(
                    x,
                    y,
                    old(self).width(),
                    old(self).height(),
                    old(self).spec_rotation(),
                );
                let mask = bit_mask(x, y, old(self).spec_rotation());
                let before = old(self).spec_buffer();
                let after = final(self).spec_buffer();
                &&& 0 <= index < before.len() == after.len()
                &&& is_single_bit(mask)
                &&& on ==> after[index] & mask == 0
                &&& !on ==> after[index] & mask == mask
                &&& after[index] & !mask == before[index] & !mask
                &&& forall|i: int| 0 <= i < before.len() && i != index ==> after[i] == before[i]
            }),
            final(self).controller() == old(self).controller(),
    {
        let dimensions = self.display.config().dimensions();
        let width: u32 = dimensions.cols as u32;
        let height: u32 = dimensions.rows as u32;
        assert((width / 8) * height <= u32::MAX) by (nonlinear_arith)
            requires
                width <= 960,
                height <= 680,
        ;
        let (index, bit) = rotation(x, y, width, height, self.display.rotation());
        let index: usize = index as usize;
        let byte: u8 = self.bw_buffer[index];
        proof {
            painted_byte_changes_one_bit(byte, bit, on);
        }
        if on {
            self.bw_buffer[index] = byte & !bit;
        } else {
            self.bw_buffer[index] = byte | bit;
        }
    }

    /// Draws `pixels` in order, leaving out those outside the logical image.
    /// Afterwards, if the display refreshes by itself and the controller is
    /// initialized, the framebuffer is written to the controller and the
    /// panel is refreshed with the fast waveform; a failure of that refresh
    /// is not reported, but leaves the controller uninitialized.
    pub fn draw_iter(&mut self, pixels: &[Pixel])
        requires
            old(self).wf(),
        ensures
            final(self).wf(),
            final(self).spec_buffer() == drawn(
                old(self).spec_buffer(),
                pixels@,
                old(self).width(),
                old(self).height(),
                old(self).spec_rotation(),
            ),
            final(self).controller().spec_config() == old(self).controller().spec_config(),
            old(self).auto_update() && old(self).controller().spec_is_initialized()
                && final(self).controller().spec_is_initialized() ==> completed(
                old(self).controller().history(),
                final(self).controller().history(),
                update_requests(Some(final(self).spec_buffer()), None, DisplayUpdateMode::Fast),
            ),
            old(self).auto_update() && old(self).controller().spec_is_initialized()
                && !final(self).controller().spec_is_initialized() ==> stopped_short(
                old(self).controller().history(),
                final(self).controller().history(),
                update_requests(Some(final(self).spec_buffer()), None, DisplayUpdateMode::Fast),
            ),
            !(old(self).auto_update() && old(self).controller().spec_is_initialized())
                ==> final(self).controller() == old(self).controller(),
    {
        let (width, height) = self.size();
        let count: usize = pixels.len();
        let mut i: usize = 0;
        while i < count
            invariant
                i <= count == pixels@.len(),
                self.wf(),
                self.display == old(self).display,
                width == logical_width(self.width(), self.height(), self.spec_rotation()),
                height == logical_height(self.width(), self.height(), self.spec_rotation()),
                self.bw_buffer@ == drawn(
                    old(self).spec_buffer(),
                    pixels@.take(i as int),
                    self.width(),
                    self.height(),
                    self.spec_rotation(),
                ),
            decreases count - i,
        {
            let pixel: Pixel = pixels[i];
            proof {
                assert(pixels@.take(i + 1).drop_last() =~= pixels@.take(i as int));
            }
            if pixel.x >= 0 && pixel.y >= 0 && (pixel.x as u32) < width && (pixel.y as u32)
                < height {
                self.set_pixel(pixel.x as u32, pixel.y as u32, pixel.on);
            }
            i = i + 1;
        }
        proof {
            assert(pixels@.take(count as int) =~= pixels@);
        }
        if self.display.config().auto_update() && self.display.is_initialized() {
            let _ = self.update(DisplayUpdateMode::Fast);
        }
    }

    /// Width and height of the logical image, in pixels: those of the panel,
    /// swapped for a rotation by 90 or 270 degrees.
    pub fn size(&self) -> (size: (u32, u32))
        ensures
            size.0 == logical_width(self.width(), self.height(), self.spec_rotation()),
            size.1 == logical_height(self.width(), self.height(), self.spec_rotation()),
    {
        let cols: u32 = self.display.cols() as u32;
        let rows: u32 = self.display.rows() as u32;
        match self.display.rotation() {
            Rotation::Rotate0 | Rotation::Rotate180 => (cols, rows),
            Rotation::Rotate90 | Rotation::Rotate270 => (rows, cols),
        }
    }

    /// Initializes the controller; see [`BasicDisplay::init`].
    pub fn init(&mut self) -> (r: Result<(), I::Error>)
        requires
            old(self).wf(),
            old(self).height() >= 1,
            old(self).width() >= 1,
        ensures
            final(self).wf(),
            final(self).spec_buffer() == old(self).spec_buffer(),
            final(self).controller().spec_config() == old(self).controller().spec_config(),
            carried_out(
                r,
                old(self).controller().history(),
                final(self).controller().history(),
                init_requests(old(self).controller().dimensions()),
            ),
            final(self).controller().spec_is_initialized() <==> r is Ok,
    {
        self.display.init()
    }

    /// The controller and its configuration.
    pub fn basic_display(&self) -> (display: &BasicDisplay<I>)
        ensures
            *display == self.controller(),
    {
        &self.display
    }

    /// Gives the controller and the framebuffer back.
    pub fn release(self) -> (parts: (BasicDisplay<I>, Vec<u8>))
        ensures
            parts.0 == self.controller(),
            parts.1@ == self.spec_buffer(),
    {
        (self.display, self.bw_buffer)
    }

    /// The bytes of the framebuffer.
    pub fn buffer(&self) -> (bytes: &[u8])
        ensures
            bytes@ == self.spec_buffer(),
    {
        self.bw_buffer.as_slice()
    }

    /// Whether the controller is initialized, so that [`Display::update`] may
    /// be called.
    pub fn is_initialized(&self) -> (initialized: bool)
        ensures
            initialized == self.controller().spec_is_initialized(),
    {
        self.display.is_initialized()
    }

    /// Number of rows of the panel.
    pub fn rows(&self) -> (rows: u16)
        ensures
            rows == self.height(),
    {
        self.display.rows()
    }

    /// Number of columns of the panel.
    pub fn cols(&self) -> (cols: u16)
        ensures
            cols == self.width(),
    {
        self.display.cols()
    }

    /// Rotation of the logical image.
    pub fn rotation(&self) -> (rotation: Rotation)
        ensures
            rotation == self.spec_rotation(),
    {
        self.display.rotation()
    }
}

} // verus!
