//! The frame buffer: one full frame in memory, two bytes per pixel, row by row.

use vstd::prelude::*;
use crate::error::BusError;
use crate::st7789v::{COLS, FRAME_SIZE, ROWS};
use crate::wire::{high, high_byte, low, low_byte};

verus! {

/// How the picture is turned on the panel.
#[derive(Clone, Copy, PartialEq, Eq, Debug, Structural)]
pub enum DisplayRotation {
    /// No rotation.
    Rotate0,
    /// Rotated by 90 degrees clockwise.
    Rotate90,
    /// Rotated by 180 degrees clockwise.
    Rotate180,
    /// Rotated by 270 degrees clockwise.
    Rotate270,
}

impl Default for DisplayRotation {
    fn default() -> (rotation: Self)
        ensures
            rotation == DisplayRotation::Rotate0,
    {
        DisplayRotation::Rotate0
    }
}

/// One coloured point, as a renderer hands it over. Only the low 16 bits of each
/// coordinate are looked at.
#[derive(Clone, Copy, PartialEq, Eq, Debug, Structural)]
pub struct Pixel {
    pub x: i32,
    pub y: i32,
    pub color: u16,
}

impl Pixel {
    /// The column this point is drawn in.
    pub open spec fn column(self) -> u16 {
        self.x as u16
    }

    /// The row this point is drawn in.
    pub open spec fn row(self) -> u16 {
        self.y as u16
    }

    /// Whether this point falls inside the buffer of an unrotated frame.
    pub fn in_frame(&self) -> (inside: bool)
        ensures
            inside == (offset(self.column(), self.row()) < FRAME_SIZE),
    {
        in_frame(#[verifier::truncate] (self.x as u16), #[verifier::truncate] (self.y as u16))
    }
}

/// The column and row of a point are its coordinates cut down to their low 16
/// bits, which is the remainder by 65536: a coordinate from 0 to 65535 stands
/// as it is, and one below zero comes out at the far end.
pub proof fn lemma_pixel_coordinates(pixel: Pixel)
    ensures
        pixel.column() == pixel.x % 65536,
        pixel.row() == pixel.y % 65536,
        0 <= pixel.x <= 65535 ==> pixel.column() == pixel.x,
        0 <= pixel.y <= 65535 ==> pixel.row() == pixel.y,
{
    let x: i32 = pixel.x;
    let y: i32 = pixel.y;
    assert(x as u16 == x % 65536) by (bit_vector);
    assert(y as u16 == y % 65536) by (bit_vector);
}

/// What a frame buffer holds: its bytes and its rotation.
pub struct Frame {
    pub bytes: Seq<u8>,
    pub rotation: DisplayRotation,
}

/// Where the first of a pixel's two bytes lies in an unrotated frame.
pub open spec fn offset(x: u16, y: u16) -> int {
    (y * COLS + x) * 2
}

/// Computes the offset of pixel (`x`, `y`), which fits a `usize` for every pair
/// of coordinates.
fn locate(x: u16, y: u16) -> (at: usize)
    ensures
        at == offset(x, y),
{
    let x: usize = x as usize;
    let y: usize = y as usize;
    let cols: usize = COLS as usize;
    assert(y * cols <= 65535 * 240) by (nonlinear_arith)
        requires
            y <= 65535,
            cols == 240,
    ;
    (y * cols + x) * 2
}

/// Whether pixel (`x`, `y`) falls inside the buffer of an unrotated frame.
pub fn in_frame(x: u16, y: u16) -> (inside: bool)
    ensures
        inside == (offset(x, y) < FRAME_SIZE),
{
    locate(x, y) < FRAME_SIZE
}

/// A frame in which every pixel has the same colour.
pub open spec fn solid(color: u16) -> Seq<u8> {
    Seq::new(
        FRAME_SIZE as nat,
        |i: int|
            if i % 2 == 0 {
                high_byte(color)
            } else {
                low_byte(color)
            },
    )
}

/// The bytes after one pixel is written: its high byte at its offset, its low
/// byte behind it, everything else as before.
pub open spec fn plot(bytes: Seq<u8>, x: u16, y: u16, color: u16) -> Seq<u8> {
    bytes.update(offset(x, y), high_byte(color)).update(offset(x, y) + 1, low_byte(color))
}

/// The bytes after the points are written one after the other, the first one
/// first.
pub open spec fn paint(bytes: Seq<u8>, pixels: Seq<Pixel>) -> Seq<u8>
    decreases pixels.len(),
{
    if pixels.len() == 0 {
        bytes
    } else {
        let last = pixels.last();
        plot(paint(bytes, pixels.drop_last()), last.column(), last.row(), last.color)
    }
}

/// Whether every point falls inside the buffer.
pub open spec fn all_inside(pixels: Seq<Pixel>) -> bool {
    forall|i: int| 0 <= i < pixels.len() ==> offset(#[trigger] pixels[i].column(), pixels[i].row()) < FRAME_SIZE
}

/// The size that is reported for a rotation: width and height change places
/// when the picture lies on its side.
pub open spec fn extent(rotation: DisplayRotation) -> (u32, u32) {
    match rotation {
        DisplayRotation::Rotate0 | DisplayRotation::Rotate180 => (COLS as u32, ROWS as u32),
        DisplayRotation::Rotate90 | DisplayRotation::Rotate270 => (ROWS as u32, COLS as u32),
    }
}

/// A pixel on the panel lies inside the frame, at `(y * 240 + x) * 2`, and no two
/// pixels share a byte.
pub proof fn lemma_offset_on_panel(x: u16, y: u16)
    requires
        x < COLS,
        y < ROWS,
    ensures
        offset(x, y) == (y * 240 + x) * 2,
        0 <= offset(x, y),
        offset(x, y) + 1 < FRAME_SIZE,
        forall|u: u16, v: u16|
            u < COLS && v < ROWS && (u != x || v != y) ==> #[trigger] offset(u, v) != offset(x, y)
                && offset(u, v) != offset(x, y) + 1 && offset(u, v) + 1 != offset(x, y),
{
}

/// A pixel written to an unrotated frame reads back: at its offset stands the
/// colour's high byte, behind it the low byte. The frame keeps its length, and
/// every other byte is as it was.
pub proof fn lemma_plot_reads_back(bytes: Seq<u8>, x: u16, y: u16, color: u16)
    requires
        bytes.len() == FRAME_SIZE,
        x < COLS,
        y < ROWS,
    ensures
        plot(bytes, x, y, color).len() == FRAME_SIZE,
        plot(bytes, x, y, color)[(y * 240 + x) * 2] == high_byte(color),
        plot(bytes, x, y, color)[(y * 240 + x) * 2 + 1] == low_byte(color),
        forall|i: int|
            0 <= i < FRAME_SIZE && i != (y * 240 + x) * 2 && i != (y * 240 + x) * 2 + 1 ==> plot(
                bytes,
                x,
                y,
                color,
            )[i] == bytes[i],
{
}

/// In a frame of one colour every pixel of the panel reads as that colour, and
/// the frame has the length of a frame.
pub proof fn lemma_solid_reads_back(color: u16, x: u16, y: u16)
    requires
        x < COLS,
        y < ROWS,
    ensures
        solid(color).len() == FRAME_SIZE,
        solid(color)[(y * 240 + x) * 2] == high_byte(color),
        solid(color)[(y * 240 + x) * 2 + 1] == low_byte(color),
{
}

/// Overwrites a buffer of frame length with one colour.
fn fill(buffer: &mut Vec<u8>, color: u16)
    requires
        old(buffer).len() == FRAME_SIZE,
    ensures
        final(buffer)@ == solid(color),
    no_unwind
{
    let msb: u8 = high(color);
    let lsb: u8 = low(color);
    let mut i: usize = 0;
    while i < FRAME_SIZE
        invariant
            buffer.len() == FRAME_SIZE,
            i <= FRAME_SIZE,
            i % 2 == 0,
            msb == high_byte(color),
            lsb == low_byte(color),
            forall|j: int| 0 <= j < i ==> buffer@[j] == solid(color)[j],
        decreases FRAME_SIZE - i,
    {
        buffer[i] = msb;
        buffer[i + 1] = lsb;
        i += 2;
    }
    assert(buffer@ =~= solid(color));
}

/// A frame buffer for the 240x320 panel.
pub struct Display2in14 {
    buffer: Vec<u8>,
    rotation: DisplayRotation,
}

impl View for Display2in14 {
    type V = Frame;

    closed spec fn view(&self) -> Frame {
        Frame { bytes: self.buffer@, rotation: self.rotation }
    }
}

impl Display2in14 {
    #[verifier::type_invariant]
    spec fn holds_one_frame(self) -> bool {
        self.buffer.len() == FRAME_SIZE
    }

    /// A buffer of its own, every pixel in `color`, unrotated.
    pub fn new(color: u16) -> (display: Self)
        ensures
            display@.bytes == solid(color),
            display@.bytes.len() == FRAME_SIZE,
            display@.rotation == DisplayRotation::Rotate0,
    {
        let mut buffer: Vec<u8> = vec![0u8; FRAME_SIZE];
        fill(&mut buffer, color);
        Display2in14 { buffer, rotation: DisplayRotation::default() }
    }

    /// Takes over storage handed in by the caller and fills every pixel with
    /// `color`. Storage that is not exactly one frame long is refused.
    pub fn from_buffer(buffer: Vec<u8>, color: u16) -> (made: Result<Self, BusError>)
        ensures
            buffer.len() != FRAME_SIZE <==> made == Err::<Self, BusError>(BusError::InvalidBufferSize),
            buffer.len() == FRAME_SIZE <==> made is Ok,
            made is Ok ==> made.unwrap()@.bytes == solid(color),
            made is Ok ==> made.unwrap()@.bytes.len() == FRAME_SIZE,
            made is Ok ==> made.unwrap()@.rotation == DisplayRotation::Rotate0,
    {
        if buffer.len() != FRAME_SIZE {
            return Err(BusError::InvalidBufferSize);
        }
        let mut buffer = buffer;
        fill(&mut buffer, color);
        Ok(Display2in14 { buffer, rotation: DisplayRotation::default() })
    }

    /// Overwrites every pixel with `color`. The rotation stays.
    pub fn clear_buffer(&mut self, color: u16)
        ensures
            final(self)@.bytes == solid(color),
            old(self)@.bytes.len() == FRAME_SIZE,
            final(self)@.bytes.len() == FRAME_SIZE,
            final(self)@.rotation == old(self)@.rotation,
    {
        proof {
            use_type_invariant(&*self);
        }
        fill(&mut self.buffer, color);
    }

    /// The bytes of the frame, as they go out on the wire. There are always
    /// exactly as many as one frame has.
    pub fn buffer(&self) -> (bytes: &[u8])
        ensures
            bytes@ == self@.bytes,
            bytes@.len() == FRAME_SIZE,
    {
        proof {
            use_type_invariant(self);
        }
        self.buffer.as_slice()
    }

    /// The rotation now in force.
    pub fn get_rotation(&self) -> (rotation: DisplayRotation)
        ensures
            rotation == self@.rotation,
    {
        self.rotation
    }

    /// Changes the rotation. The bytes in the buffer are not touched: only later
    /// addressing goes by the new rotation.
    pub fn set_rotation(&mut self, rotation: DisplayRotation)
        ensures
            final(self)@.rotation == rotation,
            final(self)@.bytes == old(self)@.bytes,
            old(self)@.bytes.len() == FRAME_SIZE,
            final(self)@.bytes.len() == FRAME_SIZE,
    {
        proof {
            use_type_invariant(&*self);
        }
        self.rotation = rotation;
    }

    /// The size to report: width and height, which change places when the
    /// picture lies on its side. This goes by the rotation alone, also for
    /// rotations in which no pixel can be addressed.
    pub fn size(&self) -> (size: (u32, u32))
        ensures
            size == extent(self@.rotation),
    {
        match self.rotation {
            DisplayRotation::Rotate0 | DisplayRotation::Rotate180 => (COLS as u32, ROWS as u32),
            DisplayRotation::Rotate90 | DisplayRotation::Rotate270 => (ROWS as u32, COLS as u32),
        }
    }

    /// Where the first byte of pixel (`x`, `y`) lies in the buffer. Only the
    /// unrotated frame has a mapping; every other rotation is refused.
    pub fn get_location(&self, x: u16, y: u16) -> (location: Result<usize, BusError>)
        ensures
            self@.rotation == DisplayRotation::Rotate0 ==> location == Ok::<usize, BusError>(
                offset(x, y) as usize,
            ),
            self@.rotation != DisplayRotation::Rotate0 ==> location == Err::<usize, BusError>(
                BusError::UnsupportedRotation,
            ),
    {
        match self.rotation {
            DisplayRotation::Rotate0 => Ok(locate(x, y)),
            _ => Err(BusError::UnsupportedRotation),
        }
    }

    /// Writes one pixel: the colour's high byte at the pixel's offset, its low
    /// byte behind it. In a rotation without a mapping nothing is written and
    /// the call is refused.
    pub fn set_pixel(&mut self, x: u16, y: u16, color: u16) -> (done: Result<(), BusError>)
        requires
            old(self)@.rotation == DisplayRotation::Rotate0 ==> offset(x, y) < FRAME_SIZE,
        ensures
            final(self)@.rotation == old(self)@.rotation,
            old(self)@.bytes.len() == FRAME_SIZE,
            final(self)@.bytes.len() == FRAME_SIZE,
            old(self)@.rotation == DisplayRotation::Rotate0 ==> done == Ok::<(), BusError>(())
                && final(self)@.bytes == plot(old(self)@.bytes, x, y, color),
            old(self)@.rotation == DisplayRotation::Rotate0 ==> final(self)@.bytes[offset(x, y)]
                == high_byte(color) && final(self)@.bytes[offset(x, y) + 1] == low_byte(color),
            old(self)@.rotation != DisplayRotation::Rotate0 ==> done == Err::<(), BusError>(
                BusError::UnsupportedRotation,
            ) && final(self)@.bytes == old(self)@.bytes,
    {
        proof {
            use_type_invariant(&*self);
        }
        match self.get_location(x, y) {
            Ok(idx) => {
                self.buffer[idx] = high(color);
                self.buffer[idx + 1] = low(color);
                Ok(())
            },
            Err(error) => Err(error),
        }
    }

    /// Writes the points one after the other, the first one first, each as
    /// [`set_pixel`](Self::set_pixel) does. In a rotation without a mapping the
    /// first point is refused and nothing is written; with no points there is
    /// nothing to refuse.
    pub fn draw_iter(&mut self, pixels: &[Pixel]) -> (done: Result<(), BusError>)
        requires
            old(self)@.rotation == DisplayRotation::Rotate0 ==> all_inside(pixels@),
        ensures
            final(self)@.rotation == old(self)@.rotation,
            old(self)@.bytes.len() == FRAME_SIZE,
            final(self)@.bytes.len() == FRAME_SIZE,
            old(self)@.rotation == DisplayRotation::Rotate0 || pixels@.len() == 0 ==> done
                == Ok::<(), BusError>(()) && final(self)@.bytes == paint(
                old(self)@.bytes,
                pixels@,
            ),
            old(self)@.rotation != DisplayRotation::Rotate0 && pixels@.len() > 0 ==> done
                == Err::<(), BusError>(BusError::UnsupportedRotation) && final(self)@.bytes == old(
                self,
            )@.bytes,
    {
        proof {
            use_type_invariant(&*self);
        }
        let mut i: usize = 0;
        assert(pixels@.take(0) =~= Seq::empty());
        while i < pixels.len()
            invariant
                i <= pixels@.len(),
                self@.bytes.len() == FRAME_SIZE,
                self@.rotation == old(self)@.rotation,
                old(self)@.rotation == DisplayRotation::Rotate0 ==> all_inside(pixels@),
                old(self)@.rotation != DisplayRotation::Rotate0 ==> i == 0,
                self@.bytes == paint(old(self)@.bytes, pixels@.take(i as int)),
            decreases pixels@.len() - i,
        {
            let pixel = pixels[i];
            let x: u16 = #[verifier::truncate]
            (pixel.x as u16);
            let y: u16 = #[verifier::truncate]
            (pixel.y as u16);
            assert(x == pixels@[i as int].column() && y == pixels@[i as int].row());
            match self.set_pixel(x, y, pixel.color) {
                Ok(()) => {},
                Err(error) => {
                    return Err(error);
                },
            }
            assert(pixels@.take(i + 1).drop_last() =~= pixels@.take(i as int));
            i += 1;
        }
        assert(pixels@.take(i as int) =~= pixels@);
        Ok(())
    }
}

} // verus!
