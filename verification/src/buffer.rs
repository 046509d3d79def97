//! Images that can be sent to the display.
//!
//! A row of an image is a whole number of bytes. Each byte holds eight pixels next to each other,
//! the leftmost one in the most significant bit. A set bit is white, a clear one is black.
use vstd::prelude::*;

use crate::geometry::{Point, Rectangle, Size, DISPLAY_HEIGHT, DISPLAY_WIDTH};

verus! {

/// An image, or part of one, as the display wants it: `FRAMES` framebuffers of `BITS` bits per
/// pixel, which cover one window of the display.
#[derive(Debug, Clone, Copy)]
pub struct BufferView<'a, const BITS: usize, const FRAMES: usize> {
    /// The window that the framebuffers cover.
    pub window: Rectangle,
    /// The bytes of each framebuffer.
    pub data: [&'a [u8]; FRAMES],
}

/// The number of bytes in a framebuffer of one bit per pixel.
pub open spec fn binary_buffer_length(size: Size) -> int {
    size.width as int / 8 * size.height
}

/// The length of the framebuffers that cover the whole display.
pub const BINARY_BUFFER_LENGTH: usize = 15000;

/// The area of the whole display.
pub open spec fn display_area() -> Rectangle {
    Rectangle {
        top_left: Point { x: 0, y: 0 },
        size: Size { width: DISPLAY_WIDTH, height: DISPLAY_HEIGHT },
    }
}

/// A framebuffer of the whole display has one bit for each of its pixels.
pub proof fn lemma_buffer_covers_display()
    ensures
        BINARY_BUFFER_LENGTH == binary_buffer_length(display_area().size),
        BINARY_BUFFER_LENGTH * 8 == DISPLAY_WIDTH * DISPLAY_HEIGHT,
{
}

/// An image in black and white, of `L` bytes.
#[derive(Debug)]
pub struct BinaryBuffer<const L: usize> {
    size: Size,
    data: [u8; L],
}

/// The bit of a byte that holds the pixel of column `x`.
pub open spec fn column_mask(x: int) -> u8 {
    0x80u8 >> ((x % 8) as u8)
}

impl<const L: usize> BinaryBuffer<L> {
    #[verifier::type_invariant]
    spec fn covers_size(self) -> bool {
        &&& self.size.width % 8 == 0
        &&& binary_buffer_length(self.size) == L
    }

    /// The width and the height of the image.
    pub closed spec fn size(self) -> Size {
        self.size
    }

    /// The bytes of the image, row after row.
    pub closed spec fn bytes(self) -> Seq<u8> {
        self.data@
    }

    /// A point lies inside the image.
    pub open spec fn contains(self, x: int, y: int) -> bool {
        0 <= x < self.size().width && 0 <= y < self.size().height
    }

    /// The pixel at a point inside the image is white.
    pub open spec fn is_on(self, x: int, y: int) -> bool {
        self.bytes()[y * (self.size().width as int / 8) + x / 8] & column_mask(x) != 0
    }

    /// Creates a black image of the given size.
    pub fn new(size: Size) -> (buffer: Self)
        requires
            size.width % 8 == 0,
            binary_buffer_length(size) == L,
        ensures
            buffer.size() == size,
            buffer.bytes() == Seq::new(L as nat, |i: int| 0u8),
    {
        BinaryBuffer { size, data: [0u8; L] }
    }

    /// The window that the image covers.
    pub open spec fn window(self) -> Rectangle {
        Rectangle { top_left: Point { x: 0, y: 0 }, size: self.size() }
    }

    /// Returns the image as the display wants it.
    pub fn as_view(&self) -> (view: BufferView<'_, 1, 1>)
        ensures
            view.window == self.window(),
            view.data@[0]@ == self.bytes(),
    {
        BufferView {
            window: Rectangle { top_left: Point { x: 0, y: 0 }, size: self.size },
            data: [&self.data],
        }
    }

    /// Makes the pixel at `point` white if `on` is set, and black otherwise. A point outside the
    /// image is ignored.
    pub fn set_pixel(&mut self, point: Point, on: bool)
        ensures
            final(self).size() == old(self).size(),
            final(self).bytes().len() == old(self).bytes().len(),
            !old(self).contains(point.x as int, point.y as int) ==> *final(self) == *old(self),
            forall|x: int, y: int|
                old(self).contains(x, y) ==> #[trigger] final(self).is_on(x, y) == (if x == point.x
                    && y == point.y {
                    on
                } else {
                    old(self).is_on(x, y)
                }),
        no_unwind
    {
        proof {
            use_type_invariant(&*self);
        }
        if point.x < 0 || point.y < 0 || point.x as u32 >= self.size.width || point.y as u32
            >= self.size.height {
            return ;
        }
        let ghost before = *self;
        let stride: usize = (self.size.width / 8) as usize;
        let x: u32 = point.x as u32;
        let group: usize = (x / 8) as usize;
        let column: u8 = (x % 8) as u8;
        let row: usize = point.y as usize;
        proof {
            lemma_index_in_range(row as int, group as int, stride as int, self.size.height as int);
        }
        let index: usize = row * stride + group;
        let mask: u8 = 0x80u8 >> column;
        let byte: u8 = self.data[index];
        self.data[index] = if on {
            byte | mask
        } else {
            byte & !mask
        };
        assert forall|x: int, y: int|
            before.contains(x, y) implies #[trigger] self.is_on(x, y) == (if x == point.x && y
            == point.y {
            on
        } else {
            before.is_on(x, y)
        }) by {
            lemma_index_in_range(y, x / 8, stride as int, before.size.height as int);
            if y * stride + x / 8 == index {
                lemma_index_is_injective(y, x / 8, row as int, group as int, stride as int);
                lemma_one_bit(byte, column, (x % 8) as u8);
            }
        }
    }
}

/// An image in four shades of gray, split into a framebuffer for the low and one for the high bits
/// of its pixels.
#[derive(Debug)]
pub struct Gray2SplitBuffer<const L: usize> {
    low: BinaryBuffer<L>,
    high: BinaryBuffer<L>,
}

impl<const L: usize> Gray2SplitBuffer<L> {
    /// Both framebuffers have the same size.
    #[verifier::type_invariant]
    spec fn planes_agree(self) -> bool {
        self.low.size() == self.high.size()
    }

    /// The low bits of the pixels.
    pub closed spec fn low(self) -> BinaryBuffer<L> {
        self.low
    }

    /// The high bits of the pixels.
    pub closed spec fn high(self) -> BinaryBuffer<L> {
        self.high
    }

    /// The shade of the pixel at a point inside the image, from 0 for black to 3 for white.
    pub open spec fn luma(self, x: int, y: int) -> int {
        (if self.low().is_on(x, y) {
            1int
        } else {
            0
        }) + (if self.high().is_on(x, y) {
            2int
        } else {
            0
        })
    }

    /// Creates a black image of the given size.
    pub fn new(size: Size) -> (buffer: Self)
        requires
            size.width % 8 == 0,
            binary_buffer_length(size) == L,
        ensures
            buffer.low().size() == size,
            buffer.high().size() == size,
            buffer.low().bytes() == Seq::new(L as nat, |i: int| 0u8),
            buffer.high().bytes() == Seq::new(L as nat, |i: int| 0u8),
    {
        Gray2SplitBuffer { low: BinaryBuffer::new(size), high: BinaryBuffer::new(size) }
    }

    /// Returns the image as the display wants it, the low bits first.
    pub fn as_view(&self) -> (view: BufferView<'_, 1, 2>)
        ensures
            view.window == self.low().window(),
            view.window == self.high().window(),
            view.data@[0]@ == self.low().bytes(),
            view.data@[1]@ == self.high().bytes(),
    {
        proof {
            use_type_invariant(self);
        }
        BufferView { window: self.low.as_view().window, data: [&self.low.data, &self.high.data] }
    }

    /// Gives the pixel at `point` the shade in the two lowest bits of `luma`. A point outside the
    /// image is ignored.
    pub fn set_pixel(&mut self, point: Point, luma: u8)
        ensures
            final(self).low().size() == old(self).low().size(),
            final(self).high().size() == old(self).high().size(),
            final(self).low().bytes().len() == old(self).low().bytes().len(),
            final(self).high().bytes().len() == old(self).high().bytes().len(),
            !old(self).low().contains(point.x as int, point.y as int) ==> *final(self) == *old(
                self,
            ),
            forall|x: int, y: int|
                old(self).low().contains(x, y) ==> #[trigger] final(self).luma(x, y) == (if x
                    == point.x && y == point.y {
                    luma as int % 4
                } else {
                    old(self).luma(x, y)
                }),
    {
        proof {
            use_type_invariant(&*self);
            assert((luma & 1 == 1) == (luma % 2 == 1)) by (bit_vector);
            assert((luma & 2 == 2) == (luma / 2 % 2 == 1)) by (bit_vector);
        }
        self.low.set_pixel(point, luma & 1 == 1);
        self.high.set_pixel(point, luma & 2 == 2);
    }
}

/// The buffer type for black and white images of the whole display.
pub type Epd4In2BinaryBuffer = BinaryBuffer<BINARY_BUFFER_LENGTH>;

/// The buffer type for grayscale images of the whole display.
pub type Epd4In2Gray2Buffer = Gray2SplitBuffer<BINARY_BUFFER_LENGTH>;

/// Constructs a new binary buffer for use with the display.
pub fn new_binary_buffer() -> (buffer: Epd4In2BinaryBuffer)
    ensures
        buffer.window() == display_area(),
        buffer.bytes() == Seq::new(BINARY_BUFFER_LENGTH as nat, |i: int| 0u8),
{
    proof {
        lemma_buffer_covers_display();
    }
    Epd4In2BinaryBuffer::new(Size { width: DISPLAY_WIDTH, height: DISPLAY_HEIGHT })
}

/// Constructs a new grayscale buffer for use with the display.
pub fn new_gray2_buffer() -> (buffer: Epd4In2Gray2Buffer)
    ensures
        buffer.low().window() == display_area(),
        buffer.high().window() == display_area(),
        buffer.low().bytes() == Seq::new(BINARY_BUFFER_LENGTH as nat, |i: int| 0u8),
        buffer.high().bytes() == Seq::new(BINARY_BUFFER_LENGTH as nat, |i: int| 0u8),
{
    proof {
        lemma_buffer_covers_display();
    }
    Epd4In2Gray2Buffer::new(Size { width: DISPLAY_WIDTH, height: DISPLAY_HEIGHT })
}

proof fn lemma_index_in_range(row: int, group: int, stride: int, height: int)
    requires
        0 <= row < height,
        0 <= group < stride,
    ensures
        0 <= row * stride,
        0 <= row * stride + group < stride * height,
{
    assert(0 <= row * stride && row * stride + stride <= stride * height) by (nonlinear_arith)
        requires
            0 <= row < height,
            0 < stride,
    ;
}

proof fn lemma_index_is_injective(row1: int, group1: int, row2: int, group2: int, stride: int)
    requires
        0 <= group1 < stride,
        0 <= group2 < stride,
        row1 * stride + group1 == row2 * stride + group2,
    ensures
        row1 == row2,
        group1 == group2,
{
    assert(row1 == row2) by (nonlinear_arith)
        requires
            0 <= group1 < stride,
            0 <= group2 < stride,
            row1 * stride + group1 == row2 * stride + group2,
    ;
}

/// Setting or clearing the bit of one column changes that bit alone.
proof fn lemma_one_bit(byte: u8, column: u8, other: u8)
    requires
        column < 8,
        other < 8,
    ensures
        ((byte | (0x80u8 >> column)) & (0x80u8 >> other) != 0) == (column == other || byte & (0x80u8
            >> other) != 0),
        ((byte & !(0x80u8 >> column)) & (0x80u8 >> other) != 0) == (column != other && byte & (
        0x80u8 >> other) != 0),
{
    assert(((byte | (0x80u8 >> column)) & (0x80u8 >> other) != 0) == (column == other || byte & (
    0x80u8 >> other) != 0)) by (bit_vector)
        requires
            column < 8,
            other < 8,
    ;
    assert(((byte & !(0x80u8 >> column)) & (0x80u8 >> other) != 0) == (column != other && byte & (
    0x80u8 >> other) != 0)) by (bit_vector)
        requires
            column < 8,
            other < 8,
    ;
}

} // verus!
