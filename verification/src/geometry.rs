//! Points and rectangles on the display, and how the controller encodes them.
//!
//! The controller addresses columns in groups of eight and rows one by one. A column is sent as
//! one byte, the number of its group; a row is sent as two bytes, the low one first.
use vstd::arithmetic::div_mod::{lemma_fundamental_div_mod_converse, lemma_mod_multiples_vanish};
use vstd::prelude::*;

verus! {

/// The height of the display.
pub const DISPLAY_HEIGHT: u32 = 300;

/// The width of the display.
pub const DISPLAY_WIDTH: u32 = 400;

/// A position on the display; x grows to the right and y grows downwards.
#[derive(Debug, Clone, Copy, PartialEq, Eq, Structural)]
pub struct Point {
    pub x: i32,
    pub y: i32,
}

/// The extent of an area of the display.
#[derive(Debug, Clone, Copy, PartialEq, Eq, Structural)]
pub struct Size {
    pub width: u32,
    pub height: u32,
}

/// An area of the display.
#[derive(Debug, Clone, Copy, PartialEq, Eq, Structural)]
pub struct Rectangle {
    pub top_left: Point,
    pub size: Size,
}

/// What a 32-bit count is when its bits are read as a signed number.
pub open spec fn signed(count: u32) -> int {
    if count < 0x8000_0000 {
        count as int
    } else {
        count - 0x1_0000_0000
    }
}

/// The byte that stands for column `x`: the number of its group of eight columns, modulo 256.
pub open spec fn column_byte(x: int) -> u8 {
    ((x / 8) % 256) as u8
}

/// The two bytes that stand for row `y`, low byte first: `y` modulo 65536.
pub open spec fn row_bytes(y: int) -> Seq<u8> {
    seq![(y % 256) as u8, ((y / 256) % 256) as u8]
}

impl Rectangle {
    /// The column of the rectangle's last pixels.
    pub open spec fn right(self) -> int {
        self.top_left.x + self.size.width - 1
    }

    /// The row of the rectangle's last pixels.
    pub open spec fn bottom(self) -> int {
        self.top_left.y + self.size.height - 1
    }

    /// The rectangle passes as a window on whole groups of eight columns:
    ///
    /// * its first column is a multiple of eight;
    /// * its last column is the last one of a group of eight, and is not left of the display;
    /// * the column and the row behind its last ones fit in 32-bit signed numbers and are not the
    ///   smallest one, its width and its height being read as 32-bit signed numbers.
    pub open spec fn spec_is_byte_aligned(self) -> bool {
        let end = self.top_left.x + signed(self.size.width);
        let below = self.top_left.y + signed(self.size.height);
        &&& i32::MIN < end <= i32::MAX
        &&& i32::MIN < below <= i32::MAX
        &&& self.top_left.x as int % 8 == 0
        &&& end - 1 >= 0
        &&& (end - 1) % 8 == 7
    }

    /// Whether the rectangle passes as a window on whole groups of eight columns. A rectangle that
    /// ends left of the display does not pass even if it is made of whole groups, and neither does
    /// one whose last column or row is out of range; any other rectangle that does not pass is one
    /// that the controller rounds to whole groups.
    pub fn is_byte_aligned(&self) -> (aligned: bool)
        ensures
            aligned == self.spec_is_byte_aligned(),
    {
        let end: i64 = self.top_left.x as i64 + signed_count(self.size.width);
        let below: i64 = self.top_left.y as i64 + signed_count(self.size.height);
        -0x8000_0000 < end && end <= 0x7fff_ffff && -0x8000_0000 < below && below <= 0x7fff_ffff
            && self.top_left.is_byte_aligned() && end - 1 >= 0 && (end - 1) as u64 % 8 == 7
    }
}

impl Point {
    /// Whether the point lies on the border of a group of eight columns.
    pub fn is_byte_aligned(&self) -> (aligned: bool)
        ensures
            aligned == (self.x as int % 8 == 0),
    {
        proof {
            lemma_group_of_eight(self.x);
        }
        self.x & 7 == 0
    }
}

/// On the display, a window passes as aligned exactly if its first column and its width are
/// multiples of eight.
pub proof fn lemma_alignment_on_display(area: Rectangle)
    requires
        0 <= area.top_left.x,
        1 <= area.size.width,
        area.top_left.x + area.size.width <= i32::MAX,
        0 <= area.top_left.y,
        1 <= area.size.height,
        area.top_left.y + area.size.height <= 65536,
    ensures
        area.spec_is_byte_aligned() <==> area.top_left.x as int % 8 == 0 && area.size.width % 8
            == 0,
{
}

/// The lowest three bits of a number tell its place in its group of eight, the others its group.
proof fn lemma_group_of_eight(x: i32)
    ensures
        x >> 3 == x as int / 8,
        x & 7 == x as int % 8,
{
    assert(x == 8 * (x >> 3) + (x & 7) && 0 <= (x & 7) < 8) by (bit_vector);
}

fn signed_count(count: u32) -> (value: i64)
    ensures
        value == signed(count),
{
    if count < 0x8000_0000 {
        count as i64
    } else {
        count as i64 - 0x1_0000_0000
    }
}

/// Splits a number into its low and its high byte.
pub fn split_low_and_high(value: u16) -> (bytes: (u8, u8))
    ensures
        bytes.0 == value % 256,
        bytes.1 == value / 256,
{
    proof {
        assert(value & 0xFF == value % 256) by (bit_vector);
        assert(value >> 8 == value / 256) by (bit_vector);
    }
    ((value & 0xFF) as u8, (value >> 8) as u8)
}

/// A sum that wraps around at 32 bits keeps the bits that the controller is sent.
proof fn lemma_wrapping_keeps_bytes(wrapped: int, sum: int, turns: int)
    requires
        wrapped == sum + 0x1_0000_0000 * turns,
    ensures
        column_byte(wrapped) == column_byte(sum),
        row_bytes(wrapped) == row_bytes(sum),
{
    lemma_fundamental_div_mod_converse(wrapped, 8, sum / 8 + 0x2000_0000 * turns, sum % 8);
    lemma_fundamental_div_mod_converse(wrapped, 256, sum / 256 + 0x100_0000 * turns, sum % 256);
    lemma_mod_multiples_vanish(0x20_0000 * turns, sum / 8, 256);
    lemma_mod_multiples_vanish(0x1_0000 * turns, sum / 256, 256);
}

/// The coordinate of the last pixel of `length` pixels that start at `start`. The sum wraps
/// around, which leaves the bytes that the controller is sent unchanged.
pub(crate) fn last_coordinate(start: i32, length: u32) -> (last: i32)
    ensures
        column_byte(last as int) == column_byte(start + length - 1),
        row_bytes(last as int) == row_bytes(start + length - 1),
{
    proof {
        assert((length as i32) == (if length < 0x8000_0000u32 {
            length as int
        } else {
            length - 0x1_0000_0000
        })) by (bit_vector);
    }
    let last: i32 = start.wrapping_add(length as i32).wrapping_sub(1);
    proof {
        let sum = start + length - 1;
        let turns = (last - sum) / 0x1_0000_0000;
        assert(last == sum + 0x1_0000_0000 * turns);
        lemma_wrapping_keeps_bytes(last as int, sum, turns);
    }
    last
}

/// The group of eight columns that holds column `x`.
pub(crate) fn encode_column(x: i32) -> (byte: u8)
    ensures
        byte == column_byte(x as int),
{
    let group: i32 = x >> 3;
    proof {
        lemma_group_of_eight(x);
        assert(group == 256 * (group >> 8) + (group & 0xFF) && 0 <= (group & 0xFF) < 256)
            by (bit_vector);
    }
    (group & 0xFF) as u8
}

/// The low and the high byte of row `y`.
pub(crate) fn encode_row(y: i32) -> (bytes: (u8, u8))
    ensures
        seq![bytes.0, bytes.1] == row_bytes(y as int),
{
    proof {
        assert(y == 0x1_0000 * (y >> 16) + (y as u16)) by (bit_vector);
    }
    split_low_and_high(y as u16)
}

} // verus!
