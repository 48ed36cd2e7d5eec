//! Screen rectangles and the packed mouse coordinates of Win32 messages.

use vstd::prelude::*;

verus! {

/// A rectangle in screen pixels, with the Win32 `RECT` layout:
/// `left`/`top` inclusive, `right`/`bottom` exclusive.
#[derive(Clone, Copy, Debug, PartialEq, Eq, Structural)]
pub struct Rect {
    pub left: i32,
    pub top: i32,
    pub right: i32,
    pub bottom: i32,
}

/// A point in screen pixels.
#[derive(Clone, Copy, Debug, PartialEq, Eq, Structural)]
pub struct Point {
    pub x: i32,
    pub y: i32,
}

/// The low 16 bits of a packed message parameter.
pub open spec fn low_word(lparam: isize) -> int {
    ((lparam as usize) & 0xFFFFusize) as int
}

/// Bits 16..32 of a packed message parameter.
pub open spec fn high_word(lparam: isize) -> int {
    (((lparam as usize) >> 16usize) & 0xFFFFusize) as int
}

/// A 16-bit word read as a two's complement `i16`.
pub open spec fn sign_extend16(w: int) -> int {
    if w >= 0x8000 {
        w - 0x10000
    } else {
        w
    }
}

/// The coordinate pair that `GET_X_LPARAM` / `GET_Y_LPARAM` read from a
/// message parameter.
pub open spec fn spec_point_from_lparam(lparam: isize) -> Point {
    Point { x: sign_extend16(low_word(lparam)) as i32, y: sign_extend16(high_word(lparam)) as i32 }
}

/// The message parameter that `MAKELPARAM(x, y)` packs from two signed
/// 16-bit coordinates.
pub open spec fn spec_make_lparam(x: int, y: int) -> isize {
    ((((y % 0x10000) as usize) << 16usize) | ((x % 0x10000) as usize)) as isize
}

/// Reads the screen point packed in the `lParam` of a mouse message
/// (`WM_NCHITTEST`, `WM_NCMOUSEMOVE`, ...): the low word is `x`, the next
/// word is `y`, each a signed 16-bit value.
pub fn point_from_lparam(lparam: isize) -> (p: Point)
    ensures
        p == spec_point_from_lparam(lparam),
        -0x8000 <= p.x < 0x8000,
        -0x8000 <= p.y < 0x8000,
{
    let bits = lparam as usize;
    let lo = bits & 0xFFFF;
    let hi = (bits >> 16) & 0xFFFF;
    assert(lo <= 0xFFFF) by (bit_vector)
        requires
            lo == bits & 0xFFFF,
    ;
    assert(hi <= 0xFFFF) by (bit_vector)
        requires
            hi == (bits >> 16) & 0xFFFF,
    ;
    let x: i32 = if lo >= 0x8000 {
        lo as i32 - 0x10000
    } else {
        lo as i32
    };
    let y: i32 = if hi >= 0x8000 {
        hi as i32 - 0x10000
    } else {
        hi as i32
    };
    Point { x, y }
}

/// Decoding undoes the Win32 packing: for coordinates that fit in 16 signed
/// bits, reading the point of `MAKELPARAM(x, y)` gives back `(x, y)`.
pub proof fn lemma_point_roundtrip(x: int, y: int)
    requires
        -0x8000 <= x < 0x8000,
        -0x8000 <= y < 0x8000,
    ensures
        spec_point_from_lparam(spec_make_lparam(x, y)) == (Point { x: x as i32, y: y as i32 }),
{
    let lo: usize = (x % 0x10000) as usize;
    let hi: usize = (y % 0x10000) as usize;
    assert(0 <= x % 0x10000 < 0x10000);
    assert(0 <= y % 0x10000 < 0x10000);
    let packed: usize = (hi << 16usize) | lo;
    assert(((packed as isize) as usize) == packed) by (bit_vector);
    assert((packed & 0xFFFFusize) == lo && ((packed >> 16usize) & 0xFFFFusize) == hi) by (bit_vector)
        requires
            lo < 0x10000,
            hi < 0x10000,
            packed == (hi << 16usize) | lo,
    ;
    assert(spec_make_lparam(x, y) == packed as isize);
    if x < 0 {
        assert(x % 0x10000 == x + 0x10000);
    } else {
        assert(x % 0x10000 == x);
    }
    if y < 0 {
        assert(y % 0x10000 == y + 0x10000);
    } else {
        assert(y % 0x10000 == y);
    }
}

} // verus!
