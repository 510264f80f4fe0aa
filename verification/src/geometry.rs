//! Screen points, rectangles and the packed words that window messages carry.

use vstd::prelude::*;

verus! {

/// A point in pixels.
#[derive(Clone, Copy, Debug, PartialEq, Eq, Structural)]
pub struct Point {
    pub x: i32,
    pub y: i32,
}

/// A rectangle in pixels, given by its edges.
#[derive(Clone, Copy, Debug, PartialEq, Eq, Structural)]
pub struct Rect {
    pub left: i32,
    pub top: i32,
    pub right: i32,
    pub bottom: i32,
}

impl Rect {
    /// The edges are in order: the rectangle spans no negative width or height.
    pub open spec fn ordered(self) -> bool {
        self.left <= self.right && self.top <= self.bottom
    }

    /// `p` lies on or within the edges.
    pub open spec fn holds(self, p: Point) -> bool {
        self.left <= p.x <= self.right && self.top <= p.y <= self.bottom
    }
}

/// The value of `low..=high` that is nearest to `v`.
pub open spec fn nearest(v: int, low: int, high: int) -> int {
    if v < low {
        low
    } else if v > high {
        high
    } else {
        v
    }
}

/// The point of `r` that is nearest to `p`, coordinate by coordinate.
pub open spec fn nearest_point(p: Point, r: Rect) -> Point {
    Point {
        x: nearest(p.x as int, r.left as int, r.right as int) as i32,
        y: nearest(p.y as int, r.top as int, r.bottom as int) as i32,
    }
}

/// The number that the low 16 bits of `v` give as a two's complement word.
pub open spec fn signed_word(v: int) -> int {
    let low = v % 0x1_0000;
    if low < 0x8000 {
        low
    } else {
        low - 0x1_0000
    }
}

/// The number that the low 32 bits of `v` give as a two's complement word.
pub open spec fn signed_dword(v: int) -> int {
    let low = v % 0x1_0000_0000;
    if low < 0x8000_0000 {
        low
    } else {
        low - 0x1_0000_0000
    }
}

/// The nearest point of a rectangle lies in it, and is the point itself where
/// that lies in it.
pub proof fn law_nearest_point_is_inside(p: Point, r: Rect)
    requires
        r.ordered(),
    ensures
        r.holds(nearest_point(p, r)),
        r.holds(p) ==> nearest_point(p, r) == p,
{
}

fn clamp(v: i32, low: i32, high: i32) -> (r: i32)
    requires
        low <= high,
    ensures
        r == nearest(v as int, low as int, high as int),
{
    if v < low {
        low
    } else if v > high {
        high
    } else {
        v
    }
}

/// Moves `p` to the nearest point of `client`; leaves it alone when the
/// control has no known client area.
pub fn clamp_to_client(p: Point, client: Option<Rect>) -> (r: Point)
    requires
        client matches Some(c) ==> c.ordered(),
    ensures
        r == (match client {
            Some(c) => nearest_point(p, c),
            None => p,
        }),
{
    match client {
        Some(c) => Point { x: clamp(p.x, c.left, c.right), y: clamp(p.y, c.top, c.bottom) },
        None => p,
    }
}

/// A point as the number in which a message carries it.
pub open spec fn packed(pt: Point) -> int {
    (pt.y as int % 0x1_0000) * 0x1_0000 + pt.x as int % 0x1_0000
}

/// A point whose coordinates fit in a word each survives packing.
pub proof fn law_unpacking_undoes_packing(pt: Point)
    requires
        -0x8000 <= pt.x < 0x8000,
        -0x8000 <= pt.y < 0x8000,
    ensures
        0 <= packed(pt) < 0x1_0000_0000,
        signed_word(packed(pt)) == pt.x,
        signed_word(packed(pt) / 0x1_0000) == pt.y,
{
}

/// Packs a point into the `LPARAM` of a hit-test message: the low word of
/// `y` above the low word of `x`.
pub fn pack_point(pt: Point) -> (r: u32)
    ensures
        r == packed(pt),
{
    let x: i32 = pt.x;
    let y: i32 = pt.y;
    let ux: u32 = #[verifier::truncate] (x as u32);
    let uy: u32 = #[verifier::truncate] (y as u32);
    let packed: u32 = ((uy & 0xFFFF) << 16) | (ux & 0xFFFF);
    assert(ux as int % 0x1_0000 == x as int % 0x1_0000) by {
        assert((x as u32) as i64 == if x >= 0 { x as i64 } else { (x + 0x1_0000_0000) as i64 }) by (bit_vector);
    }
    assert(uy as int % 0x1_0000 == y as int % 0x1_0000) by {
        assert((y as u32) as i64 == if y >= 0 { y as i64 } else { (y + 0x1_0000_0000) as i64 }) by (bit_vector);
    }
    assert((((uy & 0xFFFF) << 16) | (ux & 0xFFFF)) == (uy % 0x1_0000) * 0x1_0000 + ux % 0x1_0000)
        by (bit_vector);
    packed
}

/// The signed low and high words of a packed position.
pub fn unpack_point(packed: u32) -> (pt: Point)
    ensures
        pt.x == signed_word(packed as int),
        pt.y == signed_word(packed as int / 0x1_0000),
{
    assert(packed & 0xFFFF == packed % 0x1_0000) by (bit_vector);
    assert((packed >> 16) & 0xFFFF == packed / 0x1_0000) by (bit_vector);
    let x: i32 = sign_extend(packed & 0xFFFF);
    let y: i32 = sign_extend((packed >> 16) & 0xFFFF);
    Point { x, y }
}

fn sign_extend(word: u32) -> (v: i32)
    requires
        word < 0x1_0000,
    ensures
        v == signed_word(word as int),
{
    let narrow: i16 = #[verifier::truncate] (word as i16);
    assert(word < 0x1_0000 ==> (word as i16) as i64 == if word < 0x8000 { word as i64 } else { (word - 0x1_0000) as i64 })
        by (bit_vector);
    narrow as i32
}

/// The low 32 bits of a message result.
pub fn low_bits(v: isize) -> (r: u32)
    ensures
        r == v as int % 0x1_0000_0000,
{
    let wide: i64 = v as i64;
    let r: u32 = #[verifier::truncate] (wide as u32);
    assert(wide as u32 == wide % 0x1_0000_0000) by (bit_vector);
    r
}

/// The low 32 bits of a message result, as a signed number.
pub fn low_dword(v: isize) -> (r: i32)
    ensures
        r == signed_dword(v as int),
{
    let wide: i64 = v as i64;
    let r: i32 = #[verifier::truncate] (wide as i32);
    assert(wide % 0x1_0000_0000 < 0x8000_0000 ==> wide as i32 == wide % 0x1_0000_0000) by (bit_vector);
    assert(wide % 0x1_0000_0000 >= 0x8000_0000 ==> wide as i32 == wide % 0x1_0000_0000 - 0x1_0000_0000)
        by (bit_vector);
    r
}

} // verus!
