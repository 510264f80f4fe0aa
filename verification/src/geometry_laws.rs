//! What holds of clamped points and packed words.

use vstd::prelude::*;

use crate::geometry::{
    clamp_to_client, low_bits, low_dword, pack_point, unpack_point, Point, Rect,
};
#[allow(unused_imports)]
use vstd::math::abs;

verus! {

/// A point is moved into the client area, and no further than it must be: no
/// point of the area is nearer in either direction. Without a client area it
/// stays where it is.
pub proof fn law_clamped_point_is_the_nearest(
    p: Point,
    client: Option<Rect>,
    r: Point,
    other: Point,
)
    requires
        client matches Some(c) ==> c.left <= c.right && c.top <= c.bottom,
        call_ensures(clamp_to_client, (p, client), r),
    ensures
        client is None ==> r == p,
        client matches Some(c) ==> {
            &&& c.left <= r.x <= c.right
            &&& c.top <= r.y <= c.bottom
            &&& c.left <= other.x <= c.right ==> abs(r.x - p.x) <= abs(other.x - p.x)
            &&& c.top <= other.y <= c.bottom ==> abs(r.y - p.y) <= abs(other.y - p.y)
        },
{
}

/// The low word of a packed point is its `x` and the high word its `y`, each
/// modulo the size of a word.
pub proof fn law_packed_words_are_the_coordinates(pt: Point, r: u32)
    requires
        call_ensures(pack_point, (pt,), r),
    ensures
        (r - pt.x) % 0x1_0000 == 0,
        (r / 0x1_0000 - pt.y) % 0x1_0000 == 0,
{
}

/// The coordinates of an unpacked point are signed words: its `x` is the low
/// word and its `y` the high one, modulo the size of a word.
pub proof fn law_unpacked_coordinates_are_the_words(packed: u32, pt: Point)
    requires
        call_ensures(unpack_point, (packed,), pt),
    ensures
        -0x8000 <= pt.x < 0x8000,
        -0x8000 <= pt.y < 0x8000,
        (packed - pt.x) % 0x1_0000 == 0,
        (packed / 0x1_0000 - pt.y) % 0x1_0000 == 0,
{
}

/// Unpacking undoes packing where each coordinate fits in a word.
pub proof fn law_points_survive_packing(pt: Point, packed: u32, back: Point)
    requires
        -0x8000 <= pt.x < 0x8000,
        -0x8000 <= pt.y < 0x8000,
        call_ensures(pack_point, (pt,), packed),
        call_ensures(unpack_point, (packed,), back),
    ensures
        back == pt,
{
    law_packed_words_are_the_coordinates(pt, packed);
    law_unpacked_coordinates_are_the_words(packed, back);
}

/// The low 32 bits of a number differ from it by a multiple of 2 to the power
/// of 32, read without a sign or with one.
pub proof fn law_low_bits_are_congruent(v: isize, bits: u32, word: i32)
    requires
        call_ensures(low_bits, (v,), bits),
        call_ensures(low_dword, (v,), word),
    ensures
        (v - bits) % 0x1_0000_0000 == 0,
        (v - word) % 0x1_0000_0000 == 0,
        0 <= v <= 0x7fff_ffff ==> bits == v,
        -0x8000_0000 <= v <= 0x7fff_ffff ==> word == v,
{
}

/// Points can be moved into every client area with its edges in order.
pub proof fn law_every_ordered_area_is_taken(p: Point, client: Option<Rect>)
    requires
        client matches Some(c) ==> c.left <= c.right && c.top <= c.bottom,
    ensures
        call_requires(clamp_to_client, (p, client)),
{
}

} // verus!
