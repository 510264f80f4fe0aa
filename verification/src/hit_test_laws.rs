//! What holds of presses on a window's frame.

use vstd::prelude::*;

use crate::geometry::{Point, Rect};
use crate::hit_test::{
    get_window_text, in_top_drag_region, is_cherry_window, is_client_top_drag_region,
    is_resize_border_hit, is_scrollbar_hit, is_splitter_drag_by_cursor, is_title_bar_hit,
    top_level_window, window_text_capacity, CaptionMetrics, SizeCursors,
};
#[allow(unused_imports)]
use crate::text::{lowercased, utf16_lossy};
#[allow(unused_imports)]
use crate::text_laws::{encoded, law_decoding_undoes_encoding, reads_in, reads_small_in};
#[allow(unused_imports)]
use crate::text_laws::{lemma_lowered_reads_small, lemma_occurs_is_reads};
#[allow(unused_imports)]
use vstd::math::max;

verus! {

/// The answers to a hit test: 2 is the caption, 6 and 7 are the scroll bars,
/// 10 to 17 the edges and corners. Nothing is hit where there is no window.
pub proof fn law_hits_are_told_by_their_code(
    hit: Option<isize>,
    title_bar: bool,
    resize_border: bool,
    scrollbar: bool,
)
    requires
        call_ensures(is_title_bar_hit, (hit,), title_bar),
        call_ensures(is_resize_border_hit, (hit,), resize_border),
        call_ensures(is_scrollbar_hit, (hit,), scrollbar),
    ensures
        match hit {
            Some(code) => {
                &&& title_bar <==> code == 2
                &&& -0x8000_0000 <= code <= 0x7fff_ffff ==> (resize_border <==> 10 <= code <= 17)
                &&& -0x8000_0000 <= code <= 0x7fff_ffff ==> (scrollbar <==> 6 <= code <= 7)
            },
            None => !title_bar && !resize_border && !scrollbar,
        },
        !(title_bar && resize_border) && !(title_bar && scrollbar) && !(resize_border && scrollbar),
{
}

/// Of an answer to a hit test only the low 32 bits tell edges, corners and
/// scroll bars.
pub proof fn law_hits_are_told_by_the_low_bits(
    code: isize,
    other: isize,
    resize_border: bool,
    other_border: bool,
    scrollbar: bool,
    other_scrollbar: bool,
)
    requires
        (code - other) % 0x1_0000_0000 == 0,
        call_ensures(is_resize_border_hit, (Some(code),), resize_border),
        call_ensures(is_resize_border_hit, (Some(other),), other_border),
        call_ensures(is_scrollbar_hit, (Some(code),), scrollbar),
        call_ensures(is_scrollbar_hit, (Some(other),), other_scrollbar),
    ensures
        resize_border == other_border,
        scrollbar == other_scrollbar,
{
    assert(code as int % 0x1_0000_0000 == other as int % 0x1_0000_0000);
}

/// A splitter is dragged where the cursor is any of the four resize cursors;
/// the null cursor counts as one that could not be loaded, and no other cursor
/// does.
pub proof fn law_splitter_shows_a_resize_cursor(
    current: Option<usize>,
    shapes: SizeCursors,
    r: bool,
)
    requires
        call_ensures(is_splitter_drag_by_cursor, (current, shapes), r),
    ensures
        current is None ==> !r,
        current is Some && (shapes.ns == current || shapes.we == current || shapes.nwse == current
            || shapes.nesw == current) ==> r,
        current matches Some(c) && c != 0 && r ==> (shapes.ns == current || shapes.we == current
            || shapes.nwse == current || shapes.nesw == current),
        current == Some(0usize) ==> (r <==> (shapes.ns is None || shapes.ns == current || shapes.we is None
            || shapes.we == current || shapes.nwse is None || shapes.nwse == current
            || shapes.nesw is None || shapes.nesw == current)),
{
}

/// The buffer for a window text holds the text and one unit more; a window
/// without text needs none.
pub proof fn law_buffer_holds_the_text_and_more(len: i32, r: Option<usize>)
    requires
        call_ensures(window_text_capacity, (len,), r),
    ensures
        r is Some <==> len > 0,
        r matches Some(n) ==> n == len + 1,
{
}

/// The text of a window is what the code units encode that were written; a
/// window that announced none has none.
pub proof fn law_window_text_is_what_was_written(
    len: i32,
    buf: &[u16],
    written: usize,
    text: Seq<char>,
    r: String,
)
    requires
        len > 0 ==> written <= buf@.len(),
        call_ensures(get_window_text, (len, buf, written), r),
    ensures
        len <= 0 ==> r@.len() == 0,
        len > 0 ==> r@ == utf16_lossy(buf@.take(written as int)),
        len > 0 && buf@.take(written as int) == encoded(text) ==> r@ == text,
{
    law_decoding_undoes_encoding(text);
}

/// A window is Cherry's where `cherry` can be read in its title, in whatever
/// case.
pub proof fn law_cherry_windows_are_told_by_their_title(title: &str, r: bool)
    requires
        call_ensures(is_cherry_window, (title,), r),
    ensures
        r <==> reads_in(lowercased(title@), seq!['c', 'h', 'e', 'r', 'r', 'y']),
        title.is_ascii() ==> (r <==> reads_small_in(title@, seq!['c', 'h', 'e', 'r', 'r', 'y'])),
{
    reveal_strlit("cherry");
    assert("cherry"@ =~= seq!['c', 'h', 'e', 'r', 'r', 'y']);
    lemma_occurs_is_reads(lowercased(title@), "cherry"@);
    lemma_lowered_reads_small(title@, "cherry"@);
}

/// The window that counts is the root, and the window itself where it has
/// none.
pub proof fn law_root_window_counts(hwnd: usize, root: usize, r: usize)
    requires
        call_ensures(top_level_window, (hwnd, root), r),
    ensures
        root != 0 ==> r == root,
        root == 0 ==> r == hwnd,
{
}

/// A point grips a window by its top where it is no higher than the window and
/// no lower than its caption, which is as high as caption, frame and border
/// together; a Cherry window's is at least as high as its strip. Where the
/// point is from left to right does not matter.
pub proof fn law_top_is_as_high_as_the_caption(
    pt: Point,
    window: Option<Rect>,
    metrics: CaptionMetrics,
    cherry: bool,
    r: bool,
)
    requires
        call_ensures(in_top_drag_region, (pt, window, metrics, cherry), r),
    ensures
        window is None ==> !r,
        window matches Some(rect) ==> {
            let depth = pt.y - rect.top;
            let height = metrics.caption + metrics.frame + metrics.padded_border;
            &&& !cherry ==> (r <==> 0 <= depth <= height)
            &&& cherry ==> (r <==> 0 <= depth <= max(height, metrics.cherry_height as int))
        },
{
}

/// The same of a window that is known by its title: it is Cherry's or not.
pub proof fn law_title_tells_the_top(
    pt: Point,
    window: Option<Rect>,
    metrics: CaptionMetrics,
    title: &str,
    r: bool,
    cherry: bool,
    expected: bool,
)
    requires
        call_ensures(is_client_top_drag_region, (pt, window, metrics, title), r),
        call_ensures(is_cherry_window, (title,), cherry),
        call_ensures(in_top_drag_region, (pt, window, metrics, cherry), expected),
    ensures
        r == expected,
{
}

/// Window texts can be read from every buffer that holds them, and without a
/// buffer where there is none.
pub proof fn law_every_window_text_is_taken(len: i32, buf: &[u16], written: usize)
    requires
        len > 0 ==> written <= buf@.len(),
    ensures
        call_requires(get_window_text, (len, buf, written)),
{
}

} // verus!
