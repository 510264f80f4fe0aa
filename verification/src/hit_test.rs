//! Which presses are on a window's frame and not on its contents.

use vstd::prelude::*;

use crate::geometry::{low_dword, Point, Rect};
use crate::text::{contains_in_lowercase, text_of_utf16};

verus! {

pub const HTCAPTION: i32 = 2;

pub const HTHSCROLL: i32 = 6;

pub const HTVSCROLL: i32 = 7;

pub const HTLEFT: i32 = 10;

pub const HTRIGHT: i32 = 11;

pub const HTTOP: i32 = 12;

pub const HTTOPLEFT: i32 = 13;

pub const HTTOPRIGHT: i32 = 14;

pub const HTBOTTOM: i32 = 15;

pub const HTBOTTOMLEFT: i32 = 16;

pub const HTBOTTOMRIGHT: i32 = 17;

/// The heights of which a window's caption is made up.
#[derive(Clone, Copy, Debug, PartialEq, Eq, Structural)]
pub struct CaptionMetrics {
    pub caption: i32,
    pub frame: i32,
    pub padded_border: i32,
    /// The height of the strip that Cherry windows draw in place of a caption.
    pub cherry_height: i32,
}

/// The handles of the resize cursors; `None` where one could not be loaded.
#[derive(Clone, Copy, Debug, PartialEq, Eq, Structural)]
pub struct SizeCursors {
    pub ns: Option<usize>,
    pub we: Option<usize>,
    pub nwse: Option<usize>,
    pub nesw: Option<usize>,
}

/// `code` is the hit-test code of an edge or a corner of a resizable window.
pub open spec fn is_resize_border(code: int) -> bool {
    code == HTLEFT || code == HTRIGHT || code == HTTOP || code == HTBOTTOM || code == HTTOPLEFT
        || code == HTTOPRIGHT || code == HTBOTTOMLEFT || code == HTBOTTOMRIGHT
}

/// The lowest line on which a press still grips a window by its top.
pub open spec fn top_limit(top: i32, metrics: CaptionMetrics, cherry: bool) -> int {
    let caption = top + metrics.caption + metrics.frame + metrics.padded_border;
    let strip = top + metrics.cherry_height;
    if cherry && strip > caption {
        strip
    } else {
        caption
    }
}

/// The handle, or the null handle where there is none.
pub open spec fn handle_or_null(h: Option<usize>) -> usize {
    match h {
        Some(v) => v,
        None => 0,
    }
}

/// Whether the window under the mouse answered a hit test with its caption.
/// `hit` is `None` where no window is under the mouse.
pub fn is_title_bar_hit(hit: Option<isize>) -> (r: bool)
    ensures
        r == (hit matches Some(code) && code == HTCAPTION),
{
    match hit {
        Some(code) => code == HTCAPTION as isize,
        None => false,
    }
}

/// Whether the window under the mouse answered a hit test with an edge or a
/// corner by which it is resized.
pub fn is_resize_border_hit(hit: Option<isize>) -> (r: bool)
    ensures
        r == (hit matches Some(code) && is_resize_border(
            crate::geometry::signed_dword(code as int),
        )),
{
    match hit {
        Some(result) => {
            let code: i32 = low_dword(result);
            code == HTLEFT || code == HTRIGHT || code == HTTOP || code == HTBOTTOM || code
                == HTTOPLEFT || code == HTTOPRIGHT || code == HTBOTTOMLEFT || code == HTBOTTOMRIGHT
        },
        None => false,
    }
}

/// Whether the window under the mouse answered a hit test with a scroll bar.
pub fn is_scrollbar_hit(hit: Option<isize>) -> (r: bool)
    ensures
        r == (hit matches Some(result) && ({
            let code = crate::geometry::signed_dword(result as int);
            code == HTVSCROLL || code == HTHSCROLL
        })),
{
    match hit {
        Some(result) => {
            let code: i32 = low_dword(result);
            code == HTVSCROLL || code == HTHSCROLL
        },
        None => false,
    }
}

/// Whether the cursor on display is a resize cursor. `current` is `None`
/// where the cursor could not be read. A resize cursor that could not be
/// loaded counts as the null handle.
pub fn is_splitter_drag_by_cursor(current: Option<usize>, shapes: SizeCursors) -> (r: bool)
    ensures
        r == (current matches Some(c) && (c == handle_or_null(shapes.ns) || c == handle_or_null(
            shapes.we,
        ) || c == handle_or_null(shapes.nwse) || c == handle_or_null(shapes.nesw))),
{
    match current {
        Some(cursor) => {
            cursor == or_null(shapes.ns) || cursor == or_null(shapes.we) || cursor == or_null(
                shapes.nwse,
            ) || cursor == or_null(shapes.nesw)
        },
        None => false,
    }
}

fn or_null(h: Option<usize>) -> (r: usize)
    ensures
        r == handle_or_null(h),
{
    match h {
        Some(v) => v,
        None => 0,
    }
}

/// The size of the buffer for a window text of `len` code units, with room
/// for the terminator. A window without text needs none.
pub fn window_text_capacity(len: i32) -> (r: Option<usize>)
    ensures
        r == (if len <= 0 {
            None
        } else {
            Some((len + 1) as usize)
        }),
{
    if len <= 0 {
        None
    } else {
        Some(len as usize + 1)
    }
}

/// The text of a window that announced `len` code units, of which the system
/// has written `written` to `buf`. A window that announced none has no text.
pub fn get_window_text(len: i32, buf: &[u16], written: usize) -> (r: String)
    requires
        len > 0 ==> written <= buf@.len(),
    ensures
        len <= 0 ==> r@ == Seq::<char>::empty(),
        len > 0 ==> r@ == crate::text::utf16_lossy(buf@.take(written as int)),
{
    if len <= 0 {
        String::new()
    } else {
        text_of_utf16(buf, written)
    }
}

/// Whether a window is one of Cherry's, by its title.
pub fn is_cherry_window(title: &str) -> (r: bool)
    ensures
        r == crate::text::occurs_in(crate::text::lowercased(title@), "cherry"@),
        title.is_ascii() ==> r == crate::text::occurs_in(
            crate::text::ascii_lowered(title@),
            "cherry"@,
        ),
{
    contains_in_lowercase(title, "cherry")
}

/// The window whose top counts: the root of the one under the mouse, where
/// it has one.
pub fn top_level_window(hwnd: usize, root: usize) -> (r: usize)
    ensures
        r == (if root == 0 {
            hwnd
        } else {
            root
        }),
{
    if root == 0 {
        hwnd
    } else {
        root
    }
}

/// Whether `pt` is at the height of a window's caption, or of the strip that
/// a Cherry window has for one. `window` is `None` where the window's
/// rectangle is not known.
pub fn in_top_drag_region(
    pt: Point,
    window: Option<Rect>,
    metrics: CaptionMetrics,
    cherry: bool,
) -> (r: bool)
    ensures
        r == (window matches Some(rect) && rect.top <= pt.y <= top_limit(
            rect.top,
            metrics,
            cherry,
        )),
{
    match window {
        Some(rect) => {
            let top: i64 = rect.top as i64;
            let mut limit: i64 = top + metrics.caption as i64 + metrics.frame as i64
                + metrics.padded_border as i64;
            if cherry {
                let cherry_limit: i64 = top + metrics.cherry_height as i64;
                if cherry_limit > limit {
                    limit = cherry_limit;
                }
            }
            pt.y >= rect.top && pt.y as i64 <= limit
        },
        None => false,
    }
}

/// Whether `pt` is at the height of the caption of a window with this title.
pub fn is_client_top_drag_region(
    pt: Point,
    window: Option<Rect>,
    metrics: CaptionMetrics,
    title: &str,
) -> (r: bool)
    ensures
        r == (window matches Some(rect) && rect.top <= pt.y <= top_limit(
            rect.top,
            metrics,
            crate::text::occurs_in(crate::text::lowercased(title@), "cherry"@),
        )),
        title.is_ascii() ==> r == (window matches Some(rect) && rect.top <= pt.y <= top_limit(
            rect.top,
            metrics,
            crate::text::occurs_in(crate::text::ascii_lowered(title@), "cherry"@),
        )),
{
    let cherry: bool = is_cherry_window(title);
    in_top_drag_region(pt, window, metrics, cherry)
}

} // verus!
