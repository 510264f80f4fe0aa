//! Where the selected text is and what it says.

use vstd::prelude::*;

use crate::geometry::{clamp_to_client, low_bits, low_dword, unpack_point, Point, Rect};
use crate::text::{blank, contains_in_ascii_lowercase, same_ignoring_ascii_case, text_of_utf16};

verus! {

pub const SCI_GETSELECTIONSTART: u32 = 2143;

pub const SCI_POINTXFROMPOSITION: u32 = 2164;

pub const SCI_POINTYFROMPOSITION: u32 = 2165;

/// The selected text, and the top left corner of its highlight.
pub type FocusedSelection = (Option<String>, Option<(i32, i32)>);

/// The left or top edge of a highlight rectangle, which may lie between two
/// pixels.
#[derive(Clone, Copy, Debug, PartialEq, Eq, Structural)]
pub struct NearEdge {
    /// The least whole number that is not below the edge; `None` for an edge
    /// that is not a number.
    pub ceil: Option<i64>,
    /// The pixel nearest to the edge.
    pub round: i32,
}

/// A highlight rectangle.
#[derive(Clone, Copy, Debug, PartialEq, Eq, Structural)]
pub struct TextRect {
    pub left: NearEdge,
    pub top: NearEdge,
    /// The greatest whole number that is not above the right edge; `None` for
    /// an edge that is not a number.
    pub right_floor: Option<i64>,
    /// The same of the bottom edge.
    pub bottom_floor: Option<i64>,
}

/// One stretch of selected text. Its rectangles are `None` where they could
/// not be read.
#[derive(Debug, PartialEq, Eq)]
pub struct TextRange {
    pub text: String,
    pub rects: Option<Vec<TextRect>>,
}

/// `v` is a number below `limit`.
pub open spec fn below(v: Option<i64>, limit: i32) -> bool {
    v matches Some(n) && n < limit
}

/// `v` is a number above `limit`.
pub open spec fn above(v: Option<i64>, limit: i32) -> bool {
    v matches Some(n) && n > limit
}

/// The rectangle is not wholly above the control, below it or to either side.
pub open spec fn is_visible(r: TextRect, container: Rect) -> bool {
    &&& !below(r.bottom_floor, container.top)
    &&& !below(r.right_floor, container.left)
    &&& !above(r.top.ceil, container.bottom)
    &&& !above(r.left.ceil, container.right)
}

/// The pixel nearest to the edge, but none before `low`.
pub open spec fn edge_from(edge: NearEdge, low: i32) -> i32 {
    if edge.ceil is None || edge.round < low {
        low
    } else {
        edge.round
    }
}

/// The first visible rectangle from index `from` on; the very first rectangle
/// where none is visible.
pub open spec fn first_visible(rects: Seq<TextRect>, container: Rect, from: int) -> int
    decreases rects.len() - from,
{
    if from >= rects.len() {
        0
    } else if is_visible(rects[from], container) {
        from
    } else {
        first_visible(rects, container, from + 1)
    }
}

/// The corner at which the highlight starts.
pub open spec fn highlight_corner(
    rects: Seq<TextRect>,
    container: Option<Rect>,
) -> Option<(i32, i32)> {
    if rects.len() == 0 {
        None
    } else {
        match container {
            Some(c) => {
                let r = rects[first_visible(rects, c, 0)];
                Some((edge_from(r.left, c.left), edge_from(r.top, c.top)))
            },
            None => Some((rects[0].left.round, rects[0].top.round)),
        }
    }
}

/// The number of values in an array of rectangles with these bounds; `None`
/// where that is too few for one rectangle.
pub fn rect_values(lbound: i32, ubound: i32) -> (r: Option<u64>)
    ensures
        r == (if ubound - lbound + 1 < 4 {
            None
        } else {
            Some((ubound - lbound + 1) as u64)
        }),
{
    let total: i64 = ubound as i64 - lbound as i64 + 1;
    if total < 4 {
        None
    } else {
        Some(total as u64)
    }
}

fn in_view(r: &TextRect, c: Rect) -> (b: bool)
    ensures
        b == is_visible(*r, c),
{
    let scrolled_out: bool = match r.bottom_floor {
        Some(bottom) => bottom < c.top as i64,
        None => false,
    } || match r.right_floor {
        Some(right) => right < c.left as i64,
        None => false,
    };
    let not_reached: bool = match r.top.ceil {
        Some(top) => top > c.bottom as i64,
        None => false,
    } || match r.left.ceil {
        Some(left) => left > c.right as i64,
        None => false,
    };
    !scrolled_out && !not_reached
}

fn clamped_edge(edge: NearEdge, low: i32) -> (r: i32)
    ensures
        r == edge_from(edge, low),
{
    match edge.ceil {
        Some(_) => if edge.round < low {
            low
        } else {
            edge.round
        },
        None => low,
    }
}

/// The corner at which the highlight starts: that of the first rectangle in
/// view, moved into the control. Where no rectangle is in view the first one
/// is taken; where the control's bounds are not known, the first one as it is.
pub fn extract_top_left_from_rects(rects: &Vec<TextRect>, container: Option<Rect>) -> (r: Option<
    (i32, i32),
>)
    ensures
        r == highlight_corner(rects@, container),
{
    if rects.len() == 0 {
        return None;
    }
    match container {
        Some(c) => {
            let mut i: usize = 0;
            while i < rects.len()
                invariant
                    container == Some(c),
                    rects@.len() > 0,
                    i <= rects@.len(),
                    first_visible(rects@, c, 0) == first_visible(rects@, c, i as int),
                decreases rects@.len() - i,
            {
                if in_view(&rects[i], c) {
                    return Some(
                        (clamped_edge(rects[i].left, c.left), clamped_edge(rects[i].top, c.top)),
                    );
                }
                i += 1;
            }
            Some((clamped_edge(rects[0].left, c.left), clamped_edge(rects[0].top, c.top)))
        },
        None => Some((rects[0].left.round, rects[0].top.round)),
    }
}

/// The texts of the ranges, one after the other.
pub open spec fn joined_text(ranges: Seq<TextRange>) -> Seq<char>
    decreases ranges.len(),
{
    if ranges.len() == 0 {
        Seq::empty()
    } else {
        joined_text(ranges.drop_last()) + ranges.last().text@
    }
}

/// The corner of the highlight of one range.
pub open spec fn range_corner(range: TextRange, container: Option<Rect>) -> Option<(i32, i32)> {
    match range.rects {
        Some(rects) => highlight_corner(rects@, container),
        None => None,
    }
}

/// The corner of the first range that has one.
pub open spec fn first_corner(ranges: Seq<TextRange>, container: Option<Rect>) -> Option<(i32, i32)>
    decreases ranges.len(),
{
    if ranges.len() == 0 {
        None
    } else if first_corner(ranges.drop_last(), container) is Some {
        first_corner(ranges.drop_last(), container)
    } else {
        range_corner(ranges.last(), container)
    }
}

/// `t` is `text`, or nothing where `text` is blank.
pub open spec fn text_unless_blank(t: Option<String>, text: Seq<char>) -> bool {
    match t {
        Some(s) => s@ == text && !crate::text::is_blank(text),
        None => crate::text::is_blank(text),
    }
}

/// The selection that is made up of `ranges` in a control with these bounds.
pub fn get_focused_selection(ranges: &Vec<TextRange>, container: Option<Rect>) -> (r:
    FocusedSelection)
    ensures
        text_unless_blank(r.0, joined_text(ranges@)),
        r.1 == first_corner(ranges@, container),
{
    let mut full_text: String = String::new();
    let mut top_left: Option<(i32, i32)> = None;
    let mut i: usize = 0;
    while i < ranges.len()
        invariant
            i <= ranges@.len(),
            full_text@ == joined_text(ranges@.take(i as int)),
            top_left == first_corner(ranges@.take(i as int), container),
        decreases ranges@.len() - i,
    {
        assert(ranges@.take(i + 1).drop_last() =~= ranges@.take(i as int));
        full_text.append(ranges[i].text.as_str());
        if top_left.is_none() {
            if let Some(rects) = &ranges[i].rects {
                top_left = extract_top_left_from_rects(rects, container);
            }
        }
        i += 1;
    }
    assert(ranges@.take(ranges@.len() as int) =~= ranges@);
    if blank(full_text.as_str()) {
        (None, top_left)
    } else {
        (Some(full_text), top_left)
    }
}

/// The window with the keyboard focus: the one that the foreground window's
/// thread names, or the foreground window itself. `focus` is `None` where the
/// thread could not be asked.
pub fn get_focus_hwnd(foreground: usize, thread_id: u32, focus: Option<usize>) -> (r: Option<usize>)
    ensures
        r == (if foreground == 0 {
            None
        } else if thread_id != 0 && focus is Some && focus != Some(0usize) {
            focus
        } else {
            Some(foreground)
        }),
{
    if foreground == 0 {
        return None;
    }
    if thread_id == 0 {
        return Some(foreground);
    }
    match focus {
        Some(hwnd) => if hwnd != 0 {
            Some(hwnd)
        } else {
            Some(foreground)
        },
        None => Some(foreground),
    }
}

/// The class name of a window, of which the system has written `written` code
/// units to `buf`.
pub fn get_class_name(buf: &[u16], written: usize) -> (r: String)
    requires
        written <= buf@.len(),
    ensures
        r@ == crate::text::utf16_lossy(buf@.take(written as int)),
{
    text_of_utf16(buf, written)
}

/// The point that an edit control packed into a message result.
pub open spec fn packed_position(pos: int) -> Point {
    let low = pos % 0x1_0000_0000;
    Point {
        x: crate::geometry::signed_word(low) as i32,
        y: crate::geometry::signed_word(low / 0x1_0000) as i32,
    }
}

/// `p`, moved into the client area where it is known.
pub open spec fn in_client(p: Point, client: Option<Rect>) -> Point {
    match client {
        Some(c) => crate::geometry::nearest_point(p, c),
        None => p,
    }
}

/// Where the selection starts in an edit control, from its answer to
/// `EM_POSFROMCHAR`, in client coordinates.
pub fn pos_from_edit(pos: isize, client: Option<Rect>) -> (r: Point)
    requires
        client matches Some(c) ==> c.ordered(),
    ensures
        r == in_client(packed_position(pos as int), client),
{
    let p: Point = unpack_point(low_bits(pos));
    clamp_to_client(p, client)
}

/// Where the selection starts in a Scintilla control, from its answers to
/// `SCI_POINTXFROMPOSITION` and `SCI_POINTYFROMPOSITION`, in client
/// coordinates.
pub fn pos_from_scintilla(x: isize, y: isize, client: Option<Rect>) -> (r: Point)
    requires
        client matches Some(c) ==> c.ordered(),
    ensures
        r == in_client(
            Point {
                x: crate::geometry::signed_dword(x as int) as i32,
                y: crate::geometry::signed_dword(y as int) as i32,
            },
            client,
        ),
{
    let p: Point = Point { x: low_dword(x), y: low_dword(y) };
    clamp_to_client(p, client)
}

/// The kinds of control that can be asked for the place of the selection.
#[derive(Clone, Copy, Debug, PartialEq, Eq, Structural)]
pub enum ControlKind {
    Scintilla,
    Edit,
    Other,
}

/// The kind of a control with this class name.
pub open spec fn kind_of(class_name: Seq<char>) -> ControlKind {
    let lower = crate::text::ascii_lowered(class_name);
    if lower == "scintilla"@ {
        ControlKind::Scintilla
    } else if lower == "edit"@ || crate::text::occurs_in(lower, "richedit"@) {
        ControlKind::Edit
    } else {
        ControlKind::Other
    }
}

/// Tells the kind of a control by its class name.
pub fn control_kind(class_name: &str) -> (r: ControlKind)
    ensures
        r == kind_of(class_name@),
{
    proof {
        reveal_strlit("scintilla");
        reveal_strlit("edit");
        assert(crate::text::ascii_lowered("scintilla"@) =~= "scintilla"@);
        assert(crate::text::ascii_lowered("edit"@) =~= "edit"@);
    }
    if same_ignoring_ascii_case(class_name, "scintilla") {
        ControlKind::Scintilla
    } else if same_ignoring_ascii_case(class_name, "edit") || contains_in_ascii_lowercase(
        class_name,
        "richedit",
    ) {
        ControlKind::Edit
    } else {
        ControlKind::Other
    }
}

/// The caret of a thread.
#[derive(Clone, Copy, Debug, PartialEq, Eq, Structural)]
pub struct CaretInfo {
    /// The window that owns the caret; 0 where there is none.
    pub hwnd: usize,
    /// The caret in that window's client coordinates.
    pub rect: Rect,
}

/// How far the search for the selection's place has come.
#[derive(Clone, Copy, Debug, PartialEq, Eq, Structural)]
pub struct FallbackState {
    /// The window in which the selection is sought.
    pub target: usize,
    /// The foreground window has taken the place of the focused one.
    pub retried: bool,
}

/// An answer of the system.
#[derive(Clone, Copy, Debug, PartialEq, Eq)]
pub enum FallbackEvent {
    /// The window with the keyboard focus.
    Focus(Option<usize>),
    /// The kind of control.
    Control(ControlKind),
    /// A point on the screen.
    Position(Option<(i32, i32)>),
    /// The thread of a window; 0 where it has none.
    Thread(u32),
    /// The foreground window; 0 where there is none.
    Foreground(usize),
    /// The caret of a thread; `None` where it could not be read.
    Caret(Option<CaretInfo>),
}

/// A question to the system.
#[derive(Clone, Copy, Debug, PartialEq, Eq)]
pub enum FallbackAction {
    /// What kind of control is this window?
    ReadControl(usize),
    /// Where does this Scintilla control's selection start?
    AskScintilla(usize),
    /// Where does this edit control's selection start?
    AskEdit(usize),
    /// What is this window's thread?
    ReadThread(usize),
    /// What is the foreground window?
    ReadForeground,
    /// Where is this thread's caret?
    ReadCaret(u32),
    /// Where is this point of the window on the screen?
    ToScreen { hwnd: usize, pt: Point },
    /// The search is over.
    Done(Option<(i32, i32)>),
}

/// The caret has a place.
pub open spec fn is_caret_set(rect: Rect) -> bool {
    rect.left != 0 || rect.top != 0 || rect.right != 0 || rect.bottom != 0
}

/// How far the search has come after `event`.
pub open spec fn fallback_after(s: FallbackState, event: FallbackEvent) -> FallbackState {
    match event {
        FallbackEvent::Focus(Some(hwnd)) => FallbackState { target: hwnd, retried: false },
        FallbackEvent::Foreground(hwnd) if hwnd != 0 => FallbackState {
            target: hwnd,
            retried: true,
        },
        _ => s,
    }
}

/// What the search asks after `event`.
pub open spec fn fallback_action(s: FallbackState, event: FallbackEvent) -> FallbackAction {
    match event {
        FallbackEvent::Focus(None) => FallbackAction::Done(None),
        FallbackEvent::Focus(Some(hwnd)) => FallbackAction::ReadControl(hwnd),
        FallbackEvent::Control(ControlKind::Scintilla) => FallbackAction::AskScintilla(s.target),
        FallbackEvent::Control(ControlKind::Edit) => FallbackAction::AskEdit(s.target),
        FallbackEvent::Control(ControlKind::Other) => FallbackAction::ReadThread(s.target),
        FallbackEvent::Position(p) => FallbackAction::Done(p),
        FallbackEvent::Thread(id) => if id == 0 && !s.retried {
            FallbackAction::ReadForeground
        } else {
            FallbackAction::ReadCaret(id)
        },
        FallbackEvent::Foreground(hwnd) => if hwnd == 0 {
            FallbackAction::Done(None)
        } else {
            FallbackAction::ReadThread(hwnd)
        },
        FallbackEvent::Caret(None) => FallbackAction::Done(None),
        FallbackEvent::Caret(Some(caret)) => if is_caret_set(caret.rect) {
            FallbackAction::ToScreen {
                hwnd: if caret.hwnd == 0 {
                    s.target
                } else {
                    caret.hwnd
                },
                pt: Point { x: caret.rect.left, y: caret.rect.top },
            }
        } else {
            FallbackAction::Done(None)
        },
    }
}

/// One step of the search for the place of the selection, for windows that
/// do not tell it themselves: an edit control is asked in its own way, any
/// other window for its caret.
pub fn get_selection_top_left_fallback(state: &mut FallbackState, event: FallbackEvent) -> (action:
    FallbackAction)
    ensures
        *final(state) == fallback_after(*old(state), event),
        action == fallback_action(*old(state), event),
{
    match event {
        FallbackEvent::Focus(focus) => match focus {
            Some(hwnd) => {
                state.target = hwnd;
                state.retried = false;
                FallbackAction::ReadControl(hwnd)
            },
            None => FallbackAction::Done(None),
        },
        FallbackEvent::Control(kind) => match kind {
            ControlKind::Scintilla => FallbackAction::AskScintilla(state.target),
            ControlKind::Edit => FallbackAction::AskEdit(state.target),
            ControlKind::Other => FallbackAction::ReadThread(state.target),
        },
        FallbackEvent::Position(p) => FallbackAction::Done(p),
        FallbackEvent::Thread(id) => if id == 0 && !state.retried {
            FallbackAction::ReadForeground
        } else {
            FallbackAction::ReadCaret(id)
        },
        FallbackEvent::Foreground(hwnd) => {
            if hwnd == 0 {
                return FallbackAction::Done(None);
            }
            state.target = hwnd;
            state.retried = true;
            FallbackAction::ReadThread(hwnd)
        },
        FallbackEvent::Caret(info) => match info {
            Some(caret) => {
                let rect: Rect = caret.rect;
                let hwnd: usize = if caret.hwnd == 0 {
                    state.target
                } else {
                    caret.hwnd
                };
                if rect.left != 0 || rect.top != 0 || rect.right != 0 || rect.bottom != 0 {
                    FallbackAction::ToScreen { hwnd, pt: Point { x: rect.left, y: rect.top } }
                } else {
                    FallbackAction::Done(None)
                }
            },
            None => FallbackAction::Done(None),
        },
    }
}

/// What is known of the selection so far.
#[derive(Debug, PartialEq, Eq)]
pub struct SelectionSearch {
    pub text: Option<String>,
    pub top_left: Option<(i32, i32)>,
}

/// What was found out about the selection.
#[derive(Debug, PartialEq, Eq)]
pub enum SearchEvent {
    /// What the focused control says; `None` where it could not be asked.
    Asked(Option<FocusedSelection>),
    /// The text that a copy to the clipboard gave.
    Copied(Option<String>),
    /// The place that the focused window gave.
    Located(Option<(i32, i32)>),
}

/// What to find out next about the selection.
#[derive(Clone, Copy, Debug, PartialEq, Eq, Structural)]
pub enum SearchAction {
    /// Copy the selection to the clipboard.
    Copy,
    /// Ask the focused window for the place of the selection.
    Locate,
    /// Nothing: the search is over.
    Done,
}

/// What is known after `event`.
pub open spec fn search_after(s: SelectionSearch, event: SearchEvent) -> SelectionSearch {
    match event {
        SearchEvent::Asked(Some(found)) => SelectionSearch { text: found.0, top_left: found.1 },
        SearchEvent::Asked(None) => SelectionSearch { text: None, top_left: None },
        SearchEvent::Copied(text) => SelectionSearch { text, ..s },
        SearchEvent::Located(top_left) => SelectionSearch { top_left, ..s },
    }
}

/// What to find out after `event`: the text, then its place.
pub open spec fn search_action(s: SelectionSearch, event: SearchEvent) -> SearchAction {
    let after = search_after(s, event);
    if event is Asked && after.text is None {
        SearchAction::Copy
    } else if !(event is Located) && after.text is Some && after.top_left is None {
        SearchAction::Locate
    } else {
        SearchAction::Done
    }
}

/// One step of the search for the selection: the focused control is asked
/// first; where it gives no text the selection is copied, and where it gives
/// no place for a text the focused window is asked.
pub fn get_focused_selection_with_fallback_copy(
    search: &mut SelectionSearch,
    event: SearchEvent,
) -> (action: SearchAction)
    ensures
        *final(search) == search_after(*old(search), event),
        action == search_action(*old(search), event),
{
    match event {
        SearchEvent::Asked(found) => {
            match found {
                Some((text, top_left)) => {
                    search.text = text;
                    search.top_left = top_left;
                },
                None => {
                    search.text = None;
                    search.top_left = None;
                },
            }
            if search.text.is_none() {
                return SearchAction::Copy;
            }
        },
        SearchEvent::Copied(text) => {
            search.text = text;
        },
        SearchEvent::Located(top_left) => {
            search.top_left = top_left;
            return SearchAction::Done;
        },
    }
    if search.text.is_some() && search.top_left.is_none() {
        SearchAction::Locate
    } else {
        SearchAction::Done
    }
}

} // verus!
