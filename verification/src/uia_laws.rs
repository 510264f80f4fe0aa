//! What holds of the search for a selection from its start to its end.

use vstd::prelude::*;

use crate::geometry::{Point, Rect};
#[allow(unused_imports)]
use crate::text::{is_white_space, utf16_lossy};
#[allow(unused_imports)]
use crate::text_laws::{
    encoded, is_small_of, law_decoding_undoes_encoding, lemma_lowered_reads_small, reads_small_in,
};
use crate::uia::{
    control_kind, extract_top_left_from_rects, get_class_name, get_focus_hwnd,
    get_focused_selection, get_focused_selection_with_fallback_copy,
    get_selection_top_left_fallback, pos_from_edit, pos_from_scintilla, rect_values, CaretInfo,
    ControlKind, FallbackAction, FallbackEvent, FallbackState, FocusedSelection, NearEdge,
    SearchAction, SearchEvent, SelectionSearch, TextRange, TextRect,
};
#[allow(unused_imports)]
use crate::uia::{
    fallback_action, fallback_after, first_corner, first_visible, highlight_corner, is_visible,
    joined_text, kind_of, range_corner, search_action, search_after,
};
#[allow(unused_imports)]
use vstd::math::{abs, max};

verus! {

/// The rectangle whose corner is taken is the first one in view, or the very
/// first where none is in view.
pub proof fn law_first_visible_is_first(rects: Seq<TextRect>, container: Rect)
    requires
        rects.len() > 0,
    ensures
        ({
            let i = first_visible(rects, container, 0);
            &&& 0 <= i < rects.len()
            &&& if exists|k: int|
                0 <= k < rects.len() && is_visible(#[trigger] rects[k], container) {
                &&& is_visible(rects[i], container)
                &&& forall|k: int| 0 <= k < i ==> !is_visible(#[trigger] rects[k], container)
            } else {
                i == 0
            }
        }),
{
    lemma_first_visible_from(rects, container, 0);
}

proof fn lemma_first_visible_from(rects: Seq<TextRect>, container: Rect, from: int)
    requires
        rects.len() > 0,
        0 <= from <= rects.len(),
    ensures
        ({
            let i = first_visible(rects, container, from);
            ||| {
                &&& from <= i < rects.len()
                &&& is_visible(rects[i], container)
                &&& forall|k: int| from <= k < i ==> !is_visible(#[trigger] rects[k], container)
            }
            ||| {
                &&& i == 0
                &&& forall|k: int|
                    from <= k < rects.len() ==> !is_visible(#[trigger] rects[k], container)
            }
        }),
    decreases rects.len() - from,
{
    if from < rects.len() && !is_visible(rects[from], container) {
        lemma_first_visible_from(rects, container, from + 1);
    }
}

/// The rounded edge is not beyond the edge rounded up, but for edges too far
/// out to be pixels.
pub open spec fn is_consistent(edge: NearEdge) -> bool {
    edge.ceil matches Some(n) ==> edge.round <= n || edge.round == i32::MIN
}

/// The corner of a highlight is never above a control or to its left, and it
/// lies in the control where any of the highlight is in view.
pub proof fn law_corner_stays_in_control(rects: Seq<TextRect>, container: Rect)
    requires
        rects.len() > 0,
        container.ordered(),
        forall|k: int|
            0 <= k < rects.len() ==> is_consistent((#[trigger] rects[k]).left) && is_consistent(
                rects[k].top,
            ),
    ensures
        highlight_corner(rects, Some(container)) matches Some(corner) && {
            &&& container.left <= corner.0
            &&& container.top <= corner.1
            &&& (exists|k: int|
                0 <= k < rects.len() && is_visible(#[trigger] rects[k], container))
                ==> container.holds(Point { x: corner.0, y: corner.1 })
        },
{
    law_first_visible_is_first(rects, container);
    let r = rects[first_visible(rects, container, 0)];
    assert(is_consistent(r.left) && is_consistent(r.top));
}

/// The case of ASCII letters does not matter to the kind of a control.
pub proof fn law_control_kind_ignores_case(a: Seq<char>, b: Seq<char>)
    requires
        crate::text::ascii_lowered(a) == crate::text::ascii_lowered(b),
    ensures
        kind_of(a) == kind_of(b),
{
}

/// What the system answers about the place of a selection.
pub struct FallbackWorld {
    /// The window with the keyboard focus.
    pub focus: Option<usize>,
    /// The kind of each window.
    pub kind: spec_fn(usize) -> ControlKind,
    /// The place that each window gives as a Scintilla control.
    pub scintilla: spec_fn(usize) -> Option<(i32, i32)>,
    /// The place that each window gives as an edit control.
    pub edit: spec_fn(usize) -> Option<(i32, i32)>,
    /// The thread of each window.
    pub thread: spec_fn(usize) -> u32,
    /// The foreground window.
    pub foreground: usize,
    /// The caret of each thread.
    pub caret: spec_fn(u32) -> Option<CaretInfo>,
    /// The place on the screen of each point of each window.
    pub screen: spec_fn(usize, Point) -> Option<(i32, i32)>,
}

/// The answer to a question of the search.
pub open spec fn fallback_reply(w: FallbackWorld, action: FallbackAction) -> FallbackEvent {
    match action {
        FallbackAction::ReadControl(hwnd) => FallbackEvent::Control((w.kind)(hwnd)),
        FallbackAction::AskScintilla(hwnd) => FallbackEvent::Position((w.scintilla)(hwnd)),
        FallbackAction::AskEdit(hwnd) => FallbackEvent::Position((w.edit)(hwnd)),
        FallbackAction::ReadThread(hwnd) => FallbackEvent::Thread((w.thread)(hwnd)),
        FallbackAction::ReadForeground => FallbackEvent::Foreground(w.foreground),
        FallbackAction::ReadCaret(id) => FallbackEvent::Caret((w.caret)(id)),
        FallbackAction::ToScreen { hwnd, pt } => FallbackEvent::Position((w.screen)(hwnd, pt)),
        FallbackAction::Done(p) => FallbackEvent::Position(p),
    }
}

/// The end of the search from `event` on, in `steps` further steps at most;
/// `None` where it takes more.
pub open spec fn fallback_end(
    w: FallbackWorld,
    s: FallbackState,
    event: FallbackEvent,
    steps: nat,
) -> Option<Option<(i32, i32)>>
    decreases steps,
{
    match fallback_action(s, event) {
        FallbackAction::Done(p) => Some(p),
        action => if steps == 0 {
            None
        } else {
            fallback_end(
                w,
                fallback_after(s, event),
                fallback_reply(w, action),
                (steps - 1) as nat,
            )
        },
    }
}

/// The place of the caret of thread `id`; a caret without a window is in
/// `target`.
pub open spec fn caret_place(w: FallbackWorld, target: usize, id: u32) -> Option<(i32, i32)> {
    match (w.caret)(id) {
        Some(caret) if caret.rect.left != 0 || caret.rect.top != 0 || caret.rect.right != 0
            || caret.rect.bottom != 0 => (w.screen)(
            if caret.hwnd == 0 {
                target
            } else {
                caret.hwnd
            },
            Point { x: caret.rect.left, y: caret.rect.top },
        ),
        _ => None,
    }
}

/// The place of the selection as far as windows tell it.
pub open spec fn window_place(w: FallbackWorld) -> Option<(i32, i32)> {
    match w.focus {
        None => None,
        Some(hwnd) => match (w.kind)(hwnd) {
            ControlKind::Scintilla => (w.scintilla)(hwnd),
            ControlKind::Edit => (w.edit)(hwnd),
            ControlKind::Other => if (w.thread)(hwnd) != 0 {
                caret_place(w, hwnd, (w.thread)(hwnd))
            } else if w.foreground == 0 {
                None
            } else {
                caret_place(w, w.foreground, (w.thread)(w.foreground))
            },
        },
    }
}

/// The search ends, and ends with the place that the windows tell: an edit
/// control's own, or that of the caret of the focused window's thread, with
/// the foreground window in place of a focused one that has no thread.
pub proof fn law_fallback_finds_the_place(w: FallbackWorld, s: FallbackState)
    ensures
        fallback_end(w, s, FallbackEvent::Focus(w.focus), 7) == Some(window_place(w)),
{
    reveal_with_fuel(fallback_end, 8);
}

/// What the steps of the search for a selection give.
pub struct SearchWorld {
    pub asked: Option<FocusedSelection>,
    pub copied: Option<String>,
    pub located: Option<(i32, i32)>,
}

/// What comes of an action of the search for a selection.
pub open spec fn search_reply(w: SearchWorld, action: SearchAction) -> SearchEvent {
    match action {
        SearchAction::Copy => SearchEvent::Copied(w.copied),
        _ => SearchEvent::Located(w.located),
    }
}

/// All that the search does from `event` on, in `steps` further steps at most,
/// and what it ends with.
pub open spec fn search_trace(
    w: SearchWorld,
    s: SelectionSearch,
    event: SearchEvent,
    steps: nat,
) -> (Seq<SearchAction>, SelectionSearch)
    decreases steps,
{
    let action = search_action(s, event);
    let next = search_after(s, event);
    if steps == 0 || action is Done {
        (seq![action], next)
    } else {
        let (rest, end) = search_trace(w, next, search_reply(w, action), (steps - 1) as nat);
        (seq![action] + rest, end)
    }
}

/// The text that the focused control gives.
pub open spec fn asked_text(w: SearchWorld) -> Option<String> {
    match w.asked {
        Some(found) => found.0,
        None => None,
    }
}

/// The place that the focused control gives.
pub open spec fn asked_place(w: SearchWorld) -> Option<(i32, i32)> {
    match w.asked {
        Some(found) => found.1,
        None => None,
    }
}

/// The selection is copied only where the focused control gives no text, and
/// its place is asked for only where there is a text without one. The search
/// ends with the control's text or else the copied one, and with the control's
/// place or else, for a text, the focused window's.
pub proof fn law_search_prefers_the_control(w: SearchWorld, s: SelectionSearch)
    ensures
        ({
            let (actions, end) = search_trace(w, s, SearchEvent::Asked(w.asked), 2);
            let text = if asked_text(w) is Some {
                asked_text(w)
            } else {
                w.copied
            };
            &&& end.text == text
            &&& end.top_left == (if asked_place(w) is None && text is Some {
                w.located
            } else {
                asked_place(w)
            })
            &&& actions == (if asked_text(w) is None {
                seq![SearchAction::Copy]
            } else {
                seq![]
            }) + (if asked_place(w) is None && text is Some {
                seq![SearchAction::Locate]
            } else {
                seq![]
            }) + seq![SearchAction::Done]
        }),
{
    reveal_with_fuel(search_trace, 3);
    let (actions, end) = search_trace(w, s, SearchEvent::Asked(w.asked), 2);
    let text = if asked_text(w) is Some {
        asked_text(w)
    } else {
        w.copied
    };
    assert(actions =~= (if asked_text(w) is None {
        seq![SearchAction::Copy]
    } else {
        seq![]
    }) + (if asked_place(w) is None && text is Some {
        seq![SearchAction::Locate]
    } else {
        seq![]
    }) + seq![SearchAction::Done]);
}

/// No edge of the rectangle lies beyond the opposite edge of the control: they
/// have a point in common. An edge that is not a number lies beyond nothing.
pub open spec fn edges_meet(r: TextRect, c: Rect) -> bool {
    &&& r.left.ceil matches Some(left) ==> left <= c.right
    &&& r.right_floor matches Some(right) ==> right >= c.left
    &&& r.top.ceil matches Some(top) ==> top <= c.bottom
    &&& r.bottom_floor matches Some(bottom) ==> bottom >= c.top
}

/// A rectangle is in view exactly where its edges meet the control, however
/// little of it that leaves.
pub proof fn law_in_view_where_edges_meet(r: TextRect, c: Rect)
    ensures
        is_visible(r, c) <==> edges_meet(r, c),
{
}

/// The corner of a highlight is that of the first rectangle whose edges meet
/// the control, and of the very first where no edges do, moved down and to the
/// right as far as the control begins there. Where the control's bounds are
/// not known it is the corner of the very first rectangle as it is.
pub proof fn law_corner_is_that_of_the_first_rectangle_in_view(
    rects: &Vec<TextRect>,
    container: Option<Rect>,
    r: Option<(i32, i32)>,
    i: int,
)
    requires
        call_ensures(extract_top_left_from_rects, (rects, container), r),
        0 <= i < rects@.len(),
        container matches Some(c) ==> {
            &&& forall|k: int| 0 <= k < i ==> !edges_meet(#[trigger] rects@[k], c)
            &&& edges_meet(rects@[i], c) || i == 0 && forall|k: int|
                0 <= k < rects@.len() ==> !edges_meet(#[trigger] rects@[k], c)
        },
        container is None ==> i == 0,
    ensures
        r matches Some((x, y)) && match container {
            Some(c) => {
                &&& rects@[i].left.ceil is Some ==> x == max(
                    rects@[i].left.round as int,
                    c.left as int,
                )
                &&& rects@[i].left.ceil is None ==> x == c.left
                &&& rects@[i].top.ceil is Some ==> y == max(rects@[i].top.round as int, c.top as int)
                &&& rects@[i].top.ceil is None ==> y == c.top
            },
            None => x == rects@[i].left.round && y == rects@[i].top.round,
        },
{
    if let Some(c) = container {
        law_first_visible_is_first(rects@, c);
        assert forall|k: int| 0 <= k < rects@.len() implies is_visible(#[trigger] rects@[k], c)
            == edges_meet(rects@[k], c) by {
            law_in_view_where_edges_meet(rects@[k], c);
        }
        let f = first_visible(rects@, c, 0);
        if edges_meet(rects@[i], c) {
            assert(is_visible(rects@[i], c));
            assert(f == i) by {
                if f < i {
                    assert(!edges_meet(rects@[f], c));
                }
            }
        } else {
            assert(f == 0);
        }
    }
}

/// A highlight has a corner exactly where it has a rectangle.
pub proof fn law_highlight_without_rectangles_has_no_corner(
    rects: &Vec<TextRect>,
    container: Option<Rect>,
    r: Option<(i32, i32)>,
)
    requires
        call_ensures(extract_top_left_from_rects, (rects, container), r),
    ensures
        r is None <==> rects@.len() == 0,
{
}

/// Rectangles after one that is in view make no difference, and neither do
/// rectangles out of view before it.
pub proof fn law_only_the_first_rectangle_in_view_counts(
    before: Seq<TextRect>,
    shown: TextRect,
    rects: &Vec<TextRect>,
    alone: &Vec<TextRect>,
    c: Rect,
    r: Option<(i32, i32)>,
    q: Option<(i32, i32)>,
)
    requires
        call_ensures(extract_top_left_from_rects, (rects, Some(c)), r),
        call_ensures(extract_top_left_from_rects, (alone, Some(c)), q),
        alone@ == seq![shown],
        edges_meet(shown, c),
        before.len() < rects@.len(),
        forall|k: int| 0 <= k < before.len() ==> rects@[k] == before[k] && !edges_meet(
            #[trigger] before[k],
            c,
        ),
        rects@[before.len() as int] == shown,
    ensures
        r == q,
{
    assert forall|k: int| 0 <= k < before.len() implies !edges_meet(#[trigger] rects@[k], c) by {
        assert(rects@[k] == before[k]);
    }
    law_corner_is_that_of_the_first_rectangle_in_view(rects, Some(c), r, before.len() as int);
    law_corner_is_that_of_the_first_rectangle_in_view(alone, Some(c), q, 0);
}

/// The text of one range is its own, and the text of two selections one after
/// the other is that of the first followed by that of the second.
pub proof fn law_texts_are_joined(range: TextRange, a: Seq<TextRange>, b: Seq<TextRange>)
    ensures
        joined_text(Seq::<TextRange>::empty()) == Seq::<char>::empty(),
        joined_text(seq![range]) == range.text@,
        joined_text(a + b) == joined_text(a) + joined_text(b),
        joined_text(a + b).len() == joined_text(a).len() + joined_text(b).len(),
    decreases b.len(),
{
    reveal_with_fuel(joined_text, 2);
    assert(seq![range].drop_last() =~= Seq::<TextRange>::empty());
    assert(joined_text(seq![range]) =~= range.text@);
    if b.len() == 0 {
        assert(a + b =~= a);
        assert(joined_text(a + b) =~= joined_text(a) + joined_text(b));
    } else {
        law_texts_are_joined(range, a, b.drop_last());
        assert((a + b).drop_last() =~= a + b.drop_last());
        assert(joined_text(a + b) =~= joined_text(a) + joined_text(b));
    }
}

/// The texts of the ranges.
pub open spec fn texts(ranges: Seq<TextRange>) -> Seq<Seq<char>> {
    ranges.map_values(|r: TextRange| r.text@)
}

proof fn lemma_joined_is_flat(ranges: Seq<TextRange>)
    ensures
        joined_text(ranges) == texts(ranges).flatten(),
    decreases ranges.len(),
{
    if ranges.len() == 0 {
        assert(texts(ranges).flatten() =~= joined_text(ranges));
    } else {
        let rest = ranges.drop_first();
        lemma_joined_is_flat(rest);
        assert(texts(ranges).drop_first() =~= texts(rest));
        law_texts_are_joined(ranges[0], seq![ranges[0]], rest);
        assert(seq![ranges[0]] + rest =~= ranges);
    }
}

/// The selected text is the text of every range, one after the other and
/// nothing else; there is none where all of it is white space.
pub proof fn law_selection_is_the_text_of_all_ranges(
    ranges: &Vec<TextRange>,
    container: Option<Rect>,
    r: FocusedSelection,
)
    requires
        call_ensures(get_focused_selection, (ranges, container), r),
    ensures
        r.0 matches Some(text) ==> text@ == texts(ranges@).flatten(),
        r.0 is Some <==> exists|i: int|
            0 <= i < texts(ranges@).flatten().len() && !is_white_space(
                #[trigger] texts(ranges@).flatten()[i],
            ),
{
    lemma_joined_is_flat(ranges@);
}

/// A selection of one range has that range's text; the text of the ranges of
/// two selections is their texts, one after the other.
pub proof fn law_selections_are_joined(
    a: &Vec<TextRange>,
    b: &Vec<TextRange>,
    all: &Vec<TextRange>,
    container: Option<Rect>,
    first: FocusedSelection,
    second: FocusedSelection,
    r: FocusedSelection,
)
    requires
        call_ensures(get_focused_selection, (a, container), first),
        call_ensures(get_focused_selection, (b, container), second),
        call_ensures(get_focused_selection, (all, container), r),
        all@ == a@ + b@,
    ensures
        a@.len() == 1 && first.0 is Some ==> first.0->0@ == a@[0].text@,
        a@.len() == 0 ==> first == (None::<String>, None::<(i32, i32)>),
        first.0 is Some && second.0 is Some ==> r.0 is Some && r.0->0@ == first.0->0@
            + second.0->0@,
        r.0 is Some <==> first.0 is Some || second.0 is Some,
        r.1 == (if first.1 is Some {
            first.1
        } else {
            second.1
        }),
{
    let (x, y, z) = (joined_text(a@), joined_text(b@), joined_text(all@));
    if a@.len() == 1 {
        law_texts_are_joined(a@[0], a@, b@);
        assert(a@ =~= seq![a@[0]]);
    }
    if a@.len() == 0 {
        assert(joined_text(a@).len() == 0);
    }
    if all@.len() > 0 {
        law_texts_are_joined(all@[0], a@, b@);
    } else {
        assert(a@ =~= Seq::<TextRange>::empty() && b@ =~= Seq::<TextRange>::empty());
    }
    assert(z =~= x + y);
    assert(forall|i: int| 0 <= i < x.len() ==> z[i] == x[i]);
    assert forall|i: int| 0 <= i < y.len() implies #[trigger] y[i] == z[x.len() + i] by {}
    assert(crate::text::is_blank(z) == (crate::text::is_blank(x) && crate::text::is_blank(y))) by {
        if crate::text::is_blank(z) {
            assert forall|i: int| 0 <= i < x.len() implies is_white_space(#[trigger] x[i]) by {
                assert(z[i] == x[i]);
            }
            assert forall|i: int| 0 <= i < y.len() implies is_white_space(#[trigger] y[i]) by {
                assert(is_white_space(z[x.len() + i]));
            }
        }
        if crate::text::is_blank(x) && crate::text::is_blank(y) {
            assert forall|i: int| 0 <= i < z.len() implies is_white_space(#[trigger] z[i]) by {
                if i >= x.len() {
                    assert(z[i] == y[i - x.len()]);
                } else {
                    assert(z[i] == x[i]);
                }
            }
        }
    }
    lemma_corners_are_joined(a@, b@, container);
}

proof fn lemma_corners_are_joined(a: Seq<TextRange>, b: Seq<TextRange>, container: Option<Rect>)
    ensures
        first_corner(a + b, container) == (if first_corner(a, container) is Some {
            first_corner(a, container)
        } else {
            first_corner(b, container)
        }),
    decreases b.len(),
{
    if b.len() == 0 {
        assert(a + b =~= a);
    } else {
        assert((a + b).drop_last() =~= a + b.drop_last());
        lemma_corners_are_joined(a, b.drop_last(), container);
    }
}

/// The place of a selection is the corner of the highlight of its first range
/// that has rectangles; ranges whose rectangles could not be read, or that
/// have none, are passed over.
pub proof fn law_place_is_that_of_the_first_highlight(
    ranges: &Vec<TextRange>,
    container: Option<Rect>,
    r: FocusedSelection,
    i: int,
    corner: Option<(i32, i32)>,
)
    requires
        call_ensures(get_focused_selection, (ranges, container), r),
    ensures
        (forall|k: int| 0 <= k < ranges@.len() ==> no_highlight(#[trigger] ranges@[k])) ==> r.1 is None,
        0 <= i < ranges@.len() && (forall|k: int| 0 <= k < i ==> no_highlight(#[trigger] ranges@[k]))
            && !no_highlight(ranges@[i]) && (ranges@[i].rects matches Some(rects) && call_ensures(
            extract_top_left_from_rects,
            (&rects, container),
            corner,
        )) ==> r.1 == corner,
{
    if forall|k: int| 0 <= k < ranges@.len() ==> no_highlight(#[trigger] ranges@[k]) {
        lemma_no_highlights(ranges@, container, ranges@.len() as int);
        assert(ranges@.take(ranges@.len() as int) =~= ranges@);
    }
    if 0 <= i < ranges@.len() && (forall|k: int|
        0 <= k < i ==> no_highlight(#[trigger] ranges@[k])) && !no_highlight(ranges@[i]) {
        lemma_no_highlights(ranges@, container, i);
        let (a, b) = (ranges@.take(i), ranges@.skip(i));
        assert(a + b =~= ranges@);
        lemma_corners_are_joined(a, b, container);
        assert(seq![b[0]] + b.skip(1) =~= b);
        lemma_corners_are_joined(seq![b[0]], b.skip(1), container);
        reveal_with_fuel(first_corner, 2);
        assert(seq![b[0]].drop_last() =~= Seq::<TextRange>::empty());
        assert(first_corner(seq![b[0]], container) == range_corner(ranges@[i], container));
    }
}

/// The range has no rectangle.
pub open spec fn no_highlight(range: TextRange) -> bool {
    range.rects matches Some(rects) ==> rects@.len() == 0
}

proof fn lemma_no_highlights(ranges: Seq<TextRange>, container: Option<Rect>, n: int)
    requires
        0 <= n <= ranges.len(),
        forall|k: int| 0 <= k < n ==> no_highlight(#[trigger] ranges[k]),
    ensures
        first_corner(ranges.take(n), container) is None,
    decreases n,
{
    if n > 0 {
        lemma_no_highlights(ranges, container, n - 1);
        assert(ranges.take(n).drop_last() =~= ranges.take(n - 1));
        assert(no_highlight(ranges[n - 1]));
    }
}

/// The number of values between two bounds counts both of them; fewer than
/// four make no rectangle.
pub proof fn law_values_are_counted(lbound: i32, ubound: i32, r: Option<u64>)
    requires
        call_ensures(rect_values, (lbound, ubound), r),
    ensures
        r is None <==> ubound < lbound + 3,
        r matches Some(n) ==> lbound + n == ubound + 1,
{
}

/// The focused window is the one that the thread of the foreground window
/// names, and for lack of one the foreground window. There is none without a
/// foreground window.
pub proof fn law_focus_falls_back_on_the_foreground(
    foreground: usize,
    thread_id: u32,
    focus: Option<usize>,
    r: Option<usize>,
)
    requires
        call_ensures(get_focus_hwnd, (foreground, thread_id, focus), r),
    ensures
        r is None <==> foreground == 0,
        r matches Some(hwnd) ==> hwnd != 0,
        foreground != 0 && thread_id != 0 && (focus matches Some(hwnd) && hwnd != 0) ==> r == focus,
        foreground != 0 && (thread_id == 0 || focus is None || focus == Some(0usize)) ==> r == Some(
            foreground,
        ),
{
}

/// A class name is what the code units encode that were written.
pub proof fn law_class_name_is_what_was_written(
    buf: &[u16],
    written: usize,
    name: Seq<char>,
    r: String,
)
    requires
        written <= buf@.len(),
        call_ensures(get_class_name, (buf, written), r),
    ensures
        r@ == utf16_lossy(buf@.take(written as int)),
        buf@.take(written as int) == encoded(name) ==> r@ == name,
{
    law_decoding_undoes_encoding(name);
}

/// An edit control's place is the point whose coordinates are the low and the
/// high word of its answer, with their signs; bits above those do not matter.
/// In a known client area it is the nearest point of that area.
pub proof fn law_edit_place_is_unpacked(
    pos: isize,
    client: Rect,
    bare: Point,
    r: Point,
    other: Point,
)
    requires
        client.left <= client.right && client.top <= client.bottom,
        call_ensures(pos_from_edit, (pos, None), bare),
        call_ensures(pos_from_edit, (pos, Some(client)), r),
    ensures
        -0x8000 <= bare.x < 0x8000,
        -0x8000 <= bare.y < 0x8000,
        (pos - bare.x) % 0x1_0000 == 0,
        ((pos as int / 0x1_0000) - bare.y) % 0x1_0000 == 0,
        is_nearest(bare, client, r, other),
{
    assert((pos as int % 0x1_0000_0000) / 0x1_0000 == (pos as int / 0x1_0000) % 0x1_0000);
}

/// A Scintilla control's place is the point whose coordinates are the low 32
/// bits of its answers, with their signs. In a known client area it is the
/// nearest point of that area.
pub proof fn law_scintilla_place_is_its_answers(
    x: isize,
    y: isize,
    client: Rect,
    bare: Point,
    r: Point,
    other: Point,
)
    requires
        client.left <= client.right && client.top <= client.bottom,
        call_ensures(pos_from_scintilla, (x, y, None), bare),
        call_ensures(pos_from_scintilla, (x, y, Some(client)), r),
    ensures
        (x - bare.x) % 0x1_0000_0000 == 0,
        (y - bare.y) % 0x1_0000_0000 == 0,
        is_nearest(bare, client, r, other),
{
}

/// `r` is in the area, and `other` is not nearer to `p` if it is too.
pub open spec fn is_nearest(p: Point, area: Rect, r: Point, other: Point) -> bool {
    &&& area.left <= r.x <= area.right
    &&& area.top <= r.y <= area.bottom
    &&& area.left <= other.x <= area.right ==> abs(r.x - p.x) <= abs(other.x - p.x)
    &&& area.top <= other.y <= area.bottom ==> abs(r.y - p.y) <= abs(other.y - p.y)
}

/// `name` is `small` in whatever case.
pub open spec fn spells(name: Seq<char>, small: Seq<char>) -> bool {
    &&& name.len() == small.len()
    &&& forall|i: int| 0 <= i < name.len() ==> is_small_of(small[i], #[trigger] name[i])
}

/// A control is Scintilla's where its class is named `scintilla`, and an edit
/// control where it is named `edit` or `richedit` can be read in its name, all
/// in whatever case. It is of no known kind otherwise.
pub proof fn law_controls_are_told_by_their_class(class_name: &str, r: ControlKind)
    requires
        call_ensures(control_kind, (class_name,), r),
    ensures
        ({
            let scintilla = spells(
                class_name@,
                seq!['s', 'c', 'i', 'n', 't', 'i', 'l', 'l', 'a'],
            );
            let edit = spells(class_name@, seq!['e', 'd', 'i', 't']);
            let rich_edit = reads_small_in(
                class_name@,
                seq!['r', 'i', 'c', 'h', 'e', 'd', 'i', 't'],
            );
            &&& r == ControlKind::Scintilla <==> scintilla
            &&& r == ControlKind::Edit <==> edit || rich_edit
            &&& r == ControlKind::Other <==> !scintilla && !edit && !rich_edit
        }),
{
    reveal_strlit("scintilla");
    reveal_strlit("edit");
    reveal_strlit("richedit");
    assert("scintilla"@ =~= seq!['s', 'c', 'i', 'n', 't', 'i', 'l', 'l', 'a']);
    assert("edit"@ =~= seq!['e', 'd', 'i', 't']);
    assert("richedit"@ =~= seq!['r', 'i', 'c', 'h', 'e', 'd', 'i', 't']);
    lemma_spelling(class_name@, "scintilla"@);
    lemma_spelling(class_name@, "edit"@);
    lemma_lowered_reads_small(class_name@, "richedit"@);
    let lower = crate::text::ascii_lowered(class_name@);
    if lower == "scintilla"@ {
        assert(!crate::text::occurs_in(lower, "richedit"@)) by {
            if crate::text::occurs_in(lower, "richedit"@) {
                let at = choose|at: int| crate::text::occurs_at(lower, "richedit"@, at);
                let there = lower.subrange(at, at + 8);
                assert(there[0] == lower[at]);
                assert("richedit"@[0] == 'r');
                assert(at == 0 || at == 1);
            }
        }
    }
}

proof fn lemma_spelling(name: Seq<char>, small: Seq<char>)
    ensures
        crate::text::ascii_lowered(name) == small <==> spells(name, small),
{
    let lower = crate::text::ascii_lowered(name);
    if lower == small {
        assert forall|i: int| 0 <= i < name.len() implies is_small_of(
            small[i],
            #[trigger] name[i],
        ) by {
            assert(lower[i] == small[i]);
        }
    }
    if spells(name, small) {
        assert forall|i: int| 0 <= i < lower.len() implies lower[i] == small[i] by {
            assert(is_small_of(small[i], name[i]));
        }
        assert(lower =~= small);
    }
}

/// What is said here of the search for a place holds of every call of
/// [`get_selection_top_left_fallback`].
pub proof fn law_fallback_keeps_to_its_laws()
    ensures
        forall|state: &mut FallbackState, event: FallbackEvent, action: FallbackAction| #[trigger]
            call_ensures(get_selection_top_left_fallback, (state, event), action) ==> {
                &&& *final(state) == fallback_after(*state, event)
                &&& action == fallback_action(*state, event)
            },
{
}

/// What is said here of the search for a selection holds of every call of
/// [`get_focused_selection_with_fallback_copy`].
pub proof fn law_search_keeps_to_its_laws()
    ensures
        forall|search: &mut SelectionSearch, event: SearchEvent, action: SearchAction| #[trigger]
            call_ensures(get_focused_selection_with_fallback_copy, (search, event), action) ==> {
                &&& *final(search) == search_after(*search, event)
                &&& action == search_action(*search, event)
            },
{
}

/// Positions can be asked for in every client area with its edges in order,
/// and without one; names can be read from every buffer that holds them.
pub proof fn law_every_answer_is_taken(
    pos: isize,
    x: isize,
    client: Option<Rect>,
    buf: &[u16],
    written: usize,
)
    requires
        client matches Some(c) ==> c.left <= c.right && c.top <= c.bottom,
        written <= buf@.len(),
    ensures
        call_requires(pos_from_edit, (pos, client)),
        call_requires(pos_from_scintilla, (x, pos, client)),
        call_requires(get_class_name, (buf, written)),
{
}

/// The messages by which a Scintilla control is asked.
pub proof fn law_scintilla_message_numbers()
    ensures
        crate::uia::SCI_GETSELECTIONSTART == 2143,
        crate::uia::SCI_POINTXFROMPOSITION == 2164,
        crate::uia::SCI_POINTYFROMPOSITION == 2165,
{
}

} // verus!
