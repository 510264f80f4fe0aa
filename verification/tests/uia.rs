use selection_monitor::geometry::{Point, Rect};
use selection_monitor::uia::{
    control_kind, extract_top_left_from_rects, get_class_name, get_focus_hwnd,
    get_focused_selection, get_focused_selection_with_fallback_copy,
    get_selection_top_left_fallback, pos_from_edit, pos_from_scintilla, rect_values, CaretInfo,
    ControlKind, FallbackAction, FallbackEvent, FallbackState, NearEdge, SearchAction,
    SearchEvent, SelectionSearch, TextRange, TextRect,
};

const CONTROL: Rect = Rect { left: 100, top: 200, right: 500, bottom: 600 };

fn near_edge(v: f64) -> NearEdge {
    let ceil = if v.is_nan() { None } else { Some(v.ceil() as i64) };
    NearEdge { ceil, round: v.round() as i32 }
}

fn rect(left: f64, top: f64, width: f64, height: f64) -> TextRect {
    let floor = |v: f64| if v.is_nan() { None } else { Some(v.floor() as i64) };
    TextRect {
        left: near_edge(left),
        top: near_edge(top),
        right_floor: floor(left + width),
        bottom_floor: floor(top + height),
    }
}

fn range(text: &str, rects: Option<Vec<TextRect>>) -> TextRange {
    TextRange { text: text.to_string(), rects }
}

#[test]
fn arrays_hold_at_least_one_rectangle() {
    assert_eq!(rect_values(0, 3), Some(4));
    assert_eq!(rect_values(-2, 7), Some(10));
    assert_eq!(rect_values(0, 2), None);
    assert_eq!(rect_values(5, 4), None);
    assert_eq!(rect_values(i32::MAX, i32::MIN), None);
    assert_eq!(rect_values(i32::MIN, i32::MAX), Some(0x1_0000_0000));
}

#[test]
fn the_first_rectangle_in_view_is_taken() {
    let above = rect(150.0, 100.0, 50.0, 99.9);
    let left = rect(10.0, 300.0, 89.5, 20.0);
    let below = rect(150.0, 600.1, 50.0, 20.0);
    let right = rect(500.5, 300.0, 50.0, 20.0);
    let shown = rect(149.6, 299.5, 50.0, 20.0);
    let rects = vec![above, left, below, right, shown, rect(120.0, 320.0, 1.0, 1.0)];
    assert_eq!(extract_top_left_from_rects(&rects, Some(CONTROL)), Some((150, 300)));
}

#[test]
fn touching_rectangles_are_in_view() {
    let corner = |r| extract_top_left_from_rects(&vec![r, rect(300.0, 300.0, 1.0, 1.0)], Some(CONTROL));
    assert_eq!(corner(rect(50.0, 180.0, 50.0, 20.0)), Some((100, 200)));
    assert_eq!(corner(rect(500.0, 600.0, 50.0, 20.0)), Some((500, 600)));
    assert_eq!(corner(rect(500.25, 600.0, 50.0, 20.0)), Some((300, 300)));
}

#[test]
fn corners_are_moved_into_the_control() {
    let rects = vec![rect(-40.0, 190.4, 300.0, 30.0)];
    assert_eq!(extract_top_left_from_rects(&rects, Some(CONTROL)), Some((100, 200)));
}

#[test]
fn without_a_view_the_first_rectangle_is_taken() {
    let rects = vec![rect(-40.0, 700.4, 10.0, 10.0), rect(900.0, 900.0, 1.0, 1.0)];
    assert_eq!(extract_top_left_from_rects(&rects, Some(CONTROL)), Some((100, 700)));
    assert_eq!(extract_top_left_from_rects(&rects, None), Some((-40, 700)));
    assert_eq!(extract_top_left_from_rects(&vec![], Some(CONTROL)), None);
    assert_eq!(extract_top_left_from_rects(&vec![], None), None);
}

#[test]
fn edges_that_are_no_numbers_hide_nothing() {
    let odd = rect(f64::NAN, 300.0, 5.0, 5.0);
    let low = Rect { left: -50, ..CONTROL };
    assert_eq!(extract_top_left_from_rects(&vec![odd], Some(low)), Some((-50, 300)));
    assert_eq!(extract_top_left_from_rects(&vec![odd], None), Some((0, 300)));
    let endless = rect(f64::NEG_INFINITY, 300.0, f64::INFINITY, 5.0);
    assert_eq!(extract_top_left_from_rects(&vec![endless], Some(CONTROL)), Some((100, 300)));
}

/// The same choice, made on the edges as they are.
fn corner_of(values: &[f64], c: Rect) -> (i32, i32) {
    let (left, top) = (c.left as f64, c.top as f64);
    let (right, bottom) = (c.right as f64, c.bottom as f64);
    let shown = values.chunks(4).find(|r| {
        !(r[1] + r[3] < top || r[0] + r[2] < left || r[1] > bottom || r[0] > right)
    });
    let r = shown.unwrap_or(&values[..4]);
    (r[0].max(left).round() as i32, r[1].max(top).round() as i32)
}

#[test]
fn whole_numbers_stand_for_the_edges() {
    let edges = [-1e300, -0.5, 0.49999, 99.5, 100.0, 100.5, 499.5, 500.0, 500.01, 3e9, f64::NAN];
    let sizes = [0.0, 0.01, 1.5, 1e12, f64::INFINITY];
    for left in edges {
        for top in edges {
            for size in sizes {
                let values = [left, top, size, size, 200.5, 300.5, 1.0, 1.0];
                let rects = vec![rect(left, top, size, size), rect(200.5, 300.5, 1.0, 1.0)];
                assert_eq!(
                    extract_top_left_from_rects(&rects, Some(CONTROL)),
                    Some(corner_of(&values, CONTROL)),
                    "{values:?}"
                );
            }
        }
    }
}

#[test]
fn ranges_are_joined() {
    let ranges = vec![
        range("one ", None),
        range("two", Some(vec![])),
        range(" three", Some(vec![rect(300.0, 310.0, 5.0, 5.0)])),
        range("", Some(vec![rect(400.0, 410.0, 5.0, 5.0)])),
    ];
    assert_eq!(
        get_focused_selection(&ranges, Some(CONTROL)),
        (Some("one two three".to_string()), Some((300, 310)))
    );
}

#[test]
fn blank_selections_have_no_text() {
    let ranges = vec![range(" \n", Some(vec![rect(300.0, 310.0, 5.0, 5.0)])), range("\t", None)];
    assert_eq!(get_focused_selection(&ranges, Some(CONTROL)), (None, Some((300, 310))));
    assert_eq!(get_focused_selection(&vec![], Some(CONTROL)), (None, None));
}

#[test]
fn the_focused_window() {
    assert_eq!(get_focus_hwnd(0, 5, Some(9)), None);
    assert_eq!(get_focus_hwnd(7, 0, Some(9)), Some(7));
    assert_eq!(get_focus_hwnd(7, 5, Some(9)), Some(9));
    assert_eq!(get_focus_hwnd(7, 5, Some(0)), Some(7));
    assert_eq!(get_focus_hwnd(7, 5, None), Some(7));
}

#[test]
fn class_names_tell_controls_apart() {
    let units: Vec<u16> = "Scintilla\0\0".encode_utf16().collect();
    assert_eq!(get_class_name(&units, 9), "Scintilla");
    assert_eq!(get_class_name(&units, 0), "");
    assert_eq!(control_kind("SCINTILLA"), ControlKind::Scintilla);
    assert_eq!(control_kind("Edit"), ControlKind::Edit);
    assert_eq!(control_kind("RichEdit50W"), ControlKind::Edit);
    assert_eq!(control_kind("RICHEDIT"), ControlKind::Edit);
    assert_eq!(control_kind("MyEdit"), ControlKind::Other);
    assert_eq!(control_kind("scintilla2"), ControlKind::Other);
    assert_eq!(control_kind(""), ControlKind::Other);
}

#[test]
fn positions_in_edit_controls() {
    let client = Some(Rect { left: 0, top: 0, right: 50, bottom: 80 });
    assert_eq!(pos_from_edit(0x0010_0020, client), Point { x: 32, y: 16 });
    assert_eq!(pos_from_edit(0xFFFF_FFFE, client), Point { x: 0, y: 0 });
    assert_eq!(pos_from_edit(0xFFFF_FFFE, None), Point { x: -2, y: -1 });
    assert_eq!(pos_from_edit(-1, None), Point { x: -1, y: -1 });
    assert_eq!(pos_from_edit(0x0060_0040, client), Point { x: 50, y: 80 });
}

#[test]
fn positions_in_scintilla_controls() {
    let client = Some(Rect { left: 0, top: 0, right: 50, bottom: 80 });
    assert_eq!(pos_from_scintilla(7, 9, client), Point { x: 7, y: 9 });
    assert_eq!(pos_from_scintilla(-7, 900, client), Point { x: 0, y: 80 });
    assert_eq!(pos_from_scintilla(-7, 0x1_0000_0003, None), Point { x: -7, y: 3 });
}

fn fallback(answers: &[FallbackEvent]) -> Vec<FallbackAction> {
    let mut state = FallbackState { target: 0, retried: true };
    answers.iter().map(|&e| get_selection_top_left_fallback(&mut state, e)).collect()
}

#[test]
fn edit_controls_are_asked_themselves() {
    assert_eq!(fallback(&[FallbackEvent::Focus(None)]), [FallbackAction::Done(None)]);
    assert_eq!(
        fallback(&[
            FallbackEvent::Focus(Some(7)),
            FallbackEvent::Control(ControlKind::Scintilla),
            FallbackEvent::Position(Some((1, 2))),
        ]),
        [
            FallbackAction::ReadControl(7),
            FallbackAction::AskScintilla(7),
            FallbackAction::Done(Some((1, 2))),
        ]
    );
    assert_eq!(
        fallback(&[
            FallbackEvent::Focus(Some(7)),
            FallbackEvent::Control(ControlKind::Edit),
            FallbackEvent::Position(None),
        ]),
        [FallbackAction::ReadControl(7), FallbackAction::AskEdit(7), FallbackAction::Done(None)]
    );
}

#[test]
fn other_windows_are_asked_for_their_caret() {
    let caret = CaretInfo { hwnd: 0, rect: Rect { left: 3, top: 4, right: 5, bottom: 6 } };
    assert_eq!(
        fallback(&[
            FallbackEvent::Focus(Some(7)),
            FallbackEvent::Control(ControlKind::Other),
            FallbackEvent::Thread(30),
            FallbackEvent::Caret(Some(caret)),
            FallbackEvent::Position(Some((103, 104))),
        ]),
        [
            FallbackAction::ReadControl(7),
            FallbackAction::ReadThread(7),
            FallbackAction::ReadCaret(30),
            FallbackAction::ToScreen { hwnd: 7, pt: Point { x: 3, y: 4 } },
            FallbackAction::Done(Some((103, 104))),
        ]
    );
}

#[test]
fn the_foreground_window_stands_in_once() {
    let caret = CaretInfo { hwnd: 9, rect: Rect { left: 0, top: 0, right: 0, bottom: 6 } };
    let start = [
        FallbackEvent::Focus(Some(7)),
        FallbackEvent::Control(ControlKind::Other),
        FallbackEvent::Thread(0),
    ];
    let mut answers = start.to_vec();
    answers.extend([
        FallbackEvent::Foreground(8),
        FallbackEvent::Thread(0),
        FallbackEvent::Caret(Some(caret)),
    ]);
    assert_eq!(
        fallback(&answers)[2..],
        [
            FallbackAction::ReadForeground,
            FallbackAction::ReadThread(8),
            FallbackAction::ReadCaret(0),
            FallbackAction::ToScreen { hwnd: 9, pt: Point { x: 0, y: 0 } },
        ]
    );
    let mut answers = start.to_vec();
    answers.push(FallbackEvent::Foreground(0));
    assert_eq!(fallback(&answers)[3], FallbackAction::Done(None));
}

#[test]
fn carets_without_a_place_are_no_place() {
    let caret = CaretInfo { hwnd: 9, rect: Rect { left: 0, top: 0, right: 0, bottom: 0 } };
    assert_eq!(fallback(&[FallbackEvent::Caret(Some(caret))]), [FallbackAction::Done(None)]);
    assert_eq!(fallback(&[FallbackEvent::Caret(None)]), [FallbackAction::Done(None)]);
}

fn search(events: Vec<SearchEvent>) -> (Vec<SearchAction>, SelectionSearch) {
    let mut state = SelectionSearch { text: Some("stale".to_string()), top_left: Some((9, 9)) };
    let actions = events
        .into_iter()
        .map(|e| get_focused_selection_with_fallback_copy(&mut state, e))
        .collect();
    (actions, state)
}

#[test]
fn the_control_is_asked_first() {
    let text = || Some("text".to_string());
    let (actions, state) = search(vec![SearchEvent::Asked(Some((text(), Some((1, 2)))))]);
    assert_eq!(actions, [SearchAction::Done]);
    assert_eq!(state, SelectionSearch { text: text(), top_left: Some((1, 2)) });

    let (actions, state) = search(vec![
        SearchEvent::Asked(Some((text(), None))),
        SearchEvent::Located(Some((3, 4))),
    ]);
    assert_eq!(actions, [SearchAction::Locate, SearchAction::Done]);
    assert_eq!(state, SelectionSearch { text: text(), top_left: Some((3, 4)) });
}

#[test]
fn the_selection_is_copied_where_the_control_is_silent() {
    let text = || Some("text".to_string());
    let (actions, state) = search(vec![
        SearchEvent::Asked(None),
        SearchEvent::Copied(text()),
        SearchEvent::Located(None),
    ]);
    assert_eq!(actions, [SearchAction::Copy, SearchAction::Locate, SearchAction::Done]);
    assert_eq!(state, SelectionSearch { text: text(), top_left: None });

    let (actions, state) =
        search(vec![SearchEvent::Asked(Some((None, Some((1, 2))))), SearchEvent::Copied(text())]);
    assert_eq!(actions, [SearchAction::Copy, SearchAction::Done]);
    assert_eq!(state, SelectionSearch { text: text(), top_left: Some((1, 2)) });

    let (actions, state) = search(vec![SearchEvent::Asked(None), SearchEvent::Copied(None)]);
    assert_eq!(actions, [SearchAction::Copy, SearchAction::Done]);
    assert_eq!(state, SelectionSearch { text: None, top_left: None });
}
