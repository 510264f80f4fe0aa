use selection_monitor::geometry::{Point, Rect};
use selection_monitor::hit_test::{
    get_window_text, in_top_drag_region, is_cherry_window, is_client_top_drag_region,
    is_resize_border_hit, is_scrollbar_hit, is_splitter_drag_by_cursor, is_title_bar_hit,
    top_level_window, window_text_capacity, CaptionMetrics, SizeCursors,
};

const METRICS: CaptionMetrics =
    CaptionMetrics { caption: 23, frame: 4, padded_border: 4, cherry_height: 50 };

fn window(top: i32) -> Option<Rect> {
    Some(Rect { left: 0, top, right: 800, bottom: top + 600 })
}

#[test]
fn captions_are_told_by_the_whole_result() {
    assert!(is_title_bar_hit(Some(2)));
    assert!(!is_title_bar_hit(Some(1)));
    assert!(!is_title_bar_hit(Some(0x1_0000_0002)));
    assert!(!is_title_bar_hit(None));
}

#[test]
fn borders_and_scroll_bars_are_told_by_the_low_bits() {
    for code in -3..30 {
        assert_eq!(is_resize_border_hit(Some(code)), (10..=17).contains(&code), "{code}");
        assert_eq!(is_scrollbar_hit(Some(code)), code == 6 || code == 7, "{code}");
    }
    assert!(is_resize_border_hit(Some(0x5_0000_000A)));
    assert!(is_scrollbar_hit(Some(0x5_0000_0007)));
    assert!(!is_resize_border_hit(None));
    assert!(!is_scrollbar_hit(None));
}

#[test]
fn resize_cursors_are_recognised() {
    let shapes = SizeCursors { ns: Some(11), we: Some(12), nwse: Some(13), nesw: Some(14) };
    for cursor in 10..16 {
        assert_eq!(is_splitter_drag_by_cursor(Some(cursor), shapes), (11..=14).contains(&cursor));
    }
    assert!(!is_splitter_drag_by_cursor(None, shapes));
    assert!(!is_splitter_drag_by_cursor(Some(0), shapes));
    assert!(is_splitter_drag_by_cursor(Some(0), SizeCursors { nesw: None, ..shapes }));
}

#[test]
fn window_texts() {
    assert_eq!(window_text_capacity(-1), None);
    assert_eq!(window_text_capacity(0), None);
    assert_eq!(window_text_capacity(5), Some(6));
    assert_eq!(window_text_capacity(i32::MAX), Some(0x8000_0000));
    assert_eq!(get_window_text(2, &[0x41, 0x62, 0], 2), "Ab");
    assert_eq!(get_window_text(0, &[0x41], 7), "");
    assert_eq!(get_window_text(2, &[0xd83d, 0xde00, 0], 2), "\u{1f600}");
}

#[test]
fn cherry_windows_are_told_by_title() {
    assert!(is_cherry_window("Cherry Studio"));
    assert!(is_cherry_window("my CHERRY\u{4f60}"));
    assert!(!is_cherry_window("cheri"));
    assert!(!is_cherry_window(""));
}

#[test]
fn roots_stand_for_their_windows() {
    assert_eq!(top_level_window(7, 9), 9);
    assert_eq!(top_level_window(7, 0), 7);
}

#[test]
fn the_top_of_a_window_is_its_caption() {
    let at = |y| in_top_drag_region(Point { x: 5, y }, window(100), METRICS, false);
    assert!(!at(99));
    assert!(at(100));
    assert!(at(131));
    assert!(!at(132));
    assert!(!in_top_drag_region(Point { x: 5, y: 100 }, None, METRICS, true));
}

#[test]
fn cherry_windows_have_a_taller_top() {
    let at = |y, title| is_client_top_drag_region(Point { x: 5, y }, window(100), METRICS, title);
    assert!(at(150, "Cherry Studio"));
    assert!(!at(151, "Cherry Studio"));
    assert!(!at(150, "Editor"));
    let flat = CaptionMetrics { cherry_height: 10, ..METRICS };
    assert!(is_client_top_drag_region(Point { x: 5, y: 131 }, window(100), flat, "cherry"));
}

#[test]
fn extreme_tops_do_not_wrap() {
    let tall = CaptionMetrics { caption: i32::MAX, frame: i32::MAX, padded_border: 1, cherry_height: 0 };
    let rect = Rect { left: 0, top: i32::MAX - 1, right: 1, bottom: i32::MAX };
    assert!(in_top_drag_region(Point { x: 0, y: i32::MAX }, Some(rect), tall, true));
}
