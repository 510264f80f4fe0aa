use selection_monitor::geometry::{
    clamp_to_client, low_bits, low_dword, pack_point, unpack_point, Point, Rect,
};

const CLIENT: Rect = Rect { left: 0, top: 0, right: 640, bottom: 480 };

#[test]
fn packs_the_low_words() {
    assert_eq!(pack_point(Point { x: 3, y: 2 }), 0x0002_0003);
    assert_eq!(pack_point(Point { x: -1, y: 2 }), 0x0002_FFFF);
    assert_eq!(pack_point(Point { x: 0x1_2345, y: -2 }), 0xFFFE_2345);
    assert_eq!(pack_point(Point { x: i32::MIN, y: i32::MAX }), 0xFFFF_0000);
}

#[test]
fn unpacks_signed_words() {
    assert_eq!(unpack_point(0x0002_FFFF), Point { x: -1, y: 2 });
    assert_eq!(unpack_point(0x8000_7FFF), Point { x: 0x7FFF, y: -0x8000 });
}

#[test]
fn unpacking_undoes_packing() {
    for x in [-0x8000, -300, -1, 0, 1, 17, 0x7FFF] {
        for y in [-0x8000, -5, 0, 4, 0x7FFF] {
            let pt = Point { x, y };
            assert_eq!(unpack_point(pack_point(pt)), pt);
        }
    }
    let wide = Point { x: 0x1_0000, y: 0 };
    assert_eq!(unpack_point(pack_point(wide)), Point { x: 0, y: 0 });
}

#[test]
fn message_results_are_cut_to_32_bits() {
    assert_eq!(low_dword(-1), -1);
    assert_eq!(low_dword(0x1_0000_0005), 5);
    assert_eq!(low_dword(0x8000_0000), i32::MIN);
    assert_eq!(low_bits(-1), u32::MAX);
    assert_eq!(low_bits(0x7_0000_0001), 1);
}

#[test]
fn points_are_moved_into_the_client_area() {
    let clamped = |x, y| clamp_to_client(Point { x, y }, Some(CLIENT));
    assert_eq!(clamped(-20, 100), Point { x: 0, y: 100 });
    assert_eq!(clamped(700, 481), Point { x: 640, y: 480 });
    assert_eq!(clamped(640, 0), Point { x: 640, y: 0 });
    assert_eq!(clamp_to_client(Point { x: -20, y: 9000 }, None), Point { x: -20, y: 9000 });
}
