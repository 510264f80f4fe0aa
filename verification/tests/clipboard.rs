use selection_monitor::clipboard::{
    ctrl_c_sent, get_selection_via_copy_preserving_clipboard, read_clipboard_unicode_text,
    send_ctrl_c, CaptureAction, CaptureEvent, ClipboardSnapshot, CopyAction, CopyEvent, CopyState,
    KeyStroke, RestoreAction, RestoreEvent, RestoreProgress,
};

/// Takes a snapshot of a clipboard with these formats.
fn take(formats: &[(u32, Option<usize>)], last_error: u32) -> (CaptureAction, ClipboardSnapshot) {
    let mut snapshot = ClipboardSnapshot::new();
    let mut next = 0;
    let mut action = snapshot.capture(CaptureEvent::Opened(true));
    loop {
        let event = match action {
            CaptureAction::List { after } => {
                let listed = if next == 0 { 0 } else { formats[next - 1].0 };
                assert_eq!(after, listed);
                let format = formats.get(next).map_or(0, |f| f.0);
                next += 1;
                CaptureEvent::Listed { format, last_error }
            }
            CaptureAction::Copy { format } => {
                assert_eq!(format, formats[next - 1].0);
                CaptureEvent::Copied { format, handle: formats[next - 1].1 }
            }
            end => return (end, snapshot),
        };
        action = snapshot.capture(event);
    }
}

/// Restores a snapshot to a clipboard that opens after so many failures.
fn put_back(snapshot: &mut ClipboardSnapshot, failures: u32) -> Vec<RestoreAction> {
    let mut progress = RestoreProgress { attempts: 99 };
    let mut tries = 0;
    let mut actions = vec![snapshot.restore(&mut progress, RestoreEvent::Begin)];
    loop {
        let event = match actions[actions.len() - 1] {
            RestoreAction::Open => {
                tries += 1;
                RestoreEvent::Opened(tries > failures)
            }
            RestoreAction::Rest(_) => RestoreEvent::Rested,
            RestoreAction::Empty => RestoreEvent::Emptied,
            RestoreAction::Place { .. } => RestoreEvent::Placed,
            _ => return actions,
        };
        actions.push(snapshot.restore(&mut progress, event));
    }
}

struct World {
    sent: bool,
    polled: Vec<u32>,
    settled: u32,
    text: Option<String>,
}

/// Copies a selection where the sequence number is 40 before.
fn copy(world: World) -> (Vec<CopyAction>, Option<String>) {
    let mut state = CopyState { baseline: 1, polls: 2, text: Some("stale".to_string()) };
    let mut polls = 0;
    let step = get_selection_via_copy_preserving_clipboard;
    let mut actions = vec![step(&mut state, CopyEvent::Captured(true))];
    loop {
        let event = match actions[actions.len() - 1] {
            CopyAction::ReadBaseline => CopyEvent::Baseline(40),
            CopyAction::SendCopy => CopyEvent::Sent(world.sent),
            CopyAction::Poll => {
                polls += 1;
                CopyEvent::Polled(world.polled.get(polls - 1).copied().unwrap_or(40))
            }
            CopyAction::Rest(_) => CopyEvent::Rested,
            CopyAction::Settle => CopyEvent::Settled(world.settled),
            CopyAction::ReadText => CopyEvent::TextRead(world.text.clone()),
            CopyAction::Restore => CopyEvent::Restored,
            CopyAction::Fail | CopyAction::Done => return (actions, state.text),
        };
        actions.push(step(&mut state, event));
    }
}

#[test]
fn snapshots_hold_what_can_be_copied() {
    let (end, snapshot) =
        take(&[(13, Some(100)), (1, None), (8, Some(0)), (0xC004, Some(7))], 0);
    assert_eq!(end, CaptureAction::Keep);
    assert_eq!(snapshot.len(), 2);
    assert_eq!(snapshot.item(0), (13, 100));
    assert_eq!(snapshot.item(1), (0xC004, 7));
    let (end, snapshot) = take(&[], 0);
    assert_eq!((end, snapshot.len()), (CaptureAction::Keep, 0));
}

#[test]
fn failed_snapshots_are_discarded() {
    let (end, _) = take(&[(13, Some(100))], 1418);
    assert_eq!(end, CaptureAction::Discard);
    let mut snapshot = ClipboardSnapshot::new();
    assert_eq!(snapshot.capture(CaptureEvent::Opened(false)), CaptureAction::Fail);
}

#[test]
fn a_new_snapshot_forgets_the_old_one() {
    let (_, mut snapshot) = take(&[(13, Some(100))], 0);
    snapshot.capture(CaptureEvent::Opened(true));
    assert_eq!(snapshot.len(), 0);
}

#[test]
fn restores_put_everything_back_in_order() {
    let placed = [
        RestoreAction::Empty,
        RestoreAction::Place { format: 13, handle: 100 },
        RestoreAction::Place { format: 8, handle: 5 },
        RestoreAction::Close,
    ];
    for failures in 0..5 {
        let mut expected = vec![RestoreAction::Open];
        for _ in 0..failures {
            expected.extend([RestoreAction::Rest(10), RestoreAction::Open]);
        }
        expected.extend(placed);
        let (_, mut snapshot) = take(&[(13, Some(100)), (1, None), (8, Some(5))], 0);
        assert_eq!(put_back(&mut snapshot, failures), expected);
        assert_eq!(snapshot.len(), 0);
    }
}

#[test]
fn restores_give_up_after_five_failures() {
    let (_, mut snapshot) = take(&[(13, Some(100))], 0);
    let mut expected = vec![];
    for _ in 0..5 {
        expected.extend([RestoreAction::Open, RestoreAction::Rest(10)]);
    }
    expected.push(RestoreAction::GiveUp);
    assert_eq!(put_back(&mut snapshot, 5), expected);
    assert_eq!(put_back(&mut snapshot, 50), expected);
    assert_eq!(snapshot.len(), 1);
}

#[test]
fn nothing_is_put_back_twice() {
    let (_, mut snapshot) = take(&[(13, Some(100)), (8, Some(5))], 0);
    let mut progress = RestoreProgress { attempts: 0 };
    assert_eq!(
        snapshot.restore(&mut progress, RestoreEvent::Emptied),
        RestoreAction::Place { format: 13, handle: 100 }
    );
    assert_eq!(
        put_back(&mut snapshot, 0),
        [
            RestoreAction::Open,
            RestoreAction::Empty,
            RestoreAction::Place { format: 8, handle: 5 },
            RestoreAction::Close,
        ]
    );
    assert_eq!(
        put_back(&mut snapshot, 0),
        [RestoreAction::Open, RestoreAction::Empty, RestoreAction::Close]
    );
}

#[test]
fn copies_wait_for_the_clipboard() {
    let world = World {
        sent: true,
        polled: vec![40, 40, 41],
        settled: 41,
        text: Some(" word ".to_string()),
    };
    let (actions, text) = copy(world);
    assert_eq!(
        actions,
        [
            CopyAction::ReadBaseline,
            CopyAction::SendCopy,
            CopyAction::Poll,
            CopyAction::Rest(10),
            CopyAction::Poll,
            CopyAction::Rest(10),
            CopyAction::Poll,
            CopyAction::Settle,
            CopyAction::ReadText,
            CopyAction::Restore,
            CopyAction::Done,
        ]
    );
    assert_eq!(text, Some(" word ".to_string()));
}

#[test]
fn copies_end_after_thirty_polls() {
    let world = World { sent: true, polled: vec![], settled: 40, text: Some("x".to_string()) };
    let (actions, text) = copy(world);
    assert_eq!(actions.iter().filter(|a| **a == CopyAction::Poll).count(), 30);
    assert_eq!(actions.iter().filter(|a| **a == CopyAction::Rest(10)).count(), 30);
    assert_eq!(
        actions[actions.len() - 3..],
        [CopyAction::Settle, CopyAction::Restore, CopyAction::Done]
    );
    assert_eq!(text, None);
}

#[test]
fn a_last_look_can_still_see_the_change() {
    let world = World { sent: true, polled: vec![], settled: 41, text: Some("x".to_string()) };
    assert_eq!(copy(world).1, Some("x".to_string()));
}

#[test]
fn blank_and_unreadable_copies_have_no_text() {
    for text in [Some(" \r\n".to_string()), Some(String::new()), None] {
        let world = World { sent: true, polled: vec![41], settled: 41, text };
        let (actions, text) = copy(world);
        assert_eq!(actions[actions.len() - 2..], [CopyAction::Restore, CopyAction::Done]);
        assert_eq!(text, None);
    }
}

#[test]
fn copies_that_cannot_be_sent_fail() {
    let world = World { sent: false, polled: vec![], settled: 40, text: None };
    assert_eq!(
        copy(world).0,
        [CopyAction::ReadBaseline, CopyAction::SendCopy, CopyAction::Fail]
    );
}

#[test]
fn nothing_is_copied_without_a_snapshot() {
    let mut state = CopyState { baseline: 1, polls: 2, text: Some("stale".to_string()) };
    let action =
        get_selection_via_copy_preserving_clipboard(&mut state, CopyEvent::Captured(false));
    assert_eq!(action, CopyAction::Done);
    assert_eq!(state.text, None);
}

#[test]
fn ctrl_c_presses_and_releases_both_keys() {
    let stroke = |key, up| KeyStroke { key, up };
    assert_eq!(
        send_ctrl_c(),
        [stroke(0x11, false), stroke(0x43, false), stroke(0x43, true), stroke(0x11, true)]
    );
    assert!(ctrl_c_sent(4));
    assert!(!ctrl_c_sent(3));
    assert!(!ctrl_c_sent(0));
}

#[test]
fn clipboard_text_ends_at_its_terminator() {
    let units: Vec<u16> = "h\u{e9} \u{1f600}\0rest".encode_utf16().collect();
    assert_eq!(read_clipboard_unicode_text(Some(&units)), "h\u{e9} \u{1f600}");
    assert_eq!(read_clipboard_unicode_text(Some(&[0, 0x41])), "");
    assert_eq!(read_clipboard_unicode_text(Some(&[0x41, 0xd800, 0])), "A\u{fffd}");
    assert_eq!(read_clipboard_unicode_text(Some(&[0x41])), "A");
    assert_eq!(read_clipboard_unicode_text(None), "");
}
