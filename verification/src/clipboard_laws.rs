//! What holds of snapshots, restores and copies from their start to their end.

use vstd::prelude::*;

use crate::clipboard::{
    ctrl_c_sent, get_selection_via_copy_preserving_clipboard, read_clipboard_unicode_text,
    send_ctrl_c, CaptureAction, CaptureEvent, ClipboardSnapshot, CopyAction, CopyEvent, CopyState,
    KeyStroke, RestoreAction, RestoreEvent, RestoreProgress,
};
#[allow(unused_imports)]
use crate::clipboard::{
    capture_action, capture_items, copy_action, copy_after, restore_action, restore_after,
    restore_items, units_before_nul,
};
#[allow(unused_imports)]
use crate::text::{is_white_space, utf16_lossy};
#[allow(unused_imports)]
use crate::text_laws::{encoded, law_decoding_undoes_encoding};

verus! {

/// The data on a clipboard: each format with the handle of its copy, which is
/// `None` where the data cannot be read and 0 where they cannot be copied.
pub open spec fn copies(formats: Seq<(u32, Option<usize>)>) -> Seq<(u32, usize)>
    decreases formats.len(),
{
    if formats.len() == 0 {
        Seq::empty()
    } else {
        let (format, handle) = formats.last();
        match handle {
            Some(h) if h != 0 => copies(formats.drop_last()).push((format, h)),
            _ => copies(formats.drop_last()),
        }
    }
}

/// The system's answer about the data in the last of `formats`.
pub open spec fn copied(formats: Seq<(u32, Option<usize>)>) -> CaptureEvent {
    CaptureEvent::Copied { format: formats.last().0, handle: formats.last().1 }
}

/// The items of a snapshot once the data in all of `formats` have been asked
/// for.
pub open spec fn captured(formats: Seq<(u32, Option<usize>)>) -> Seq<(u32, usize)>
    decreases formats.len(),
{
    if formats.len() == 0 {
        capture_items(Seq::empty(), CaptureEvent::Opened(true))
    } else {
        let listed = CaptureEvent::Listed { format: formats.last().0, last_error: 0 };
        capture_items(capture_items(captured(formats.drop_last()), listed), copied(formats))
    }
}

/// A snapshot goes through the formats on the clipboard one by one, and holds
/// those that can be copied, in their order, when it is complete.
pub proof fn law_snapshot_holds_what_can_be_copied(formats: Seq<(u32, Option<usize>)>)
    requires
        forall|i: int| 0 <= i < formats.len() ==> (#[trigger] formats[i]).0 != 0,
    ensures
        captured(formats) == copies(formats),
        capture_action(CaptureEvent::Opened(true)) == (CaptureAction::List { after: 0 }),
        forall|i: int, error: u32|
            0 <= i < formats.len() ==> #[trigger] capture_action(
                CaptureEvent::Listed { format: formats[i].0, last_error: error },
            ) == (CaptureAction::Copy { format: formats[i].0 }),
        forall|i: int|
            0 < i <= formats.len() ==> capture_action(#[trigger] copied(formats.take(i))) == (
            CaptureAction::List { after: formats[i - 1].0 }),
        capture_items(
            captured(formats),
            CaptureEvent::Listed { format: 0, last_error: 0 },
        ) == copies(formats),
        capture_action(CaptureEvent::Listed { format: 0, last_error: 0 }) == CaptureAction::Keep,
    decreases formats.len(),
{
    if formats.len() > 0 {
        assert forall|i: int| 0 <= i < formats.drop_last().len() implies (
        #[trigger] formats.drop_last()[i]).0 != 0 by {
            assert(formats.drop_last()[i] == formats[i]);
        }
        law_snapshot_holds_what_can_be_copied(formats.drop_last());
    }
}

/// A clipboard that cannot be opened or listed to its end gives no snapshot,
/// and is closed where it was opened.
pub proof fn law_failed_snapshot_is_discarded(last_error: u32)
    requires
        last_error != 0,
    ensures
        capture_action(CaptureEvent::Opened(false)) == CaptureAction::Fail,
        capture_action(CaptureEvent::Listed { format: 0, last_error }) == CaptureAction::Discard,
{
}

/// What happens after an action of a restore, where `opens` tells whether the
/// clipboard can be opened at each attempt.
pub open spec fn restore_reply(
    action: RestoreAction,
    p: RestoreProgress,
    opens: spec_fn(u32) -> bool,
) -> RestoreEvent {
    match action {
        RestoreAction::Open => RestoreEvent::Opened(opens(p.attempts)),
        RestoreAction::Rest(_) => RestoreEvent::Rested,
        RestoreAction::Empty => RestoreEvent::Emptied,
        _ => RestoreEvent::Placed,
    }
}

/// All that a restore does from `event` on, in `steps` further steps at most.
pub open spec fn restore_trace(
    items: Seq<(u32, usize)>,
    p: RestoreProgress,
    event: RestoreEvent,
    opens: spec_fn(u32) -> bool,
    steps: nat,
) -> Seq<RestoreAction>
    decreases steps,
{
    let action = restore_action(items, p, event);
    let next = restore_after(p, event);
    if steps == 0 || action is Close || action is GiveUp {
        seq![action]
    } else {
        seq![action] + restore_trace(
            restore_items(items, event),
            next,
            restore_reply(action, next, opens),
            opens,
            (steps - 1) as nat,
        )
    }
}

/// `n` pauses, each with another attempt after it.
pub open spec fn retries(n: nat) -> Seq<RestoreAction>
    decreases n,
{
    if n == 0 {
        Seq::empty()
    } else {
        seq![RestoreAction::Rest(10), RestoreAction::Open] + retries(
            (n - 1) as nat,
        )
    }
}

/// Putting back each of `items`.
pub open spec fn placements(items: Seq<(u32, usize)>) -> Seq<RestoreAction> {
    items.map_values(
        |item: (u32, usize)| RestoreAction::Place { format: item.0, handle: item.1 },
    )
}

/// The items that a snapshot still holds after `events`.
pub open spec fn items_left(items: Seq<(u32, usize)>, events: Seq<RestoreEvent>) -> Seq<
    (u32, usize),
>
    decreases events.len(),
{
    if events.len() == 0 {
        items
    } else {
        restore_items(items_left(items, events.drop_last()), events.last())
    }
}

/// How far the opening of the clipboard has come after `events`.
pub open spec fn progress_after(p: RestoreProgress, events: Seq<RestoreEvent>) -> RestoreProgress
    decreases events.len(),
{
    if events.len() == 0 {
        p
    } else {
        restore_after(progress_after(p, events.drop_last()), events.last())
    }
}

/// What is put on the clipboard in the course of `events`.
pub open spec fn put_on_clipboard(
    items: Seq<(u32, usize)>,
    p: RestoreProgress,
    events: Seq<RestoreEvent>,
) -> Seq<RestoreAction>
    decreases events.len(),
{
    if events.len() == 0 {
        Seq::empty()
    } else {
        let before = put_on_clipboard(items, p, events.drop_last());
        let action = restore_action(
            items_left(items, events.drop_last()),
            progress_after(p, events.drop_last()),
            events.last(),
        );
        if action is Place {
            before.push(action)
        } else {
            before
        }
    }
}

/// Whatever happens in the course of a restore, every item of the snapshot is
/// put on the clipboard once or still held by the snapshot: none is put there
/// twice, and none is lost.
pub proof fn law_no_item_is_placed_twice(
    items: Seq<(u32, usize)>,
    p: RestoreProgress,
    events: Seq<RestoreEvent>,
)
    ensures
        put_on_clipboard(items, p, events) + placements(items_left(items, events)) == placements(
            items,
        ),
    decreases events.len(),
{
    if events.len() == 0 {
        assert(put_on_clipboard(items, p, events) + placements(items) =~= placements(items));
    } else {
        law_no_item_is_placed_twice(items, p, events.drop_last());
        let before = items_left(items, events.drop_last());
        let progress = progress_after(p, events.drop_last());
        if restore_action(before, progress, events.last()) is Place {
            assert(placements(before) =~= placements(seq![before[0]]) + placements(before.drop_first()));
            assert(put_on_clipboard(items, p, events) + placements(items_left(items, events))
                =~= put_on_clipboard(items, p, events.drop_last()) + placements(before));
        }
    }
}

/// The part of a restore in which the items are put back.
proof fn lemma_placing(
    items: Seq<(u32, usize)>,
    p: RestoreProgress,
    event: RestoreEvent,
    opens: spec_fn(u32) -> bool,
    steps: nat,
)
    requires
        event is Emptied || event is Placed,
        steps >= items.len(),
    ensures
        restore_trace(items, p, event, opens, steps) == placements(items) + seq![
            RestoreAction::Close,
        ],
    decreases items.len(),
{
    if items.len() > 0 {
        lemma_placing(items.drop_first(), p, RestoreEvent::Placed, opens, (steps - 1) as nat);
        assert(placements(items) =~= placements(seq![items[0]]) + placements(items.drop_first()));
    } else {
        assert(placements(items) =~= Seq::<RestoreAction>::empty());
    }
    assert(restore_trace(items, p, event, opens, steps) =~= placements(items) + seq![
        RestoreAction::Close,
    ]);
}

/// The part of a restore from the answer to attempt `from` on, where attempt
/// `at` is the first to succeed.
proof fn lemma_opening(
    items: Seq<(u32, usize)>,
    from: u32,
    at: u32,
    opens: spec_fn(u32) -> bool,
    steps: nat,
)
    requires
        from <= at < 5,
        opens(at),
        forall|i: u32| i < at ==> !#[trigger] opens(i),
        steps >= 2 * (at - from) + items.len() + 1,
    ensures
        restore_trace(
            items,
            RestoreProgress { attempts: from },
            RestoreEvent::Opened(opens(from)),
            opens,
            steps,
        ) == retries((at - from) as nat) + seq![RestoreAction::Empty] + placements(items) + seq![
            RestoreAction::Close,
        ],
    decreases at - from,
{
    let p = RestoreProgress { attempts: from };
    let trace = restore_trace(items, p, RestoreEvent::Opened(opens(from)), opens, steps);
    if from == at {
        lemma_placing(items, p, RestoreEvent::Emptied, opens, (steps - 1) as nat);
        assert(trace =~= retries(0) + seq![RestoreAction::Empty] + placements(items) + seq![
            RestoreAction::Close,
        ]);
    } else {
        let q = RestoreProgress { attempts: (from + 1) as u32 };
        lemma_opening(items, (from + 1) as u32, at, opens, (steps - 2) as nat);
        assert(restore_trace(items, q, RestoreEvent::Rested, opens, (steps - 1) as nat)
            =~= seq![RestoreAction::Open] + restore_trace(
            items,
            q,
            RestoreEvent::Opened(opens(q.attempts)),
            opens,
            (steps - 2) as nat,
        ));
        assert(trace =~= retries((at - from) as nat) + seq![RestoreAction::Empty] + placements(
            items,
        ) + seq![RestoreAction::Close]);
    }
}

/// The clipboard is opened at the first attempt at which it can be, with a
/// pause after every failure; it is then emptied, every item of the snapshot
/// is put back once and in order, and it is closed.
pub proof fn law_restore_puts_everything_back(
    items: Seq<(u32, usize)>,
    p: RestoreProgress,
    at: u32,
    opens: spec_fn(u32) -> bool,
    steps: nat,
)
    requires
        at < 5,
        opens(at),
        forall|i: u32| i < at ==> !#[trigger] opens(i),
        steps >= 2 * at + items.len() + 2,
    ensures
        restore_trace(items, p, RestoreEvent::Begin, opens, steps) == seq![RestoreAction::Open]
            + retries(at as nat) + seq![RestoreAction::Empty] + placements(items) + seq![
            RestoreAction::Close,
        ],
{
    lemma_opening(items, 0, at, opens, (steps - 1) as nat);
    assert(restore_trace(items, p, RestoreEvent::Begin, opens, steps) =~= seq![RestoreAction::Open]
        + retries(at as nat) + seq![RestoreAction::Empty] + placements(items) + seq![
        RestoreAction::Close,
    ]);
}

/// A clipboard that cannot be opened at any attempt is left as it is: it is
/// neither emptied nor filled.
pub proof fn law_restore_gives_up(
    items: Seq<(u32, usize)>,
    p: RestoreProgress,
    opens: spec_fn(u32) -> bool,
    steps: nat,
)
    requires
        forall|i: u32| i < 5 ==> !#[trigger] opens(i),
        steps >= 2 * 5 + 1,
    ensures
        restore_trace(items, p, RestoreEvent::Begin, opens, steps) == seq![RestoreAction::Open]
            + retries(4) + seq![
            RestoreAction::Rest(10),
            RestoreAction::GiveUp,
        ],
{
    lemma_never_opening(items, 0, opens, (steps - 1) as nat);
    assert(restore_trace(items, p, RestoreEvent::Begin, opens, steps) =~= seq![RestoreAction::Open]
        + retries(4) + seq![
        RestoreAction::Rest(10),
        RestoreAction::GiveUp,
    ]);
}

/// The part of a restore from the answer to attempt `from` on, where no
/// attempt succeeds.
proof fn lemma_never_opening(
    items: Seq<(u32, usize)>,
    from: u32,
    opens: spec_fn(u32) -> bool,
    steps: nat,
)
    requires
        from < 5,
        forall|i: u32| i < 5 ==> !#[trigger] opens(i),
        steps >= 2 * (5 - from),
    ensures
        restore_trace(
            items,
            RestoreProgress { attempts: from },
            RestoreEvent::Opened(opens(from)),
            opens,
            steps,
        ) == retries((4 - from) as nat) + seq![
            RestoreAction::Rest(10),
            RestoreAction::GiveUp,
        ],
    decreases 5 - from,
{
    let p = RestoreProgress { attempts: from };
    let q = RestoreProgress { attempts: (from + 1) as u32 };
    let trace = restore_trace(items, p, RestoreEvent::Opened(opens(from)), opens, steps);
    let rested = restore_trace(items, q, RestoreEvent::Rested, opens, (steps - 1) as nat);
    assert(trace =~= seq![RestoreAction::Rest(10)] + rested);
    if from + 1 < 5 {
        lemma_never_opening(items, (from + 1) as u32, opens, (steps - 2) as nat);
        assert(rested =~= seq![RestoreAction::Open] + restore_trace(
            items,
            q,
            RestoreEvent::Opened(opens(q.attempts)),
            opens,
            (steps - 2) as nat,
        ));
    } else {
        assert(rested =~= seq![RestoreAction::GiveUp]);
    }
    assert(trace =~= retries((4 - from) as nat) + seq![
        RestoreAction::Rest(10),
        RestoreAction::GiveUp,
    ]);
}

/// What can be copied from a clipboard is what a restore of the snapshot puts
/// back.
pub proof fn law_clipboard_is_preserved(
    formats: Seq<(u32, Option<usize>)>,
    p: RestoreProgress,
    at: u32,
    opens: spec_fn(u32) -> bool,
    steps: nat,
)
    requires
        forall|i: int| 0 <= i < formats.len() ==> (#[trigger] formats[i]).0 != 0,
        at < 5,
        opens(at),
        forall|i: u32| i < at ==> !#[trigger] opens(i),
        steps >= 2 * at + formats.len() + 2,
    ensures
        restore_trace(captured(formats), p, RestoreEvent::Begin, opens, steps) == seq![
            RestoreAction::Open,
        ] + retries(at as nat) + seq![RestoreAction::Empty] + placements(copies(formats)) + seq![
            RestoreAction::Close,
        ],
{
    law_snapshot_holds_what_can_be_copied(formats);
    lemma_no_more_copies_than_formats(formats);
    law_restore_puts_everything_back(copies(formats), p, at, opens, steps);
}

/// At most one item comes of each format.
proof fn lemma_no_more_copies_than_formats(formats: Seq<(u32, Option<usize>)>)
    ensures
        copies(formats).len() <= formats.len(),
    decreases formats.len(),
{
    if formats.len() > 0 {
        lemma_no_more_copies_than_formats(formats.drop_last());
    }
}

/// What the system answers while a selection is copied.
pub struct CopyWorld {
    /// A snapshot can be taken.
    pub captured: bool,
    /// The sequence number before the copy.
    pub baseline: u32,
    /// The key strokes can be sent.
    pub sent: bool,
    /// The sequence number at each poll.
    pub polled: spec_fn(u32) -> u32,
    /// The sequence number once polling has ended.
    pub settled: u32,
    /// The text on the clipboard.
    pub text: Option<String>,
}

/// What happens after an action of a copy.
pub open spec fn copy_reply(w: CopyWorld, s: CopyState, action: CopyAction) -> CopyEvent {
    match action {
        CopyAction::ReadBaseline => CopyEvent::Baseline(w.baseline),
        CopyAction::SendCopy => CopyEvent::Sent(w.sent),
        CopyAction::Poll => CopyEvent::Polled((w.polled)(s.polls)),
        CopyAction::Rest(_) => CopyEvent::Rested,
        CopyAction::Settle => CopyEvent::Settled(w.settled),
        CopyAction::ReadText => CopyEvent::TextRead(w.text),
        _ => CopyEvent::Restored,
    }
}

/// All that a copy does from `event` on, in `steps` further steps at most,
/// and the text that it ends with.
pub open spec fn copy_trace(w: CopyWorld, s: CopyState, event: CopyEvent, steps: nat) -> (
    Seq<CopyAction>,
    Option<String>,
)
    decreases steps,
{
    let action = copy_action(s, event);
    let next = copy_after(s, event);
    if steps == 0 || action is Done || action is Fail {
        (seq![action], next.text)
    } else {
        let (rest, text) = copy_trace(w, next, copy_reply(w, next, action), (steps - 1) as nat);
        (seq![action] + rest, text)
    }
}

/// `n` pauses, each with a poll after it.
pub open spec fn more_polls(n: nat) -> Seq<CopyAction>
    decreases n,
{
    if n == 0 {
        Seq::empty()
    } else {
        seq![CopyAction::Rest(10), CopyAction::Poll] + more_polls((n - 1) as nat)
    }
}

/// The pauses and polls from the answer to the first poll on. `unchanged` is
/// the number of polls that see the old sequence number.
pub open spec fn waiting(unchanged: nat) -> Seq<CopyAction> {
    if unchanged < 30 {
        more_polls(unchanged)
    } else {
        more_polls(29) + seq![CopyAction::Rest(10)]
    }
}

/// The end of a copy.
pub open spec fn copy_ending(w: CopyWorld) -> Seq<CopyAction> {
    if w.settled == w.baseline {
        seq![CopyAction::Settle, CopyAction::Restore, CopyAction::Done]
    } else {
        seq![CopyAction::Settle, CopyAction::ReadText, CopyAction::Restore, CopyAction::Done]
    }
}

/// The text that a copy gives: that on the clipboard, where it has changed and
/// there is more to it than white space.
pub open spec fn copied_text(w: CopyWorld) -> Option<String> {
    match w.text {
        Some(t) if w.settled != w.baseline && (exists|i: int|
            0 <= i < t@.len() && !is_white_space(#[trigger] t@[i])) => w.text,
        _ => None,
    }
}

/// The first `unchanged` polls see the old sequence number, and the next one,
/// where there is one, does not.
pub open spec fn changes_after(w: CopyWorld, unchanged: u32) -> bool {
    &&& unchanged <= 30
    &&& forall|i: u32| i < unchanged ==> #[trigger] (w.polled)(i) == w.baseline
    &&& unchanged < 30 ==> (w.polled)(unchanged) != w.baseline
}

/// The end of a copy, from the action `Settle` on.
proof fn lemma_ending(w: CopyWorld, s: CopyState, event: CopyEvent, steps: nat)
    requires
        copy_action(s, event) is Settle,
        copy_after(s, event) == s,
        s.baseline == w.baseline,
        s.text is None,
        steps >= 3,
    ensures
        copy_trace(w, s, event, steps).0 == copy_ending(w),
        copy_trace(w, s, event, steps).1 == copied_text(w),
{
    reveal_with_fuel(copy_trace, 4);
    assert(copy_trace(w, s, event, steps).0 =~= copy_ending(w));
}

/// A copy from the answer to poll `from` on.
proof fn lemma_waiting(w: CopyWorld, s: CopyState, from: u32, unchanged: u32, steps: nat)
    requires
        changes_after(w, unchanged),
        from <= unchanged,
        from < 30,
        s.polls == from,
        s.baseline == w.baseline,
        s.text is None,
        steps >= 2 * (unchanged - from) + 3,
    ensures
        ({
            let (actions, text) = copy_trace(
                w,
                s,
                CopyEvent::Polled((w.polled)(from)),
                steps,
            );
            &&& actions == (if unchanged < 30 {
                more_polls((unchanged - from) as nat)
            } else {
                more_polls((29 - from) as nat) + seq![
                    CopyAction::Rest(10),
                ]
            }) + copy_ending(w)
            &&& text == copied_text(w)
        }),
    decreases unchanged - from,
{
    let event = CopyEvent::Polled((w.polled)(from));
    let (actions, text) = copy_trace(w, s, event, steps);
    if from == unchanged {
        lemma_ending(w, s, event, steps);
        assert(actions =~= more_polls(0) + copy_ending(w));
    } else {
        let next = CopyState { polls: (from + 1) as u32, ..s };
        assert(copy_after(s, event) == next);
        let (rested, rested_text) = copy_trace(w, next, CopyEvent::Rested, (steps - 1) as nat);
        assert(actions =~= seq![CopyAction::Rest(10)] + rested);
        if from + 1 < 30 {
            lemma_waiting(w, next, (from + 1) as u32, unchanged, (steps - 2) as nat);
            let (polled, polled_text) = copy_trace(
                w,
                next,
                CopyEvent::Polled((w.polled)(next.polls)),
                (steps - 2) as nat,
            );
            assert(rested =~= seq![CopyAction::Poll] + polled);
            if unchanged < 30 {
                assert(actions =~= more_polls((unchanged - from) as nat) + copy_ending(w));
            } else {
                assert(actions =~= more_polls((29 - from) as nat) + seq![
                    CopyAction::Rest(10),
                ] + copy_ending(w));
            }
        } else {
            lemma_ending(w, next, CopyEvent::Rested, (steps - 1) as nat);
            assert(actions =~= more_polls(0) + seq![CopyAction::Rest(10)]
                + copy_ending(w));
        }
    }
}

/// Once the key strokes have been sent, the clipboard is polled until it
/// changes or the polls are used up; it is read only where it has changed; the
/// snapshot is restored exactly once, after that; and the text is returned
/// unless it is blank.
pub proof fn law_copy_restores_the_clipboard(
    w: CopyWorld,
    s: CopyState,
    unchanged: u32,
    steps: nat,
)
    requires
        w.captured,
        w.sent,
        changes_after(w, unchanged),
        steps >= 2 * unchanged + 6,
    ensures
        ({
            let (actions, text) = copy_trace(w, s, CopyEvent::Captured(w.captured), steps);
            &&& actions == seq![
                CopyAction::ReadBaseline,
                CopyAction::SendCopy,
                CopyAction::Poll,
            ] + waiting(unchanged as nat) + copy_ending(w)
            &&& text == copied_text(w)
        }),
{
    let event = CopyEvent::Captured(true);
    let s1 = copy_after(s, event);
    let s2 = copy_after(s1, CopyEvent::Baseline(w.baseline));
    lemma_waiting(w, s2, 0, unchanged, (steps - 3) as nat);
    let (actions, text) = copy_trace(w, s, event, steps);
    let (a1, t1) = copy_trace(w, s1, CopyEvent::Baseline(w.baseline), (steps - 1) as nat);
    let (a2, t2) = copy_trace(w, s2, CopyEvent::Sent(true), (steps - 2) as nat);
    let (a3, t3) = copy_trace(w, s2, CopyEvent::Polled((w.polled)(0)), (steps - 3) as nat);
    assert(actions =~= seq![CopyAction::ReadBaseline] + a1);
    assert(a1 =~= seq![CopyAction::SendCopy] + a2);
    assert(a2 =~= seq![CopyAction::Poll] + a3);
    assert(actions =~= seq![CopyAction::ReadBaseline, CopyAction::SendCopy, CopyAction::Poll]
        + waiting(unchanged as nat) + copy_ending(w));
}

/// The time that `actions` pause, in milliseconds.
pub open spec fn paused_ms(actions: Seq<CopyAction>) -> int
    decreases actions.len(),
{
    if actions.len() == 0 {
        0
    } else {
        paused_ms(actions.drop_last()) + match actions.last() {
            CopyAction::Rest(ms) => ms as int,
            _ => 0,
        }
    }
}

proof fn lemma_paused_adds_up(a: Seq<CopyAction>, b: Seq<CopyAction>)
    ensures
        paused_ms(a + b) == paused_ms(a) + paused_ms(b),
    decreases b.len(),
{
    if b.len() == 0 {
        assert(a + b =~= a);
    } else {
        lemma_paused_adds_up(a, b.drop_last());
        assert((a + b).drop_last() =~= a + b.drop_last());
    }
}

proof fn lemma_paused_in_polls(n: nat)
    ensures
        paused_ms(more_polls(n)) == n * 10,
    decreases n,
{
    if n > 0 {
        let first = seq![CopyAction::Rest(10), CopyAction::Poll];
        lemma_paused_in_polls((n - 1) as nat);
        lemma_paused_adds_up(first, more_polls((n - 1) as nat));
        assert(first.drop_last() =~= seq![CopyAction::Rest(10)]);
        assert(first.drop_last().drop_last() =~= Seq::<CopyAction>::empty());
        reveal_with_fuel(paused_ms, 3);
    }
}

/// A copy pauses once for every poll that sees no change, and for 300
/// milliseconds at most.
pub proof fn law_copy_waits_a_bounded_time(
    w: CopyWorld,
    s: CopyState,
    unchanged: u32,
    steps: nat,
)
    requires
        w.captured,
        w.sent,
        changes_after(w, unchanged),
        steps >= 2 * unchanged + 6,
    ensures
        ({
            let (actions, text) = copy_trace(w, s, CopyEvent::Captured(w.captured), steps);
            &&& paused_ms(actions) == unchanged * 10
            &&& paused_ms(actions) <= 300
        }),
{
    law_copy_restores_the_clipboard(w, s, unchanged, steps);
    let start = seq![CopyAction::ReadBaseline, CopyAction::SendCopy, CopyAction::Poll];
    let wait = waiting(unchanged as nat);
    assert(paused_ms(start) == 0) by {
        reveal_with_fuel(paused_ms, 4);
    }
    assert(paused_ms(copy_ending(w)) == 0) by {
        reveal_with_fuel(paused_ms, 5);
    }
    assert(paused_ms(wait) == unchanged * 10) by {
        if unchanged < 30 {
            lemma_paused_in_polls(unchanged as nat);
        } else {
            let polls = more_polls(29);
            let rest = seq![CopyAction::Rest(10)];
            lemma_paused_in_polls(29);
            lemma_paused_adds_up(polls, rest);
            assert(rest.drop_last() =~= Seq::<CopyAction>::empty());
            reveal_with_fuel(paused_ms, 2);
        }
    }
    lemma_paused_adds_up(start, wait);
    lemma_paused_adds_up(start + wait, copy_ending(w));
}

/// Without a snapshot nothing is sent and nothing is returned.
pub proof fn law_no_copy_without_snapshot(w: CopyWorld, s: CopyState, steps: nat)
    requires
        !w.captured,
    ensures
        copy_trace(w, s, CopyEvent::Captured(w.captured), steps) == (
            seq![CopyAction::Done],
            None::<String>,
        ),
{
}

/// A copy whose key strokes cannot be sent fails, and leaves the clipboard
/// alone.
pub proof fn law_unsent_copy_fails(w: CopyWorld, s: CopyState, steps: nat)
    requires
        w.captured,
        !w.sent,
        steps >= 2,
    ensures
        copy_trace(w, s, CopyEvent::Captured(w.captured), steps).0 == seq![
            CopyAction::ReadBaseline,
            CopyAction::SendCopy,
            CopyAction::Fail,
        ],
        copy_trace(w, s, CopyEvent::Captured(w.captured), steps).1 is None,
{
    reveal_with_fuel(copy_trace, 3);
    assert(copy_trace(w, s, CopyEvent::Captured(w.captured), steps).0 =~= seq![
        CopyAction::ReadBaseline,
        CopyAction::SendCopy,
        CopyAction::Fail,
    ]);
}

/// The text on the clipboard goes up to the first zero in the block, or to its
/// end where there is none: nothing else ends it, and a zero always does.
pub proof fn law_clipboard_text_ends_at_the_first_zero(block: Option<&[u16]>, r: String, n: int)
    requires
        call_ensures(read_clipboard_unicode_text, (block,), r),
    ensures
        block is None ==> r@.len() == 0,
        block matches Some(b) ==> {
            0 <= n <= b@.len() && (forall|i: int| 0 <= i < n ==> #[trigger] b@[i] != 0) && (n
                == b@.len() || b@[n] == 0) ==> r@ == utf16_lossy(b@.take(n))
        },
{
    if let Some(b) = block {
        if 0 <= n <= b@.len() && (forall|i: int| 0 <= i < n ==> #[trigger] b@[i] != 0) && (n
            == b@.len() || b@[n] == 0) {
            lemma_units_before_nul(b@, n);
        }
    }
}

proof fn lemma_units_before_nul(block: Seq<u16>, n: int)
    requires
        0 <= n <= block.len(),
        forall|i: int| 0 <= i < n ==> #[trigger] block[i] != 0,
        n == block.len() || block[n] == 0,
    ensures
        units_before_nul(block) == n,
    decreases block.len(),
{
    if n > 0 {
        let rest = block.drop_first();
        assert(block[0] != 0);
        assert forall|i: int| 0 <= i < n - 1 implies #[trigger] rest[i] != 0 by {
            assert(rest[i] == block[i + 1]);
        }
        lemma_units_before_nul(rest, n - 1);
    }
}

/// A text without the null character that was put on the clipboard with a
/// terminator is read back whole, whatever line breaks or other characters it
/// has and whatever follows the terminator.
pub proof fn law_copied_text_is_read_back(
    text: Seq<char>,
    block: &[u16],
    after: Seq<u16>,
    r: String,
)
    requires
        forall|i: int| 0 <= i < text.len() ==> #[trigger] text[i] as int != 0,
        block@ == encoded(text) + seq![0u16] + after,
        call_ensures(read_clipboard_unicode_text, (Some(block),), r),
    ensures
        r@ == text,
{
    lemma_encoded_has_no_zero(text);
    let n = encoded(text).len() as int;
    assert(forall|i: int| 0 <= i < n ==> block@[i] == encoded(text)[i]);
    law_clipboard_text_ends_at_the_first_zero(Some(block), r, n);
    assert(block@.take(n) =~= encoded(text));
    law_decoding_undoes_encoding(text);
}

proof fn lemma_units_are_not_zero(c: char)
    requires
        c as int != 0,
    ensures
        forall|i: int|
            0 <= i < crate::text_laws::units_of(c).len()
                ==> #[trigger] crate::text_laws::units_of(c)[i] != 0,
{
    let units = crate::text_laws::units_of(c);
    if (c as int) < 0x1_0000 {
        assert(units[0] as int == c as int);
    } else {
        assert(units[0] as int == 0xd800 + (c as int - 0x1_0000) / 0x400);
        assert(units[1] as int == 0xdc00 + (c as int - 0x1_0000) % 0x400);
    }
}

proof fn lemma_encoded_has_no_zero(text: Seq<char>)
    requires
        forall|i: int| 0 <= i < text.len() ==> #[trigger] text[i] as int != 0,
    ensures
        forall|i: int| 0 <= i < encoded(text).len() ==> #[trigger] encoded(text)[i] != 0,
    decreases text.len(),
{
    if text.len() > 0 {
        let rest = text.skip(1);
        let first = crate::text_laws::units_of(text[0]);
        assert forall|i: int| 0 <= i < rest.len() implies #[trigger] rest[i] as int != 0 by {
            assert(rest[i] == text[i + 1]);
        }
        lemma_encoded_has_no_zero(rest);
        assert(text[0] as int != 0);
        lemma_units_are_not_zero(text[0]);
        assert forall|i: int| 0 <= i < encoded(text).len() implies #[trigger] encoded(text)[i]
            != 0 by {
            if i >= first.len() {
                assert(encoded(text)[i] == encoded(rest)[i - first.len()]);
            } else {
                assert(encoded(text)[i] == first[i]);
            }
        }
    }
}

/// The key strokes are those of Ctrl+C: Ctrl (0x11) goes down first and up
/// last, and C (0x43) goes down and up while it is down.
pub proof fn law_key_strokes_are_ctrl_c(strokes: Vec<KeyStroke>)
    requires
        call_ensures(send_ctrl_c, (), strokes),
    ensures
        strokes@ == seq![
            KeyStroke { key: 0x11, up: false },
            KeyStroke { key: 0x43, up: false },
            KeyStroke { key: 0x43, up: true },
            KeyStroke { key: 0x11, up: true },
        ],
{
}

/// The copy was sent where the system has taken every one of the key strokes.
pub proof fn law_copy_is_sent_where_all_strokes_are(strokes: Vec<KeyStroke>, sent: u32, r: bool)
    requires
        call_ensures(send_ctrl_c, (), strokes),
        call_ensures(ctrl_c_sent, (sent,), r),
    ensures
        r <==> sent == strokes@.len(),
        r <==> sent == 4,
{
}

/// A snapshot that was begun anew holds nothing of an earlier one; data that
/// could not be read or copied leave it as it is, others are added at its end.
pub proof fn law_snapshot_grows_by_what_is_copied(
    items: Seq<(u32, usize)>,
    ok: bool,
    format: u32,
    last_error: u32,
    handle: Option<usize>,
)
    ensures
        capture_items(items, CaptureEvent::Opened(ok)).len() == 0,
        capture_items(items, CaptureEvent::Listed { format, last_error }) == items,
        ({
            let after = capture_items(items, CaptureEvent::Copied { format, handle });
            match handle {
                Some(h) if h != 0 => {
                    &&& after.len() == items.len() + 1
                    &&& after.last() == (format, h)
                    &&& after.drop_last() == items
                },
                _ => after == items,
            }
        }),
{
}

/// What is said here of snapshots and restores holds of every call of
/// [`ClipboardSnapshot::capture`] and [`ClipboardSnapshot::restore`].
pub proof fn law_snapshots_keep_to_their_laws()
    ensures
        forall|snapshot: &mut ClipboardSnapshot, event: CaptureEvent, action: CaptureAction|
            #[trigger] call_ensures(ClipboardSnapshot::capture, (snapshot, event), action) ==> {
                &&& final(snapshot)@ == capture_items(snapshot@, event)
                &&& action == capture_action(event)
            },
        forall|
            snapshot: &mut ClipboardSnapshot,
            progress: &mut RestoreProgress,
            event: RestoreEvent,
            action: RestoreAction,
        | #[trigger]
            call_ensures(ClipboardSnapshot::restore, (snapshot, progress, event), action) ==> {
                &&& final(snapshot)@ == restore_items(snapshot@, event)
                &&& *final(progress) == restore_after(*progress, event)
                &&& action == restore_action(snapshot@, *progress, event)
            },
{
}

/// A new snapshot is empty, and a snapshot can be read item by item.
pub proof fn law_snapshots_can_be_read(
    new: ClipboardSnapshot,
    s: &ClipboardSnapshot,
    n: usize,
    i: usize,
    item: (u32, usize),
)
    requires
        call_ensures(ClipboardSnapshot::new, (), new),
        call_ensures(ClipboardSnapshot::len, (s,), n),
        i < n,
        call_ensures(ClipboardSnapshot::item, (s, i), item),
    ensures
        new@.len() == 0,
        n == s@.len(),
        item == s@[i as int],
        call_requires(ClipboardSnapshot::item, (s, i)),
{
}

/// What is said here of copies holds of every call of
/// [`get_selection_via_copy_preserving_clipboard`].
pub proof fn law_copies_keep_to_their_laws()
    ensures
        forall|state: &mut CopyState, event: CopyEvent, action: CopyAction| #[trigger]
            call_ensures(get_selection_via_copy_preserving_clipboard, (state, event), action) ==> {
                &&& *final(state) == copy_after(*state, event)
                &&& action == copy_action(*state, event)
            },
{
}

/// The numbers of the clipboard's text format and of the keys.
pub proof fn law_format_and_key_numbers()
    ensures
        crate::global::CF_UNICODETEXT_U32 == 13,
        crate::clipboard::VK_CONTROL == 0x11,
        crate::clipboard::VK_C == 0x43,
{
}

} // verus!
