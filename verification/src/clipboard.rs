//! Reading a selection through the clipboard, and leaving the clipboard as it
//! was.

use vstd::prelude::*;

use crate::text::{blank, text_of_utf16};

verus! {

/// How often the clipboard is tried before a restore is given up.
pub const RESTORE_ATTEMPTS: u32 = 5;

/// How often the clipboard is polled for the copied selection.
pub const COPY_POLLS: u32 = 30;

/// The pause between two tries or polls, in milliseconds.
pub const CLIPBOARD_PAUSE_MS: u64 = 10;

pub const VK_CONTROL: u16 = 0x11;

pub const VK_C: u16 = 0x43;

/// Copies of what was on the clipboard: formats with their data handles.
#[derive(Debug, PartialEq, Eq)]
pub struct ClipboardSnapshot {
    items: Vec<(u32, usize)>,
}

impl View for ClipboardSnapshot {
    type V = Seq<(u32, usize)>;

    closed spec fn view(&self) -> Seq<(u32, usize)> {
        self.items@
    }
}

/// An answer of the system while a snapshot is taken.
#[derive(Clone, Copy, Debug, PartialEq, Eq, Structural)]
pub enum CaptureEvent {
    /// The clipboard was opened, or not.
    Opened(bool),
    /// The next format on the clipboard, or 0, with the error code of the
    /// call.
    Listed { format: u32, last_error: u32 },
    /// The handle of a copy of the data in `format`; `None` where the data
    /// could not be read, 0 where they could not be copied.
    Copied { format: u32, handle: Option<usize> },
}

/// What to ask of the system while a snapshot is taken.
#[derive(Clone, Copy, Debug, PartialEq, Eq, Structural)]
pub enum CaptureAction {
    /// Get the format that follows this one.
    List { after: u32 },
    /// Copy the data in this format.
    Copy { format: u32 },
    /// Close the clipboard: the snapshot is complete.
    Keep,
    /// Close the clipboard: there is no snapshot.
    Discard,
    /// There is no snapshot, and nothing to close.
    Fail,
}

/// How far the opening of the clipboard for a restore has come.
#[derive(Clone, Copy, Debug, PartialEq, Eq, Structural)]
pub struct RestoreProgress {
    /// How often the clipboard could not be opened.
    pub attempts: u32,
}

/// What happened while a snapshot is restored.
#[derive(Clone, Copy, Debug, PartialEq, Eq, Structural)]
pub enum RestoreEvent {
    Begin,
    /// The clipboard was opened, or not.
    Opened(bool),
    /// A pause is over.
    Rested,
    /// The clipboard was emptied.
    Emptied,
    /// An item was put on the clipboard.
    Placed,
}

/// What to do next to restore a snapshot.
#[derive(Clone, Copy, Debug, PartialEq, Eq, Structural)]
pub enum RestoreAction {
    Open,
    /// Pause for so many milliseconds.
    Rest(u64),
    Empty,
    /// Put this item on the clipboard.
    Place { format: u32, handle: usize },
    /// Close the clipboard: the snapshot is restored.
    Close,
    /// Leave the clipboard as it is.
    GiveUp,
}

/// The items of a snapshot after `event`.
pub open spec fn capture_items(items: Seq<(u32, usize)>, event: CaptureEvent) -> Seq<(u32, usize)> {
    match event {
        CaptureEvent::Opened(_) => Seq::empty(),
        CaptureEvent::Copied { format, handle: Some(h) } if h != 0 => items.push((format, h)),
        _ => items,
    }
}

/// What to ask after `event` while a snapshot is taken.
pub open spec fn capture_action(event: CaptureEvent) -> CaptureAction {
    match event {
        CaptureEvent::Opened(ok) => if ok {
            CaptureAction::List { after: 0 }
        } else {
            CaptureAction::Fail
        },
        CaptureEvent::Listed { format, last_error } => if format != 0 {
            CaptureAction::Copy { format }
        } else if last_error == 0 {
            CaptureAction::Keep
        } else {
            CaptureAction::Discard
        },
        CaptureEvent::Copied { format, .. } => CaptureAction::List { after: format },
    }
}

/// How far the opening of the clipboard has come after `event`.
pub open spec fn restore_after(p: RestoreProgress, event: RestoreEvent) -> RestoreProgress {
    match event {
        RestoreEvent::Begin => RestoreProgress { attempts: 0 },
        RestoreEvent::Opened(false) if p.attempts < u32::MAX => RestoreProgress {
            attempts: (p.attempts + 1) as u32,
        },
        _ => p,
    }
}

/// The items that the snapshot still holds after `event`: each is given up as
/// it is put on the clipboard.
pub open spec fn restore_items(items: Seq<(u32, usize)>, event: RestoreEvent) -> Seq<(u32, usize)> {
    if (event is Emptied || event is Placed) && items.len() > 0 {
        items.drop_first()
    } else {
        items
    }
}

/// Putting an item on the clipboard.
pub open spec fn place(item: (u32, usize)) -> RestoreAction {
    RestoreAction::Place { format: item.0, handle: item.1 }
}

/// What to do after `event` to restore `items`.
pub open spec fn restore_action(
    items: Seq<(u32, usize)>,
    p: RestoreProgress,
    event: RestoreEvent,
) -> RestoreAction {
    match event {
        RestoreEvent::Begin => RestoreAction::Open,
        RestoreEvent::Opened(ok) => if ok {
            RestoreAction::Empty
        } else {
            RestoreAction::Rest(CLIPBOARD_PAUSE_MS)
        },
        RestoreEvent::Rested => if p.attempts < RESTORE_ATTEMPTS {
            RestoreAction::Open
        } else {
            RestoreAction::GiveUp
        },
        RestoreEvent::Emptied | RestoreEvent::Placed => if items.len() > 0 {
            place(items[0])
        } else {
            RestoreAction::Close
        },
    }
}

impl ClipboardSnapshot {
    /// A snapshot of nothing.
    pub fn new() -> (s: ClipboardSnapshot)
        ensures
            s@ == Seq::<(u32, usize)>::empty(),
    {
        ClipboardSnapshot { items: Vec::new() }
    }

    /// The number of formats in the snapshot.
    pub fn len(&self) -> (n: usize)
        ensures
            n == self@.len(),
    {
        self.items.len()
    }

    /// The format and the handle of item `i`.
    pub fn item(&self, i: usize) -> (r: (u32, usize))
        requires
            i < self@.len(),
        ensures
            r == self@[i as int],
    {
        self.items[i]
    }

    /// One step of taking a snapshot. Data that cannot be read or copied are
    /// left out.
    pub fn capture(&mut self, event: CaptureEvent) -> (action: CaptureAction)
        ensures
            final(self)@ == capture_items(old(self)@, event),
            action == capture_action(event),
    {
        match event {
            CaptureEvent::Opened(ok) => {
                self.items = Vec::new();
                if ok {
                    CaptureAction::List { after: 0 }
                } else {
                    CaptureAction::Fail
                }
            },
            CaptureEvent::Listed { format, last_error } => {
                if format != 0 {
                    CaptureAction::Copy { format }
                } else if last_error == 0 {
                    CaptureAction::Keep
                } else {
                    CaptureAction::Discard
                }
            },
            CaptureEvent::Copied { format, handle } => {
                if let Some(h) = handle {
                    if h != 0 {
                        self.items.push((format, h));
                    }
                }
                CaptureAction::List { after: format }
            },
        }
    }

    fn place_next(&mut self) -> (action: RestoreAction)
        ensures
            final(self)@ == restore_items(old(self)@, RestoreEvent::Placed),
            action == (if old(self)@.len() > 0 {
                place(old(self)@[0])
            } else {
                RestoreAction::Close
            }),
    {
        if self.items.len() > 0 {
            let (format, handle): (u32, usize) = self.items.remove(0);
            assert(self@ =~= old(self)@.drop_first());
            RestoreAction::Place { format, handle }
        } else {
            RestoreAction::Close
        }
    }

    /// One step of restoring a snapshot. The clipboard may be in use: it is
    /// tried a few times before it is left as it is. An item that is put on
    /// the clipboard is the snapshot's no longer.
    pub fn restore(&mut self, progress: &mut RestoreProgress, event: RestoreEvent) -> (action:
        RestoreAction)
        ensures
            final(self)@ == restore_items(old(self)@, event),
            *final(progress) == restore_after(*old(progress), event),
            action == restore_action(old(self)@, *old(progress), event),
    {
        match event {
            RestoreEvent::Begin => {
                progress.attempts = 0;
                RestoreAction::Open
            },
            RestoreEvent::Opened(ok) => {
                if ok {
                    RestoreAction::Empty
                } else {
                    progress.attempts = progress.attempts.saturating_add(1);
                    RestoreAction::Rest(CLIPBOARD_PAUSE_MS)
                }
            },
            RestoreEvent::Rested => {
                if progress.attempts < RESTORE_ATTEMPTS {
                    RestoreAction::Open
                } else {
                    RestoreAction::GiveUp
                }
            },
            RestoreEvent::Emptied => self.place_next(),
            RestoreEvent::Placed => self.place_next(),
        }
    }
}

/// How far the copying of a selection has come.
#[derive(Debug, PartialEq, Eq)]
pub struct CopyState {
    /// The clipboard's sequence number before the copy.
    pub baseline: u32,
    /// How many polls have seen that number.
    pub polls: u32,
    /// The copied text, unless it is blank.
    pub text: Option<String>,
}

/// What happened while a selection is copied.
#[derive(Debug, PartialEq, Eq)]
pub enum CopyEvent {
    /// A snapshot of the clipboard was taken, or not.
    Captured(bool),
    /// The clipboard's sequence number before the copy.
    Baseline(u32),
    /// All of the key strokes were sent, or not.
    Sent(bool),
    /// The sequence number now.
    Polled(u32),
    /// A pause is over.
    Rested,
    /// The sequence number once polling has ended.
    Settled(u32),
    /// The text on the clipboard; `None` where it could not be read.
    TextRead(Option<String>),
    /// The snapshot was restored.
    Restored,
}

/// What to do next to copy a selection.
#[derive(Clone, Copy, Debug, PartialEq, Eq, Structural)]
pub enum CopyAction {
    /// Read the sequence number before the copy.
    ReadBaseline,
    /// Send the key strokes.
    SendCopy,
    /// Read the sequence number.
    Poll,
    /// Pause for so many milliseconds.
    Rest(u64),
    /// Read the sequence number once more.
    Settle,
    /// Read the text on the clipboard.
    ReadText,
    /// Restore the snapshot.
    Restore,
    /// The copy failed.
    Fail,
    /// The copy is over; the state holds the text.
    Done,
}

/// `text` unless there is none or it is blank.
pub open spec fn unless_blank(text: Option<String>) -> Option<String> {
    match text {
        Some(t) if !crate::text::is_blank(t@) => text,
        _ => None,
    }
}

/// How far the copying has come after `event`.
pub open spec fn copy_after(s: CopyState, event: CopyEvent) -> CopyState {
    match event {
        CopyEvent::Captured(_) => CopyState { baseline: 0, polls: 0, text: None },
        CopyEvent::Baseline(n) => CopyState { baseline: n, ..s },
        CopyEvent::Polled(n) if n == s.baseline && s.polls < u32::MAX => CopyState {
            polls: (s.polls + 1) as u32,
            ..s
        },
        CopyEvent::TextRead(text) => CopyState { text: unless_blank(text), ..s },
        _ => s,
    }
}

/// What to do after `event` to copy a selection.
pub open spec fn copy_action(s: CopyState, event: CopyEvent) -> CopyAction {
    match event {
        CopyEvent::Captured(ok) => if ok {
            CopyAction::ReadBaseline
        } else {
            CopyAction::Done
        },
        CopyEvent::Baseline(_) => CopyAction::SendCopy,
        CopyEvent::Sent(ok) => if ok {
            CopyAction::Poll
        } else {
            CopyAction::Fail
        },
        CopyEvent::Polled(n) => if n != s.baseline {
            CopyAction::Settle
        } else {
            CopyAction::Rest(CLIPBOARD_PAUSE_MS)
        },
        CopyEvent::Rested => if s.polls < COPY_POLLS {
            CopyAction::Poll
        } else {
            CopyAction::Settle
        },
        CopyEvent::Settled(n) => if n == s.baseline {
            CopyAction::Restore
        } else {
            CopyAction::ReadText
        },
        CopyEvent::TextRead(_) => CopyAction::Restore,
        CopyEvent::Restored => CopyAction::Done,
    }
}

/// One step of copying a selection: take a snapshot of the clipboard, send
/// the key strokes, wait for the clipboard to change, read it, restore the
/// snapshot.
pub fn get_selection_via_copy_preserving_clipboard(state: &mut CopyState, event: CopyEvent) -> (
action: CopyAction)
    ensures
        *final(state) == copy_after(*old(state), event),
        action == copy_action(*old(state), event),
{
    match event {
        CopyEvent::Captured(ok) => {
            state.baseline = 0;
            state.polls = 0;
            state.text = None;
            if ok {
                CopyAction::ReadBaseline
            } else {
                CopyAction::Done
            }
        },
        CopyEvent::Baseline(n) => {
            state.baseline = n;
            CopyAction::SendCopy
        },
        CopyEvent::Sent(ok) => {
            if ok {
                CopyAction::Poll
            } else {
                CopyAction::Fail
            }
        },
        CopyEvent::Polled(n) => {
            if n != state.baseline {
                CopyAction::Settle
            } else {
                state.polls = state.polls.saturating_add(1);
                CopyAction::Rest(CLIPBOARD_PAUSE_MS)
            }
        },
        CopyEvent::Rested => {
            if state.polls < COPY_POLLS {
                CopyAction::Poll
            } else {
                CopyAction::Settle
            }
        },
        CopyEvent::Settled(n) => {
            if n == state.baseline {
                CopyAction::Restore
            } else {
                CopyAction::ReadText
            }
        },
        CopyEvent::TextRead(text) => {
            state.text = match text {
                Some(t) => if blank(t.as_str()) {
                    None
                } else {
                    Some(t)
                },
                None => None,
            };
            CopyAction::Restore
        },
        CopyEvent::Restored => CopyAction::Done,
    }
}

/// A key that goes down or up.
#[derive(Clone, Copy, Debug, PartialEq, Eq, Structural)]
pub struct KeyStroke {
    pub key: u16,
    pub up: bool,
}

/// The key strokes of Ctrl+C.
pub open spec fn ctrl_c() -> Seq<KeyStroke> {
    seq![
        KeyStroke { key: VK_CONTROL, up: false },
        KeyStroke { key: VK_C, up: false },
        KeyStroke { key: VK_C, up: true },
        KeyStroke { key: VK_CONTROL, up: true },
    ]
}

/// The key strokes that copy the selection.
pub fn send_ctrl_c() -> (strokes: Vec<KeyStroke>)
    ensures
        strokes@ == ctrl_c(),
{
    let mut strokes: Vec<KeyStroke> = Vec::new();
    strokes.push(KeyStroke { key: VK_CONTROL, up: false });
    strokes.push(KeyStroke { key: VK_C, up: false });
    strokes.push(KeyStroke { key: VK_C, up: true });
    strokes.push(KeyStroke { key: VK_CONTROL, up: true });
    strokes
}

/// Whether all of the key strokes of Ctrl+C were sent.
pub fn ctrl_c_sent(sent: u32) -> (r: bool)
    ensures
        r == (sent == ctrl_c().len()),
{
    sent == 4
}

/// The number of code units before the first zero.
pub open spec fn units_before_nul(block: Seq<u16>) -> nat
    decreases block.len(),
{
    if block.len() == 0 || block[0] == 0 {
        0
    } else {
        1 + units_before_nul(block.drop_first())
    }
}

/// The text in a block of clipboard memory, up to its terminator. `block` is
/// `None` where there is no memory to read.
pub fn read_clipboard_unicode_text(block: Option<&[u16]>) -> (r: String)
    ensures
        match block {
            Some(b) => r@ == crate::text::utf16_lossy(b@.take(units_before_nul(b@) as int)),
            None => r@ == Seq::<char>::empty(),
        },
{
    match block {
        Some(b) => {
            let mut len: usize = 0;
            assert(b@.skip(0) =~= b@);
            while len < b.len() && b[len] != 0
                invariant
                    len <= b@.len(),
                    units_before_nul(b@) == len + units_before_nul(b@.skip(len as int)),
                decreases b@.len() - len,
            {
                assert(b@.skip(len as int).drop_first() =~= b@.skip(len + 1));
                len += 1;
            }
            text_of_utf16(b, len)
        },
        None => String::new(),
    }
}

} // verus!
