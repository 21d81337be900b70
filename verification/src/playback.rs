//! The fixed tune the bridge plays, and the schedule of actions that plays it.
//!
//! Playing a tune alternates sending messages with sleeping, so the library
//! computes the whole schedule and the caller performs it step by step.

use vstd::prelude::*;
use crate::message::{ShortMessage, note_on, note_off, spec_note_on, spec_note_off, NOTE_ON_STATUS};

verus! {

/// Length of one beat, in milliseconds.
pub const BEAT_MS: u64 = 150;

/// Pause before the first note, in milliseconds (four beats).
pub const LEAD_IN_MS: u64 = 600;

/// Pause after the last note, in milliseconds (one beat).
pub const TAIL_MS: u64 = 150;

/// A note of the tune: the key to press and how many beats to hold it.
#[derive(Clone, Copy, Debug, PartialEq, Eq, Structural)]
pub struct Note {
    pub key: u8,
    pub beats: u64,
}

/// A line the player announces while performing.
#[derive(Clone, Copy, Debug, PartialEq, Eq, Structural)]
pub enum Notice {
    ConnectionOpen,
    Closing,
    Closed,
}

/// The line printed for each notice.
pub open spec fn notice_text(n: Notice) -> Seq<char> {
    match n {
        Notice::ConnectionOpen => "Connection open. Listen!"@,
        Notice::Closing => "\nClosing connection"@,
        Notice::Closed => "Connection closed"@,
    }
}

impl Notice {
    /// The line printed for this notice.
    pub fn text(&self) -> (line: String)
        ensures
            line@ == notice_text(*self),
    {
        match self {
            Notice::ConnectionOpen => String::from_str("Connection open. Listen!"),
            Notice::Closing => String::from_str("\nClosing connection"),
            Notice::Closed => String::from_str("Connection closed"),
        }
    }
}

/// One step of a performance.
#[derive(Clone, Copy, Debug, PartialEq, Eq, Structural)]
pub enum Action {
    /// Print a notice.
    Announce(Notice),
    /// Send a message on the output connection, ignoring any send error.
    Send(ShortMessage),
    /// Sleep for this many milliseconds.
    Sleep(u64),
    /// Close the output connection.
    Close,
}

/// The tune: eight notes with their lengths in beats.
pub open spec fn spec_melody() -> Seq<Note> {
    seq![
        Note { key: 66, beats: 4 },
        Note { key: 65, beats: 3 },
        Note { key: 63, beats: 1 },
        Note { key: 61, beats: 6 },
        Note { key: 59, beats: 2 },
        Note { key: 58, beats: 4 },
        Note { key: 56, beats: 4 },
        Note { key: 54, beats: 4 },
    ]
}

/// Every note of `notes` can be held for its whole length without the
/// millisecond count overflowing.
pub open spec fn holds_fit(notes: Seq<Note>) -> bool {
    forall|k: int| 0 <= k < notes.len() ==> #[trigger] notes[k].beats * 150 <= u64::MAX
}

/// The `j`-th of the three actions that play note `n`: press, hold, release.
pub open spec fn note_step(n: Note, j: int) -> Action {
    if j == 0 {
        Action::Send(spec_note_on(n.key))
    } else if j == 1 {
        Action::Sleep((n.beats * 150) as u64)
    } else {
        Action::Send(spec_note_off(n.key))
    }
}

/// The actions that play `notes` one after the other.
pub open spec fn tune_actions(notes: Seq<Note>) -> Seq<Action> {
    Seq::new(3 * notes.len(), |i: int| note_step(notes[i / 3], i % 3))
}

/// A whole performance of `notes`: announce, lead in, the tune, a final beat,
/// announce closing, close the connection if `close`, announce that it is closed.
pub open spec fn performance(notes: Seq<Note>, close: bool) -> Seq<Action> {
    seq![Action::Announce(Notice::ConnectionOpen), Action::Sleep(600)]
        + tune_actions(notes)
        + seq![Action::Sleep(150), Action::Announce(Notice::Closing)]
        + (if close { seq![Action::Close] } else { Seq::empty() })
        + seq![Action::Announce(Notice::Closed)]
}

/// The tune the bridge plays.
pub fn melody() -> (notes: Vec<Note>)
    ensures
        notes@ == spec_melody(),
{
    let mut notes: Vec<Note> = Vec::new();
    notes.push(Note { key: 66, beats: 4 });
    notes.push(Note { key: 65, beats: 3 });
    notes.push(Note { key: 63, beats: 1 });
    notes.push(Note { key: 61, beats: 6 });
    notes.push(Note { key: 59, beats: 2 });
    notes.push(Note { key: 58, beats: 4 });
    notes.push(Note { key: 56, beats: 4 });
    notes.push(Note { key: 54, beats: 4 });
    notes
}

/// The three actions that play one note: press it, hold it for its beats,
/// release it.
pub fn note_actions(note: Note) -> (actions: Vec<Action>)
    requires
        note.beats * 150 <= u64::MAX,
    ensures
        actions@ == seq![note_step(note, 0), note_step(note, 1), note_step(note, 2)],
        actions@ == seq![
            Action::Send(ShortMessage { status: 0x90, data1: note.key, data2: 0x64 }),
            Action::Sleep((note.beats * 150) as u64),
            Action::Send(ShortMessage { status: 0x80, data1: note.key, data2: 0x64 }),
        ],
{
    let mut actions: Vec<Action> = Vec::new();
    actions.push(Action::Send(note_on(note.key)));
    actions.push(Action::Sleep(note.beats * BEAT_MS));
    actions.push(Action::Send(note_off(note.key)));
    actions
}

/// The schedule that performs `notes`, closing the connection at the end
/// when `close` is set.
pub fn performance_plan(notes: &Vec<Note>, close: bool) -> (plan: Vec<Action>)
    requires
        holds_fit(notes@),
        3 * notes@.len() + 6 <= usize::MAX,
    ensures
        plan@ == performance(notes@, close),
{
    let mut plan: Vec<Action> = Vec::new();
    plan.push(Action::Announce(Notice::ConnectionOpen));
    plan.push(Action::Sleep(LEAD_IN_MS));
    let ghost head = plan@;
    let mut k: usize = 0;
    while k < notes.len()
        invariant
            k <= notes@.len(),
            holds_fit(notes@),
            head == seq![Action::Announce(Notice::ConnectionOpen), Action::Sleep(600)],
            plan@ =~= head + tune_actions(notes@.take(k as int)),
        decreases notes@.len() - k,
    {
        let note = notes[k];
        assert(notes@[k as int].beats * 150 <= u64::MAX);
        let step = note_actions(note);
        plan.push(step[0]);
        plan.push(step[1]);
        plan.push(step[2]);
        proof {
            let prev = notes@.take(k as int);
            let next = notes@.take(k + 1);
            assert(tune_actions(next) =~= tune_actions(prev) + seq![
                note_step(note, 0),
                note_step(note, 1),
                note_step(note, 2),
            ]) by {
                assert forall|i: int| 0 <= i < 3 * next.len() implies #[trigger] tune_actions(next)[i]
                    == (tune_actions(prev) + seq![note_step(note, 0), note_step(note, 1), note_step(note, 2)])[i] by {
                    if i < 3 * prev.len() {
                        assert(i / 3 < prev.len());
                        assert(next[i / 3] == prev[i / 3]);
                    } else {
                        assert(i / 3 == k);
                    }
                }
            }
        }
        k = k + 1;
    }
    assert(notes@.take(notes@.len() as int) =~= notes@);
    plan.push(Action::Sleep(TAIL_MS));
    plan.push(Action::Announce(Notice::Closing));
    if close {
        plan.push(Action::Close);
    }
    plan.push(Action::Announce(Notice::Closed));
    plan
}

/// The schedule of the player that closes the connection it opened itself.
pub fn play_plan() -> (plan: Vec<Action>)
    ensures
        plan@ == performance(spec_melody(), true),
{
    let notes = melody();
    performance_plan(&notes, true)
}

/// The schedule of the player on a connection that the caller keeps open.
pub fn play_two_plan() -> (plan: Vec<Action>)
    ensures
        plan@ == performance(spec_melody(), false),
{
    let notes = melody();
    performance_plan(&notes, false)
}

/// Milliseconds a schedule spends sleeping.
pub open spec fn total_sleep(plan: Seq<Action>) -> int
    decreases plan.len(),
{
    if plan.len() == 0 {
        0
    } else {
        total_sleep(plan.drop_last()) + match plan.last() {
            Action::Sleep(ms) => ms as int,
            _ => 0,
        }
    }
}

/// Beats of all the notes together.
pub open spec fn total_beats(notes: Seq<Note>) -> int
    decreases notes.len(),
{
    if notes.len() == 0 {
        0
    } else {
        total_beats(notes.drop_last()) + notes.last().beats
    }
}

proof fn lemma_total_sleep_append(a: Seq<Action>, b: Seq<Action>)
    ensures
        total_sleep(a + b) == total_sleep(a) + total_sleep(b),
    decreases b.len(),
{
    if b.len() > 0 {
        lemma_total_sleep_append(a, b.drop_last());
        assert((a + b).drop_last() =~= a + b.drop_last());
    } else {
        assert(a + b =~= a);
    }
}

proof fn lemma_tune_actions_push(notes: Seq<Note>, n: Note)
    ensures
        tune_actions(notes.push(n)) =~= tune_actions(notes) + seq![
            note_step(n, 0),
            note_step(n, 1),
            note_step(n, 2),
        ],
{
    let next = notes.push(n);
    let rhs = tune_actions(notes) + seq![note_step(n, 0), note_step(n, 1), note_step(n, 2)];
    assert forall|i: int| 0 <= i < 3 * next.len() implies #[trigger] tune_actions(next)[i] == rhs[i] by {
        if i < 3 * notes.len() {
            assert(i / 3 < notes.len());
        } else {
            assert(i / 3 == notes.len());
        }
    }
}

proof fn lemma_tune_sleep(notes: Seq<Note>)
    requires
        holds_fit(notes),
    ensures
        total_sleep(tune_actions(notes)) == 150 * total_beats(notes),
    decreases notes.len(),
{
    if notes.len() == 0 {
        assert(tune_actions(notes) =~= Seq::<Action>::empty());
    } else {
        let init = notes.drop_last();
        let n = notes.last();
        assert(init.push(n) =~= notes);
        assert(holds_fit(init)) by {
            assert forall|k: int| 0 <= k < init.len() implies #[trigger] init[k].beats * 150 <= u64::MAX by {
                assert(init[k] == notes[k]);
            }
        }
        assert(n.beats * 150 <= u64::MAX) by {
            assert(notes[notes.len() - 1] == n);
        }
        lemma_tune_sleep(init);
        lemma_tune_actions_push(init, n);
        let three = seq![note_step(n, 0), note_step(n, 1), note_step(n, 2)];
        lemma_total_sleep_append(tune_actions(init), three);
        assert(three.drop_last().drop_last().drop_last() =~= Seq::<Action>::empty());
        assert(three.drop_last().drop_last() =~= seq![note_step(n, 0)]);
        assert(three.drop_last() =~= seq![note_step(n, 0), note_step(n, 1)]);
        assert(total_sleep(three) == n.beats * 150) by {
            reveal_with_fuel(total_sleep, 4);
        }
    }
}

/// A performance sleeps four beats before the tune, each note's beats while
/// it sounds, and one beat after it: 150 ms per beat in all.
pub proof fn lemma_performance_duration(notes: Seq<Note>, close: bool)
    requires
        holds_fit(notes),
    ensures
        total_sleep(performance(notes, close)) == 750 + 150 * total_beats(notes),
{
    let lead = seq![Action::Announce(Notice::ConnectionOpen), Action::Sleep(600)];
    let tail = seq![Action::Sleep(150), Action::Announce(Notice::Closing)];
    let shut: Seq<Action> = if close { seq![Action::Close] } else { Seq::empty() };
    let last = seq![Action::Announce(Notice::Closed)];
    lemma_tune_sleep(notes);
    lemma_total_sleep_append(lead, tune_actions(notes));
    lemma_total_sleep_append(lead + tune_actions(notes), tail);
    lemma_total_sleep_append(lead + tune_actions(notes) + tail, shut);
    lemma_total_sleep_append(lead + tune_actions(notes) + tail + shut, last);
    assert(lead.drop_last().drop_last() =~= Seq::<Action>::empty());
    assert(lead.drop_last() =~= seq![Action::Announce(Notice::ConnectionOpen)]);
    assert(total_sleep(lead) == 600) by {
        reveal_with_fuel(total_sleep, 3);
    }
    assert(tail.drop_last().drop_last() =~= Seq::<Action>::empty());
    assert(tail.drop_last() =~= seq![Action::Sleep(150)]);
    assert(total_sleep(tail) == 150) by {
        reveal_with_fuel(total_sleep, 3);
    }
    assert(total_sleep(shut) == 0) by {
        if close {
            assert(shut.drop_last() =~= Seq::<Action>::empty());
            reveal_with_fuel(total_sleep, 2);
        }
    }
    assert(last.drop_last() =~= Seq::<Action>::empty());
    assert(total_sleep(last) == 0);
}

/// Every note the performance presses is held, then released: two steps after
/// a note-on message comes the note-off message for the same key, with a sleep
/// between them.
pub proof fn lemma_every_press_is_released(notes: Seq<Note>, close: bool, i: int)
    requires
        0 <= i < performance(notes, close).len(),
        performance(notes, close)[i] matches Action::Send(m) && m.status == NOTE_ON_STATUS,
    ensures
        i + 2 < performance(notes, close).len(),
        performance(notes, close)[i + 1] is Sleep,
        performance(notes, close)[i + 2] == Action::Send(
            spec_note_off(performance(notes, close)[i]->Send_0.data1),
        ),
{
    let p = performance(notes, close);
    let t = tune_actions(notes);
    let n = 3 * notes.len();
    assert(p.len() == n + 5 + (if close { 1int } else { 0int }));
    if i < 2 {
        assert(false);
    } else if i >= 2 + n {
        assert(false);
    } else {
        let j = i - 2;
        assert(p[i] == t[j]);
        assert(j % 3 == 0) by {
            if j % 3 == 1 {
                assert(t[j] is Sleep);
            } else if j % 3 == 2 {
                assert(t[j] == Action::Send(spec_note_off(notes[j / 3].key)));
            }
        }
        assert((j + 1) / 3 == j / 3 && (j + 1) % 3 == 1);
        assert((j + 2) / 3 == j / 3 && (j + 2) % 3 == 2);
        assert(p[i + 1] == t[j + 1]);
        assert(p[i + 2] == t[j + 2]);
    }
}

/// The player that keeps the connection open performs exactly what the
/// closing player performs, less the one step that closes the connection.
pub proof fn lemma_open_performance_omits_only_close(notes: Seq<Note>)
    ensures
        performance(notes, true)[performance(notes, true).len() - 2] == Action::Close,
        performance(notes, false) =~= performance(notes, true).remove(
            performance(notes, true).len() - 2,
        ),
{
}

/// A well-formed channel message: a status byte (high bit set) followed by
/// two data bytes (high bit clear).
pub open spec fn well_formed(m: ShortMessage) -> bool {
    m.status >= 0x80 && m.data1 < 0x80 && m.data2 < 0x80
}

/// Every message a performance sends is a well-formed MIDI message when the
/// keys of its notes are MIDI key numbers (below 128); the tune's keys are.
pub proof fn lemma_performance_sends_well_formed(notes: Seq<Note>, close: bool)
    requires
        forall|k: int| 0 <= k < notes.len() ==> #[trigger] notes[k].key < 0x80,
    ensures
        forall|i: int|
            0 <= i < performance(notes, close).len() && performance(notes, close)[i] is Send
                ==> well_formed(#[trigger] performance(notes, close)[i]->Send_0),
        forall|k: int| 0 <= k < spec_melody().len() ==> #[trigger] spec_melody()[k].key < 0x80,
{
    let p = performance(notes, close);
    let t = tune_actions(notes);
    assert forall|i: int| 0 <= i < p.len() && p[i] is Send implies well_formed(#[trigger] p[i]->Send_0) by {
        if 2 <= i < 2 + t.len() {
            assert(p[i] == t[i - 2]);
            assert(notes[(i - 2) / 3].key < 0x80);
        }
    }
}

/// The layout of a performance of `notes`: it announces the open
/// connection, sleeps 600 ms, then for the k-th note sends note-on
/// `[0x90, key, 0x64]` of that note's own key, sleeps its beats times 150 ms
/// and sends note-off `[0x80, key, 0x64]` of the same key; then it sleeps
/// 150 ms, announces closing, closes the connection only when `close`, and
/// announces that the connection is closed.
pub proof fn lemma_performance_layout(notes: Seq<Note>, close: bool)
    requires
        holds_fit(notes),
    ensures
        performance(notes, close).len() == 3 * notes.len() + 5 + (if close { 1int } else { 0int }),
        performance(notes, close)[0] == Action::Announce(Notice::ConnectionOpen),
        performance(notes, close)[1] == Action::Sleep(600),
        forall|k: int|
            0 <= k < notes.len() ==> {
                &&& #[trigger] performance(notes, close)[2 + 3 * k] == Action::Send(
                    ShortMessage { status: 0x90, data1: notes[k].key, data2: 0x64 },
                )
                &&& performance(notes, close)[3 + 3 * k] matches Action::Sleep(ms) && ms == notes[k].beats
                    * 150
                &&& performance(notes, close)[4 + 3 * k] == Action::Send(
                    ShortMessage { status: 0x80, data1: notes[k].key, data2: 0x64 },
                )
            },
        performance(notes, close)[2 + 3 * notes.len() as int] == Action::Sleep(150),
        performance(notes, close)[3 + 3 * notes.len() as int] == Action::Announce(Notice::Closing),
        close ==> performance(notes, close)[4 + 3 * notes.len() as int] == Action::Close,
        performance(notes, close).last() == Action::Announce(Notice::Closed),
        forall|i: int|
            0 <= i < performance(notes, close).len() && #[trigger] performance(notes, close)[i]
                == Action::Close ==> close && i == 4 + 3 * notes.len(),
{
    let p = performance(notes, close);
    let t = tune_actions(notes);
    assert forall|k: int| 0 <= k < notes.len() implies {
        &&& #[trigger] p[2 + 3 * k] == Action::Send(
            ShortMessage { status: 0x90, data1: notes[k].key, data2: 0x64 },
        )
        &&& p[3 + 3 * k] matches Action::Sleep(ms) && ms == notes[k].beats * 150
        &&& p[4 + 3 * k] == Action::Send(ShortMessage { status: 0x80, data1: notes[k].key, data2: 0x64 })
    } by {
        assert((3 * k) / 3 == k && (3 * k) % 3 == 0);
        assert((3 * k + 1) / 3 == k && (3 * k + 1) % 3 == 1);
        assert((3 * k + 2) / 3 == k && (3 * k + 2) % 3 == 2);
        assert(p[2 + 3 * k] == t[3 * k]);
        assert(p[3 + 3 * k] == t[3 * k + 1]);
        assert(p[4 + 3 * k] == t[3 * k + 2]);
        assert(notes[k].beats * 150 <= u64::MAX);
    }
    assert forall|i: int| 0 <= i < p.len() && #[trigger] p[i] == Action::Close implies close && i == 4
        + 3 * notes.len() by {
        if 2 <= i < 2 + t.len() {
            assert(p[i] == t[i - 2]);
        }
    }
}

} // verus!
