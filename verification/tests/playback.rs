use midiex::message::{note_off, note_on, ShortMessage};
use midiex::playback::{
    melody, note_actions, performance_plan, play_plan, play_two_plan, Action, Note, Notice,
};

fn total_sleep(plan: &[Action]) -> u64 {
    plan.iter()
        .map(|a| match a {
            Action::Sleep(ms) => *ms,
            _ => 0,
        })
        .sum()
}

#[test]
fn note_on_bytes() {
    let m = note_on(66);
    assert_eq!(m, ShortMessage { status: 0x90, data1: 66, data2: 0x64 });
    assert_eq!(m.to_bytes(), vec![0x90u8, 66, 0x64]);
}

#[test]
fn note_off_bytes() {
    assert_eq!(note_off(54).to_bytes(), vec![0x80u8, 54, 0x64]);
}

#[test]
fn melody_is_the_eight_notes() {
    let keys: Vec<(u8, u64)> = melody().iter().map(|n| (n.key, n.beats)).collect();
    assert_eq!(
        keys,
        vec![(66, 4), (65, 3), (63, 1), (61, 6), (59, 2), (58, 4), (56, 4), (54, 4)]
    );
}

#[test]
fn note_actions_press_hold_release() {
    let a = note_actions(Note { key: 61, beats: 6 });
    assert_eq!(
        a,
        vec![
            Action::Send(note_on(61)),
            Action::Sleep(900),
            Action::Send(note_off(61)),
        ]
    );
}

#[test]
fn play_plan_shape() {
    let plan = play_plan();
    assert_eq!(plan.len(), 30);
    assert_eq!(plan[0], Action::Announce(Notice::ConnectionOpen));
    assert_eq!(plan[1], Action::Sleep(600));
    assert_eq!(plan[2], Action::Send(note_on(66)));
    assert_eq!(plan[3], Action::Sleep(600));
    assert_eq!(plan[4], Action::Send(note_off(66)));
    assert_eq!(plan[5], Action::Send(note_on(65)));
    assert_eq!(plan[6], Action::Sleep(450));
    assert_eq!(plan[25], Action::Send(note_off(54)));
    assert_eq!(plan[26], Action::Sleep(150));
    assert_eq!(plan[27], Action::Announce(Notice::Closing));
    assert_eq!(plan[28], Action::Close);
    assert_eq!(plan[29], Action::Announce(Notice::Closed));
}

#[test]
fn play_two_plan_keeps_connection_open() {
    let open = play_two_plan();
    let mut closing = play_plan();
    assert_eq!(open.len(), 29);
    assert!(!open.contains(&Action::Close));
    closing.remove(28);
    assert_eq!(open, closing);
}

#[test]
fn performance_lasts_all_beats() {
    // 4 beats lead-in, 28 beats of notes, 1 beat tail, 150 ms each.
    assert_eq!(total_sleep(&play_plan()), 4950);
    assert_eq!(total_sleep(&play_two_plan()), 4950);
}

#[test]
fn every_press_is_released() {
    let plan = play_plan();
    for (i, a) in plan.iter().enumerate() {
        if let Action::Send(m) = a {
            if m.status == 0x90 {
                assert!(matches!(plan[i + 1], Action::Sleep(_)));
                assert_eq!(plan[i + 2], Action::Send(note_off(m.data1)));
            }
        }
    }
}

#[test]
fn empty_performance() {
    let plan = performance_plan(&Vec::new(), false);
    assert_eq!(
        plan,
        vec![
            Action::Announce(Notice::ConnectionOpen),
            Action::Sleep(600),
            Action::Sleep(150),
            Action::Announce(Notice::Closing),
            Action::Announce(Notice::Closed),
        ]
    );
}

#[test]
fn notice_texts() {
    assert_eq!(Notice::ConnectionOpen.text(), "Connection open. Listen!");
    assert_eq!(Notice::Closing.text(), "\nClosing connection");
    assert_eq!(Notice::Closed.text(), "Connection closed");
}

#[test]
fn every_sent_message_is_well_formed() {
    for a in play_plan() {
        if let Action::Send(m) = a {
            assert!(m.status >= 0x80);
            assert!(m.data1 < 0x80 && m.data2 < 0x80);
        }
    }
}
