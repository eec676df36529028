use paste_bypass::input_sim::{
    chars_of, key_events, key_pair, BatchOutcome, InputSimulator, InputSpeed, Key, KeyEvent,
    Pacing, SessionState,
};

fn down(key: Key) -> KeyEvent {
    KeyEvent { key, down: true }
}

fn up(key: Key) -> KeyEvent {
    KeyEvent { key, down: false }
}

#[test]
fn hi_newline_normal_profile() {
    let mut sim = InputSimulator::new();
    sim.set_speed_mode(InputSpeed::Normal);
    let mut session = sim.begin_typing("Hi\n");
    assert!(!session.is_finished());
    let events = session.next_batch();
    assert_eq!(
        events,
        vec![
            down(Key::Unicode('H')),
            up(Key::Unicode('H')),
            down(Key::Unicode('i')),
            up(Key::Unicode('i')),
            down(Key::Enter),
            up(Key::Enter),
        ]
    );
    assert_eq!(session.state, SessionState::Awaiting { submitted: 6 });
    let outcome = session.on_submitted(6);
    assert_eq!(
        outcome,
        BatchOutcome::Accepted {
            typed: 3,
            total: 3,
            progress: Some(100),
            batch_pause_ms: None,
            char_pause_ms: Some(10),
        }
    );
    assert!(session.is_finished());
}

#[test]
fn empty_text_submits_nothing() {
    let sim = InputSimulator::new();
    let session = sim.begin_typing("");
    assert!(session.is_finished());
    assert_eq!(session.typed, 0);
    assert_eq!(session.state, SessionState::Ready);
}

#[test]
fn turbo_101_chars_three_batches() {
    let mut sim = InputSimulator::new();
    sim.set_speed_mode(InputSpeed::Turbo);
    let text: String = std::iter::repeat('a').take(101).collect();
    let mut session = sim.begin_typing(&text);
    let mut sizes = Vec::new();
    let mut batch_pauses = Vec::new();
    let mut char_pauses = 0;
    while !session.is_finished() {
        let events = session.next_batch();
        sizes.push(events.len() / 2);
        match session.on_submitted(events.len()) {
            BatchOutcome::Accepted { batch_pause_ms, char_pause_ms, .. } => {
                if let Some(ms) = batch_pause_ms {
                    batch_pauses.push(ms);
                }
                if char_pause_ms.is_some() {
                    char_pauses += 1;
                }
            }
            BatchOutcome::Rejected { .. } => panic!("batch rejected"),
        }
    }
    assert_eq!(sizes, vec![50, 50, 1]);
    assert_eq!(batch_pauses, vec![10, 10]);
    assert_eq!(char_pauses, 0);
}

#[test]
fn batches_cover_text_in_order() {
    let mut sim = InputSimulator::new();
    sim.set_custom_params(0, 5, 0);
    let mut session = sim.begin_typing("abcdefghijkl");
    let mut typed = Vec::new();
    let mut sizes = Vec::new();
    while !session.is_finished() {
        let events = session.next_batch();
        sizes.push(events.len() / 2);
        for e in events.iter().filter(|e| e.down) {
            if let Key::Unicode(c) = e.key {
                typed.push(c);
            }
        }
        session.on_submitted(events.len());
    }
    assert_eq!(sizes, vec![5, 5, 2]);
    assert_eq!(typed.into_iter().collect::<String>(), "abcdefghijkl");
}

#[test]
fn partial_submission_stops_run() {
    let mut sim = InputSimulator::new();
    sim.set_custom_params(0, 2, 0);
    let mut session = sim.begin_typing("abcdef");
    let events = session.next_batch();
    assert_eq!(events.len(), 4);
    let outcome = session.on_submitted(3);
    assert_eq!(outcome, BatchOutcome::Rejected { accepted: 3, submitted: 4 });
    assert!(session.is_finished());
    assert_eq!(session.typed, 0);
    assert_eq!(session.state, SessionState::Failed { accepted: 3, submitted: 4 });
}

#[test]
fn slow_profile_pauses_after_each_batch() {
    let mut sim = InputSimulator::new();
    sim.set_speed_mode(InputSpeed::Slow);
    let mut session = sim.begin_typing("ab");
    let events = session.next_batch();
    assert_eq!(events.len(), 2);
    assert_eq!(
        session.on_submitted(2),
        BatchOutcome::Accepted {
            typed: 1,
            total: 2,
            progress: Some(50),
            batch_pause_ms: Some(300),
            char_pause_ms: Some(20),
        }
    );
    session.next_batch();
    assert_eq!(
        session.on_submitted(2),
        BatchOutcome::Accepted {
            typed: 2,
            total: 2,
            progress: Some(100),
            batch_pause_ms: None,
            char_pause_ms: Some(20),
        }
    );
}

#[test]
fn progress_every_tenth() {
    let mut sim = InputSimulator::new();
    sim.set_custom_params(0, 1, 0);
    let text: String = std::iter::repeat('x').take(22).collect();
    let mut session = sim.begin_typing(&text);
    let mut reported = Vec::new();
    while !session.is_finished() {
        let events = session.next_batch();
        if let BatchOutcome::Accepted { progress: Some(p), typed, .. } =
            session.on_submitted(events.len())
        {
            reported.push((typed, p));
        }
    }
    assert_eq!(reported, vec![(3, 13), (6, 27), (9, 40), (12, 54), (15, 68), (18, 81), (21, 95), (22, 100)]);
}

#[test]
fn unicode_and_line_breaks_map_to_keys() {
    assert_eq!(key_pair('中'), [down(Key::Unicode('中')), up(Key::Unicode('中'))]);
    assert_eq!(key_pair('😀'), [down(Key::Unicode('😀')), up(Key::Unicode('😀'))]);
    assert_eq!(key_pair('\n'), [down(Key::Enter), up(Key::Enter)]);
    assert_eq!(key_pair('\r'), [down(Key::Enter), up(Key::Enter)]);
    assert_eq!(key_pair(' '), [down(Key::Unicode(' ')), up(Key::Unicode(' '))]);
}

#[test]
fn key_events_of_a_range() {
    let chars = vec!['a', '\n', 'b', 'c'];
    assert_eq!(
        key_events(&chars, 1, 3),
        vec![down(Key::Enter), up(Key::Enter), down(Key::Unicode('b')), up(Key::Unicode('b'))]
    );
    assert_eq!(key_events(&chars, 2, 2), vec![]);
}

#[test]
fn chars_of_keeps_order() {
    assert_eq!(chars_of("héllo\r\n"), vec!['h', 'é', 'l', 'l', 'o', '\r', '\n']);
    assert_eq!(chars_of(""), Vec::<char>::new());
}

#[test]
fn presets_and_custom_params() {
    let mut sim = InputSimulator::with_delay(7);
    assert_eq!(sim.pacing(), Pacing { delay_ms: 7, batch_size: 1, batch_delay_ms: 0 });
    assert_eq!(sim.speed_mode, InputSpeed::Normal);
    sim.set_custom_params(99, 33, 77);
    sim.set_speed_mode(InputSpeed::Fast);
    assert_eq!(sim.pacing(), Pacing { delay_ms: 2, batch_size: 20, batch_delay_ms: 20 });
    assert_eq!(Pacing::for_speed(InputSpeed::Slow), Pacing { delay_ms: 20, batch_size: 1, batch_delay_ms: 300 });
    assert_eq!(Pacing::for_speed(InputSpeed::Normal), Pacing { delay_ms: 10, batch_size: 5, batch_delay_ms: 50 });
    assert_eq!(Pacing::for_speed(InputSpeed::Turbo), Pacing { delay_ms: 0, batch_size: 50, batch_delay_ms: 10 });
    sim.set_delay(4);
    assert_eq!(sim.pacing(), Pacing { delay_ms: 4, batch_size: 20, batch_delay_ms: 20 });
    sim.set_custom_params(1, 2, 3);
    assert_eq!(sim.pacing(), Pacing { delay_ms: 1, batch_size: 2, batch_delay_ms: 3 });
    assert_eq!(sim.speed_mode, InputSpeed::Fast);
    let fresh = InputSimulator::new();
    assert_eq!(fresh.pacing(), Pacing { delay_ms: 10, batch_size: 1, batch_delay_ms: 0 });
}
