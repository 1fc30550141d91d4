use dropbear_unlock::attempt::{Attempt, Setup, Stage};
use dropbear_unlock::layout::{centered_margin, centered_rect, Area};
use dropbear_unlock::machine::{chunk_event, Event, Note, Outcome, Phase, Reaction, UnlockMachine};
use dropbear_unlock::state::{AppState, Next, PASSPHRASE_REFUSED, PUBKEY_ACCEPTED, PUBKEY_FAILED, RETRYING, TRYING};

fn chunk(s: &str) -> Event {
    Event::Chunk(s.to_string())
}

fn running_attempt(app: &mut AppState) -> Attempt {
    let mut a = Attempt::new();
    assert_eq!(a.on_setup(Setup::Connected, app), None);
    assert_eq!(a.on_setup(Setup::Authenticated, app), None);
    assert_eq!(a.on_setup(Setup::ChannelReady, app), None);
    assert_eq!(a.stage, Stage::Running);
    a
}

#[test]
fn unlocked_after_one_disk() {
    let mut m = UnlockMachine::new();
    let r = m.step(&chunk("login ok"));
    assert_eq!(r.note, Some(Note::RemoteOutput));
    assert!(!r.send_passphrase);
    let r = m.step(&chunk("Please unlock disk sda5:"));
    assert!(r.send_passphrase);
    assert_eq!(m.phase, Phase::PassphraseSent);
    // the echo of the passphrase line is drained, not classified
    let r = m.step(&chunk("hunter2\r\n"));
    assert_eq!(r.note, None);
    assert_eq!(m.phase, Phase::AwaitingResult);
    let r = m.step(&chunk("Unlocking... done"));
    assert_eq!(r.note, Some(Note::DiskUnlocked(1)));
    assert_eq!(m.phase, Phase::AwaitingPrompt);
    let r = m.step(&Event::Closed);
    assert_eq!(r.outcome, Some(Outcome::Unlocked));
    assert_eq!(m.successes, 1);
    assert_eq!(m.outcome(), Some(Outcome::Unlocked));
}

#[test]
fn rejected_passphrase_stops() {
    let mut m = UnlockMachine::new();
    assert!(m.step(&chunk("Please unlock disk sda5:")).send_passphrase);
    m.step(&Event::Empty);
    let r = m.step(&chunk("crypt: bad password, maximum tries exceeded"));
    assert_eq!(r.outcome, Some(Outcome::Rejected));
    assert_eq!(r.note, Some(Note::PassphraseRejected));
    assert_eq!(m.phase, Phase::Finished(Outcome::Rejected));

    let mut app = AppState::new();
    for c in "secret".chars() {
        app.type_char(c);
    }
    assert!(app.submit());
    assert_eq!(app.conclude(Outcome::Rejected), Next::AwaitPassphrase);
    assert_eq!(app.password_input, "");
    assert!(!app.password_submitted);
    assert_eq!(app.logs.last().unwrap(), PASSPHRASE_REFUSED);
}

#[test]
fn connect_error_retries() {
    let mut app = AppState::new();
    let mut a = Attempt::new();
    assert_eq!(a.on_setup(Setup::ConnectFailed, &mut app), Some(Outcome::ConnectionFailed));
    // the dialogue is never reached
    let r = a.on_event(&chunk("Please unlock disk sda5:"));
    assert!(!r.send_passphrase);
    assert_eq!(a.machine, UnlockMachine::new());
    assert_eq!(app.conclude(Outcome::ConnectionFailed), Next::RetryAfterBackoff);
    assert_eq!(app.logs, vec![RETRYING.to_string()]);
}

#[test]
fn closed_without_output_retries() {
    let mut app = AppState::new();
    let mut a = running_attempt(&mut app);
    let r = a.on_event(&Event::Closed);
    assert_eq!(r.outcome, Some(Outcome::ChannelClosed));
    assert_eq!(a.outcome(), Some(Outcome::ChannelClosed));
    assert_eq!(app.conclude(Outcome::ChannelClosed), Next::RetryAfterBackoff);
    assert_eq!(app.logs, vec![PUBKEY_ACCEPTED.to_string(), RETRYING.to_string()]);
}

#[test]
fn no_prompt_means_no_passphrase() {
    let mut m = UnlockMachine::new();
    for s in ["Begin: Loading essential drivers", "please unlock", "Please  unlock", "", "bad maximum"] {
        assert!(!m.step(&chunk(s)).send_passphrase);
    }
    assert!(!m.step(&Event::WouldBlock).send_passphrase);
    assert!(!m.step(&Event::Empty).send_passphrase);
    let r = m.step(&Event::Closed);
    assert!(!r.send_passphrase);
    assert_eq!(r.outcome, Some(Outcome::ChannelClosed));
}

#[test]
fn rejection_after_successes_is_still_rejected() {
    let mut m = UnlockMachine::new();
    m.step(&chunk("Please unlock disk sda5:"));
    m.step(&Event::Empty);
    m.step(&chunk("cryptsetup: sda5_crypt set up successfully"));
    m.step(&chunk("Please unlock disk sdb1:"));
    m.step(&Event::Empty);
    let r = m.step(&chunk("No key available; bad passphrase"));
    assert_eq!(r.outcome, Some(Outcome::Rejected));
    assert_eq!(m.successes, 1);
    assert_eq!(m.step(&Event::Closed).outcome, Some(Outcome::Rejected));
}

#[test]
fn exhausted_marker_alone_rejects() {
    let mut m = UnlockMachine::new();
    m.step(&chunk("Please unlock disk sda5:"));
    m.step(&Event::Empty);
    assert_eq!(m.step(&chunk("maximum number of tries exceeded")).outcome, Some(Outcome::Rejected));
}

#[test]
fn successes_are_counted() {
    let mut m = UnlockMachine::new();
    m.step(&chunk("Please unlock disk sda5:"));
    m.step(&Event::Empty);
    // a success chunk that also holds the next prompt answers it at once
    let r = m.step(&chunk("sda5_crypt set up\nPlease unlock disk sdb1:"));
    assert_eq!(r.note, Some(Note::DiskUnlocked(1)));
    assert!(r.send_passphrase);
    m.step(&chunk("echo"));
    assert_eq!(m.step(&chunk("sdb1_crypt set up")).note, Some(Note::DiskUnlocked(2)));
    assert_eq!(m.step(&Event::Closed).outcome, Some(Outcome::Unlocked));
    assert_eq!(m.successes, 2);
}

#[test]
fn empty_chunk_is_no_data() {
    let mut m = UnlockMachine::new();
    m.step(&chunk("Please unlock disk sda5:"));
    m.step(&Event::Empty);
    let r = m.step(&chunk(""));
    assert_eq!(r, m.step(&Event::Empty));
    assert_eq!(m.phase, Phase::AwaitingResult);
    assert_eq!(m.successes, 0);
}

#[test]
fn would_block_pauses() {
    let mut m = UnlockMachine::new();
    let r = m.step(&Event::WouldBlock);
    assert_eq!(r, Reaction { note: None, send_passphrase: false, pause: true, outcome: None });
    assert_eq!(m, UnlockMachine::new());
}

#[test]
fn cancel_in_every_phase() {
    let mut a = UnlockMachine::new();
    assert_eq!(a.step(&Event::Cancel).outcome, Some(Outcome::Cancelled));
    let mut b = UnlockMachine::new();
    b.step(&chunk("Please unlock disk sda5:"));
    let r = b.step(&Event::Cancel);
    assert_eq!(r.outcome, Some(Outcome::Cancelled));
    assert!(!r.send_passphrase);
    assert!(!b.step(&chunk("Please unlock disk sdb1:")).send_passphrase);
    let mut c = UnlockMachine::new();
    c.step(&chunk("Please unlock disk sda5:"));
    c.step(&Event::Empty);
    c.step(&chunk("done"));
    assert_eq!(c.step(&Event::Cancel).outcome, Some(Outcome::Cancelled));
    assert_eq!(c.successes, 1);
    assert_eq!(c.phase, Phase::Finished(Outcome::Cancelled));
    let mut app = AppState::new();
    assert_eq!(app.conclude(Outcome::Cancelled), Next::Stop);
    assert!(app.logs.is_empty());
}

#[test]
fn success_rearms_prompt_detection() {
    let mut m = UnlockMachine::new();
    m.step(&chunk("Please unlock disk sda5:"));
    m.step(&Event::Empty);
    m.step(&chunk("sda5_crypt set up"));
    assert_eq!(m.phase, Phase::AwaitingPrompt);
    let mut fresh = UnlockMachine::new();
    for s in ["some output", "Please unlock disk sdb1:"] {
        assert_eq!(m.step(&chunk(s)).send_passphrase, fresh.step(&chunk(s)).send_passphrase);
    }
    assert_eq!(m.phase, fresh.phase);
}

#[test]
fn lossy_decoding_of_chunks() {
    match chunk_event(b"Please unlock \xff disk") {
        Event::Chunk(s) => assert_eq!(s, "Please unlock \u{fffd} disk"),
        _ => panic!("not a chunk"),
    }
    let mut m = UnlockMachine::new();
    assert!(m.step(&chunk_event(b"\xfe\xffPlease unlock disk sda5:")).send_passphrase);
}

#[test]
fn passphrase_trimmed_before_sending() {
    let mut app = AppState::new();
    for c in "pass word \t ".chars() {
        app.type_char(c);
    }
    assert_eq!(app.passphrase_to_send(), "pass word");
    assert_eq!(app.password_input, "pass word \t ");
}

#[test]
fn typing_and_submitting() {
    let mut app = AppState::new();
    assert!(!app.submit());
    app.type_char('a');
    app.type_char('b');
    app.backspace();
    app.type_char('c');
    assert_eq!(app.password_input, "ac");
    assert!(app.submit());
    assert!(!app.submit());
    assert_eq!(app.logs, vec![TRYING.to_string()]);
    app.type_char('x');
    app.backspace();
    assert_eq!(app.password_input, "ac");
    assert!(app.wants_attempt());
    app.toggle_show();
    assert!(app.show_password);
    assert_eq!(app.conclude(Outcome::Unlocked), Next::Stop);
    assert!(app.unlocked);
    assert!(!app.wants_attempt());
}

#[test]
fn backspace_on_empty_input() {
    let mut app = AppState::new();
    app.backspace();
    assert_eq!(app.password_input, "");
}

#[test]
fn auth_refused_retries() {
    let mut app = AppState::new();
    let mut a = Attempt::new();
    a.on_setup(Setup::Connected, &mut app);
    assert_eq!(a.on_setup(Setup::AuthRefused, &mut app), Some(Outcome::AuthRejected));
    assert_eq!(app.conclude(Outcome::AuthRejected), Next::RetryAfterBackoff);
    assert_eq!(app.logs, vec![PUBKEY_FAILED.to_string(), RETRYING.to_string()]);
}

#[test]
fn setup_failure_is_a_connection_failure() {
    let mut app = AppState::new();
    let mut a = Attempt::new();
    a.on_setup(Setup::Connected, &mut app);
    a.on_setup(Setup::Authenticated, &mut app);
    assert_eq!(a.on_setup(Setup::SetupFailed, &mut app), Some(Outcome::ConnectionFailed));
    assert_eq!(a.on_setup(Setup::ChannelReady, &mut app), Some(Outcome::ConnectionFailed));
}

#[test]
fn attempt_runs_the_dialogue() {
    let mut app = AppState::new();
    let mut a = running_attempt(&mut app);
    assert!(a.on_event(&chunk("Please unlock disk sda5:")).send_passphrase);
    a.on_event(&Event::Empty);
    a.on_event(&chunk("done"));
    assert_eq!(a.on_event(&Event::Closed).outcome, Some(Outcome::Unlocked));
    assert_eq!(a.stage, Stage::Over(Outcome::Unlocked));
    assert_eq!(a.machine.successes, 1);
}

#[test]
fn centred_band_margins() {
    assert_eq!(centered_margin(40), 30);
    assert_eq!(centered_margin(10), 45);
    assert_eq!(centered_margin(100), 0);
    assert_eq!(centered_margin(0), 50);
    assert_eq!(centered_margin(33), 33);
}

#[test]
fn centred_rect_in_square() {
    let r = Area { x: 0, y: 0, width: 100, height: 100 };
    assert_eq!(centered_rect(40, 10, r), Area { x: 30, y: 45, width: 40, height: 10 });
    let s = Area { x: 10, y: 20, width: 200, height: 50 };
    assert_eq!(centered_rect(50, 100, s), Area { x: 60, y: 20, width: 100, height: 50 });
}

#[test]
fn masked_input_hides_each_character() {
    let mut app = AppState::new();
    for c in "pä ss".chars() {
        app.type_char(c);
    }
    assert_eq!(app.visible_input(), "*****");
    app.toggle_show();
    assert_eq!(app.visible_input(), "pä ss");
    assert_eq!(AppState::new().visible_input(), "");
}

#[test]
fn recent_logs_newest_first() {
    let mut app = AppState::new();
    assert!(app.recent_logs(10).is_empty());
    for i in 0..12 {
        app.log(format!("line {}", i));
    }
    let r = app.recent_logs(10);
    assert_eq!(r.len(), 10);
    assert_eq!(r[0], "line 11");
    assert_eq!(r[9], "line 2");
    assert_eq!(app.recent_logs(0).len(), 0);
    assert_eq!(app.recent_logs(20).len(), 12);
}
