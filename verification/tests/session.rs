use guessing_game::session::{
    compare_guess, Comparison, GuessSession, ReadEvent, SessionError, SessionOutcome,
    SessionState, Signal,
};

fn session_with(secret: u32) -> GuessSession {
    match GuessSession::new(secret) {
        Ok(s) => s,
        Err(_) => panic!("secret {} should be accepted", secret),
    }
}

fn lines(texts: &[&str]) -> Vec<String> {
    texts.iter().map(|t| String::from(*t)).collect()
}

#[test]
fn new_accepts_exactly_the_agreed_range() {
    assert!(matches!(GuessSession::new(0), Err(SessionError::SecretOutOfRange)));
    assert!(matches!(GuessSession::new(101), Err(SessionError::SecretOutOfRange)));
    assert!(GuessSession::new(1).is_ok());
    assert!(GuessSession::new(100).is_ok());
}

#[test]
fn three_way_comparison() {
    assert_eq!(compare_guess(10, 50), Comparison::Less);
    assert_eq!(compare_guess(90, 50), Comparison::Greater);
    assert_eq!(compare_guess(50, 50), Comparison::Equal);
}

#[test]
fn signals_follow_the_comparison() {
    let mut s = session_with(50);
    assert_eq!(s.step(ReadEvent::Line(String::from("10"))), Some(Signal::TooLow));
    assert_eq!(s.state(), SessionState::AwaitingInput);
    assert_eq!(s.step(ReadEvent::Line(String::from("90"))), Some(Signal::TooBig));
    assert_eq!(s.state(), SessionState::AwaitingInput);
    assert_eq!(s.step(ReadEvent::Line(String::from("50"))), Some(Signal::Correct));
    assert_eq!(s.state(), SessionState::Won);
}

#[test]
fn malformed_input_is_retried_without_a_comparison_signal() {
    let mut s = session_with(42);
    let (outcome, signals) = s.run(&lines(&["abc", "42"]));
    assert_eq!(outcome, SessionOutcome::Won);
    assert_eq!(signals, vec![Signal::InvalidEntry, Signal::Correct]);
}

#[test]
fn fatal_read_on_first_call_aborts_without_a_comparison() {
    let mut s = session_with(7);
    assert_eq!(s.step(ReadEvent::Closed), None);
    assert_eq!(s.state(), SessionState::Aborted);

    let mut s = session_with(7);
    let (outcome, signals) = s.run(&lines(&[]));
    assert_eq!(outcome, SessionOutcome::Aborted);
    assert!(signals.is_empty());
}

#[test]
fn session_wins_when_a_line_eventually_matches() {
    let mut s = session_with(42);
    let (outcome, signals) = s.run(&lines(&["5", "99", "41", "43", "42"]));
    assert_eq!(outcome, SessionOutcome::Won);
    assert_eq!(
        signals,
        vec![Signal::TooLow, Signal::TooBig, Signal::TooLow, Signal::TooBig, Signal::Correct]
    );
}

#[test]
fn session_aborts_when_the_script_runs_out() {
    let mut s = session_with(42);
    let (outcome, signals) = s.run(&lines(&["7", "abc"]));
    assert_eq!(outcome, SessionOutcome::Aborted);
    assert_eq!(signals, vec![Signal::TooLow, Signal::InvalidEntry]);
    assert_eq!(s.state(), SessionState::Aborted);
}

#[test]
fn boundary_secrets_win_on_the_first_valid_comparison() {
    let mut s = session_with(1);
    let (outcome, signals) = s.run(&lines(&["1"]));
    assert_eq!(outcome, SessionOutcome::Won);
    assert_eq!(signals, vec![Signal::Correct]);

    let mut s = session_with(100);
    let (outcome, signals) = s.run(&lines(&["100"]));
    assert_eq!(outcome, SessionOutcome::Won);
    assert_eq!(signals, vec![Signal::Correct]);
}

#[test]
fn the_secret_never_changes_during_a_session() {
    let mut s = session_with(33);
    let before = s.secret();
    s.step(ReadEvent::Line(String::from("10")));
    s.step(ReadEvent::Line(String::from("abc")));
    s.step(ReadEvent::Line(String::from("90")));
    assert_eq!(s.secret(), before);
    assert_eq!(s.secret(), 33);
}

#[test]
fn terminal_states_absorb_further_events() {
    let mut s = session_with(9);
    assert_eq!(s.step(ReadEvent::Line(String::from("9"))), Some(Signal::Correct));
    assert_eq!(s.state(), SessionState::Won);
    assert_eq!(s.step(ReadEvent::Line(String::from("10"))), None);
    assert_eq!(s.step(ReadEvent::Closed), None);
    assert_eq!(s.state(), SessionState::Won);
}

#[test]
fn started_session_holds_a_secret_in_range_and_can_be_won() {
    let mut s = GuessSession::start();
    let secret = s.secret();
    assert!((1..=100).contains(&secret));

    let every_value: Vec<String> = (1..=100).map(|v: u32| v.to_string()).collect();
    let (outcome, signals) = s.run(&every_value);
    assert_eq!(outcome, SessionOutcome::Won);
    assert_eq!(signals.len(), secret as usize);
    assert_eq!(signals.last(), Some(&Signal::Correct));
}
