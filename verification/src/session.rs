//! The guessing session: a secret target drawn once, a retry loop over
//! input lines, and a three-way comparison that ends the session on an
//! exact match.
//!
//! The session is a state machine. From `AwaitingInput` one read event
//! moves it: a closed input stream aborts the session; a line that fails
//! to parse keeps it awaiting input and signals an invalid entry; a parsed
//! guess is compared to the secret and either keeps the session going
//! (too low, too big) or wins it. `Won` and `Aborted` are terminal.

use vstd::prelude::*;
use rand::Rng;
use crate::input::{parse_guess, spec_parse_guess};

verus! {

/// The lowest value a secret may take.
pub const SECRET_MIN: u32 = 1;

/// The highest value a secret may take.
pub const SECRET_MAX: u32 = 100;

/// The feedback emitted for one processed input line.
#[derive(Clone, Copy, Debug, PartialEq, Eq, Structural)]
pub enum Signal {
    /// The line did not parse as a guess; the session retries.
    InvalidEntry,
    /// The guess was below the secret.
    TooLow,
    /// The guess was above the secret.
    TooBig,
    /// The guess equalled the secret; the session is won.
    Correct,
}

/// The three-way result of comparing a guess to the secret.
#[derive(Clone, Copy, Debug, PartialEq, Eq, Structural)]
pub enum Comparison {
    Less,
    Greater,
    Equal,
}

/// Where the session stands between read events.
#[derive(Clone, Copy, Debug, PartialEq, Eq, Structural)]
pub enum SessionState {
    /// The session is ready for the next line.
    AwaitingInput,
    /// A guess equalled the secret; terminal.
    Won,
    /// The input stream failed; terminal.
    Aborted,
}

/// How a finished session ended.
#[derive(Clone, Copy, Debug, PartialEq, Eq, Structural)]
pub enum SessionOutcome {
    /// A guess equalled the secret.
    Won,
    /// The input stream closed or failed before any guess matched.
    Aborted,
}

/// Why a session could not be created.
#[derive(Clone, Copy, Debug, PartialEq, Eq, Structural)]
pub enum SessionError {
    /// The random source handed back a value outside the agreed range,
    /// which is a defect of the source and fatal for the session.
    SecretOutOfRange,
}

/// One interaction of the line reader: a line of text, or the signal that
/// the stream has closed or failed.
#[derive(Debug)]
pub enum ReadEvent {
    Line(String),
    Closed,
}

/// The comparison `spec_compare(guess, secret)` by ordinary integer order.
pub open spec fn spec_compare(guess: u32, secret: u32) -> Comparison {
    if guess < secret {
        Comparison::Less
    } else if guess > secret {
        Comparison::Greater
    } else {
        Comparison::Equal
    }
}

/// The signal a session with this secret emits for one line of input.
pub open spec fn spec_signal(secret: u32, line: Seq<char>) -> Signal {
    match spec_parse_guess(line) {
        Some(guess) => match spec_compare(guess, secret) {
            Comparison::Less => Signal::TooLow,
            Comparison::Greater => Signal::TooBig,
            Comparison::Equal => Signal::Correct,
        },
        None => Signal::InvalidEntry,
    }
}

/// Compares a guess to the secret, producing exactly one of the three
/// results: `Less` when the guess is below the secret, `Greater` when it
/// is above, `Equal` when they match.
pub fn compare_guess(guess: u32, secret: u32) -> (r: Comparison)
    ensures
        r == spec_compare(guess, secret),
        r == Comparison::Less <==> guess < secret,
        r == Comparison::Greater <==> guess > secret,
        r == Comparison::Equal <==> guess == secret,
{
    if guess < secret {
        Comparison::Less
    } else if guess > secret {
        Comparison::Greater
    } else {
        Comparison::Equal
    }
}

/// Relies on `rand::Rng::gen_range` on a `ThreadRng`: it returns a value
/// uniformly distributed within the given inclusive range, and panics only
/// when the range is empty. Nothing more is promised of the draw.
#[verifier::external_body]
fn draw_secret(low: u32, high: u32) -> (r: u32)
    requires
        low <= high,
    ensures
        low <= r <= high,
{
    rand::thread_rng().gen_range(low..=high)
}

/// One guessing session: the secret it was created with and where the
/// retry loop stands. The secret is set at creation and never reassigned;
/// every contract below carries that invariant.
pub struct GuessSession {
    secret: u32,
    state: SessionState,
}

impl GuessSession {
    /// The secret this session compares every guess against.
    pub closed spec fn spec_secret(self) -> u32 {
        self.secret
    }

    /// The session's current state.
    pub closed spec fn spec_state(self) -> SessionState {
        self.state
    }

    /// A well-formed session holds a secret within the agreed range.
    pub open spec fn wf(self) -> bool {
        SECRET_MIN <= self.spec_secret() <= SECRET_MAX
    }

    /// Creates a session around the given secret, rejecting a value
    /// outside `[SECRET_MIN, SECRET_MAX]`: such a value can only come from
    /// a defective random source, and the session fails fast rather than
    /// compare guesses against it.
    pub fn new(secret: u32) -> (r: Result<GuessSession, SessionError>)
        ensures
            r is Ok <==> SECRET_MIN <= secret <= SECRET_MAX,
            r matches Ok(session) ==> session.wf() && session.spec_secret() == secret
                && session.spec_state() == SessionState::AwaitingInput,
            r matches Err(e) ==> e == SessionError::SecretOutOfRange,
    {
        if secret < SECRET_MIN || secret > SECRET_MAX {
            Err(SessionError::SecretOutOfRange)
        } else {
            Ok(GuessSession { secret, state: SessionState::AwaitingInput })
        }
    }

    /// Starts a fresh session: draws the secret from the random source,
    /// exactly once, and stands ready for the first line.
    pub fn start() -> (r: GuessSession)
        ensures
            r.wf(),
            r.spec_state() == SessionState::AwaitingInput,
    {
        let secret: u32 = draw_secret(SECRET_MIN, SECRET_MAX);
        match GuessSession::new(secret) {
            Ok(session) => session,
            Err(_) => vstd::pervasive::unreached(),
        }
    }

    /// The secret this session was created with.
    pub fn secret(&self) -> (r: u32)
        ensures
            r == self.spec_secret(),
    {
        self.secret
    }

    /// The current state of the session.
    pub fn state(&self) -> (r: SessionState)
        ensures
            r == self.spec_state(),
    {
        self.state
    }

    /// Consumes one read event. A terminal session absorbs the event and
    /// stays as it is. From `AwaitingInput`, a closed stream aborts the
    /// session without any comparison; a line is normalized, parsed and
    /// compared, and the session moves to `Won` exactly when the line
    /// parses to the secret. The secret itself never changes.
    pub fn step(&mut self, event: ReadEvent) -> (signal: Option<Signal>)
        ensures
            final(self).spec_secret() == old(self).spec_secret(),
            old(self).spec_state() != SessionState::AwaitingInput ==> *final(self)
                == *old(self) && signal is None,
            old(self).spec_state() == SessionState::AwaitingInput ==> match event {
                ReadEvent::Closed => final(self).spec_state() == SessionState::Aborted
                    && signal is None,
                ReadEvent::Line(l) => signal == Some(spec_signal(old(self).spec_secret(), l@))
                    && final(self).spec_state() == (if spec_parse_guess(l@) == Some(
                    old(self).spec_secret(),
                ) {
                    SessionState::Won
                } else {
                    SessionState::AwaitingInput
                }),
            },
    {
        match self.state {
            SessionState::Won => None,
            SessionState::Aborted => None,
            SessionState::AwaitingInput => match event {
                ReadEvent::Closed => {
                    self.state = SessionState::Aborted;
                    None
                },
                ReadEvent::Line(l) => match parse_guess(l.as_str()) {
                    None => Some(Signal::InvalidEntry),
                    Some(guess) => match compare_guess(guess, self.secret) {
                        Comparison::Less => Some(Signal::TooLow),
                        Comparison::Greater => Some(Signal::TooBig),
                        Comparison::Equal => {
                            self.state = SessionState::Won;
                            Some(Signal::Correct)
                        },
                    },
                },
            },
        }
    }

    /// Plays a whole session against a fixed script of lines, as a reader
    /// that hands them out in order and then closes. The session wins if
    /// and only if some line parses to the secret; otherwise it processes
    /// every line and aborts when the script runs out. Each processed line
    /// receives exactly the signal `spec_signal` assigns it, and nothing
    /// past the winning line is ever read.
    pub fn run(&mut self, lines: &Vec<String>) -> (r: (SessionOutcome, Vec<Signal>))
        requires
            old(self).spec_state() == SessionState::AwaitingInput,
        ensures
            final(self).spec_secret() == old(self).spec_secret(),
            forall|k: int|
                0 <= k < r.1@.len() ==> r.1@[k] == spec_signal(
                    old(self).spec_secret(),
                    lines.deep_view()[k],
                ),
            r.0 == SessionOutcome::Won <==> exists|k: int|
                0 <= k < lines.deep_view().len() && spec_parse_guess(lines.deep_view()[k])
                    == Some(old(self).spec_secret()),
            r.0 == SessionOutcome::Won ==> final(self).spec_state() == SessionState::Won
                && 0 < r.1@.len() <= lines.deep_view().len() && spec_parse_guess(
                lines.deep_view()[r.1@.len() - 1],
            ) == Some(old(self).spec_secret()) && forall|k: int|
                0 <= k < r.1@.len() - 1 ==> spec_parse_guess(lines.deep_view()[k]) != Some(
                    old(self).spec_secret(),
                ),
            r.0 == SessionOutcome::Aborted ==> final(self).spec_state() == SessionState::Aborted
                && r.1@.len() == lines.deep_view().len(),
    {
        let ghost secret = self.spec_secret();
        let mut signals: Vec<Signal> = Vec::new();
        let mut idx: usize = 0;
        let n: usize = lines.len();
        while idx < n
            invariant
                idx <= n,
                n == lines@.len(),
                secret == old(self).spec_secret(),
                self.spec_secret() == secret,
                self.spec_state() == SessionState::AwaitingInput,
                signals@.len() == idx,
                forall|k: int|
                    0 <= k < idx ==> signals@[k] == spec_signal(secret, lines.deep_view()[k]),
                forall|k: int|
                    0 <= k < idx ==> spec_parse_guess(lines.deep_view()[k]) != Some(secret),
            decreases n - idx,
        {
            let line = lines[idx].clone();
            proof {
                assert(line@ == lines.deep_view()[idx as int]);
            }
            let signal = self.step(ReadEvent::Line(line));
            let sig = signal.unwrap();
            let won = matches!(sig, Signal::Correct);
            signals.push(sig);
            if won {
                proof {
                    assert(spec_parse_guess(lines.deep_view()[idx as int]) == Some(secret));
                }
                return (SessionOutcome::Won, signals);
            }
            idx = idx + 1;
        }
        let _ = self.step(ReadEvent::Closed);
        (SessionOutcome::Aborted, signals)
    }
}

} // verus!
