use vstd::prelude::*;

use crate::text::{chars_of, contains, decode_lossy, find_marker, lossy_text};

verus! {

/// Text of the unlock helper asking for the passphrase.
pub const PROMPT_MARKER: &'static str = "Please unlock";

/// Text of the unlock helper refusing the passphrase.
pub const BAD_MARKER: &'static str = "bad";

/// Text of the unlock helper giving up after too many attempts.
pub const EXHAUSTED_MARKER: &'static str = "maximum";

/// The helper asks for the passphrase somewhere in `text`.
pub open spec fn is_prompt(text: Seq<char>) -> bool {
    contains(text, PROMPT_MARKER@)
}

/// The helper refuses the passphrase somewhere in `text`.
pub open spec fn is_rejection(text: Seq<char>) -> bool {
    contains(text, BAD_MARKER@) || contains(text, EXHAUSTED_MARKER@)
}

/// How one run against the unlock helper, or one whole attempt, ended.
#[derive(Clone, Copy, Debug, PartialEq, Eq, Structural)]
pub enum Outcome {
    /// At least one disk was unlocked before the remote side closed the stream.
    Unlocked,
    /// The passphrase was refused; a new one is needed.
    Rejected,
    /// The stream closed before any disk was unlocked.
    ChannelClosed,
    /// No connection could be made.
    ConnectionFailed,
    /// The server refused the key.
    AuthRejected,
    /// The operator aborted.
    Cancelled,
}

/// Where the run stands.
#[derive(Clone, Copy, Debug, PartialEq, Eq, Structural)]
pub enum Phase {
    /// Watching the output for the passphrase prompt.
    AwaitingPrompt,
    /// The passphrase went out; the next read drains its echo.
    PassphraseSent,
    /// Watching the output for the verdict on the passphrase.
    AwaitingResult,
    /// The run is over.
    Finished(Outcome),
}

/// What one iteration of the poll loop observed.
pub enum Event {
    /// The operator asked to abort.
    Cancel,
    /// The channel had nothing to read yet.
    WouldBlock,
    /// A read returned no bytes.
    Empty,
    /// A read returned this text.
    Chunk(String),
    /// A read failed at the connection level: the stream is gone.
    Closed,
}

/// A line worth showing to the operator.
#[derive(Clone, Copy, Debug, PartialEq, Eq, Structural)]
pub enum Note {
    /// The chunk just read is plain output of the remote side.
    RemoteOutput,
    /// This many disks are unlocked so far.
    DiskUnlocked(u64),
    /// The passphrase was refused.
    PassphraseRejected,
}

/// What the poll loop is to do after one event.
#[derive(Clone, Copy, Debug, PartialEq, Eq, Structural)]
pub struct Reaction {
    /// A line to report, if any.
    pub note: Option<Note>,
    /// Write the trimmed passphrase and a newline to the channel, then flush.
    pub send_passphrase: bool,
    /// Sleep for a short poll interval before the next read.
    pub pause: bool,
    /// The run is over, with this outcome.
    pub outcome: Option<Outcome>,
}

/// The prompt-driven dialogue with the remote unlock helper.
#[derive(Clone, Copy, Debug, PartialEq, Eq, Structural)]
pub struct UnlockMachine {
    pub phase: Phase,
    /// Disks reported unlocked so far.
    pub successes: u64,
}

/// A reaction that asks for nothing.
pub open spec fn quiet() -> Reaction {
    Reaction { note: None, send_passphrase: false, pause: false, outcome: None }
}

/// A reaction that ends the run with `o`.
pub open spec fn finish(o: Outcome) -> Reaction {
    Reaction { note: None, send_passphrase: false, pause: false, outcome: Some(o) }
}

/// One more success, held at the largest count that fits.
pub open spec fn bump(n: u64) -> u64 {
    if n < u64::MAX {
        (n + 1) as u64
    } else {
        n
    }
}

/// How a run ends when the stream closes after `successes` unlocked disks.
pub open spec fn closed_outcome(successes: u64) -> Outcome {
    if successes >= 1 {
        Outcome::Unlocked
    } else {
        Outcome::ChannelClosed
    }
}

/// A machine at the start of a run.
pub open spec fn initial() -> UnlockMachine {
    UnlockMachine { phase: Phase::AwaitingPrompt, successes: 0 }
}

/// The machine's answer to a read that returned `text`.
pub open spec fn on_text(m: UnlockMachine, text: Seq<char>) -> (UnlockMachine, Reaction) {
    match m.phase {
        Phase::Finished(o) => (m, finish(o)),
        Phase::PassphraseSent => (UnlockMachine { phase: Phase::AwaitingResult, ..m }, quiet()),
        Phase::AwaitingPrompt => {
            if text.len() == 0 {
                (m, quiet())
            } else if is_prompt(text) {
                (
                    UnlockMachine { phase: Phase::PassphraseSent, ..m },
                    Reaction { send_passphrase: true, ..quiet() },
                )
            } else {
                (m, Reaction { note: Some(Note::RemoteOutput), ..quiet() })
            }
        },
        Phase::AwaitingResult => {
            if text.len() == 0 {
                (m, quiet())
            } else if is_rejection(text) {
                (
                    UnlockMachine { phase: Phase::Finished(Outcome::Rejected), ..m },
                    Reaction {
                        note: Some(Note::PassphraseRejected),
                        outcome: Some(Outcome::Rejected),
                        ..quiet()
                    },
                )
            } else {
                let n = bump(m.successes);
                if is_prompt(text) {
                    (
                        UnlockMachine { phase: Phase::PassphraseSent, successes: n },
                        Reaction {
                            note: Some(Note::DiskUnlocked(n)),
                            send_passphrase: true,
                            ..quiet()
                        },
                    )
                } else {
                    (
                        UnlockMachine { phase: Phase::AwaitingPrompt, successes: n },
                        Reaction { note: Some(Note::DiskUnlocked(n)), ..quiet() },
                    )
                }
            }
        },
    }
}

/// The machine's answer to one event.
pub open spec fn next(m: UnlockMachine, e: Event) -> (UnlockMachine, Reaction) {
    match m.phase {
        Phase::Finished(o) => (m, finish(o)),
        _ => match e {
            Event::Cancel => (
                UnlockMachine { phase: Phase::Finished(Outcome::Cancelled), ..m },
                finish(Outcome::Cancelled),
            ),
            Event::WouldBlock => (m, Reaction { pause: true, ..quiet() }),
            Event::Empty => on_text(m, Seq::empty()),
            Event::Chunk(s) => on_text(m, s@),
            Event::Closed => {
                let o = closed_outcome(m.successes);
                (UnlockMachine { phase: Phase::Finished(o), ..m }, finish(o))
            },
        },
    }
}

impl UnlockMachine {
    /// A machine at the start of a run, waiting for the prompt.
    pub fn new() -> (r: Self)
        ensures
            r == initial(),
    {
        UnlockMachine { phase: Phase::AwaitingPrompt, successes: 0 }
    }

    pub fn is_finished(&self) -> (r: bool)
        ensures
            r == (self.phase is Finished),
    {
        match self.phase {
            Phase::Finished(_) => true,
            _ => false,
        }
    }

    /// The outcome, once the run is over.
    pub fn outcome(&self) -> (r: Option<Outcome>)
        ensures
            r == (match self.phase {
                Phase::Finished(o) => Some(o),
                _ => None,
            }),
    {
        match self.phase {
            Phase::Finished(o) => Some(o),
            _ => None,
        }
    }

    /// Handles a read that returned `text`.
    pub fn step_text(&mut self, text: &str) -> (r: Reaction)
        ensures
            (*final(self), r) == on_text(*old(self), text@),
    {
        match self.phase {
            Phase::Finished(o) => {
                return Reaction { note: None, send_passphrase: false, pause: false, outcome: Some(o) };
            },
            Phase::PassphraseSent => {
                self.phase = Phase::AwaitingResult;
                return Reaction { note: None, send_passphrase: false, pause: false, outcome: None };
            },
            _ => {},
        }
        let chars = chars_of(text);
        if chars.len() == 0 {
            return Reaction { note: None, send_passphrase: false, pause: false, outcome: None };
        }
        let prompt = find_marker(&chars, PROMPT_MARKER);
        if self.phase == Phase::AwaitingPrompt {
            if prompt {
                self.phase = Phase::PassphraseSent;
                Reaction { note: None, send_passphrase: true, pause: false, outcome: None }
            } else {
                Reaction { note: Some(Note::RemoteOutput), send_passphrase: false, pause: false, outcome: None }
            }
        } else {
            let rejected = find_marker(&chars, BAD_MARKER) || find_marker(&chars, EXHAUSTED_MARKER);
            if rejected {
                self.phase = Phase::Finished(Outcome::Rejected);
                Reaction {
                    note: Some(Note::PassphraseRejected),
                    send_passphrase: false,
                    pause: false,
                    outcome: Some(Outcome::Rejected),
                }
            } else {
                if self.successes < u64::MAX {
                    self.successes = self.successes + 1;
                }
                let n = self.successes;
                if prompt {
                    self.phase = Phase::PassphraseSent;
                    Reaction { note: Some(Note::DiskUnlocked(n)), send_passphrase: true, pause: false, outcome: None }
                } else {
                    self.phase = Phase::AwaitingPrompt;
                    Reaction { note: Some(Note::DiskUnlocked(n)), send_passphrase: false, pause: false, outcome: None }
                }
            }
        }
    }

    /// Handles one event of the poll loop.
    pub fn step(&mut self, event: &Event) -> (r: Reaction)
        ensures
            (*final(self), r) == next(*old(self), *event),
    {
        if let Phase::Finished(o) = self.phase {
            return Reaction { note: None, send_passphrase: false, pause: false, outcome: Some(o) };
        }
        match event {
            Event::Cancel => {
                self.phase = Phase::Finished(Outcome::Cancelled);
                Reaction { note: None, send_passphrase: false, pause: false, outcome: Some(Outcome::Cancelled) }
            },
            Event::WouldBlock => {
                Reaction { note: None, send_passphrase: false, pause: true, outcome: None }
            },
            Event::Empty => {
                proof {
                    reveal_strlit("");
                }
                assert(""@ =~= Seq::<char>::empty());
                self.step_text("")
            },
            Event::Chunk(s) => self.step_text(s.as_str()),
            Event::Closed => {
                let o = if self.successes >= 1 {
                    Outcome::Unlocked
                } else {
                    Outcome::ChannelClosed
                };
                self.phase = Phase::Finished(o);
                Reaction { note: None, send_passphrase: false, pause: false, outcome: Some(o) }
            },
        }
    }
}

/// The event for a read that returned the bytes `b`: their lossy decoding.
pub fn chunk_event(b: &[u8]) -> (e: Event)
    ensures
        match e {
            Event::Chunk(s) => s@ == lossy_text(b@),
            _ => false,
        },
{
    Event::Chunk(decode_lossy(b))
}

} // verus!
