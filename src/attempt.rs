use vstd::prelude::*;

use crate::machine::{next, quiet, Event, Outcome, Reaction, UnlockMachine};
use crate::state::{appended, AppState, PUBKEY_ACCEPTED};

verus! {

/// How far one connection attempt has got.
#[derive(Clone, Copy, Debug, PartialEq, Eq, Structural)]
pub enum Stage {
    /// Opening the connection to the host.
    Connecting,
    /// Handshake and key authentication.
    Authenticating,
    /// Opening the terminal channel and starting the unlock helper.
    Bootstrapping,
    /// The dialogue with the unlock helper is under way.
    Running,
    /// The attempt is over.
    Over(Outcome),
}

/// The result of one setup step, as the caller observed it.
#[derive(Clone, Copy, Debug, PartialEq, Eq, Structural)]
pub enum Setup {
    Connected,
    ConnectFailed,
    Authenticated,
    AuthRefused,
    ChannelReady,
    /// The handshake or the channel failed.
    SetupFailed,
}

/// The stage that follows `st` on the setup result `s`.
pub open spec fn setup_next(st: Stage, s: Setup) -> Stage {
    match (st, s) {
        (Stage::Connecting, Setup::Connected) => Stage::Authenticating,
        (Stage::Connecting, Setup::ConnectFailed) => Stage::Over(Outcome::ConnectionFailed),
        (Stage::Authenticating, Setup::Authenticated) => Stage::Bootstrapping,
        (Stage::Authenticating, Setup::AuthRefused) => Stage::Over(Outcome::AuthRejected),
        (Stage::Bootstrapping, Setup::ChannelReady) => Stage::Running,
        (Stage::Connecting, Setup::SetupFailed) => Stage::Over(Outcome::ConnectionFailed),
        (Stage::Authenticating, Setup::SetupFailed) => Stage::Over(Outcome::ConnectionFailed),
        (Stage::Bootstrapping, Setup::SetupFailed) => Stage::Over(Outcome::ConnectionFailed),
        _ => st,
    }
}

/// One end-to-end attempt: fresh connection, session and channel, then the dialogue.
#[derive(Clone, Copy, Debug, PartialEq, Eq, Structural)]
pub struct Attempt {
    pub stage: Stage,
    pub machine: UnlockMachine,
}

impl Attempt {
    pub fn new() -> (r: Self)
        ensures
            r.stage == Stage::Connecting,
            r.machine == crate::machine::initial(),
    {
        Attempt { stage: Stage::Connecting, machine: UnlockMachine::new() }
    }

    /// The outcome, once the attempt is over.
    pub fn outcome(&self) -> (r: Option<Outcome>)
        ensures
            r == (match self.stage {
                Stage::Over(o) => Some(o),
                _ => None,
            }),
    {
        match self.stage {
            Stage::Over(o) => Some(o),
            _ => None,
        }
    }

    /// Records a setup result; an accepted key is reported in the log.
    pub fn on_setup(&mut self, s: Setup, app: &mut AppState) -> (r: Option<Outcome>)
        ensures
            final(self).stage == setup_next(old(self).stage, s),
            final(self).machine == old(self).machine,
            r == (match final(self).stage {
                Stage::Over(o) => Some(o),
                _ => None,
            }),
            old(self).stage == Stage::Authenticating && s == Setup::Authenticated ==> appended(
                old(app).logs@,
                final(app).logs@,
                PUBKEY_ACCEPTED@,
            ),
            !(old(self).stage == Stage::Authenticating && s == Setup::Authenticated) ==> final(app).logs
                == old(app).logs,
            final(app).password_input == old(app).password_input,
            final(app).password_submitted == old(app).password_submitted,
            final(app).unlocked == old(app).unlocked,
            final(app).show_password == old(app).show_password,
    {
        let st = match (self.stage, s) {
            (Stage::Connecting, Setup::Connected) => Stage::Authenticating,
            (Stage::Connecting, Setup::ConnectFailed) => Stage::Over(Outcome::ConnectionFailed),
            (Stage::Authenticating, Setup::Authenticated) => {
                app.log(PUBKEY_ACCEPTED.to_owned());
                assert(app.logs@.drop_last() =~= old(app).logs@);
                Stage::Bootstrapping
            },
            (Stage::Authenticating, Setup::AuthRefused) => Stage::Over(Outcome::AuthRejected),
            (Stage::Bootstrapping, Setup::ChannelReady) => Stage::Running,
            (Stage::Connecting, Setup::SetupFailed) => Stage::Over(Outcome::ConnectionFailed),
            (Stage::Authenticating, Setup::SetupFailed) => Stage::Over(Outcome::ConnectionFailed),
            (Stage::Bootstrapping, Setup::SetupFailed) => Stage::Over(Outcome::ConnectionFailed),
            _ => self.stage,
        };
        self.stage = st;
        self.outcome()
    }

    /// Hands one poll-loop event to the dialogue; before the dialogue runs, or after
    /// the attempt is over, the event changes nothing and asks for nothing.
    pub fn on_event(&mut self, e: &Event) -> (r: Reaction)
        ensures
            old(self).stage == Stage::Running ==> (final(self).machine, r) == next(old(self).machine, *e)
                && final(self).stage == match r.outcome {
                Some(o) => Stage::Over(o),
                None => Stage::Running,
            },
            old(self).stage != Stage::Running ==> *final(self) == *old(self) && r == quiet(),
    {
        if self.stage == Stage::Running {
            let r = self.machine.step(e);
            if let Some(o) = r.outcome {
                self.stage = Stage::Over(o);
            }
            r
        } else {
            Reaction { note: None, send_passphrase: false, pause: false, outcome: None }
        }
    }
}

} // verus!
