use vstd::prelude::*;

use crate::machine::Outcome;
use crate::text::{trim_end, trimmed_end};

verus! {

/// Log line shown when a new attempt is about to start.
pub const RETRYING: &'static str = "Retrying...";

/// Log line shown when the server refused the key.
pub const PUBKEY_FAILED: &'static str = "Dropbear SSH pubkey failed.";

/// Log line shown when the server accepted the key.
pub const PUBKEY_ACCEPTED: &'static str = "Dropbear SSH pubkey correct!";

/// Log line shown when the passphrase was refused.
pub const PASSPHRASE_REFUSED: &'static str = "Incorrect LUKS password. re-init Dropbear session...";

/// Log line shown when the operator submits a passphrase.
pub const TRYING: &'static str = "Try unlocking...";

/// `after` is `before` with one more line, whose text is `line`.
pub open spec fn appended(before: Seq<String>, after: Seq<String>, line: Seq<char>) -> bool {
    after.len() == before.len() + 1 && after.drop_last() == before && after.last()@ == line
}

/// What the operator does once an attempt has ended.
#[derive(Clone, Copy, Debug, PartialEq, Eq, Structural)]
pub enum Next {
    /// Wait out the backoff and start a brand-new attempt.
    RetryAfterBackoff,
    /// Stop until the operator enters a new passphrase.
    AwaitPassphrase,
    /// Stop for good.
    Stop,
}

/// The decision taken on the outcome of one attempt.
pub open spec fn policy_of(o: Outcome) -> Next {
    match o {
        Outcome::ConnectionFailed | Outcome::AuthRejected | Outcome::ChannelClosed => Next::RetryAfterBackoff,
        Outcome::Rejected => Next::AwaitPassphrase,
        Outcome::Unlocked | Outcome::Cancelled => Next::Stop,
    }
}

/// Relies on `String::push`: appends one character.
#[verifier::external_body]
fn push_char(s: &mut String, c: char)
    ensures
        final(s)@ == old(s)@.push(c),
{
    s.push(c)
}

/// Relies on `String::pop`: removes and returns the last character, if any.
#[verifier::external_body]
fn pop_char(s: &mut String) -> (r: Option<char>)
    ensures
        old(s)@.len() == 0 ==> r is None && final(s)@ == old(s)@,
        old(s)@.len() > 0 ==> r == Some(old(s)@.last()) && final(s)@ == old(s)@.drop_last(),
{
    s.pop()
}

/// What the operator sees and types, and the log of the unlock work.
pub struct AppState {
    /// Status lines, oldest first.
    pub logs: Vec<String>,
    /// The passphrase as typed so far.
    pub password_input: String,
    /// The passphrase was submitted and awaits an attempt.
    pub password_submitted: bool,
    /// The disks are unlocked.
    pub unlocked: bool,
    /// The passphrase is shown in clear.
    pub show_password: bool,
}

impl AppState {
    pub fn new() -> (r: Self)
        ensures
            r.logs@.len() == 0,
            r.password_input@.len() == 0,
            !r.password_submitted,
            !r.unlocked,
            !r.show_password,
    {
        AppState {
            logs: Vec::new(),
            password_input: String::new(),
            password_submitted: false,
            unlocked: false,
            show_password: false,
        }
    }

    /// Appends a status line.
    pub fn log(&mut self, msg: String)
        ensures
            final(self).logs@ == old(self).logs@.push(msg),
            final(self).password_input == old(self).password_input,
            final(self).password_submitted == old(self).password_submitted,
            final(self).unlocked == old(self).unlocked,
            final(self).show_password == old(self).show_password,
    {
        self.logs.push(msg);
    }

    /// Discards the passphrase, so that a new one must be entered.
    pub fn reset_password(&mut self)
        ensures
            final(self).password_input@.len() == 0,
            !final(self).password_submitted,
            final(self).logs == old(self).logs,
            final(self).unlocked == old(self).unlocked,
            final(self).show_password == old(self).show_password,
    {
        self.password_input = String::new();
        self.password_submitted = false;
    }

    /// A typed character; ignored once the passphrase is submitted.
    pub fn type_char(&mut self, c: char)
        ensures
            final(self).password_input@ == if old(self).password_submitted {
                old(self).password_input@
            } else {
                old(self).password_input@.push(c)
            },
            final(self).logs == old(self).logs,
            final(self).password_submitted == old(self).password_submitted,
            final(self).unlocked == old(self).unlocked,
            final(self).show_password == old(self).show_password,
    {
        if !self.password_submitted {
            push_char(&mut self.password_input, c);
        }
    }

    /// Erases the last typed character; ignored once the passphrase is submitted.
    pub fn backspace(&mut self)
        ensures
            final(self).password_input@ == if old(self).password_submitted
                || old(self).password_input@.len() == 0 {
                old(self).password_input@
            } else {
                old(self).password_input@.drop_last()
            },
            final(self).logs == old(self).logs,
            final(self).password_submitted == old(self).password_submitted,
            final(self).unlocked == old(self).unlocked,
            final(self).show_password == old(self).show_password,
    {
        if !self.password_submitted {
            let _ = pop_char(&mut self.password_input);
        }
    }

    /// Shows or hides the passphrase.
    pub fn toggle_show(&mut self)
        ensures
            final(self).show_password == !old(self).show_password,
            final(self).logs == old(self).logs,
            final(self).password_input == old(self).password_input,
            final(self).password_submitted == old(self).password_submitted,
            final(self).unlocked == old(self).unlocked,
    {
        self.show_password = !self.show_password;
    }

    /// Submits a non-empty passphrase that is not yet submitted; returns whether it did.
    pub fn submit(&mut self) -> (r: bool)
        ensures
            r == (old(self).password_input@.len() > 0 && !old(self).password_submitted),
            r ==> final(self).password_submitted && appended(old(self).logs@, final(self).logs@, TRYING@),
            !r ==> final(self).password_submitted == old(self).password_submitted && final(self).logs
                == old(self).logs,
            final(self).password_input == old(self).password_input,
            final(self).unlocked == old(self).unlocked,
            final(self).show_password == old(self).show_password,
    {
        if !self.password_input.as_str().is_empty() && !self.password_submitted {
            self.password_submitted = true;
            self.log(TRYING.to_owned());
            assert(self.logs@.drop_last() =~= old(self).logs@);
            true
        } else {
            false
        }
    }

    /// An attempt is owed: a passphrase is submitted and the disks are still locked.
    pub fn wants_attempt(&self) -> (r: bool)
        ensures
            r == (self.password_submitted && !self.unlocked),
    {
        self.password_submitted && !self.unlocked
    }

    /// The passphrase as it goes to the remote helper: without trailing whitespace.
    pub fn passphrase_to_send(&self) -> (r: &str)
        ensures
            r@ == trimmed_end(self.password_input@),
    {
        trim_end(self.password_input.as_str())
    }

    /// The passphrase as displayed: in clear if asked for, else one `*` per character.
    pub fn visible_input(&self) -> (r: String)
        ensures
            self.show_password ==> r@ == self.password_input@,
            !self.show_password ==> r@ == Seq::new(self.password_input@.len(), |_i: int| '*'),
    {
        if self.show_password {
            self.password_input.clone()
        } else {
            let n = self.password_input.as_str().unicode_len();
            let mut out = String::new();
            let mut i: usize = 0;
            while i < n
                invariant
                    i <= n,
                    n == self.password_input@.len(),
                    out@ == Seq::new(i as nat, |_i: int| '*'),
                decreases n - i,
            {
                push_char(&mut out, '*');
                i = i + 1;
                assert(out@ =~= Seq::new(i as nat, |_i: int| '*'));
            }
            out
        }
    }

    /// The last `k` log lines, newest first.
    pub fn recent_logs(&self, k: usize) -> (r: Vec<String>)
        ensures
            r@.len() == if k < self.logs@.len() { k as int } else { self.logs@.len() as int },
            forall|i: int| 0 <= i < r@.len() ==> #[trigger] r@[i] == self.logs@[self.logs@.len() - 1 - i],
    {
        let n = self.logs.len();
        let mut out: Vec<String> = Vec::new();
        let mut i: usize = 0;
        while i < k && i < n
            invariant
                n == self.logs@.len(),
                i <= n,
                i <= k,
                out@.len() == i,
                forall|j: int| 0 <= j < i ==> #[trigger] out@[j] == self.logs@[n - 1 - j],
            decreases n - i,
        {
            out.push(self.logs[n - 1 - i].clone());
            i = i + 1;
        }
        out
    }

    /// Records the outcome of an attempt and says what comes next.
    pub fn conclude(&mut self, o: Outcome) -> (r: Next)
        ensures
            r == policy_of(o),
            o == Outcome::ConnectionFailed || o == Outcome::ChannelClosed ==> appended(
                old(self).logs@,
                final(self).logs@,
                RETRYING@,
            ),
            o == Outcome::AuthRejected ==> final(self).logs@.len() == old(self).logs@.len() + 2
                && final(self).logs@.subrange(0, old(self).logs@.len() as int) == old(self).logs@
                && final(self).logs@[old(self).logs@.len() as int]@ == PUBKEY_FAILED@
                && final(self).logs@.last()@ == RETRYING@,
            o == Outcome::Rejected ==> appended(old(self).logs@, final(self).logs@, PASSPHRASE_REFUSED@)
                && final(self).password_input@.len() == 0 && !final(self).password_submitted,
            o == Outcome::Unlocked ==> final(self).unlocked,
            o == Outcome::Unlocked || o == Outcome::Cancelled ==> final(self).logs == old(self).logs,
            o != Outcome::Rejected ==> final(self).password_input == old(self).password_input
                && final(self).password_submitted == old(self).password_submitted,
            o != Outcome::Unlocked ==> final(self).unlocked == old(self).unlocked,
            final(self).show_password == old(self).show_password,
    {
        match o {
            Outcome::ConnectionFailed | Outcome::ChannelClosed => {
                self.log(RETRYING.to_owned());
                assert(self.logs@.drop_last() =~= old(self).logs@);
                Next::RetryAfterBackoff
            },
            Outcome::AuthRejected => {
                self.log(PUBKEY_FAILED.to_owned());
                self.log(RETRYING.to_owned());
                assert(self.logs@.subrange(0, old(self).logs@.len() as int) =~= old(self).logs@);
                Next::RetryAfterBackoff
            },
            Outcome::Rejected => {
                self.log(PASSPHRASE_REFUSED.to_owned());
                self.reset_password();
                assert(self.logs@.drop_last() =~= old(self).logs@);
                Next::AwaitPassphrase
            },
            Outcome::Unlocked => {
                self.unlocked = true;
                Next::Stop
            },
            Outcome::Cancelled => Next::Stop,
        }
    }
}

} // verus!
