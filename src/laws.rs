use vstd::prelude::*;

use crate::machine::{
    bump, initial, is_prompt, is_rejection, next, Event, Note, Outcome, Phase, Reaction,
    UnlockMachine,
};

verus! {

/// The machine and the reactions after it has handled `events` in order, from `m`.
pub open spec fn run(m: UnlockMachine, events: Seq<Event>) -> (UnlockMachine, Seq<Reaction>)
    decreases events.len(),
{
    if events.len() == 0 {
        (m, Seq::empty())
    } else {
        let (mp, rs) = run(m, events.drop_last());
        let (mf, r) = next(mp, events.last());
        (mf, rs.push(r))
    }
}

/// The event is a chunk of output in which the helper asks for the passphrase.
pub open spec fn shows_prompt(e: Event) -> bool {
    match e {
        Event::Chunk(s) => is_prompt(s@),
        _ => false,
    }
}

/// The event is a non-empty chunk without a rejection marker.
pub open spec fn is_verdict_ok(e: Event) -> bool {
    match e {
        Event::Chunk(s) => s@.len() > 0 && !is_rejection(s@),
        _ => false,
    }
}

/// The event is a chunk holding a rejection marker.
pub open spec fn is_verdict_bad(e: Event) -> bool {
    match e {
        Event::Chunk(s) => is_rejection(s@),
        _ => false,
    }
}

/// How many events of `events`, handled from `m`, are non-empty, non-rejection chunks
/// that arrive while the machine awaits the verdict on the passphrase.
pub open spec fn verdicts_ok(m: UnlockMachine, events: Seq<Event>) -> nat
    decreases events.len(),
{
    if events.len() == 0 {
        0
    } else {
        let before = run(m, events.drop_last()).0;
        verdicts_ok(m, events.drop_last()) + if before.phase == Phase::AwaitingResult
            && is_verdict_ok(events.last()) {
            1nat
        } else {
            0nat
        }
    }
}

proof fn lemma_run_len(m: UnlockMachine, events: Seq<Event>)
    ensures
        run(m, events).1.len() == events.len(),
    decreases events.len(),
{
    if events.len() > 0 {
        lemma_run_len(m, events.drop_last());
    }
}

/// A finished run stays finished with the same outcome, and writes nothing more.
pub proof fn lemma_finished_is_final(m: UnlockMachine, events: Seq<Event>)
    requires
        m.phase is Finished,
    ensures
        run(m, events).0 == m,
        forall|i: int| 0 <= i < events.len() ==> !(#[trigger] run(m, events).1[i]).send_passphrase,
        forall|i: int| 0 <= i < events.len() ==> (#[trigger] run(m, events).1[i]).outcome == Some(
            m.phase->Finished_0,
        ),
    decreases events.len(),
{
    lemma_run_len(m, events);
    if events.len() > 0 {
        lemma_finished_is_final(m, events.drop_last());
    }
}

/// Without a prompt in the output, the passphrase is never written: from the start of
/// a run, no event sequence whose chunks all lack the prompt marker makes the machine
/// send it.
pub proof fn lemma_no_prompt_no_passphrase(events: Seq<Event>)
    requires
        forall|i: int| 0 <= i < events.len() ==> !shows_prompt(#[trigger] events[i]),
    ensures
        forall|i: int| 0 <= i < events.len() ==> !(#[trigger] run(initial(), events).1[i]).send_passphrase,
        run(initial(), events).0.phase == Phase::AwaitingPrompt || run(initial(), events).0.phase is Finished,
        run(initial(), events).0.successes == 0,
    decreases events.len(),
{
    lemma_run_len(initial(), events);
    if events.len() > 0 {
        let pre = events.drop_last();
        assert forall|i: int| 0 <= i < pre.len() implies !shows_prompt(#[trigger] pre[i]) by {
            assert(pre[i] == events[i]);
        }
        lemma_no_prompt_no_passphrase(pre);
        assert(!shows_prompt(events[events.len() - 1]));
        let rs = run(initial(), events).1;
        assert forall|i: int| 0 <= i < events.len() implies !(#[trigger] rs[i]).send_passphrase by {
            if i < pre.len() {
                assert(rs[i] == run(initial(), pre).1[i]);
            }
        }
    }
}

/// A rejection marker while the verdict is awaited ends the run as `Rejected`, whatever
/// came before and whatever follows: the outcome is never `Unlocked`.
pub proof fn lemma_rejection_is_final(m: UnlockMachine, e: Event, rest: Seq<Event>)
    requires
        m.phase == Phase::AwaitingResult,
        is_verdict_bad(e),
    ensures
        next(m, e).1.outcome == Some(Outcome::Rejected),
        next(m, e).1.note == Some(Note::PassphraseRejected),
        run(next(m, e).0, rest).0.phase == Phase::Finished(Outcome::Rejected),
        forall|i: int| 0 <= i < rest.len() ==> (#[trigger] run(next(m, e).0, rest).1[i]).outcome == Some(
            Outcome::Rejected,
        ),
{
    let s = e->Chunk_0;
    assert(s@.len() > 0) by {
        if s@.len() == 0 {
            assert(!crate::text::contains(s@, crate::machine::BAD_MARKER@)) by {
                reveal_strlit("bad");
            }
            assert(!crate::text::contains(s@, crate::machine::EXHAUSTED_MARKER@)) by {
                reveal_strlit("maximum");
            }
        }
    }
    lemma_finished_is_final(next(m, e).0, rest);
}

/// The success count after a run equals the number of non-empty, non-rejection chunks
/// seen while the verdict was awaited (held at the largest `u64`).
pub proof fn lemma_successes_counted(events: Seq<Event>)
    ensures
        run(initial(), events).0.successes as int == if verdicts_ok(initial(), events) < u64::MAX {
            verdicts_ok(initial(), events) as int
        } else {
            u64::MAX as int
        },
    decreases events.len(),
{
    if events.len() > 0 {
        lemma_successes_counted(events.drop_last());
    }
}

/// When the stream closes after N non-empty, non-rejection chunks seen while the verdict
/// was awaited, the success count is N and the outcome is `Unlocked` exactly when N is
/// at least one.
pub proof fn lemma_closure_outcome(events: Seq<Event>)
    requires
        events.len() > 0,
        events.last() is Closed,
        !(run(initial(), events.drop_last()).0.phase is Finished),
        verdicts_ok(initial(), events) < u64::MAX,
    ensures
        run(initial(), events).0.successes == verdicts_ok(initial(), events),
        run(initial(), events).0.phase == Phase::Finished(
            if verdicts_ok(initial(), events) >= 1 {
                Outcome::Unlocked
            } else {
                Outcome::ChannelClosed
            },
        ),
{
    lemma_successes_counted(events);
    lemma_successes_counted(events.drop_last());
}

/// Cancellation ends any unfinished run at once as `Cancelled`, and nothing is written
/// to the channel afterwards.
pub proof fn lemma_cancel_is_final(m: UnlockMachine, rest: Seq<Event>)
    requires
        !(m.phase is Finished),
    ensures
        next(m, Event::Cancel).1.outcome == Some(Outcome::Cancelled),
        !next(m, Event::Cancel).1.send_passphrase,
        run(next(m, Event::Cancel).0, rest).0.phase == Phase::Finished(Outcome::Cancelled),
        forall|i: int| 0 <= i < rest.len() ==> !(#[trigger] run(next(m, Event::Cancel).0, rest).1[i]).send_passphrase,
{
    lemma_finished_is_final(next(m, Event::Cancel).0, rest);
}

/// Two phases that decide alike: equal while running, or both finished.
pub open spec fn alike(p: Phase, q: Phase) -> bool {
    (p is Finished && q is Finished) || p == q
}

proof fn lemma_alike_step(m: UnlockMachine, n: UnlockMachine, e: Event)
    requires
        alike(m.phase, n.phase),
    ensures
        alike(next(m, e).0.phase, next(n, e).0.phase),
        next(m, e).1.send_passphrase == next(n, e).1.send_passphrase,
{
}

proof fn lemma_alike_run(m: UnlockMachine, n: UnlockMachine, events: Seq<Event>)
    requires
        alike(m.phase, n.phase),
    ensures
        alike(run(m, events).0.phase, run(n, events).0.phase),
        forall|i: int| 0 <= i < events.len() ==> (#[trigger] run(m, events).1[i]).send_passphrase
            == run(n, events).1[i].send_passphrase,
    decreases events.len(),
{
    lemma_run_len(m, events);
    lemma_run_len(n, events);
    if events.len() > 0 {
        let pre = events.drop_last();
        lemma_alike_run(m, n, pre);
        lemma_alike_step(run(m, pre).0, run(n, pre).0, events.last());
        assert forall|i: int| 0 <= i < events.len() implies (#[trigger] run(m, events).1[i]).send_passphrase
            == run(n, events).1[i].send_passphrase by {
            if i < pre.len() {
                assert(run(m, events).1[i] == run(m, pre).1[i]);
                assert(run(n, events).1[i] == run(n, pre).1[i]);
            }
        }
    }
}

/// After a disk is reported unlocked the machine waits for the prompt again, and from
/// there it writes the passphrase on exactly the events on which a fresh machine would.
pub proof fn lemma_success_rearms(m: UnlockMachine, e: Event, rest: Seq<Event>)
    requires
        m.phase == Phase::AwaitingResult,
        is_verdict_ok(e),
        !shows_prompt(e),
    ensures
        next(m, e).0.phase == Phase::AwaitingPrompt,
        next(m, e).0.successes == bump(m.successes),
        next(m, e).1.note == Some(Note::DiskUnlocked(bump(m.successes))),
        forall|i: int| 0 <= i < rest.len() ==> (#[trigger] run(next(m, e).0, rest).1[i]).send_passphrase
            == run(initial(), rest).1[i].send_passphrase,
{
    lemma_alike_run(next(m, e).0, initial(), rest);
}

} // verus!
