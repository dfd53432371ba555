//! What holds of the sessions whatever the system answers.

use vstd::prelude::*;
use crate::command::{first_absent, present, scan_len, selected};
use crate::exit::{classified, spec_alive_code, spec_poll_code, ExitCode, Poll};
use crate::model::{
    collapsed, kill_step, opened, poll_step, resize_step, wait_verdict, writer_step, Lifecycle,
    MasterState,
};
use crate::status::{
    absent_text, fault_prefix, has_nul, lemma_has_nul_concat, open_text, sanitized, spawn_text,
    taken_failure, taken_text, unknown_text, FailureView, Operation,
};

verus! {

/// A resize changes the geometry and nothing else: accepted, it sets the
/// geometry asked for; refused, it leaves the controller as it was. Either
/// way the writer stays where it is, out or not.
pub proof fn law_resize_touches_geometry_only(
    before: MasterState,
    rows: u16,
    cols: u16,
    reply: Result<(), Seq<char>>,
)
    ensures
        resize_step(before, rows, cols, reply).0.writer_taken == before.writer_taken,
        reply is Ok ==> resize_step(before, rows, cols, reply) == (
            MasterState { rows, cols, writer_taken: before.writer_taken },
            Ok::<(), FailureView>(()),
        ),
        reply is Err ==> resize_step(before, rows, cols, reply).0 == before && resize_step(
            before,
            rows,
            cols,
            reply,
        ).1 is Err,
{
}

/// A controller that was just opened takes any geometry that the system
/// accepts.
pub proof fn law_resize_after_open(rows: u16, cols: u16, new_rows: u16, new_cols: u16)
    ensures
        resize_step(opened(rows, cols), new_rows, new_cols, Ok(())) == (
            opened(new_rows, new_cols),
            Ok::<(), FailureView>(()),
        ),
{
}

/// Once a writer was granted, the next request is refused as already taken,
/// whatever the system would answer, and the controller stays as it is.
pub proof fn law_writer_granted_once<T>(
    before: MasterState,
    first: Result<T, Seq<char>>,
    second: Result<T, Seq<char>>,
)
    requires
        writer_step(before, first).1 is Ok,
    ensures
        writer_step(writer_step(before, first).0, second) == (
            writer_step(before, first).0,
            Err::<T, FailureView>(taken_failure()),
        ),
{
}

/// A writer is granted only by a controller whose writer is not out, and
/// only where the system grants it.
pub proof fn law_writer_grant_needs_both<T>(before: MasterState, reply: Result<T, Seq<char>>)
    ensures
        writer_step(before, reply).1 is Ok <==> !before.writer_taken && reply is Ok,
        writer_step(before, reply).0.writer_taken <==> before.writer_taken || reply is Ok,
        writer_step(before, reply).0.rows == before.rows,
        writer_step(before, reply).0.cols == before.cols,
{
}

/// What is done to a controller, with the system's answer.
pub enum MasterEvent {
    /// A reader was asked for.
    Reader,
    /// The writer was asked for.
    Writer(Result<(), Seq<char>>),
    /// A resize was asked for.
    Resize(u16, u16, Result<(), Seq<char>>),
}

/// The controller's state after one event.
pub open spec fn master_after(before: MasterState, event: MasterEvent) -> MasterState {
    match event {
        MasterEvent::Reader => before,
        MasterEvent::Writer(reply) => writer_step(before, reply).0,
        MasterEvent::Resize(rows, cols, reply) => resize_step(before, rows, cols, reply).0,
    }
}

/// Whether the event hands a writer out.
pub open spec fn grants_writer(before: MasterState, event: MasterEvent) -> bool {
    match event {
        MasterEvent::Writer(reply) => writer_step(before, reply).1 is Ok,
        _ => false,
    }
}

/// The controller's state after a run of events.
pub open spec fn master_after_all(before: MasterState, events: Seq<MasterEvent>) -> MasterState
    decreases events.len(),
{
    if events.len() == 0 {
        before
    } else {
        master_after(master_after_all(before, events.drop_last()), events.last())
    }
}

/// How many writers a run of events hands out.
pub open spec fn writers_granted(before: MasterState, events: Seq<MasterEvent>) -> nat
    decreases events.len(),
{
    if events.len() == 0 {
        0
    } else {
        let earlier = events.drop_last();
        let granted: nat = if grants_writer(master_after_all(before, earlier), events.last()) {
            1
        } else {
            0
        };
        writers_granted(before, earlier) + granted
    }
}

/// Over its whole life a controller hands out at most one writer, and none
/// where its writer is out already; it has handed one out exactly where its
/// writer is out at the end and was not at the start.
pub proof fn law_at_most_one_writer(before: MasterState, events: Seq<MasterEvent>)
    ensures
        writers_granted(before, events) <= 1,
        before.writer_taken ==> writers_granted(before, events) == 0,
        before.writer_taken ==> master_after_all(before, events).writer_taken,
        !before.writer_taken ==> (writers_granted(before, events) == 1 <==> master_after_all(
            before,
            events,
        ).writer_taken),
    decreases events.len(),
{
    if events.len() > 0 {
        law_at_most_one_writer(before, events.drop_last());
    }
}

/// A child known to have ended stays so: a poll answers with the known
/// classification without consulting the system, a wait returns it, and a
/// termination request leaves it in place.
pub proof fn law_exited_is_final(
    succeeded: bool,
    poll: Result<Option<bool>, Seq<char>>,
    wait: Result<bool, Seq<char>>,
    kill: Result<(), Seq<char>>,
)
    ensures
        poll_step(Lifecycle::Exited { succeeded }, poll) == (
            Lifecycle::Exited { succeeded },
            Ok::<Poll, FailureView>(Poll::Exited(classified(succeeded))),
        ),
        wait_verdict(Lifecycle::Exited { succeeded }, wait) == Ok::<ExitCode, FailureView>(
            classified(succeeded),
        ),
        kill_step(Lifecycle::Exited { succeeded }, kill).0 == (Lifecycle::Exited { succeeded }),
{
}

/// Every end that a wait or a poll reports is a classification: exit code 0
/// or 1, signal 0, for every child and every answer of the system.
pub proof fn law_every_end_is_classified(
    before: Lifecycle,
    poll: Result<Option<bool>, Seq<char>>,
    wait: Result<bool, Seq<char>>,
)
    ensures
        wait_verdict(before, wait) matches Ok(code) ==> code == classified(true) || code
            == classified(false),
        poll_step(before, poll).1 matches Ok(Poll::Exited(code)) ==> code == classified(true)
            || code == classified(false),
        poll_step(before, poll).1 matches Ok(Poll::Exited(code)) ==> poll_step(
            before,
            poll,
        ).0.code() == Some(code),
{
}

/// After a poll has seen the end, every later poll and the wait give the
/// same classification.
pub proof fn law_observed_end_is_kept(
    before: Lifecycle,
    first: Result<Option<bool>, Seq<char>>,
    later: Result<Option<bool>, Seq<char>>,
    wait: Result<bool, Seq<char>>,
)
    requires
        poll_step(before, first).1 is Ok,
        poll_step(before, first).1->Ok_0 is Exited,
    ensures
        poll_step(poll_step(before, first).0, later).1 == poll_step(before, first).1,
        wait_verdict(poll_step(before, first).0, wait) == Ok::<ExitCode, FailureView>(
            poll_step(before, first).1->Ok_0->Exited_0,
        ),
{
}

/// A poll that finds the process running, or fails, leaves the child where
/// it stood.
pub proof fn law_poll_without_end_keeps_state(
    before: Lifecycle,
    reply: Result<Option<bool>, Seq<char>>,
)
    requires
        !(poll_step(before, reply).1 is Ok && poll_step(before, reply).1->Ok_0 is Exited),
    ensures
        poll_step(before, reply).0 == before,
{
}

/// A termination request observes no end: the child is known to have ended
/// after it exactly where it was before. A running child is marked when the
/// request is delivered, and a failed request changes nothing.
pub proof fn law_kill_observes_no_end(before: Lifecycle, reply: Result<(), Seq<char>>)
    ensures
        kill_step(before, reply).0 is Exited <==> before is Exited,
        before == Lifecycle::Running && reply is Ok ==> kill_step(before, reply).0
            == Lifecycle::KillPending,
        reply is Err ==> kill_step(before, reply).0 == before,
{
}

/// An end is classified as 0 for success and 1 otherwise, with signal 0,
/// by a wait and by a poll alike.
pub proof fn law_classification(before: Lifecycle, succeeded: bool)
    requires
        !(before is Exited),
    ensures
        classified(true) == (ExitCode { exit_code: 0, signal: 0 }),
        classified(false) == (ExitCode { exit_code: 1, signal: 0 }),
        wait_verdict(before, Ok(succeeded)) == Ok::<ExitCode, FailureView>(classified(succeeded)),
        poll_step(before, Ok(Some(succeeded))).1 == Ok::<Poll, FailureView>(
            Poll::Exited(classified(succeeded)),
        ),
{
}

/// The liveness check is the poll collapsed: both give the same status, and
/// the check answers "alive" exactly where the poll finds the process
/// running.
pub proof fn law_liveness_is_collapsed_poll(poll: Result<Poll, FailureView>)
    ensures
        spec_alive_code(collapsed(poll)) == spec_poll_code(poll),
        collapsed(poll) == Ok::<bool, FailureView>(true) <==> poll == Ok::<Poll, FailureView>(
            Poll::StillRunning,
        ),
        collapsed(poll) is Err <==> poll is Err,
{
}

/// A diagnostic made from any text holds no NUL, given a fallback without
/// one; a text without a NUL is kept as it is.
pub proof fn law_sanitized_has_no_nul(raw: Seq<char>, fallback: Seq<char>)
    requires
        !has_nul(fallback),
    ensures
        !has_nul(sanitized(raw, fallback)),
        !has_nul(raw) ==> sanitized(raw, fallback) == raw,
        sanitized(sanitized(raw, fallback), fallback) == sanitized(raw, fallback),
{
}

/// None of the fixed diagnostics holds a NUL, nor does the diagnostic of an
/// abnormal end, for any operation.
pub proof fn law_fixed_texts_have_no_nul(op: Operation)
    ensures
        !has_nul(unknown_text()),
        !has_nul(open_text()),
        !has_nul(spawn_text()),
        !has_nul(absent_text()),
        !has_nul(taken_text()),
        !has_nul(fault_prefix() + op.name()),
{
    reveal_strlit("Unknown error");
    reveal_strlit("Failed to open PTY");
    reveal_strlit("Failed to spawn command");
    reveal_strlit("Null pointer provided");
    reveal_strlit("cannot take writer more than once");
    reveal_strlit("internal fault in ");
    reveal_strlit("pty_open_and_spawn");
    reveal_strlit("pty_get_reader");
    reveal_strlit("pty_get_writer");
    reveal_strlit("pty_read");
    reveal_strlit("pty_write");
    reveal_strlit("pty_resize");
    reveal_strlit("pty_child_wait");
    reveal_strlit("pty_child_kill");
    reveal_strlit("pty_child_is_alive");
    reveal_strlit("pty_child_try_wait");
    lemma_has_nul_concat(fault_prefix(), op.name());
}

/// A run of entries without a gap stands for the entries themselves.
proof fn lemma_present_run(entries: Seq<Option<Seq<char>>>)
    requires
        forall|i: int| 0 <= i < entries.len() ==> (#[trigger] entries[i]) is Some,
    ensures
        present(entries).len() == entries.len(),
        forall|i: int| 0 <= i < entries.len() ==> #[trigger] present(entries)[i] == entries[i]->0,
    decreases entries.len(),
{
    if entries.len() > 0 {
        let rest = entries.drop_last();
        assert forall|i: int| 0 <= i < rest.len() implies (#[trigger] rest[i]) is Some by {
            assert(rest[i] == entries[i]);
        }
        lemma_present_run(rest);
        assert(entries.last() is Some);
        assert(present(entries) == present(rest) + seq![entries.last()->0]);
        assert forall|i: int| 0 <= i < entries.len() implies #[trigger] present(entries)[i]
            == entries[i]->0 by {
            if i < rest.len() {
                assert(present(rest)[i] == rest[i]->0);
                assert(rest[i] == entries[i]);
            }
        }
    }
}

/// Before the first absent entry every entry is present, and the first
/// absent entry, if there is one, is absent.
proof fn lemma_first_absent_bounds(entries: Seq<Option<Seq<char>>>)
    ensures
        0 <= first_absent(entries) <= entries.len(),
        forall|i: int| 0 <= i < first_absent(entries) ==> entries[i] is Some,
        first_absent(entries) < entries.len() ==> entries[first_absent(entries)] is None,
    decreases entries.len(),
{
    if entries.len() > 0 && entries[0] is Some {
        let rest = entries.drop_first();
        lemma_first_absent_bounds(rest);
        assert forall|i: int| 0 <= i < first_absent(entries) implies entries[i] is Some by {
            if i > 0 {
                assert(rest[i - 1] == entries[i]);
            }
        }
        if first_absent(entries) < entries.len() {
            assert(rest[first_absent(rest)] == entries[first_absent(entries)]);
        }
    }
}

/// Without a count the arguments are the entries before the first absent
/// one, each kept, in their order; what follows the first absent entry is
/// not looked at.
pub proof fn law_uncounted_stops_at_first_absent(entries: Seq<Option<Seq<char>>>)
    ensures
        0 <= first_absent(entries) <= entries.len(),
        first_absent(entries) < entries.len() ==> entries[first_absent(entries)] is None,
        selected(entries, None).len() == first_absent(entries),
        forall|i: int|
            0 <= i < first_absent(entries) ==> entries[i] is Some && selected(entries, None)[i]
                == entries[i]->0,
{
    lemma_first_absent_bounds(entries);
    let k = first_absent(entries);
    let run = entries.take(k);
    assert forall|i: int| 0 <= i < run.len() implies (#[trigger] run[i]) is Some by {
        assert(run[i] == entries[i]);
    }
    lemma_present_run(run);
    assert forall|i: int| 0 <= i < k implies entries[i] is Some && selected(entries, None)[i]
        == entries[i]->0 by {
        assert(run[i] == entries[i]);
        assert(present(run)[i] == run[i]->0);
    }
}

/// With a count and no absent entry among those counted, the arguments are
/// the counted entries, each kept, in their order.
pub proof fn law_counted_without_gaps(entries: Seq<Option<Seq<char>>>, count: usize)
    requires
        forall|i: int| 0 <= i < scan_len(entries, Some(count)) ==> entries[i] is Some,
    ensures
        selected(entries, Some(count)).len() == scan_len(entries, Some(count)),
        forall|i: int|
            0 <= i < scan_len(entries, Some(count)) ==> selected(entries, Some(count))[i]
                == entries[i]->0,
{
    let k = scan_len(entries, Some(count));
    let run = entries.take(k);
    assert forall|i: int| 0 <= i < run.len() implies (#[trigger] run[i]) is Some by {
        assert(run[i] == entries[i]);
    }
    lemma_present_run(run);
    assert forall|i: int| 0 <= i < k implies selected(entries, Some(count))[i]
        == entries[i]->0 by {
        assert(run[i] == entries[i]);
        assert(present(run)[i] == run[i]->0);
    }
}

/// With a count an absent entry is passed over, not taken for the end: the
/// arguments of the first `n + 1` entries are those of the first `n`,
/// followed by entry `n` where it is present.
pub proof fn law_counted_passes_over_absent(entries: Seq<Option<Seq<char>>>, n: usize)
    requires
        n < entries.len(),
        n < usize::MAX,
    ensures
        entries[n as int] is None ==> selected(entries, Some((n + 1) as usize)) == selected(
            entries,
            Some(n),
        ),
        entries[n as int] is Some ==> selected(entries, Some((n + 1) as usize)) == selected(
            entries,
            Some(n),
        ).push(entries[n as int]->0),
{
    entries.lemma_filter_map_take_succ(|e: Option<Seq<char>>| e, n as int);
}

} // verus!
