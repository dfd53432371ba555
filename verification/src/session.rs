//! The handles of a session and the operations on them.
//!
//! A handle is a value with one owner. An operation that ends a handle takes
//! it by value; one that uses it borrows it. Where the caller may have no
//! handle to give, the parameter is an `Option`, and `None` is refused before
//! any work.

use vstd::prelude::*;
use crate::backend::{
    asked_size, clone_reader, kill_process, open_pair, poll_process, read_stream, resize_end,
    spawn_on, started_with, take_writer, wait_process, write_stream, ChildProcess, MasterEnd,
    ReadStream, SlaveEnd, WriteStream,
};
use crate::command::{assemble_command, selected};
use crate::exit::{classified, classify, ExitCode, Poll};
use crate::model::{
    collapsed, kill_outcome, kill_step, liveness, opened, poll_outcome, poll_step,
    resize_outcome, resize_step, size_request, wait_outcome, wait_verdict, writer_outcome,
    writer_step, Lifecycle, MasterState,
};
use crate::status::{
    absence, fails_with, open_text, outcome_view, refusal, reply_view, reports, settle,
    spawn_text, unknown_text, ErrorKind, ErrorMessage, Failure,
};

verus! {

/// The controller end of a session: the side that reads what the process
/// prints and writes what it reads.
pub struct Master {
    inner: MasterEnd,
    state: MasterState,
}

impl View for Master {
    type V = MasterState;

    closed spec fn view(&self) -> MasterState {
        self.state
    }
}

impl Master {
    /// The size that the system was last asked for on this controller, and
    /// accepted.
    pub closed spec fn asked(&self) -> (u16, u16, u16, u16) {
        asked_size(self.inner)
    }

    /// The controller's state.
    pub fn state(&self) -> (state: MasterState)
        ensures
            state == self@,
    {
        self.state
    }
}

/// The follower end of a session, which becomes the terminal of one process.
pub struct Follower {
    inner: SlaveEnd,
}

/// A process started in a session.
pub struct Child {
    inner: ChildProcess,
    state: Lifecycle,
}

impl View for Child {
    type V = Lifecycle;

    closed spec fn view(&self) -> Lifecycle {
        self.state
    }
}

impl Child {
    /// The argument vector with which the process was started, the program
    /// first.
    pub closed spec fn argv(&self) -> Seq<Seq<char>> {
        started_with(self.inner)
    }

    /// Where the child stands, as far as the handle knows.
    pub fn lifecycle(&self) -> (state: Lifecycle)
        ensures
            state == self@,
    {
        self.state
    }
}

/// A readable stream of a controller.
pub struct Reader {
    inner: ReadStream,
}

/// The writable stream of a controller.
pub struct Writer {
    inner: WriteStream,
}

/// Opens a session of `rows` by `cols` cells: the system is asked for
/// exactly [`size_request`]. Whether it grants a session is its own
/// decision.
pub fn pty_open(rows: u16, cols: u16) -> (r: Result<(Master, Follower), Failure>)
    ensures
        r matches Ok(pair) ==> pair.0@ == opened(rows, cols),
        r matches Ok(pair) ==> pair.0.asked() == size_request(rows, cols),
        r matches Err(f) ==> reports(f@, ErrorKind::Allocation, open_text()),
{
    let reply: Result<(Master, Follower), String> = match open_pair(rows, cols, 0, 0) {
        Ok((master, slave)) => {
            let state = MasterState { rows, cols, writer_taken: false };
            Ok((Master { inner: master, state }, Follower { inner: slave }))
        },
        Err(e) => Err(e.to_string()),
    };
    settle(reply, ErrorKind::Allocation, ErrorMessage::open_failed())
}

/// Starts `program` on the follower end, with the arguments that `argv`
/// stands for: the process is started with the program followed by exactly
/// those. The follower is used up, whatever the outcome. An absent follower
/// or program is refused without asking the system; otherwise the system
/// decides.
pub fn pty_spawn(
    follower: Option<Follower>,
    program: Option<&str>,
    argv: &Vec<Option<String>>,
    count: Option<usize>,
) -> (r: Result<Child, Failure>)
    ensures
        follower is None ==> fails_with(r, refusal()),
        follower is Some && program is None ==> fails_with(r, absence()),
        follower is Some && program is Some ==> match r {
            Ok(child) => child@ == Lifecycle::Running && child.argv() == seq![program->0@]
                + selected(argv.deep_view(), count),
            Err(f) => reports(f@, ErrorKind::Spawn, spawn_text()),
        },
{
    let follower = match follower {
        Some(follower) => follower,
        None => {
            return Err(Failure::refused());
        },
    };
    let program = match program {
        Some(program) => program,
        None => {
            return Err(Failure::absent_argument());
        },
    };
    let cmd = assemble_command(program, argv, count);
    let reply: Result<Child, String> = match spawn_on(&follower.inner, cmd) {
        Ok(inner) => Ok(Child { inner, state: Lifecycle::Running }),
        Err(e) => Err(e.to_string()),
    };
    settle(reply, ErrorKind::Spawn, ErrorMessage::spawn_failed())
}

/// Opens a session and starts `program` in it, as one step: the caller gets
/// a controller and a child, or neither. No follower is handed out. Where
/// the process cannot be started, the session is closed before the failure
/// is returned.
pub fn pty_open_and_spawn(
    rows: u16,
    cols: u16,
    program: Option<&str>,
    argv: &Vec<Option<String>>,
    count: Option<usize>,
) -> (r: Result<(Master, Child), Failure>)
    ensures
        program is None ==> fails_with(r, absence()),
        program is Some ==> match r {
            Ok(pair) => {
                &&& pair.0@ == opened(rows, cols)
                &&& pair.0.asked() == size_request(rows, cols)
                &&& pair.1@ == Lifecycle::Running
                &&& pair.1.argv() == seq![program->0@] + selected(argv.deep_view(), count)
            },
            Err(f) => reports(f@, ErrorKind::Allocation, open_text()) || reports(
                f@,
                ErrorKind::Spawn,
                spawn_text(),
            ),
        },
{
    if program.is_none() {
        return Err(Failure::absent_argument());
    }
    match pty_open(rows, cols) {
        Ok((master, follower)) => {
            match pty_spawn(Some(follower), program, argv, count) {
                Ok(child) => Ok((master, child)),
                Err(f) => Err(f),
            }
        },
        Err(f) => Err(f),
    }
}

/// Derives one more reader from a controller. It may be called any number
/// of times, and leaves the controller as it is. Whether the system yields
/// another stream is its own decision.
pub fn pty_get_reader(master: Option<&Master>) -> (r: Result<Reader, Failure>)
    ensures
        master is None ==> fails_with(r, refusal()),
        master is Some ==> (r matches Err(f) ==> reports(f@, ErrorKind::Clone, unknown_text())),
{
    let master = match master {
        Some(master) => master,
        None => {
            return Err(Failure::refused());
        },
    };
    let reply: Result<Reader, String> = match clone_reader(&master.inner) {
        Ok(inner) => Ok(Reader { inner }),
        Err(e) => Err(e.to_string()),
    };
    settle(reply, ErrorKind::Clone, ErrorMessage::unknown())
}

/// Takes the writer out of a controller, which succeeds at most once in the
/// controller's life: a controller whose writer is out refuses without
/// asking the system, and one whose writer was just granted is marked. The
/// geometry is not touched.
pub fn pty_get_writer(master: Option<&mut Master>) -> (r: Result<Writer, Failure>)
    ensures
        master is None ==> fails_with(r, refusal()),
        master matches Some(m) ==> exists|reply: Result<Writer, Seq<char>>|
            (final(m)@, outcome_view(r)) == writer_step(m@, reply),
        master matches Some(m) ==> final(m).asked() == m.asked(),
{
    let master = match master {
        Some(master) => master,
        None => {
            return Err(Failure::refused());
        },
    };
    let ghost before = master@;
    if master.state.writer_taken {
        let r = Err(Failure::already_taken());
        assert((master@, outcome_view(r)) == writer_step::<Writer>(before, Err(Seq::empty())));
        return r;
    }
    let reply: Result<Writer, String> = match take_writer(&master.inner) {
        Ok(inner) => Ok(Writer { inner }),
        Err(e) => Err(e.to_string()),
    };
    let ghost answer = reply_view(reply);
    let (state, r) = writer_outcome(master.state, reply);
    master.state = state;
    assert((master@, outcome_view(r)) == writer_step(before, answer));
    r
}

/// Reads into `buf` and returns how many bytes arrived; 0 stands for the end
/// of the stream. It blocks as the stream does. The buffer keeps its
/// length.
pub fn pty_read(reader: Option<&mut Reader>, buf: Option<&mut [u8]>) -> (r: Result<usize, Failure>)
    ensures
        buf matches Some(b) ==> final(b)@.len() == b@.len(),
        reader is None || buf is None ==> fails_with(r, refusal()),
        reader is None ==> (buf matches Some(b) ==> final(b)@ == b@),
        reader is Some ==> (buf matches Some(b) ==> match r {
            Ok(n) => n <= b@.len(),
            Err(f) => reports(f@, ErrorKind::Io, unknown_text()),
        }),
{
    let reader = match reader {
        Some(reader) => reader,
        None => {
            return Err(Failure::refused());
        },
    };
    let buf = match buf {
        Some(buf) => buf,
        None => {
            return Err(Failure::refused());
        },
    };
    let reply: Result<usize, String> = match read_stream(&mut reader.inner, buf) {
        Ok(n) => Ok(n),
        Err(e) => Err(e.to_string()),
    };
    settle(reply, ErrorKind::Io, ErrorMessage::unknown())
}

/// Writes a prefix of `buf` and returns its length: a write may be short,
/// and the caller goes on with the rest.
pub fn pty_write(writer: Option<&mut Writer>, buf: Option<&[u8]>) -> (r: Result<usize, Failure>)
    ensures
        writer is None || buf is None ==> fails_with(r, refusal()),
        writer is Some ==> (buf matches Some(b) ==> match r {
            Ok(n) => n <= b@.len(),
            Err(f) => reports(f@, ErrorKind::Io, unknown_text()),
        }),
{
    let writer = match writer {
        Some(writer) => writer,
        None => {
            return Err(Failure::refused());
        },
    };
    let buf = match buf {
        Some(buf) => buf,
        None => {
            return Err(Failure::refused());
        },
    };
    let reply: Result<usize, String> = match write_stream(&mut writer.inner, buf) {
        Ok(n) => Ok(n),
        Err(e) => Err(e.to_string()),
    };
    settle(reply, ErrorKind::Io, ErrorMessage::unknown())
}

/// Gives a live session a new geometry: the system is asked for exactly
/// [`size_request`], and where it refuses, the size asked for before stays.
/// Readers and the writer derived from the controller are not involved, and
/// whether the writer is out does not change.
pub fn pty_resize(master: Option<&mut Master>, rows: u16, cols: u16) -> (r: Result<(), Failure>)
    ensures
        master is None ==> fails_with(r, refusal()),
        master matches Some(m) ==> exists|reply: Result<(), Seq<char>>|
            (final(m)@, outcome_view(r)) == resize_step(m@, rows, cols, reply),
        master matches Some(m) ==> (r is Ok ==> final(m).asked() == size_request(rows, cols)),
        master matches Some(m) ==> (r is Err ==> final(m).asked() == m.asked()),
{
    let master = match master {
        Some(master) => master,
        None => {
            return Err(Failure::refused());
        },
    };
    let ghost before = master@;
    let reply: Result<(), String> = match resize_end(&mut master.inner, rows, cols, 0, 0) {
        Ok(_) => Ok(()),
        Err(e) => Err(e.to_string()),
    };
    let ghost answer = reply_view(reply);
    let (state, r) = resize_outcome(master.state, rows, cols, reply);
    master.state = state;
    assert((master@, outcome_view(r)) == resize_step(before, rows, cols, answer));
    r
}

/// Waits until the process has ended and classifies its end: exit code 0 or
/// 1, signal 0. The handle is used up, whatever the outcome. A child already
/// known to have ended answers at once with what is known.
pub fn pty_child_wait(child: Option<Child>) -> (r: Result<ExitCode, Failure>)
    ensures
        child is None ==> fails_with(r, refusal()),
        child matches Some(c) ==> exists|reply: Result<bool, Seq<char>>|
            outcome_view(r) == wait_verdict(c@, reply),
        r matches Ok(code) ==> code == classified(true) || code == classified(false),
{
    let mut child = match child {
        Some(child) => child,
        None => {
            return Err(Failure::refused());
        },
    };
    let ghost before = child@;
    if let Lifecycle::Exited { succeeded } = child.state {
        let r = Ok(classify(succeeded));
        assert(outcome_view(r) == wait_verdict(before, Ok(true)));
        return r;
    }
    let reply: Result<bool, String> = match wait_process(&mut child.inner) {
        Ok(status) => Ok(status.success()),
        Err(e) => Err(e.to_string()),
    };
    let ghost answer = reply_view(reply);
    let r = wait_outcome(child.state, reply);
    assert(outcome_view(r) == wait_verdict(before, answer));
    r
}

/// Looks whether the process has ended, without blocking, and classifies an
/// end as a wait does. The handle stays valid. An end that was observed is
/// kept, and later polls answer from it.
pub fn pty_child_try_wait(child: Option<&mut Child>) -> (r: Result<Poll, Failure>)
    ensures
        child is None ==> fails_with(r, refusal()),
        child matches Some(c) ==> exists|reply: Result<Option<bool>, Seq<char>>|
            (final(c)@, outcome_view(r)) == poll_step(c@, reply),
        child matches Some(c) ==> final(c).argv() == c.argv(),
        r matches Ok(Poll::Exited(code)) ==> code == classified(true) || code == classified(false),
{
    let child = match child {
        Some(child) => child,
        None => {
            return Err(Failure::refused());
        },
    };
    let ghost before = child@;
    if let Lifecycle::Exited { succeeded } = child.state {
        let r = Ok(Poll::Exited(classify(succeeded)));
        assert((child@, outcome_view(r)) == poll_step(before, Ok(None)));
        return r;
    }
    let reply: Result<Option<bool>, String> = match poll_process(&mut child.inner) {
        Ok(Some(status)) => Ok(Some(status.success())),
        Ok(None) => Ok(None),
        Err(e) => Err(e.to_string()),
    };
    let ghost answer = reply_view(reply);
    let (state, r) = poll_outcome(child.state, reply);
    child.state = state;
    assert((child@, outcome_view(r)) == poll_step(before, answer));
    r
}

/// Tells whether the process is alive: a poll collapsed to alive, not alive
/// or a failure without text.
pub fn pty_child_is_alive(child: Option<&mut Child>) -> (r: Result<bool, Failure>)
    ensures
        child is None ==> fails_with(r, refusal()),
        child matches Some(c) ==> exists|reply: Result<Option<bool>, Seq<char>>|
            (final(c)@, outcome_view(r)) == (
                poll_step(c@, reply).0,
                collapsed(poll_step(c@, reply).1),
            ),
        child matches Some(c) ==> final(c).argv() == c.argv(),
{
    if child.is_none() {
        return Err(Failure::refused());
    }
    liveness(pty_child_try_wait(child))
}

/// Asks the system to end the process. It does not wait: the end is seen
/// by a later wait or poll, and the handle stays valid.
pub fn pty_child_kill(child: Option<&mut Child>) -> (r: Result<(), Failure>)
    ensures
        child is None ==> fails_with(r, refusal()),
        child matches Some(c) ==> exists|reply: Result<(), Seq<char>>|
            (final(c)@, outcome_view(r)) == kill_step(c@, reply),
        child matches Some(c) ==> final(c).argv() == c.argv(),
{
    let child = match child {
        Some(child) => child,
        None => {
            return Err(Failure::refused());
        },
    };
    let ghost before = child@;
    let reply: Result<(), String> = match kill_process(&mut child.inner) {
        Ok(_) => Ok(()),
        Err(e) => Err(e.to_string()),
    };
    let ghost answer = reply_view(reply);
    let (state, r) = kill_outcome(child.state, reply);
    child.state = state;
    assert((child@, outcome_view(r)) == kill_step(before, answer));
    r
}

/// Releases a controller; without one it does nothing.
pub fn pty_free_master(master: Option<Master>) {
}

/// Releases a child's handle; without one it does nothing. The process
/// itself is not waited for.
pub fn pty_free_child(child: Option<Child>) {
}

/// Releases a reader; without one it does nothing.
pub fn pty_free_reader(reader: Option<Reader>) {
}

/// Releases a writer; without one it does nothing.
pub fn pty_free_writer(writer: Option<Writer>) {
}

/// Releases a diagnostic; without one it does nothing.
pub fn pty_free_err_msg(message: Option<ErrorMessage>) {
}

} // verus!
