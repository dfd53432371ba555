//! The underlying pty and process primitives, as far as the sessions use
//! them. Nothing in this module is proved: each item states what the
//! primitive is taken to do.

use vstd::prelude::*;

verus! {

/// The error type of the pty primitives.
#[verifier::external_type_specification]
#[verifier::external_body]
pub struct ExAnyhowError(anyhow::Error);

/// The error type of the stream and process primitives.
#[verifier::external_type_specification]
#[verifier::external_body]
pub struct ExIoError(std::io::Error);

/// A command line in preparation.
#[verifier::external_type_specification]
#[verifier::external_body]
pub struct ExCommandBuilder(portable_pty::CommandBuilder);

/// How a process ended.
#[verifier::external_type_specification]
#[verifier::external_body]
pub struct ExExitStatus(portable_pty::ExitStatus);

/// The argument vector that a command line holds, the program first.
pub uninterp spec fn command_argv(cmd: portable_pty::CommandBuilder) -> Seq<Seq<char>>;

/// `portable_pty::ExitStatus::success`: whether the process ended without a
/// signal and with return code zero. Nothing is claimed of the answer.
pub assume_specification[ portable_pty::ExitStatus::success ](
    status: &portable_pty::ExitStatus,
) -> (ok: bool)
;

/// The controller end of a pty, as the primitive hands it out.
#[verifier::external_body]
pub struct MasterEnd {
    inner: Box<dyn portable_pty::MasterPty + Send>,
}

/// The follower end of a pty.
#[verifier::external_body]
pub struct SlaveEnd {
    inner: Box<dyn portable_pty::SlavePty + Send>,
}

/// A process running in a pty.
#[verifier::external_body]
pub struct ChildProcess {
    inner: Box<dyn portable_pty::Child + Send + Sync>,
}

/// A readable stream on the controller end.
#[verifier::external_body]
pub struct ReadStream {
    inner: Box<dyn std::io::Read + Send>,
}

/// The writable stream on the controller end.
#[verifier::external_body]
pub struct WriteStream {
    inner: Box<dyn std::io::Write + Send>,
}

/// The size that the system was last asked for on this controller end, and
/// accepted: rows, columns, and the width and height of a cell in pixels.
pub uninterp spec fn asked_size(master: MasterEnd) -> (u16, u16, u16, u16);

/// The argument vector with which a process was started, the program first.
pub uninterp spec fn started_with(child: ChildProcess) -> Seq<Seq<char>>;

/// `portable_pty::native_pty_system` and `PtySystem::openpty` on it: asks
/// the system for a pty of the given size. Whether one is granted is not
/// claimed; one that is granted was asked for with exactly this size, and
/// its two ends come out of the pair unchanged.
#[verifier::external_body]
pub(crate) fn open_pair(rows: u16, cols: u16, pixel_width: u16, pixel_height: u16) -> (r: Result<
    (MasterEnd, SlaveEnd),
    anyhow::Error,
>)
    ensures
        r matches Ok(pair) ==> asked_size(pair.0) == (rows, cols, pixel_width, pixel_height),
{
    let size = portable_pty::PtySize { rows, cols, pixel_width, pixel_height };
    match portable_pty::native_pty_system().openpty(size) {
        Ok(pair) => Ok((MasterEnd { inner: pair.master }, SlaveEnd { inner: pair.slave })),
        Err(e) => Err(e),
    }
}

/// `portable_pty::CommandBuilder::new`: a command line that holds the
/// program alone.
#[verifier::external_body]
pub(crate) fn new_command(program: &str) -> (cmd: portable_pty::CommandBuilder)
    ensures
        command_argv(cmd) == seq![program@],
{
    portable_pty::CommandBuilder::new(program)
}

/// `portable_pty::CommandBuilder::arg`: appends one argument. The primitive
/// panics on a command line without a program, which `requires` leaves out.
#[verifier::external_body]
pub(crate) fn push_arg(cmd: &mut portable_pty::CommandBuilder, arg: &str)
    requires
        command_argv(*old(cmd)).len() > 0,
    ensures
        command_argv(*final(cmd)) == command_argv(*old(cmd)).push(arg@),
{
    cmd.arg(arg)
}

/// `portable_pty::SlavePty::spawn_command`: starts the command with the
/// follower end as its terminal. Whether the process starts is not claimed;
/// one that starts was given the command line's argument vector, where the
/// command line names a program.
#[verifier::external_body]
pub(crate) fn spawn_on(slave: &SlaveEnd, cmd: portable_pty::CommandBuilder) -> (r: Result<
    ChildProcess,
    anyhow::Error,
>)
    ensures
        r matches Ok(child) ==> (command_argv(cmd).len() > 0 ==> started_with(child)
            == command_argv(cmd)),
{
    match slave.inner.spawn_command(cmd) {
        Ok(child) => Ok(ChildProcess { inner: child }),
        Err(e) => Err(e),
    }
}

/// `portable_pty::MasterPty::try_clone_reader`: another readable stream on
/// the controller end. Nothing is claimed of the result.
#[verifier::external_body]
pub(crate) fn clone_reader(master: &MasterEnd) -> (r: Result<ReadStream, anyhow::Error>) {
    match master.inner.try_clone_reader() {
        Ok(reader) => Ok(ReadStream { inner: reader }),
        Err(e) => Err(e),
    }
}

/// `portable_pty::MasterPty::take_writer`: the writable stream on the
/// controller end. Nothing is claimed of the result.
#[verifier::external_body]
pub(crate) fn take_writer(master: &MasterEnd) -> (r: Result<WriteStream, anyhow::Error>) {
    match master.inner.take_writer() {
        Ok(writer) => Ok(WriteStream { inner: writer }),
        Err(e) => Err(e),
    }
}

/// `portable_pty::MasterPty::resize`: tells the system the terminal's new
/// size. Whether the system accepts it is not claimed; accepted, this size
/// is the one last asked for, and refused, the one before stays.
#[verifier::external_body]
pub(crate) fn resize_end(
    master: &mut MasterEnd,
    rows: u16,
    cols: u16,
    pixel_width: u16,
    pixel_height: u16,
) -> (r: Result<(), anyhow::Error>)
    ensures
        r is Ok ==> asked_size(*final(master)) == (rows, cols, pixel_width, pixel_height),
        r is Err ==> asked_size(*final(master)) == asked_size(*old(master)),
{
    master.inner.resize(portable_pty::PtySize { rows, cols, pixel_width, pixel_height })
}

/// `std::io::Read::read` on the stream: fills a prefix of `buf` and returns
/// its length, which is at most the buffer's; the buffer keeps its length.
#[verifier::external_body]
pub(crate) fn read_stream(reader: &mut ReadStream, buf: &mut [u8]) -> (r: Result<
    usize,
    std::io::Error,
>)
    ensures
        final(buf)@.len() == old(buf)@.len(),
        r matches Ok(n) ==> n <= old(buf)@.len(),
{
    reader.inner.read(buf)
}

/// `std::io::Write::write` on the stream: sends a prefix of `buf` and
/// returns its length, which is at most the buffer's.
#[verifier::external_body]
pub(crate) fn write_stream(writer: &mut WriteStream, buf: &[u8]) -> (r: Result<usize, std::io::Error>)
    ensures
        r matches Ok(n) ==> n <= buf@.len(),
{
    writer.inner.write(buf)
}

/// `portable_pty::Child::wait`: blocks until the process has ended. Nothing
/// is claimed of the result.
#[verifier::external_body]
pub(crate) fn wait_process(child: &mut ChildProcess) -> (r: Result<
    portable_pty::ExitStatus,
    std::io::Error,
>) {
    child.inner.wait()
}

/// `portable_pty::Child::try_wait`: looks whether the process has ended,
/// without blocking. Nothing is claimed of the answer; the process stays
/// the one that was started.
#[verifier::external_body]
pub(crate) fn poll_process(child: &mut ChildProcess) -> (r: Result<
    Option<portable_pty::ExitStatus>,
    std::io::Error,
>)
    ensures
        started_with(*final(child)) == started_with(*old(child)),
{
    child.inner.try_wait()
}

/// `portable_pty::ChildKiller::kill`: asks the system to end the process.
/// Nothing is claimed of the answer; the process stays the one that was
/// started.
#[verifier::external_body]
pub(crate) fn kill_process(child: &mut ChildProcess) -> (r: Result<(), std::io::Error>)
    ensures
        started_with(*final(child)) == started_with(*old(child)),
{
    child.inner.kill()
}

} // verus!
