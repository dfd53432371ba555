use pty_session::exit::{alive_code, poll_code, ExitCode, Poll};
use pty_session::model::{Lifecycle, MasterState};
use pty_session::session::{
    pty_child_is_alive, pty_child_kill, pty_child_try_wait, pty_child_wait, pty_free_child,
    pty_free_err_msg, pty_free_master, pty_free_reader, pty_free_writer, pty_get_reader,
    pty_get_writer, pty_open, pty_open_and_spawn, pty_read, pty_resize, pty_spawn, pty_write,
    Child, Master, Reader, Writer,
};
use pty_session::status::{status_code, transfer_code, ErrorKind, Failure};
use std::time::{Duration, Instant};

fn entries(items: &[&str]) -> Vec<Option<String>> {
    items.iter().map(|s| Some(s.to_string())).collect()
}

fn start(program: &str, items: &[&str]) -> (Master, Child) {
    match pty_open_and_spawn(24, 80, Some(program), &entries(items), Some(items.len())) {
        Ok(pair) => pair,
        Err(f) => panic!("the session did not start: {:?}", f),
    }
}

fn write_all(writer: &mut Writer, bytes: &[u8]) {
    let mut sent = 0;
    while sent < bytes.len() {
        let n = pty_write(Some(&mut *writer), Some(&bytes[sent..])).ok().unwrap();
        assert!(n <= bytes.len() - sent);
        sent += n;
    }
}

fn read_exactly(reader: &mut Reader, count: usize) -> Vec<u8> {
    let mut got = Vec::new();
    let mut buf = [0u8; 64];
    while got.len() < count {
        let want = (count - got.len()).min(buf.len());
        let n = pty_read(Some(&mut *reader), Some(&mut buf[..want])).ok().unwrap();
        assert!(n <= want);
        assert!(n > 0, "the stream ended early");
        got.extend_from_slice(&buf[..n]);
    }
    got
}

fn read_line(reader: &mut Reader) -> String {
    let mut line = Vec::new();
    let mut one = [0u8; 1];
    loop {
        let n = pty_read(Some(&mut *reader), Some(&mut one[..])).ok().unwrap();
        assert_eq!(n, 1, "the stream ended early");
        if one[0] == b'\n' {
            break;
        }
        if one[0] != b'\r' {
            line.push(one[0]);
        }
    }
    String::from_utf8(line).unwrap()
}

fn end(mut child: Child) -> ExitCode {
    let _ = pty_child_kill(Some(&mut child));
    pty_child_wait(Some(child)).ok().unwrap()
}

fn assert_refused<T>(r: Result<T, Failure>) {
    assert_eq!(status_code(&r), -1);
    let f = r.err().unwrap();
    assert_eq!(f.kind, ErrorKind::PreconditionViolation);
    assert!(f.message.is_none());
}

#[test]
fn a_session_opens_with_the_geometry_asked_for() {
    let (master, child) = start("cat", &[]);
    assert_eq!(master.state(), MasterState { rows: 24, cols: 80, writer_taken: false });
    assert_eq!(child.lifecycle(), Lifecycle::Running);
    end(child);
    pty_free_master(Some(master));
}

#[test]
fn the_terminal_has_the_geometry_asked_for_at_open() {
    let argv = entries(&["size"]);
    let (master, child) = pty_open_and_spawn(24, 80, Some("stty"), &argv, Some(1)).ok().unwrap();
    let mut reader = pty_get_reader(Some(&master)).ok().unwrap();
    assert_eq!(read_line(&mut reader), "24 80");
    assert_eq!(pty_child_wait(Some(child)).ok(), Some(ExitCode { exit_code: 0, signal: 0 }));
    let (tall, other) = pty_open_and_spawn(132, 43, Some("stty"), &argv, Some(1)).ok().unwrap();
    let mut reader = pty_get_reader(Some(&tall)).ok().unwrap();
    assert_eq!(read_line(&mut reader), "132 43");
    assert_eq!(pty_child_wait(Some(other)).ok(), Some(ExitCode { exit_code: 0, signal: 0 }));
}

#[test]
fn the_terminal_has_the_geometry_asked_for_by_a_resize() {
    let script = "stty -echo; echo ready; read x; stty size; read y; stty size";
    let (mut master, child) = start("sh", &["-c", script]);
    let mut reader = pty_get_reader(Some(&master)).ok().unwrap();
    let mut writer = pty_get_writer(Some(&mut master)).ok().unwrap();
    assert_eq!(read_line(&mut reader), "ready");
    assert!(pty_resize(Some(&mut master), 40, 100).is_ok());
    write_all(&mut writer, b"\n");
    assert_eq!(read_line(&mut reader), "40 100");
    assert!(pty_resize(Some(&mut master), 7, 300).is_ok());
    write_all(&mut writer, b"\n");
    assert_eq!(read_line(&mut reader), "7 300");
    assert_eq!(master.state(), MasterState { rows: 7, cols: 300, writer_taken: true });
    assert_eq!(pty_child_wait(Some(child)).ok(), Some(ExitCode { exit_code: 0, signal: 0 }));
}

#[test]
fn a_resize_after_open_succeeds_and_keeps_the_streams() {
    let sizes = [(1u16, 1u16), (24, 80), (50, 132), (65535, 65535), (40, 100)];
    let (mut master, child) = start("cat", &[]);
    let mut reader = pty_get_reader(Some(&master)).ok().unwrap();
    let mut writer = pty_get_writer(Some(&mut master)).ok().unwrap();
    for (rows, cols) in sizes {
        let r = pty_resize(Some(&mut master), rows, cols);
        assert_eq!(status_code(&r), 0);
        assert_eq!(master.state(), MasterState { rows, cols, writer_taken: true });
        write_all(&mut writer, b"ok");
        assert_eq!(read_exactly(&mut reader, 2), b"ok".to_vec());
    }
    end(child);
}

#[test]
fn the_writer_is_handed_out_once() {
    let (mut master, child) = start("cat", &[]);
    let first = pty_get_writer(Some(&mut master));
    assert_eq!(status_code(&first), 0);
    assert!(master.state().writer_taken);
    let second = pty_get_writer(Some(&mut master));
    assert_eq!(status_code(&second), -1);
    let f = second.err().unwrap();
    assert_eq!(f.kind, ErrorKind::AlreadyTaken);
    assert_eq!(f.message.unwrap().as_str(), "cannot take writer more than once");
    let third = pty_get_writer(Some(&mut master));
    assert_eq!(third.err().unwrap().kind, ErrorKind::AlreadyTaken);
    assert_eq!(master.state(), MasterState { rows: 24, cols: 80, writer_taken: true });
    end(child);
}

#[test]
fn readers_are_independent_of_each_other() {
    let (mut master, child) = start("cat", &[]);
    let first = pty_get_reader(Some(&master)).ok().unwrap();
    let mut second = pty_get_reader(Some(&master)).ok().unwrap();
    let third = pty_get_reader(Some(&master)).ok().unwrap();
    assert!(!master.state().writer_taken);
    let mut writer = pty_get_writer(Some(&mut master)).ok().unwrap();
    pty_free_reader(Some(first));
    pty_free_reader(Some(third));
    write_all(&mut writer, b"abc");
    assert_eq!(read_exactly(&mut second, 3), b"abc".to_vec());
    end(child);
}

#[test]
fn what_is_written_is_read_back() {
    let (mut master, child) = start("cat", &[]);
    let mut reader = pty_get_reader(Some(&master)).ok().unwrap();
    let mut writer = pty_get_writer(Some(&mut master)).ok().unwrap();
    let message = b"round trip 0123456789";
    write_all(&mut writer, message);
    assert_eq!(read_exactly(&mut reader, message.len()), message.to_vec());
    end(child);
    pty_free_writer(Some(writer));
    pty_free_reader(Some(reader));
    pty_free_master(Some(master));
}

#[test]
fn what_is_written_is_read_back_in_small_reads() {
    let (mut master, child) = start("cat", &[]);
    let mut reader = pty_get_reader(Some(&master)).ok().unwrap();
    let mut writer = pty_get_writer(Some(&mut master)).ok().unwrap();
    write_all(&mut writer, b"hello");
    let mut got = Vec::new();
    let mut one = [0u8; 1];
    while got.len() < 5 {
        let r = pty_read(Some(&mut reader), Some(&mut one[..]));
        assert_eq!(transfer_code(&r), 1);
        got.push(one[0]);
    }
    assert_eq!(got, b"hello".to_vec());
    end(child);
}

#[test]
fn a_read_at_the_end_of_the_stream_returns_zero() {
    let (master, child) = start("true", &[]);
    let mut reader = pty_get_reader(Some(&master)).ok().unwrap();
    assert_eq!(pty_child_wait(Some(child)).ok(), Some(ExitCode { exit_code: 0, signal: 0 }));
    let mut buf = [0u8; 16];
    let started = Instant::now();
    loop {
        let r = pty_read(Some(&mut reader), Some(&mut buf[..]));
        if transfer_code(&r) == 0 {
            break;
        }
        assert!(r.is_ok());
        assert!(started.elapsed() < Duration::from_secs(10));
    }
}

#[test]
fn an_empty_buffer_reads_nothing() {
    let (master, child) = start("cat", &[]);
    let mut reader = pty_get_reader(Some(&master)).ok().unwrap();
    let mut none: [u8; 0] = [];
    let r = pty_read(Some(&mut reader), Some(&mut none[..]));
    assert_eq!(r.ok(), Some(0));
    end(child);
}

#[test]
fn a_failed_spawn_leaves_no_session_behind() {
    for _ in 0..10_000 {
        let r = pty_open_and_spawn(
            24,
            80,
            Some("/nonexistent/no-such-program"),
            &entries(&["x"]),
            Some(1),
        );
        assert_eq!(status_code(&r), -1);
        let f = r.err().unwrap();
        assert_eq!(f.kind, ErrorKind::Spawn);
        let text = f.message.unwrap();
        assert!(!text.as_str().is_empty());
        pty_free_err_msg(Some(text));
    }
    let (master, child) = start("true", &[]);
    assert_eq!(pty_child_wait(Some(child)).ok(), Some(ExitCode { exit_code: 0, signal: 0 }));
    pty_free_master(Some(master));
}

#[test]
fn an_empty_program_is_a_spawn_failure() {
    let r = pty_open_and_spawn(24, 80, Some(""), &entries(&[]), None);
    assert_eq!(r.err().unwrap().kind, ErrorKind::Spawn);
}

#[test]
fn an_absent_program_is_refused_with_a_diagnostic() {
    let r = pty_open_and_spawn(24, 80, None, &entries(&["x"]), Some(1));
    assert_eq!(status_code(&r), -1);
    let f = r.err().unwrap();
    assert_eq!(f.kind, ErrorKind::PreconditionViolation);
    assert_eq!(f.message.unwrap().as_str(), "Null pointer provided");
}

#[test]
fn wait_classifies_success_and_failure() {
    let (_m0, ok) = start("sh", &["-c", "exit 0"]);
    assert_eq!(pty_child_wait(Some(ok)).ok(), Some(ExitCode { exit_code: 0, signal: 0 }));
    let (_m1, failed) = start("sh", &["-c", "exit 1"]);
    assert_eq!(pty_child_wait(Some(failed)).ok(), Some(ExitCode { exit_code: 1, signal: 0 }));
    let (_m2, other) = start("sh", &["-c", "exit 7"]);
    assert_eq!(pty_child_wait(Some(other)).ok(), Some(ExitCode { exit_code: 1, signal: 0 }));
}

#[test]
fn absent_entries_are_passed_over_when_counted() {
    let argv = vec![Some("-c".to_string()), None, Some("exit 0".to_string())];
    let (_m, child) = pty_open_and_spawn(24, 80, Some("sh"), &argv, Some(3)).ok().unwrap();
    assert_eq!(pty_child_wait(Some(child)).ok(), Some(ExitCode { exit_code: 0, signal: 0 }));
}

#[test]
fn the_first_absent_entry_ends_the_arguments_when_not_counted() {
    let argv = vec![Some("-c".to_string()), None, Some("exit 0".to_string())];
    let (_m, child) = pty_open_and_spawn(24, 80, Some("sh"), &argv, None).ok().unwrap();
    assert_eq!(pty_child_wait(Some(child)).ok(), Some(ExitCode { exit_code: 1, signal: 0 }));
}

#[test]
fn open_and_spawn_in_two_steps() {
    let (master, follower) = pty_open(30, 90).ok().unwrap();
    assert_eq!(master.state(), MasterState { rows: 30, cols: 90, writer_taken: false });
    let child = pty_spawn(Some(follower), Some("true"), &entries(&[]), None).ok().unwrap();
    assert_eq!(child.lifecycle(), Lifecycle::Running);
    assert_eq!(pty_child_wait(Some(child)).ok(), Some(ExitCode { exit_code: 0, signal: 0 }));
}

#[test]
fn a_spawn_without_follower_or_program_is_refused() {
    assert_refused(pty_spawn(None, Some("true"), &entries(&[]), None));
    let (_master, follower) = pty_open(24, 80).ok().unwrap();
    let f = pty_spawn(Some(follower), None, &entries(&[]), None).err().unwrap();
    assert_eq!(f.kind, ErrorKind::PreconditionViolation);
    assert_eq!(f.message.unwrap().as_str(), "Null pointer provided");
}

#[test]
fn a_poll_finds_a_running_process_and_later_its_end() {
    let (_master, mut child) = start("sleep", &["1"]);
    let begun = Instant::now();
    let first = pty_child_try_wait(Some(&mut child));
    assert!(begun.elapsed() < Duration::from_millis(500));
    assert_eq!(poll_code(&first), 1);
    assert_eq!(first.ok(), Some(Poll::StillRunning));
    assert_eq!(child.lifecycle(), Lifecycle::Running);
    let alive = pty_child_is_alive(Some(&mut child));
    assert_eq!(alive_code(&alive), 1);
    let done = ExitCode { exit_code: 0, signal: 0 };
    loop {
        let asked = Instant::now();
        let poll = pty_child_try_wait(Some(&mut child));
        assert!(asked.elapsed() < Duration::from_millis(500));
        match poll.ok().unwrap() {
            Poll::Exited(code) => {
                assert_eq!(code, done);
                break;
            },
            Poll::StillRunning => assert!(begun.elapsed() < Duration::from_secs(10)),
        }
    }
    assert_eq!(child.lifecycle(), Lifecycle::Exited { succeeded: true });
    assert_eq!(child.lifecycle().exit_code(), Some(done));
    let again = pty_child_try_wait(Some(&mut child));
    assert_eq!(poll_code(&again), 0);
    assert_eq!(again.ok(), Some(Poll::Exited(done)));
    assert_eq!(pty_child_is_alive(Some(&mut child)).ok(), Some(false));
    assert_eq!(pty_child_wait(Some(child)).ok(), Some(done));
}

#[test]
fn a_poll_classifies_a_failed_end() {
    let (_master, mut child) = start("false", &[]);
    let begun = Instant::now();
    loop {
        match pty_child_try_wait(Some(&mut child)).ok().unwrap() {
            Poll::Exited(code) => {
                assert_eq!(code, ExitCode { exit_code: 1, signal: 0 });
                break;
            },
            Poll::StillRunning => assert!(begun.elapsed() < Duration::from_secs(10)),
        }
    }
    pty_free_child(Some(child));
}

#[test]
fn a_killed_process_is_reaped_promptly() {
    let (_master, mut child) = start("sleep", &["30"]);
    let begun = Instant::now();
    let killed = pty_child_kill(Some(&mut child));
    assert_eq!(status_code(&killed), 0);
    assert_eq!(child.lifecycle(), Lifecycle::KillPending);
    let code = pty_child_wait(Some(child)).ok().unwrap();
    assert!(begun.elapsed() < Duration::from_secs(5));
    assert_ne!(code.exit_code, 0);
    assert_eq!(code, ExitCode { exit_code: 1, signal: 0 });
}

#[test]
fn a_killed_process_is_seen_by_a_poll() {
    let (_master, mut child) = start("sleep", &["30"]);
    assert!(pty_child_kill(Some(&mut child)).is_ok());
    let begun = Instant::now();
    loop {
        match pty_child_is_alive(Some(&mut child)).ok().unwrap() {
            false => break,
            true => assert!(begun.elapsed() < Duration::from_secs(5)),
        }
    }
    assert_eq!(child.lifecycle(), Lifecycle::Exited { succeeded: false });
}

#[test]
fn an_absent_handle_is_refused() {
    let mut buf = [0u8; 4];
    assert_refused(pty_get_reader(None));
    assert_refused(pty_get_writer(None));
    assert_refused(pty_resize(None, 24, 80));
    assert_refused(pty_read(None, Some(&mut buf[..])));
    assert_refused(pty_write(None, Some(&buf[..])));
    assert_refused(pty_child_wait(None));
    assert_refused(pty_child_try_wait(None));
    assert_refused(pty_child_is_alive(None));
    assert_refused(pty_child_kill(None));
    assert_eq!(buf, [0u8; 4]);
}

#[test]
fn an_absent_buffer_is_refused() {
    let (mut master, child) = start("cat", &[]);
    let mut reader = pty_get_reader(Some(&master)).ok().unwrap();
    let mut writer = pty_get_writer(Some(&mut master)).ok().unwrap();
    assert_refused(pty_read(Some(&mut reader), None));
    assert_refused(pty_write(Some(&mut writer), None));
    end(child);
}

#[test]
fn releasing_nothing_does_nothing() {
    pty_free_master(None);
    pty_free_child(None);
    pty_free_reader(None);
    pty_free_writer(None);
    pty_free_err_msg(None);
}
