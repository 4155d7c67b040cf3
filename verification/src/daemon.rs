use vstd::prelude::*;
use crate::text::{
    decimal_digits, decimal_string, is_white_space, lemma_decimal_roundtrip, parse_trimmed_u32,
    parse_u32_spec, push_decimal, trim, trim_end, trim_start,
};

verus! {

/// The process id written in a pid file's contents, as `s.trim().parse::<u32>()` reads it.
pub fn read_pid(contents: Option<String>) -> (r: Option<u32>)
    ensures
        r == match contents {
            Some(s) => parse_u32_spec(trim(s@)),
            None => None,
        },
{
    match contents {
        Some(s) => parse_trimmed_u32(s.as_str()),
        None => None,
    }
}

/// The contents of a pid file for process `pid`: its decimal digits.
pub fn pid_file_contents(pid: u32) -> (r: String)
    ensures
        r@ == decimal_digits(pid as nat),
{
    decimal_string(pid as u64)
}

/// Reading a pid file gives back the process id written to it.
pub proof fn law_pid_file_roundtrip(pid: u32)
    ensures
        parse_u32_spec(trim(decimal_digits(pid as nat))) == Some(pid),
{
    let d = decimal_digits(pid as nat);
    lemma_decimal_roundtrip(pid as nat);
    assert(crate::text::is_decimal_digit(d[0]));
    assert(crate::text::is_decimal_digit(d[d.len() - 1]));
    assert(!is_white_space(d[0]));
    assert(trim_start(d) == d);
    assert(!is_white_space(d.last()));
    assert(trim_end(d) == d);
    assert(d[0] != '+') by {
        assert(('+' as u32) == 43);
    }
}

/// What the daemon's pid file and process table say about it.
#[derive(Debug)]
pub enum DaemonState {
    /// The pid file names a live process.
    Running(u32),
    /// The pid file names a process that is gone.
    Stale(u32),
    /// There is no readable pid file.
    NotRunning,
}

/// The daemon's state from the pid read from its file and whether that process is alive.
pub fn daemon_state(pid: Option<u32>, alive: bool) -> (r: DaemonState)
    ensures
        r == match pid {
            Some(p) => if alive {
                DaemonState::Running(p)
            } else {
                DaemonState::Stale(p)
            },
            None => DaemonState::NotRunning,
        },
{
    match pid {
        Some(p) => if alive {
            DaemonState::Running(p)
        } else {
            DaemonState::Stale(p)
        },
        None => DaemonState::NotRunning,
    }
}

/// What `rippy status` prints for a state.
pub fn status_message(state: &DaemonState) -> (r: String)
    ensures
        r@ == match *state {
            DaemonState::Running(p) => "Daemon is running (PID "@ + decimal_digits(p as nat) + ")"@,
            DaemonState::Stale(_) => "Daemon is not running (stale PID file)"@,
            DaemonState::NotRunning => "Daemon is not running"@,
        },
{
    match state {
        DaemonState::Running(p) => {
            let mut r = "Daemon is running (PID ".to_owned();
            push_decimal(&mut r, *p as u64);
            r.append(")");
            r
        },
        DaemonState::Stale(_) => "Daemon is not running (stale PID file)".to_owned(),
        DaemonState::NotRunning => "Daemon is not running".to_owned(),
    }
}

/// What `rippy stop` prints for a state (a running daemon is sent SIGTERM, and the pid file is
/// removed whenever there is one).
pub fn stop_message(state: &DaemonState) -> (r: String)
    ensures
        r@ == match *state {
            DaemonState::Running(p) => "Sent stop signal to daemon (PID "@ + decimal_digits(p as nat) + ")"@,
            DaemonState::Stale(_) => "Daemon is not running (cleaning stale PID file)"@,
            DaemonState::NotRunning => "Daemon is not running"@,
        },
{
    match state {
        DaemonState::Running(p) => {
            let mut r = "Sent stop signal to daemon (PID ".to_owned();
            push_decimal(&mut r, *p as u64);
            r.append(")");
            r
        },
        DaemonState::Stale(_) => "Daemon is not running (cleaning stale PID file)".to_owned(),
        DaemonState::NotRunning => "Daemon is not running".to_owned(),
    }
}

} // verus!
