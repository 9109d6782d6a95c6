//! The reply strings of the supervisor, built and pinned down by verified
//! code: each public builder proves exactly which sequence of characters it
//! returns.

use vstd::prelude::*;

verus! {

/// The character for a single decimal digit.
pub open spec fn digit_char(d: nat) -> char {
    if d == 0 {
        '0'
    } else if d == 1 {
        '1'
    } else if d == 2 {
        '2'
    } else if d == 3 {
        '3'
    } else if d == 4 {
        '4'
    } else if d == 5 {
        '5'
    } else if d == 6 {
        '6'
    } else if d == 7 {
        '7'
    } else if d == 8 {
        '8'
    } else {
        '9'
    }
}

/// The decimal rendering of a natural number, most significant digit first,
/// with no leading zero except for zero itself.
pub open spec fn dec_rep(n: nat) -> Seq<char>
    decreases n,
{
    if n < 10 {
        seq![digit_char(n)]
    } else {
        dec_rep(n / 10) + seq![digit_char(n % 10)]
    }
}

/// The reply to a start call that found the slot occupied.
pub open spec fn already_running_text() -> Seq<char> {
    "Backend already running"@
}

/// The reply to a start call whose spawn succeeded with this process id.
pub open spec fn started_text(pid: u32) -> Seq<char> {
    "Backend started with PID: "@ + dec_rep(pid as nat)
}

/// The error reply to a start call whose spawn failed with this description.
pub open spec fn spawn_failed_text(err: Seq<char>) -> Seq<char> {
    "Failed to start backend: "@ + err
}

/// The reply to a stop call whose terminate request succeeded.
pub open spec fn stopped_text() -> Seq<char> {
    "Backend stopped"@
}

/// The reply to a stop call that found the slot empty.
pub open spec fn not_running_text() -> Seq<char> {
    "Backend was not running"@
}

/// The error reply to a stop call whose terminate request failed.
pub open spec fn kill_failed_text(err: Seq<char>) -> Seq<char> {
    "Failed to kill backend: "@ + err
}

fn append_digit(s: &mut String, d: u32)
    requires
        d < 10,
    ensures
        final(s)@ == old(s)@ + seq![digit_char(d as nat)],
{
    let ds: &str = if d == 0 {
        "0"
    } else if d == 1 {
        "1"
    } else if d == 2 {
        "2"
    } else if d == 3 {
        "3"
    } else if d == 4 {
        "4"
    } else if d == 5 {
        "5"
    } else if d == 6 {
        "6"
    } else if d == 7 {
        "7"
    } else if d == 8 {
        "8"
    } else {
        "9"
    };
    proof {
        reveal_strlit("0");
        reveal_strlit("1");
        reveal_strlit("2");
        reveal_strlit("3");
        reveal_strlit("4");
        reveal_strlit("5");
        reveal_strlit("6");
        reveal_strlit("7");
        reveal_strlit("8");
        reveal_strlit("9");
        assert(ds@ =~= seq![digit_char(d as nat)]);
    }
    s.append(ds);
}

fn append_decimal(s: &mut String, n: u32)
    ensures
        final(s)@ == old(s)@ + dec_rep(n as nat),
    decreases n,
{
    if n < 10 {
        append_digit(s, n);
    } else {
        append_decimal(s, n / 10);
        append_digit(s, n % 10);
        proof {
            assert(old(s)@ + dec_rep((n / 10) as nat) + seq![digit_char((n % 10) as nat)] =~= old(
                s,
            )@ + dec_rep(n as nat));
        }
    }
}

/// The decimal rendering of `n`, proved to match `dec_rep`.
pub fn u32_to_decimal(n: u32) -> (s: String)
    ensures
        s@ == dec_rep(n as nat),
{
    let mut s = String::new();
    append_decimal(&mut s, n);
    proof {
        assert(s@ =~= dec_rep(n as nat));
    }
    s
}

/// The reply to a start call that found the supervisor already running.
pub fn already_running_message() -> (s: String)
    ensures
        s@ == already_running_text(),
{
    String::from_str("Backend already running")
}

/// The reply to a start call that spawned a process with identifier `pid`.
pub fn started_message(pid: u32) -> (s: String)
    ensures
        s@ == started_text(pid),
{
    let mut s = String::from_str("Backend started with PID: ");
    append_decimal(&mut s, pid);
    s
}

/// The error reply carrying the description of a failed spawn.
pub fn spawn_failed_message(err: &str) -> (s: String)
    ensures
        s@ == spawn_failed_text(err@),
{
    String::from_str("Failed to start backend: ").concat(err)
}

/// The reply to a stop call whose terminate request succeeded.
pub fn stopped_message() -> (s: String)
    ensures
        s@ == stopped_text(),
{
    String::from_str("Backend stopped")
}

/// The reply to a stop call that found nothing to stop.
pub fn not_running_message() -> (s: String)
    ensures
        s@ == not_running_text(),
{
    String::from_str("Backend was not running")
}

/// The error reply carrying the description of a failed terminate request.
pub fn kill_failed_message(err: &str) -> (s: String)
    ensures
        s@ == kill_failed_text(err@),
{
    String::from_str("Failed to kill backend: ").concat(err)
}

} // verus!
