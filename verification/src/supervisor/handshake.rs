//! The startup handshake: the worker announces the port it listens on by a line
//! `PORT:<digits>` on its standard output.

use crate::text::{chars_of, has_prefix, trim_bounds, trimmed};
use vstd::prelude::*;

verus! {

/// How long a launch waits for the port announcement, in milliseconds.
pub const HANDSHAKE_TIMEOUT_MS: u64 = 10_000;

/// The prefix of the announcing line.
pub open spec fn port_prefix() -> Seq<char> {
    seq!['P', 'O', 'R', 'T', ':']
}

/// Whether `c` is an ASCII decimal digit.
pub open spec fn is_digit(c: char) -> bool {
    '0' <= c <= '9'
}

/// Whether `s` is made of ASCII decimal digits only.
pub open spec fn all_digits(s: Seq<char>) -> bool {
    forall|i: int| 0 <= i < s.len() ==> is_digit(#[trigger] s[i])
}

/// The number that the decimal digits `s` denote.
pub open spec fn digits_value(s: Seq<char>) -> nat
    decreases s.len(),
{
    if s.len() == 0 {
        0
    } else {
        (digits_value(s.drop_last()) * 10 + (s.last() as u32 - '0' as u32)) as nat
    }
}

/// The port that `line` announces, if it announces one: after trimming whitespace the line is
/// `PORT:` followed by at least one decimal digit and nothing else, and the digits denote a
/// number of at most 65535.
pub open spec fn port_of_line(line: Seq<char>) -> Option<u16> {
    let t = trimmed(line);
    let digits = t.skip(5);
    if t.len() > 5 && has_prefix(t, port_prefix()) && all_digits(digits) && digits_value(digits)
        <= 65535 {
        Some(digits_value(digits) as u16)
    } else {
        None
    }
}

/// A prefix of a digit sequence denotes no more than the whole.
pub proof fn lemma_digits_value_prefix(s: Seq<char>, k: int)
    requires
        all_digits(s),
        0 <= k <= s.len(),
    ensures
        digits_value(s.take(k)) <= digits_value(s),
    decreases s.len() - k,
{
    if k == s.len() {
        assert(s.take(k) =~= s);
    } else {
        lemma_digits_value_prefix(s, k + 1);
        let longer = s.take(k + 1);
        assert(longer.drop_last() =~= s.take(k));
    }
}

/// Reads one line of the worker's standard output as a port announcement.
pub fn parse_port_line(line: &str) -> (r: Option<u16>)
    ensures
        r == port_of_line(line@),
{
    let cs = chars_of(line);
    let (from, to) = trim_bounds(&cs);
    let ghost t = trimmed(cs@);
    if to - from <= 5 {
        return None;
    }
    if cs[from] != 'P' || cs[from + 1] != 'O' || cs[from + 2] != 'R' || cs[from + 3] != 'T'
        || cs[from + 4] != ':' {
        return None;
    }
    assert(t.take(5) =~= port_prefix());
    let ghost digits = t.skip(5);
    let mut value: u32 = 0;
    let mut i: usize = from + 5;
    while i < to
        invariant
            from + 5 <= i <= to <= cs.len(),
            t == trimmed(line@),
            t == cs@.subrange(from as int, to as int),
            digits == t.skip(5),
            all_digits(digits.take(i - from - 5)),
            value == digits_value(digits.take(i - from - 5)),
            value <= 65535,
        decreases to - i,
    {
        let c = cs[i];
        let ghost k = i - from - 5;
        if c < '0' || c > '9' {
            assert(!is_digit(digits[k]));
            return None;
        }
        let d: u32 = c as u32 - '0' as u32;
        value = value * 10 + d;
        proof {
            let longer = digits.take(k + 1);
            assert(longer.drop_last() =~= digits.take(k));
        }
        if value > 65535 {
            proof {
                if all_digits(digits) {
                    lemma_digits_value_prefix(digits, k + 1);
                }
            }
            return None;
        }
        i += 1;
    }
    assert(digits.take(to - from - 5) =~= digits);
    Some(value as u16)
}

/// What to do with one line of the worker's output.
#[derive(Clone, Copy, Debug, PartialEq, Eq)]
pub enum LineAction {
    /// Hand the line to the diagnostic log.
    Forward,
    /// Signal the waiting launch that the worker listens on this port, and hand the line to the
    /// diagnostic log as well.
    AnnounceAndForward(u16),
}

/// What the reader has found after `line`, given what it had found before.
pub open spec fn found_after(found: Option<u16>, line: Seq<char>) -> Option<u16> {
    if found is Some {
        found
    } else {
        port_of_line(line)
    }
}

/// What is done with `line`, given what the reader had found before it.
pub open spec fn action_for(found: Option<u16>, line: Seq<char>) -> LineAction {
    match (found, port_of_line(line)) {
        (None, Some(port)) => LineAction::AnnounceAndForward(port),
        _ => LineAction::Forward,
    }
}

/// The port announced by the first line of `lines` that announces one.
pub open spec fn first_port(lines: Seq<Seq<char>>) -> Option<u16>
    decreases lines.len(),
{
    if lines.len() == 0 {
        None
    } else if port_of_line(lines[0]) is Some {
        port_of_line(lines[0])
    } else {
        first_port(lines.drop_first())
    }
}

/// What the reader has found after the lines of `lines`, taken in order.
pub open spec fn found_after_all(found: Option<u16>, lines: Seq<Seq<char>>) -> Option<u16>
    decreases lines.len(),
{
    if lines.len() == 0 {
        found
    } else {
        found_after_all(found_after(found, lines[0]), lines.drop_first())
    }
}

/// The number of completion signals fired while the lines of `lines` are taken in order.
pub open spec fn signals_fired(found: Option<u16>, lines: Seq<Seq<char>>) -> nat
    decreases lines.len(),
{
    if lines.len() == 0 {
        0
    } else {
        let rest = signals_fired(found_after(found, lines[0]), lines.drop_first());
        if action_for(found, lines[0]) is AnnounceAndForward {
            1 + rest
        } else {
            rest
        }
    }
}

/// Scans the lines of one launch attempt for the port announcement.
///
/// Every line is forwarded to the diagnostic log; the first line that announces a port also
/// fires the completion signal, and no later line does.
pub struct HandshakeReader {
    found: Option<u16>,
}

impl HandshakeReader {
    /// The port found so far.
    pub closed spec fn found(&self) -> Option<u16> {
        self.found
    }

    /// A reader that has seen no line yet.
    pub fn new() -> (r: HandshakeReader)
        ensures
            r.found() is None,
    {
        HandshakeReader { found: None }
    }

    /// The port found so far.
    pub fn port(&self) -> (r: Option<u16>)
        ensures
            r == self.found(),
    {
        self.found
    }

    /// Takes the next line of the worker's output.
    pub fn observe(&mut self, line: &str) -> (action: LineAction)
        ensures
            final(self).found() == found_after(old(self).found(), line@),
            action == action_for(old(self).found(), line@),
    {
        if self.found.is_some() {
            return LineAction::Forward;
        }
        match parse_port_line(line) {
            Some(port) => {
                self.found = Some(port);
                LineAction::AnnounceAndForward(port)
            },
            None => LineAction::Forward,
        }
    }
}

/// What a launch that waits for the handshake does next.
#[derive(Clone, Copy, Debug, PartialEq, Eq)]
pub enum WaitStep {
    /// The worker announced this port: the handshake is complete.
    Completed(u16),
    /// Nothing was announced yet: wait up to this many milliseconds more.
    KeepWaiting(u64),
    /// The deadline has passed without an announcement.
    TimedOut,
}

/// The step of a launch that has waited `elapsed_ms` since the worker was spawned and has been
/// signalled `announced`.
pub open spec fn wait_step(elapsed_ms: u64, announced: Option<u16>) -> WaitStep {
    match announced {
        Some(port) => WaitStep::Completed(port),
        None => if elapsed_ms < HANDSHAKE_TIMEOUT_MS {
            WaitStep::KeepWaiting((HANDSHAKE_TIMEOUT_MS - elapsed_ms) as u64)
        } else {
            WaitStep::TimedOut
        },
    }
}

/// Decides how a launch goes on waiting for the handshake.
///
/// `stream_closed` says whether the worker's output has ended. It does not shorten the wait: a
/// worker that exits without announcing a port is given up only at the deadline.
pub fn handshake_wait(elapsed_ms: u64, announced: Option<u16>, stream_closed: bool) -> (step:
    WaitStep)
    ensures
        step == wait_step(elapsed_ms, announced),
{
    match announced {
        Some(port) => WaitStep::Completed(port),
        None => if elapsed_ms < HANDSHAKE_TIMEOUT_MS {
            WaitStep::KeepWaiting(HANDSHAKE_TIMEOUT_MS - elapsed_ms)
        } else {
            WaitStep::TimedOut
        },
    }
}

} // verus!
