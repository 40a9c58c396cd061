//! What holds of the supervisor whatever happens to its worker.

use crate::supervisor::handshake::{
    action_for, all_digits, digits_value, first_port, found_after, found_after_all, is_digit,
    port_of_line, port_prefix, signals_fired, wait_step, LineAction, WaitStep,
    HANDSHAKE_TIMEOUT_MS,
};
use crate::supervisor::state::{
    LaunchError, LaunchStep, MonitorAction, NotReady, Phase, Probe, Reply, Request, RestartError,
    RestartPlan, SupervisorState, RESTART_CEILING,
};
use crate::text::{
    decimal, digit_char, is_space, leading_spaces, lemma_leading_spaces, lemma_trailing_spaces,
    trailing_spaces, trimmed,
};
use vstd::prelude::*;

verus! {

/// Whether `s` is made of whitespace only.
pub open spec fn all_spaces(s: Seq<char>) -> bool {
    forall|i: int| 0 <= i < s.len() ==> is_space(#[trigger] s[i])
}

/// A decimal numeral is a non-empty run of digits that denotes its number.
pub proof fn lemma_decimal_denotes(n: nat)
    ensures
        decimal(n).len() > 0,
        all_digits(decimal(n)),
        digits_value(decimal(n)) == n,
    decreases n,
{
    if n < 10 {
        assert(digits_value(decimal(n).drop_last()) == 0);
    } else {
        lemma_decimal_denotes(n / 10);
        assert(decimal(n).drop_last() =~= decimal(n / 10));
    }
}

/// Whitespace around a text that neither begins nor ends with whitespace is what trimming
/// removes.
pub proof fn lemma_trimmed_padding(before: Seq<char>, core: Seq<char>, after: Seq<char>)
    requires
        all_spaces(before),
        all_spaces(after),
        core.len() > 0,
        !is_space(core[0]),
        !is_space(core.last()),
    ensures
        trimmed(before + core + after) == core,
{
    let line = before + core + after;
    lemma_leading_spaces(line, before.len() as int);
    lemma_trailing_spaces(line.skip(before.len() as int), after.len() as int);
}

/// A line `PORT:<n>` with `n` at most 65535, with or without whitespace around it, announces
/// the port `n`.
pub proof fn port_line_announces_its_number(n: nat, before: Seq<char>, after: Seq<char>)
    requires
        n <= 65535,
        all_spaces(before),
        all_spaces(after),
    ensures
        port_of_line(before + (port_prefix() + decimal(n)) + after) == Some(n as u16),
{
    lemma_decimal_denotes(n);
    let core = port_prefix() + decimal(n);
    lemma_trimmed_padding(before, core, after);
    assert(core.take(5) =~= port_prefix());
    assert(core.skip(5) =~= decimal(n));
}

/// A line `PORT:<n>` with `n` above 65535 announces nothing.
pub proof fn port_out_of_range_is_rejected(n: nat, before: Seq<char>, after: Seq<char>)
    requires
        n > 65535,
        all_spaces(before),
        all_spaces(after),
    ensures
        port_of_line(before + (port_prefix() + decimal(n)) + after) is None,
{
    lemma_decimal_denotes(n);
    let core = port_prefix() + decimal(n);
    lemma_trimmed_padding(before, core, after);
    assert(core.skip(5) =~= decimal(n));
}

/// A line that announces no port leaves what the reader has found as it was, and fires no
/// signal. Once a port was found, no line changes it or fires a signal again.
pub proof fn only_the_first_announcement_counts(found: Option<u16>, line: Seq<char>)
    ensures
        port_of_line(line) is None ==> found_after(found, line) == found && action_for(found, line)
            == LineAction::Forward,
        found is Some ==> found_after(found, line) == found && action_for(found, line)
            == LineAction::Forward,
{
}

/// Once a port was found, the lines that follow change nothing and fire no signal.
pub proof fn lemma_found_port_stays(port: u16, lines: Seq<Seq<char>>)
    ensures
        found_after_all(Some(port), lines) == Some(port),
        signals_fired(Some(port), lines) == 0,
    decreases lines.len(),
{
    if lines.len() > 0 {
        lemma_found_port_stays(port, lines.drop_first());
    }
}

/// A reader that takes the lines of a launch in order ends with the port of the first line
/// that announces one, and has fired exactly one signal if there is such a line, none if
/// there is not.
pub proof fn reader_reports_the_first_announcement(lines: Seq<Seq<char>>)
    ensures
        found_after_all(None, lines) == first_port(lines),
        signals_fired(None, lines) == if first_port(lines) is Some {
            1nat
        } else {
            0nat
        },
    decreases lines.len(),
{
    if lines.len() > 0 {
        match port_of_line(lines[0]) {
            Some(port) => lemma_found_port_stays(port, lines.drop_first()),
            None => reader_reports_the_first_announcement(lines.drop_first()),
        }
    }
}

/// While the deadline has not passed and nothing was announced, the launch keeps waiting;
/// from the deadline on it has timed out. Whether the worker's output has ended plays no part.
pub proof fn wait_ends_at_the_deadline_only(elapsed_ms: u64)
    ensures
        elapsed_ms < HANDSHAKE_TIMEOUT_MS ==> wait_step(elapsed_ms, None) == WaitStep::KeepWaiting(
            (HANDSHAKE_TIMEOUT_MS - elapsed_ms) as u64,
        ),
        elapsed_ms >= HANDSHAKE_TIMEOUT_MS ==> wait_step(elapsed_ms, None) == WaitStep::TimedOut,
{
}

/// Every request keeps the record well formed.
pub proof fn request_keeps_record_well_formed(s: SupervisorState, request: Request)
    requires
        s.wf(),
    ensures
        s.after(request).wf(),
{
}

/// Whatever requests are served, in whatever order, the restart counter never exceeds the
/// ceiling, and there is a port exactly while the worker runs.
pub proof fn restart_counter_never_exceeds_ceiling(requests: Seq<Request>)
    ensures
        SupervisorState::initial().after_all(requests).wf(),
        SupervisorState::initial().after_all(requests).restarts <= RESTART_CEILING,
    decreases requests.len(),
{
    if requests.len() > 0 {
        restart_counter_never_exceeds_ceiling(requests.drop_last());
        request_keeps_record_well_formed(
            SupervisorState::initial().after_all(requests.drop_last()),
            requests.last(),
        );
    }
}

/// The port is not ready before the first handshake, and it is the announced port right after
/// a handshake that a launch waited for.
pub proof fn port_is_ready_exactly_after_handshake(s: SupervisorState, port: u16)
    requires
        s.wf(),
    ensures
        SupervisorState::initial().current_port() == Err::<u16, NotReady>(NotReady),
        s.phase != Phase::Running ==> s.current_port() == Err::<u16, NotReady>(NotReady),
        s.phase == Phase::Starting ==> s.handshake_completed(port).current_port() == Ok::<
            u16,
            NotReady,
        >(port),
{
}

/// After a detected crash the port is not ready, whether another attempt was allowed or not.
pub proof fn port_is_not_ready_after_crash(s: SupervisorState, probe: Probe)
    requires
        s.wf(),
        s.detects_crash(probe),
    ensures
        s.probed(probe).current_port() == Err::<u16, NotReady>(NotReady),
        s.probed(probe).phase == Phase::Restarting || s.probed(probe).phase == Phase::Failed,
{
}

/// A launch that is signalled no port fails with `HandshakeTimeout` once the deadline has
/// passed: the spawned worker is killed then, and the port is not ready.
pub proof fn silent_launch_times_out(s: SupervisorState, elapsed_ms: u64)
    requires
        s.wf(),
        elapsed_ms >= HANDSHAKE_TIMEOUT_MS,
    ensures
        s.spawned().launch_step(elapsed_ms, None) == (LaunchStep::Done {
            result: Err(LaunchError::HandshakeTimeout),
            kill: true,
        }),
        s.spawned().awaited(elapsed_ms, None).phase == Phase::Crashed,
        s.spawned().awaited(elapsed_ms, None).current_port() == Err::<u16, NotReady>(NotReady),
{
}

/// Before the deadline a launch that is signalled no port only waits, for the time that is
/// left: it does not fail early, whether the worker's output has ended or not.
pub proof fn silent_launch_waits_out_the_deadline(s: SupervisorState, elapsed_ms: u64)
    requires
        s.wf(),
        elapsed_ms < HANDSHAKE_TIMEOUT_MS,
    ensures
        s.launch_step(elapsed_ms, None) == LaunchStep::Wait(
            (HANDSHAKE_TIMEOUT_MS - elapsed_ms) as u64,
        ),
        s.awaited(elapsed_ms, None) == s,
{
}

/// A launch that is signalled a port while the record waits for it succeeds with that port,
/// which is ready from then on.
pub proof fn announced_launch_succeeds(s: SupervisorState, elapsed_ms: u64, port: u16)
    requires
        s.wf(),
    ensures
        s.spawned().launch_step(elapsed_ms, Some(port)) == (LaunchStep::Done {
            result: Ok(port),
            kill: false,
        }),
        s.spawned().awaited(elapsed_ms, Some(port)).current_port() == Ok::<u16, NotReady>(port),
{
}

/// The record after `n` restarts in a row that each spawned a worker which announced no port
/// before the deadline, the crash being detected each time.
pub open spec fn after_failed_restarts(s: SupervisorState, n: nat) -> SupervisorState
    decreases n,
{
    if n == 0 {
        s
    } else {
        after_failed_restarts(s, (n - 1) as nat).probed(Probe::Exited).spawned()
            .handshake_timed_out()
    }
}

/// Whether a failure episode begins at `s`: the worker has announced its port, or it was
/// killed at the deadline of a launch that was no restart.
pub open spec fn begins_episode(s: SupervisorState) -> bool {
    s.phase == Phase::Running || (s.phase == Phase::Crashed && s.restarts == 0)
}

/// From the beginning of an episode, the first five crashes in a row are each answered by a
/// restart, and the counter counts them.
pub proof fn first_five_crashes_are_restarted(s: SupervisorState, n: nat)
    requires
        s.wf(),
        begins_episode(s),
        n < RESTART_CEILING,
    ensures
        after_failed_restarts(s, n).monitor_action(Probe::Exited) is Restart,
        after_failed_restarts(s, n).probed(Probe::Exited).restarts == n + 1,
        n > 0 ==> after_failed_restarts(s, n).phase == Phase::Crashed,
        n > 0 ==> after_failed_restarts(s, n).restarts == n,
    decreases n,
{
    if n > 0 {
        first_five_crashes_are_restarted(s, (n - 1) as nat);
    }
}

/// The sixth crash in a row, with no handshake in between, is answered by giving up: the record
/// is failed, the counter stands at the ceiling, and the restart policy answers
/// `LimitExceeded`, which launches nothing.
pub proof fn sixth_crash_in_a_row_gives_up(s: SupervisorState)
    requires
        s.wf(),
        begins_episode(s),
    ensures
        after_failed_restarts(s, 5).monitor_action(Probe::Exited) == MonitorAction::GiveUp,
        after_failed_restarts(s, 5).crashed().restart_decision() == Err::<
            RestartPlan,
            RestartError,
        >(RestartError::LimitExceeded),
        after_failed_restarts(s, 5).probed(Probe::Exited).phase == Phase::Failed,
        after_failed_restarts(s, 5).probed(Probe::Exited).restarts == RESTART_CEILING,
{
    first_five_crashes_are_restarted(s, 4);
    reveal_with_fuel(after_failed_restarts, 6);
}

/// Once the episode has failed, no probe restarts anything and the restart policy keeps
/// refusing.
pub proof fn failed_episode_restarts_nothing(s: SupervisorState, probe: Probe)
    requires
        s.wf(),
        s.phase == Phase::Failed,
    ensures
        s.probed(probe) == s,
        s.monitor_action(probe) == MonitorAction::Nothing,
        s.restart_decision() == Err::<RestartPlan, RestartError>(RestartError::LimitExceeded),
        s.restarted() == s,
{
}

/// A handshake that a launch waited for resets the restart counter, whatever it was.
pub proof fn handshake_resets_the_counter(s: SupervisorState, port: u16)
    requires
        s.wf(),
        s.phase == Phase::Starting,
    ensures
        s.handshake_completed(port).phase == Phase::Running,
        s.handshake_completed(port).restarts == 0,
{
}

/// The crash of a worker that had announced its port is answered by a restart, the first of a
/// new episode.
pub proof fn crash_after_health_counts_from_one(s: SupervisorState)
    requires
        s.wf(),
        s.phase == Phase::Running,
    ensures
        s.monitor_action(Probe::Exited) is Restart,
        s.probed(Probe::Exited).restarts == 1,
        s.probed(Probe::Exited).phase == Phase::Restarting,
{
}

/// Three crashes, a handshake, then five more crashes: all eight are answered by a restart,
/// though there were more than five in all.
pub proof fn handshake_between_crashes_defers_the_limit(s: SupervisorState, port: u16)
    requires
        s.wf(),
        s.phase == Phase::Running,
    ensures
        ({
            let healthy = after_failed_restarts(s, 2).probed(Probe::Exited).spawned()
                .handshake_completed(port);
            &&& healthy.phase == Phase::Running
            &&& healthy.restarts == 0
            &&& forall|n: nat|
                n < 5 ==> (#[trigger] after_failed_restarts(healthy, n)).monitor_action(
                    Probe::Exited,
                ) is Restart
        }),
{
    first_five_crashes_are_restarted(s, 2);
    let healthy = after_failed_restarts(s, 2).probed(Probe::Exited).spawned().handshake_completed(
        port,
    );
    assert forall|n: nat| n < 5 implies (#[trigger] after_failed_restarts(
        healthy,
        n,
    )).monitor_action(Probe::Exited) is Restart by {
        first_five_crashes_are_restarted(healthy, n);
    }
}

/// Stopping clears the record from any state: the port is not ready, no worker is owned, and
/// the worker that was owned is the one the caller is told to kill.
pub proof fn stop_clears_the_record(s: SupervisorState)
    requires
        s.wf(),
    ensures
        s.after(Request::Stop) == SupervisorState::initial(),
        s.after(Request::Stop).current_port() == Err::<u16, NotReady>(NotReady),
        !s.after(Request::Stop).owns_handle(),
        s.reply(Request::Stop) == Reply::Stopped(s.owns_handle()),
{
}

/// A spawn failure is reported as such and starts no worker.
pub proof fn spawn_failure_owns_nothing_new(s: SupervisorState)
    requires
        s.wf(),
    ensures
        s.reply(Request::SpawnFailed) == Reply::LaunchFailed(LaunchError::SpawnFailure),
        s.spawn_failed().owns_handle() == s.owns_handle(),
        s.spawn_failed().port == s.port,
{
}

} // verus!
