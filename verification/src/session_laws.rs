//! What holds of every run of a capture session.
//!
//! A run is a fresh session and a sequence of events, of any length and in
//! any order: the laws below hold whatever the driver hands in.

use crate::capture::{ActionView, CaptureEvent, ConfigView, Phase, SessionView, StopCause};
use crate::packet::{parsed, PacketView};
use vstd::prelude::*;

verus! {

/// The kinds of action that a session answers with.
pub enum ActionKind {
    Spawn,
    Fail,
    BeginCapture,
    Continue,
    Terminate,
    JoinGenerator,
    Report,
}

/// The kind of an action.
pub open spec fn kind_of(action: ActionView) -> ActionKind {
    match action {
        ActionView::Spawn { .. } => ActionKind::Spawn,
        ActionView::Fail { .. } => ActionKind::Fail,
        ActionView::BeginCapture => ActionKind::BeginCapture,
        ActionView::Continue { .. } => ActionKind::Continue,
        ActionView::Terminate { .. } => ActionKind::Terminate,
        ActionView::JoinGenerator { .. } => ActionKind::JoinGenerator,
        ActionView::Report { .. } => ActionKind::Report,
    }
}

/// The state of `start` after all of `events`, taken in order.
pub open spec fn after(start: SessionView, events: Seq<CaptureEvent>) -> SessionView
    decreases events.len(),
{
    if events.len() == 0 {
        start
    } else {
        after(start, events.drop_last()).step(events.last()).0
    }
}

/// The answer to the last of `events`.
pub open spec fn last_answer(start: SessionView, events: Seq<CaptureEvent>) -> Option<ActionView>
    recommends
        events.len() > 0,
{
    after(start, events.drop_last()).step(events.last()).1
}

/// How many of the answers to `events` were actions of the given kind.
pub open spec fn issued(start: SessionView, events: Seq<CaptureEvent>, kind: ActionKind) -> nat
    decreases events.len(),
{
    if events.len() == 0 {
        0
    } else {
        let earlier = issued(start, events.drop_last(), kind);
        match last_answer(start, events) {
            Some(action) => if kind_of(action) == kind {
                earlier + 1
            } else {
                earlier
            },
            None => earlier,
        }
    }
}

/// What a run has issued, by the phase it has come to.
spec fn ledger(start: SessionView, events: Seq<CaptureEvent>) -> bool {
    let now = after(start, events);
    let spawns = issued(start, events, ActionKind::Spawn);
    let failures = issued(start, events, ActionKind::Fail);
    let begins = issued(start, events, ActionKind::BeginCapture);
    let terminations = issued(start, events, ActionKind::Terminate);
    let joins = issued(start, events, ActionKind::JoinGenerator);
    let reports = issued(start, events, ActionKind::Report);
    &&& now.valid()
    &&& now.config == start.config
    &&& match now.phase {
        Phase::Idle => spawns == 0 && failures == 0 && begins == 0 && terminations == 0 && joins
            == 0 && reports == 0,
        Phase::Spawning => spawns == 1 && failures == 0 && begins == 0 && terminations == 0
            && joins == 0 && reports == 0,
        Phase::Capturing => spawns == 1 && failures == 0 && begins == 1 && terminations == 0
            && joins == 0 && reports == 0,
        Phase::Draining => spawns == 1 && failures == 0 && begins == 1 && terminations == 1
            && reports == 0 && joins == if now.reaped {
            1nat
        } else {
            0nat
        },
        Phase::Terminated => if now.reaped {
            spawns == 1 && failures == 0 && begins == 1 && terminations == 1 && joins == 1
                && reports == 1
        } else {
            spawns == 1 && failures == 1 && begins == 0 && terminations == 0 && joins == 0
                && reports == 0
        },
    }
}

proof fn lemma_ledger(config: ConfigView, events: Seq<CaptureEvent>)
    requires
        config.valid(),
    ensures
        ledger(SessionView::fresh(config), events),
    decreases events.len(),
{
    if events.len() > 0 {
        lemma_ledger(config, events.drop_last());
    }
}

/// Every state of a run is valid: no more lines are counted than the
/// configuration allows, and no more packets are kept than lines were read.
pub proof fn lemma_run_stays_valid(config: ConfigView, events: Seq<CaptureEvent>)
    requires
        config.valid(),
    ensures
        after(SessionView::fresh(config), events).valid(),
        after(SessionView::fresh(config), events).config == config,
{
    lemma_ledger(config, events);
}

/// The capture subprocess is told to terminate at most once in a run:
/// exactly once where a capture began and has ended, and never where the
/// subprocess did not start or the capture still goes on.
pub proof fn lemma_terminates_at_most_once(config: ConfigView, events: Seq<CaptureEvent>)
    requires
        config.valid(),
    ensures
        issued(SessionView::fresh(config), events, ActionKind::Terminate) <= 1,
        issued(SessionView::fresh(config), events, ActionKind::Terminate) == 1 <==> ({
            let now = after(SessionView::fresh(config), events);
            now.phase == Phase::Draining || (now.phase == Phase::Terminated && now.reaped)
        }),
{
    lemma_ledger(config, events);
}

/// The summary comes after everything else. At every point of a run, no
/// more summaries were handed out than waits for the traffic generator
/// were asked for, no more of these than terminations of the subprocess,
/// and no more of these than captures were begun. So a summary is never
/// handed out while the generator still runs or the subprocess was not
/// told to stop.
pub proof fn lemma_report_follows_teardown(config: ConfigView, events: Seq<CaptureEvent>)
    requires
        config.valid(),
    ensures
        ({
            let start = SessionView::fresh(config);
            issued(start, events, ActionKind::Report) <= issued(
                start,
                events,
                ActionKind::JoinGenerator,
            ) <= issued(start, events, ActionKind::Terminate) <= issued(
                start,
                events,
                ActionKind::BeginCapture,
            ) <= issued(start, events, ActionKind::Spawn) <= 1
        }),
        issued(SessionView::fresh(config), events, ActionKind::Report) + issued(
            SessionView::fresh(config),
            events,
            ActionKind::Fail,
        ) <= 1,
{
    lemma_ledger(config, events);
}

/// A run through two sequences of events, one after the other, is the run
/// through the second from where the first has led.
pub proof fn lemma_after_concat(
    start: SessionView,
    first: Seq<CaptureEvent>,
    second: Seq<CaptureEvent>,
)
    ensures
        after(start, first + second) == after(after(start, first), second),
    decreases second.len(),
{
    if second.len() == 0 {
        assert(first + second == first);
    } else {
        assert((first + second).drop_last() == first + second.drop_last());
        assert((first + second).last() == second.last());
        lemma_after_concat(start, first, second.drop_last());
    }
}

/// Tells whether each of `events` is a line that was read before the
/// deadline of `config`.
pub open spec fn lines_before_deadline(config: ConfigView, events: Seq<CaptureEvent>) -> bool {
    forall|i: int|
        0 <= i < events.len() ==> match #[trigger] events[i] {
            CaptureEvent::LineRead { elapsed_secs, .. } => elapsed_secs < config.timeout_secs,
            _ => false,
        }
}

/// The packets that the lines among `events` hold, in order.
pub open spec fn packets_of(events: Seq<CaptureEvent>) -> Seq<PacketView>
    decreases events.len(),
{
    if events.len() == 0 {
        Seq::empty()
    } else {
        let earlier = packets_of(events.drop_last());
        match events.last() {
            CaptureEvent::LineRead { line, .. } => match parsed(line@) {
                Some(p) => earlier.push(p),
                None => earlier,
            },
            _ => earlier,
        }
    }
}

/// With the deadline out of reach, a capture stops on the line that spends
/// the budget and on no earlier one. Every line counts, with or without a
/// packet in it, and the packets are kept in the order of their lines.
pub proof fn lemma_stops_at_line_limit(start: SessionView, lines: Seq<CaptureEvent>)
    requires
        start.valid(),
        start.phase == Phase::Capturing,
        lines_before_deadline(start.config, lines),
        start.read_count + lines.len() <= start.config.max_packets,
    ensures
        after(start, lines).valid(),
        after(start, lines).config == start.config,
        after(start, lines).read_count == start.read_count + lines.len(),
        after(start, lines).packets == start.packets + packets_of(lines),
        after(start, lines).phase == if start.read_count + lines.len()
            == start.config.max_packets {
            Phase::Draining
        } else {
            Phase::Capturing
        },
        lines.len() > 0 ==> last_answer(start, lines) == Some(
            if start.read_count + lines.len() == start.config.max_packets {
                ActionView::Terminate {
                    packet: parsed(lines.last()->line@),
                    cause: StopCause::LimitReached,
                }
            } else {
                ActionView::Continue { packet: parsed(lines.last()->line@) }
            },
        ),
    decreases lines.len(),
{
    if lines.len() == 0 {
        assert(start.packets + packets_of(lines) == start.packets);
    } else {
        let earlier = lines.drop_last();
        assert forall|i: int| 0 <= i < earlier.len() implies match #[trigger] earlier[i] {
            CaptureEvent::LineRead { elapsed_secs, .. } => elapsed_secs < start.config.timeout_secs,
            _ => false,
        } by {
            assert(earlier[i] == lines[i]);
        }
        lemma_stops_at_line_limit(start, earlier);
        assert(lines.last() == lines[lines.len() - 1]);
        let before = after(start, earlier);
        match parsed(lines.last()->line@) {
            Some(p) => {
                assert(before.packets.push(p) == start.packets + packets_of(earlier).push(p));
            },
            None => {},
        }
    }
}

/// A whole capture with the deadline out of reach: started, spawned, and
/// fed as many lines as the configuration allows, the session has told the
/// subprocess to terminate on the last of them; once the subprocess is
/// gone and the generator joined, it reports that many lines, no more and
/// no fewer.
pub proof fn lemma_reads_exactly_the_limit(
    config: ConfigView,
    lines: Seq<CaptureEvent>,
    killed: bool,
)
    requires
        config.valid(),
        lines_before_deadline(config, lines),
        lines.len() == config.max_packets,
    ensures
        ({
            let opening = seq![CaptureEvent::Start, CaptureEvent::Spawned];
            let closing = seq![
                CaptureEvent::SubprocessEnded { killed },
                CaptureEvent::GeneratorJoined,
            ];
            let stopped = after(SessionView::fresh(config), opening + lines);
            let done = after(SessionView::fresh(config), opening + lines + closing);
            &&& stopped.phase == Phase::Draining
            &&& stopped.read_count == config.max_packets
            &&& done.phase == Phase::Terminated
            &&& last_answer(SessionView::fresh(config), opening + lines + closing) == Some(
                ActionView::Report { packets_captured: config.max_packets },
            )
        }),
{
    let fresh = SessionView::fresh(config);
    let opening = seq![CaptureEvent::Start, CaptureEvent::Spawned];
    let closing = seq![CaptureEvent::SubprocessEnded { killed }, CaptureEvent::GeneratorJoined];
    lemma_first_line_is_read(config);
    let capturing = after(fresh, opening);
    lemma_stops_at_line_limit(capturing, lines);
    lemma_after_concat(fresh, opening, lines);
    let stopped = after(fresh, opening + lines);
    lemma_after_concat(fresh, opening + lines, closing);
    assert(closing.drop_last() == seq![CaptureEvent::SubprocessEnded { killed }]);
    assert(closing.drop_last().drop_last() == Seq::<CaptureEvent>::empty());
    reveal_with_fuel(after, 3);
    let reaped = after(stopped, closing.drop_last());
    assert(reaped == stopped.step(CaptureEvent::SubprocessEnded { killed }).0);
    assert(after(stopped, closing) == reaped.step(CaptureEvent::GeneratorJoined).0);
    lemma_after_concat(fresh, opening + lines, closing.drop_last());
    assert((opening + lines + closing).drop_last() == opening + lines + closing.drop_last());
    assert((opening + lines + closing).last() == CaptureEvent::GeneratorJoined);
}

/// Once the deadline has passed, the line just read is the last: the
/// session counts it, keeps its packet, and tells the subprocess to
/// terminate. The deadline is looked at when a line was read and at no
/// other time.
pub proof fn lemma_stops_at_deadline(now: SessionView, line: String, elapsed_secs: u64)
    requires
        now.valid(),
        now.phase == Phase::Capturing,
        elapsed_secs >= now.config.timeout_secs,
    ensures
        ({
            let (next, answer) = now.step(CaptureEvent::LineRead { line, elapsed_secs });
            &&& next.phase == Phase::Draining
            &&& next.read_count == now.read_count + 1
            &&& answer == Some(
                ActionView::Terminate { packet: parsed(line@), cause: StopCause::LimitReached },
            )
        }),
{
}

/// A session that is started and whose subprocess runs begins to read,
/// whatever its timeout: even with a timeout of zero the first line is
/// waited for.
pub proof fn lemma_first_line_is_read(config: ConfigView)
    requires
        config.valid(),
    ensures
        ({
            let opening = seq![CaptureEvent::Start, CaptureEvent::Spawned];
            let capturing = after(SessionView::fresh(config), opening);
            &&& capturing == SessionView::fresh(config).at(Phase::Capturing)
            &&& capturing.valid()
            &&& last_answer(SessionView::fresh(config), opening) == Some(ActionView::BeginCapture)
        }),
{
    let opening = seq![CaptureEvent::Start, CaptureEvent::Spawned];
    assert(opening.drop_last() == seq![CaptureEvent::Start]);
    assert(opening.drop_last().drop_last() == Seq::<CaptureEvent>::empty());
    reveal_with_fuel(after, 3);
}

/// A summary answers one event only: the news that the traffic generator
/// has run to its end, in a session that is draining and whose subprocess
/// is gone. It carries the number of lines read and ends the session.
pub proof fn lemma_report_answers_the_join(now: SessionView, event: CaptureEvent)
    requires
        now.step(event).1 matches Some(ActionView::Report { .. }),
    ensures
        event is GeneratorJoined,
        now.phase == Phase::Draining,
        now.reaped,
        now.step(event).0 == now.at(Phase::Terminated),
        now.step(event).1 == Some(ActionView::Report { packets_captured: now.read_count }),
{
}

/// The subprocess is told to terminate only as a capture ends: on the
/// line that meets the stop predicate, on a failed read, or when the
/// stream closes. The session is draining from then on.
pub proof fn lemma_terminate_ends_the_capture(now: SessionView, event: CaptureEvent)
    requires
        now.step(event).1 matches Some(ActionView::Terminate { .. }),
    ensures
        now.phase == Phase::Capturing,
        now.step(event).0.phase == Phase::Draining,
        now.step(event).0.reaped == now.reaped,
        event is LineRead || event is ReadFailed || event is StreamEnded,
{
}

/// A subprocess that does not start ends the session at once: nothing is
/// read, nothing is told to terminate, and every later event is ignored.
pub proof fn lemma_spawn_failure_ends_session(
    config: ConfigView,
    message: String,
    later: CaptureEvent,
)
    requires
        config.valid(),
    ensures
        ({
            let events = seq![CaptureEvent::Start, CaptureEvent::SpawnFailed { message }];
            let ended = after(SessionView::fresh(config), events);
            &&& ended == SessionView::fresh(config).at(Phase::Terminated)
            &&& last_answer(SessionView::fresh(config), events) == Some(
                ActionView::Fail { message: message@ },
            )
            &&& ended.step(later) == (ended, None::<ActionView>)
        }),
{
    let events = seq![CaptureEvent::Start, CaptureEvent::SpawnFailed { message }];
    assert(events.drop_last() == seq![CaptureEvent::Start]);
    assert(events.drop_last().drop_last() == Seq::<CaptureEvent>::empty());
    reveal_with_fuel(after, 3);
}

} // verus!
