//! The capture session: its configuration, its states and its transitions.
//!
//! A session decides; it does not act. It is handed what happened outside
//! (the subprocess started, a line was read, the stream failed) and answers
//! with what to do next. Whoever drives it performs the action and comes
//! back with the next event.

use crate::command::{command, CommandRequest, CommandView};
use crate::packet::{parse_packet, parsed, CapturedPacket, PacketView};
use crate::text::{decimal, decimal_text};
use vstd::prelude::*;
use vstd::string::*;

verus! {

/// Immutable settings of one capture session.
#[derive(Clone, Debug, PartialEq, Eq)]
pub struct CaptureConfig {
    /// The network interface to listen on.
    pub interface: String,
    /// The port that the capture is limited to.
    pub port: String,
    /// How many lines of capture output are read at most.
    pub max_packets: usize,
    /// After how many seconds the capture stops.
    pub timeout_secs: u64,
}

/// The content of a `CaptureConfig`.
pub struct ConfigView {
    pub interface: Seq<char>,
    pub port: Seq<char>,
    pub max_packets: nat,
    pub timeout_secs: nat,
}

impl ConfigView {
    /// A configuration is valid when it asks for at least one packet.
    pub open spec fn valid(self) -> bool {
        self.max_packets > 0
    }

    /// The stop predicate, evaluated after each line read: the line budget
    /// is spent or the deadline has passed.
    pub open spec fn should_stop(self, read_count: nat, elapsed_secs: nat) -> bool {
        read_count >= self.max_packets || elapsed_secs >= self.timeout_secs
    }

    /// The command that starts the capture subprocess: the capture tool on
    /// the interface, limited to the port and to the packet count, with
    /// numeric addresses and verbose text output.
    pub open spec fn command(self) -> CommandView {
        command("tcpdump"@).arg("-i"@).arg(self.interface).arg("port"@).arg(self.port).arg(
            "-c"@,
        ).arg(decimal(self.max_packets)).arg("-nn"@).arg("-vvv"@)
    }
}

impl View for CaptureConfig {
    type V = ConfigView;

    open spec fn view(&self) -> ConfigView {
        ConfigView {
            interface: self.interface@,
            port: self.port@,
            max_packets: self.max_packets as nat,
            timeout_secs: self.timeout_secs as nat,
        }
    }
}

impl CaptureConfig {
    /// Makes a configuration; there is none for a packet count of zero.
    pub fn new(interface: &str, port: &str, max_packets: usize, timeout_secs: u64) -> (config:
        Option<CaptureConfig>)
        ensures
            config is Some <==> max_packets > 0,
            config matches Some(c) ==> c@ == (ConfigView {
                interface: interface@,
                port: port@,
                max_packets: max_packets as nat,
                timeout_secs: timeout_secs as nat,
            }),
    {
        if max_packets == 0 {
            None
        } else {
            Some(
                CaptureConfig {
                    interface: String::from_str(interface),
                    port: String::from_str(port),
                    max_packets,
                    timeout_secs,
                },
            )
        }
    }

    /// Evaluates the stop predicate for the number of lines read so far and
    /// the whole seconds gone by since the capture began.
    pub fn should_stop(&self, read_count: usize, elapsed_secs: u64) -> (stop: bool)
        ensures
            stop == self@.should_stop(read_count as nat, elapsed_secs as nat),
    {
        read_count >= self.max_packets || elapsed_secs >= self.timeout_secs
    }

    /// The command that starts the capture subprocess.
    pub fn command(&self) -> (request: CommandRequest)
        ensures
            request@ == self@.command(),
    {
        let count = decimal_text(self.max_packets as u64);
        CommandRequest::new("tcpdump").arg("-i").arg(self.interface.as_str()).arg("port").arg(
            self.port.as_str(),
        ).arg("-c").arg(count.as_str()).arg("-nn").arg("-vvv")
    }
}

/// The summary of a session that captured.
#[derive(Clone, Copy, PartialEq, Eq, Structural, Debug)]
pub struct CaptureOutcome {
    /// The number of lines read from the capture subprocess.
    pub packets_captured: usize,
}

/// Where a session stands.
#[derive(Clone, Copy, PartialEq, Eq, Structural, Debug)]
pub enum Phase {
    /// Made, not started.
    Idle,
    /// The capture subprocess is being started.
    Spawning,
    /// Lines are read from the subprocess while traffic is generated.
    Capturing,
    /// The capture is over; the subprocess is stopped and the traffic
    /// generator awaited.
    Draining,
    /// Nothing is left to do.
    Terminated,
}

/// Why the capture loop ended.
#[derive(Clone, Copy, PartialEq, Eq, Structural, Debug)]
pub enum StopCause {
    /// The stop predicate held after a line: the line budget was spent or
    /// the deadline had passed.
    LimitReached,
    /// Reading a line failed.
    ReadFailed,
    /// The subprocess closed its output.
    StreamEnded,
}

/// What happened outside the session.
#[derive(Clone, Debug, PartialEq, Eq)]
pub enum CaptureEvent {
    /// The session is asked to begin.
    Start,
    /// The capture subprocess runs and its output can be read.
    Spawned,
    /// The capture subprocess could not be started.
    SpawnFailed { message: String },
    /// A line was read from the subprocess, `elapsed_secs` whole seconds
    /// after the capture began.
    LineRead { line: String, elapsed_secs: u64 },
    /// Reading from the subprocess failed.
    ReadFailed,
    /// The subprocess closed its output.
    StreamEnded,
    /// The attempt to stop the subprocess is over; `killed` tells whether
    /// it went well.
    SubprocessEnded { killed: bool },
    /// The traffic generator has run to its end.
    GeneratorJoined,
}

/// What the driver of a session does next.
#[derive(Clone, Debug, PartialEq, Eq)]
pub enum CaptureAction {
    /// Start the capture subprocess with this command.
    Spawn { command: CommandRequest },
    /// Give up: the subprocess did not start.
    Fail { message: String },
    /// Launch the traffic generator beside the capture, then read the
    /// first line.
    BeginCapture,
    /// Show the packet, if the line held one, and read the next line.
    Continue { packet: Option<CapturedPacket> },
    /// Show the packet, if the line held one, then signal the subprocess
    /// to terminate and wait for it.
    Terminate { packet: Option<CapturedPacket>, cause: StopCause },
    /// Wait for the traffic generator to finish. `kill_failed` tells that
    /// the subprocess could not be stopped, which is worth a note and
    /// nothing more.
    JoinGenerator { kill_failed: bool },
    /// Hand out the summary.
    Report { outcome: CaptureOutcome },
}

/// The content of a `CaptureAction`.
pub enum ActionView {
    Spawn { command: CommandView },
    Fail { message: Seq<char> },
    BeginCapture,
    Continue { packet: Option<PacketView> },
    Terminate { packet: Option<PacketView>, cause: StopCause },
    JoinGenerator { kill_failed: bool },
    Report { packets_captured: nat },
}

/// The fields of a packet that may be absent.
pub open spec fn packet_view(packet: Option<CapturedPacket>) -> Option<PacketView> {
    match packet {
        Some(p) => Some(p@),
        None => None,
    }
}

impl View for CaptureAction {
    type V = ActionView;

    open spec fn view(&self) -> ActionView {
        match self {
            CaptureAction::Spawn { command } => ActionView::Spawn { command: command@ },
            CaptureAction::Fail { message } => ActionView::Fail { message: message@ },
            CaptureAction::BeginCapture => ActionView::BeginCapture,
            CaptureAction::Continue { packet } => ActionView::Continue {
                packet: packet_view(*packet),
            },
            CaptureAction::Terminate { packet, cause } => ActionView::Terminate {
                packet: packet_view(*packet),
                cause: *cause,
            },
            CaptureAction::JoinGenerator { kill_failed } => ActionView::JoinGenerator {
                kill_failed: *kill_failed,
            },
            CaptureAction::Report { outcome } => ActionView::Report {
                packets_captured: outcome.packets_captured as nat,
            },
        }
    }
}

/// The content of an answer of the session: an action, or none.
pub open spec fn answer_view(answer: Option<CaptureAction>) -> Option<ActionView> {
    match answer {
        Some(action) => Some(action@),
        None => None,
    }
}

/// The fields of each packet of a list.
pub open spec fn packet_views(packets: Seq<CapturedPacket>) -> Seq<PacketView> {
    Seq::new(packets.len(), |i: int| packets[i]@)
}

/// The state of a session as a mathematical value.
pub struct SessionView {
    pub config: ConfigView,
    pub phase: Phase,
    /// The number of lines read, whether or not they held a packet.
    pub read_count: nat,
    /// The packets parsed so far, in the order of their arrival.
    pub packets: Seq<PacketView>,
    /// Whether the attempt to stop the subprocess is over.
    pub reaped: bool,
}

impl SessionView {
    /// The state of a session that was made and not started.
    pub open spec fn fresh(config: ConfigView) -> SessionView {
        SessionView { config, phase: Phase::Idle, read_count: 0, packets: Seq::empty(), reaped: false }
    }

    /// What holds of every state that a session goes through.
    pub open spec fn valid(self) -> bool {
        &&& self.config.valid()
        &&& self.read_count <= self.config.max_packets
        &&& self.packets.len() <= self.read_count
        &&& self.phase == Phase::Capturing ==> self.read_count < self.config.max_packets
        &&& (self.phase == Phase::Idle || self.phase == Phase::Spawning) ==> self.read_count == 0
        &&& self.reaped ==> (self.phase == Phase::Draining || self.phase == Phase::Terminated)
    }

    /// The state in another phase.
    pub open spec fn at(self, phase: Phase) -> SessionView {
        SessionView { phase, ..self }
    }

    /// The state after one more line was read and held `packet`, or none.
    pub open spec fn with_line(self, packet: Option<PacketView>) -> SessionView {
        SessionView {
            read_count: self.read_count + 1,
            packets: match packet {
                Some(p) => self.packets.push(p),
                None => self.packets,
            },
            ..self
        }
    }

    /// The transition function: the state after `event`, and the action
    /// that answers it. An event that the phase does not expect changes
    /// nothing and has no answer.
    ///
    /// The stop predicate is looked at after a line was read and nowhere
    /// else, so a session reads one line even with a timeout of zero.
    /// Every line counts, also one that holds no packet.
    pub open spec fn step(self, event: CaptureEvent) -> (SessionView, Option<ActionView>) {
        match (self.phase, event) {
            (Phase::Idle, CaptureEvent::Start) => (
                self.at(Phase::Spawning),
                Some(ActionView::Spawn { command: self.config.command() }),
            ),
            (Phase::Spawning, CaptureEvent::Spawned) => (
                self.at(Phase::Capturing),
                Some(ActionView::BeginCapture),
            ),
            (Phase::Spawning, CaptureEvent::SpawnFailed { message }) => (
                self.at(Phase::Terminated),
                Some(ActionView::Fail { message: message@ }),
            ),
            (Phase::Capturing, CaptureEvent::LineRead { line, elapsed_secs }) => {
                let packet = parsed(line@);
                let after = self.with_line(packet);
                if self.config.should_stop(after.read_count, elapsed_secs as nat) {
                    (
                        after.at(Phase::Draining),
                        Some(ActionView::Terminate { packet, cause: StopCause::LimitReached }),
                    )
                } else {
                    (after, Some(ActionView::Continue { packet }))
                }
            },
            (Phase::Capturing, CaptureEvent::ReadFailed) => (
                self.at(Phase::Draining),
                Some(ActionView::Terminate { packet: None, cause: StopCause::ReadFailed }),
            ),
            (Phase::Capturing, CaptureEvent::StreamEnded) => (
                self.at(Phase::Draining),
                Some(ActionView::Terminate { packet: None, cause: StopCause::StreamEnded }),
            ),
            (Phase::Draining, CaptureEvent::SubprocessEnded { killed }) => if self.reaped {
                (self, None)
            } else {
                (
                    SessionView { reaped: true, ..self },
                    Some(ActionView::JoinGenerator { kill_failed: !killed }),
                )
            },
            (Phase::Draining, CaptureEvent::GeneratorJoined) => if self.reaped {
                (
                    self.at(Phase::Terminated),
                    Some(ActionView::Report { packets_captured: self.read_count }),
                )
            } else {
                (self, None)
            },
            _ => (self, None),
        }
    }
}

/// One capture session.
pub struct CaptureSession {
    config: CaptureConfig,
    phase: Phase,
    read_count: usize,
    packets: Vec<CapturedPacket>,
    reaped: bool,
}

impl View for CaptureSession {
    type V = SessionView;

    closed spec fn view(&self) -> SessionView {
        SessionView {
            config: self.config@,
            phase: self.phase,
            read_count: self.read_count as nat,
            packets: packet_views(self.packets@),
            reaped: self.reaped,
        }
    }
}

impl CaptureSession {
    /// Makes a session for `config`; it waits to be started.
    pub fn new(config: CaptureConfig) -> (session: CaptureSession)
        requires
            config@.valid(),
        ensures
            session@ == SessionView::fresh(config@),
            session@.valid(),
    {
        let session = CaptureSession {
            config,
            phase: Phase::Idle,
            read_count: 0,
            packets: Vec::new(),
            reaped: false,
        };
        assert(packet_views(session.packets@) =~= Seq::empty());
        session
    }

    /// The configuration of the session.
    pub fn config(&self) -> (config: &CaptureConfig)
        ensures
            config@ == self@.config,
    {
        &self.config
    }

    /// The phase that the session is in.
    pub fn phase(&self) -> (phase: Phase)
        ensures
            phase == self@.phase,
    {
        self.phase
    }

    /// The number of lines read so far.
    pub fn read_count(&self) -> (count: usize)
        ensures
            count == self@.read_count,
    {
        self.read_count
    }

    /// The packets parsed so far, in the order of their arrival.
    pub fn packets(&self) -> (packets: &Vec<CapturedPacket>)
        ensures
            packet_views(packets@) == self@.packets,
    {
        &self.packets
    }

    /// Takes in `event` and answers with what to do next, as the
    /// transition function says.
    pub fn step(&mut self, event: CaptureEvent) -> (answer: Option<CaptureAction>)
        requires
            old(self)@.valid(),
        ensures
            final(self)@.valid(),
            (final(self)@, answer_view(answer)) == old(self)@.step(event),
    {
        match self.phase {
            Phase::Idle => match event {
                CaptureEvent::Start => {
                    self.phase = Phase::Spawning;
                    Some(CaptureAction::Spawn { command: self.config.command() })
                },
                _ => None,
            },
            Phase::Spawning => match event {
                CaptureEvent::Spawned => {
                    self.phase = Phase::Capturing;
                    Some(CaptureAction::BeginCapture)
                },
                CaptureEvent::SpawnFailed { message } => {
                    self.phase = Phase::Terminated;
                    Some(CaptureAction::Fail { message })
                },
                _ => None,
            },
            Phase::Capturing => match event {
                CaptureEvent::LineRead { line, elapsed_secs } => {
                    let packet = parse_packet(line.as_str());
                    let ghost before = packet_views(self.packets@);
                    self.read_count = self.read_count + 1;
                    match &packet {
                        Some(p) => {
                            self.packets.push(p.clone());
                            assert(packet_views(self.packets@) =~= before.push(p@));
                        },
                        None => {},
                    }
                    if self.config.should_stop(self.read_count, elapsed_secs) {
                        self.phase = Phase::Draining;
                        Some(CaptureAction::Terminate { packet, cause: StopCause::LimitReached })
                    } else {
                        Some(CaptureAction::Continue { packet })
                    }
                },
                CaptureEvent::ReadFailed => {
                    self.phase = Phase::Draining;
                    Some(CaptureAction::Terminate { packet: None, cause: StopCause::ReadFailed })
                },
                CaptureEvent::StreamEnded => {
                    self.phase = Phase::Draining;
                    Some(CaptureAction::Terminate { packet: None, cause: StopCause::StreamEnded })
                },
                _ => None,
            },
            Phase::Draining => match event {
                CaptureEvent::SubprocessEnded { killed } => {
                    if self.reaped {
                        None
                    } else {
                        self.reaped = true;
                        Some(CaptureAction::JoinGenerator { kill_failed: !killed })
                    }
                },
                CaptureEvent::GeneratorJoined => {
                    if self.reaped {
                        self.phase = Phase::Terminated;
                        Some(
                            CaptureAction::Report {
                                outcome: CaptureOutcome { packets_captured: self.read_count },
                            },
                        )
                    } else {
                        None
                    }
                },
                _ => None,
            },
            Phase::Terminated => None,
        }
    }
}

} // verus!
