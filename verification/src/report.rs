//! The lines shown to the operator: notices, the packet table, the
//! per-site results and the summary. Each function returns one line, or a
//! short block of lines, without the line break that ends it.

use crate::capture::{CaptureConfig, CaptureOutcome, ConfigView};
use crate::color::{colorize, colorized};
use crate::command::{CommandResult, CommandResultView};
use crate::packet::{CapturedPacket, PacketView};
use crate::text::{decimal, decimal_text, decode_lossy, lossy_text, pad_right, padded};
use crate::traffic::{ObservationView, SiteObservation};
use vstd::prelude::*;
use vstd::string::*;

verus! {

/// The mark in front of a line that reports success.
pub open spec fn success_mark() -> Seq<char> {
    "✅ "@ + colorized("[SUCCESS]"@, "green"@)
}

/// The mark in front of a line that reports an error.
pub open spec fn error_mark() -> Seq<char> {
    "❌ "@ + colorized("[ERROR]"@, "red"@)
}

fn success_mark_text() -> (mark: String)
    ensures
        mark@ == success_mark(),
{
    let mut mark = String::from_str("✅ ");
    mark.append(colorize("[SUCCESS]", "green").as_str());
    mark
}

fn error_mark_text() -> (mark: String)
    ensures
        mark@ == error_mark(),
{
    let mut mark = String::from_str("❌ ");
    mark.append(colorize("[ERROR]", "red").as_str());
    mark
}

/// The line that announces a diagnostic command.
pub open spec fn command_banner_text(description: Seq<char>) -> Seq<char> {
    "🔹 "@ + colorized(description, "blue"@)
}

/// Announces a diagnostic command by its description.
pub fn command_banner(description: &str) -> (line: String)
    ensures
        line@ == command_banner_text(description@),
{
    let mut line = String::from_str("🔹 ");
    line.append(colorize(description, "blue").as_str());
    line
}

/// The report of a command that succeeded: the mark, then its output on a
/// line of its own.
pub open spec fn success_report_text(output: Seq<char>) -> Seq<char> {
    success_mark() + "\n"@ + output
}

/// The report of a command that failed: the mark, then what it wrote to
/// standard error on a line of its own.
pub open spec fn failure_report_text(errors: Seq<char>) -> Seq<char> {
    error_mark() + "\n"@ + errors
}

/// The report of a command that did not start: the mark and the reason.
pub open spec fn spawn_error_text(reason: Seq<char>) -> Seq<char> {
    error_mark() + " "@ + reason
}

/// Reports a command that succeeded with the given output.
pub fn success_report(output: &str) -> (report: String)
    ensures
        report@ == success_report_text(output@),
{
    let mut report = success_mark_text();
    report.append("\n");
    report.append(output);
    report
}

/// Reports a command that failed with the given error output.
pub fn failure_report(errors: &str) -> (report: String)
    ensures
        report@ == failure_report_text(errors@),
{
    let mut report = error_mark_text();
    report.append("\n");
    report.append(errors);
    report
}

/// Reports a command that did not start, with the reason.
pub fn spawn_error_report(reason: &str) -> (report: String)
    ensures
        report@ == spawn_error_text(reason@),
{
    let mut report = error_mark_text();
    report.append(" ");
    report.append(reason);
    report
}

/// The report of a command's result. What the command wrote is decoded
/// lossily, so bytes that are no text do not stand in the way.
pub open spec fn command_report_text(result: CommandResultView) -> Seq<char> {
    match result {
        CommandResultView::Success { stdout } => success_report_text(lossy_text(stdout)),
        CommandResultView::Failure { stderr } => failure_report_text(lossy_text(stderr)),
        CommandResultView::SpawnError { message } => spawn_error_text(message),
    }
}

/// Reports the result of a diagnostic command.
pub fn command_report(result: &CommandResult) -> (report: String)
    ensures
        report@ == command_report_text(result@),
{
    match result {
        CommandResult::Success { stdout } => success_report(decode_lossy(stdout).as_str()),
        CommandResult::Failure { stderr } => failure_report(decode_lossy(stderr).as_str()),
        CommandResult::SpawnError { message } => spawn_error_report(message.as_str()),
    }
}

/// The line that reports one probe.
pub open spec fn observation_text(observation: ObservationView) -> Seq<char> {
    match observation {
        ObservationView::Visited { label } => success_mark() + " Visited: "@ + colorized(
            label,
            "cyan"@,
        ),
        ObservationView::Failed { label } => error_mark() + " Failed to visit "@ + label,
        ObservationView::NotStarted { message } => spawn_error_text(message),
    }
}

/// Reports one probe of the traffic generator.
pub fn observation_line(observation: &SiteObservation) -> (line: String)
    ensures
        line@ == observation_text(observation@),
{
    match observation {
        SiteObservation::Visited { label } => {
            let mut line = success_mark_text();
            line.append(" Visited: ");
            line.append(colorize(label.as_str(), "cyan").as_str());
            line
        },
        SiteObservation::Failed { label } => {
            let mut line = error_mark_text();
            line.append(" Failed to visit ");
            line.append(label.as_str());
            line
        },
        SiteObservation::NotStarted { message } => spawn_error_report(message.as_str()),
    }
}

/// A row of the packet table: four cells, padded to 20, 20, 10 and 40
/// characters, with a space between them.
pub open spec fn row(first: Seq<char>, second: Seq<char>, third: Seq<char>, fourth: Seq<char>) -> Seq<
    char,
> {
    padded(first, 20) + " "@ + padded(second, 20) + " "@ + padded(third, 10) + " "@ + padded(
        fourth,
        40,
    )
}

fn row_text(first: &str, second: &str, third: &str, fourth: &str) -> (line: String)
    ensures
        line@ == row(first@, second@, third@, fourth@),
{
    let mut line = pad_right(first, 20);
    line.append(" ");
    line.append(pad_right(second, 20).as_str());
    line.append(" ");
    line.append(pad_right(third, 10).as_str());
    line.append(" ");
    line.append(pad_right(fourth, 40).as_str());
    line
}

/// The head of the packet table.
pub open spec fn table_header_text() -> Seq<char> {
    row(
        colorized("Timestamp"@, "yellow"@),
        colorized("Source"@, "cyan"@),
        colorized("Protocol"@, "blue"@),
        colorized("Info"@, "green"@),
    )
}

/// The head of the packet table: the titles of the four columns.
pub fn table_header() -> (line: String)
    ensures
        line@ == table_header_text(),
{
    row_text(
        colorize("Timestamp", "yellow").as_str(),
        colorize("Source", "cyan").as_str(),
        colorize("Protocol", "blue").as_str(),
        colorize("Info", "green").as_str(),
    )
}

/// The width of the rule under the head of the table.
pub const RULE_WIDTH: usize = 90;

/// The rule under the head of the table: ninety dashes.
pub open spec fn table_rule_text() -> Seq<char> {
    Seq::new(RULE_WIDTH as nat, |i: int| '-')
}

/// The rule under the head of the table.
pub fn table_rule() -> (line: String)
    ensures
        line@ == table_rule_text(),
{
    let mut line = String::new();
    let mut count: usize = 0;
    while count < RULE_WIDTH
        invariant
            count <= RULE_WIDTH,
            line@ == Seq::new(count as nat, |i: int| '-'),
        decreases RULE_WIDTH - count,
    {
        proof {
            reveal_strlit("-");
            assert("-"@ =~= seq!['-']);
        }
        line.append("-");
        count = count + 1;
        assert(line@ =~= Seq::new(count as nat, |i: int| '-'));
    }
    line
}

/// The row of a packet: each field in the color of its column.
pub open spec fn packet_row_text(packet: PacketView) -> Seq<char> {
    row(
        colorized(packet.timestamp, "yellow"@),
        colorized(packet.source, "cyan"@),
        colorized(packet.protocol, "blue"@),
        colorized(packet.info, "green"@),
    )
}

/// The row of the packet table that shows `packet`.
pub fn packet_row(packet: &CapturedPacket) -> (line: String)
    ensures
        line@ == packet_row_text(packet@),
{
    row_text(
        colorize(packet.timestamp.as_str(), "yellow").as_str(),
        colorize(packet.source.as_str(), "cyan").as_str(),
        colorize(packet.protocol.as_str(), "blue").as_str(),
        colorize(packet.info.as_str(), "green").as_str(),
    )
}

/// The notice that opens a capture.
pub open spec fn capture_banner_text(config: ConfigView) -> Seq<char> {
    "\n📡 "@ + colorized("[INFO]"@, "blue"@) + " Capturing "@ + decimal(config.max_packets)
        + " packets on "@ + colorized(config.interface, "cyan"@) + " (port "@ + colorized(
        config.port,
        "cyan"@,
    ) + ")\n"@
}

/// Announces a capture: how many packets, on which interface and port.
pub fn capture_banner(config: &CaptureConfig) -> (notice: String)
    ensures
        notice@ == capture_banner_text(config@),
{
    let mut notice = String::from_str("\n📡 ");
    notice.append(colorize("[INFO]", "blue").as_str());
    notice.append(" Capturing ");
    notice.append(decimal_text(config.max_packets as u64).as_str());
    notice.append(" packets on ");
    notice.append(colorize(config.interface.as_str(), "cyan").as_str());
    notice.append(" (port ");
    notice.append(colorize(config.port.as_str(), "cyan").as_str());
    notice.append(")\n");
    notice
}

/// The notice that the traffic generator is at work.
pub open spec fn traffic_banner_text() -> Seq<char> {
    "\n🌍 "@ + colorized("[INFO]"@, "blue"@) + " Visiting Websites While Capturing Traffic...\n"@
}

/// Announces the traffic generator.
pub fn traffic_banner() -> (notice: String)
    ensures
        notice@ == traffic_banner_text(),
{
    let mut notice = String::from_str("\n🌍 ");
    notice.append(colorize("[INFO]", "blue").as_str());
    notice.append(" Visiting Websites While Capturing Traffic...\n");
    notice
}

/// The notice that a line could not be read.
pub open spec fn read_error_text(reason: Seq<char>) -> Seq<char> {
    error_mark() + " Error reading packet: "@ + reason
}

/// Reports that reading from the capture subprocess failed.
pub fn read_error_notice(reason: &str) -> (notice: String)
    ensures
        notice@ == read_error_text(reason@),
{
    let mut notice = error_mark_text();
    notice.append(" Error reading packet: ");
    notice.append(reason);
    notice
}

/// The notice that the capture subprocess could not be stopped.
pub open spec fn kill_failure_text() -> Seq<char> {
    error_mark() + " Could not stop the capture process"@
}

/// Reports that the capture subprocess could not be stopped. The session
/// goes on to its end all the same.
pub fn kill_failure_notice() -> (notice: String)
    ensures
        notice@ == kill_failure_text(),
{
    let mut notice = error_mark_text();
    notice.append(" Could not stop the capture process");
    notice
}

/// The notice that the stop predicate held.
pub open spec fn stop_notice_text(read_count: nat, timeout_secs: nat) -> Seq<char> {
    "\n⏳ "@ + colorized("[TIMEOUT]"@, "yellow"@) + " Stopping capture after "@ + decimal(
        read_count,
    ) + " packets or "@ + decimal(timeout_secs) + " seconds."@
}

/// Reports that the capture stops, with the number of lines read and the
/// timeout of the session.
pub fn stop_notice(read_count: usize, timeout_secs: u64) -> (notice: String)
    ensures
        notice@ == stop_notice_text(read_count as nat, timeout_secs as nat),
{
    let mut notice = String::from_str("\n⏳ ");
    notice.append(colorize("[TIMEOUT]", "yellow").as_str());
    notice.append(" Stopping capture after ");
    notice.append(decimal_text(read_count as u64).as_str());
    notice.append(" packets or ");
    notice.append(decimal_text(timeout_secs).as_str());
    notice.append(" seconds.");
    notice
}

/// The summary of a capture.
pub open spec fn summary_text(packets_captured: nat) -> Seq<char> {
    "\n📊 "@ + colorized("[SUMMARY]"@, "blue"@) + " Summary: Captured "@ + decimal(
        packets_captured,
    ) + " packets.\n"@
}

/// Sums a capture up.
pub fn summary_line(outcome: CaptureOutcome) -> (notice: String)
    ensures
        notice@ == summary_text(outcome.packets_captured as nat),
{
    let mut notice = String::from_str("\n📊 ");
    notice.append(colorize("[SUMMARY]", "blue").as_str());
    notice.append(" Summary: Captured ");
    notice.append(decimal_text(outcome.packets_captured as u64).as_str());
    notice.append(" packets.\n");
    notice
}

/// The notice that opens the diagnostics.
pub open spec fn diagnostics_banner_text() -> Seq<char> {
    "\n🌐 "@ + colorized("[INFO]"@, "blue"@) + " Running Network Diagnostics...\n"@
}

/// Announces the diagnostics.
pub fn diagnostics_banner() -> (notice: String)
    ensures
        notice@ == diagnostics_banner_text(),
{
    let mut notice = String::from_str("\n🌐 ");
    notice.append(colorize("[INFO]", "blue").as_str());
    notice.append(" Running Network Diagnostics...\n");
    notice
}

/// The notice that closes the diagnostics.
pub open spec fn diagnostics_done_text() -> Seq<char> {
    "🌍 "@ + colorized("[INFO] Network tests completed."@, "blue"@) + "\n"@
}

/// Reports that the diagnostics are through.
pub fn diagnostics_done() -> (notice: String)
    ensures
        notice@ == diagnostics_done_text(),
{
    let mut notice = String::from_str("🌍 ");
    notice.append(colorize("[INFO] Network tests completed.", "blue").as_str());
    notice.append("\n");
    notice
}

} // verus!
