//! The fixed battery of connectivity checks that runs before a capture.

use crate::command::{command, CommandRequest, CommandView};
use vstd::prelude::*;
use vstd::string::*;

verus! {

/// One check of the battery: a command, and the words that announce it.
#[derive(Clone, Debug, PartialEq, Eq)]
pub struct DiagnosticCheck {
    pub command: CommandRequest,
    pub description: String,
}

/// The content of a `DiagnosticCheck`.
pub struct CheckView {
    pub command: CommandView,
    pub description: Seq<char>,
}

impl View for DiagnosticCheck {
    type V = CheckView;

    open spec fn view(&self) -> CheckView {
        CheckView { command: self.command@, description: self.description@ }
    }
}

/// The check that runs `command` under the given description.
pub open spec fn check(command: CommandView, description: Seq<char>) -> CheckView {
    CheckView { command, description }
}

/// The content of each check of a list.
pub open spec fn check_views(checks: Seq<DiagnosticCheck>) -> Seq<CheckView> {
    Seq::new(checks.len(), |i: int| checks[i]@)
}

impl DiagnosticCheck {
    pub fn new(command: CommandRequest, description: &str) -> (made: DiagnosticCheck)
        ensures
            made@ == check(command@, description@),
    {
        DiagnosticCheck { command, description: String::from_str(description) }
    }
}

/// Seconds to rest after each check.
pub const PAUSE_SECS: u64 = 1;

/// The checks of the battery, in the order in which they run.
pub open spec fn reference_battery() -> Seq<CheckView> {
    seq![
        check(
            command("ping"@).arg("-c"@).arg("4"@).arg("8.8.8.8"@),
            "Pinging Google DNS Server (8.8.8.8)"@,
        ),
        check(command("curl"@).arg("ifconfig.me"@), "Fetching Public IP Address"@),
        check(
            command("sh"@).arg("-c"@).arg("ifconfig -a | grep 'inet '"@),
            "Fetching Private IP Address"@,
        ),
        check(
            command("sh"@).arg("-c"@).arg("netstat -an | grep 'ESTABLISHED'"@),
            "Checking Open Listening Ports"@,
        ),
        check(
            command("sh"@).arg("-c"@).arg("traceroute google.com"@),
            "Running Traceroute to Google"@,
        ),
        check(
            command("netstat"@).arg("-rn"@).arg("-f"@).arg("inet"@),
            "Displaying Routing Table"@,
        ),
    ]
}

/// Builds the battery of checks.
pub fn diagnostic_battery() -> (battery: Vec<DiagnosticCheck>)
    ensures
        check_views(battery@) == reference_battery(),
{
    let mut battery: Vec<DiagnosticCheck> = Vec::new();
    battery.push(
        DiagnosticCheck::new(
            CommandRequest::new("ping").arg("-c").arg("4").arg("8.8.8.8"),
            "Pinging Google DNS Server (8.8.8.8)",
        ),
    );
    battery.push(
        DiagnosticCheck::new(
            CommandRequest::new("curl").arg("ifconfig.me"),
            "Fetching Public IP Address",
        ),
    );
    battery.push(
        DiagnosticCheck::new(
            CommandRequest::new("sh").arg("-c").arg("ifconfig -a | grep 'inet '"),
            "Fetching Private IP Address",
        ),
    );
    battery.push(
        DiagnosticCheck::new(
            CommandRequest::new("sh").arg("-c").arg("netstat -an | grep 'ESTABLISHED'"),
            "Checking Open Listening Ports",
        ),
    );
    battery.push(
        DiagnosticCheck::new(
            CommandRequest::new("sh").arg("-c").arg("traceroute google.com"),
            "Running Traceroute to Google",
        ),
    );
    battery.push(
        DiagnosticCheck::new(
            CommandRequest::new("netstat").arg("-rn").arg("-f").arg("inet"),
            "Displaying Routing Table",
        ),
    );
    assert(check_views(battery@) =~= reference_battery());
    battery
}

} // verus!
