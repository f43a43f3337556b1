use netdiag::command::{CommandRequest, CommandResult, ProcessExit};
use netdiag::diagnostics::{diagnostic_battery, PAUSE_SECS};

#[test]
fn request_collects_its_arguments_in_order() {
    let bare = CommandRequest::new("ls");
    assert_eq!(bare.program, "ls");
    assert!(bare.args.is_empty());
    let request = CommandRequest::new("ping").arg("-c").arg("4").arg("8.8.8.8");
    assert_eq!(request.program, "ping");
    assert_eq!(request.args, vec!["-c", "4", "8.8.8.8"]);
}

#[test]
fn exit_status_zero_is_success_with_stdout() {
    let exit = ProcessExit { success: true, stdout: b"out".to_vec(), stderr: b"err".to_vec() };
    let result = CommandResult::from_attempt(Ok(exit));
    assert_eq!(result, CommandResult::Success { stdout: b"out".to_vec() });
    assert!(result.succeeded());
}

#[test]
fn other_exit_status_is_failure_with_stderr() {
    let exit = ProcessExit { success: false, stdout: b"out".to_vec(), stderr: b"err".to_vec() };
    let result = CommandResult::from_attempt(Ok(exit));
    assert_eq!(result, CommandResult::Failure { stderr: b"err".to_vec() });
    assert!(!result.succeeded());
}

#[test]
fn program_that_does_not_start_is_a_spawn_error() {
    let reason = "No such file or directory (os error 2)".to_string();
    let result = CommandResult::from_attempt(Err(reason.clone()));
    assert_eq!(result, CommandResult::SpawnError { message: reason });
    assert!(!result.succeeded());
}

#[test]
fn output_that_is_no_text_is_kept_as_bytes() {
    let raw = vec![0xff, 0xfe, 0x00, 0x80];
    let exit = ProcessExit { success: true, stdout: raw.clone(), stderr: Vec::new() };
    assert_eq!(CommandResult::from_attempt(Ok(exit)), CommandResult::Success { stdout: raw.clone() });
    let exit = ProcessExit { success: false, stdout: Vec::new(), stderr: raw.clone() };
    assert_eq!(CommandResult::from_attempt(Ok(exit)), CommandResult::Failure { stderr: raw });
}

#[test]
fn battery_holds_the_six_checks_in_order() {
    let battery = diagnostic_battery();
    let shown: Vec<(String, Vec<String>, String)> = battery
        .into_iter()
        .map(|c| (c.command.program, c.command.args, c.description))
        .collect();
    let expected: Vec<(&str, Vec<&str>, &str)> = vec![
        ("ping", vec!["-c", "4", "8.8.8.8"], "Pinging Google DNS Server (8.8.8.8)"),
        ("curl", vec!["ifconfig.me"], "Fetching Public IP Address"),
        ("sh", vec!["-c", "ifconfig -a | grep 'inet '"], "Fetching Private IP Address"),
        ("sh", vec!["-c", "netstat -an | grep 'ESTABLISHED'"], "Checking Open Listening Ports"),
        ("sh", vec!["-c", "traceroute google.com"], "Running Traceroute to Google"),
        ("netstat", vec!["-rn", "-f", "inet"], "Displaying Routing Table"),
    ];
    assert_eq!(shown.len(), 6);
    for (have, want) in shown.iter().zip(expected.iter()) {
        assert_eq!(have.0, want.0);
        assert_eq!(have.1, want.1);
        assert_eq!(have.2, want.2);
    }
    assert_eq!(PAUSE_SECS, 1);
}
