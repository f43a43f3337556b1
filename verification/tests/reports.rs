use netdiag::capture::{CaptureConfig, CaptureOutcome};
use netdiag::command::CommandResult;
use netdiag::packet::parse_packet;
use netdiag::report::{
    capture_banner, command_banner, command_report, diagnostics_banner, diagnostics_done,
    failure_report, kill_failure_notice, observation_line, packet_row, read_error_notice, spawn_error_report,
    stop_notice, success_report, summary_line, table_header, table_rule, traffic_banner,
};
use netdiag::traffic::SiteObservation;

const GREEN_SUCCESS: &str = "\x1b[32m[SUCCESS]\x1b[0m";
const RED_ERROR: &str = "\x1b[31m[ERROR]\x1b[0m";
const BLUE_INFO: &str = "\x1b[34m[INFO]\x1b[0m";

#[test]
fn banner_of_a_command_is_blue() {
    assert_eq!(
        command_banner("Fetching Public IP Address"),
        "🔹 \x1b[34mFetching Public IP Address\x1b[0m"
    );
}

#[test]
fn reports_by_kind_of_result() {
    assert_eq!(success_report("1.2.3.4\n"), format!("✅ {}\n1.2.3.4\n", GREEN_SUCCESS));
    assert_eq!(failure_report("no route"), format!("❌ {}\nno route", RED_ERROR));
    assert_eq!(spawn_error_report("not found"), format!("❌ {} not found", RED_ERROR));
}

#[test]
fn report_of_a_result_decodes_its_bytes() {
    let ok = CommandResult::Success { stdout: "PING 8.8.8.8: größe\n".as_bytes().to_vec() };
    assert_eq!(command_report(&ok), format!("✅ {}\nPING 8.8.8.8: größe\n", GREEN_SUCCESS));
    let failed = CommandResult::Failure { stderr: b"unknown host".to_vec() };
    assert_eq!(command_report(&failed), format!("❌ {}\nunknown host", RED_ERROR));
    let missing = CommandResult::SpawnError { message: "No such file".to_string() };
    assert_eq!(command_report(&missing), format!("❌ {} No such file", RED_ERROR));
}

#[test]
fn bytes_that_are_no_text_do_not_abort_the_report() {
    let ok = CommandResult::Success { stdout: vec![b'a', 0xff, b'b', 0xc3] };
    assert_eq!(command_report(&ok), format!("✅ {}\na\u{fffd}b\u{fffd}", GREEN_SUCCESS));
    let failed = CommandResult::Failure { stderr: vec![0x80] };
    assert_eq!(command_report(&failed), format!("❌ {}\n\u{fffd}", RED_ERROR));
}

#[test]
fn observation_lines_by_kind() {
    assert_eq!(
        observation_line(&SiteObservation::Visited { label: "GitHub".to_string() }),
        format!("✅ {} Visited: \x1b[36mGitHub\x1b[0m", GREEN_SUCCESS)
    );
    assert_eq!(
        observation_line(&SiteObservation::Failed { label: "GitHub".to_string() }),
        format!("❌ {} Failed to visit GitHub", RED_ERROR)
    );
    assert_eq!(
        observation_line(&SiteObservation::NotStarted { message: "curl missing".to_string() }),
        format!("❌ {} curl missing", RED_ERROR)
    );
}

#[test]
fn header_of_the_packet_table() {
    let expected = format!(
        "{:<20} {:<20} {:<10} {:<40}",
        "\x1b[33mTimestamp\x1b[0m",
        "\x1b[36mSource\x1b[0m",
        "\x1b[34mProtocol\x1b[0m",
        "\x1b[32mInfo\x1b[0m"
    );
    assert_eq!(table_header(), expected);
    assert_eq!(
        table_header(),
        "\x1b[33mTimestamp\x1b[0m   \x1b[36mSource\x1b[0m      \x1b[34mProtocol\x1b[0m \x1b[32mInfo\x1b[0m                           "
    );
}

#[test]
fn rule_is_ninety_dashes() {
    assert_eq!(table_rule(), "-".repeat(90));
    assert_eq!(table_rule().len(), 90);
}

#[test]
fn row_of_a_packet() {
    let packet = parse_packet(
        "12:00:00.123456 IP 10.0.0.5 > 8.8.8.8: 53 ICMP echo request, id 1, seq 1",
    )
    .expect("packet");
    let expected = format!(
        "{:<20} {:<20} {:<10} {:<40}",
        "\x1b[33m12:00:00.123456\x1b[0m",
        "\x1b[36m10.0.0.5\x1b[0m",
        "\x1b[34m8.8.8.8:\x1b[0m",
        "\x1b[32m53 ICMP echo request, id 1, seq 1\x1b[0m"
    );
    assert_eq!(packet_row(&packet), expected);
    assert_eq!(
        packet_row(&packet),
        "\x1b[33m12:00:00.123456\x1b[0m \x1b[36m10.0.0.5\x1b[0m    \x1b[34m8.8.8.8:\x1b[0m \x1b[32m53 ICMP echo request, id 1, seq 1\x1b[0m"
    );
}

#[test]
fn row_with_fields_wider_than_their_columns() {
    let packet = parse_packet(
        "0123456789012345678901234 x a-very-long-source-address-indeed y protocol-name z",
    )
    .expect("packet");
    assert_eq!(
        packet_row(&packet),
        "\x1b[33m0123456789012345678901234\x1b[0m \x1b[36ma-very-long-source-address-indeed\x1b[0m \x1b[34mprotocol-name\x1b[0m \x1b[32mz\x1b[0m                              "
    );
}

#[test]
fn banner_of_a_capture() {
    let config = CaptureConfig::new("en0", "53", 10, 1).expect("config");
    assert_eq!(
        capture_banner(&config),
        format!(
            "\n📡 {} Capturing 10 packets on \x1b[36men0\x1b[0m (port \x1b[36m53\x1b[0m)\n",
            BLUE_INFO
        )
    );
}

#[test]
fn banner_of_the_traffic_generator() {
    assert_eq!(
        traffic_banner(),
        format!("\n🌍 {} Visiting Websites While Capturing Traffic...\n", BLUE_INFO)
    );
}

#[test]
fn notice_of_a_read_error() {
    assert_eq!(
        read_error_notice("broken pipe"),
        format!("❌ {} Error reading packet: broken pipe", RED_ERROR)
    );
}

#[test]
fn notice_of_the_stop() {
    assert_eq!(
        stop_notice(10, 1),
        "\n⏳ \x1b[33m[TIMEOUT]\x1b[0m Stopping capture after 10 packets or 1 seconds."
    );
    assert_eq!(
        stop_notice(0, 0),
        "\n⏳ \x1b[33m[TIMEOUT]\x1b[0m Stopping capture after 0 packets or 0 seconds."
    );
}

#[test]
fn summary_of_a_capture() {
    assert_eq!(
        summary_line(CaptureOutcome { packets_captured: 5 }),
        "\n📊 \x1b[34m[SUMMARY]\x1b[0m Summary: Captured 5 packets.\n"
    );
    assert_eq!(
        summary_line(CaptureOutcome { packets_captured: 0 }),
        "\n📊 \x1b[34m[SUMMARY]\x1b[0m Summary: Captured 0 packets.\n"
    );
}

#[test]
fn banners_of_the_diagnostics() {
    assert_eq!(diagnostics_banner(), format!("\n🌐 {} Running Network Diagnostics...\n", BLUE_INFO));
    assert_eq!(diagnostics_done(), "🌍 \x1b[34m[INFO] Network tests completed.\x1b[0m\n");
}

#[test]
fn notice_of_a_failed_kill() {
    assert_eq!(
        kill_failure_notice(),
        format!("❌ {} Could not stop the capture process", RED_ERROR)
    );
}
