use netdiag::packet::{parse_packet, whitespace, CapturedPacket};

fn fields(line: &str) -> Option<(String, String, String, String)> {
    parse_packet(line).map(|p| (p.timestamp, p.source, p.protocol, p.info))
}

fn by_std(line: &str) -> Option<(String, String, String, String)> {
    let parts: Vec<&str> = line.split_whitespace().collect();
    if parts.len() < 6 {
        return None;
    }
    Some((
        parts[0].to_string(),
        parts[2].to_string(),
        parts[4].to_string(),
        parts[5..].join(" "),
    ))
}

#[test]
fn literal_capture_line_gives_exact_fields() {
    let line = "12:00:00.123456 IP 10.0.0.5 > 8.8.8.8: 53 ICMP echo request, id 1, seq 1";
    let packet = parse_packet(line).expect("a line of fourteen tokens is a packet");
    assert_eq!(packet.timestamp, "12:00:00.123456");
    assert_eq!(packet.source, "10.0.0.5");
    assert_eq!(packet.protocol, "8.8.8.8:");
    assert_eq!(packet.info, "53 ICMP echo request, id 1, seq 1");
}

#[test]
fn fewer_than_six_tokens_is_no_packet() {
    assert_eq!(parse_packet(""), None);
    assert_eq!(parse_packet("   \t  "), None);
    assert_eq!(parse_packet("one"), None);
    assert_eq!(parse_packet("one two three four five"), None);
    assert_eq!(parse_packet("  one   two three\tfour  five  "), None);
    assert_eq!(parse_packet("listening on en0, link-type EN10MB"), None);
}

#[test]
fn six_tokens_is_the_shortest_packet() {
    let packet = parse_packet("a b c d e f").expect("six tokens");
    assert_eq!(
        packet,
        CapturedPacket {
            timestamp: "a".to_string(),
            source: "c".to_string(),
            protocol: "e".to_string(),
            info: "f".to_string(),
        }
    );
}

#[test]
fn info_is_rejoined_with_single_spaces() {
    let packet = parse_packet("t0  x \t src   >  proto   alpha \t\t beta    gamma  ").expect("packet");
    assert_eq!(packet.timestamp, "t0");
    assert_eq!(packet.source, "src");
    assert_eq!(packet.protocol, "proto");
    assert_eq!(packet.info, "alpha beta gamma");
}

#[test]
fn leading_and_trailing_whitespace_is_ignored() {
    assert_eq!(fields("\n\t 1 2 3 4 5 6 \r\n"), fields("1 2 3 4 5 6"));
    assert_eq!(
        fields("1 2 3 4 5 6"),
        Some(("1".to_string(), "3".to_string(), "5".to_string(), "6".to_string()))
    );
}

#[test]
fn unicode_whitespace_separates_tokens() {
    let line = "a\u{a0}b\u{2003}c\u{3000}d\u{85}e\u{1680}f\u{2028}g\u{205f}h";
    let packet = parse_packet(line).expect("eight tokens");
    assert_eq!(packet.timestamp, "a");
    assert_eq!(packet.source, "c");
    assert_eq!(packet.protocol, "e");
    assert_eq!(packet.info, "f g h");
}

#[test]
fn characters_that_only_look_like_space_stay_in_tokens() {
    // U+200B (zero width space) and U+180E are not whitespace.
    assert_eq!(parse_packet("a\u{200b}b c\u{180e}d e f g"), None);
    let packet = parse_packet("a\u{200b}b c d e\u{feff} f g").expect("six tokens");
    assert_eq!(packet.timestamp, "a\u{200b}b");
    assert_eq!(packet.protocol, "f");
    assert_eq!(packet.info, "g");
}

#[test]
fn tokens_of_many_bytes_are_kept_whole() {
    let packet = parse_packet("zeit ip größe > ziel: häufig überall 日本語 ok").expect("packet");
    assert_eq!(packet.timestamp, "zeit");
    assert_eq!(packet.source, "größe");
    assert_eq!(packet.protocol, "ziel:");
    assert_eq!(packet.info, "häufig überall 日本語 ok");
}

#[test]
fn same_line_parses_the_same_every_time() {
    let line = "12:00:01.000001 IP 192.168.1.2.5353 > 224.0.0.251.5353: 0 PTR (QM)? _x._tcp.local.";
    let first = parse_packet(line);
    let second = parse_packet(line);
    let third = parse_packet(&line.to_string());
    assert!(first.is_some());
    assert_eq!(first, second);
    assert_eq!(second, third);
    // the line itself is left as it was
    assert_eq!(
        line,
        "12:00:01.000001 IP 192.168.1.2.5353 > 224.0.0.251.5353: 0 PTR (QM)? _x._tcp.local."
    );
}

#[test]
fn parser_agrees_with_splitting_on_whitespace() {
    let lines = [
        "",
        " ",
        "a",
        "a b c d e",
        "a b c d e f",
        " a  b   c    d     e      f       g ",
        "\ta\tb\tc\td\te\tf\tg\th\ti\tj",
        "tcpdump: verbose output suppressed, use -v or -vv for full protocol decode",
        "12:34:56.789012 IP (tos 0x0, ttl 64, id 0, offset 0, flags [DF], proto UDP (17), length 56)",
        "    10.0.0.5.51234 > 8.8.8.8.53: [udp sum ok] 4242+ A? example.com. (28)",
        "x\u{a0}y\u{2000}z\u{2001}w\u{2002}v\u{2009}u\u{200a}t\u{202f}s",
        "a\u{b}b\u{c}c\u{d}d\u{1c}e\u{1f}f g h i j",
        "5 packets captured",
        "é è ê ë ē ė ę",
    ];
    for line in lines {
        assert_eq!(fields(line), by_std(line), "line {:?}", line);
    }
}

#[test]
fn whitespace_is_the_unicode_property() {
    let mut code: u32 = 0;
    while code <= 0x10ffff {
        if let Some(c) = char::from_u32(code) {
            assert_eq!(whitespace(c), c.is_whitespace(), "U+{:04X}", code);
        }
        code += 1;
    }
}

#[test]
fn copy_of_a_packet_has_the_same_fields() {
    let packet = parse_packet("1 2 3 4 5 6 7").expect("packet");
    let copy = packet.clone();
    assert_eq!(copy, packet);
    assert_eq!(copy.info, "6 7");
}
