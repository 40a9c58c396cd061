use rss_reader::supervisor::handshake::{
    handshake_wait, parse_port_line, HandshakeReader, LineAction, WaitStep, HANDSHAKE_TIMEOUT_MS,
};

#[test]
fn port_line_is_parsed() {
    assert_eq!(parse_port_line("PORT:54213"), Some(54213));
    assert_eq!(parse_port_line("PORT:8080"), Some(8080));
}

#[test]
fn port_line_bounds() {
    assert_eq!(parse_port_line("PORT:0"), Some(0));
    assert_eq!(parse_port_line("PORT:65535"), Some(65535));
    assert_eq!(parse_port_line("PORT:65536"), None);
    assert_eq!(parse_port_line("PORT:99999999999999999999999999"), None);
}

#[test]
fn port_line_allows_surrounding_whitespace() {
    assert_eq!(parse_port_line("  PORT:8080\r\n"), Some(8080));
    assert_eq!(parse_port_line("\tPORT:1 "), Some(1));
    assert_eq!(parse_port_line("\u{3000}PORT:7\u{a0}"), Some(7));
}

#[test]
fn port_line_allows_leading_zeros() {
    assert_eq!(parse_port_line("PORT:0000000000000080"), Some(80));
}

#[test]
fn other_lines_announce_nothing() {
    for line in [
        "",
        "noise",
        "PORT:",
        "PORT",
        "port:8080",
        "PORT: 8080",
        "PORT:80 80",
        "PORT:+80",
        "PORT:-1",
        "PORT:8080x",
        "xPORT:8080",
        "PORT:80.0",
        "PORT:٣",
    ] {
        assert_eq!(parse_port_line(line), None, "{:?}", line);
    }
}

#[test]
fn every_port_round_trips() {
    for n in 0..=65535u32 {
        assert_eq!(parse_port_line(&format!("PORT:{}", n)), Some(n as u16));
    }
}

#[test]
fn noise_then_port_then_noise() {
    let mut reader = HandshakeReader::new();
    let mut forwarded = 0;
    let mut signals = Vec::new();
    for line in ["noise", "PORT:8080", "more noise"] {
        match reader.observe(line) {
            LineAction::Forward => forwarded += 1,
            LineAction::AnnounceAndForward(port) => {
                forwarded += 1;
                signals.push(port);
            }
        }
    }
    assert_eq!(reader.port(), Some(8080));
    assert_eq!(forwarded, 3);
    assert_eq!(signals, vec![8080]);
}

#[test]
fn second_announcement_is_only_forwarded() {
    let mut reader = HandshakeReader::new();
    assert_eq!(reader.observe("PORT:1000"), LineAction::AnnounceAndForward(1000));
    assert_eq!(reader.observe("PORT:2000"), LineAction::Forward);
    assert_eq!(reader.port(), Some(1000));
}

#[test]
fn out_of_range_line_leaves_reader_unchanged() {
    let mut reader = HandshakeReader::new();
    assert_eq!(reader.observe("PORT:70000"), LineAction::Forward);
    assert_eq!(reader.port(), None);
}

#[test]
fn silent_worker_times_out_only_at_deadline() {
    let reader = HandshakeReader::new();
    assert_eq!(reader.port(), None);
    assert_eq!(handshake_wait(0, reader.port(), true), WaitStep::KeepWaiting(10_000));
    assert_eq!(handshake_wait(1, None, true), WaitStep::KeepWaiting(9_999));
    assert_eq!(handshake_wait(9_999, None, true), WaitStep::KeepWaiting(1));
    assert_eq!(handshake_wait(10_000, None, true), WaitStep::TimedOut);
    assert_eq!(handshake_wait(u64::MAX, None, false), WaitStep::TimedOut);
}

#[test]
fn announcement_completes_the_wait() {
    assert_eq!(handshake_wait(3, Some(8080), false), WaitStep::Completed(8080));
    assert_eq!(handshake_wait(20_000, Some(1), true), WaitStep::Completed(1));
    assert_eq!(HANDSHAKE_TIMEOUT_MS, 10_000);
}
