use forward_proxy::blocklist::check_address_block;
use forward_proxy::config::{
    buffer_size_setting, delay_setting, throttle_settings, throttling_enabled, ConfigError,
};
use forward_proxy::dispatch::{dispatch, Dispatch};
use forward_proxy::relay::{Direction, Event, RelayJoin, RelayOutcome, Step, ThrottledCopy};
use forward_proxy::target::parse_host_port;
use forward_proxy::throttle::ThrottleConfig;

fn blocklist() -> Option<Vec<String>> {
    Some(vec!["blocked.example:443".to_string(), "10.0.0.1:80".to_string()])
}

#[test]
fn listed_address_is_blocked() {
    assert!(check_address_block("blocked.example:443", blocklist()));
    assert!(check_address_block("10.0.0.1:80", blocklist()));
}

#[test]
fn address_is_matched_exactly() {
    assert!(!check_address_block("blocked.example", blocklist()));
    assert!(!check_address_block("blocked.example:4430", blocklist()));
    assert!(!check_address_block("BLOCKED.example:443", blocklist()));
    assert!(!check_address_block("", blocklist()));
}

#[test]
fn unreadable_blocklist_blocks_nothing() {
    assert!(!check_address_block("blocked.example:443", None));
    assert!(!check_address_block("blocked.example:443", Some(Vec::new())));
}

#[test]
fn repeated_checks_agree() {
    for address in ["blocked.example:443", "open.example:443"] {
        let first = check_address_block(address, blocklist());
        let second = check_address_block(address, blocklist());
        assert_eq!(first, second);
    }
}

#[test]
fn host_port_is_split_at_last_colon() {
    let t = parse_host_port("example.com:443").unwrap();
    assert_eq!(t.host, "example.com");
    assert_eq!(t.port, 443);
    let t = parse_host_port("[::1]:8080").unwrap();
    assert_eq!(t.host, "[::1]");
    assert_eq!(t.port, 8080);
    let t = parse_host_port("h:0").unwrap();
    assert_eq!(t.host, "h");
    assert_eq!(t.port, 0);
    let t = parse_host_port("h:65535").unwrap();
    assert_eq!(t.port, 65535);
}

#[test]
fn malformed_host_port_is_refused() {
    for bad in ["example.com", ":443", "example.com:", "example.com:65536", "h:8a", "h:+80", "", ":", "h:99999999999"] {
        assert!(parse_host_port(bad).is_none(), "{bad}");
    }
}

fn throttle(buffer: usize, delay: u64) -> ThrottleConfig {
    ThrottleConfig::new(buffer, delay).unwrap()
}

#[test]
fn blocked_target_is_forbidden_for_every_method() {
    for is_connect in [true, false] {
        let d = dispatch(is_connect, Some("blocked.example:443"), blocklist(), None);
        assert!(matches!(d, Dispatch::Forbidden));
        let reply = d.reply().unwrap();
        assert_eq!(reply.status, 403);
        assert_eq!(reply.body, "");
    }
}

#[test]
fn connect_to_non_socket_address_is_bad_request() {
    for target in [Some("example.com"), Some("example.com:http"), None] {
        let d = dispatch(true, target, blocklist(), None);
        assert!(matches!(d, Dispatch::BadConnectTarget));
        let reply = d.reply().unwrap();
        assert_eq!(reply.status, 400);
        assert_eq!(reply.body, "CONNECT must be to a socket address");
    }
}

#[test]
fn connect_to_allowed_address_opens_tunnel() {
    let d = dispatch(true, Some("127.0.0.1:7"), blocklist(), Some(throttle(4, 50)));
    let reply = d.reply().unwrap();
    assert_eq!(reply.status, 200);
    assert_eq!(reply.body, "");
    match d {
        Dispatch::OpenTunnel { address, target, throttle } => {
            assert_eq!(address, "127.0.0.1:7");
            assert_eq!(target.host, "127.0.0.1");
            assert_eq!(target.port, 7);
            let c = throttle.unwrap();
            assert_eq!(c.buffer_size(), 4);
            assert_eq!(c.delay_millis(), 50);
        }
        _ => panic!("expected a tunnel"),
    }
}

#[test]
fn other_methods_are_forwarded_unchanged() {
    let d = dispatch(false, Some("open.example:80"), blocklist(), None);
    assert!(matches!(d, Dispatch::Forward));
    assert!(d.reply().is_none());
    let d = dispatch(false, None, blocklist(), None);
    assert!(matches!(d, Dispatch::Forward));
}

#[test]
fn zero_buffer_is_refused() {
    assert!(ThrottleConfig::new(0, 50).is_none());
    assert!(ThrottleConfig::new(1, 0).is_some());
}

/// Runs one throttled direction over `source`, read by reads that return
/// up to what is asked, and gives the bytes written, the number of pauses,
/// their total length and how the direction ended.
fn run_direction(config: ThrottleConfig, source: &[u8]) -> (Vec<u8>, usize, u64, bool) {
    let (mut copy, mut step) = ThrottledCopy::new(config);
    let mut offset = 0usize;
    let mut written = Vec::new();
    let mut pauses = 0usize;
    let mut paused_millis = 0u64;
    loop {
        let event = match step {
            Step::Read { max_len } => {
                let end = usize::min(source.len(), offset + max_len);
                let chunk = source[offset..end].to_vec();
                offset = end;
                Event::Received(chunk)
            }
            Step::Pause { millis } => {
                pauses += 1;
                paused_millis += millis;
                Event::Paused
            }
            Step::Write { chunk } => {
                written.extend_from_slice(&chunk);
                Event::Written
            }
            Step::Finished { clean } => return (written, pauses, paused_millis, clean),
        };
        step = copy.on_event(event);
    }
}

#[test]
fn throttled_relay_paces_ten_bytes() {
    let source: Vec<u8> = (1..=10).collect();
    let (written, pauses, paused_millis, clean) = run_direction(throttle(4, 50), &source);
    assert_eq!(written, source);
    assert_eq!(pauses, 3);
    assert!(paused_millis >= 150);
    assert!(clean);
}

#[test]
fn zero_delay_still_caps_chunks() {
    let source: Vec<u8> = (0..9).collect();
    let (mut copy, step) = ThrottledCopy::new(throttle(2, 0));
    assert!(matches!(step, Step::Read { max_len: 2 }));
    let step = copy.on_event(Event::Received(vec![0, 1, 2]));
    assert!(matches!(step, Step::Finished { clean: false }));
    let (written, pauses, _, clean) = run_direction(throttle(2, 0), &source);
    assert_eq!(written, source);
    assert_eq!(pauses, 5);
    assert!(clean);
}

#[test]
fn end_of_stream_ends_direction_cleanly() {
    let (mut copy, _) = ThrottledCopy::new(throttle(8, 10));
    assert!(matches!(copy.on_event(Event::Received(vec![7, 8, 9])), Step::Pause { millis: 10 }));
    match copy.on_event(Event::Paused) {
        Step::Write { chunk } => assert_eq!(chunk, vec![7, 8, 9]),
        _ => panic!("expected a write"),
    }
    assert!(matches!(copy.on_event(Event::Written), Step::Read { max_len: 8 }));
    assert!(matches!(copy.on_event(Event::Received(Vec::new())), Step::Finished { clean: true }));
    assert!(matches!(copy.on_event(Event::Written), Step::Finished { clean: true }));
}

#[test]
fn read_or_write_failure_ends_direction() {
    let (mut copy, _) = ThrottledCopy::new(throttle(8, 10));
    assert!(matches!(copy.on_event(Event::ReadFailed), Step::Finished { clean: false }));
    let (mut copy, _) = ThrottledCopy::new(throttle(8, 10));
    copy.on_event(Event::Received(vec![1]));
    copy.on_event(Event::Paused);
    assert!(matches!(copy.on_event(Event::WriteFailed), Step::Finished { clean: false }));
    let (mut copy, _) = ThrottledCopy::new(throttle(8, 10));
    assert!(matches!(copy.on_event(Event::Paused), Step::Finished { clean: false }));
}

#[test]
fn server_closing_first_leaves_client_direction_running() {
    let mut join = RelayJoin::new();
    assert!(join.on_direction_end(Direction::ServerToClient, true).is_none());
    let (written, _, _, clean) = run_direction(throttle(4, 0), b"still sending");
    assert_eq!(written, b"still sending".to_vec());
    assert!(clean);
    assert!(matches!(
        join.on_direction_end(Direction::ClientToServer, clean),
        Some(RelayOutcome::Completed)
    ));
}

#[test]
fn first_failure_settles_relay() {
    let mut join = RelayJoin::new();
    assert!(matches!(
        join.on_direction_end(Direction::ClientToServer, false),
        Some(RelayOutcome::Failed { direction: Direction::ClientToServer })
    ));
    assert!(join.on_direction_end(Direction::ServerToClient, true).is_none());
    let mut join = RelayJoin::new();
    assert!(join.on_direction_end(Direction::ClientToServer, true).is_none());
    assert!(matches!(
        join.on_direction_end(Direction::ServerToClient, false),
        Some(RelayOutcome::Failed { direction: Direction::ServerToClient })
    ));
}

#[test]
fn throttling_flag_ignores_case() {
    assert!(throttling_enabled(Some("true")));
    assert!(throttling_enabled(Some("TRUE")));
    assert!(throttling_enabled(Some("True")));
    assert!(!throttling_enabled(Some("yes")));
    assert!(!throttling_enabled(Some(" true")));
    assert!(!throttling_enabled(None));
}

#[test]
fn numeric_settings_and_defaults() {
    assert!(matches!(buffer_size_setting(None), Ok(4096)));
    assert!(matches!(buffer_size_setting(Some("+12")), Ok(12)));
    assert!(matches!(buffer_size_setting(Some("-1")), Err(ConfigError::InvalidBufferSize)));
    assert!(matches!(buffer_size_setting(Some("4k")), Err(ConfigError::InvalidBufferSize)));
    assert!(matches!(delay_setting(None), Ok(200)));
    assert!(matches!(delay_setting(Some("0")), Ok(0)));
    assert!(matches!(delay_setting(Some("")), Err(ConfigError::InvalidDelay)));
    assert!(matches!(delay_setting(Some("18446744073709551616")), Err(ConfigError::InvalidDelay)));
}

#[test]
fn throttle_settings_combine() {
    assert!(matches!(throttle_settings(None, None, None), Ok(None)));
    assert!(matches!(throttle_settings(Some("false"), Some("0"), None), Ok(None)));
    assert!(matches!(
        throttle_settings(Some("true"), Some("0"), None),
        Err(ConfigError::ZeroBufferSize)
    ));
    assert!(matches!(
        throttle_settings(Some("false"), Some("x"), Some("y")),
        Err(ConfigError::InvalidBufferSize)
    ));
    assert!(matches!(
        throttle_settings(Some("true"), None, Some("y")),
        Err(ConfigError::InvalidDelay)
    ));
    let c = throttle_settings(Some("TRUE"), None, None).unwrap().unwrap();
    assert_eq!(c.buffer_size(), 4096);
    assert_eq!(c.delay_millis(), 200);
}
