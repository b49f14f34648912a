use sparsha::devserver::{
    find_header_terminator, handle_text_message, handshake_outcome, hotpatch_request_url,
    hotreload_matches_target, parse_incoming, plan_incoming, should_connect_to_devserver,
    select_patch, ConnectionAction, HandshakeOutcome, HotpatchSignal,
};
use sparsha::websocket::{encode_client_frame, parse_frame, FrameError, WebSocketMessage, WebSocketParser};
use sparsha::ws_url::{handshake_request, SplitWsUrl};

fn text_frame(text: &str) -> Vec<u8> {
    let mut frame = vec![0x81, text.len() as u8];
    frame.extend_from_slice(text.as_bytes());
    frame
}

#[test]
fn devserver_connection_requires_cli_and_endpoint() {
    assert_eq!(
        should_connect_to_devserver(true, Some("ws://127.0.0.1:8080/_dioxus")),
        Some(String::from("ws://127.0.0.1:8080/_dioxus"))
    );
    assert_eq!(should_connect_to_devserver(false, Some("ws://x")), None);
    assert_eq!(should_connect_to_devserver(true, None), None);
}

#[test]
fn websocket_parser_handles_partial_text_frame() {
    let mut parser = WebSocketParser::default();
    let frame = text_frame("patch");

    assert_eq!(parser.push(&frame[..2]).unwrap(), Vec::new());
    assert_eq!(
        parser.push(&frame[2..]).unwrap(),
        vec![WebSocketMessage::Text(String::from("patch"))]
    );
}

#[test]
fn websocket_parser_handles_ping_close_and_malformed_frames() {
    let mut parser = WebSocketParser::default();
    assert_eq!(
        parser.push(&[0x89, 0x02, b'o', b'k']).unwrap(),
        vec![WebSocketMessage::Ping(vec![b'o', b'k'])]
    );
    assert_eq!(
        parser.push(&[0x88, 0x00]).unwrap(),
        vec![WebSocketMessage::Close]
    );

    let mut malformed = WebSocketParser::default();
    assert!(malformed.push(&[0x01, 0x00]).is_err());
}

#[test]
fn websocket_parser_unmasks_payloads() {
    let mut parser = WebSocketParser::default();
    let mask = [1u8, 2, 3, 4];
    let payload = b"masked";
    let mut frame = vec![0x81, 0x80 | payload.len() as u8];
    frame.extend_from_slice(&mask);
    frame.extend(
        payload
            .iter()
            .enumerate()
            .map(|(index, byte)| byte ^ mask[index % 4]),
    );

    assert_eq!(
        parser.push(&frame).unwrap(),
        vec![WebSocketMessage::Text(String::from("masked"))]
    );
}

#[test]
fn hotreload_target_filter_accepts_absent_or_matching_pid() {
    let this_pid: u32 = 4242;
    assert!(hotreload_matches_target(None, None, 0, this_pid));
    assert!(hotreload_matches_target(Some(this_pid), None, 0, this_pid));
    assert!(!hotreload_matches_target(
        Some(this_pid.wrapping_add(1)),
        None,
        0,
        this_pid
    ));
    assert!(hotreload_matches_target(None, Some(7), 0, this_pid));
    assert!(hotreload_matches_target(None, Some(7), 7, this_pid));
    assert!(!hotreload_matches_target(None, Some(7), 8, this_pid));
}

#[test]
fn pending_flag_is_consumed_once() {
    let mut signal = HotpatchSignal::default();
    assert!(!signal.take_pending());

    signal.mark_pending_for_test();
    assert!(signal.take_pending());
    assert!(!signal.take_pending());
}

#[test]
fn split_websocket_url_keeps_path_and_query() {
    assert_eq!(
        SplitWsUrl::parse("ws://127.0.0.1:8080/_dioxus?pid=1").unwrap(),
        SplitWsUrl {
            host: String::from("127.0.0.1"),
            port: String::from("8080"),
            path: String::from("/_dioxus?pid=1"),
        }
    );
}

#[test]
fn split_websocket_url_defaults_port_and_path() {
    assert_eq!(
        SplitWsUrl::parse("http://localhost").unwrap(),
        SplitWsUrl {
            host: String::from("localhost"),
            port: String::from("80"),
            path: String::from("/"),
        }
    );
}

#[test]
fn split_websocket_url_rejects_other_schemes() {
    assert!(SplitWsUrl::parse("wss://example.com/x").is_err());
    assert!(SplitWsUrl::parse("").is_err());
}

#[test]
fn handshake_request_names_host_and_port() {
    let url = SplitWsUrl::parse("ws://127.0.0.1:8080/_dioxus").unwrap();
    assert_eq!(
        handshake_request(&url),
        "GET /_dioxus HTTP/1.1\r\nHost: 127.0.0.1:8080\r\nConnection: Upgrade\r\nUpgrade: websocket\r\nSec-WebSocket-Version: 13\r\nSec-WebSocket-Key: c3BhcnNoYS1ob3RwYXRjaA==\r\n\r\n"
    );
    let default_port = SplitWsUrl::parse("ws://devhost/ws").unwrap();
    assert!(handshake_request(&default_port).contains("\r\nHost: devhost\r\n"));
}

#[test]
fn request_url_appends_identity_with_the_right_separator() {
    assert_eq!(
        hotpatch_request_url("ws://h:1/_dioxus", 4096, 7, 42),
        "ws://h:1/_dioxus?aslr_reference=4096&build_id=7&pid=42"
    );
    assert_eq!(
        hotpatch_request_url("ws://h:1/_dioxus?x=1", 0, 0, 1),
        "ws://h:1/_dioxus?x=1&aslr_reference=0&build_id=0&pid=1"
    );
}

#[test]
fn header_terminator_is_found_at_its_first_occurrence() {
    assert_eq!(find_header_terminator(b"HTTP/1.1 101\r\n\r\nxx\r\n\r\n"), Some(12));
    assert_eq!(find_header_terminator(b"\r\n\r"), None);
    assert_eq!(find_header_terminator(b""), None);
}

#[test]
fn handshake_outcome_keeps_bytes_after_headers() {
    match handshake_outcome(b"HTTP/1.1 101 Switching Protocols\r\nUpgrade: websocket\r\n\r\n\x81\x00") {
        HandshakeOutcome::Upgraded(rest) => assert_eq!(rest, vec![0x81, 0x00]),
        _ => panic!("expected an upgrade"),
    }
    match handshake_outcome(b"HTTP/1.1 404 Not Found\r\n\r\n") {
        HandshakeOutcome::Rejected(message) => {
            assert_eq!(message, "websocket upgrade rejected: HTTP/1.1 404 Not Found")
        }
        _ => panic!("expected a rejection"),
    }
    assert!(matches!(handshake_outcome(b"HTTP/1.1 101"), HandshakeOutcome::Pending));
}

#[test]
fn parse_frame_reports_each_error() {
    assert_eq!(parse_frame(&[0x01, 0x00]).unwrap_err(), FrameError::Fragmented);
    assert_eq!(parse_frame(&[0x83, 0x00]).unwrap_err(), FrameError::UnsupportedOpcode(3));
    assert_eq!(parse_frame(&[0x81, 0x01, 0xff]).unwrap_err(), FrameError::InvalidUtf8);
    assert_eq!(
        FrameError::UnsupportedOpcode(3).message(),
        "unsupported websocket opcode: 3"
    );
    assert_eq!(
        FrameError::Fragmented.message(),
        "fragmented websocket frames are not supported"
    );
}

#[test]
fn parse_frame_reads_extended_lengths() {
    let mut frame = vec![0x82, 126, 0x01, 0x00];
    frame.extend(std::iter::repeat(7u8).take(256));
    frame.push(0x8A);
    let (len, message) = parse_frame(&frame).unwrap().unwrap();
    assert_eq!(len, 260);
    assert_eq!(message, WebSocketMessage::Binary(vec![7u8; 256]));
    assert_eq!(parse_frame(&frame[..100]).unwrap(), None);
    assert_eq!(parse_frame(&[0x8A, 0x00]).unwrap(), Some((2, WebSocketMessage::Pong)));
}

#[test]
fn client_frame_parses_back_to_its_message() {
    let frame = encode_client_frame(0x9, b"hello");
    assert_eq!(frame[0], 0x89);
    assert_eq!(frame[1], 0x80 | 5);
    assert_eq!(frame.len(), 2 + 4 + 5);
    assert_ne!(&frame[6..], b"hello");
    let (len, message) = parse_frame(&frame).unwrap().unwrap();
    assert_eq!(len, frame.len());
    assert_eq!(message, WebSocketMessage::Ping(b"hello".to_vec()));

    let long = vec![1u8; 70000];
    let frame = encode_client_frame(0x2, &long);
    assert_eq!(frame[1], 0x80 | 127);
    let (len, message) = parse_frame(&frame).unwrap().unwrap();
    assert_eq!(len, frame.len());
    assert_eq!(message, WebSocketMessage::Binary(long));
}

#[test]
fn split_delivery_gives_the_same_messages() {
    let mut stream = text_frame("one");
    stream.extend(text_frame("two"));
    stream.extend([0x89, 0x00]);
    let mut whole = WebSocketParser::new();
    let expected = whole.push(&stream).unwrap();
    for cut in 0..=stream.len() {
        let mut split = WebSocketParser::new();
        let mut got = split.push(&stream[..cut]).unwrap();
        got.extend(split.push(&stream[cut..]).unwrap());
        assert_eq!(got, expected);
    }
}

#[test]
fn incoming_pings_are_answered_and_close_disconnects() {
    let plan = plan_incoming(
        &vec![
            WebSocketMessage::Ping(b"hi".to_vec()),
            WebSocketMessage::Text(String::from("not json")),
            WebSocketMessage::Close,
            WebSocketMessage::Pong,
        ],
        0,
        1,
    );
    assert!(plan.disconnected);
    assert_eq!(plan.actions.len(), 1);
    match &plan.actions[0] {
        ConnectionAction::Send(bytes) => {
            let (_, message) = parse_frame(bytes).unwrap().unwrap();
            assert_eq!(message, WebSocketMessage::Pong);
            assert_eq!(bytes[0], 0x8A);
        }
        _ => panic!("expected a pong"),
    }

    let mut parser = WebSocketParser::new();
    let plan = parse_incoming(&mut parser, &[0x88, 0x00], 0, 1).unwrap();
    assert!(plan.disconnected);
    assert!(plan.actions.is_empty());
    assert!(parse_incoming(&mut WebSocketParser::new(), &[0x01, 0x00], 0, 1).is_err());
}

#[test]
fn text_messages_without_a_patch_are_ignored() {
    assert!(handle_text_message("not json", 0, 1).is_none());
    assert!(handle_text_message("{\"Shutdown\":null}", 0, 1).is_none());
}

#[test]
fn prefixes_of_a_complete_frame_are_incomplete() {
    let mut frame = vec![0x82, 126, 0x01, 0x00];
    frame.extend(std::iter::repeat(3u8).take(256));
    let (n, message) = parse_frame(&frame).unwrap().unwrap();
    for k in 0..n {
        assert_eq!(parse_frame(&frame[..k]).unwrap(), None, "prefix {k}");
    }
    let mut longer = frame[..n].to_vec();
    longer.extend([0x89, 0x00, 0xff]);
    assert_eq!(parse_frame(&longer).unwrap(), Some((n, message)));
}

#[test]
fn select_patch_keeps_only_targeted_tables() {
    assert!(select_patch(None, 0, 1).is_none());
    assert!(select_patch(Some((Some(2), None, None)), 0, 1).is_none());
    assert!(select_patch(Some((Some(1), Some(3), None)), 3, 1).is_none());
}
