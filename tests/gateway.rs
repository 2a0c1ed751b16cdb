use image_gateway::config::{parse_unsigned_text, Config};
use image_gateway::error::GatewayError;
use image_gateway::local::{local_path, resolve_local};
use image_gateway::proxy::{content_type_from_header, upstream_url, OriginEvent, ProxyState};
use image_gateway::response::{response_status, ImageResponse};

fn settings(origin: Option<&str>, port: Option<&str>, workers: Option<&str>) -> Config {
    Config::from_settings(
        origin.map(String::from),
        port.map(String::from),
        workers.map(String::from),
    )
}

fn origin_cfg() -> Config {
    settings(Some("http://origin.test/images/"), None, None)
}

fn drive(mut state: ProxyState, events: Vec<OriginEvent>) -> ProxyState {
    for e in events {
        state = state.step(e);
    }
    state
}

fn ok_exchange(status: u16, content_type: Option<&[u8]>, chunks: &[&[u8]]) -> Vec<OriginEvent> {
    let mut events = vec![OriginEvent::Headers {
        status,
        content_type: content_type.map(|c| c.to_vec()),
    }];
    for c in chunks {
        events.push(OriginEvent::Chunk(c.to_vec()));
    }
    events.push(OriginEvent::Finished);
    events
}

fn relay(token: &str, events: Vec<OriginEvent>) -> Result<ImageResponse, GatewayError> {
    let state = drive(ProxyState::start(&origin_cfg(), token), events);
    assert!(state.is_finished());
    state.into_outcome().expect("an ended request has an outcome")
}

#[test]
fn config_defaults_when_absent() {
    let cfg = settings(None, None, None);
    assert_eq!(cfg.origin_base_url, "http://localhost:8080/");
    assert_eq!(cfg.local_image_root, "../../../images");
    assert_eq!(cfg.bind_port_base, 3001);
    assert_eq!(cfg.worker_count, 0);
    assert_eq!(cfg.worker_override(), None);
}

#[test]
fn config_reads_given_values() {
    let cfg = settings(Some("http://cdn.test/"), Some("4000"), Some("8"));
    assert_eq!(cfg.origin_base_url, "http://cdn.test/");
    assert_eq!(cfg.bind_port_base, 4000);
    assert_eq!(cfg.worker_count, 8);
    assert_eq!(cfg.worker_override(), Some(8));
}

#[test]
fn config_falls_back_on_unparsable_numbers() {
    for bad in ["", "abc", "-1", "+", "30 01", "70000", "12x"] {
        let cfg = settings(None, Some(bad), Some(bad));
        assert_eq!(cfg.bind_port_base, 3001, "port from {:?}", bad);
        if bad != "70000" {
            assert_eq!(cfg.worker_count, 0, "workers from {:?}", bad);
        }
    }
    assert_eq!(settings(None, None, Some("70000")).worker_count, 70000);
}

#[test]
fn parse_matches_std_on_samples() {
    for s in ["0", "7", "+42", "65535", "65536", "007", "", "+", "-3", " 1", "1 ", "٣"] {
        let expected = s.parse::<u16>().ok().map(|v| v as usize);
        assert_eq!(parse_unsigned_text(s, u16::MAX as usize), expected, "text {:?}", s);
    }
    assert_eq!(parse_unsigned_text("18446744073709551615", usize::MAX), "18446744073709551615".parse::<usize>().ok());
    assert_eq!(parse_unsigned_text("18446744073709551616", usize::MAX), None);
}

#[test]
fn local_path_joins_root_and_token() {
    let cfg = settings(None, None, None);
    assert_eq!(local_path(&cfg, "thumbnail"), "../../../images/thumbnail.jpg");
    assert_eq!(local_path(&cfg, "large"), "../../../images/large.jpg");
}

#[test]
fn local_file_served_whole_as_jpeg() {
    let bytes = vec![0xff, 0xd8, 0xff, 0xe0, 0, 1, 2, 3, 0xff, 0xd9];
    let r = resolve_local(Some(bytes.clone()));
    assert_eq!(response_status(&r), 200);
    let img = r.expect("file contents give an image");
    assert_eq!(img.content_type, "image/jpeg");
    assert_eq!(img.body, bytes);
}

#[test]
fn local_empty_file_served_empty() {
    let img = resolve_local(Some(Vec::new())).expect("an empty file is still an image");
    assert_eq!(img.content_type, "image/jpeg");
    assert!(img.body.is_empty());
}

#[test]
fn local_missing_file_is_not_found() {
    let r = resolve_local(None);
    assert_eq!(response_status(&r), 404);
    assert_eq!(r.err(), Some(GatewayError::NotFound));
    assert_eq!(GatewayError::NotFound.http_status(), 404);
}

#[test]
fn local_thumbnail_length_matches_file() {
    let cfg = settings(None, None, None);
    assert!(local_path(&cfg, "thumbnail").ends_with("/thumbnail.jpg"));
    let file: Vec<u8> = (0..4096u32).map(|i| (i % 251) as u8).collect();
    let r = resolve_local(Some(file.clone()));
    assert_eq!(response_status(&r), 200);
    assert_eq!(r.unwrap().body.len(), file.len());
}

#[test]
fn upstream_url_is_plain_concatenation() {
    assert_eq!(upstream_url(&origin_cfg(), "large"), "http://origin.test/images/large.jpg");
    let start = ProxyState::start(&origin_cfg(), "small");
    match start {
        ProxyState::Connecting { url } => assert_eq!(url, "http://origin.test/images/small.jpg"),
        _ => panic!("a request starts by connecting"),
    }
}

#[test]
fn proxy_relays_body_and_content_type() {
    let r = relay("large", ok_exchange(200, Some(b"image/png"), &[b"\x89PNG", b"\r\n", b"rest"]));
    assert_eq!(response_status(&r), 200);
    let img = r.unwrap();
    assert_eq!(img.content_type, "image/png");
    assert_eq!(img.body, b"\x89PNG\r\nrest".to_vec());
}

#[test]
fn proxy_accepts_whole_success_range() {
    for status in [200u16, 204, 299] {
        assert!(relay("x", ok_exchange(status, None, &[b"a"])).is_ok(), "status {}", status);
    }
    for status in [199u16, 300, 304] {
        assert_eq!(
            relay("x", ok_exchange(status, None, &[b"a"])).err(),
            Some(GatewayError::UpstreamError(status))
        );
    }
}

#[test]
fn proxy_defaults_content_type() {
    let img = relay("large", ok_exchange(200, None, &[b"jpeg"])).unwrap();
    assert_eq!(img.content_type, "image/jpeg");
    let img = relay("large", ok_exchange(200, Some(b"image/\x80png"), &[b"jpeg"])).unwrap();
    assert_eq!(img.content_type, "image/jpeg");
    let img = relay("large", ok_exchange(200, Some(b"image/\x01png"), &[b"jpeg"])).unwrap();
    assert_eq!(img.content_type, "image/jpeg");
}

#[test]
fn content_type_header_text_kept() {
    assert_eq!(content_type_from_header(Some(b"image/webp; q=1".to_vec())), "image/webp; q=1");
    assert_eq!(content_type_from_header(Some(b"a\tb".to_vec())), "a\tb");
    assert_eq!(content_type_from_header(Some(Vec::new())), "");
    assert_eq!(content_type_from_header(Some(b"x\x7f".to_vec())), "image/jpeg");
    assert_eq!(content_type_from_header(None), "image/jpeg");
}

#[test]
fn proxy_origin_error_is_bad_gateway() {
    let r = relay("large", ok_exchange(500, Some(b"text/plain"), &[b"oops"]));
    assert_eq!(response_status(&r), 502);
    assert_eq!(r.err(), Some(GatewayError::UpstreamError(500)));
}

#[test]
fn proxy_transport_failure_is_unavailable() {
    let r = relay("large", vec![OriginEvent::TransportFailed]);
    assert_eq!(response_status(&r), 502);
    assert_eq!(r.err(), Some(GatewayError::UpstreamUnavailable));
}

#[test]
fn proxy_body_failure_delivers_nothing() {
    let events = vec![
        OriginEvent::Headers { status: 200, content_type: Some(b"image/jpeg".to_vec()) },
        OriginEvent::Chunk(b"partial".to_vec()),
        OriginEvent::ChunkFailed,
        OriginEvent::Chunk(b"more".to_vec()),
        OriginEvent::Finished,
    ];
    let r = relay("large", events);
    assert_eq!(response_status(&r), 502);
    assert!(matches!(r, Err(GatewayError::BadUpstreamBody)));
}

#[test]
fn proxy_repeated_requests_identical() {
    let first = relay("large", ok_exchange(200, Some(b"image/jpeg"), &[b"abc", b"def"])).unwrap();
    let second = relay("large", ok_exchange(200, Some(b"image/jpeg"), &[b"abcdef"])).unwrap();
    let third = relay("large", ok_exchange(200, Some(b"image/jpeg"), &[b"a", b"", b"bcdef"])).unwrap();
    assert_eq!(first.body, second.body);
    assert_eq!(second.body, third.body);
    assert_eq!(first.content_type, third.content_type);
}

#[test]
fn proxy_empty_body_relayed() {
    let img = relay("large", ok_exchange(200, Some(b"image/gif"), &[])).unwrap();
    assert_eq!(img.content_type, "image/gif");
    assert!(img.body.is_empty());
}

#[test]
fn proxy_state_ignores_events_out_of_turn() {
    let s = ProxyState::start(&origin_cfg(), "large");
    let s = s.step(OriginEvent::Chunk(b"early".to_vec()));
    assert!(matches!(s, ProxyState::Connecting { .. }));
    assert!(!s.is_finished());
    let s = s.step(OriginEvent::Headers { status: 200, content_type: None });
    let s = s.step(OriginEvent::Headers { status: 500, content_type: None });
    assert!(matches!(s, ProxyState::Streaming { .. }));
    assert!(s.into_outcome().is_none());
}

#[test]
fn proxy_end_states_do_not_change() {
    let done = drive(ProxyState::start(&origin_cfg(), "x"), ok_exchange(200, None, &[b"img"]));
    let done = drive(done, vec![OriginEvent::ChunkFailed, OriginEvent::TransportFailed]);
    assert_eq!(done.into_outcome().unwrap().unwrap().body, b"img".to_vec());
    let failed = drive(ProxyState::start(&origin_cfg(), "x"), vec![OriginEvent::TransportFailed]);
    let failed = drive(failed, ok_exchange(200, None, &[b"img"]));
    assert_eq!(failed.into_outcome().unwrap().err(), Some(GatewayError::UpstreamUnavailable));
}
