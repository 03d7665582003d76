use treblle_wasm::error::TreblleError;
use treblle_wasm::http_client::{
    create_request, parse_endpoint, send_step, HttpClient, SendStep, WriteOutcome,
};
use treblle_wasm::logger::{init, log, log_error, LogLevel};
use treblle_wasm::pool::ConnectionPool;

fn s(x: &str) -> String {
    x.to_string()
}

#[test]
fn http_client_test_get_next_url() {
    let mut client = HttpClient::new(vec!["url1".to_string(), "url2".to_string()]);

    assert_eq!(client.get_next_url(), "url1");
    assert_eq!(client.get_next_url(), "url2");
    assert_eq!(client.get_next_url(), "url1");
}

#[test]
fn wasi_http_client_test_get_next_url() {
    let mut client = HttpClient::new(vec![
        "https://api1.treblle.com".to_string(),
        "https://api2.treblle.com".to_string(),
    ]);

    assert_eq!(client.get_next_url(), "https://api1.treblle.com");
    assert_eq!(client.get_next_url(), "https://api2.treblle.com");
    assert_eq!(client.get_next_url(), "https://api1.treblle.com");
}

#[test]
fn test_http_client_creation() {
    let urls = vec!["https://api1.treblle.com".to_string(), "https://api2.treblle.com".to_string()];
    let client = HttpClient::new(urls.clone());

    assert_eq!(client.urls, urls);
    assert_eq!(client.current_index, 0);
}

#[test]
fn test_post_success() {
    let mut client = HttpClient::new(vec!["http://api.treblle.com".to_string()]);
    let result = client.post(b"test payload", "test_api_key");
    assert!(result.is_ok());
}

#[test]
fn test_create_request() {
    let payload = b"test payload";
    let request = create_request("api.treblle.com", "/v1/log", payload.len(), "test_api_key");

    assert!(request.starts_with("POST /v1/log HTTP/1.1\r\n"));
    assert!(request.contains("Host: api.treblle.com\r\n"));
    assert!(request.contains("Content-Type: application/json\r\n"));
    assert!(request.contains("X-Api-Key: test_api_key\r\n"));
    assert!(request.contains(&format!("Content-Length: {}\r\n", payload.len())));
    assert!(request.contains("Connection: keep-alive\r\n"));
}

#[test]
fn request_head_is_exact() {
    let request = create_request("h", "/", 0, "k");
    assert_eq!(
        request,
        "POST / HTTP/1.1\r\nHost: h\r\nContent-Type: application/json\r\nX-Api-Key: k\r\nContent-Length: 0\r\nConnection: keep-alive\r\n\r\n"
    );
}

#[test]
fn post_frames_head_and_body_for_the_endpoint() {
    let mut client = HttpClient::new(vec![s("https://collector.example.com/v1/log")]);
    let req = client.post(b"{}", "key").ok().unwrap();
    assert_eq!(req.host, "collector.example.com");
    assert_eq!(req.port, 443);
    let text = String::from_utf8(req.bytes).unwrap();
    assert!(text.starts_with("POST /v1/log HTTP/1.1\r\nHost: collector.example.com\r\n"));
    assert!(text.ends_with("Content-Length: 2\r\nConnection: keep-alive\r\n\r\n{}"));
}

#[test]
fn post_uses_the_explicit_port() {
    let mut client = HttpClient::new(vec![s("http://localhost:3002/api")]);
    let req = client.post(b"x", "k").ok().unwrap();
    assert_eq!(req.host, "localhost");
    assert_eq!(req.port, 3002);
}

#[test]
fn post_without_endpoints_fails() {
    let mut client = HttpClient::new(vec![]);
    assert!(client.post(b"x", "k").is_err());
    assert_eq!(client.current_index, 0);
}

#[test]
fn post_to_a_bad_url_fails_and_still_rotates() {
    let mut client = HttpClient::new(vec![s("not a url"), s("https://ok.example.com")]);
    assert!(matches!(client.post(b"x", "k"), Err(TreblleError::InvalidUrl(_))));
    assert_eq!(client.post(b"x", "k").ok().unwrap().host, "ok.example.com");
}

#[test]
fn endpoint_without_host_is_rejected() {
    assert!(matches!(parse_endpoint("unix:/run/foo.socket"), Err(TreblleError::InvalidUrl(_))));
    let e = parse_endpoint("https://a.b/c").ok().unwrap();
    assert_eq!((e.host.as_str(), e.port, e.path.as_str()), ("a.b", 443, "/c"));
}

#[test]
fn counter_wraps_at_the_top() {
    let mut client = HttpClient { urls: vec![s("a"), s("b"), s("c")], current_index: usize::MAX };
    let first = client.get_next_url();
    assert_eq!(first, ["a", "b", "c"][usize::MAX % 3]);
    assert_eq!(client.current_index, 0);
    assert_eq!(client.get_next_url(), "a");
}

#[test]
fn round_robin_is_fair_over_whole_rounds() {
    let mut client = HttpClient::new(vec![s("A"), s("B"), s("C")]);
    let mut counts = [0usize; 3];
    for _ in 0..(4 * 3) {
        let u = client.get_next_url();
        counts[(u.as_bytes()[0] - b'A') as usize] += 1;
    }
    assert_eq!(counts, [4, 4, 4]);
}

#[test]
fn write_loop_decisions() {
    assert!(matches!(send_step(0, 10, WriteOutcome::Wrote(4), 0), SendStep::Continue(4)));
    assert!(matches!(send_step(4, 10, WriteOutcome::Wrote(6), 0), SendStep::Done));
    assert!(matches!(send_step(4, 10, WriteOutcome::Wrote(0), 0), SendStep::Fail(TreblleError::Io(_))));
    assert!(matches!(send_step(4, 10, WriteOutcome::WouldBlock, 5000), SendStep::Wait));
    assert!(matches!(send_step(4, 10, WriteOutcome::WouldBlock, 5001), SendStep::Fail(TreblleError::Timeout)));
    assert!(matches!(
        send_step(4, 10, WriteOutcome::Failed(s("reset")), 1),
        SendStep::Fail(TreblleError::Io(d)) if d == "reset"
    ));
}

#[test]
fn pool_reuses_fresh_connections_by_key() {
    let mut pool: ConnectionPool<u32> = ConnectionPool::new();
    assert!(pool.release(s("a"), 443, 1, 1000));
    assert!(pool.release(s("b"), 443, 2, 1000));
    assert_eq!(pool.acquire("b", 443, 2000), Some(2));
    assert_eq!(pool.acquire("b", 443, 2000), None);
    assert_eq!(pool.acquire("a", 80, 2000), None);
    assert_eq!(pool.acquire("a", 443, 2000), Some(1));
    assert_eq!(pool.len(), 0);
}

#[test]
fn pool_drops_idle_connections() {
    let mut pool: ConnectionPool<u32> = ConnectionPool::new();
    pool.release(s("a"), 443, 1, 0);
    pool.release(s("b"), 443, 2, 30_000);
    assert_eq!(pool.acquire("x", 1, 60_000), None);
    assert_eq!(pool.len(), 1);
    assert_eq!(pool.acquire("b", 443, 60_000), Some(2));
}

#[test]
fn pool_is_bounded() {
    let mut pool: ConnectionPool<usize> = ConnectionPool::new();
    for i in 0..50 {
        assert!(pool.release(s("h"), 1, i, 0));
    }
    assert!(!pool.release(s("h"), 1, 50, 0));
    assert_eq!(pool.len(), 50);
}

#[test]
fn error_test_error_display() {
    let error = TreblleError::Http("Not Found".to_string());

    assert_eq!(error.message(), "HTTP error: Not Found");
}

#[test]
fn error_messages_carry_their_detail() {
    assert_eq!(TreblleError::Timeout.message(), "Operation timed out");
    assert_eq!(TreblleError::Config(s("x")).message(), "Config error: x");
    assert_eq!(TreblleError::HostFunction(s("y")).message(), "Host function error: y");
}

#[test]
fn log_levels_gate_lines() {
    let logger = init(LogLevel::Warn);
    assert!(log(&logger, LogLevel::Info, "i").is_none());
    let line = log(&logger, LogLevel::Error, "e\0!").unwrap();
    assert_eq!((line.level, line.message.as_str()), (2, "e!"));
    assert!(log(&logger, LogLevel::Off, "n").is_none());
    let everything = init(LogLevel::Debug);
    assert_eq!(log(&everything, LogLevel::Debug, "d").unwrap().level, -1);
    let nothing = init(LogLevel::Off);
    assert!(log(&nothing, LogLevel::Error, "e").is_none());
    assert_eq!(log_error("x").level, 2);
}

#[test]
fn log_level_numbers_and_names() {
    assert_eq!(LogLevel::Debug.as_i32(), -1);
    assert_eq!(LogLevel::Info.as_i32(), 0);
    assert_eq!(LogLevel::Warn.as_i32(), 1);
    assert_eq!(LogLevel::Error.as_i32(), 2);
    assert_eq!(LogLevel::Off.as_i32(), 3);
    assert_eq!(LogLevel::from_str("Info"), LogLevel::Info);
    assert_eq!(LogLevel::from_lowercase("warning"), LogLevel::Warn);
    assert_eq!(LogLevel::from_lowercase("Warning"), LogLevel::Off);
}
