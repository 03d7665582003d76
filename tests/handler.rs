use treblle_wasm::config::{Config, DEFAULT_SENSITIVE_KEYS_REGEX};
use treblle_wasm::error::TreblleError;
use treblle_wasm::http_client::HttpClient;
use treblle_wasm::http_handler::{
    HandlerAction, HttpHandler, RequestDetails, RequestEvent, RequestStage, ResponseDetails,
    ResponseEvent, ResponseStage, CONTINUE_REQUEST,
};
use treblle_wasm::json::Json;
use treblle_wasm::logger::{init, log, LogLevel};
use treblle_wasm::pattern::KeyPattern;
use treblle_wasm::payload::Payload;

fn s(x: &str) -> String {
    x.to_string()
}

fn obj(entries: Vec<(&str, Json)>) -> Json {
    Json::Object(entries.into_iter().map(|(k, v)| (k.to_string(), v)).collect())
}

fn field<'a>(j: &'a Json, key: &str) -> &'a Json {
    match j {
        Json::Object(es) => &es.iter().find(|(k, _)| k == key).expect("key present").1,
        _ => panic!("not an object"),
    }
}

fn has_field(j: &Json, key: &str) -> bool {
    match j {
        Json::Object(es) => es.iter().any(|(k, _)| k == key),
        _ => false,
    }
}

fn is_str(j: &Json, v: &str) -> bool {
    matches!(j, Json::Str(x) if x == v)
}

fn config(blacklist: Vec<&str>, regex: &str, buffer_response: bool) -> Config {
    Config {
        treblle_api_urls: vec![s("https://a.example.com"), s("https://b.example.com"), s("https://c.example.com")],
        api_key: s("test_api_key"),
        project_id: s("test_project_id"),
        route_blacklist: blacklist.into_iter().map(s).collect(),
        sensitive_keys_regex: s(regex),
        buffer_response,
        log_level: LogLevel::Error,
        root_ca_path: None,
    }
}

fn handler(c: Config) -> HttpHandler {
    HttpHandler::new(c, s("linux"), s("x86_64"), s("0.1.0")).ok().unwrap()
}

fn run_request(h: &HttpHandler, uri: &str, content_type: &str, details: RequestDetails) -> HandlerAction {
    let (stage, action) = h.process_request(RequestStage::AwaitUri, RequestEvent::Uri(s(uri)));
    if !matches!(action, HandlerAction::ReadContentType) {
        return action;
    }
    let (stage, action) = h.process_request(stage, RequestEvent::ContentType(s(content_type)));
    if !matches!(action, HandlerAction::ReadDetails) {
        return action;
    }
    let (stage, action) = h.process_request(stage, RequestEvent::Details(details));
    assert!(matches!(stage, RequestStage::Finished));
    action
}

fn json_details(headers: Vec<(String, String)>, body: Option<Json>) -> RequestDetails {
    RequestDetails { method: s("POST"), headers, body, protocol: s("HTTP/1.1") }
}

#[test]
fn http_handler_test_create_error_info() {
    let h = handler(config(vec![], DEFAULT_SENSITIVE_KEYS_REGEX, false));
    let error_info = h.create_error_info(404);

    assert_eq!(error_info.source, "response");
    assert_eq!(error_info.error_type, "HTTP Error");
    assert_eq!(error_info.message, "HTTP status code: 404");
    assert!(error_info.file.is_empty());
    assert_eq!(error_info.line, 0);
}

#[test]
fn test_create_error_info() {
    let h = handler(config(vec![], DEFAULT_SENSITIVE_KEYS_REGEX, true));
    let error_info = h.create_error_info(404);

    assert_eq!(error_info.source, "response");
    assert_eq!(error_info.error_type, "HTTP Error");
    assert_eq!(error_info.message, "HTTP status code: 404");
    assert!(error_info.file.is_empty());
    assert_eq!(error_info.line, 0);
}

#[test]
fn test_payload_new() {
    let c = config(vec![], DEFAULT_SENSITIVE_KEYS_REGEX, false);
    let payload = Payload::new(&c);

    assert_eq!(payload.data.api_key, c.api_key);
    assert_eq!(payload.data.project_id, c.project_id);
    assert!(matches!(field(&payload.to_json(), "version"), Json::Number(v) if v == "0.6"));
    assert_eq!(payload.data.sdk, "rust-wasm");
}

#[test]
fn test_update_request_info() {
    let c = config(vec![], DEFAULT_SENSITIVE_KEYS_REGEX, false);
    let pattern = KeyPattern::new(&c.sensitive_keys_regex).ok().unwrap();
    let mut payload = Payload::new(&c);

    let method = "GET".to_string();
    let url = "https://api.example.com/test".to_string();
    let headers = vec![];
    // "test body" is not JSON
    let body = None;

    payload.update_request_info(method.clone(), url.clone(), headers, body, &pattern);

    assert_eq!(payload.data.data.request.method, method);
    assert_eq!(payload.data.data.request.url, url);
    assert!(matches!(payload.data.data.request.body, Json::Null));
    assert_eq!(payload.data.data.request.ip, "Unknown");
}

#[test]
fn json_request_not_blacklisted() {
    let h = handler(config(vec![], "(?i)password", false));
    let headers = vec![
        (s("Content-Type"), s("application/json")),
        (s("X-Forwarded-For"), s("10.0.0.1, 10.0.0.2")),
    ];
    let body = obj(vec![("email", Json::Str(s("a@b"))), ("password", Json::Str(s("p")))]);
    let action = run_request(&h, "/users", "application/json", json_details(headers, Some(body)));
    let payload = match action {
        HandlerAction::Send(p) => p,
        _ => panic!("expected a send"),
    };
    let j = payload.to_json();
    let request = field(field(&j, "data"), "request");
    assert!(is_str(field(request, "url"), "/users"));
    assert!(is_str(field(request, "ip"), "10.0.0.1"));
    let sent_body = field(request, "body");
    assert!(is_str(field(sent_body, "email"), "a@b"));
    assert!(is_str(field(sent_body, "password"), "*****"));
    let sent_headers = field(request, "headers");
    assert!(is_str(field(sent_headers, "Content-Type"), "application/json"));
    assert!(is_str(field(sent_headers, "X-Forwarded-For"), "10.0.0.1, 10.0.0.2"));
    assert!(!has_field(sent_headers, "password"));
}

#[test]
fn blacklisted_uri_is_not_sent() {
    let h = handler(config(vec!["^/internal/.*$"], DEFAULT_SENSITIVE_KEYS_REGEX, false));
    let (stage, action) = h.process_request(RequestStage::AwaitUri, RequestEvent::Uri(s("/internal/metrics")));
    assert!(matches!(stage, RequestStage::Finished));
    assert!(matches!(action, HandlerAction::Finish(Ok(()))));
    // whatever the host says next, nothing is sent
    let (_, after) = h.process_request(stage, RequestEvent::Details(json_details(vec![], None)));
    assert!(!matches!(after, HandlerAction::Send(_)));
    assert_eq!(CONTINUE_REQUEST, 1);
}

#[test]
fn non_json_content_type_is_not_sent() {
    let h = handler(config(vec![], DEFAULT_SENSITIVE_KEYS_REGEX, false));
    let action = run_request(&h, "/users", "text/plain", json_details(vec![], None));
    assert!(matches!(action, HandlerAction::Finish(Ok(()))));
    assert_eq!(CONTINUE_REQUEST, 1);
}

#[test]
fn content_type_gate_ignores_case() {
    let h = handler(config(vec![], DEFAULT_SENSITIVE_KEYS_REGEX, false));
    let action = run_request(&h, "/u", "Application/JSON; charset=utf-8", json_details(vec![], None));
    assert!(matches!(action, HandlerAction::Send(_)));
}

#[test]
fn host_failure_ends_the_request() {
    let h = handler(config(vec![], DEFAULT_SENSITIVE_KEYS_REGEX, false));
    let (stage, action) = h.process_request(
        RequestStage::AwaitUri,
        RequestEvent::HostFailure(TreblleError::HostFunction(s("Failed to read from buffer"))),
    );
    assert!(matches!(stage, RequestStage::Finished));
    assert!(matches!(action, HandlerAction::Finish(Err(TreblleError::HostFunction(_)))));
    let (_, out_of_turn) = h.process_request(RequestStage::AwaitUri, RequestEvent::ContentType(s("x")));
    assert!(matches!(out_of_turn, HandlerAction::Finish(Err(TreblleError::HostFunction(_)))));
}

#[test]
fn handler_rejects_bad_patterns() {
    assert!(HttpHandler::new(config(vec!["("], "a", false), s("l"), s("a"), s("v")).is_err());
    assert!(HttpHandler::new(config(vec![], "(", false), s("l"), s("a"), s("v")).is_err());
}

fn response_details(status: u32) -> ResponseDetails {
    ResponseDetails {
        headers: vec![(s("Content-Type"), s("application/json"))],
        body: Some(obj(vec![("ok", Json::Bool(false))])),
        body_len: 12,
        status,
        protocol: s("HTTP/1.1"),
        elapsed_micros: 1_500_042,
    }
}

fn run_response(h: &HttpHandler, is_error: i32, status: u32) -> HandlerAction {
    let (stage, action) = h.process_response(0, is_error, ResponseStage::Start, ResponseEvent::Begin);
    if !matches!(action, HandlerAction::ReadDetails) {
        return action;
    }
    let (_, action) = h.process_response(0, is_error, stage, ResponseEvent::Details(response_details(status)));
    action
}

#[test]
fn response_phase_error() {
    let h = handler(config(vec![], DEFAULT_SENSITIVE_KEYS_REGEX, true));
    let payload = match run_response(&h, 0, 500) {
        HandlerAction::Send(p) => p,
        _ => panic!("expected a send"),
    };
    let j = payload.to_json();
    let data = field(&j, "data");
    match field(data, "errors") {
        Json::Array(errors) => {
            assert_eq!(errors.len(), 1);
            let e = &errors[0];
            assert!(is_str(field(e, "source"), "response"));
            assert!(is_str(field(e, "error_type"), "HTTP Error"));
            assert!(is_str(field(e, "message"), "HTTP status code: 500"));
            assert!(is_str(field(e, "file"), ""));
            assert!(matches!(field(e, "line"), Json::Number(n) if n == "0"));
        },
        _ => panic!("errors must be an array"),
    }
    let response = field(data, "response");
    assert!(is_str(field(response, "code"), "500"));
    assert!(is_str(field(response, "size"), "12"));
    assert!(matches!(field(response, "load_time"), Json::Number(n) if n == "1.500042"));
}

#[test]
fn successful_response_has_no_error_entry() {
    let h = handler(config(vec![], DEFAULT_SENSITIVE_KEYS_REGEX, true));
    match run_response(&h, 0, 399) {
        HandlerAction::Send(p) => assert!(p.data.data.errors.is_empty()),
        _ => panic!("expected a send"),
    }
    match run_response(&h, 1, 200) {
        HandlerAction::Send(p) => assert_eq!(p.data.data.errors.len(), 1),
        _ => panic!("expected a send"),
    }
    match run_response(&h, 0, 400) {
        HandlerAction::Send(p) => assert_eq!(p.data.data.errors[0].message, "HTTP status code: 400"),
        _ => panic!("expected a send"),
    }
}

#[test]
fn responses_are_skipped_without_buffering() {
    let h = handler(config(vec![], DEFAULT_SENSITIVE_KEYS_REGEX, false));
    assert!(matches!(run_response(&h, 1, 500), HandlerAction::Finish(Ok(()))));
    assert_eq!(h.required_features(), 0);
    let b = handler(config(vec![], DEFAULT_SENSITIVE_KEYS_REGEX, true));
    assert_eq!(b.required_features(), 2);
}

#[test]
fn collector_unreachable_then_recovers() {
    let h = handler(config(vec![], DEFAULT_SENSITIVE_KEYS_REGEX, false));
    let mut client = HttpClient::new(h.config.treblle_api_urls.clone());
    let logger = init(h.config.log_level);
    let mut error_lines = 0;
    let mut codes = vec![];
    for _ in 0..5 {
        let action = run_request(&h, "/users", "application/json", json_details(vec![], None));
        assert!(matches!(action, HandlerAction::Send(_)));
        let request = client.post(b"{}", "test_api_key").ok().unwrap();
        // every endpoint refuses the connection
        let failure = TreblleError::Tcp(format!("connection refused by {}", request.host));
        if log(&logger, LogLevel::Error, &failure.message()).is_some() {
            error_lines += 1;
        }
        codes.push(CONTINUE_REQUEST);
    }
    assert_eq!(codes, vec![1; 5]);
    assert_eq!(error_lines, 5);
    // no reset: the sixth send simply goes on with the rotation
    let sixth = client.post(b"{}", "test_api_key").ok().unwrap();
    assert_eq!(sixth.host, "c.example.com");
    assert_eq!(client.current_index, 6);
}

#[test]
fn round_robin_over_three_endpoints() {
    let mut client = HttpClient::new(vec![s("https://A"), s("https://B"), s("https://C")]);
    let hosts: Vec<String> = (0..6).map(|_| client.post(b"x", "k").ok().unwrap().host).collect();
    assert_eq!(hosts, vec!["a", "b", "c", "a", "b", "c"]);
}

#[test]
fn server_and_language_metadata() {
    let h = handler(config(vec![], DEFAULT_SENSITIVE_KEYS_REGEX, false));
    let p = match run_request(&h, "/u", "application/json", json_details(vec![(s("User-Agent"), s("curl"))], None)) {
        HandlerAction::Send(p) => p,
        _ => panic!("expected a send"),
    };
    assert_eq!(p.data.data.request.user_agent, "curl");
    assert_eq!(p.data.data.server.protocol, "HTTP/1.1");
    assert_eq!(p.data.data.server.os.name, "linux");
    assert_eq!(p.data.data.server.ip, "Unknown");
    assert_eq!(p.data.data.language.name, "rust");
    assert_eq!(p.data.data.language.version, "0.1.0");
    let j = p.to_json();
    let server = field(field(&j, "data"), "server");
    assert!(!has_field(server, "software"));
    assert!(has_field(server, "timezone"));
    assert!(matches!(field(field(field(&j, "data"), "request"), "body"), Json::Null));
}
