use slack_zc::api::HttpMethod;
use slack_zc::commands::{
    is_agent_mention, is_agent_mention_lowered, join_words, process_command, CommandType,
};
use slack_zc::gateway::{describe_status, GatewayClient, GATEWAY_CONNECT_TIMEOUT_SECS, GATEWAY_TIMEOUT_SECS};
use slack_zc::json::Json;
use slack_zc::retry::CallError;
use slack_zc::runner::{
    find_pairing_code, scan_decide, scan_output, AgentRunner, AgentStatus, ScanEvent, ScanStep,
    PAIRING_DEADLINE_MS, SETTLE_TIME_MS,
};

fn text(payload: &Json, key: &str) -> Option<String> {
    payload.get_string(key)
}

/// Scans a scripted output stream as the supervisor does.
fn scan(events: Vec<ScanEvent>) -> Result<String, String> {
    for event in &events {
        match scan_output(event) {
            ScanStep::Continue => {}
            ScanStep::Found(code) => return Ok(code),
            ScanStep::Failed(message) => return Err(message),
        }
    }
    panic!("the script ended without closing the stream");
}

#[test]
fn resume_without_arg_uses_active_channel() {
    let payload = CommandType::Resume { channel: None }.to_webhook_payload("C123", "U456");
    assert_eq!(text(&payload, "command").as_deref(), Some("resume"));
    assert_eq!(text(&payload, "channel").as_deref(), Some("C123"));
    assert_eq!(text(&payload, "user").as_deref(), Some("U456"));
    assert_eq!(text(&payload, "message").as_deref(), Some("/resume"));
}

#[test]
fn resume_with_arg_uses_requested_channel() {
    let payload = CommandType::Resume { channel: Some("general".to_string()) }
        .to_webhook_payload("C123", "U456");
    assert_eq!(text(&payload, "command").as_deref(), Some("resume"));
    assert_eq!(text(&payload, "channel").as_deref(), Some("general"));
    assert_eq!(text(&payload, "message").as_deref(), Some("/resume #general"));
}

#[test]
fn resume_with_empty_channel_uses_active_channel() {
    let payload =
        CommandType::Resume { channel: Some(String::new()) }.to_webhook_payload("C123", "U456");
    assert_eq!(text(&payload, "channel").as_deref(), Some("C123"));
    assert_eq!(text(&payload, "message").as_deref(), Some("/resume"));
}

#[test]
fn other_payloads_carry_their_fields() {
    let draft = CommandType::Draft { intent: "say hi".to_string() }.to_webhook_payload("C1", "U1");
    assert_eq!(
        draft.to_text(),
        r#"{"channel":"C1","command":"draft","intent":"say hi","message":"/draft say hi","user":"U1"}"#
    );
    let search = CommandType::Search { query: "q".to_string() }.to_webhook_payload("C1", "U1");
    assert_eq!(text(&search, "command").as_deref(), Some("cherche"));
    assert_eq!(text(&search, "query").as_deref(), Some("q"));
    assert_eq!(text(&search, "message").as_deref(), Some("/cherche q"));
    let unknown = CommandType::Unknown("dance".to_string()).to_webhook_payload("C1", "U1");
    assert_eq!(text(&unknown, "command").as_deref(), Some("unknown"));
    assert_eq!(text(&unknown, "raw").as_deref(), Some("dance"));
    assert_eq!(text(&unknown, "message"), None);
    assert_eq!(text(&unknown, "channel").as_deref(), Some("C1"));
}

#[test]
fn process_command_splits_name_and_arguments() {
    assert_eq!(
        process_command("/resume  #general now"),
        Some(("resume".to_string(), vec!["#general".to_string(), "now".to_string()]))
    );
    assert_eq!(process_command("/draft"), Some(("draft".to_string(), Vec::new())));
    assert_eq!(process_command("/ draft x"), Some(("draft".to_string(), vec!["x".to_string()])));
    assert_eq!(process_command("/"), None);
    assert_eq!(process_command("/   \t"), None);
    assert_eq!(process_command("resume"), None);
    assert_eq!(process_command(" /resume"), None);
    assert_eq!(process_command(""), None);
}

#[test]
fn from_command_knows_its_names() {
    let args = vec!["#general".to_string(), "extra".to_string()];
    for name in ["resume", "RESUME", "résume", "RÉSUME", "summarize"] {
        assert!(matches!(
            CommandType::from_command(name, &args),
            CommandType::Resume { channel: Some(c) } if c == "general"
        ));
    }
    assert!(matches!(
        CommandType::from_command("resume", &vec!["general".to_string()]),
        CommandType::Resume { channel: Some(c) } if c == "general"
    ));
    assert!(matches!(
        CommandType::from_command("resume", &Vec::new()),
        CommandType::Resume { channel: None }
    ));
    assert!(matches!(
        CommandType::from_command("Draft", &args),
        CommandType::Draft { intent } if intent == "#general extra"
    ));
    for name in ["cherche", "search"] {
        assert!(matches!(
            CommandType::from_command(name, &args),
            CommandType::Search { query } if query == "#general extra"
        ));
    }
    assert!(matches!(
        CommandType::from_command("Dance", &args),
        CommandType::Unknown(name) if name == "Dance"
    ));
    assert_eq!(join_words(&Vec::new()), "");
    assert_eq!(join_words(&vec!["a".to_string()]), "a");
    assert_eq!(join_words(&vec!["a".to_string(), "".to_string(), "b".to_string()]), "a  b");
}

#[test]
fn agent_mentions_are_found_in_any_case() {
    assert!(is_agent_mention("hey @ZeroClaw, help"));
    assert!(is_agent_mention("@zc"));
    assert!(is_agent_mention("x@ZCy"));
    assert!(!is_agent_mention("zeroclaw"));
    assert!(!is_agent_mention("@z c"));
}

#[test]
fn gateway_requests() {
    assert_eq!(GATEWAY_TIMEOUT_SECS, 15);
    assert_eq!(GATEWAY_CONNECT_TIMEOUT_SECS, 5);
    let client = GatewayClient::new(8080);
    assert_eq!(client.base_url, "http://localhost:8080");
    assert!(!client.is_paired());
    let pair = client.pair_request("123456");
    assert_eq!(pair.method, HttpMethod::Post);
    assert_eq!(pair.url, "http://localhost:8080/pair");
    assert_eq!(pair.headers.len(), 1);
    assert_eq!(pair.headers[0].name, "X-Pairing-Code");
    assert_eq!(pair.headers[0].value, "123456");
    assert!(pair.body.is_none());
    let health = client.health_check_request();
    assert_eq!(health.method, HttpMethod::Get);
    assert_eq!(health.url, "http://localhost:8080/health");
    assert!(health.headers.is_empty());
    let failed = client.send_to_agent_request(&Json::Null).unwrap_err();
    assert_eq!(failed.message, "Not paired with gateway");

    let paired = GatewayClient::new(0).with_bearer("tok".to_string());
    assert_eq!(paired.base_url, "http://localhost:0");
    assert!(paired.is_paired());
    let copy = paired.duplicate();
    assert_eq!(copy.bearer.as_deref(), Some("tok"));
    let health = paired.health_check_request();
    assert_eq!(health.headers[0].name, "Authorization");
    assert_eq!(health.headers[0].value, "Bearer tok");
    let payload = CommandType::Unknown("x".to_string()).to_webhook_payload("C", "U");
    let webhook = paired.send_to_agent_request(&payload).unwrap();
    assert_eq!(webhook.url, "http://localhost:0/webhook");
    assert_eq!(webhook.headers[0].value, "Bearer tok");
    assert_eq!(
        webhook.body.as_deref(),
        Some(r#"{"channel":"C","command":"unknown","raw":"x","user":"U"}"#)
    );
}

#[test]
fn gateway_answers() {
    let mut client = GatewayClient::new(8080);
    let body = Json::parse(r#"{"token":"secret","more":1}"#).unwrap();
    assert_eq!(client.pair(200, Some(&body)).unwrap(), "secret");
    assert_eq!(client.bearer.as_deref(), Some("secret"));

    let mut client = GatewayClient::new(8080);
    assert_eq!(client.pair(403, Some(&body)).unwrap_err().message, "Pairing failed: 403 Forbidden");
    assert!(client.bearer.is_none());
    assert_eq!(client.pair(200, None).unwrap_err().message, "error decoding response body");
    let no_token = Json::parse(r#"{"tokens":"x"}"#).unwrap();
    assert_eq!(client.pair(204, Some(&no_token)).unwrap_err().message, "error decoding response body");
    assert!(client.bearer.is_none());

    assert!(client.health_check(Some(200)));
    assert!(client.health_check(Some(299)));
    assert!(!client.health_check(Some(300)));
    assert!(!client.health_check(Some(199)));
    assert!(!client.health_check(None));

    assert_eq!(GatewayClient::send_to_agent(200, "reply".to_string()).unwrap(), "reply");
    assert_eq!(
        GatewayClient::send_to_agent(500, "x".to_string()).unwrap_err().message,
        "Webhook failed: 500 Internal Server Error"
    );
    assert_eq!(describe_status(404), "404 Not Found");
    assert_eq!(describe_status(299), "299 <unknown status code>");
    assert_eq!(describe_status(42), "42");
}

#[test]
fn pairing_code_is_found_in_the_marked_line() {
    assert_eq!(find_pairing_code("Pairing code: 123456").as_deref(), Some("123456"));
    assert_eq!(find_pairing_code("your PAIRING-CODE is [654321], enter it").as_deref(), Some("654321"));
    assert_eq!(find_pairing_code("pairing code 12345 then 1234567").as_deref(), Some("123456"));
    assert_eq!(find_pairing_code("code 123456"), None);
    assert_eq!(find_pairing_code("pairing code: 12345"), None);
    assert_eq!(find_pairing_code("123456 pairing code"), None);
    assert_eq!(find_pairing_code(""), None);
}

#[test]
fn pairing_scan_returns_the_code_within_the_deadline() {
    assert_eq!(PAIRING_DEADLINE_MS, 10_000);
    assert_eq!(SETTLE_TIME_MS, 500);
    let result = scan(vec![
        ScanEvent::Line("starting gateway".to_string()),
        ScanEvent::Line("listening on 8080".to_string()),
        ScanEvent::Line("Pairing code: 424242".to_string()),
        ScanEvent::Line("Pairing code: 111111".to_string()),
        ScanEvent::Deadline,
    ]);
    assert_eq!(result, Ok("424242".to_string()));
}

#[test]
fn pairing_scan_times_out_and_does_not_hang() {
    let result = scan(vec![
        ScanEvent::Line("starting gateway".to_string()),
        ScanEvent::Deadline,
        ScanEvent::Line("Pairing code: 424242".to_string()),
    ]);
    assert_eq!(result, Err("Timeout waiting for pairing code".to_string()));
    assert_eq!(scan(vec![ScanEvent::Deadline]), Err("Timeout waiting for pairing code".to_string()));
}

#[test]
fn pairing_scan_fails_when_the_stream_closes() {
    let result = scan(vec![ScanEvent::Line("bye".to_string()), ScanEvent::Closed]);
    assert_eq!(result, Err("Pairing code not found in output".to_string()));
    assert!(matches!(
        scan_decide(&ScanEvent::Closed, Some("123456".to_string())),
        ScanStep::Failed(_)
    ));
    assert!(matches!(
        scan_decide(&ScanEvent::Line(String::new()), Some("1".to_string())),
        ScanStep::Found(code) if code == "1"
    ));
    assert!(matches!(scan_decide(&ScanEvent::Line(String::new()), None), ScanStep::Continue));
}

#[test]
fn runner_commands_and_probe() {
    let runner = AgentRunner::new("zeroclaw".to_string(), 8080);
    let probe = runner.check_binary_command();
    assert_eq!(probe.program, "zeroclaw");
    assert_eq!(probe.args, vec!["--version".to_string()]);
    let start = runner.gateway_command();
    assert_eq!(start.program, "zeroclaw");
    assert_eq!(start.args, vec!["gateway".to_string(), "--port".to_string(), "8080".to_string()]);
    assert!(runner.check_binary(Ok(true)).is_ok());
    assert_eq!(
        runner.check_binary(Ok(false)).unwrap_err().message,
        "ZeroClaw binary not found or not executable: zeroclaw"
    );
    assert_eq!(
        runner.check_binary(Err("No such file or directory".to_string())).unwrap_err().message,
        "No such file or directory"
    );
}

#[test]
fn runner_status_is_derived() {
    let mut runner = AgentRunner::new("zeroclaw".to_string(), 9000);
    assert!(matches!(runner.status(), AgentStatus::Unavailable));
    assert!(runner.get_gateway().is_none());
    runner.gateway = Some(GatewayClient::new(9000));
    assert!(matches!(runner.status(), AgentStatus::Pairing));
    let paired = GatewayClient::new(9000).with_bearer("t".to_string());
    let kept = runner.start_and_pair(Ok(paired)).unwrap();
    assert_eq!(kept.bearer.as_deref(), Some("t"));
    assert!(runner.child);
    assert!(matches!(runner.status(), AgentStatus::Active));
    assert_eq!(runner.get_gateway().unwrap().base_url, "http://localhost:9000");
    assert!(runner.shutdown());
    assert!(!runner.child);
    assert!(matches!(runner.status(), AgentStatus::Unavailable));
    assert!(!runner.shutdown());
}

#[test]
fn runner_failed_starts_keep_nothing() {
    let mut runner = AgentRunner::new("zeroclaw".to_string(), 9000);
    let failure = CallError { message: "Timeout waiting for pairing code".to_string(), transport: None };
    assert_eq!(
        runner.start_and_pair(Err(failure)).unwrap_err().message,
        "Timeout waiting for pairing code"
    );
    assert!(!runner.child && runner.gateway.is_none());
    assert_eq!(
        runner.start_with_bearer("tok", false).unwrap_err().message,
        "Gateway health check failed"
    );
    assert!(!runner.child && runner.gateway.is_none());
    let gateway = runner.start_with_bearer("tok", true).unwrap();
    assert_eq!(gateway.bearer.as_deref(), Some("tok"));
    assert_eq!(gateway.base_url, "http://localhost:9000");
    assert!(runner.child);
    assert!(matches!(runner.status(), AgentStatus::Active));
}

#[test]
fn running_gateway_without_token_cannot_be_used() {
    let runner = AgentRunner::new("zeroclaw".to_string(), 9000);
    assert_eq!(
        runner.connect_to_running_gateway(Some(true)).unwrap_err().message,
        "Gateway already paired. Please check configuration."
    );
    assert_eq!(
        runner.connect_to_running_gateway(Some(false)).unwrap_err().message,
        "Gateway needs pairing. Check your terminal for the 6-digit code."
    );
    assert_eq!(
        runner.connect_to_running_gateway(None).unwrap_err().message,
        "ZeroClaw gateway not accessible. Make sure it's running."
    );
}

#[test]
fn lowered_text_names_the_agent() {
    assert!(is_agent_mention_lowered("hey @zeroclaw"));
    assert!(is_agent_mention_lowered("@zc do it"));
    assert!(!is_agent_mention_lowered("@ZC do it"));
    assert!(!is_agent_mention_lowered("@z c"));
    assert!(!is_agent_mention_lowered(""));
    assert!(is_agent_mention("Hey @ZeroClaw"));
}

#[test]
fn command_is_chosen_by_the_lowered_name() {
    let args = vec!["#general".to_string(), "now".to_string()];
    match CommandType::from_lowered("resume", "ReSuMe", &args) {
        CommandType::Resume { channel } => assert_eq!(channel.as_deref(), Some("general")),
        other => panic!("unexpected command {:?}", other),
    }
    match CommandType::from_lowered("summarize", "SUMMARIZE", &Vec::new()) {
        CommandType::Resume { channel } => assert_eq!(channel, None),
        other => panic!("unexpected command {:?}", other),
    }
    match CommandType::from_lowered("draft", "Draft", &args) {
        CommandType::Draft { intent } => assert_eq!(intent, "#general now"),
        other => panic!("unexpected command {:?}", other),
    }
    match CommandType::from_lowered("cherche", "Cherche", &args) {
        CommandType::Search { query } => assert_eq!(query, "#general now"),
        other => panic!("unexpected command {:?}", other),
    }
    match CommandType::from_lowered("dance", "Dance", &args) {
        CommandType::Unknown(name) => assert_eq!(name, "Dance"),
        other => panic!("unexpected command {:?}", other),
    }
    match CommandType::from_lowered("RESUME", "RESUME", &args) {
        CommandType::Unknown(name) => assert_eq!(name, "RESUME"),
        other => panic!("unexpected command {:?}", other),
    }
    match CommandType::from_command("RESUME", &args) {
        CommandType::Resume { channel } => assert_eq!(channel.as_deref(), Some("general")),
        other => panic!("unexpected command {:?}", other),
    }
}
