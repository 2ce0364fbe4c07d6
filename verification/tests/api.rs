use slack_zc::api::{
    answer_ok, endpoint, failure, reversed, text_object, ApiRequest, HttpMethod,
    Param, RequestBody, SlackApi, SLACK_API_BASE,
};
use slack_zc::directory::{CachePlan, UserDirectory};
use slack_zc::error::{map_anyhow_error, ApiError};
use slack_zc::json::Json;
use slack_zc::retry::{
    retry_decision, CallError, RetryDecision, RetryState, RetryStep, TransportFailure,
};

fn parse(text: &str) -> Json {
    Json::parse(text).expect("valid JSON")
}

fn pairs(params: &[Param]) -> Vec<(&str, &str)> {
    params.iter().map(|p| (p.name.as_str(), p.value.as_str())).collect()
}

fn json_members(request: &ApiRequest) -> Vec<(&str, &str)> {
    match &request.body {
        RequestBody::Json(members) => pairs(members),
        other => panic!("no JSON body: {:?}", other),
    }
}

#[test]
fn endpoints_hang_off_the_base_address() {
    assert_eq!(SLACK_API_BASE, "https://slack.com/api");
    assert_eq!(endpoint("auth.test"), "https://slack.com/api/auth.test");
}

#[test]
fn query_requests_carry_token_and_parameters() {
    let r = SlackApi::get_history_request("xoxp-1", "C1", 50);
    assert_eq!(r.method, HttpMethod::Get);
    assert_eq!(r.url, "https://slack.com/api/conversations.history");
    assert_eq!(r.bearer.as_deref(), Some("xoxp-1"));
    assert_eq!(pairs(&r.query), vec![("channel", "C1"), ("limit", "50")]);
    assert!(matches!(r.body, RequestBody::Empty));

    let r = SlackApi::list_channels_request("t");
    assert_eq!(
        pairs(&r.query),
        vec![("types", "public_channel,private_channel"), ("exclude_archived", "true")]
    );
    assert_eq!(pairs(&SlackApi::list_dms_request("t").query), vec![("types", "im")]);
    assert_eq!(pairs(&SlackApi::get_user_request("t", "U1").query), vec![("user", "U1")]);
    assert_eq!(pairs(&SlackApi::get_file_info_request("t", "F1").query), vec![("file", "F1")]);
    assert_eq!(
        pairs(&SlackApi::get_thread_replies_request("t", "C1", "1.2").query),
        vec![("channel", "C1"), ("ts", "1.2")]
    );
    assert_eq!(SlackApi::test_auth_request("t").method, HttpMethod::Post);
    assert_eq!(SlackApi::test_auth_request("t").url, "https://slack.com/api/auth.test");
    assert_eq!(SlackApi::list_users_request("t").url, "https://slack.com/api/users.list");
    let r = SlackApi::get_socket_mode_url_request("xapp-1");
    assert_eq!(r.url, "https://slack.com/api/apps.connections.open");
    assert_eq!(r.bearer.as_deref(), Some("xapp-1"));
    assert_eq!(r.method, HttpMethod::Post);
    let r = SlackApi::download_file_request("https://files/x", "t");
    assert_eq!(r.url, "https://files/x");
    assert_eq!(r.method, HttpMethod::Get);
}

#[test]
fn json_requests_carry_their_members_in_order() {
    let r = SlackApi::send_message_request("t", "C1", "hi");
    assert_eq!(r.method, HttpMethod::Post);
    assert_eq!(r.url, "https://slack.com/api/chat.postMessage");
    assert_eq!(json_members(&r), vec![("channel", "C1"), ("text", "hi")]);
    assert_eq!(
        json_members(&SlackApi::send_message_to_thread_request("t", "C1", "hi", "1.2")),
        vec![("channel", "C1"), ("text", "hi"), ("thread_ts", "1.2")]
    );
    let r = SlackApi::update_message_request("t", "C1", "1.2", "new");
    assert_eq!(r.url, "https://slack.com/api/chat.update");
    assert_eq!(json_members(&r), vec![("channel", "C1"), ("ts", "1.2"), ("text", "new")]);
    let r = SlackApi::delete_message_request("t", "C1", "1.2");
    assert_eq!(r.url, "https://slack.com/api/chat.delete");
    assert_eq!(json_members(&r), vec![("channel", "C1"), ("ts", "1.2")]);
    let r = SlackApi::add_reaction_request("t", "C1", "1.2", "+1");
    assert_eq!(r.url, "https://slack.com/api/reactions.add");
    assert_eq!(json_members(&r), vec![("channel", "C1"), ("timestamp", "1.2"), ("name", "+1")]);
    let r = SlackApi::remove_reaction_request("t", "C1", "1.2", "+1");
    assert_eq!(r.url, "https://slack.com/api/reactions.remove");
    assert_eq!(json_members(&r), vec![("channel", "C1"), ("timestamp", "1.2"), ("name", "+1")]);
}

#[test]
fn text_object_prints_as_json() {
    let members = vec![
        Param { name: "channel".to_string(), value: "C1".to_string() },
        Param { name: "text".to_string(), value: "a \"b\"".to_string() },
    ];
    assert_eq!(text_object(&members).to_text(), r#"{"channel":"C1","text":"a \"b\""}"#);
}

#[test]
fn upload_request_names_the_file() {
    let r = SlackApi::upload_file_request("t", "C1", "/tmp/dir/report.pdf", vec![1, 2, 3], None, None);
    assert_eq!(r.url, "https://slack.com/api/files.upload");
    match &r.body {
        RequestBody::Multipart(form) => {
            assert_eq!(pairs(&form.fields), vec![("channels", "C1"), ("title", "report.pdf")]);
            assert_eq!(form.part, "file");
            assert_eq!(form.file_name, "report.pdf");
            assert_eq!(form.content, vec![1, 2, 3]);
        }
        other => panic!("no upload: {:?}", other),
    }
    let r = SlackApi::upload_file_request("t", "C1", "..", Vec::new(), Some("Title"), Some("see"));
    match &r.body {
        RequestBody::Multipart(form) => {
            assert_eq!(
                pairs(&form.fields),
                vec![("channels", "C1"), ("title", "Title"), ("initial_comment", "see")]
            );
            assert_eq!(form.file_name, "file");
        }
        other => panic!("no upload: {:?}", other),
    }
}

#[test]
fn upload_request_takes_the_name_it_is_given() {
    let r = SlackApi::upload_request("t", "C1", Some("a.txt".to_string()), vec![9], None, Some("c"));
    assert_eq!(r.method, HttpMethod::Post);
    assert_eq!(r.bearer.as_deref(), Some("t"));
    assert!(r.query.is_empty());
    match &r.body {
        RequestBody::Multipart(form) => {
            assert_eq!(
                pairs(&form.fields),
                vec![("channels", "C1"), ("title", "a.txt"), ("initial_comment", "c")]
            );
            assert_eq!((form.part.as_str(), form.file_name.as_str()), ("file", "a.txt"));
            assert_eq!(form.content, vec![9]);
        }
        other => panic!("no upload: {:?}", other),
    }
    let r = SlackApi::upload_request("t", "C1", None, Vec::new(), Some("T"), None);
    match &r.body {
        RequestBody::Multipart(form) => {
            assert_eq!(pairs(&form.fields), vec![("channels", "C1"), ("title", "T")]);
            assert_eq!(form.file_name, "file");
        }
        other => panic!("no upload: {:?}", other),
    }
}

#[test]
fn failures_of_retried_calls_name_the_rate_limit() {
    assert!(answer_ok(&parse(r#"{"ok":true}"#)));
    assert!(!answer_ok(&parse(r#"{"ok":"true"}"#)));
    assert!(!answer_ok(&parse(r#"{}"#)));
    let limited = parse(r#"{"ok":false,"error":"rate_limited"}"#);
    assert_eq!(failure("Failed to get history", 200, &limited).message, "429");
    let other = parse(r#"{"ok":false,"error":"channel_not_found"}"#);
    assert_eq!(failure("Failed to get history", 429, &other).message, "429");
    assert_eq!(
        failure("Failed to get history", 200, &other).message,
        "Failed to get history: channel_not_found"
    );
    assert_eq!(failure("X", 500, &parse("{}")).message, "X: unknown");
    assert!(failure("X", 500, &parse("{}")).transport.is_none());
}

#[test]
fn only_rate_limited_answers_are_retried() {
    let limited = failure("Failed to send message", 429, &parse(r#"{"ok":false}"#));
    assert_eq!(retry_decision(&limited, 0), RetryDecision::Retry { delay_ms: 60_000 });
    let refused = failure("Failed to send message", 200, &parse(r#"{"ok":false,"error":"invalid_auth"}"#));
    assert_eq!(retry_decision(&refused, 0), RetryDecision::Fail);
}

#[test]
fn every_call_reports_a_rate_limit_with_the_bare_marker() {
    let limited = parse(r#"{"ok":false,"error":"rate_limited"}"#);
    let refused = parse(r#"{"ok":false,"error":"invalid_auth"}"#);
    assert_eq!(SlackApi::test_auth(200, &limited).unwrap_err().message, "429");
    assert_eq!(SlackApi::list_channels(200, &limited).unwrap_err().message, "429");
    assert_eq!(SlackApi::list_dms(200, &limited).unwrap_err().message, "429");
    assert_eq!(SlackApi::get_user(200, &limited).unwrap_err().message, "429");
    assert_eq!(SlackApi::get_socket_mode_url(200, &limited).unwrap_err().message, "429");
    assert_eq!(SlackApi::upload_file(200, &limited).unwrap_err().message, "429");
    assert_eq!(SlackApi::get_file_info(200, &limited).unwrap_err().message, "429");
    assert_eq!(SlackApi::test_auth(429, &refused).unwrap_err().message, "429");
    assert_eq!(SlackApi::list_channels(429, &refused).unwrap_err().message, "429");
    assert_eq!(SlackApi::list_dms(429, &refused).unwrap_err().message, "429");
    assert_eq!(SlackApi::get_user(429, &refused).unwrap_err().message, "429");
    assert_eq!(SlackApi::get_socket_mode_url(429, &refused).unwrap_err().message, "429");
    assert_eq!(SlackApi::upload_file(429, &refused).unwrap_err().message, "429");
    assert_eq!(SlackApi::get_file_info(429, &refused).unwrap_err().message, "429");
}

#[test]
fn listing_channels_is_retried_after_a_rate_limit() {
    let answers = vec![
        (429u16, parse(r#"{"ok":false,"error":"slow_down"}"#)),
        (200u16, parse(r#"{"ok":true,"channels":[{"id":"C1","name":"general"}]}"#)),
    ];
    let mut state = RetryState::start();
    let mut sent = 0usize;
    let channels = loop {
        let (status, body) = &answers[sent];
        sent += 1;
        match state.on_outcome(SlackApi::list_channels(*status, body)) {
            RetryStep::Done(channels) => break channels,
            RetryStep::GiveUp(e) => panic!("gave up: {}", e.message),
            RetryStep::Wait { delay_ms, next } => {
                assert_eq!(delay_ms, 60_000);
                state = next;
            }
        }
    };
    assert_eq!(sent, 2);
    assert_eq!(channels.len(), 1);
    assert_eq!(channels[0].id, "C1");

    let refused = SlackApi::list_channels(200, &parse(r#"{"ok":false,"error":"invalid_auth"}"#));
    match RetryState::start().on_outcome(refused) {
        RetryStep::GiveUp(e) => assert_eq!(e.message, "Failed to list channels: invalid_auth"),
        _ => panic!("a refused call is not tried again"),
    }
}

#[test]
fn test_auth_reads_the_identity() {
    let ok = parse(r#"{"ok":true,"team_id":"T1","team":"Team","user_id":"U1"}"#);
    let (team_id, team, user_id) = SlackApi::test_auth(200, &ok).unwrap();
    assert_eq!((team_id.as_str(), team.as_str(), user_id.as_str()), ("T1", "Team", "U1"));
    let (team_id, team, user_id) = SlackApi::test_auth(200, &parse(r#"{"ok":true}"#)).unwrap();
    assert_eq!((team_id.as_str(), team.as_str(), user_id.as_str()), ("", "", ""));
    let e = SlackApi::test_auth(200, &parse(r#"{"ok":false,"error":"not_authed"}"#)).unwrap_err();
    assert_eq!(e.message, "Auth test failed: not_authed");
}

#[test]
fn list_channels_and_dms() {
    let body = parse(
        r#"{"ok":true,"channels":[
            {"id":"C1","name":"general","is_group":true,"purpose":{"value":"p"},"topic":{"value":"t"}},
            {"id":"C2"},
            {"id":"D1","user":"U7"},
            {"id":"C3","name":"random"}]}"#,
    );
    let channels = SlackApi::list_channels(200, &body).unwrap();
    assert_eq!(channels.len(), 2);
    assert_eq!(channels[0].id, "C1");
    assert!(channels[0].is_group);
    assert!(!channels[0].is_dm);
    assert_eq!(channels[0].purpose.as_deref(), Some("p"));
    assert_eq!(channels[0].topic.as_deref(), Some("t"));
    assert_eq!(channels[1].name, "random");
    assert_eq!(channels[1].purpose, None);
    let dms = SlackApi::list_dms(200, &body).unwrap();
    assert_eq!(dms.len(), 1);
    assert_eq!(dms[0].id, "D1");
    assert_eq!(dms[0].name, "U7");
    assert_eq!(dms[0].user.as_deref(), Some("U7"));
    assert!(dms[0].is_dm && dms[0].is_im && !dms[0].is_group);
    assert!(SlackApi::list_channels(200, &parse(r#"{"ok":true}"#)).unwrap().is_empty());
    assert_eq!(
        SlackApi::list_channels(200, &parse(r#"{"ok":false,"error":"e"}"#)).unwrap_err().message,
        "Failed to list channels: e"
    );
    assert_eq!(
        SlackApi::list_dms(200, &parse(r#"{"ok":false}"#)).unwrap_err().message,
        "Failed to list DMs: unknown"
    );
}

#[test]
fn history_is_returned_oldest_first() {
    let body = parse(
        r#"{"ok":true,"messages":[
            {"ts":"30.0","user":"U1","text":"newest"},
            {"ts":"bad","user":"U1","text":"skipped"},
            {"ts":"20.0","user":"U1","text":"middle"},
            {"ts":"10.0","user":"U1","text":"oldest"}]}"#,
    );
    let users = UserDirectory::new();
    let history = SlackApi::get_history(200, &body, &users).unwrap();
    let texts: Vec<&str> = history.iter().map(|m| m.text.as_str()).collect();
    assert_eq!(texts, vec!["oldest", "middle", "newest"]);
    let replies = SlackApi::get_thread_replies(200, &body, &users).unwrap();
    let texts: Vec<&str> = replies.iter().map(|m| m.text.as_str()).collect();
    assert_eq!(texts, vec!["newest", "middle", "oldest"]);
    assert!(SlackApi::get_history(200, &parse(r#"{"ok":true}"#), &users).unwrap().is_empty());
    assert_eq!(
        SlackApi::get_history(429, &parse(r#"{"ok":false}"#), &users).unwrap_err().message,
        "429"
    );
    assert_eq!(
        SlackApi::get_thread_replies(200, &parse(r#"{"ok":false,"error":"thread_not_found"}"#), &users)
            .unwrap_err()
            .message,
        "Failed to get thread replies: thread_not_found"
    );
    assert_eq!(reversed(vec![1, 2, 3]), vec![3, 2, 1]);
    assert_eq!(reversed(Vec::<u8>::new()), Vec::<u8>::new());
}

#[test]
fn posting_gives_the_timestamp() {
    assert_eq!(SlackApi::send_message(200, &parse(r#"{"ok":true,"ts":"1.2"}"#)).unwrap(), "1.2");
    assert_eq!(
        SlackApi::send_message(200, &parse(r#"{"ok":true}"#)).unwrap_err().message,
        "No ts in response"
    );
    assert_eq!(
        SlackApi::send_message(200, &parse(r#"{"ok":false,"error":"no_text"}"#)).unwrap_err().message,
        "Failed to send message: no_text"
    );
    assert_eq!(
        SlackApi::send_message_to_thread(200, &parse(r#"{"ok":false,"error":"no_text"}"#))
            .unwrap_err()
            .message,
        "Failed to send thread message: no_text"
    );
    assert_eq!(
        SlackApi::send_message_to_thread(200, &parse(r#"{"ok":true,"ts":"9.9"}"#)).unwrap(),
        "9.9"
    );
}

#[test]
fn acknowledged_calls_report_their_own_context() {
    let ok = parse(r#"{"ok":true}"#);
    let bad = parse(r#"{"ok":false,"error":"nope"}"#);
    assert!(SlackApi::update_message(200, &ok).is_ok());
    assert!(SlackApi::delete_message(200, &ok).is_ok());
    assert!(SlackApi::add_reaction(200, &ok).is_ok());
    assert!(SlackApi::remove_reaction(200, &ok).is_ok());
    assert_eq!(SlackApi::update_message(200, &bad).unwrap_err().message, "Failed to update message: nope");
    assert_eq!(SlackApi::delete_message(200, &bad).unwrap_err().message, "Failed to delete message: nope");
    assert_eq!(SlackApi::add_reaction(200, &bad).unwrap_err().message, "Failed to add reaction: nope");
    assert_eq!(SlackApi::remove_reaction(200, &bad).unwrap_err().message, "Failed to remove reaction: nope");
    assert_eq!(SlackApi::remove_reaction(429, &bad).unwrap_err().message, "429");
}

#[test]
fn users_are_read_from_their_records() {
    let body = parse(
        r#"{"ok":true,"members":[
            {"id":"U1","name":"bob","profile":{"display_name":"Bobby","real_name":"Robert","email":"b@x"}},
            {"id":"U2","name":"no profile"},
            {"id":"U3","name":"eve","profile":{}}]}"#,
    );
    let users = SlackApi::list_users(200, &body).unwrap();
    assert_eq!(users.len(), 2);
    assert_eq!(users[0].display_name, "Bobby");
    assert_eq!(users[0].real_name, "Robert");
    assert_eq!(users[0].email.as_deref(), Some("b@x"));
    assert_eq!(users[1].id, "U3");
    assert_eq!(users[1].display_name, "");
    assert_eq!(users[1].email, None);
    assert_eq!(
        SlackApi::list_users(200, &parse(r#"{"ok":false}"#)).unwrap_err().message,
        "Failed to list users: unknown"
    );
    assert!(SlackApi::list_users(200, &parse(r#"{"ok":true}"#)).unwrap().is_empty());

    let one = parse(r#"{"ok":true,"user":{"id":"U1","profile":{"real_name":"R"}}}"#);
    let user = SlackApi::get_user(200, &one).unwrap();
    assert_eq!((user.id.as_str(), user.name.as_str(), user.real_name.as_str()), ("U1", "", "R"));
    assert_eq!(SlackApi::get_user(200, &parse(r#"{"ok":true}"#)).unwrap_err().message, "No user in response");
    assert_eq!(
        SlackApi::get_user(200, &parse(r#"{"ok":true,"user":{}}"#)).unwrap_err().message,
        "No profile in response"
    );
    assert_eq!(
        SlackApi::get_user(200, &parse(r#"{"ok":false,"error":"user_not_found"}"#)).unwrap_err().message,
        "Failed to get user: user_not_found"
    );
}

#[test]
fn socket_url_upload_and_file_info_answers() {
    assert_eq!(
        SlackApi::get_socket_mode_url(200, &parse(r#"{"ok":true,"url":"wss://x"}"#)).unwrap(),
        "wss://x"
    );
    assert_eq!(
        SlackApi::get_socket_mode_url(200, &parse(r#"{"ok":true}"#)).unwrap_err().message,
        "No URL in response"
    );
    assert_eq!(
        SlackApi::get_socket_mode_url(200, &parse(r#"{"ok":false}"#)).unwrap_err().message,
        "Failed to get socket mode URL: unknown"
    );
    assert_eq!(SlackApi::upload_file(200, &parse(r#"{"ok":true,"file":{"id":"F1"}}"#)).unwrap(), "F1");
    assert_eq!(
        SlackApi::upload_file(200, &parse(r#"{"ok":true,"file":{}}"#)).unwrap_err().message,
        "No file id in response"
    );
    assert_eq!(
        SlackApi::upload_file(200, &parse(r#"{"ok":false,"error":"too_big"}"#)).unwrap_err().message,
        "Failed to upload file: too_big"
    );
    let info = SlackApi::get_file_info(200, &parse(
        r#"{"ok":true,"file":{"id":"F1","name":"a","size":4294967297,"title":"T","filetype":"txt"}}"#,
    ))
    .unwrap();
    assert_eq!((info.id.as_str(), info.name.as_str(), info.size), ("F1", "a", 1));
    assert_eq!(info.title.as_deref(), Some("T"));
    assert_eq!(info.filetype.as_deref(), Some("txt"));
    assert_eq!(info.mimetype, None);
    let empty = SlackApi::get_file_info(200, &parse(r#"{"ok":true,"file":{}}"#)).unwrap();
    assert_eq!((empty.id.as_str(), empty.size), ("", 0));
    assert_eq!(
        SlackApi::get_file_info(200, &parse(r#"{"ok":true}"#)).unwrap_err().message,
        "No file in response"
    );
    assert_eq!(
        SlackApi::get_file_info(200, &parse(r#"{"ok":false}"#)).unwrap_err().message,
        "Failed to get file info: unknown"
    );
}

#[test]
fn test_user_cache_returns_cached_users() {
    let mut api = SlackApi::new();
    assert_eq!(api.get_users_cached(0), CachePlan::Refresh);
    api.user_cache.refresh(None, 0);
    let users1 = api.user_cache.directory.users.len();
    assert_eq!(api.get_users_cached(1), CachePlan::Refresh);
    api.user_cache.refresh(None, 1);
    let users2 = api.user_cache.directory.users.len();
    assert_eq!(users1, users2);
    api.user_cache.refresh(Some(Vec::new()), 2);
    assert_eq!(api.get_users_cached(3), CachePlan::Serve);
}

#[test]
fn errors_are_sorted_into_kinds() {
    let text = |m: &str| CallError { message: m.to_string(), transport: None };
    assert!(matches!(map_anyhow_error(&text("429")), ApiError::RateLimited { retry_after: 60 }));
    assert!(matches!(map_anyhow_error(&text("rate_limited")), ApiError::RateLimited { .. }));
    assert!(matches!(map_anyhow_error(&text("not_authed")), ApiError::Auth(m) if m == "not_authed"));
    assert!(matches!(map_anyhow_error(&text("invalid_auth")), ApiError::Auth(_)));
    assert!(matches!(map_anyhow_error(&text("bad token")), ApiError::Auth(_)));
    assert!(matches!(map_anyhow_error(&text("timed out")), ApiError::Timeout(_)));
    assert!(matches!(map_anyhow_error(&text("timeout")), ApiError::Timeout(_)));
    assert!(matches!(map_anyhow_error(&text("validation failed")), ApiError::Validation(_)));
    assert!(matches!(map_anyhow_error(&text("invalid_name")), ApiError::Validation(_)));
    assert!(matches!(map_anyhow_error(&text("boom")), ApiError::Api(m) if m == "boom"));
    let transport = CallError {
        message: "429 token".to_string(),
        transport: Some(TransportFailure { connect: true, timeout: false, request: false }),
    };
    assert!(matches!(map_anyhow_error(&transport), ApiError::Network(m) if m == "429 token"));
}

#[test]
fn error_kinds_describe_themselves() {
    let cases = [
        (ApiError::Auth("a".into()), "Authentication failed: a", "Authentication failed. Please re-authenticate.", false),
        (ApiError::RateLimited { retry_after: 60 }, "Rate limited. Retry after 60s", "Rate limited. Please slow down.", true),
        (ApiError::Network("n".into()), "Network error: n", "Network error. Check your connection.", true),
        (ApiError::Validation("v".into()), "Validation error: v", "Invalid input. Please check your message.", false),
        (ApiError::Api("x".into()), "API error: x", "Server error. Please try again later.", false),
        (ApiError::Timeout("t".into()), "Timeout: t", "Request timed out. Please try again.", true),
    ];
    for (error, description, advice, retryable) in cases {
        assert_eq!(error.describe(), description);
        assert_eq!(error.user_message(), advice);
        assert_eq!(error.is_retryable(), retryable);
    }
}
