use slack_zc::directory::{CachePlan, ResolvePlan, UserCache, UserDirectory, USER_CACHE_TTL_MS};
use slack_zc::json::Json;
use slack_zc::types::{
    collect_strings, parse_epoch_seconds, Channel, File, Message, Reaction, Thread, User,
    Workspace, WorkspaceState, MAX_TIMESTAMP, MIN_TIMESTAMP,
};

fn user(id: &str, name: &str, display: &str, real: &str) -> User {
    User {
        id: id.to_string(),
        name: name.to_string(),
        display_name: display.to_string(),
        real_name: real.to_string(),
        email: None,
    }
}

fn channel(name: &str, is_dm: bool) -> Channel {
    Channel {
        id: "C1".to_string(),
        name: name.to_string(),
        is_dm,
        is_group: false,
        is_im: is_dm,
        unread_count: 0,
        purpose: None,
        topic: None,
        user: None,
    }
}

fn parse(text: &str) -> Json {
    Json::parse(text).expect("valid JSON")
}

#[test]
fn user_display_name_precedence() {
    assert_eq!(user("U1", "bob", "Bobby", "Robert").display_name(), "Bobby");
    assert_eq!(user("U1", "bob", "", "Robert").display_name(), "Robert");
    assert_eq!(user("U1", "bob", "", "").display_name(), "bob");
}

#[test]
fn channel_display_name_marks_direct_messages() {
    assert_eq!(channel("general", false).display_name(), "# general");
    assert_eq!(channel("alice", true).display_name(), "@ alice");
    let copy = channel("general", false).duplicate();
    assert_eq!(copy.name, "general");
    assert_eq!(Channel::duplicate_all(&vec![channel("a", false), channel("b", true)]).len(), 2);
}

#[test]
fn epoch_seconds_reads_the_part_before_the_dot() {
    assert_eq!(parse_epoch_seconds("1730000000.100000"), Some(1_730_000_000));
    assert_eq!(parse_epoch_seconds("1000.1"), Some(1000));
    assert_eq!(parse_epoch_seconds("1000"), Some(1000));
    assert_eq!(parse_epoch_seconds("-5.0"), Some(-5));
    assert_eq!(parse_epoch_seconds("1.2.3"), Some(1));
    assert_eq!(parse_epoch_seconds(".5"), None);
    assert_eq!(parse_epoch_seconds(""), None);
    assert_eq!(parse_epoch_seconds("abc.1"), None);
    assert_eq!(parse_epoch_seconds("9223372036854775807.0"), None);
    assert_eq!(parse_epoch_seconds("-9223372036854775808.0"), None);
}

#[test]
fn message_from_slack_api_reads_every_field() {
    let users = UserDirectory::from_users(vec![user("U1", "bob", "Bobby", "Robert")]);
    let doc = parse(
        r#"{"ts":"1730000000.100000","user":"U1","text":"hello","thread_ts":"1729999999.000001",
            "reactions":[{"name":"+1","count":2,"users":["U1",7,"U2"]},{"name":"x"},{"count":1}],
            "edited":{"user":"U1"},"is_deleted":true,
            "files":[{"id":"F1","name":"a.txt","size":4294967301,"mimetype":"text/plain"},{"id":"F2","name":"b"}],
            "reply_count":3,"last_read":"1730000001.000000"}"#,
    );
    let m = Message::from_slack_api(&doc, &users).expect("a message");
    assert_eq!(m.ts, "1730000000.100000");
    assert_eq!(m.user_id, "U1");
    assert_eq!(m.username, "Bobby");
    assert_eq!(m.text, "hello");
    assert_eq!(m.thread_ts.as_deref(), Some("1729999999.000001"));
    assert_eq!(m.timestamp, 1_730_000_000);
    assert!(!m.is_agent);
    assert_eq!(m.reactions.len(), 1);
    assert_eq!(m.reactions[0].name, "+1");
    assert_eq!(m.reactions[0].count, 2);
    assert_eq!(m.reactions[0].users, vec!["U1".to_string(), "U2".to_string()]);
    assert!(m.is_edited);
    assert!(m.is_deleted);
    assert_eq!(m.files.len(), 1);
    assert_eq!(m.files[0].id, "F1");
    assert_eq!(m.files[0].size, 5);
    assert_eq!(m.files[0].mimetype.as_deref(), Some("text/plain"));
    assert_eq!(m.files[0].url_private, None);
    assert_eq!(m.reply_count, Some(3));
    assert_eq!(m.last_read.as_deref(), Some("1730000001.000000"));
}

#[test]
fn message_from_slack_api_defaults_and_unknown_author() {
    let users = UserDirectory::new();
    let m = Message::from_slack_api(&parse(r#"{"ts":"12.5","user":"U9","text":""}"#), &users)
        .expect("a message");
    assert_eq!(m.username, "U9");
    assert_eq!(m.thread_ts, None);
    assert!(m.reactions.is_empty());
    assert!(m.files.is_empty());
    assert!(!m.is_edited);
    assert!(!m.is_deleted);
    assert_eq!(m.reply_count, None);
    assert_eq!(m.last_read, None);
    let deleted = parse(r#"{"ts":"12.5","user":"U9","text":"","deleted_at":1}"#);
    assert!(Message::from_slack_api(&deleted, &users).unwrap().is_deleted);
    let flagged = parse(r#"{"ts":"12.5","user":"U9","text":"","is_deleted":false}"#);
    assert!(!Message::from_slack_api(&flagged, &users).unwrap().is_deleted);
}

#[test]
fn message_from_slack_api_rejects_incomplete_documents() {
    let users = UserDirectory::new();
    for text in [
        r#"{"user":"U1","text":"x"}"#,
        r#"{"ts":"1.0","text":"x"}"#,
        r#"{"ts":"1.0","user":"U1"}"#,
        r#"{"ts":1.0,"user":"U1","text":"x"}"#,
        r#"{"ts":"soon","user":"U1","text":"x"}"#,
        r#"{"ts":"99999999999999999.0","user":"U1","text":"x"}"#,
        r#"["ts"]"#,
    ] {
        assert!(Message::from_slack_api(&parse(text), &users).is_none(), "{}", text);
    }
}

#[test]
fn reaction_and_file_lists_skip_what_is_incomplete() {
    let items = parse(r#"[{"name":"a","count":1},{"name":"b"},{"name":"c","count":4294967296}]"#);
    let reactions = Reaction::list_from_slack_api(items.as_array().unwrap());
    assert_eq!(reactions.len(), 2);
    assert_eq!(reactions[1].name, "c");
    assert_eq!(reactions[1].count, 0);
    assert!(reactions[0].users.is_empty());
    let files = parse(r#"[{"id":"F","name":"n","size":1},{"id":"G","size":1},{"id":"H","name":"h","size":"1"}]"#);
    let files = File::list_from_slack_api(files.as_array().unwrap());
    assert_eq!(files.len(), 1);
    assert_eq!(files[0].name, "n");
    let strings = parse(r#"["a",1,"b",null]"#);
    assert_eq!(collect_strings(strings.as_array().unwrap()), vec!["a".to_string(), "b".to_string()]);
}

#[test]
fn thread_starts_expanded_and_toggles() {
    let mut thread = Thread::new("1000.1", "C1");
    assert_eq!(thread.parent_ts, "1000.1");
    assert_eq!(thread.channel_id, "C1");
    assert!(thread.replies.is_empty());
    assert!(!thread.is_collapsed);
    thread.toggle_collapse();
    assert!(thread.is_collapsed);
    thread.toggle_collapse();
    assert!(!thread.is_collapsed);
}

#[test]
fn workspace_state_starts_empty() {
    let state = WorkspaceState::new(Workspace {
        team_id: "T1".to_string(),
        team_name: "Team".to_string(),
        xoxp_token: "xoxp-1".to_string(),
        xapp_token: "xapp-1".to_string(),
        user_id: None,
        active: true,
    });
    assert_eq!(state.workspace.team_id, "T1");
    assert!(state.channels.is_empty());
    assert!(state.active_channel.is_none());
    assert!(state.users.users.is_empty());
}

#[test]
fn directory_later_record_counts() {
    let directory = UserDirectory::from_users(vec![
        user("U1", "old", "", ""),
        user("U2", "two", "Two", ""),
        user("U1", "new", "", "Newer"),
    ]);
    assert_eq!(directory.get("U1").map(|u| u.name.as_str()), Some("new"));
    assert_eq!(directory.resolve_username("U1"), "Newer");
    assert_eq!(directory.resolve_username("U2"), "Two");
    assert_eq!(directory.resolve_username("U3"), "U3");
    assert!(directory.get("U3").is_none());
}

#[test]
fn cache_is_fresh_for_exactly_one_ttl() {
    let mut cache = UserCache::new();
    assert!(cache.should_refresh(0));
    assert_eq!(cache.plan(5), CachePlan::Refresh);
    cache.refresh(Some(vec![user("U1", "bob", "", "")]), 1_000);
    assert_eq!(cache.updated_at, Some(1_000));
    assert_eq!(cache.plan(1_000), CachePlan::Serve);
    assert_eq!(cache.plan(1_000 + USER_CACHE_TTL_MS - 1), CachePlan::Serve);
    assert_eq!(cache.plan(1_000 + USER_CACHE_TTL_MS), CachePlan::Refresh);
    assert_eq!(cache.plan(999), CachePlan::Serve);
    assert_eq!(USER_CACHE_TTL_MS, 600_000);
}

#[test]
fn cache_two_lookups_trigger_one_refresh() {
    let mut cache = UserCache::new();
    let mut remote_calls = 0;
    for now in [10_000u64, 10_001] {
        if cache.plan(now) == CachePlan::Refresh {
            // the reader takes the write lock and asks again before it refreshes
            if cache.plan(now) == CachePlan::Refresh {
                remote_calls += 1;
                cache.refresh(Some(vec![user("U1", "bob", "Bobby", "")]), now);
            }
        }
        assert_eq!(cache.resolve_username("U1"), "Bobby");
    }
    assert_eq!(remote_calls, 1);
}

#[test]
fn cache_failed_refresh_keeps_the_previous_contents() {
    let mut cache = UserCache::new();
    cache.refresh(Some(vec![user("U1", "bob", "", "")]), 0);
    cache.refresh(None, USER_CACHE_TTL_MS + 5);
    assert_eq!(cache.updated_at, Some(0));
    assert_eq!(cache.resolve_username("U1"), "bob");
    assert!(cache.get("U1").is_some());
    cache.invalidate();
    assert_eq!(cache.updated_at, None);
    assert_eq!(cache.plan(1), CachePlan::Refresh);
    assert_eq!(cache.resolve_username("U1"), "bob");
}

#[test]
fn cache_resolve_plan_serves_known_users_even_when_stale() {
    let mut cache = UserCache::new();
    assert!(matches!(cache.resolve_plan("U1", 0), ResolvePlan::Refresh));
    cache.refresh(Some(vec![user("U1", "bob", "", "")]), 0);
    assert!(matches!(cache.resolve_plan("U1", USER_CACHE_TTL_MS * 2), ResolvePlan::Known(name) if name == "bob"));
    assert!(matches!(cache.resolve_plan("U2", 5), ResolvePlan::Unknown));
    assert!(matches!(cache.resolve_plan("U2", USER_CACHE_TTL_MS), ResolvePlan::Refresh));
}

#[test]
fn epoch_seconds_reach_as_far_as_the_calendar() {
    assert_eq!(MIN_TIMESTAMP, -8_334_601_228_800);
    assert_eq!(MAX_TIMESTAMP, 8_210_266_876_799);
    assert_eq!(parse_epoch_seconds("-8334601228800.000100"), Some(MIN_TIMESTAMP));
    assert_eq!(parse_epoch_seconds("-8334601228801.000100"), None);
    assert_eq!(parse_epoch_seconds("8210266876799"), Some(MAX_TIMESTAMP));
    assert_eq!(parse_epoch_seconds("8210266876800"), None);
    assert_eq!(parse_epoch_seconds("0.5"), Some(0));
    assert_eq!(parse_epoch_seconds("9223372036854775807.0"), None);
    assert_eq!(parse_epoch_seconds("-9223372036854775808"), None);
    let calendar = chrono::DateTime::from_timestamp(MIN_TIMESTAMP, 0).unwrap();
    assert_eq!(calendar.timestamp(), MIN_TIMESTAMP);
    assert!(chrono::DateTime::from_timestamp(MIN_TIMESTAMP - 1, 0).is_none());
    assert!(chrono::DateTime::from_timestamp(MAX_TIMESTAMP, 0).is_some());
    assert!(chrono::DateTime::from_timestamp(MAX_TIMESTAMP + 1, 0).is_none());
}
