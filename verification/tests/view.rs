use slack_zc::config::Config;
use slack_zc::state::App;
use slack_zc::text::join_with;
use slack_zc::types::{Channel, Message, Reaction, Workspace, WorkspaceState};
use slack_zc::auth::Session;
use slack_zc::view::{clock, message_line, reply_line};
use slack_zc::wrap::{split_lines, wrap_and_truncate_text, TRUNCATION_MARK};

fn message(ts: &str, secs: i64, user: &str, text: &str) -> Message {
    Message {
        ts: ts.to_string(),
        user_id: user.to_string(),
        username: format!("{}-name", user),
        text: text.to_string(),
        thread_ts: None,
        timestamp: secs,
        is_agent: false,
        reactions: Vec::new(),
        is_edited: false,
        is_deleted: false,
        files: Vec::new(),
        reply_count: None,
        last_read: None,
    }
}

fn app() -> App {
    let mut app = App::new(Config::default());
    let workspace = |active| Workspace {
        team_id: "T1".to_string(),
        team_name: "T1".to_string(),
        xoxp_token: "xoxp".to_string(),
        xapp_token: "xapp".to_string(),
        user_id: Some("U1".to_string()),
        active,
    };
    let mut state = WorkspaceState::new(workspace(true));
    state.channels = vec![Channel {
        id: "C1".to_string(),
        name: "general".to_string(),
        is_dm: false,
        is_group: false,
        is_im: false,
        unread_count: 0,
        purpose: None,
        topic: None,
        user: None,
    }];
    app.init(
        Some(Session { workspaces: vec![workspace(true)], zeroclaw_bearer: None }),
        vec![state],
    );
    app.select_channel(0);
    app
}

/// The same wrapping done line by line with an early exit once the box is
/// full: slower to reason about, and an independent check of the library.
fn stepwise_wrap(input: &str, width: usize, max_lines: usize) -> String {
    if width == 0 || max_lines == 0 {
        return "... (truncated)".to_string();
    }
    let mut out = Vec::new();
    let mut truncated = false;
    for raw_line in input.lines() {
        if raw_line.is_empty() {
            if out.len() >= max_lines {
                truncated = true;
                break;
            }
            out.push(String::new());
            continue;
        }
        let mut current = String::new();
        for word in raw_line.split_whitespace() {
            if word.chars().count() > width {
                if !current.is_empty() {
                    if out.len() >= max_lines {
                        truncated = true;
                        break;
                    }
                    out.push(std::mem::take(&mut current));
                }
                let mut chunk = String::new();
                for ch in word.chars() {
                    chunk.push(ch);
                    if chunk.chars().count() == width {
                        if out.len() >= max_lines {
                            truncated = true;
                            break;
                        }
                        out.push(std::mem::take(&mut chunk));
                    }
                }
                if truncated {
                    break;
                }
                if !chunk.is_empty() {
                    current = chunk;
                }
                continue;
            }
            let candidate =
                if current.is_empty() { word.to_string() } else { format!("{current} {word}") };
            if candidate.chars().count() <= width {
                current = candidate;
            } else {
                if out.len() >= max_lines {
                    truncated = true;
                    break;
                }
                out.push(std::mem::take(&mut current));
                current = word.to_string();
            }
        }
        if truncated {
            break;
        }
        if !current.is_empty() {
            if out.len() >= max_lines {
                truncated = true;
                break;
            }
            out.push(current);
        }
    }
    if truncated || out.len() > max_lines {
        out.truncate(max_lines.saturating_sub(1));
        out.push("... (truncated)".to_string());
    }
    out.join("\n")
}

#[test]
fn wrap_exact_examples() {
    assert_eq!(TRUNCATION_MARK, "... (truncated)");
    assert_eq!(wrap_and_truncate_text("hello world", 5, 10), "hello\nworld");
    assert_eq!(wrap_and_truncate_text("hello world", 11, 10), "hello world");
    assert_eq!(wrap_and_truncate_text("a b c d", 3, 10), "a b\nc d");
    assert_eq!(wrap_and_truncate_text("abcdefgh", 3, 10), "abc\ndef\ngh");
    assert_eq!(wrap_and_truncate_text("x abcdef y", 3, 10), "x\nabc\ndef\ny");
    assert_eq!(wrap_and_truncate_text("x abcde y", 3, 10), "x\nabc\nde\ny");
    assert_eq!(wrap_and_truncate_text("one\n\ntwo", 10, 10), "one\n\ntwo");
    assert_eq!(wrap_and_truncate_text("one\n   \ntwo", 10, 10), "one\ntwo");
    assert_eq!(wrap_and_truncate_text("a b c d e f", 1, 3), "a\nb\n... (truncated)");
    assert_eq!(wrap_and_truncate_text("a b c", 1, 3), "a\nb\nc");
    assert_eq!(wrap_and_truncate_text("a b", 1, 1), "... (truncated)");
    assert_eq!(wrap_and_truncate_text("anything", 0, 5), "... (truncated)");
    assert_eq!(wrap_and_truncate_text("anything", 5, 0), "... (truncated)");
    assert_eq!(wrap_and_truncate_text("", 5, 5), "");
    assert_eq!(wrap_and_truncate_text("héllo wörld", 5, 5), "héllo\nwörld");
}

#[test]
fn wrap_agrees_with_the_stepwise_form_on_many_inputs() {
    let inputs = [
        "",
        "word",
        "Failed to send message: invalid_auth for xoxp-[REDACTED] while posting",
        "a  b\tc\n\nd e f g h i j k l m n o p",
        "supercalifragilisticexpialidocious is long",
        "ab abcd abcdef abcdefgh\r\nnext line\r\n",
        "trailing newline\n",
        "\n\n\n",
        " \n \n",
        "x\n\ny\n\nz",
        "aaaa bbbb cccc dddd eeee ffff gggg hhhh",
        "\u{3000}wide space\u{a0}non breaking",
    ];
    for input in inputs {
        for width in 0..12 {
            for max_lines in 0..8 {
                assert_eq!(
                    wrap_and_truncate_text(input, width, max_lines),
                    stepwise_wrap(input, width, max_lines),
                    "{:?} at width {} in {} lines",
                    input,
                    width,
                    max_lines
                );
            }
        }
    }
}

#[test]
fn split_lines_agrees_with_std() {
    for input in ["", "a", "a\n", "a\nb", "a\r\nb\r", "\n", "\r\n", "\r", "a\n\nb\n\n", "x\r\r\ny"] {
        let chars: Vec<char> = input.chars().collect();
        let expected: Vec<String> = input.lines().map(String::from).collect();
        assert_eq!(split_lines(&chars), expected, "{:?}", input);
    }
}

#[test]
fn join_with_puts_the_separator_between() {
    assert_eq!(join_with(&Vec::new(), ", "), "");
    assert_eq!(join_with(&vec!["a".to_string()], ", "), "a");
    assert_eq!(join_with(&vec!["a".to_string(), "".to_string(), "b".to_string()], ", "), "a, , b");
}

#[test]
fn message_lines_show_time_author_and_marks() {
    assert_eq!(clock(1_730_000_000), "03:33");
    assert_eq!(clock(i64::MIN), "--:--");
    let mut m = message("1.0", 1_730_000_000, "U1", "hello");
    assert_eq!(message_line(&m), "03:33 U1-name: hello");
    assert_eq!(reply_line(&m), "    \u{21b3} 03:33 U1-name: hello");
    m.is_edited = true;
    m.reply_count = Some(0);
    assert_eq!(message_line(&m), "03:33 U1-name (edited): hello");
    m.reply_count = Some(12);
    m.reactions = vec![
        Reaction { name: "+1".to_string(), count: 2, users: Vec::new() },
        Reaction { name: "eyes".to_string(), count: 10, users: Vec::new() },
    ];
    assert_eq!(
        message_line(&m),
        "  \u{21e9} 03:33 U1-name (edited): hello [+1:2 eyes:10] (+12 replies)"
    );
    m.thread_ts = Some("0.5".to_string());
    assert!(message_line(&m).starts_with("  \u{21b3} 03:33 "));
    m.is_deleted = true;
    assert_eq!(message_line(&m), "03:33 [message deleted]");
}

#[test]
fn channel_lines_follow_filter_and_threads() {
    let mut app = app();
    assert_eq!(app.message_lines("C1"), None);
    let mut parent = message("10.0", 1_730_000_000, "U1", "parent");
    parent.reply_count = Some(2);
    app.chat.on_message("C1".to_string(), parent);
    app.chat.on_message("C1".to_string(), message("20.0", 1_730_000_060, "U2", "other"));
    let mut gone = message("30.0", 1_730_000_120, "U1", "secret");
    gone.is_deleted = true;
    app.chat.on_message("C1".to_string(), gone);
    app.chat.replies_loaded(
        "C1".to_string(),
        "10.0",
        vec![message("10.1", 1_730_000_001, "U2", "r1"), message("10.2", 1_730_000_002, "U1", "r2")],
    );
    app.chat.replies_loaded("C1".to_string(), "30.0", vec![message("30.1", 1, "U2", "hidden")]);
    assert_eq!(
        app.message_lines("C1").unwrap(),
        "  \u{21e9} 03:33 U1-name: parent (+2 replies)\n    \u{21b3} 03:33 U2-name: r1\n    \u{21b3} 03:33 U1-name: r2\n03:34 U2-name: other\n03:35 [message deleted]"
    );
    app.chat.toggle_thread_collapse("C1");
    assert_eq!(
        app.message_lines("C1").unwrap(),
        "  \u{21e9} 03:33 U1-name: parent (+2 replies)\n    [2 replies - press t to expand]\n03:34 U2-name: other\n03:35 [message deleted]"
    );
    app.message_filter.show_threads = false;
    app.message_filter.user_id = Some("U2".to_string());
    assert_eq!(app.message_lines("C1").unwrap(), "03:34 U2-name: other");
    app.message_filter.user_id = Some("U9".to_string());
    assert_eq!(app.message_lines("C1").unwrap(), "");
}

#[test]
fn typing_indicator_names_the_first_three() {
    let mut app = app();
    assert_eq!(app.typing_indicator(), "");
    let typing = |app: &mut App, user: &str| app.chat.on_typing("C1".to_string(), user.to_string());
    typing(&mut app, "ann");
    assert_eq!(app.typing_indicator(), " typing: ann");
    typing(&mut app, "bob");
    typing(&mut app, "cy");
    assert_eq!(app.typing_indicator(), " typing: ann, bob, cy");
    typing(&mut app, "dee");
    assert_eq!(app.typing_indicator(), " typing: ann, bob, cy...");
    app.selected_channel = None;
    assert_eq!(app.typing_indicator(), "");
}
