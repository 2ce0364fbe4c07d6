use slack_zc::auth::Session;
use slack_zc::config::Config;
use slack_zc::menu::ContextMenu;
use slack_zc::onboarding::{OnboardingScreen, OnboardingState};
use slack_zc::runner::AgentStatus;
use slack_zc::screen::{onboarding_title, render_context_menu, render_onboarding};
use slack_zc::state::{agent_command_finished, AgentOutcome, App, Focus};
use slack_zc::types::{Channel, Workspace, WorkspaceState};

fn channel(id: &str, name: &str, is_dm: bool, unread: u32, user: Option<&str>) -> Channel {
    Channel {
        id: id.to_string(),
        name: name.to_string(),
        is_dm,
        is_group: false,
        is_im: is_dm,
        unread_count: unread,
        purpose: None,
        topic: None,
        user: user.map(str::to_string),
    }
}

fn workspace(team: &str, active: bool) -> Workspace {
    Workspace {
        team_id: team.to_string(),
        team_name: team.to_string(),
        xoxp_token: "xoxp".to_string(),
        xapp_token: "xapp".to_string(),
        user_id: None,
        active,
    }
}

fn app() -> App {
    let mut app = App::new(Config::default());
    let mut state = WorkspaceState::new(workspace("Acme", true));
    state.channels = vec![
        channel("C1", "general", false, 0, None),
        channel("C2", "Random", false, 3, None),
        channel("D1", "U7", true, 0, Some("U7Bob")),
        channel("C3", "dev", false, 0, None),
    ];
    app.init(
        Some(Session {
            workspaces: vec![workspace("Acme", true), workspace("Other", false)],
            zeroclaw_bearer: None,
        }),
        vec![state, WorkspaceState::new(workspace("Other", false))],
    );
    app
}

fn texts(app: &mut App, visible: usize) -> Vec<String> {
    app.render_sidebar(visible).into_iter().map(|r| r.text).collect()
}

#[test]
fn sidebar_marks_cursor_and_selection() {
    let mut app = app();
    assert_eq!(app.sidebar_heading(), " CHANNELS ");
    assert_eq!(texts(&mut app, 10), vec![" > # general", "   # Random 3", "   @ U7", "   # dev"]);
    app.select_channel(0);
    app.sidebar_cursor = 1;
    let rows = app.render_sidebar(10);
    assert_eq!(rows[0].text, " # # general");
    assert!(rows[0].selected && !rows[0].cursor);
    assert_eq!(rows[1].text, " > # Random 3");
    assert!(rows[1].cursor && !rows[1].selected);
    app.sidebar_cursor = 0;
    assert_eq!(texts(&mut app, 10)[0], ">> # general");
    app.focus = Focus::Messages;
    assert_eq!(texts(&mut app, 10)[0], " # # general");
}

#[test]
fn sidebar_scrolls_with_the_cursor() {
    let mut app = app();
    app.sidebar_cursor = 3;
    assert_eq!(texts(&mut app, 2), vec!["   @ U7", " > # dev"]);
    assert_eq!(app.sidebar_scroll, 2);
    app.sidebar_cursor = 0;
    assert_eq!(texts(&mut app, 2), vec![" > # general", "   # Random 3"]);
    assert_eq!(app.sidebar_scroll, 0);
    app.sidebar_cursor = 9;
    assert_eq!(texts(&mut app, 0), Vec::<String>::new());
    assert_eq!(app.sidebar_cursor, 3);
    app.sidebar_scroll = 7;
    assert_eq!(app.sidebar_rows_shown(3).len(), 0);
}

#[test]
fn sidebar_search_filters_by_name_and_peer() {
    let mut app = app();
    app.search_query = "RAN".to_string();
    assert_eq!(app.sidebar_heading(), " CHANNELS [RAN] ");
    assert_eq!(texts(&mut app, 10), vec![" > # Random 3"]);
    assert_eq!(app.filtered_channels().len(), 1);
    app.search_query = "bob".to_string();
    assert_eq!(texts(&mut app, 10), vec![" > @ U7"]);
    app.sidebar_cursor = 2;
    app.search_query = "e".to_string();
    assert_eq!(texts(&mut app, 10), vec!["   # general", " > # dev"]);
    assert_eq!(app.sidebar_cursor, 1);
    app.search_query = "zzz".to_string();
    assert_eq!(texts(&mut app, 10), Vec::<String>::new());
    assert_eq!(app.sidebar_cursor, 0);
}

#[test]
fn topbar_says_what_is_going_on() {
    let mut app = app();
    assert_eq!(
        app.render_topbar(),
        " \u{25cf} [Acme]  Other    zeroclaw: \u{25cb} inactive   [sidebar]   [Tab] focus   [?] help"
    );
    app.select_channel(0);
    app.chat.on_typing("C1".to_string(), "ann".to_string());
    app.agent.status = AgentStatus::Active;
    app.errors.report_error("X", "y");
    app.focus = Focus::Input;
    app.active_workspace = 1;
    assert_eq!(
        app.render_topbar(),
        " \u{25cf}  Acme  [Other] typing: ann   zeroclaw: \u{25cf} active   \u{26a0} error   [input]   [Tab] focus   [?] help"
    );
}

#[test]
fn input_bar_shows_mode_and_state() {
    let mut app = app();
    assert_eq!(app.render_input_bar(), "[\u{1f4ac}] > ");
    app.focus = Focus::Input;
    app.input.handle_char('/');
    app.input.handle_char('x');
    assert_eq!(app.render_input_bar(), "[\u{26a1}] > /x\u{2588}");
    app.agent.processing = true;
    assert_eq!(app.render_input_bar(), "[\u{26a1}] > /x   [agent processing]");
    app.input.clear();
    for c in "@zc".chars() {
        app.input.handle_char(c);
    }
    app.agent.processing = false;
    app.focus = Focus::Sidebar;
    assert_eq!(app.render_input_bar(), "[\u{1f916}] > @zc");
}

#[test]
fn agent_panel_lists_the_latest_replies() {
    let mut app = app();
    let head = "\u{26a1} ZEROCLAW\n\nStatus: \u{26a0} unavailable\n\nCommands:\n  /r\u{e9}sume [#channel]\n  /draft [intent]\n  /cherche [text]\n\n";
    assert_eq!(app.render_agent_panel(), head);
    for i in 0..7 {
        let reply = if i == 6 { "x".repeat(40) } else { format!("r{}", i) };
        app.apply_async_event(
            agent_command_finished(format!("/c{}", i), AgentOutcome::Reply(reply)),
            1_730_000_000 + 60 * i,
        );
    }
    app.agent.status = AgentStatus::Error("boom".to_string());
    let text = app.render_agent_panel();
    assert!(text.starts_with("\u{26a1} ZEROCLAW\n\nStatus: \u{2717} boom\n\nCommands:\n"));
    assert!(text.ends_with(&format!(
        "\u{2500}\u{2500} Recent \u{2500}\u{2500}\n03:39 /c6: {}\n03:38 /c5: r5\n03:37 /c4: r4\n03:36 /c3: r3\n03:35 /c2: r2\n",
        "x".repeat(30)
    )));
    for (status, shown) in [
        (AgentStatus::Starting, "\u{25b6} starting..."),
        (AgentStatus::Pairing, "\u{2699} pairing..."),
        (AgentStatus::Active, "\u{25cf} active"),
    ] {
        app.agent.status = status;
        assert!(app.render_agent_panel().contains(&format!("Status: {}\n", shown)));
    }
}

#[test]
fn menus_pickers_and_error_details() {
    let mut menu = ContextMenu::for_message(0, 0);
    menu.selected = 1;
    assert_eq!(
        render_context_menu(&menu),
        vec!["   Reply ", " > React ", "   Edit ", "   Delete ", "   Copy ", "   View Thread "]
    );
    let mut app = app();
    assert_eq!(app.render_workspace_picker(), vec!["> Acme", "  Other"]);
    assert_eq!(
        app.render_error_details(40, 5),
        "No error details available.\n\n[Esc] or [Enter] to close"
    );
    app.errors.report_error("Failed", "one two three four");
    assert_eq!(
        app.render_error_details(10, 2),
        "Failed:\n... (truncated)\n\n[Esc] or [Enter] to close"
    );
}

#[test]
fn wizard_texts() {
    let mut state = OnboardingState::new();
    assert!(render_onboarding(&state).starts_with("\n\n  Welcome to slack-zc!\n"));
    assert_eq!(onboarding_title(OnboardingScreen::Welcome), "Welcome");
    state.current_screen = OnboardingScreen::SlackCredentials;
    assert_eq!(
        render_onboarding(&state),
        "\n\n  Enter your Slack App credentials:\n\n  Client ID:    [not set] [editing]\n  Client Secret: [not set]\n\n  Press [Tab] to switch fields,\n  type to enter values,\n  [Enter] to continue, [Esc] to go back\n"
    );
    state.client_id = "abc".to_string();
    state.client_secret = "hidden".to_string();
    state.selected_field = 1;
    let text = render_onboarding(&state);
    assert!(text.contains("Client ID:    abc\n"));
    assert!(text.contains("Client Secret: ******** [editing]\n"));
    assert!(!text.contains("hidden"));
    state.current_screen = OnboardingScreen::OAuthFlow;
    assert!(render_onboarding(&state).contains("Press [Enter] to generate OAuth URL"));
    state.oauth_url = Some("https://x".to_string());
    assert!(render_onboarding(&state).contains("1. Visit: https://x\n\n  2. Authorize the app\n\n  3. Copy the code"));
    state.oauth_code = "4/abc".to_string();
    assert!(render_onboarding(&state).contains("3. Your code: 4/abc\n\n  Press [Enter]"));
    state.current_screen = OnboardingScreen::ZeroClawCheck;
    assert!(render_onboarding(&state).contains("Checking for ZeroClaw binary..."));
    state.current_screen = OnboardingScreen::ZeroClawPairing;
    assert!(render_onboarding(&state).contains("Code: waiting...\n"));
    state.pairing_code = Some("123456".to_string());
    assert!(render_onboarding(&state).contains("Code: 123456\n"));
    state.current_screen = OnboardingScreen::Complete;
    assert!(render_onboarding(&state).contains("Setup Complete!"));
    assert_eq!(onboarding_title(OnboardingScreen::Complete), "Complete!");
    assert_eq!(onboarding_title(OnboardingScreen::OAuthFlow), "OAuth Flow");
}
