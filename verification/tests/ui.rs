use slack_zc::config::Config;
use slack_zc::input::{mode_from_lowered, InputMode, InputState};
use slack_zc::keybinds::{Keybinds, HELP_TEXT};
use slack_zc::layout::{DragTarget, LayoutState, Panel, PanelType, Rect};
use slack_zc::menu::{ContextMenu, ContextMenuAction, EditState, MessageFilter};
use slack_zc::onboarding::{
    Field, OAuthFlowState, OAuthStatus, OnboardingScreen, OnboardingState, SlackSetupState,
    ZcSetupState, ZcStatus,
};

fn typed(text: &str) -> InputState {
    let mut input = InputState::new();
    for c in text.chars() {
        input.handle_char(c);
    }
    input
}

#[test]
fn input_mode_follows_the_text() {
    assert_eq!(InputState::new().mode, InputMode::Normal);
    assert_eq!(typed("/resume").mode, InputMode::AgentCommand);
    assert_eq!(typed("@ZeroClaw hi").mode, InputMode::AgentMention);
    assert_eq!(typed("@zc").mode, InputMode::AgentMention);
    assert_eq!(typed("@").mode, InputMode::Normal);
    assert_eq!(typed("@z").mode, InputMode::Normal);
    assert_eq!(typed("hello /x").mode, InputMode::Normal);
    assert_eq!(InputState::default().buffer, "");
}

#[test]
fn input_backspace_and_clear() {
    let mut input = typed("/é");
    assert_eq!(input.buffer, "/é");
    assert_eq!(input.cursor_position, 3);
    input.handle_backspace();
    assert_eq!(input.buffer, "/");
    assert_eq!(input.cursor_position, 1);
    assert_eq!(input.mode, InputMode::AgentCommand);
    input.handle_backspace();
    assert_eq!(input.mode, InputMode::Normal);
    input.handle_backspace();
    assert_eq!(input.buffer, "");
    let mut input = typed("@zc x");
    input.clear();
    assert_eq!((input.buffer.as_str(), input.cursor_position, input.mode), ("", 0, InputMode::Normal));
    let mut input = InputState { buffer: "/x".to_string(), mode: InputMode::Normal, cursor_position: 0 };
    input.update_mode();
    assert_eq!(input.mode, InputMode::AgentCommand);
}

#[test]
fn help_text_lists_the_shortcuts() {
    let text = Keybinds::default().help_text();
    assert_eq!(text, HELP_TEXT);
    assert!(text.starts_with("Keyboard Shortcuts:\n\nFocus (Tab to cycle):\n"));
    assert!(text.contains("  Ctrl+Q        Quit\n"));
    assert!(text.ends_with("  Drag          Resize panels\n"));
    assert_eq!(text.lines().count(), 41);
}

#[test]
fn onboarding_screens_go_forward_and_back() {
    let mut state = OnboardingState::new();
    let order = [
        OnboardingScreen::Welcome,
        OnboardingScreen::SlackCredentials,
        OnboardingScreen::OAuthFlow,
        OnboardingScreen::ZeroClawCheck,
        OnboardingScreen::ZeroClawPairing,
        OnboardingScreen::Complete,
    ];
    for screen in order {
        assert_eq!(state.current_screen, screen);
        state.next_screen();
    }
    assert_eq!(state.current_screen, OnboardingScreen::Complete);
    for screen in order.iter().rev() {
        assert_eq!(state.current_screen, *screen);
        state.previous_screen();
    }
    assert_eq!(state.current_screen, OnboardingScreen::Welcome);
    assert_eq!(OnboardingState::default().selected_field, 0);
}

#[test]
fn onboarding_fields_and_oauth_url() {
    let mut state = OnboardingState::new();
    state.current_field_value().push_str("client");
    state.toggle_field();
    assert_eq!(state.selected_field, 1);
    state.current_field_value().push_str("secret");
    state.toggle_field();
    assert_eq!(state.selected_field, 0);
    assert_eq!((state.client_id.as_str(), state.client_secret.as_str()), ("client", "secret"));
    let url = state.generate_oauth_url(3000);
    assert_eq!(
        url,
        "https://slack.com/oauth/v2/authorize?client_id=client&scope=channels:read,channels:history,channels:write,groups:read,groups:history,groups:write,im:read,im:history,im:write,mpim:read,mpim:history,mpim:write,chat:write,users:read,reactions:read,connections:write&redirect_uri=http://localhost:3000"
    );
    assert_eq!(state.oauth_url.as_deref(), Some(url.as_str()));
}

#[test]
fn setup_states_start_with_their_defaults() {
    let oauth = OAuthFlowState::default();
    assert_eq!(oauth.status, OAuthStatus::WaitingForBrowser);
    assert!(oauth.auth_url.is_empty() && oauth.code.is_none() && oauth.error.is_none());
    let slack = SlackSetupState::default();
    assert_eq!(slack.selected_field, Field::ClientId);
    assert!(slack.client_id.is_empty() && slack.client_secret.is_empty());
    let zc = ZcSetupState::default();
    assert_eq!(zc.status, ZcStatus::CheckingBinary);
    assert_eq!(zc.provider, "openrouter");
    assert!(zc.api_key.is_empty() && zc.pairing_code.is_none() && zc.error.is_none());
    let filter = MessageFilter::default();
    assert!(filter.user_id.is_none() && filter.show_threads);
    let _edit = EditState { channel_id: String::new(), ts: String::new(), original_text: String::new() };
}

#[test]
fn config_defaults() {
    let config = Config::default();
    assert_eq!(config.slack.client_id, "");
    assert_eq!(config.slack.client_secret, "");
    assert_eq!(config.slack.redirect_port, 3000);
    assert_eq!(config.zeroclaw.binary_path, "zeroclaw");
    assert_eq!(config.zeroclaw.gateway_port, 8080);
    assert!(config.zeroclaw.auto_start);
    assert_eq!(config.zeroclaw.timeout_seconds, 30);
    assert_eq!(config.llm.provider, "openrouter");
    assert_eq!(config.llm.api_key, "");
    assert_eq!(Config::load_or_default(None).zeroclaw.gateway_port, 8080);
    let mut loaded = Config::default();
    loaded.zeroclaw.gateway_port = 9999;
    assert_eq!(Config::load_or_default(Some(loaded)).zeroclaw.gateway_port, 9999);
}

#[test]
fn drag_keeps_the_widths_in_their_ranges() {
    let mut layout = LayoutState::default();
    assert_eq!((layout.sidebar_width, layout.agent_width), (20, 26));
    layout.handle_drag(DragTarget::Sidebar, 5);
    assert_eq!(layout.sidebar_width, 25);
    layout.handle_drag(DragTarget::Sidebar, 100);
    assert_eq!(layout.sidebar_width, 35);
    layout.handle_drag(DragTarget::Sidebar, i16::MIN);
    assert_eq!(layout.sidebar_width, 15);
    layout.handle_drag(DragTarget::AgentPanel, 3);
    assert_eq!(layout.agent_width, 23);
    layout.handle_drag(DragTarget::AgentPanel, i16::MIN);
    assert_eq!(layout.agent_width, 40);
    layout.handle_drag(DragTarget::AgentPanel, i16::MAX);
    assert_eq!(layout.agent_width, 20);
    assert_eq!(layout.sidebar_width, 15);
}

#[test]
fn layout_gives_the_five_panels() {
    let mut layout = LayoutState::default();
    assert!(layout.get_panels().is_empty());
    assert!(layout.get_sidebar_rect().is_none());
    layout.calculate_layout(Rect { x: 0, y: 0, width: 120, height: 40 });
    let kinds: Vec<PanelType> = layout.get_panels().iter().map(|p| p.panel_type).collect();
    assert_eq!(
        kinds,
        vec![PanelType::Topbar, PanelType::Sidebar, PanelType::Messages, PanelType::AgentPanel, PanelType::InputBar]
    );
    assert_eq!(layout.get_panels()[0].rect, Rect { x: 0, y: 0, width: 120, height: 1 });
    assert_eq!(layout.get_panels()[4].rect, Rect { x: 0, y: 37, width: 120, height: 3 });
    assert_eq!(layout.get_sidebar_rect(), Some(Rect { x: 0, y: 1, width: 20, height: 36 }));
    assert_eq!(layout.get_agent_rect(), Some(Rect { x: 94, y: 1, width: 26, height: 36 }));
    assert_eq!(layout.get_panels()[2].rect, Rect { x: 20, y: 1, width: 74, height: 36 });
}

#[test]
fn set_panels_needs_three_rows_and_columns() {
    let mut layout = LayoutState::default();
    let r = |x: u16| Rect { x, y: 0, width: 1, height: 1 };
    layout.set_panels(&vec![r(0), r(1)], &vec![r(2), r(3), r(4)]);
    assert!(layout.get_panels().is_empty());
    layout.set_panels(&vec![r(0), r(1), r(2)], &vec![r(3), r(4), r(5), r(6)]);
    let rects: Vec<u16> = layout.get_panels().iter().map(|p| p.rect.x).collect();
    assert_eq!(rects, vec![0, 3, 4, 5, 2]);
    let _panel = Panel { panel_type: PanelType::Topbar, rect: r(0) };
}

#[test]
fn context_menu_selection() {
    let mut menu = ContextMenu::for_message(3, 4);
    assert_eq!((menu.x, menu.y, menu.selected), (3, 4, 0));
    let labels: Vec<&str> = menu.items.iter().map(|i| i.label.as_str()).collect();
    assert_eq!(labels, vec!["Reply", "React", "Edit", "Delete", "Copy", "View Thread"]);
    assert_eq!(menu.selected_action(), Some(ContextMenuAction::Reply));
    menu.select_previous();
    assert_eq!(menu.selected, 0);
    for _ in 0..9 {
        menu.select_next();
    }
    assert_eq!(menu.selected, 5);
    assert_eq!(menu.selected_action(), Some(ContextMenuAction::ViewThread));
    menu.select_previous();
    assert_eq!(menu.selected_action(), Some(ContextMenuAction::Copy));
    menu.selected = 10;
    assert_eq!(menu.selected_action(), None);
}

#[test]
fn layout_panels_reach_across_the_area() {
    let mut layout = LayoutState::default();
    let area = Rect { x: 3, y: 2, width: 100, height: 30 };
    layout.calculate_layout(area);
    let panels = layout.get_panels().clone();
    assert_eq!(panels.len(), 5);
    assert_eq!(panels[0].rect, Rect { x: 3, y: 2, width: 100, height: 1 });
    assert_eq!(panels[4].rect, Rect { x: 3, y: 29, width: 100, height: 3 });
    assert_eq!(panels[1].rect, Rect { x: 3, y: 3, width: 20, height: 26 });
    assert_eq!(panels[2].rect, Rect { x: 23, y: 3, width: 54, height: 26 });
    assert_eq!(panels[3].rect, Rect { x: 77, y: 3, width: 26, height: 26 });
    assert_eq!(layout.sidebar_width, 20);
    assert_eq!(layout.agent_width, 26);
}

#[test]
fn layout_of_a_small_area_still_has_five_panels() {
    let areas = [
        Rect { x: 0, y: 0, width: 0, height: 0 },
        Rect { x: 5, y: 7, width: 10, height: 2 },
        Rect { x: 65000, y: 65000, width: 535, height: 535 },
    ];
    for area in areas {
        let mut layout = LayoutState::default();
        layout.calculate_layout(area);
        let panels = layout.get_panels().clone();
        assert_eq!(panels.len(), 5);
        for i in [0usize, 4] {
            assert_eq!(panels[i].rect.x, area.x);
            assert_eq!(panels[i].rect.width, area.width);
        }
        for i in [1usize, 2, 3] {
            assert_eq!(panels[i].rect.y, panels[1].rect.y);
            assert_eq!(panels[i].rect.height, panels[1].rect.height);
        }
        assert_eq!(layout.get_sidebar_rect(), Some(panels[1].rect));
        assert_eq!(layout.get_agent_rect(), Some(panels[3].rect));
    }
}

#[test]
fn mode_is_chosen_by_the_lowered_text() {
    assert_eq!(mode_from_lowered("", ""), InputMode::Normal);
    assert_eq!(mode_from_lowered("/Resume", "/resume"), InputMode::AgentCommand);
    assert_eq!(mode_from_lowered("@ZeroClaw hi", "@zeroclaw hi"), InputMode::AgentMention);
    assert_eq!(mode_from_lowered("@ZC", "@zc"), InputMode::AgentMention);
    assert_eq!(mode_from_lowered("@ZC", "@ZC"), InputMode::Normal);
    assert_eq!(mode_from_lowered("hello @zc", "hello @zc"), InputMode::Normal);
    let mut input = InputState::new();
    for c in "@ZC".chars() {
        input.handle_char(c);
    }
    assert_eq!(input.mode, InputMode::AgentMention);
}
