//! What the keys do, mode by mode.
//!
//! The client is modal: the help screen, the details of the last failure,
//! the wizard, the workspace picker, the channel search and the jump to a
//! time each take the keys while they are open, in this order; else the
//! keys go to the main screen.

use crate::actions::StartRequest;
use crate::api::{endpoint_url, param_views, ApiRequest, HttpMethod};
use crate::auth::exchange_oauth_code_request;
use crate::menu::{ContextMenu, ContextMenuAction, ContextMenuItem, MessageFilter};
use crate::onboarding::{oauth_url, OnboardingScreen, OnboardingState};
use crate::runner::AgentStatus;
use crate::state::{AgentPanel, App, ErrorState, Focus};
use crate::tasks::{opt_task, task_views, Task};
use crate::text::{
    chars_of, decimal_string, decimal_text, join2, opt_text, slice_chars, starts_with, string_of,
};
use crate::types::message_views;
use vstd::prelude::*;

verus! {

/// A key of the keyboard.
#[derive(Clone, Copy, Debug, PartialEq, Eq)]
pub enum KeyCode {
    Char(char),
    Enter,
    Esc,
    Tab,
    Backspace,
    Up,
    Down,
    /// Any other key.
    Other,
}

/// A key press with its modifiers.
#[derive(Clone, Copy, Debug, PartialEq, Eq)]
pub struct KeyEvent {
    pub code: KeyCode,
    pub ctrl: bool,
    pub alt: bool,
}

/// What the presentation loop has to do after a key or the mouse.
#[derive(Debug)]
pub enum Command {
    /// Leave the client.
    Quit,
    /// Start this background task.
    Run(Task),
    /// Start these background tasks.
    RunAll(Vec<Task>),
    /// Start the agent and pair with it.
    StartPairing(StartRequest),
    /// Exchange the OAuth code with this request.
    ExchangeOauth(ApiRequest),
    /// Put this text on the clipboard.
    Copy(String),
    /// Store the session.
    StoreSession,
}

/// How many characters of a message go to the clipboard.
pub const CLIPBOARD_LIMIT: usize = 16_384;

/// The pattern of the time of day of a message.
pub const CLOCK_PATTERN: &'static str = "%H:%M";

/// The pattern of the day of a message.
pub const DATE_PATTERN: &'static str = "%Y-%m-%d";

/// What `chrono` prints for the instant `secs` seconds after the epoch, in
/// universal time, with the pattern `pattern`; `None` where the calendar
/// does not hold the instant.
pub uninterp spec fn formatted_time(secs: i64, pattern: Seq<char>) -> Option<Seq<char>>;

/// Prints the instant `secs` seconds after the epoch with
/// `chrono::DateTime::format`. The result depends on the instant and the
/// pattern alone; the contract names it. The pattern is one of the two
/// that the client uses, which `chrono` accepts.
#[verifier::external_body]
fn format_time(secs: i64, pattern: &str) -> (r: Option<String>)
    requires
        pattern@ == CLOCK_PATTERN@ || pattern@ == DATE_PATTERN@,
    ensures
        opt_text(r) == formatted_time(secs, pattern@),
{
    chrono::DateTime::from_timestamp(secs, 0).map(|t| t.format(pattern).to_string())
}

/// The time of day of the instant `secs`, as hours and minutes.
pub fn clock_text(secs: i64) -> (r: Option<String>)
    ensures
        opt_text(r) == formatted_time(secs, CLOCK_PATTERN@),
{
    format_time(secs, CLOCK_PATTERN)
}

/// The day of the instant `secs`, as year, month and day.
pub fn date_text(secs: i64) -> (r: Option<String>)
    ensures
        opt_text(r) == formatted_time(secs, DATE_PATTERN@),
{
    format_time(secs, DATE_PATTERN)
}

/// The task that a command runs, if it runs one.
pub open spec fn task_in(r: Option<Command>) -> Option<Task> {
    match r {
        Some(Command::Run(task)) => Some(task),
        _ => None,
    }
}

/// The command is none, or runs one task.
pub open spec fn runs_at_most(r: Option<Command>) -> bool {
    r is None || r->0 is Run
}

/// The command that runs `task`, if there is one.
pub fn run(task: Option<Task>) -> (r: Option<Command>)
    ensures
        runs_at_most(r),
        task_in(r) == task,
{
    match task {
        Some(task) => Some(Command::Run(task)),
        None => None,
    }
}

/// One less, but not below zero.
pub open spec fn stepped_down(n: usize) -> usize {
    if n > 0 {
        (n - 1) as usize
    } else {
        0
    }
}

/// One more, but not beyond the largest number.
pub open spec fn stepped_up(n: usize) -> usize {
    if n < usize::MAX {
        (n + 1) as usize
    } else {
        n
    }
}

/// The first `limit` characters of `text`; all of it where it is shorter.
pub open spec fn clipped(text: Seq<char>, limit: int) -> Seq<char> {
    if text.len() > limit {
        text.take(limit)
    } else {
        text
    }
}

/// The time matches what was typed for a jump: it is the time of day or
/// the day of the message, or the timestamp id starts with it.
pub open spec fn matches_jump(ts: Seq<char>, secs: i64, target: Seq<char>) -> bool {
    ||| formatted_time(secs, CLOCK_PATTERN@) == Some(target)
    ||| formatted_time(secs, DATE_PATTERN@) == Some(target)
    ||| starts_with(ts, target)
}

/// The index at or after `from` of the first message that matches the
/// target of a jump.
pub open spec fn jump_index(messages: Seq<crate::types::MessageView>, target: Seq<char>, from: int)
    -> Option<int>
    decreases messages.len() - from,
{
    if from < 0 || from >= messages.len() {
        None
    } else if matches_jump(messages[from].ts, messages[from].timestamp, target) {
        Some(from)
    } else {
        jump_index(messages, target, from + 1)
    }
}

/// The text without its last character, if it has one.
pub open spec fn without_last(text: Seq<char>) -> Seq<char> {
    if text.len() > 0 {
        text.drop_last()
    } else {
        text
    }
}

/// The request exchanges the OAuth code `code` of the client `client_id`
/// with the secret `client_secret`, with the redirect to `redirect`.
pub open spec fn is_oauth_exchange(
    request: ApiRequest,
    client_id: Seq<char>,
    client_secret: Seq<char>,
    code: Seq<char>,
    redirect: Seq<char>,
) -> bool {
    &&& request.method == HttpMethod::Post
    &&& request.url@ == endpoint_url("oauth.v2.access"@)
    &&& request.bearer is None
    &&& request.query@.len() == 0
    &&& request.body is Form
    &&& param_views(request.body->Form_0@) == seq![
        ("client_id"@, client_id),
        ("client_secret"@, client_secret),
        ("code"@, code),
        ("redirect_uri"@, redirect),
    ]
}

/// An entry of the reaction picker.
fn reaction_item(label: &str) -> (r: ContextMenuItem)
    ensures
        r.action == ContextMenuAction::React,
        r.label@ == label@,
{
    ContextMenuItem { label: label.to_owned(), action: ContextMenuAction::React }
}

/// The labels of the reaction picker, in the order of its entries.
pub open spec fn reaction_labels() -> Seq<Seq<char>> {
    seq![
        "\u{1F44D} +1"@,
        "\u{2764}\u{FE0F} heart"@,
        "\u{1F604} laugh"@,
        "\u{1F62E} wow"@,
        "\u{1F622} sad"@,
        "\u{1F621} angry"@,
    ]
}

/// The menu is the reaction picker: six reactions with their labels, the
/// first of them marked.
pub open spec fn is_reaction_menu(menu: ContextMenu) -> bool {
    &&& menu.x == 10
    &&& menu.y == 10
    &&& menu.selected == 0
    &&& menu.items@.len() == 6
    &&& forall|i: int|
        0 <= i < 6 ==> (#[trigger] menu.items@[i]).action == ContextMenuAction::React
            && menu.items@[i].label@ == reaction_labels()[i]
}

impl App {
    /// The key leaves the client.
    pub open spec fn is_quit(key: KeyEvent) -> bool {
        key.code == KeyCode::Char('q') && key.ctrl
    }

    /// The key opens and closes the help screen.
    pub open spec fn is_help_toggle(key: KeyEvent) -> bool {
        key.code == KeyCode::Char('?') || (key.code == KeyCode::Char('h') && key.ctrl)
    }

    /// The text that goes to the clipboard: the start of the last message
    /// of the selected channel.
    pub open spec fn clipboard_text(self) -> Option<Seq<char>> {
        match self.last_message() {
            Some(m) => Some(clipped(m.text, CLIPBOARD_LIMIT as int)),
            None => None,
        }
    }

    /// The text that goes to the clipboard.
    pub fn copy_selected_message(&self) -> (r: Option<Command>)
        ensures
            match r {
                Some(Command::Copy(text)) => self.clipboard_text() == Some(text@),
                Some(_) => false,
                None => self.clipboard_text() is None,
            },
    {
        match self.get_last_message() {
            Some(m) => {
                let chars = chars_of(m.text.as_str());
                if chars.len() > CLIPBOARD_LIMIT {
                    let head = slice_chars(&chars, 0, CLIPBOARD_LIMIT);
                    assert(head@ =~= chars@.take(CLIPBOARD_LIMIT as int));
                    Some(Command::Copy(string_of(&head)))
                } else {
                    Some(Command::Copy(m.text.clone()))
                }
            },
            None => None,
        }
    }

    /// `after` is `self` after a key in the workspace picker: Escape
    /// closes it, the arrows and `k` and `j` move the mark, Enter switches
    /// to the marked workspace and closes the picker.
    pub open spec fn picker_key_result(self, key: KeyEvent, after: App, r: Option<Command>)
        -> bool {
        let code = key.code;
        if code == KeyCode::Esc {
            after == (App { show_workspace_picker: false, ..self }) && r is None
        } else if code == KeyCode::Up || code == KeyCode::Char('k') {
            after == (App { active_workspace: stepped_down(self.active_workspace), ..self }) && r
                is None
        } else if code == KeyCode::Down || code == KeyCode::Char('j') {
            after == (App {
                active_workspace: if self.active_workspace + 1 < self.workspaces@.len() {
                    (self.active_workspace + 1) as usize
                } else {
                    self.active_workspace
                },
                ..self
            }) && r is None
        } else if code == KeyCode::Enter {
            !after.show_workspace_picker && self.switched_to(
                self.active_workspace,
                App { show_workspace_picker: self.show_workspace_picker, ..after },
                r is Some,
            ) && (r is Some ==> r->0 is StoreSession)
        } else {
            after == self && r is None
        }
    }

    /// Takes a key in the workspace picker.
    pub fn picker_key(&mut self, key: KeyEvent) -> (r: Option<Command>)
        ensures
            old(self).picker_key_result(key, *final(self), r),
    {
        match key.code {
            KeyCode::Esc => {
                self.show_workspace_picker = false;
                None
            },
            KeyCode::Up | KeyCode::Char('k') => {
                if self.active_workspace > 0 {
                    self.active_workspace -= 1;
                }
                None
            },
            KeyCode::Down | KeyCode::Char('j') => {
                if self.workspaces.len() > 0 && self.active_workspace < self.workspaces.len() - 1 {
                    self.active_workspace += 1;
                }
                None
            },
            KeyCode::Enter => {
                let store = self.switch_workspace(self.active_workspace);
                self.show_workspace_picker = false;
                if store {
                    Some(Command::StoreSession)
                } else {
                    None
                }
            },
            _ => None,
        }
    }

    /// `after` is `self` after a key in the channel search: Escape and
    /// Enter close it, a character is added to the query, Backspace takes
    /// the last one off.
    pub open spec fn search_key_result(self, key: KeyEvent, after: App) -> bool {
        match key.code {
            KeyCode::Esc => after == (App { show_channel_search: false, ..self }),
            KeyCode::Enter => after == (App { show_channel_search: false, ..self }),
            KeyCode::Char(c) => after == (App { search_query: after.search_query, ..self })
                && after.search_query@ == self.search_query@.push(c),
            KeyCode::Backspace => after == (App { search_query: after.search_query, ..self })
                && after.search_query@ == if self.search_query@.len() > 0 {
                self.search_query@.drop_last()
            } else {
                self.search_query@
            },
            _ => after == self,
        }
    }

    /// Takes a key in the channel search.
    pub fn search_key(&mut self, key: KeyEvent)
        ensures
            old(self).search_key_result(key, *final(self)),
    {
        match key.code {
            KeyCode::Esc => {
                self.show_channel_search = false;
            },
            KeyCode::Enter => {
                self.show_channel_search = false;
            },
            KeyCode::Char(c) => {
                self.search_query.push(c);
            },
            KeyCode::Backspace => {
                let _ = self.search_query.pop();
            },
            _ => {},
        }
    }

    /// The line that a jump to `target` scrolls to: five lines above the
    /// first message of the selected channel that matches, and the top
    /// where fewer are above it. `None` where no message matches.
    pub open spec fn jump_offset(self, target: Seq<char>) -> Option<usize> {
        match self.active_channel() {
            Some(id) => match jump_index(self.chat@.messages_in(id), target, 0) {
                Some(i) => Some(
                    if i >= 5 {
                        (i - 5) as usize
                    } else {
                        0
                    },
                ),
                None => None,
            },
            None => None,
        }
    }

    /// The line that a jump to what was typed scrolls to.
    pub fn find_jump_offset(&self) -> (r: Option<usize>)
        ensures
            r == self.jump_offset(self.jump_to_time_buffer@),
    {
        let id = match self.get_active_channel_id() {
            Some(id) => id,
            None => {
                return None;
            },
        };
        let queue = match self.chat.messages.get(id.as_str()) {
            Some(queue) => queue,
            None => {
                return None;
            },
        };
        let target = chars_of(self.jump_to_time_buffer.as_str());
        let ghost all = message_views(queue@);
        let mut i: usize = 0;
        while i < queue.len()
            invariant
                i <= queue.len(),
                all == message_views(queue@),
                self.active_channel() == Some(id@),
                self.chat@.messages_in(id@) == all,
                target@ == self.jump_to_time_buffer@,
                jump_index(all, target@, 0) == jump_index(all, target@, i as int),
            decreases queue.len() - i,
        {
            let m = &queue[i];
            assert(all[i as int] == m@);
            let same_clock = match clock_text(m.timestamp) {
                Some(text) => text == self.jump_to_time_buffer,
                None => false,
            };
            let same_date = match date_text(m.timestamp) {
                Some(text) => text == self.jump_to_time_buffer,
                None => false,
            };
            let ts = chars_of(m.ts.as_str());
            if same_clock || same_date || crate::text::occurs_at(&ts, &target, 0) {
                return Some(
                    if i >= 5 {
                        i - 5
                    } else {
                        0
                    },
                );
            }
            i += 1;
        }
        None
    }

    /// Scrolls to the first message of the selected channel that matches
    /// what was typed for the jump.
    pub fn jump_to_timestamp(&mut self)
        ensures
            *final(self) == (App {
                scroll_offset: match old(self).jump_offset(old(self).jump_to_time_buffer@) {
                    Some(line) => line,
                    None => old(self).scroll_offset,
                },
                ..*old(self)
            }),
    {
        match self.find_jump_offset() {
            Some(line) => {
                self.scroll_offset = line;
            },
            None => {},
        }
    }

    /// `after` is `self` after a key in the jump to a time: Escape closes
    /// it, Enter jumps and closes it, and both empty what was typed; a
    /// character is added to what was typed, Backspace takes the last one
    /// off.
    pub open spec fn jump_key_result(self, key: KeyEvent, after: App) -> bool {
        match key.code {
            KeyCode::Esc => after == (App {
                show_jump_to_time: false,
                jump_to_time_buffer: after.jump_to_time_buffer,
                ..self
            }) && after.jump_to_time_buffer@.len() == 0,
            KeyCode::Enter => after == (App {
                show_jump_to_time: false,
                jump_to_time_buffer: after.jump_to_time_buffer,
                scroll_offset: match self.jump_offset(self.jump_to_time_buffer@) {
                    Some(line) => line,
                    None => self.scroll_offset,
                },
                ..self
            }) && after.jump_to_time_buffer@.len() == 0,
            KeyCode::Backspace => after == (App {
                jump_to_time_buffer: after.jump_to_time_buffer,
                ..self
            }) && after.jump_to_time_buffer@ == if self.jump_to_time_buffer@.len() > 0 {
                self.jump_to_time_buffer@.drop_last()
            } else {
                self.jump_to_time_buffer@
            },
            KeyCode::Char(c) => after == (App {
                jump_to_time_buffer: after.jump_to_time_buffer,
                ..self
            }) && after.jump_to_time_buffer@ == self.jump_to_time_buffer@.push(c),
            _ => after == self,
        }
    }

    /// Takes a key in the jump to a time.
    pub fn jump_key(&mut self, key: KeyEvent)
        ensures
            old(self).jump_key_result(key, *final(self)),
    {
        match key.code {
            KeyCode::Esc => {
                self.show_jump_to_time = false;
                self.jump_to_time_buffer.clear();
            },
            KeyCode::Enter => {
                self.jump_to_timestamp();
                self.show_jump_to_time = false;
                self.jump_to_time_buffer.clear();
            },
            KeyCode::Backspace => {
                let _ = self.jump_to_time_buffer.pop();
            },
            KeyCode::Char(c) => {
                self.jump_to_time_buffer.push(c);
            },
            _ => {},
        }
    }

    /// Opens the picker of reactions: a menu of six reactions with the
    /// first one marked.
    pub fn show_reaction_picker(&mut self)
        ensures
            *final(self) == (App { context_menu: final(self).context_menu, ..*old(self) }),
            final(self).context_menu is Some,
            is_reaction_menu(final(self).context_menu->0),
    {
        let mut items: Vec<ContextMenuItem> = Vec::new();
        items.push(reaction_item("\u{1F44D} +1"));
        items.push(reaction_item("\u{2764}\u{FE0F} heart"));
        items.push(reaction_item("\u{1F604} laugh"));
        items.push(reaction_item("\u{1F62E} wow"));
        items.push(reaction_item("\u{1F622} sad"));
        items.push(reaction_item("\u{1F621} angry"));
        self.context_menu = Some(ContextMenu { x: 10, y: 10, items, selected: 0 });
    }

    /// `after` is `self` after the marked entry of the context menu was
    /// chosen: the menu is closed, and the entry's action is done on the
    /// last message of the selected channel. Without a menu nothing
    /// happens.
    pub open spec fn menu_action_result(self, after: App, r: Option<Command>) -> bool {
        match self.context_menu {
            None => after == self && r is None,
            Some(menu) => {
                let closed = App { context_menu: None, ..self };
                if menu.selected >= menu.items@.len() {
                    after == closed && r is None
                } else {
                    match menu.items@[menu.selected as int].action {
                        ContextMenuAction::Reply => r is None && match (
                            self.active_channel(),
                            self.last_message(),
                        ) {
                            (Some(channel), Some(m)) => after == (App {
                                chat: after.chat,
                                ..closed
                            }) && after.chat@ == self.chat@.with_active_thread(channel, m.ts),
                            _ => after == closed,
                        },
                        ContextMenuAction::Edit => r is None && closed.edit_started(after),
                        ContextMenuAction::Delete => after == closed && runs_at_most(r)
                            && opt_task(task_in(r)) == self.delete_task(),
                        ContextMenuAction::Copy => after == closed && match r {
                            Some(Command::Copy(text)) => self.clipboard_text() == Some(text@),
                            Some(_) => false,
                            None => self.clipboard_text() is None,
                        },
                        ContextMenuAction::ViewThread => after == closed && match (
                            self.active_channel(),
                            r,
                        ) {
                            (Some(channel), Some(Command::RunAll(tasks))) => task_views(tasks@)
                                == self.thread_tasks(channel),
                            (None, None) => true,
                            _ => false,
                        },
                        ContextMenuAction::React => after == closed && runs_at_most(r)
                            && opt_task(task_in(r)) == self.reaction_task("+1"@),
                    }
                }
            },
        }
    }

    /// Does the action of the marked entry of the context menu.
    pub fn handle_context_menu_action(&mut self) -> (r: Option<Command>)
        ensures
            old(self).menu_action_result(*final(self), r),
    {
        let action = match &self.context_menu {
            None => {
                return None;
            },
            Some(menu) => menu.selected_action(),
        };
        self.context_menu = None;
        match action {
            None => None,
            Some(ContextMenuAction::Reply) => {
                let target = match (self.get_active_channel_id(), self.get_last_message()) {
                    (Some(channel), Some(m)) => Some((channel, m.ts.clone())),
                    _ => None,
                };
                match target {
                    Some((channel, ts)) => {
                        self.chat.set_active_thread(channel, ts);
                    },
                    None => {},
                }
                None
            },
            Some(ContextMenuAction::Edit) => {
                self.start_edit_message();
                None
            },
            Some(ContextMenuAction::Delete) => run(self.delete_selected_message()),
            Some(ContextMenuAction::Copy) => self.copy_selected_message(),
            Some(ContextMenuAction::ViewThread) => match self.get_active_channel_id() {
                Some(channel) => Some(Command::RunAll(self.load_thread(channel.as_str()))),
                None => None,
            },
            Some(ContextMenuAction::React) => run(self.add_reaction_to_message("+1")),
        }
    }

    /// `after` is `self` after an arrow key on the main screen: with the
    /// context menu open the mark of the menu moves; else in the sidebar
    /// the cursor moves over the channels; else the messages scroll.
    pub open spec fn arrow_result(self, up: bool, after: App) -> bool {
        match self.context_menu {
            Some(menu) => after == (App {
                context_menu: Some(
                    ContextMenu {
                        selected: if up {
                            stepped_down(menu.selected)
                        } else if menu.selected + 1 < menu.items@.len() {
                            (menu.selected + 1) as usize
                        } else {
                            menu.selected
                        },
                        ..menu
                    },
                ),
                ..self
            }),
            None => if self.focus == Focus::Sidebar {
                after == (App {
                    sidebar_cursor: if up {
                        stepped_down(self.sidebar_cursor)
                    } else if self.sidebar_cursor + 1 < self.channels@.len() {
                        (self.sidebar_cursor + 1) as usize
                    } else {
                        self.sidebar_cursor
                    },
                    ..self
                })
            } else {
                after == (App {
                    scroll_offset: if up {
                        stepped_down(self.scroll_offset)
                    } else {
                        stepped_up(self.scroll_offset)
                    },
                    ..self
                })
            },
        }
    }

    /// Takes an arrow key on the main screen.
    pub fn arrow_key(&mut self, up: bool)
        ensures
            old(self).arrow_result(up, *final(self)),
    {
        match &mut self.context_menu {
            Some(menu) => {
                if up {
                    menu.select_previous();
                } else {
                    menu.select_next();
                }
            },
            None => {
                match self.focus {
                    Focus::Sidebar => {
                        if up {
                            if self.sidebar_cursor > 0 {
                                self.sidebar_cursor -= 1;
                            }
                        } else if self.channels.len() > 0 && self.sidebar_cursor
                            < self.channels.len() - 1 {
                            self.sidebar_cursor += 1;
                        }
                    },
                    _ => {
                        if up {
                            if self.scroll_offset > 0 {
                                self.scroll_offset -= 1;
                            }
                        } else if self.scroll_offset < usize::MAX {
                            self.scroll_offset += 1;
                        }
                    },
                }
            },
        }
    }

    /// The channel that an arrow key with Alt switches to: the one before
    /// or after the selected channel, and the first where none is
    /// selected and the switch goes down.
    pub open spec fn neighbour_channel(self, up: bool) -> Option<usize> {
        match self.selected_channel {
            Some(i) => if up {
                if i > 0 {
                    Some((i - 1) as usize)
                } else {
                    None
                }
            } else if i + 1 < self.channels@.len() {
                Some((i + 1) as usize)
            } else {
                None
            },
            None => if !up && self.channels@.len() > 0 {
                Some(0)
            } else {
                None
            },
        }
    }

    /// `after` is `self` after an arrow key with Alt: the neighbour of the
    /// selected channel is selected, where it has one.
    pub open spec fn switch_result(self, up: bool, after: App, r: Option<Command>) -> bool {
        match self.neighbour_channel(up) {
            Some(idx) => runs_at_most(r) && self.channel_selected(idx, after, task_in(r)),
            None => after == self && r is None,
        }
    }

    /// Takes an arrow key with Alt.
    pub fn switch_channel(&mut self, up: bool) -> (r: Option<Command>)
        ensures
            old(self).switch_result(up, *final(self), r),
    {
        let target = match self.selected_channel {
            Some(i) => if up {
                if i > 0 {
                    Some(i - 1)
                } else {
                    None
                }
            } else if self.channels.len() > 0 && i < self.channels.len() - 1 {
                Some(i + 1)
            } else {
                None
            },
            None => if !up && self.channels.len() > 0 {
                Some(0)
            } else {
                None
            },
        };
        match target {
            Some(idx) => run(self.select_channel(idx)),
            None => None,
        }
    }

    /// `after` is `self` after Enter on the main screen: the marked entry
    /// of an open context menu is chosen; else an edit is ended; else the
    /// sidebar opens the channel under the cursor, and the input line is
    /// sent and hands the keys back to the sidebar.
    pub open spec fn enter_result(self, after: App, r: Option<Command>) -> bool {
        if self.context_menu is Some {
            self.menu_action_result(after, r)
        } else if self.edit_message is Some {
            runs_at_most(r) && self.edit_saved(after, task_in(r))
        } else {
            match self.focus {
                Focus::Sidebar => runs_at_most(r) && self.channel_selected(
                    self.sidebar_cursor,
                    after,
                    task_in(r),
                ),
                Focus::Messages => after == self && r is None,
                Focus::Input => runs_at_most(r) && after.focus == Focus::Sidebar
                    && self.input_submitted(App { focus: self.focus, ..after }, task_in(r)),
            }
        }
    }

    /// Takes Enter on the main screen.
    pub fn enter_key(&mut self) -> (r: Option<Command>)
        ensures
            old(self).enter_result(*final(self), r),
    {
        if self.context_menu.is_some() {
            self.handle_context_menu_action()
        } else if self.edit_message.is_some() {
            run(self.save_edited_message())
        } else {
            match self.focus {
                Focus::Sidebar => run(self.select_channel(self.sidebar_cursor)),
                Focus::Messages => None,
                Focus::Input => {
                    let r = run(self.handle_input_submit());
                    self.focus = Focus::Sidebar;
                    r
                },
            }
        }
    }

    /// `after` is `self` after Escape on the main screen: an open context
    /// menu is closed; else an edit is dropped; else the input line is
    /// emptied and the keys go back to the sidebar.
    pub open spec fn escape_result(self, after: App) -> bool {
        if self.context_menu is Some {
            after == (App { context_menu: None, ..self })
        } else if self.edit_message is Some {
            after == (App { edit_message: None, ..self })
        } else {
            after == (App { input: after.input, focus: Focus::Sidebar, ..self })
                && after.input.is_cleared()
        }
    }

    /// Takes Escape on the main screen.
    pub fn escape_key(&mut self)
        ensures
            old(self).escape_result(*final(self)),
    {
        if self.context_menu.is_some() {
            self.context_menu = None;
        } else if self.edit_message.is_some() {
            self.edit_message = None;
        } else {
            self.input.clear();
            self.focus = Focus::Sidebar;
        }
    }

    /// `after` is `self` with the filter by author switched: on, it shows
    /// the author of the last message of the selected channel; off, it
    /// shows every author.
    pub open spec fn filter_toggled(self, after: App) -> bool {
        after == (App {
            show_user_filter: !self.show_user_filter,
            message_filter: MessageFilter {
                user_id: after.message_filter.user_id,
                ..self.message_filter
            },
            ..self
        }) && opt_text(after.message_filter.user_id) == if self.show_user_filter {
            None
        } else {
            match self.last_message() {
                Some(m) => Some(m.user_id),
                None => opt_text(self.message_filter.user_id),
            }
        }
    }

    /// Switches the filter by author.
    pub fn toggle_user_filter(&mut self)
        ensures
            old(self).filter_toggled(*final(self)),
    {
        self.show_user_filter = !self.show_user_filter;
        if self.show_user_filter {
            let author = match self.get_last_message() {
                Some(m) => Some(m.user_id.clone()),
                None => None,
            };
            match author {
                Some(author) => {
                    self.message_filter.user_id = Some(author);
                },
                None => {},
            }
        } else {
            self.message_filter.user_id = None;
        }
    }

    /// `after` is `self` after the character `c` as a shortcut: `t`
    /// toggles the threads of the selected channel, `e` begins an edit,
    /// `d` deletes the last message, `D` loads more history, `r` opens
    /// the reactions, `g` opens the jump to a time, `f` switches the
    /// filter by author, `E` shows and hides the details of the last
    /// failure.
    pub open spec fn shortcut_result(self, c: char, after: App, r: Option<Command>) -> bool {
        if c == 't' {
            r is None && match self.active_channel() {
                Some(channel) => after == (App { chat: after.chat, ..self }) && after.chat@
                    == self.chat@.with_toggled_threads(channel),
                None => after == self,
            }
        } else if c == 'e' {
            r is None && self.edit_started(after)
        } else if c == 'd' {
            after == self && runs_at_most(r) && opt_task(task_in(r)) == self.delete_task()
        } else if c == 'D' {
            after == self && runs_at_most(r) && opt_task(task_in(r)) == self.long_history_task()
        } else if c == 'r' {
            r is None && after == (App { context_menu: after.context_menu, ..self })
                && after.context_menu is Some && is_reaction_menu(after.context_menu->0)
        } else if c == 'g' {
            r is None && after == (App {
                show_jump_to_time: true,
                jump_to_time_buffer: after.jump_to_time_buffer,
                ..self
            }) && after.jump_to_time_buffer@.len() == 0
        } else if c == 'f' {
            r is None && self.filter_toggled(after)
        } else if c == 'E' {
            r is None && after == (App {
                errors: ErrorState {
                    show_error_details: if self.errors.last_error is Some {
                        !self.errors.show_error_details
                    } else {
                        self.errors.show_error_details
                    },
                    ..self.errors
                },
                ..self
            })
        } else {
            after == self && r is None
        }
    }

    /// Takes a shortcut of the main screen.
    pub fn shortcut_key(&mut self, c: char) -> (r: Option<Command>)
        ensures
            old(self).shortcut_result(c, *final(self), r),
    {
        if c == 't' {
            match self.get_active_channel_id() {
                Some(channel) => {
                    self.chat.toggle_thread_collapse(channel.as_str());
                },
                None => {},
            }
            None
        } else if c == 'e' {
            self.start_edit_message();
            None
        } else if c == 'd' {
            run(self.delete_selected_message())
        } else if c == 'D' {
            run(self.load_history_for_date())
        } else if c == 'r' {
            self.show_reaction_picker();
            None
        } else if c == 'g' {
            self.show_jump_to_time = true;
            self.jump_to_time_buffer.clear();
            None
        } else if c == 'f' {
            self.toggle_user_filter();
            None
        } else if c == 'E' {
            if self.errors.last_error.is_some() {
                self.errors.show_error_details = !self.errors.show_error_details;
            }
            None
        } else {
            None
        }
    }

    /// `after` is `self` after the character `c` was typed into the input
    /// line: it goes to the end of the line, unless a message is being
    /// edited.
    pub open spec fn typed_result(self, c: char, after: App) -> bool {
        if self.edit_message is None {
            after == (App { input: after.input, ..self }) && after.input.buffer@
                == self.input.buffer@.push(c) && after.input.well_formed()
        } else {
            after == self
        }
    }

    /// `after` is `self` after Backspace in the input line: the last
    /// character of the line goes, unless a message is being edited.
    pub open spec fn backspace_result(self, after: App) -> bool {
        if self.edit_message is None && self.input.buffer@.len() > 0 {
            after == (App { input: after.input, ..self }) && after.input.buffer@
                == self.input.buffer@.drop_last() && after.input.well_formed()
        } else {
            after == self
        }
    }

    /// `after` is `self` after the character `c` on the main screen. With
    /// Control, `w` opens the workspace picker, `k` the channel search,
    /// and `c` copies the last message. In the input line every other
    /// character is typed. Elsewhere `i` hands the keys to the input
    /// line, `j` and `k` do what the arrows down and up do, and the
    /// shortcuts do what they stand for.
    pub open spec fn char_result(self, c: char, ctrl: bool, after: App, r: Option<Command>)
        -> bool {
        if ctrl && c == 'w' {
            after == (App { show_workspace_picker: true, ..self }) && r is None
        } else if ctrl && c == 'n' {
            after == self && r is None
        } else if ctrl && c == 'k' {
            after == (App { show_channel_search: true, ..self }) && r is None
        } else if ctrl && c == 'c' {
            after == self && match r {
                Some(Command::Copy(text)) => self.clipboard_text() == Some(text@),
                Some(_) => false,
                None => self.clipboard_text() is None,
            }
        } else if self.focus == Focus::Input {
            r is None && self.typed_result(c, after)
        } else if c == 'i' {
            after == (App { focus: Focus::Input, ..self }) && r is None
        } else if c == 'j' {
            r is None && self.arrow_result(false, after)
        } else if c == 'k' {
            r is None && self.arrow_result(true, after)
        } else {
            self.shortcut_result(c, after, r)
        }
    }

    /// Takes a character on the main screen.
    pub fn char_key(&mut self, c: char, ctrl: bool) -> (r: Option<Command>)
        ensures
            old(self).char_result(c, ctrl, *final(self), r),
    {
        if ctrl && c == 'w' {
            self.show_workspace_picker = true;
            None
        } else if ctrl && c == 'n' {
            None
        } else if ctrl && c == 'k' {
            self.show_channel_search = true;
            None
        } else if ctrl && c == 'c' {
            self.copy_selected_message()
        } else {
            match self.focus {
                Focus::Input => {
                    if self.edit_message.is_none() {
                        self.input.handle_char(c);
                    }
                    None
                },
                _ => {
                    if c == 'i' {
                        self.focus = Focus::Input;
                        None
                    } else if c == 'j' {
                        self.arrow_key(false);
                        None
                    } else if c == 'k' {
                        self.arrow_key(true);
                        None
                    } else {
                        self.shortcut_key(c)
                    }
                },
            }
        }
    }

    /// `after` is `self` after a key on the main screen. Tab hands the
    /// keys to the next part of the screen; the arrows move the cursor or
    /// scroll, and with Alt they switch the channel; Backspace works in
    /// the input line.
    pub open spec fn main_key_result(self, key: KeyEvent, after: App, r: Option<Command>) -> bool {
        match key.code {
            KeyCode::Tab => after == (App { focus: self.focus.next(), ..self }) && r is None,
            KeyCode::Up => if key.alt {
                self.switch_result(true, after, r)
            } else {
                r is None && self.arrow_result(true, after)
            },
            KeyCode::Down => if key.alt {
                self.switch_result(false, after, r)
            } else {
                r is None && self.arrow_result(false, after)
            },
            KeyCode::Enter => self.enter_result(after, r),
            KeyCode::Esc => r is None && self.escape_result(after),
            KeyCode::Backspace => r is None && if self.focus == Focus::Input {
                self.backspace_result(after)
            } else {
                after == self
            },
            KeyCode::Char(c) => self.char_result(c, key.ctrl, after, r),
            KeyCode::Other => after == self && r is None,
        }
    }

    /// Takes a key on the main screen.
    pub fn main_key(&mut self, key: KeyEvent) -> (r: Option<Command>)
        ensures
            old(self).main_key_result(key, *final(self), r),
    {
        match key.code {
            KeyCode::Tab => {
                self.focus = match self.focus {
                    Focus::Sidebar => Focus::Messages,
                    Focus::Messages => Focus::Input,
                    Focus::Input => Focus::Sidebar,
                };
                None
            },
            KeyCode::Up => {
                if key.alt {
                    self.switch_channel(true)
                } else {
                    self.arrow_key(true);
                    None
                }
            },
            KeyCode::Down => {
                if key.alt {
                    self.switch_channel(false)
                } else {
                    self.arrow_key(false);
                    None
                }
            },
            KeyCode::Enter => self.enter_key(),
            KeyCode::Esc => {
                self.escape_key();
                None
            },
            KeyCode::Backspace => {
                match self.focus {
                    Focus::Input => {
                        if self.edit_message.is_none() {
                            self.input.handle_backspace();
                        }
                    },
                    _ => {},
                }
                None
            },
            KeyCode::Char(c) => self.char_key(c, key.ctrl),
            KeyCode::Other => None,
        }
    }

    /// The address that the OAuth flow redirects to.
    pub open spec fn redirect_uri(self) -> Seq<char> {
        "http://localhost:"@ + decimal_text(self.config.slack.redirect_port as nat)
    }

    /// `after` is `self` after Enter on the wizard. On the OAuth screen
    /// the address is made where it is missing and both credentials are
    /// entered, else a code that was entered is exchanged; on the pairing
    /// screen the agent is started; the last screen closes the wizard;
    /// every other screen goes on to the next.
    pub open spec fn wizard_enter_result(self, after: App, r: Option<Command>) -> bool {
        match self.onboarding {
            None => after == self && r is None,
            Some(wizard) => match wizard.current_screen {
                OnboardingScreen::OAuthFlow => if wizard.oauth_url is None
                    && wizard.client_id@.len() > 0 && wizard.client_secret@.len() > 0 {
                    r is None && after.onboarding is Some && after == (App {
                        onboarding: Some(
                            OnboardingState {
                                oauth_url: after.onboarding->0.oauth_url,
                                ..wizard
                            },
                        ),
                        ..self
                    }) && opt_text(after.onboarding->0.oauth_url) == Some(
                        oauth_url(wizard.client_id@, self.config.slack.redirect_port),
                    )
                } else if wizard.oauth_code@.len() > 0 {
                    after.onboarding is Some && after == (App {
                        onboarding: Some(
                            OnboardingState {
                                error_message: after.onboarding->0.error_message,
                                ..wizard
                            },
                        ),
                        ..self
                    }) && opt_text(after.onboarding->0.error_message) == Some(
                        "Completing OAuth..."@,
                    ) && r is Some && r->0 is ExchangeOauth && is_oauth_exchange(
                        r->0->ExchangeOauth_0,
                        wizard.client_id@,
                        wizard.client_secret@,
                        wizard.oauth_code@,
                        self.redirect_uri(),
                    )
                } else {
                    after == self && r is None
                },
                OnboardingScreen::ZeroClawPairing => after == (App {
                    agent: AgentPanel { status: AgentStatus::Pairing, ..self.agent },
                    ..self
                }) && r is Some && r->0 is StartPairing && ({
                    let request = r->0->StartPairing_0;
                    request.binary_path@ == self.config.zeroclaw.binary_path@
                        && request.gateway_port == self.config.zeroclaw.gateway_port
                        && request.bearer is None
                }),
                OnboardingScreen::Complete => after == (App { onboarding: None, ..self }) && r
                    is None,
                screen => after == (App {
                    onboarding: Some(OnboardingState { current_screen: screen.next(), ..wizard }),
                    ..self
                }) && r is None,
            },
        }
    }

    /// Takes Enter on the wizard.
    pub fn wizard_enter(&mut self) -> (r: Option<Command>)
        ensures
            old(self).wizard_enter_result(*final(self), r),
    {
        let mut wizard = match self.onboarding.take() {
            Some(wizard) => wizard,
            None => {
                return None;
            },
        };
        match wizard.current_screen {
            OnboardingScreen::OAuthFlow => {
                if wizard.oauth_url.is_none() && !wizard.client_id.as_str().is_empty()
                    && !wizard.client_secret.as_str().is_empty() {
                    let _ = wizard.generate_oauth_url(self.config.slack.redirect_port);
                    self.onboarding = Some(wizard);
                    None
                } else if !wizard.oauth_code.as_str().is_empty() {
                    let port = decimal_string(self.config.slack.redirect_port as u64);
                    let redirect = join2("http://localhost:", port.as_str());
                    let request = exchange_oauth_code_request(
                        wizard.client_id.as_str(),
                        wizard.client_secret.as_str(),
                        wizard.oauth_code.as_str(),
                        redirect.as_str(),
                    );
                    wizard.error_message = Some("Completing OAuth...".to_owned());
                    self.onboarding = Some(wizard);
                    Some(Command::ExchangeOauth(request))
                } else {
                    self.onboarding = Some(wizard);
                    None
                }
            },
            OnboardingScreen::ZeroClawPairing => {
                self.onboarding = Some(wizard);
                Some(Command::StartPairing(self.start_zeroclaw_pairing()))
            },
            OnboardingScreen::Complete => {
                None
            },
            _ => {
                wizard.next_screen();
                self.onboarding = Some(wizard);
                None
            },
        }
    }

    /// `after` is `self` after Escape on the wizard: the first screen
    /// leaves the client, the OAuth screen forgets address and code, and
    /// the wizard goes back one screen.
    pub open spec fn wizard_escape_result(self, after: App) -> bool {
        match self.onboarding {
            None => after == self,
            Some(wizard) => after.onboarding is Some && ({
                let shown = after.onboarding->0;
                &&& after == (App {
                    should_quit: self.should_quit || wizard.current_screen
                        == OnboardingScreen::Welcome,
                    onboarding: Some(shown),
                    ..self
                })
                &&& if wizard.current_screen == OnboardingScreen::OAuthFlow {
                    shown == (OnboardingState {
                        current_screen: wizard.current_screen.previous(),
                        oauth_code: shown.oauth_code,
                        oauth_url: None,
                        ..wizard
                    }) && shown.oauth_code@.len() == 0
                } else {
                    shown == (OnboardingState {
                        current_screen: wizard.current_screen.previous(),
                        ..wizard
                    })
                }
            }),
        }
    }

    /// Takes Escape on the wizard.
    pub fn wizard_escape(&mut self)
        ensures
            old(self).wizard_escape_result(*final(self)),
    {
        let mut wizard = match self.onboarding.take() {
            Some(wizard) => wizard,
            None => {
                return ;
            },
        };
        match wizard.current_screen {
            OnboardingScreen::Welcome => {
                self.should_quit = true;
            },
            OnboardingScreen::OAuthFlow => {
                wizard.oauth_code.clear();
                wizard.oauth_url = None;
            },
            _ => {},
        }
        wizard.previous_screen();
        self.onboarding = Some(wizard);
    }

    /// `after` is `self` after the character `c` was typed on the wizard.
    /// On the credential screen it goes to the selected field; on the
    /// OAuth screen it goes to the code once the address is made. The
    /// letter `c` is kept for copying the address and is not typed.
    pub open spec fn wizard_typed_result(self, c: char, after: App) -> bool {
        match self.onboarding {
            None => after == self,
            Some(wizard) => after.onboarding is Some && ({
                let shown = after.onboarding->0;
                &&& after == (App { onboarding: Some(shown), ..self })
                &&& if c == 'c' {
                    shown == wizard
                } else if wizard.current_screen == OnboardingScreen::SlackCredentials {
                    if wizard.selected_field == 0 {
                        shown == (OnboardingState { client_id: shown.client_id, ..wizard })
                            && shown.client_id@ == wizard.client_id@.push(c)
                    } else {
                        shown == (OnboardingState {
                            client_secret: shown.client_secret,
                            ..wizard
                        }) && shown.client_secret@ == wizard.client_secret@.push(c)
                    }
                } else if wizard.current_screen == OnboardingScreen::OAuthFlow
                    && wizard.oauth_url is Some {
                    shown == (OnboardingState { oauth_code: shown.oauth_code, ..wizard })
                        && shown.oauth_code@ == wizard.oauth_code@.push(c)
                } else {
                    shown == wizard
                }
            }),
        }
    }

    /// Takes a character on the wizard.
    pub fn wizard_typed(&mut self, c: char)
        ensures
            old(self).wizard_typed_result(c, *final(self)),
    {
        let mut wizard = match self.onboarding.take() {
            Some(wizard) => wizard,
            None => {
                return ;
            },
        };
        if c != 'c' {
            match wizard.current_screen {
                OnboardingScreen::SlackCredentials => {
                    wizard.current_field_value().push(c);
                },
                OnboardingScreen::OAuthFlow => {
                    if wizard.oauth_url.is_some() {
                        wizard.oauth_code.push(c);
                    }
                },
                _ => {},
            }
        }
        self.onboarding = Some(wizard);
    }

    /// `after` is `self` after Backspace on the wizard: the last character
    /// of the selected credential or of the code goes.
    pub open spec fn wizard_backspace_result(self, after: App) -> bool {
        match self.onboarding {
            None => after == self,
            Some(wizard) => after.onboarding is Some && ({
                let shown = after.onboarding->0;
                &&& after == (App { onboarding: Some(shown), ..self })
                &&& if wizard.current_screen == OnboardingScreen::SlackCredentials {
                    if wizard.selected_field == 0 {
                        shown == (OnboardingState { client_id: shown.client_id, ..wizard })
                            && shown.client_id@ == without_last(wizard.client_id@)
                    } else {
                        shown == (OnboardingState {
                            client_secret: shown.client_secret,
                            ..wizard
                        }) && shown.client_secret@ == without_last(wizard.client_secret@)
                    }
                } else if wizard.current_screen == OnboardingScreen::OAuthFlow {
                    shown == (OnboardingState { oauth_code: shown.oauth_code, ..wizard })
                        && shown.oauth_code@ == without_last(wizard.oauth_code@)
                } else {
                    shown == wizard
                }
            }),
        }
    }

    /// Takes Backspace on the wizard.
    pub fn wizard_backspace(&mut self)
        ensures
            old(self).wizard_backspace_result(*final(self)),
    {
        let mut wizard = match self.onboarding.take() {
            Some(wizard) => wizard,
            None => {
                return ;
            },
        };
        match wizard.current_screen {
            OnboardingScreen::SlackCredentials => {
                let _ = wizard.current_field_value().pop();
            },
            OnboardingScreen::OAuthFlow => {
                let _ = wizard.oauth_code.pop();
            },
            _ => {},
        }
        self.onboarding = Some(wizard);
    }

    /// `after` is `self` after Tab on the wizard: on the credential screen
    /// the other field is selected.
    pub open spec fn wizard_tab_result(self, after: App) -> bool {
        match self.onboarding {
            None => after == self,
            Some(wizard) => after == (App {
                onboarding: Some(
                    OnboardingState {
                        selected_field: if wizard.current_screen
                            == OnboardingScreen::SlackCredentials {
                            ((wizard.selected_field + 1) % 2) as usize
                        } else {
                            wizard.selected_field
                        },
                        ..wizard
                    },
                ),
                ..self
            }),
        }
    }

    /// Takes Tab on the wizard.
    pub fn wizard_tab(&mut self)
        ensures
            old(self).wizard_tab_result(*final(self)),
    {
        let mut wizard = match self.onboarding.take() {
            Some(wizard) => wizard,
            None => {
                return ;
            },
        };
        match wizard.current_screen {
            OnboardingScreen::SlackCredentials => {
                wizard.toggle_field();
            },
            _ => {},
        }
        self.onboarding = Some(wizard);
    }

    /// `after` is `self` after a key on the wizard.
    pub open spec fn wizard_key_result(self, key: KeyEvent, after: App, r: Option<Command>)
        -> bool {
        match key.code {
            KeyCode::Enter => self.wizard_enter_result(after, r),
            KeyCode::Esc => r is None && self.wizard_escape_result(after),
            KeyCode::Tab => r is None && self.wizard_tab_result(after),
            KeyCode::Char(c) => r is None && self.wizard_typed_result(c, after),
            KeyCode::Backspace => r is None && self.wizard_backspace_result(after),
            _ => after == self && r is None,
        }
    }

    /// Takes a key on the wizard.
    pub fn wizard_key(&mut self, key: KeyEvent) -> (r: Option<Command>)
        ensures
            old(self).wizard_key_result(key, *final(self), r),
    {
        match key.code {
            KeyCode::Enter => self.wizard_enter(),
            KeyCode::Esc => {
                self.wizard_escape();
                None
            },
            KeyCode::Tab => {
                self.wizard_tab();
                None
            },
            KeyCode::Char(c) => {
                self.wizard_typed(c);
                None
            },
            KeyCode::Backspace => {
                self.wizard_backspace();
                None
            },
            _ => None,
        }
    }

    /// `after` is `self` after the key `key`. Control with `q` leaves the
    /// client, and `?` or control with `h` opens and closes the help
    /// screen, whatever is open. Else the key goes to what is open: the
    /// help screen, the details of the last failure, the wizard, the
    /// workspace picker, the channel search, the jump to a time; and to
    /// the main screen where none of them is.
    pub open spec fn key_result(self, key: KeyEvent, after: App, r: Option<Command>) -> bool {
        if Self::is_quit(key) {
            after == self && r is Some && r->0 is Quit
        } else if Self::is_help_toggle(key) {
            after == (App { show_help: !self.show_help, ..self }) && r is None
        } else if self.show_help {
            after == (App { show_help: key.code != KeyCode::Esc, ..self }) && r is None
        } else if self.errors.show_error_details {
            after == (App {
                errors: ErrorState {
                    show_error_details: !(key.code == KeyCode::Esc || key.code == KeyCode::Enter
                        || key.code == KeyCode::Char('E')),
                    ..self.errors
                },
                ..self
            }) && r is None
        } else if self.onboarding is Some {
            self.wizard_key_result(key, after, r)
        } else if self.show_workspace_picker {
            self.picker_key_result(key, after, r)
        } else if self.show_channel_search {
            r is None && self.search_key_result(key, after)
        } else if self.show_jump_to_time {
            r is None && self.jump_key_result(key, after)
        } else {
            self.main_key_result(key, after, r)
        }
    }

    /// Takes a key.
    pub fn handle_key_event(&mut self, key: KeyEvent) -> (r: Option<Command>)
        ensures
            old(self).key_result(key, *final(self), r),
    {
        let is_q = match key.code {
            KeyCode::Char(c) => c == 'q',
            _ => false,
        };
        let is_help = match key.code {
            KeyCode::Char(c) => c == '?' || (c == 'h' && key.ctrl),
            _ => false,
        };
        if is_q && key.ctrl {
            return Some(Command::Quit);
        }
        if is_help {
            self.show_help = !self.show_help;
            return None;
        }
        if self.show_help {
            match key.code {
                KeyCode::Esc => {
                    self.show_help = false;
                },
                _ => {},
            }
            return None;
        }
        if self.errors.show_error_details {
            let closes = match key.code {
                KeyCode::Esc => true,
                KeyCode::Enter => true,
                KeyCode::Char(c) => c == 'E',
                _ => false,
            };
            if closes {
                self.errors.show_error_details = false;
            }
            return None;
        }
        if self.onboarding.is_some() {
            self.wizard_key(key)
        } else if self.show_workspace_picker {
            self.picker_key(key)
        } else if self.show_channel_search {
            self.search_key(key);
            None
        } else if self.show_jump_to_time {
            self.jump_key(key);
            None
        } else {
            self.main_key(key)
        }
    }
}

} // verus!
