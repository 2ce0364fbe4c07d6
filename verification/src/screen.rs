//! The texts of the screen: what each part of it says of what the client
//! holds.

use crate::api::channel_views;
use crate::input::InputMode;
use crate::menu::ContextMenu;
use crate::onboarding::{OnboardingScreen, OnboardingState};
use crate::runner::AgentStatus;
use crate::state::{response_views, AgentResponse, AgentResponseView, App, Focus};
use crate::text::{chars_of, contains, contains_chars, decimal_string, decimal_text, join2, join3,
    join_with, joined_with, lowercase, opt_text, slice_chars, string_of, texts, to_lowercase};
use crate::types::{Channel, ChannelView};
use crate::view::{clock, clock_of};
use crate::wrap::{wrap_and_truncate_text, wrapped_text};
use vstd::prelude::*;

verus! {

/// How many replies of the agent the panel shows.
pub const SHOWN_RESPONSES: usize = 5;

/// How many characters of a reply of the agent the panel shows.
pub const SHOWN_RESPONSE_CHARS: usize = 30;

/// The channel fits the query: in lower case its name, or the id of its
/// peer, holds the query in lower case.
pub open spec fn channel_matches(c: ChannelView, query: Seq<char>) -> bool {
    contains(lowercase(c.name), lowercase(query)) || (c.user is Some && contains(
        lowercase(c.user->0),
        lowercase(query),
    ))
}

/// The channels among `all` that the query leaves: all of them for an
/// empty query, else those that fit it, in order.
pub open spec fn found_channels(all: Seq<ChannelView>, query: Seq<char>) -> Seq<ChannelView>
    decreases all.len(),
{
    if query.len() == 0 {
        all
    } else if all.len() == 0 {
        Seq::empty()
    } else {
        let front = found_channels(all.drop_last(), query);
        if channel_matches(all.last(), query) {
            front.push(all.last())
        } else {
            front
        }
    }
}

/// The first channel that the sidebar shows once the cursor is brought
/// into the `visible` rows.
pub open spec fn scrolled_to(cursor: usize, scroll: usize, visible: usize) -> usize {
    if visible == 0 {
        scroll
    } else if cursor < scroll {
        cursor
    } else if cursor - scroll >= visible {
        (cursor + 1 - visible) as usize
    } else {
        scroll
    }
}

/// The cursor held within `count` channels.
pub open spec fn cursor_within(cursor: usize, count: nat) -> usize {
    if count == 0 {
        0
    } else if cursor >= count {
        (count - 1) as usize
    } else {
        cursor
    }
}

/// The name of a channel as lists show it.
pub open spec fn channel_label(c: ChannelView) -> Seq<char> {
    (if c.is_dm {
        "@ "@
    } else {
        "# "@
    }) + c.name
}

/// One row of the sidebar.
#[derive(Debug)]
pub struct SidebarRow {
    pub text: String,
    /// The cursor stands on the row.
    pub cursor: bool,
    /// The row is the selected channel.
    pub selected: bool,
}

pub struct SidebarRowView {
    pub text: Seq<char>,
    pub cursor: bool,
    pub selected: bool,
}

impl View for SidebarRow {
    type V = SidebarRowView;

    open spec fn view(&self) -> SidebarRowView {
        SidebarRowView { text: self.text@, cursor: self.cursor, selected: self.selected }
    }
}

/// The views of a sequence of rows.
pub open spec fn row_views(v: Seq<SidebarRow>) -> Seq<SidebarRowView> {
    v.map_values(|r: SidebarRow| r@)
}

/// The row of the channel at index `i` of the list: a mark for cursor and
/// selection, the name, and the number of unread messages where there
/// are some.
pub open spec fn sidebar_row(
    c: ChannelView,
    i: int,
    cursor: usize,
    focused: bool,
    selected: Option<usize>,
) -> SidebarRowView {
    let on_cursor = focused && i == cursor;
    let is_selected = selected == Some(i as usize);
    SidebarRowView {
        text: (if on_cursor && is_selected {
            ">> "@
        } else if on_cursor {
            " > "@
        } else if is_selected {
            " # "@
        } else {
            "   "@
        }) + channel_label(c) + (if c.unread_count > 0 {
            " "@ + decimal_text(c.unread_count as nat)
        } else {
            Seq::empty()
        }),
        cursor: on_cursor,
        selected: is_selected,
    }
}

/// The rows of the channels `list` from index `from` up to `to`.
pub open spec fn sidebar_rows(
    list: Seq<ChannelView>,
    from: int,
    to: int,
    cursor: usize,
    focused: bool,
    selected: Option<usize>,
) -> Seq<SidebarRowView>
    decreases to - from,
{
    if from < 0 || from >= to || to > list.len() {
        Seq::empty()
    } else {
        sidebar_rows(list, from, to - 1, cursor, focused, selected).push(
            sidebar_row(list[to - 1], to - 1, cursor, focused, selected),
        )
    }
}

/// The title of the list of channels: with the query where there is one.
pub open spec fn sidebar_title(query: Seq<char>) -> Seq<char> {
    if query.len() == 0 {
        " CHANNELS "@
    } else {
        " CHANNELS ["@ + query + "] "@
    }
}

/// The end of the rows that the sidebar shows: `visible` rows from
/// `scroll` on, as far as there are channels.
pub open spec fn shown_end(scroll: usize, visible: usize, count: nat) -> int {
    if scroll + visible < count {
        scroll + visible
    } else {
        count as int
    }
}

/// Whether the channel fits the query, which is given in lower case.
fn fits(c: &Channel, low_query: &Vec<char>) -> (r: bool)
    ensures
        r == (contains(lowercase(c.name@), low_query@) || (c.user is Some && contains(
            lowercase(c.user->0@),
            low_query@,
        ))),
{
    let name = to_lowercase(c.name.as_str());
    if contains_chars(&chars_of(name.as_str()), low_query) {
        return true;
    }
    match &c.user {
        Some(user) => {
            let low = to_lowercase(user.as_str());
            contains_chars(&chars_of(low.as_str()), low_query)
        },
        None => false,
    }
}

impl App {
    /// The channels that the search leaves, in order.
    pub fn filtered_channels(&self) -> (r: Vec<&Channel>)
        ensures
            r@.len() == found_channels(channel_views(self.channels@), self.search_query@).len(),
            forall|i: int|
                0 <= i < r@.len() ==> (#[trigger] r@[i])@ == found_channels(
                    channel_views(self.channels@),
                    self.search_query@,
                )[i],
    {
        let ghost all = channel_views(self.channels@);
        let ghost query = self.search_query@;
        let mut out: Vec<&Channel> = Vec::new();
        let empty = self.search_query.as_str().is_empty();
        let low = to_lowercase(self.search_query.as_str());
        let low_query = chars_of(low.as_str());
        let mut i: usize = 0;
        assert(all.take(0) =~= Seq::<ChannelView>::empty());
        while i < self.channels.len()
            invariant
                i <= self.channels.len(),
                all == channel_views(self.channels@),
                query == self.search_query@,
                empty == (query.len() == 0),
                low_query@ == lowercase(query),
                out@.len() == found_channels(all.take(i as int), query).len(),
                forall|k: int|
                    0 <= k < out@.len() ==> (#[trigger] out@[k])@ == found_channels(
                        all.take(i as int),
                        query,
                    )[k],
            decreases self.channels.len() - i,
        {
            let c = &self.channels[i];
            assert(all.take(i + 1).drop_last() =~= all.take(i as int));
            assert(all.take(i + 1).last() == c@);
            if empty || fits(c, &low_query) {
                out.push(c);
            }
            i += 1;
        }
        assert(all.take(self.channels.len() as int) =~= all);
        out
    }

    /// `after` is `self` with the cursor of the sidebar brought into the
    /// `visible` rows and held within the channels that the search
    /// leaves.
    pub open spec fn sidebar_adjusted(self, visible: usize, after: App) -> bool {
        after == (App {
            sidebar_scroll: scrolled_to(self.sidebar_cursor, self.sidebar_scroll, visible),
            sidebar_cursor: cursor_within(
                self.sidebar_cursor,
                found_channels(channel_views(self.channels@), self.search_query@).len(),
            ),
            ..self
        })
    }

    /// The rows that the sidebar shows of the channels that the search
    /// leaves: the `visible` rows from the first shown channel on.
    pub open spec fn sidebar_view(self, visible: usize) -> Seq<SidebarRowView> {
        let list = found_channels(channel_views(self.channels@), self.search_query@);
        sidebar_rows(
            list,
            self.sidebar_scroll as int,
            shown_end(self.sidebar_scroll, visible, list.len()),
            self.sidebar_cursor,
            self.focus == Focus::Sidebar,
            self.selected_channel,
        )
    }

    /// Brings the cursor of the sidebar into the `visible` rows and holds
    /// it within the channels that the search leaves.
    pub fn adjust_sidebar(&mut self, visible: usize)
        ensures
            old(self).sidebar_adjusted(visible, *final(self)),
    {
        if visible > 0 {
            if self.sidebar_cursor < self.sidebar_scroll {
                self.sidebar_scroll = self.sidebar_cursor;
            } else if self.sidebar_cursor - self.sidebar_scroll >= visible {
                self.sidebar_scroll = self.sidebar_cursor - (visible - 1);
            }
        }
        let count = self.filtered_channels().len();
        if count == 0 {
            self.sidebar_cursor = 0;
        } else if self.sidebar_cursor >= count {
            self.sidebar_cursor = count - 1;
        }
    }

    /// The row of the channel `c` at index `i` of the list.
    fn sidebar_row_of(&self, c: &Channel, i: usize) -> (row: SidebarRow)
        ensures
            row@ == sidebar_row(
                c@,
                i as int,
                self.sidebar_cursor,
                self.focus == Focus::Sidebar,
                self.selected_channel,
            ),
    {
        let focused = match self.focus {
            Focus::Sidebar => true,
            _ => false,
        };
        let on_cursor = focused && i == self.sidebar_cursor;
        let is_selected = match self.selected_channel {
            Some(s) => s == i,
            None => false,
        };
        let mark = if on_cursor && is_selected {
            ">> "
        } else if on_cursor {
            " > "
        } else if is_selected {
            " # "
        } else {
            "   "
        };
        let name = c.display_name();
        let mut text = join2(mark, name.as_str());
        let ghost head = text@;
        if c.unread_count > 0 {
            let unread = decimal_string(c.unread_count as u64);
            text.append(" ");
            text.append(unread.as_str());
            assert(text@ =~= head + (" "@ + decimal_text(c.unread_count as nat)));
        } else {
            assert(text@ =~= head + Seq::<char>::empty());
        }
        SidebarRow { text, cursor: on_cursor, selected: is_selected }
    }

    /// The rows that the sidebar shows.
    pub fn sidebar_rows_shown(&self, visible: usize) -> (rows: Vec<SidebarRow>)
        ensures
            row_views(rows@) == self.sidebar_view(visible),
    {
        let list = self.filtered_channels();
        let ghost views = found_channels(channel_views(self.channels@), self.search_query@);
        let scroll = self.sidebar_scroll;
        let end: usize = if list.len() > scroll && list.len() - scroll > visible {
            scroll + visible
        } else {
            list.len()
        };
        assert(end == shown_end(scroll, visible, views.len()));
        let mut rows: Vec<SidebarRow> = Vec::new();
        assert(row_views(rows@) =~= Seq::<SidebarRowView>::empty());
        if scroll >= end {
            return rows;
        }
        let mut i: usize = scroll;
        while i < end
            invariant
                scroll <= i <= end <= list@.len(),
                list@.len() == views.len(),
                forall|k: int| 0 <= k < list@.len() ==> (#[trigger] list@[k])@ == views[k],
                row_views(rows@) == sidebar_rows(
                    views,
                    scroll as int,
                    i as int,
                    self.sidebar_cursor,
                    self.focus == Focus::Sidebar,
                    self.selected_channel,
                ),
            decreases end - i,
        {
            let row = self.sidebar_row_of(list[i], i);
            assert(list@[i as int]@ == views[i as int]);
            let ghost before = row_views(rows@);
            rows.push(row);
            assert(row_views(rows@) =~= before.push(row@));
            i += 1;
        }
        rows
    }

    /// Brings the cursor of the sidebar into the `visible` rows and hands
    /// out the rows that the sidebar shows.
    pub fn render_sidebar(&mut self, visible: usize) -> (rows: Vec<SidebarRow>)
        ensures
            old(self).sidebar_adjusted(visible, *final(self)),
            row_views(rows@) == final(self).sidebar_view(visible),
    {
        self.adjust_sidebar(visible);
        self.sidebar_rows_shown(visible)
    }

    /// The title of the list of channels.
    pub fn sidebar_heading(&self) -> (r: String)
        ensures
            r@ == sidebar_title(self.search_query@),
    {
        if self.search_query.as_str().is_empty() {
            " CHANNELS ".to_owned()
        } else {
            join3(" CHANNELS [", self.search_query.as_str(), "] ")
        }
    }

    /// The tabs of the workspaces: the active one in brackets, the others
    /// between spaces.
    pub open spec fn workspace_tabs(self) -> Seq<Seq<char>> {
        Seq::new(
            self.workspaces@.len(),
            |i: int|
                if i == self.active_workspace {
                    "["@ + self.workspaces@[i].workspace.team_name@ + "]"@
                } else {
                    " "@ + self.workspaces@[i].workspace.team_name@ + " "@
                },
        )
    }

    /// What the top bar says: the tabs of the workspaces, who is typing,
    /// whether the agent is active, whether a failure is waiting, and
    /// which part of the screen takes the keys.
    pub open spec fn topbar_line(self) -> Seq<char> {
        " \u{25cf} "@ + joined_with(self.workspace_tabs(), " "@) + self.typing_text() + "   "@ + (
        if self.agent.status is Active {
            "zeroclaw: \u{25cf} active"@
        } else {
            "zeroclaw: \u{25cb} inactive"@
        }) + (if self.errors.last_error is Some {
            "   \u{26a0} error"@
        } else {
            Seq::empty()
        }) + "   "@ + (match self.focus {
            Focus::Sidebar => "[sidebar]"@,
            Focus::Messages => "[messages]"@,
            Focus::Input => "[input]"@,
        }) + "   [Tab] focus   [?] help"@
    }

    /// What the top bar says.
    pub fn render_topbar(&self) -> (r: String)
        ensures
            r@ == self.topbar_line(),
    {
        let mut tabs: Vec<String> = Vec::new();
        let mut i: usize = 0;
        while i < self.workspaces.len()
            invariant
                i <= self.workspaces.len(),
                tabs@.len() == i,
                forall|k: int| 0 <= k < i ==> (#[trigger] tabs@[k])@ == self.workspace_tabs()[k],
            decreases self.workspaces.len() - i,
        {
            let name = self.workspaces[i].workspace.team_name.as_str();
            let tab = if i == self.active_workspace {
                join3("[", name, "]")
            } else {
                join3(" ", name, " ")
            };
            tabs.push(tab);
            i += 1;
        }
        assert(texts(tabs@) =~= self.workspace_tabs());
        let all = join_with(&tabs, " ");
        let typing = self.typing_indicator();
        let mut line = join3(" \u{25cf} ", all.as_str(), typing.as_str());
        line.append("   ");
        match &self.agent.status {
            AgentStatus::Active => line.append("zeroclaw: \u{25cf} active"),
            _ => line.append("zeroclaw: \u{25cb} inactive"),
        }
        let ghost head = line@;
        if self.errors.last_error.is_some() {
            line.append("   \u{26a0} error");
        } else {
            assert(line@ =~= head + Seq::<char>::empty());
        }
        line.append("   ");
        match self.focus {
            Focus::Sidebar => line.append("[sidebar]"),
            Focus::Messages => line.append("[messages]"),
            Focus::Input => line.append("[input]"),
        }
        line.append("   [Tab] focus   [?] help");
        line
    }

    /// What the input bar says: a mark for the mode, the text, and whether
    /// the agent is working or the bar takes the keys.
    pub open spec fn input_line(self) -> Seq<char> {
        (match self.input.mode {
            InputMode::Normal => "[\u{1f4ac}]"@,
            InputMode::AgentCommand => "[\u{26a1}]"@,
            InputMode::AgentMention => "[\u{1f916}]"@,
        }) + " > "@ + self.input.buffer@ + (if self.agent.processing {
            "   [agent processing]"@
        } else if self.focus == Focus::Input {
            "\u{2588}"@
        } else {
            Seq::empty()
        })
    }

    /// What the input bar says.
    pub fn render_input_bar(&self) -> (r: String)
        ensures
            r@ == self.input_line(),
    {
        let mark = match self.input.mode {
            InputMode::Normal => "[\u{1f4ac}]",
            InputMode::AgentCommand => "[\u{26a1}]",
            InputMode::AgentMention => "[\u{1f916}]",
        };
        let mut line = join3(mark, " > ", self.input.buffer.as_str());
        let ghost head = line@;
        if self.agent.processing {
            line.append("   [agent processing]");
        } else {
            match self.focus {
                Focus::Input => line.append("\u{2588}"),
                _ => {
                    assert(line@ =~= head + Seq::<char>::empty());
                },
            }
        }
        line
    }

    /// How the status of the agent reads in its panel.
    pub open spec fn status_line(self) -> Seq<char> {
        match self.agent.status {
            AgentStatus::Unavailable => "\u{26a0} unavailable"@,
            AgentStatus::Starting => "\u{25b6} starting..."@,
            AgentStatus::Pairing => "\u{2699} pairing..."@,
            AgentStatus::Active => "\u{25cf} active"@,
            AgentStatus::Error(e) => "\u{2717} "@ + e@,
        }
    }

    /// What the panel of the agent says: the status, the commands, and the
    /// latest replies, each cut to its first characters.
    pub open spec fn agent_panel_text(self) -> Seq<char> {
        "\u{26a1} ZEROCLAW\n\nStatus: "@ + self.status_line()
            + "\n\nCommands:\n  /r\u{e9}sume [#channel]\n  /draft [intent]\n  /cherche [text]\n\n"@
            + (if self.agent.responses@.len() > 0 {
            "\u{2500}\u{2500} Recent \u{2500}\u{2500}\n"@ + recent_lines(
                response_views(self.agent.responses@),
                if self.agent.responses@.len() < SHOWN_RESPONSES {
                    self.agent.responses@.len() as int
                } else {
                    SHOWN_RESPONSES as int
                },
            )
        } else {
            Seq::empty()
        })
    }

    /// What the panel of the agent says.
    pub fn render_agent_panel(&self) -> (r: String)
        ensures
            r@ == self.agent_panel_text(),
    {
        let mut text = "\u{26a1} ZEROCLAW\n\nStatus: ".to_owned();
        match &self.agent.status {
            AgentStatus::Unavailable => text.append("\u{26a0} unavailable"),
            AgentStatus::Starting => text.append("\u{25b6} starting..."),
            AgentStatus::Pairing => text.append("\u{2699} pairing..."),
            AgentStatus::Active => text.append("\u{25cf} active"),
            AgentStatus::Error(e) => {
                text.append("\u{2717} ");
                text.append(e.as_str());
                assert(text@ =~= "\u{26a1} ZEROCLAW\n\nStatus: "@ + ("\u{2717} "@ + e@));
            },
        }
        text.append(
            "\n\nCommands:\n  /r\u{e9}sume [#channel]\n  /draft [intent]\n  /cherche [text]\n\n",
        );
        let ghost head = text@;
        let count = self.agent.responses.len();
        if count > 0 {
            let shown: usize = if count < SHOWN_RESPONSES {
                count
            } else {
                SHOWN_RESPONSES
            };
            let ghost all = response_views(self.agent.responses@);
            let mut lines = String::new();
            let mut i: usize = 0;
            while i < shown
                invariant
                    i <= shown <= self.agent.responses@.len(),
                    all == response_views(self.agent.responses@),
                    lines@ == recent_lines(all, i as int),
                decreases shown - i,
            {
                let line = recent_line(&self.agent.responses[i]);
                assert(all[i as int] == self.agent.responses@[i as int]@);
                lines.append(line.as_str());
                i += 1;
            }
            text.append("\u{2500}\u{2500} Recent \u{2500}\u{2500}\n");
            text.append(lines.as_str());
            assert(text@ =~= head + ("\u{2500}\u{2500} Recent \u{2500}\u{2500}\n"@ + lines@));
        } else {
            assert(text@ =~= head + Seq::<char>::empty());
        }
        text
    }
}

/// The line of a reply of the agent: the time, the command, and the first
/// characters of the reply.
pub open spec fn recent_line_text(r: AgentResponseView) -> Seq<char> {
    clock_of(r.timestamp) + " "@ + r.command + ": "@ + (if r.response.len()
        > SHOWN_RESPONSE_CHARS {
        r.response.take(SHOWN_RESPONSE_CHARS as int)
    } else {
        r.response
    }) + "\n"@
}

/// The lines of the first `count` replies.
pub open spec fn recent_lines(all: Seq<AgentResponseView>, count: int) -> Seq<char>
    decreases count,
{
    if count <= 0 || count > all.len() {
        Seq::empty()
    } else {
        recent_lines(all, count - 1) + recent_line_text(all[count - 1])
    }
}

/// The line of a reply of the agent.
fn recent_line(r: &AgentResponse) -> (out: String)
    ensures
        out@ == recent_line_text(r@),
{
    let chars = chars_of(r.response.as_str());
    let short = if chars.len() > SHOWN_RESPONSE_CHARS {
        let head = slice_chars(&chars, 0, SHOWN_RESPONSE_CHARS);
        assert(head@ =~= chars@.take(SHOWN_RESPONSE_CHARS as int));
        string_of(&head)
    } else {
        r.response.clone()
    };
    let time = clock(r.timestamp);
    let mut out = join3(time.as_str(), " ", r.command.as_str());
    out.append(": ");
    out.append(short.as_str());
    out.append("\n");
    out
}

/// The rows of a context menu: the label of each entry, with a mark in
/// front of the marked one.
pub open spec fn menu_rows(menu: ContextMenu) -> Seq<Seq<char>> {
    Seq::new(
        menu.items@.len(),
        |i: int|
            (if i == menu.selected {
                " > "@
            } else {
                "   "@
            }) + menu.items@[i].label@ + " "@,
    )
}

/// The rows of a context menu.
pub fn render_context_menu(menu: &ContextMenu) -> (rows: Vec<String>)
    ensures
        texts(rows@) == menu_rows(*menu),
{
    let mut rows: Vec<String> = Vec::new();
    let mut i: usize = 0;
    while i < menu.items.len()
        invariant
            i <= menu.items.len(),
            rows@.len() == i,
            forall|k: int| 0 <= k < i ==> (#[trigger] rows@[k])@ == menu_rows(*menu)[k],
        decreases menu.items.len() - i,
    {
        let mark = if i == menu.selected {
            " > "
        } else {
            "   "
        };
        rows.push(join3(mark, menu.items[i].label.as_str(), " "));
        i += 1;
    }
    assert(texts(rows@) =~= menu_rows(*menu));
    rows
}

/// What the details of the last failure say in a box of `width` columns
/// and `lines` lines: the failure, wrapped, and how to close the box.
pub open spec fn error_details_text(last_error: Option<Seq<char>>, width: nat, lines: nat) -> Seq<
    char,
> {
    wrapped_text(
        match last_error {
            Some(e) => e,
            None => "No error details available."@,
        },
        width,
        lines,
    ) + "\n\n[Esc] or [Enter] to close"@
}

impl App {
    /// What the details of the last failure say.
    pub fn render_error_details(&self, width: usize, lines: usize) -> (r: String)
        ensures
            r@ == error_details_text(
                opt_text(self.errors.last_error),
                width as nat,
                lines as nat,
            ),
    {
        let wrapped = match &self.errors.last_error {
            Some(e) => wrap_and_truncate_text(e.as_str(), width, lines),
            None => wrap_and_truncate_text("No error details available.", width, lines),
        };
        join2(wrapped.as_str(), "\n\n[Esc] or [Enter] to close")
    }

    /// The rows of the workspace picker: the name of each team, with a
    /// mark in front of the active one.
    pub open spec fn picker_rows(self) -> Seq<Seq<char>> {
        Seq::new(
            self.workspaces@.len(),
            |i: int|
                (if i == self.active_workspace {
                    "> "@
                } else {
                    "  "@
                }) + self.workspaces@[i].workspace.team_name@,
        )
    }

    /// The rows of the workspace picker.
    pub fn render_workspace_picker(&self) -> (rows: Vec<String>)
        ensures
            texts(rows@) == self.picker_rows(),
    {
        let mut rows: Vec<String> = Vec::new();
        let mut i: usize = 0;
        while i < self.workspaces.len()
            invariant
                i <= self.workspaces.len(),
                rows@.len() == i,
                forall|k: int| 0 <= k < i ==> (#[trigger] rows@[k])@ == self.picker_rows()[k],
            decreases self.workspaces.len() - i,
        {
            let mark = if i == self.active_workspace {
                "> "
            } else {
                "  "
            };
            rows.push(join2(mark, self.workspaces[i].workspace.team_name.as_str()));
            i += 1;
        }
        assert(texts(rows@) =~= self.picker_rows());
        rows
    }
}

/// The title of a screen of the wizard.
pub open spec fn wizard_title(screen: OnboardingScreen) -> Seq<char> {
    match screen {
        OnboardingScreen::Welcome => "Welcome"@,
        OnboardingScreen::SlackCredentials => "Slack Credentials"@,
        OnboardingScreen::OAuthFlow => "OAuth Flow"@,
        OnboardingScreen::ZeroClawCheck => "ZeroClaw Check"@,
        OnboardingScreen::ZeroClawPairing => "ZeroClaw Pairing"@,
        OnboardingScreen::Complete => "Complete!"@,
    }
}

/// The title of a screen of the wizard.
pub fn onboarding_title(screen: OnboardingScreen) -> (r: &'static str)
    ensures
        r@ == wizard_title(screen),
{
    match screen {
        OnboardingScreen::Welcome => "Welcome",
        OnboardingScreen::SlackCredentials => "Slack Credentials",
        OnboardingScreen::OAuthFlow => "OAuth Flow",
        OnboardingScreen::ZeroClawCheck => "ZeroClaw Check",
        OnboardingScreen::ZeroClawPairing => "ZeroClaw Pairing",
        OnboardingScreen::Complete => "Complete!",
    }
}

/// How a credential reads on the wizard: a placeholder where it is not
/// set, `value` else, and a mark behind it where its field is selected.
pub open spec fn credential_text(set: bool, value: Seq<char>, editing: bool) -> Seq<char> {
    (if set {
        value
    } else {
        "[not set]"@
    }) + (if editing {
        " [editing]"@
    } else {
        Seq::empty()
    })
}

/// How a credential reads on the wizard.
fn credential(set: bool, value: &str, editing: bool) -> (r: String)
    ensures
        r@ == credential_text(set, value@, editing),
{
    let shown = if set {
        value
    } else {
        "[not set]"
    };
    if editing {
        join2(shown, " [editing]")
    } else {
        let r = shown.to_owned();
        assert(r@ =~= shown@ + Seq::<char>::empty());
        r
    }
}

/// What a screen of the wizard says.
pub open spec fn wizard_text(state: OnboardingState) -> Seq<char> {
    match state.current_screen {
        OnboardingScreen::Welcome => "\n\n  Welcome to slack-zc!\n\n  A terminal Slack client with ZeroClaw AI integration.\n\n  This wizard will help you set up:\n    1. Slack workspace connection\n    2. ZeroClaw agent pairing\n\n  Press [Enter] to continue, [Esc] to quit\n"@,
        OnboardingScreen::SlackCredentials => "\n\n  Enter your Slack App credentials:\n\n  Client ID:    "@
            + credential_text(
            state.client_id@.len() > 0,
            state.client_id@,
            state.selected_field == 0,
        ) + "\n  Client Secret: "@ + credential_text(
            state.client_secret@.len() > 0,
            "********"@,
            state.selected_field == 1,
        )
            + "\n\n  Press [Tab] to switch fields,\n  type to enter values,\n  [Enter] to continue, [Esc] to go back\n"@,
        OnboardingScreen::OAuthFlow => match state.oauth_url {
            None => "\n\n  OAuth authentication:\n\n  Press [Enter] to generate OAuth URL,\n  or [Esc] to go back\n"@,
            Some(url) => "\n\n  OAuth authentication:\n\n  1. Visit: "@ + url@ + (
            if state.oauth_code@.len() == 0 {
                "\n\n  2. Authorize the app\n\n  3. Copy the code from URL and enter below:\n\n  Code: [enter code here]\n\n  Press [Enter] to exchange code for tokens,\n  [c] to copy URL to clipboard,\n  [Esc] to go back\n"@
            } else {
                "\n\n  2. Authorize the app\n\n  3. Your code: "@ + state.oauth_code@
                    + "\n\n  Press [Enter] to exchange code for tokens,\n  [c] to copy URL,\n  [Esc] to go back\n"@
            }),
        },
        OnboardingScreen::ZeroClawCheck => "\n\n  ZeroClaw Agent Setup:\n\n  Checking for ZeroClaw binary...\n\n  If not found, install with:\n    curl -LsSf ... | sh\n\n  Press [Enter] to continue, [Esc] to go back\n"@,
        OnboardingScreen::ZeroClawPairing => "\n\n  Pairing with ZeroClaw gateway:\n\n  Code: "@ + (
        match state.pairing_code {
            Some(code) => code@,
            None => "waiting..."@,
        })
            + "\n\n  Check the terminal where zeroclaw is running\n  for the 6-digit pairing code.\n\n  Press [Enter] to continue, [Esc] to go back\n"@,
        OnboardingScreen::Complete => "\n\n  Setup Complete!\n\n  You are now ready to use slack-zc.\n\n  Press [Enter] to launch the main interface.\n\n"@,
    }
}

/// What a screen of the wizard says.
pub fn render_onboarding(state: &OnboardingState) -> (r: String)
    ensures
        r@ == wizard_text(*state),
{
    match state.current_screen {
        OnboardingScreen::Welcome => "\n\n  Welcome to slack-zc!\n\n  A terminal Slack client with ZeroClaw AI integration.\n\n  This wizard will help you set up:\n    1. Slack workspace connection\n    2. ZeroClaw agent pairing\n\n  Press [Enter] to continue, [Esc] to quit\n".to_owned(),
        OnboardingScreen::SlackCredentials => {
            let id = credential(
                !state.client_id.as_str().is_empty(),
                state.client_id.as_str(),
                state.selected_field == 0,
            );
            let secret = credential(
                !state.client_secret.as_str().is_empty(),
                "********",
                state.selected_field == 1,
            );
            let mut text = join3(
                "\n\n  Enter your Slack App credentials:\n\n  Client ID:    ",
                id.as_str(),
                "\n  Client Secret: ",
            );
            text.append(secret.as_str());
            text.append(
                "\n\n  Press [Tab] to switch fields,\n  type to enter values,\n  [Enter] to continue, [Esc] to go back\n",
            );
            text
        },
        OnboardingScreen::OAuthFlow => match &state.oauth_url {
            None => "\n\n  OAuth authentication:\n\n  Press [Enter] to generate OAuth URL,\n  or [Esc] to go back\n".to_owned(),
            Some(url) => {
                let mut text = join2("\n\n  OAuth authentication:\n\n  1. Visit: ", url.as_str());
                let ghost head = text@;
                if state.oauth_code.as_str().is_empty() {
                    text.append(
                        "\n\n  2. Authorize the app\n\n  3. Copy the code from URL and enter below:\n\n  Code: [enter code here]\n\n  Press [Enter] to exchange code for tokens,\n  [c] to copy URL to clipboard,\n  [Esc] to go back\n",
                    );
                } else {
                    text.append("\n\n  2. Authorize the app\n\n  3. Your code: ");
                    text.append(state.oauth_code.as_str());
                    text.append(
                        "\n\n  Press [Enter] to exchange code for tokens,\n  [c] to copy URL,\n  [Esc] to go back\n",
                    );
                    assert(text@ =~= head + ("\n\n  2. Authorize the app\n\n  3. Your code: "@
                        + state.oauth_code@
                        + "\n\n  Press [Enter] to exchange code for tokens,\n  [c] to copy URL,\n  [Esc] to go back\n"@));
                }
                text
            },
        },
        OnboardingScreen::ZeroClawCheck => "\n\n  ZeroClaw Agent Setup:\n\n  Checking for ZeroClaw binary...\n\n  If not found, install with:\n    curl -LsSf ... | sh\n\n  Press [Enter] to continue, [Esc] to go back\n".to_owned(),
        OnboardingScreen::ZeroClawPairing => {
            let code = match &state.pairing_code {
                Some(code) => code.as_str(),
                None => "waiting...",
            };
            join3(
                "\n\n  Pairing with ZeroClaw gateway:\n\n  Code: ",
                code,
                "\n\n  Check the terminal where zeroclaw is running\n  for the 6-digit pairing code.\n\n  Press [Enter] to continue, [Esc] to go back\n",
            )
        },
        OnboardingScreen::Complete => "\n\n  Setup Complete!\n\n  You are now ready to use slack-zc.\n\n  Press [Enter] to launch the main interface.\n\n".to_owned(),
    }
}

} // verus!
