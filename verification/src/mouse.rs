//! What the mouse does: what lies under a cell of the screen, and what a
//! click, a drag and the wheel do there.

use crate::keys::{run, runs_at_most, stepped_down, stepped_up, task_in, Command, KeyEvent};
use crate::layout::{clamped, panel_rect, DragTarget, LayoutState, Panel, PanelType, Rect};
use crate::menu::{message_actions, ContextMenu};
use crate::state::App;
use crate::types::{message_views, MessageView};
use vstd::prelude::*;

verus! {

/// What the mouse did.
#[derive(Clone, Copy, Debug, PartialEq, Eq)]
pub enum MouseKind {
    LeftDown,
    RightDown,
    LeftDrag,
    LeftUp,
    ScrollDown,
    ScrollUp,
    /// Anything else.
    Other,
}

/// What the mouse did, and the cell where it did it.
#[derive(Clone, Copy, Debug, PartialEq, Eq)]
pub struct MouseEvent {
    pub kind: MouseKind,
    pub column: u16,
    pub row: u16,
}

/// What the terminal reports.
#[derive(Clone, Copy, Debug, PartialEq, Eq)]
pub enum Event {
    Key(KeyEvent),
    Mouse(MouseEvent),
    /// The screen has a new size, in columns and rows.
    Resize(u16, u16),
    /// Anything else.
    Other,
}

/// What lies under a cell of the screen.
#[derive(Clone, Copy, Debug, PartialEq, Eq)]
pub enum HitTarget {
    /// The channel at this index of the list.
    Channel(usize),
    /// The tab of the workspace at this index.
    WorkspaceTab(usize),
    /// The divider at the right of the sidebar.
    SidebarDivider,
    /// The divider at the left of the agent panel.
    AgentDivider,
}

/// The cell lies in the rectangle.
pub open spec fn in_rect(rect: Rect, col: u16, row: u16) -> bool {
    rect.x <= col < rect.x + rect.width && rect.y <= row < rect.y + rect.height
}

/// The row lies in the rows of the rectangle.
pub open spec fn in_rows(rect: Rect, row: u16) -> bool {
    rect.y <= row < rect.y + rect.height
}

/// Whether the cell lies in the rectangle.
pub fn rect_contains(rect: Rect, col: u16, row: u16) -> (r: bool)
    ensures
        r == in_rect(rect, col, row),
{
    col >= rect.x && (col as u32) < rect.x as u32 + rect.width as u32 && row >= rect.y && (
    row as u32) < rect.y as u32 + rect.height as u32
}

/// The length of a text in bytes, as far as it can be counted.
pub open spec fn byte_len(text: Seq<char>) -> usize {
    vstd::utf8::encode_utf8(text).len() as usize
}

/// The channel under the row `row` of a sidebar at `rect` with `count`
/// channels: the list starts three rows below the top of the sidebar.
pub open spec fn sidebar_hit(rect: Rect, row: u16, count: nat) -> Option<HitTarget> {
    let line = row - (rect.y + 3);
    if 0 <= line < count {
        Some(HitTarget::Channel(line as usize))
    } else {
        None
    }
}

/// The tab under the column `col` of the top bar, among the tabs of the
/// names `names` from index `from` on, the first of which starts at the
/// column `start`. A tab is four columns wider than its name is long in
/// bytes, and one column lies between two tabs.
pub open spec fn tab_hit(names: Seq<Seq<char>>, col: int, start: int, from: int) -> Option<int>
    decreases names.len() - from,
{
    if from < 0 || from >= names.len() {
        None
    } else {
        let width = byte_len(names[from]) + 4;
        if start <= col < start + width {
            Some(from)
        } else {
            tab_hit(names, col, start + width + 1, from + 1)
        }
    }
}

/// The names of the teams of the workspaces.
pub open spec fn team_names(app: App) -> Seq<Seq<char>> {
    Seq::new(app.workspaces@.len(), |i: int| app.workspaces@[i].workspace.team_name@)
}

/// The index at or after `from` of the first panel that holds the cell.
pub open spec fn panel_at(panels: Seq<Panel>, col: u16, row: u16, from: int) -> Option<int>
    decreases panels.len() - from,
{
    if from < 0 || from >= panels.len() {
        None
    } else if in_rect(panels[from].rect, col, row) {
        Some(from)
    } else {
        panel_at(panels, col, row, from + 1)
    }
}

/// The message under the cell in the messages panel `rect`, for a list
/// scrolled by `scroll` lines: its index in the list.
pub open spec fn message_line(rect: Rect, row: u16, scroll: usize) -> int {
    let relative = if row >= rect.y {
        row - rect.y
    } else {
        0
    };
    let line = relative + scroll - rect.y;
    if line >= 0 {
        line
    } else {
        0
    }
}

/// The timestamp id of the message under the cell, looking at the panels
/// from index `from` on: that of the first messages panel whose columns
/// hold the cell and whose line under the cell holds a message.
pub open spec fn message_hit(
    panels: Seq<Panel>,
    messages: Seq<MessageView>,
    scroll: usize,
    col: u16,
    row: u16,
    from: int,
) -> Option<Seq<char>>
    decreases panels.len() - from,
{
    if from < 0 || from >= panels.len() {
        None
    } else {
        let rect = panels[from].rect;
        if panels[from].panel_type == PanelType::Messages && rect.x <= col < rect.x + rect.width
            && message_line(rect, row, scroll) < messages.len() {
            Some(messages[message_line(rect, row, scroll)].ts)
        } else {
            message_hit(panels, messages, scroll, col, row, from + 1)
        }
    }
}

/// The pair of a channel and a timestamp id as plain values.
pub open spec fn opt_pair(p: Option<(String, String)>) -> Option<(Seq<char>, Seq<char>)> {
    match p {
        Some((a, b)) => Some((a@, b@)),
        None => None,
    }
}

impl App {
    /// The divider under the cell: the column at the right of the sidebar
    /// and the column at the left of the agent panel, in the rows of
    /// their panels, once both panels are laid out.
    pub open spec fn divider_hit(self, col: u16, row: u16) -> Option<HitTarget> {
        let panels = self.layout.cached_panels@;
        let sidebar = panel_rect(panels, PanelType::Sidebar, 0);
        let agent = panel_rect(panels, PanelType::AgentPanel, 0);
        if sidebar is Some && agent is Some && in_rows(sidebar->0, row) && col == sidebar->0.x
            + sidebar->0.width {
            Some(HitTarget::SidebarDivider)
        } else if sidebar is Some && agent is Some && in_rows(agent->0, row) && col == (
        if agent->0.x > 0 {
            agent->0.x - 1
        } else {
            0
        }) {
            Some(HitTarget::AgentDivider)
        } else {
            None
        }
    }

    /// What the first panel that holds the cell has under it: the sidebar
    /// a channel, the top bar a workspace tab, every other panel nothing.
    pub open spec fn panel_hit(self, col: u16, row: u16) -> Option<HitTarget> {
        let panels = self.layout.cached_panels@;
        match panel_at(panels, col, row, 0) {
            Some(i) => match panels[i].panel_type {
                PanelType::Sidebar => sidebar_hit(panels[i].rect, row, self.channels@.len()),
                PanelType::Topbar => self.tab_under(col, row),
                _ => None,
            },
            None => None,
        }
    }

    /// The workspace tab under a cell of the top bar, which is the first
    /// row of the screen.
    pub open spec fn tab_under(self, col: u16, row: u16) -> Option<HitTarget> {
        if row == 0 {
            match tab_hit(team_names(self), col as int, 3, 0) {
                Some(tab) => Some(HitTarget::WorkspaceTab(tab as usize)),
                None => None,
            }
        } else {
            None
        }
    }

    /// What lies under the cell: a divider, and else what the panel that
    /// holds the cell has under it.
    pub open spec fn hit(self, col: u16, row: u16) -> Option<HitTarget> {
        match self.divider_hit(col, row) {
            Some(target) => Some(target),
            None => self.panel_hit(col, row),
        }
    }

    /// The channel under a row of the sidebar.
    pub fn hit_sidebar(&self, rect: Rect, row: u16) -> (r: Option<HitTarget>)
        ensures
            r == sidebar_hit(rect, row, self.channels@.len()),
    {
        let first: u32 = rect.y as u32 + 3;
        if row as u32 >= first {
            let line: usize = (row as u32 - first) as usize;
            if line < self.channels.len() {
                return Some(HitTarget::Channel(line));
            }
        }
        None
    }

    /// The workspace tab under a cell of the top bar.
    pub fn hit_topbar(&self, col: u16, row: u16) -> (r: Option<HitTarget>)
        ensures
            r == self.tab_under(col, row),
    {
        if row != 0 {
            return None;
        }
        let ghost names = team_names(*self);
        let mut start: usize = 3;
        let mut i: usize = 0;
        while i < self.workspaces.len()
            invariant
                i <= self.workspaces.len(),
                names == team_names(*self),
                row == 0,
                3 <= start <= 0x1_0000,
                tab_hit(names, col as int, 3, 0) == tab_hit(names, col as int, start as int, i as int),
            decreases self.workspaces.len() - i,
        {
            if start > col as usize {
                proof {
                    lemma_tab_missed(names, col as int, start as int, i as int);
                }
                return None;
            }
            let name_len = self.workspaces[i].workspace.team_name.as_str().len();
            assert(name_len == byte_len(names[i as int]));
            let gap: usize = col as usize - start;
            if gap < 4 || gap - 4 < name_len {
                return Some(HitTarget::WorkspaceTab(i));
            }
            start = start + name_len + 5;
            i += 1;
        }
        None
    }

    /// The divider under the cell.
    pub fn hit_divider(&self, col: u16, row: u16) -> (r: Option<HitTarget>)
        ensures
            r == self.divider_hit(col, row),
    {
        match (self.layout.get_sidebar_rect(), self.layout.get_agent_rect()) {
            (Some(sidebar), Some(agent)) => {
                if row >= sidebar.y && (row as u32) < sidebar.y as u32 + sidebar.height as u32
                    && col as u32 == sidebar.x as u32 + sidebar.width as u32 {
                    return Some(HitTarget::SidebarDivider);
                }
                let divider: u16 = if agent.x > 0 {
                    agent.x - 1
                } else {
                    0
                };
                if row >= agent.y && (row as u32) < agent.y as u32 + agent.height as u32 && col
                    == divider {
                    return Some(HitTarget::AgentDivider);
                }
                None
            },
            _ => None,
        }
    }

    /// What the first panel that holds the cell has under it.
    pub fn hit_panel(&self, col: u16, row: u16) -> (r: Option<HitTarget>)
        ensures
            r == self.panel_hit(col, row),
    {
        let panels = self.layout.get_panels();
        let mut i: usize = 0;
        while i < panels.len()
            invariant
                i <= panels.len(),
                panels@ == self.layout.cached_panels@,
                panel_at(panels@, col, row, 0) == panel_at(panels@, col, row, i as int),
            decreases panels.len() - i,
        {
            if rect_contains(panels[i].rect, col, row) {
                return match panels[i].panel_type {
                    PanelType::Sidebar => self.hit_sidebar(panels[i].rect, row),
                    PanelType::Topbar => self.hit_topbar(col, row),
                    _ => None,
                };
            }
            i += 1;
        }
        None
    }

    /// What lies under the cell.
    pub fn hit_test(&self, col: u16, row: u16) -> (r: Option<HitTarget>)
        ensures
            r == self.hit(col, row),
    {
        match self.hit_divider(col, row) {
            Some(target) => Some(target),
            None => self.hit_panel(col, row),
        }
    }

    /// The message under the cell: the id of the selected channel and the
    /// timestamp id of the message.
    pub open spec fn message_under(self, col: u16, row: u16) -> Option<(Seq<char>, Seq<char>)> {
        match self.active_channel() {
            Some(id) => match message_hit(
                self.layout.cached_panels@,
                self.chat@.messages_in(id),
                self.scroll_offset,
                col,
                row,
                0,
            ) {
                Some(ts) => if self.chat@.messages.contains_key(id) {
                    Some((id, ts))
                } else {
                    None
                },
                None => None,
            },
            None => None,
        }
    }

    /// The message under the cell.
    pub fn hit_test_message(&self, col: u16, row: u16) -> (r: Option<(String, String)>)
        ensures
            opt_pair(r) == self.message_under(col, row),
    {
        let id = match self.get_active_channel_id() {
            Some(id) => id,
            None => {
                return None;
            },
        };
        let queue = match self.chat.messages.get(id.as_str()) {
            Some(queue) => queue,
            None => {
                proof {
                    lemma_no_message_hit(
                        self.layout.cached_panels@,
                        self.chat@.messages_in(id@),
                        self.scroll_offset,
                        col,
                        row,
                        0,
                    );
                }
                return None;
            },
        };
        let ghost all = message_views(queue@);
        let panels = self.layout.get_panels();
        let mut i: usize = 0;
        while i < panels.len()
            invariant
                i <= panels.len(),
                panels@ == self.layout.cached_panels@,
                all == message_views(queue@),
                self.active_channel() == Some(id@),
                self.chat@.messages_in(id@) == all,
                self.chat@.messages.contains_key(id@),
                message_hit(panels@, all, self.scroll_offset, col, row, 0) == message_hit(
                    panels@,
                    all,
                    self.scroll_offset,
                    col,
                    row,
                    i as int,
                ),
            decreases panels.len() - i,
        {
            let panel = &panels[i];
            let rect = panel.rect;
            if panel.panel_type == PanelType::Messages && col >= rect.x && (col as u32)
                < rect.x as u32 + rect.width as u32 {
                let relative: u64 = if row >= rect.y {
                    (row - rect.y) as u64
                } else {
                    0
                };
                let wide: u128 = relative as u128 + self.scroll_offset as u128;
                let line: u128 = if wide >= rect.y as u128 {
                    wide - rect.y as u128
                } else {
                    0
                };
                assert(line == message_line(rect, row, self.scroll_offset));
                if line < queue.len() as u128 {
                    let m = &queue[line as usize];
                    assert(all[line as int] == m@);
                    return Some((id, m.ts.clone()));
                }
            }
            i += 1;
        }
        None
    }

    /// `after` is `self` after a press of the left button: the cell is
    /// remembered, what lies under it is chosen, and the context menu is
    /// closed. A channel is selected, a workspace tab switches the
    /// workspace, a divider begins a drag.
    pub open spec fn left_down_result(self, col: u16, row: u16, after: App, r: Option<Command>)
        -> bool {
        let marked = App { last_mouse_pos: (col, row), ..self };
        match self.hit(col, row) {
            Some(HitTarget::Channel(idx)) => runs_at_most(r) && marked.channel_selected(
                idx,
                App { context_menu: self.context_menu, ..after },
                task_in(r),
            ) && after.context_menu is None,
            Some(HitTarget::WorkspaceTab(idx)) => marked.switched_to(
                idx,
                App { context_menu: self.context_menu, ..after },
                r is Some,
            ) && after.context_menu is None && (r is Some ==> r->0 is StoreSession),
            Some(HitTarget::SidebarDivider) => r is None && after == (App {
                drag_target: Some(DragTarget::Sidebar),
                context_menu: None,
                ..marked
            }),
            Some(HitTarget::AgentDivider) => r is None && after == (App {
                drag_target: Some(DragTarget::AgentPanel),
                context_menu: None,
                ..marked
            }),
            None => r is None && after == (App { context_menu: None, ..marked }),
        }
    }

    /// Takes a press of the left button.
    pub fn left_down(&mut self, col: u16, row: u16) -> (r: Option<Command>)
        ensures
            old(self).left_down_result(col, row, *final(self), r),
    {
        let target = self.hit_test(col, row);
        self.last_mouse_pos = (col, row);
        let r = match target {
            Some(HitTarget::Channel(idx)) => run(self.select_channel(idx)),
            Some(HitTarget::WorkspaceTab(idx)) => if self.switch_workspace(idx) {
                Some(Command::StoreSession)
            } else {
                None
            },
            Some(HitTarget::SidebarDivider) => {
                self.drag_target = Some(DragTarget::Sidebar);
                None
            },
            Some(HitTarget::AgentDivider) => {
                self.drag_target = Some(DragTarget::AgentPanel);
                None
            },
            None => None,
        };
        self.context_menu = None;
        r
    }

    /// `after` is `self` after a press of the right button: over a
    /// message, the message is remembered and its menu opens at the cell.
    pub open spec fn right_down_result(self, col: u16, row: u16, after: App) -> bool {
        match self.message_under(col, row) {
            Some(target) => after == (App {
                selected_message: after.selected_message,
                context_menu: after.context_menu,
                ..self
            }) && opt_pair(after.selected_message) == Some(target) && after.context_menu is Some
                && ({
                let menu = after.context_menu->0;
                &&& menu.x == col
                &&& menu.y == row
                &&& menu.selected == 0
                &&& menu.items@.len() == 6
                &&& forall|i: int|
                    0 <= i < 6 ==> (#[trigger] menu.items@[i]).action == message_actions()[i]
            }),
            None => after == self,
        }
    }

    /// Takes a press of the right button.
    pub fn right_down(&mut self, col: u16, row: u16)
        ensures
            old(self).right_down_result(col, row, *final(self)),
    {
        match self.hit_test_message(col, row) {
            Some(target) => {
                self.selected_message = Some(target);
                self.context_menu = Some(ContextMenu::for_message(col, row));
            },
            None => {},
        }
    }

    /// `after` is `self` after a move of the mouse with the left button
    /// down: a divider that is being dragged follows the mouse by as many
    /// columns as it moved, and the cell is remembered.
    pub open spec fn drag_result(self, col: u16, row: u16, after: App) -> bool {
        match self.drag_target {
            Some(target) => {
                let delta = col - self.last_mouse_pos.0;
                after == (App {
                    last_mouse_pos: (col, row),
                    layout: LayoutState {
                        sidebar_width: match target {
                            DragTarget::Sidebar => clamped(
                                self.layout.sidebar_width + delta,
                                crate::layout::MIN_SIDEBAR_WIDTH as int,
                                crate::layout::MAX_SIDEBAR_WIDTH as int,
                            ) as u16,
                            DragTarget::AgentPanel => self.layout.sidebar_width,
                        },
                        agent_width: match target {
                            DragTarget::Sidebar => self.layout.agent_width,
                            DragTarget::AgentPanel => clamped(
                                self.layout.agent_width - delta,
                                crate::layout::MIN_AGENT_WIDTH as int,
                                crate::layout::MAX_AGENT_WIDTH as int,
                            ) as u16,
                        },
                        ..self.layout
                    },
                    ..self
                })
            },
            None => after == self,
        }
    }

    /// Takes a move of the mouse with the left button down.
    pub fn drag(&mut self, col: u16, row: u16)
        ensures
            old(self).drag_result(col, row, *final(self)),
    {
        match self.drag_target {
            Some(target) => {
                let delta: i32 = col as i32 - self.last_mouse_pos.0 as i32;
                self.layout.handle_drag_wide(target, delta);
                self.last_mouse_pos = (col, row);
            },
            None => {},
        }
    }

    /// `after` is `self` after what the mouse did.
    pub open spec fn mouse_result(self, mouse: MouseEvent, after: App, r: Option<Command>) -> bool {
        match mouse.kind {
            MouseKind::LeftDown => self.left_down_result(mouse.column, mouse.row, after, r),
            MouseKind::RightDown => r is None && self.right_down_result(
                mouse.column,
                mouse.row,
                after,
            ),
            MouseKind::LeftDrag => r is None && self.drag_result(mouse.column, mouse.row, after),
            MouseKind::LeftUp => r is None && after == (App { drag_target: None, ..self }),
            MouseKind::ScrollDown => r is None && after == (App {
                scroll_offset: stepped_up(self.scroll_offset),
                ..self
            }),
            MouseKind::ScrollUp => r is None && after == (App {
                scroll_offset: stepped_down(self.scroll_offset),
                ..self
            }),
            MouseKind::Other => r is None && after == self,
        }
    }

    /// Takes what the mouse did.
    pub fn handle_mouse_event(&mut self, mouse: MouseEvent) -> (r: Option<Command>)
        ensures
            old(self).mouse_result(mouse, *final(self), r),
    {
        match mouse.kind {
            MouseKind::LeftDown => self.left_down(mouse.column, mouse.row),
            MouseKind::RightDown => {
                self.right_down(mouse.column, mouse.row);
                None
            },
            MouseKind::LeftDrag => {
                self.drag(mouse.column, mouse.row);
                None
            },
            MouseKind::LeftUp => {
                self.drag_target = None;
                None
            },
            MouseKind::ScrollDown => {
                if self.scroll_offset < usize::MAX {
                    self.scroll_offset += 1;
                }
                None
            },
            MouseKind::ScrollUp => {
                if self.scroll_offset > 0 {
                    self.scroll_offset -= 1;
                }
                None
            },
            MouseKind::Other => None,
        }
    }
}

impl App {
    /// `after` is `self` after what the terminal reported: a key and the
    /// mouse do what they do, and nothing else changes anything.
    pub open spec fn event_result(self, event: Event, after: App, r: Option<Command>) -> bool {
        match event {
            Event::Key(key) => self.key_result(key, after, r),
            Event::Mouse(mouse) => self.mouse_result(mouse, after, r),
            _ => after == self && r is None,
        }
    }

    /// Takes what the terminal reported.
    pub fn handle_event(&mut self, event: Event) -> (r: Option<Command>)
        ensures
            old(self).event_result(event, *final(self), r),
    {
        match event {
            Event::Key(key) => self.handle_key_event(key),
            Event::Mouse(mouse) => self.handle_mouse_event(mouse),
            _ => None,
        }
    }
}

/// No tab that starts right of a column holds the column.
proof fn lemma_tab_missed(names: Seq<Seq<char>>, col: int, start: int, from: int)
    requires
        col < start,
        0 <= from,
    ensures
        tab_hit(names, col, start, from) is None,
    decreases names.len() - from,
{
    if from < names.len() {
        lemma_tab_missed(names, col, start + byte_len(names[from]) + 5, from + 1);
    }
}

/// Without messages no cell holds a message.
proof fn lemma_no_message_hit(
    panels: Seq<Panel>,
    messages: Seq<MessageView>,
    scroll: usize,
    col: u16,
    row: u16,
    from: int,
)
    requires
        messages.len() == 0,
        0 <= from,
    ensures
        message_hit(panels, messages, scroll, col, row, from) is None,
    decreases panels.len() - from,
{
    if from < panels.len() {
        lemma_no_message_hit(panels, messages, scroll, col, row, from + 1);
    }
}

} // verus!
