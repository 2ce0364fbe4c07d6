//! The panels of the screen and their widths.

use ratatui::layout::Constraint;
use vstd::prelude::*;

verus! {

/// A divider that can be dragged.
#[derive(Clone, Copy, Debug, PartialEq, Eq)]
pub enum DragTarget {
    Sidebar,
    AgentPanel,
}

/// A panel of the screen.
#[derive(Clone, Copy, Debug, PartialEq, Eq, Structural)]
pub enum PanelType {
    Topbar,
    Sidebar,
    Messages,
    AgentPanel,
    InputBar,
}

/// A rectangle of the screen, in cells.
#[derive(Clone, Copy, Debug, PartialEq, Eq)]
pub struct Rect {
    pub x: u16,
    pub y: u16,
    pub width: u16,
    pub height: u16,
}

/// A panel and the rectangle it is drawn in.
#[derive(Clone, Copy, Debug, PartialEq, Eq)]
pub struct Panel {
    pub panel_type: PanelType,
    pub rect: Rect,
}

pub const MIN_SIDEBAR_WIDTH: u16 = 15;

pub const MAX_SIDEBAR_WIDTH: u16 = 35;

pub const MIN_AGENT_WIDTH: u16 = 20;

pub const MAX_AGENT_WIDTH: u16 = 40;

pub const TOPBAR_HEIGHT: u16 = 1;

pub const INPUT_HEIGHT: u16 = 3;

pub const MIN_MESSAGES_WIDTH: u16 = 40;

/// `value` held between `low` and `high`.
pub open spec fn clamped(value: int, low: int, high: int) -> int {
    if value < low {
        low
    } else if value > high {
        high
    } else {
        value
    }
}

/// The direction in which an area is split.
#[derive(Clone, Copy, Debug, PartialEq, Eq)]
pub enum Axis {
    /// Into rows, one under the other.
    Rows,
    /// Into columns, side by side.
    Columns,
}

/// `part` reaches across `area` in the direction that a split along `axis`
/// leaves alone: a row has the columns of the area, a column its rows.
pub open spec fn spans(axis: Axis, area: Rect, part: Rect) -> bool {
    match axis {
        Axis::Rows => part.x == area.x && part.width == area.width,
        Axis::Columns => part.y == area.y && part.height == area.height,
    }
}

/// `parts` are three parts of `area`, each reaching across it.
pub open spec fn is_split(axis: Axis, area: Rect, parts: Seq<Rect>) -> bool {
    &&& parts.len() == 3
    &&& forall|i: int| 0 <= i < parts.len() ==> spans(axis, area, #[trigger] parts[i])
}

/// Splits `area` in three with `ratatui::layout::Layout::split`: a first
/// part of the length `first`, a middle of at least `middle`, and a last
/// part of the length `last`. One rectangle comes back for each of the
/// three constraints, and each takes from `area`, unchanged, the position
/// and size across the direction of the split. Where along that direction
/// a part starts and ends is the solver's answer; it may settle
/// conflicting constraints in more than one way, so nothing is claimed of
/// that.
#[verifier::external_body]
fn split(axis: Axis, first: u16, middle: u16, last: u16, area: Rect) -> (r: Vec<Rect>)
    ensures
        is_split(axis, area, r@),
{
    let direction = match axis {
        Axis::Rows => ratatui::layout::Direction::Vertical,
        Axis::Columns => ratatui::layout::Direction::Horizontal,
    };
    let parts = [Constraint::Length(first), Constraint::Min(middle), Constraint::Length(last)];
    let outer = ratatui::layout::Rect { x: area.x, y: area.y, width: area.width, height: area.height };
    ratatui::layout::Layout::new(direction, parts).split(outer).iter().map(
        |r| Rect { x: r.x, y: r.y, width: r.width, height: r.height },
    ).collect()
}

/// The widths of the side panels and the panels of the last layout.
#[derive(Debug)]
pub struct LayoutState {
    pub sidebar_width: u16,
    pub agent_width: u16,
    pub cached_panels: Vec<Panel>,
}

/// The first panel of the kind `kind` at or after index `from`.
pub open spec fn panel_rect(panels: Seq<Panel>, kind: PanelType, from: int) -> Option<Rect>
    decreases panels.len() - from,
{
    if from < 0 || from >= panels.len() {
        None
    } else if panels[from].panel_type == kind {
        Some(panels[from].rect)
    } else {
        panel_rect(panels, kind, from + 1)
    }
}

/// The five panels of the screen, from the rows `rows` of the screen and
/// the columns `columns` of its middle row.
pub open spec fn panels_of(rows: Seq<Rect>, columns: Seq<Rect>) -> Seq<Panel> {
    seq![
        Panel { panel_type: PanelType::Topbar, rect: rows[0] },
        Panel { panel_type: PanelType::Sidebar, rect: columns[0] },
        Panel { panel_type: PanelType::Messages, rect: columns[1] },
        Panel { panel_type: PanelType::AgentPanel, rect: columns[2] },
        Panel { panel_type: PanelType::InputBar, rect: rows[2] },
    ]
}

/// `panels` are the five panels of a layout of the screen `area`: the
/// screen is split into three rows, of which the first is the top bar and
/// the last the input bar, and the middle row into three columns, which
/// are the sidebar, the messages and the agent panel.
pub open spec fn laid_out(area: Rect, panels: Seq<Panel>) -> bool {
    exists|rows: Seq<Rect>, columns: Seq<Rect>|
        is_split(Axis::Rows, area, rows) && is_split(Axis::Columns, rows[1], columns) && panels
            == #[trigger] panels_of(rows, columns)
}

/// In a layout of `area` the five panels stand in their order; the top bar
/// and the input bar reach from the left edge of the area to its right
/// edge, and the three panels between them stand in one row that does so
/// too: they start and end on the same lines.
pub proof fn lemma_laid_out(area: Rect, panels: Seq<Panel>)
    requires
        laid_out(area, panels),
    ensures
        panels.len() == 5,
        panels[0].panel_type == PanelType::Topbar,
        panels[1].panel_type == PanelType::Sidebar,
        panels[2].panel_type == PanelType::Messages,
        panels[3].panel_type == PanelType::AgentPanel,
        panels[4].panel_type == PanelType::InputBar,
        spans(Axis::Rows, area, panels[0].rect),
        spans(Axis::Rows, area, panels[4].rect),
        panels[1].rect.y == panels[2].rect.y == panels[3].rect.y,
        panels[1].rect.height == panels[2].rect.height == panels[3].rect.height,
        panel_rect(panels, PanelType::Sidebar, 0) == Some(panels[1].rect),
        panel_rect(panels, PanelType::AgentPanel, 0) == Some(panels[3].rect),
{
    let (rows, columns) = choose|rows: Seq<Rect>, columns: Seq<Rect>|
        is_split(Axis::Rows, area, rows) && is_split(Axis::Columns, rows[1], columns) && panels
            == #[trigger] panels_of(rows, columns);
    assert(spans(Axis::Rows, area, rows[0]) && spans(Axis::Rows, area, rows[2]));
    assert(spans(Axis::Columns, rows[1], columns[0]));
    assert(spans(Axis::Columns, rows[1], columns[1]));
    assert(spans(Axis::Columns, rows[1], columns[2]));
    reveal_with_fuel(panel_rect, 5);
}

impl LayoutState {
    /// The widths lie in their ranges.
    pub open spec fn well_formed(self) -> bool {
        &&& MIN_SIDEBAR_WIDTH <= self.sidebar_width <= MAX_SIDEBAR_WIDTH
        &&& MIN_AGENT_WIDTH <= self.agent_width <= MAX_AGENT_WIDTH
    }

    /// Keeps the panels made of the rows of the screen and the columns of
    /// its middle row. Where either split brought fewer than three
    /// rectangles the panels stay as they were.
    pub fn set_panels(&mut self, rows: &Vec<Rect>, columns: &Vec<Rect>)
        ensures
            final(self).sidebar_width == old(self).sidebar_width,
            final(self).agent_width == old(self).agent_width,
            final(self).cached_panels@ == if rows@.len() >= 3 && columns@.len() >= 3 {
                panels_of(rows@, columns@)
            } else {
                old(self).cached_panels@
            },
    {
        if rows.len() >= 3 && columns.len() >= 3 {
            let mut panels: Vec<Panel> = Vec::new();
            panels.push(Panel { panel_type: PanelType::Topbar, rect: rows[0] });
            panels.push(Panel { panel_type: PanelType::Sidebar, rect: columns[0] });
            panels.push(Panel { panel_type: PanelType::Messages, rect: columns[1] });
            panels.push(Panel { panel_type: PanelType::AgentPanel, rect: columns[2] });
            panels.push(Panel { panel_type: PanelType::InputBar, rect: rows[2] });
            assert(panels@ =~= panels_of(rows@, columns@));
            self.cached_panels = panels;
        }
    }

    /// Lays the screen `area` out anew and keeps the panels: the top bar,
    /// the sidebar, the messages, the agent panel and the input bar, in
    /// this order. The widths do not change.
    pub fn calculate_layout(&mut self, area: Rect)
        ensures
            final(self).sidebar_width == old(self).sidebar_width,
            final(self).agent_width == old(self).agent_width,
            laid_out(area, final(self).cached_panels@),
    {
        let rows = split(Axis::Rows, TOPBAR_HEIGHT, 1, INPUT_HEIGHT, area);
        let columns = split(
            Axis::Columns,
            self.sidebar_width,
            MIN_MESSAGES_WIDTH,
            self.agent_width,
            rows[1],
        );
        self.set_panels(&rows, &columns);
        assert(is_split(Axis::Rows, area, rows@) && is_split(Axis::Columns, rows@[1], columns@)
            && self.cached_panels@ == panels_of(rows@, columns@));
    }

    /// The panels of the last layout.
    pub fn get_panels(&self) -> (r: &Vec<Panel>)
        ensures
            r@ == self.cached_panels@,
    {
        &self.cached_panels
    }

    /// Moves a divider by `delta` columns: the sidebar grows with a move
    /// to the right, the agent panel with a move to the left, each within
    /// its range.
    pub fn handle_drag(&mut self, target: DragTarget, delta: i16)
        ensures
            final(self).cached_panels == old(self).cached_panels,
            match target {
                DragTarget::Sidebar => final(self).sidebar_width == clamped(
                    old(self).sidebar_width + delta,
                    MIN_SIDEBAR_WIDTH as int,
                    MAX_SIDEBAR_WIDTH as int,
                ) && final(self).agent_width == old(self).agent_width,
                DragTarget::AgentPanel => final(self).agent_width == clamped(
                    old(self).agent_width - delta,
                    MIN_AGENT_WIDTH as int,
                    MAX_AGENT_WIDTH as int,
                ) && final(self).sidebar_width == old(self).sidebar_width,
            },
            old(self).well_formed() ==> final(self).well_formed(),
    {
        match target {
            DragTarget::Sidebar => {
                let moved: i32 = self.sidebar_width as i32 + delta as i32;
                self.sidebar_width = clamp_width(moved, MIN_SIDEBAR_WIDTH, MAX_SIDEBAR_WIDTH);
            },
            DragTarget::AgentPanel => {
                let moved: i32 = self.agent_width as i32 - delta as i32;
                self.agent_width = clamp_width(moved, MIN_AGENT_WIDTH, MAX_AGENT_WIDTH);
            },
        }
    }

    /// Moves a divider by `delta` columns, for a move of any width.
    pub(crate) fn handle_drag_wide(&mut self, target: DragTarget, delta: i32)
        requires
            -0x10000 < delta < 0x10000,
        ensures
            final(self).cached_panels == old(self).cached_panels,
            match target {
                DragTarget::Sidebar => final(self).sidebar_width == clamped(
                    old(self).sidebar_width + delta,
                    MIN_SIDEBAR_WIDTH as int,
                    MAX_SIDEBAR_WIDTH as int,
                ) && final(self).agent_width == old(self).agent_width,
                DragTarget::AgentPanel => final(self).agent_width == clamped(
                    old(self).agent_width - delta,
                    MIN_AGENT_WIDTH as int,
                    MAX_AGENT_WIDTH as int,
                ) && final(self).sidebar_width == old(self).sidebar_width,
            },
            old(self).well_formed() ==> final(self).well_formed(),
    {
        match target {
            DragTarget::Sidebar => {
                let moved: i32 = self.sidebar_width as i32 + delta;
                self.sidebar_width = clamp_width(moved, MIN_SIDEBAR_WIDTH, MAX_SIDEBAR_WIDTH);
            },
            DragTarget::AgentPanel => {
                let moved: i32 = self.agent_width as i32 - delta;
                self.agent_width = clamp_width(moved, MIN_AGENT_WIDTH, MAX_AGENT_WIDTH);
            },
        }
    }

    /// The rectangle of the first panel of the kind `kind`.
    fn find_rect(&self, kind: PanelType) -> (r: Option<Rect>)
        ensures
            r == panel_rect(self.cached_panels@, kind, 0),
    {
        let mut i: usize = 0;
        while i < self.cached_panels.len()
            invariant
                i <= self.cached_panels.len(),
                panel_rect(self.cached_panels@, kind, 0) == panel_rect(
                    self.cached_panels@,
                    kind,
                    i as int,
                ),
            decreases self.cached_panels.len() - i,
        {
            if self.cached_panels[i].panel_type == kind {
                return Some(self.cached_panels[i].rect);
            }
            i += 1;
        }
        None
    }

    /// The rectangle of the sidebar in the last layout.
    pub fn get_sidebar_rect(&self) -> (r: Option<Rect>)
        ensures
            r == panel_rect(self.cached_panels@, PanelType::Sidebar, 0),
    {
        self.find_rect(PanelType::Sidebar)
    }

    /// The rectangle of the agent panel in the last layout.
    pub fn get_agent_rect(&self) -> (r: Option<Rect>)
        ensures
            r == panel_rect(self.cached_panels@, PanelType::AgentPanel, 0),
    {
        self.find_rect(PanelType::AgentPanel)
    }
}

/// `value` held between `low` and `high`.
fn clamp_width(value: i32, low: u16, high: u16) -> (r: u16)
    requires
        low <= high,
    ensures
        r == clamped(value as int, low as int, high as int),
{
    if value < low as i32 {
        low
    } else if value > high as i32 {
        high
    } else {
        value as u16
    }
}

impl Default for LayoutState {
    fn default() -> (r: LayoutState)
        ensures
            r.sidebar_width == 20,
            r.agent_width == 26,
            r.cached_panels@.len() == 0,
            r.well_formed(),
    {
        LayoutState { sidebar_width: 20, agent_width: 26, cached_panels: Vec::new() }
    }
}

} // verus!
