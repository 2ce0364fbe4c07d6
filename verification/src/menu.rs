//! The context menu of a message and what hangs on it.

use vstd::prelude::*;

verus! {

/// What an entry of the context menu does.
#[derive(Clone, Copy, Debug, PartialEq, Eq)]
pub enum ContextMenuAction {
    Reply,
    React,
    Edit,
    Delete,
    Copy,
    ViewThread,
}

/// An entry of the context menu.
#[derive(Debug)]
pub struct ContextMenuItem {
    pub label: String,
    pub action: ContextMenuAction,
}

/// The context menu of a message.
#[derive(Debug)]
pub struct ContextMenu {
    pub x: u16,
    pub y: u16,
    pub items: Vec<ContextMenuItem>,
    pub selected: usize,
}

/// The message that is being edited.
#[derive(Debug)]
pub struct EditState {
    pub channel_id: String,
    pub ts: String,
    pub original_text: String,
}

/// Which messages are shown.
#[derive(Debug)]
pub struct MessageFilter {
    pub user_id: Option<String>,
    pub show_threads: bool,
}

impl Default for MessageFilter {
    fn default() -> (r: MessageFilter)
        ensures
            r.user_id is None,
            r.show_threads,
    {
        MessageFilter { user_id: None, show_threads: true }
    }
}

/// The actions of the menu of a message, in the order of its entries.
pub open spec fn message_actions() -> Seq<ContextMenuAction> {
    seq![
        ContextMenuAction::Reply,
        ContextMenuAction::React,
        ContextMenuAction::Edit,
        ContextMenuAction::Delete,
        ContextMenuAction::Copy,
        ContextMenuAction::ViewThread,
    ]
}

/// The labels of the menu of a message, in the order of its entries.
pub open spec fn message_labels() -> Seq<Seq<char>> {
    seq!["Reply"@, "React"@, "Edit"@, "Delete"@, "Copy"@, "View Thread"@]
}

impl ContextMenu {
    /// The menu of a message at the cell `(x, y)`, with its first entry
    /// selected.
    pub fn for_message(x: u16, y: u16) -> (r: ContextMenu)
        ensures
            r.x == x,
            r.y == y,
            r.selected == 0,
            r.items@.len() == 6,
            forall|i: int|
                0 <= i < 6 ==> (#[trigger] r.items@[i]).action == message_actions()[i]
                    && r.items@[i].label@ == message_labels()[i],
    {
        let mut items: Vec<ContextMenuItem> = Vec::new();
        items.push(ContextMenuItem { label: "Reply".to_owned(), action: ContextMenuAction::Reply });
        items.push(ContextMenuItem { label: "React".to_owned(), action: ContextMenuAction::React });
        items.push(ContextMenuItem { label: "Edit".to_owned(), action: ContextMenuAction::Edit });
        items.push(
            ContextMenuItem { label: "Delete".to_owned(), action: ContextMenuAction::Delete },
        );
        items.push(ContextMenuItem { label: "Copy".to_owned(), action: ContextMenuAction::Copy });
        items.push(
            ContextMenuItem {
                label: "View Thread".to_owned(),
                action: ContextMenuAction::ViewThread,
            },
        );
        ContextMenu { x, y, items, selected: 0 }
    }

    /// Moves the selection one entry up; the first entry stays.
    pub fn select_previous(&mut self)
        ensures
            final(self).selected == if old(self).selected > 0 {
                (old(self).selected - 1) as usize
            } else {
                0
            },
            final(self).items == old(self).items,
            final(self).x == old(self).x,
            final(self).y == old(self).y,
    {
        if self.selected > 0 {
            self.selected -= 1;
        }
    }

    /// Moves the selection one entry down; the last entry stays.
    pub fn select_next(&mut self)
        ensures
            final(self).selected == if old(self).selected + 1 < old(self).items@.len() {
                (old(self).selected + 1) as usize
            } else {
                old(self).selected
            },
            final(self).items == old(self).items,
            final(self).x == old(self).x,
            final(self).y == old(self).y,
    {
        if self.items.len() > 0 && self.selected < self.items.len() - 1 {
            self.selected += 1;
        }
    }

    /// The action of the selected entry.
    pub fn selected_action(&self) -> (r: Option<ContextMenuAction>)
        ensures
            r == if self.selected < self.items@.len() {
                Some(self.items@[self.selected as int].action)
            } else {
                None
            },
    {
        if self.selected < self.items.len() {
            Some(self.items[self.selected].action)
        } else {
            None
        }
    }
}

} // verus!
