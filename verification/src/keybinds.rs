//! The keyboard shortcuts, as the help screen lists them.

use vstd::prelude::*;

verus! {

/// The text of the help screen.
pub const HELP_TEXT: &'static str =
    "Keyboard Shortcuts:\n\nFocus (Tab to cycle):\n  Tab           Cycle: Sidebar > Messages > Input\n  i             Enter input mode (from Sidebar/Messages)\n  Esc           Return to Sidebar focus\n\nSidebar focus:\n  j / Down      Move channel cursor down\n  k / Up        Move channel cursor up\n  Enter         Open highlighted channel\n\nMessages focus:\n  j / Down      Scroll down\n  k / Up        Scroll up\n\nInput focus:\n  (all keys go to input, no shortcuts)\n  Enter         Send message, return to Sidebar\n  Esc           Clear input, return to Sidebar\n\nGlobal (any focus):\n  Alt+Up/Down   Switch channel\n  Ctrl+W        Workspace picker\n  Ctrl+K        Channel search\n  Ctrl+C        Copy selected message\n  Ctrl+Q        Quit\n  ?             Toggle this help\n\nShortcuts (Sidebar/Messages only):\n  t  thread   e  edit   d  delete   D  history\n  r  react    g  jump   f  filter   E  error\n\nAgent (in Input focus):\n  /             Start agent command\n  @zeroclaw     Mention agent\n\nMouse:\n  Click         Select channel / workspace\n  Scroll        Scroll messages\n  Drag          Resize panels\n";

/// The keyboard shortcuts.
#[derive(Clone, Copy, Debug)]
pub struct Keybinds;

impl Keybinds {
    /// The text of the help screen.
    pub fn help_text(&self) -> (r: String)
        ensures
            r@ == HELP_TEXT@,
    {
        HELP_TEXT.to_owned()
    }
}

impl Default for Keybinds {
    fn default() -> Keybinds {
        Keybinds
    }
}

} // verus!
