//! The command catalog of the command palette: every default action with
//! its shortcut, how it is carried out and whether the palette runs it yet.

use vstd::prelude::*;

use crate::text::{push_str, str_eq};

verus! {

/// How the action is carried out.
#[derive(Debug, Clone, Copy, PartialEq, Eq, Structural)]
pub enum CommandKind {
    /// Mux / pane / config API.
    CallCore,
    /// Window chrome (font, tabs, quit, hide, fullscreen, second window).
    GpuiWindow,
    /// Needs an overlay or modal (search, copy mode, charselect, launcher, ...).
    GpuiUi,
    /// Opens a URL.
    OpenUrl,
    /// Key tables / input map.
    InputMap,
}

/// Whether the palette executes the row today.
#[derive(Debug, Clone, Copy, PartialEq, Eq, Structural)]
pub enum CommandStatus {
    Wired,
    Listed,
}

#[derive(Debug, Clone, Copy)]
pub struct PaletteCommand {
    pub id: &'static str,
    pub brief: &'static str,
    pub doc: &'static str,
    pub menubar: &'static str,
    pub keys: &'static str,
    pub kind: CommandKind,
    pub status: CommandStatus,
}

/// The text the palette filter searches: `"menubar: brief. doc keys"`.
pub open spec fn spec_haystack(c: PaletteCommand) -> Seq<char> {
    c.menubar@ + ": "@ + c.brief@ + ". "@ + c.doc@ + " "@ + c.keys@
}

impl PaletteCommand {
    pub fn is_wired(self) -> (r: bool)
        ensures
            r == (self.status == CommandStatus::Wired),
    {
        self.status == CommandStatus::Wired
    }

    /// The text the palette filter searches.
    pub fn haystack(self) -> (r: String)
        ensures
            r@ == spec_haystack(self),
    {
        let mut s = String::new();
        push_str(&mut s, self.menubar);
        push_str(&mut s, ": ");
        push_str(&mut s, self.brief);
        push_str(&mut s, ". ");
        push_str(&mut s, self.doc);
        push_str(&mut s, " ");
        push_str(&mut s, self.keys);
        assert(s@ =~= spec_haystack(self));
        s
    }
}

pub open spec fn catalog_part_0() -> Seq<PaletteCommand> {
    seq![
        PaletteCommand { id: "ReloadConfiguration", brief: "Reload configuration", doc: "Reloads the configuration file", menubar: "WezTerm", keys: "Shift-Ctrl-R", kind: CommandKind::CallCore, status: CommandStatus::Listed },
        PaletteCommand { id: "SpawnTab.CurrentPaneDomain", brief: "New Tab", doc: "Create a new tab in the same domain as the current pane", menubar: "Shell", keys: "Shift-Ctrl-T", kind: CommandKind::CallCore, status: CommandStatus::Wired },
        PaletteCommand { id: "SpawnWindow", brief: "New Window", doc: "Launches the default program into a new window", menubar: "Shell", keys: "Shift-Ctrl-N", kind: CommandKind::GpuiWindow, status: CommandStatus::Listed },
        PaletteCommand { id: "SplitVertical", brief: "Split Vertically (Top/Bottom)", doc: "Split the current pane vertically into two panes, by spawning the default program into the bottom half", menubar: "Shell", keys: "Ctrl-Alt-Shift-'", kind: CommandKind::CallCore, status: CommandStatus::Wired },
        PaletteCommand { id: "SplitHorizontal", brief: "Split Horizontally (Left/Right)", doc: "Split the current pane horizontally into two panes, by spawning the default program into the right hand side", menubar: "Shell", keys: "Ctrl-Alt-Shift-5", kind: CommandKind::CallCore, status: CommandStatus::Wired },
        PaletteCommand { id: "CloseCurrentTab.confirm", brief: "Close current Tab", doc: "Closes the current tab, terminating all the processes that are running in its panes.", menubar: "Shell", keys: "Shift-Ctrl-W", kind: CommandKind::GpuiWindow, status: CommandStatus::Wired },
        PaletteCommand { id: "CloseCurrentPane.confirm", brief: "Close current Pane", doc: "Closes the current pane, terminating the processes that are running inside it.", menubar: "Shell", keys: "", kind: CommandKind::CallCore, status: CommandStatus::Wired },
        PaletteCommand { id: "DetachDomain.CurrentPaneDomain", brief: "Detach the domain of the active pane", doc: "Detaches (disconnects from) the domain of the active pane", menubar: "Shell", keys: "", kind: CommandKind::CallCore, status: CommandStatus::Listed },
        PaletteCommand { id: "ResetTerminal", brief: "Reset the terminal emulation state in the current pane", doc: "Reset the terminal emulation state in the current pane", menubar: "Shell", keys: "", kind: CommandKind::CallCore, status: CommandStatus::Wired },
        PaletteCommand { id: "OpenLinkAtMouseCursor", brief: "Open link at mouse cursor", doc: "If there is no link under the mouse cursor, has no effect.", menubar: "Shell", keys: "", kind: CommandKind::CallCore, status: CommandStatus::Wired },
    ]
}

fn build_part_0(v: &mut Vec<PaletteCommand>)
    ensures
        final(v)@ == old(v)@ + catalog_part_0(),
{
    let ghost start = v@;
    v.push(PaletteCommand { id: "ReloadConfiguration", brief: "Reload configuration", doc: "Reloads the configuration file", menubar: "WezTerm", keys: "Shift-Ctrl-R", kind: CommandKind::CallCore, status: CommandStatus::Listed });
    v.push(PaletteCommand { id: "SpawnTab.CurrentPaneDomain", brief: "New Tab", doc: "Create a new tab in the same domain as the current pane", menubar: "Shell", keys: "Shift-Ctrl-T", kind: CommandKind::CallCore, status: CommandStatus::Wired });
    v.push(PaletteCommand { id: "SpawnWindow", brief: "New Window", doc: "Launches the default program into a new window", menubar: "Shell", keys: "Shift-Ctrl-N", kind: CommandKind::GpuiWindow, status: CommandStatus::Listed });
    v.push(PaletteCommand { id: "SplitVertical", brief: "Split Vertically (Top/Bottom)", doc: "Split the current pane vertically into two panes, by spawning the default program into the bottom half", menubar: "Shell", keys: "Ctrl-Alt-Shift-'", kind: CommandKind::CallCore, status: CommandStatus::Wired });
    v.push(PaletteCommand { id: "SplitHorizontal", brief: "Split Horizontally (Left/Right)", doc: "Split the current pane horizontally into two panes, by spawning the default program into the right hand side", menubar: "Shell", keys: "Ctrl-Alt-Shift-5", kind: CommandKind::CallCore, status: CommandStatus::Wired });
    v.push(PaletteCommand { id: "CloseCurrentTab.confirm", brief: "Close current Tab", doc: "Closes the current tab, terminating all the processes that are running in its panes.", menubar: "Shell", keys: "Shift-Ctrl-W", kind: CommandKind::GpuiWindow, status: CommandStatus::Wired });
    v.push(PaletteCommand { id: "CloseCurrentPane.confirm", brief: "Close current Pane", doc: "Closes the current pane, terminating the processes that are running inside it.", menubar: "Shell", keys: "", kind: CommandKind::CallCore, status: CommandStatus::Wired });
    v.push(PaletteCommand { id: "DetachDomain.CurrentPaneDomain", brief: "Detach the domain of the active pane", doc: "Detaches (disconnects from) the domain of the active pane", menubar: "Shell", keys: "", kind: CommandKind::CallCore, status: CommandStatus::Listed });
    v.push(PaletteCommand { id: "ResetTerminal", brief: "Reset the terminal emulation state in the current pane", doc: "Reset the terminal emulation state in the current pane", menubar: "Shell", keys: "", kind: CommandKind::CallCore, status: CommandStatus::Wired });
    v.push(PaletteCommand { id: "OpenLinkAtMouseCursor", brief: "Open link at mouse cursor", doc: "If there is no link under the mouse cursor, has no effect.", menubar: "Shell", keys: "", kind: CommandKind::CallCore, status: CommandStatus::Wired });
    assert(v@ =~= start + catalog_part_0());
}

pub open spec fn catalog_part_1() -> Seq<PaletteCommand> {
    seq![
        PaletteCommand { id: "ShowLauncher", brief: "Show the launcher", doc: "Shows the launcher menu", menubar: "Shell", keys: "", kind: CommandKind::GpuiUi, status: CommandStatus::Listed },
        PaletteCommand { id: "PasteFrom.PrimarySelection", brief: "Paste primary selection", doc: "Pastes text from the primary selection", menubar: "Edit", keys: "Shift-Insert", kind: CommandKind::CallCore, status: CommandStatus::Listed },
        PaletteCommand { id: "CopyTo.PrimarySelection", brief: "Copy to primary selection", doc: "Copies text to the primary selection", menubar: "Edit", keys: "Ctrl-Insert", kind: CommandKind::CallCore, status: CommandStatus::Listed },
        PaletteCommand { id: "CopyTo.Clipboard", brief: "Copy to clipboard", doc: "Copies text to the clipboard", menubar: "Edit", keys: "Shift-Ctrl-C", kind: CommandKind::CallCore, status: CommandStatus::Wired },
        PaletteCommand { id: "PasteFrom.Clipboard", brief: "Paste from clipboard", doc: "Pastes text from the clipboard", menubar: "Edit", keys: "Shift-Ctrl-V", kind: CommandKind::CallCore, status: CommandStatus::Wired },
        PaletteCommand { id: "ClearScrollback.ScrollbackOnly", brief: "Clear scrollback", doc: "Clears any text that has scrolled out of the viewport of the current pane", menubar: "Edit", keys: "Shift-Ctrl-K", kind: CommandKind::CallCore, status: CommandStatus::Wired },
        PaletteCommand { id: "ClearScrollback.ScrollbackAndViewport", brief: "Clear the scrollback and viewport", doc: "Removes all content from the screen and scrollback", menubar: "Edit", keys: "", kind: CommandKind::CallCore, status: CommandStatus::Wired },
        PaletteCommand { id: "QuickSelect", brief: "Enter QuickSelect mode", doc: "Activates the quick selection UI for the current pane", menubar: "Edit", keys: "Shift-Ctrl-Space", kind: CommandKind::GpuiUi, status: CommandStatus::Listed },
        PaletteCommand { id: "CharSelect", brief: "Enter Emoji / Character selection mode", doc: "Activates the character selection UI for the current pane", menubar: "Edit", keys: "Shift-Ctrl-U", kind: CommandKind::GpuiUi, status: CommandStatus::Listed },
        PaletteCommand { id: "ActivateCopyMode", brief: "Activate Copy Mode", doc: "Enter mouse-less copy mode to select text using only the keyboard", menubar: "Edit", keys: "Shift-Ctrl-X", kind: CommandKind::GpuiUi, status: CommandStatus::Listed },
    ]
}

fn build_part_1(v: &mut Vec<PaletteCommand>)
    ensures
        final(v)@ == old(v)@ + catalog_part_1(),
{
    let ghost start = v@;
    v.push(PaletteCommand { id: "ShowLauncher", brief: "Show the launcher", doc: "Shows the launcher menu", menubar: "Shell", keys: "", kind: CommandKind::GpuiUi, status: CommandStatus::Listed });
    v.push(PaletteCommand { id: "PasteFrom.PrimarySelection", brief: "Paste primary selection", doc: "Pastes text from the primary selection", menubar: "Edit", keys: "Shift-Insert", kind: CommandKind::CallCore, status: CommandStatus::Listed });
    v.push(PaletteCommand { id: "CopyTo.PrimarySelection", brief: "Copy to primary selection", doc: "Copies text to the primary selection", menubar: "Edit", keys: "Ctrl-Insert", kind: CommandKind::CallCore, status: CommandStatus::Listed });
    v.push(PaletteCommand { id: "CopyTo.Clipboard", brief: "Copy to clipboard", doc: "Copies text to the clipboard", menubar: "Edit", keys: "Shift-Ctrl-C", kind: CommandKind::CallCore, status: CommandStatus::Wired });
    v.push(PaletteCommand { id: "PasteFrom.Clipboard", brief: "Paste from clipboard", doc: "Pastes text from the clipboard", menubar: "Edit", keys: "Shift-Ctrl-V", kind: CommandKind::CallCore, status: CommandStatus::Wired });
    v.push(PaletteCommand { id: "ClearScrollback.ScrollbackOnly", brief: "Clear scrollback", doc: "Clears any text that has scrolled out of the viewport of the current pane", menubar: "Edit", keys: "Shift-Ctrl-K", kind: CommandKind::CallCore, status: CommandStatus::Wired });
    v.push(PaletteCommand { id: "ClearScrollback.ScrollbackAndViewport", brief: "Clear the scrollback and viewport", doc: "Removes all content from the screen and scrollback", menubar: "Edit", keys: "", kind: CommandKind::CallCore, status: CommandStatus::Wired });
    v.push(PaletteCommand { id: "QuickSelect", brief: "Enter QuickSelect mode", doc: "Activates the quick selection UI for the current pane", menubar: "Edit", keys: "Shift-Ctrl-Space", kind: CommandKind::GpuiUi, status: CommandStatus::Listed });
    v.push(PaletteCommand { id: "CharSelect", brief: "Enter Emoji / Character selection mode", doc: "Activates the character selection UI for the current pane", menubar: "Edit", keys: "Shift-Ctrl-U", kind: CommandKind::GpuiUi, status: CommandStatus::Listed });
    v.push(PaletteCommand { id: "ActivateCopyMode", brief: "Activate Copy Mode", doc: "Enter mouse-less copy mode to select text using only the keyboard", menubar: "Edit", keys: "Shift-Ctrl-X", kind: CommandKind::GpuiUi, status: CommandStatus::Listed });
    assert(v@ =~= start + catalog_part_1());
}

pub open spec fn catalog_part_2() -> Seq<PaletteCommand> {
    seq![
        PaletteCommand { id: "ClearKeyTableStack", brief: "Clear the key table stack", doc: "Removes all entries from the stack", menubar: "Edit", keys: "", kind: CommandKind::InputMap, status: CommandStatus::Listed },
        PaletteCommand { id: "ActivateCommandPalette", brief: "Activate Command Palette", doc: "Shows the command palette modal", menubar: "Edit", keys: "Shift-Ctrl-P", kind: CommandKind::GpuiUi, status: CommandStatus::Wired },
        PaletteCommand { id: "DecreaseFontSize", brief: "Decrease font size", doc: "Scales the font size smaller by 10%", menubar: "View", keys: "Ctrl--", kind: CommandKind::GpuiWindow, status: CommandStatus::Wired },
        PaletteCommand { id: "IncreaseFontSize", brief: "Increase font size", doc: "Scales the font size larger by 10%", menubar: "View", keys: "Ctrl-=", kind: CommandKind::GpuiWindow, status: CommandStatus::Wired },
        PaletteCommand { id: "ResetFontSize", brief: "Reset font size", doc: "Restores the font size to match your configuration file", menubar: "View", keys: "Ctrl-0", kind: CommandKind::GpuiWindow, status: CommandStatus::Wired },
        PaletteCommand { id: "ResetFontAndWindowSize", brief: "Reset the window and font size", doc: "Restores the original window and font size", menubar: "View", keys: "", kind: CommandKind::GpuiWindow, status: CommandStatus::Wired },
        PaletteCommand { id: "ScrollByPage.Up", brief: "Scroll Up One Page", doc: "Scrolls the viewport up by 1 page", menubar: "View", keys: "Shift-PageUp", kind: CommandKind::CallCore, status: CommandStatus::Wired },
        PaletteCommand { id: "ScrollByPage.Down", brief: "Scroll Down One Page", doc: "Scrolls the viewport down by 1 page", menubar: "View", keys: "Shift-PageDown", kind: CommandKind::CallCore, status: CommandStatus::Wired },
        PaletteCommand { id: "ScrollToTop", brief: "Scroll to the top", doc: "Scrolls to the top of the viewport", menubar: "View", keys: "", kind: CommandKind::CallCore, status: CommandStatus::Wired },
        PaletteCommand { id: "ScrollToBottom", brief: "Scroll to the bottom", doc: "Scrolls to the bottom of the viewport", menubar: "View", keys: "", kind: CommandKind::CallCore, status: CommandStatus::Wired },
    ]
}

fn build_part_2(v: &mut Vec<PaletteCommand>)
    ensures
        final(v)@ == old(v)@ + catalog_part_2(),
{
    let ghost start = v@;
    v.push(PaletteCommand { id: "ClearKeyTableStack", brief: "Clear the key table stack", doc: "Removes all entries from the stack", menubar: "Edit", keys: "", kind: CommandKind::InputMap, status: CommandStatus::Listed });
    v.push(PaletteCommand { id: "ActivateCommandPalette", brief: "Activate Command Palette", doc: "Shows the command palette modal", menubar: "Edit", keys: "Shift-Ctrl-P", kind: CommandKind::GpuiUi, status: CommandStatus::Wired });
    v.push(PaletteCommand { id: "DecreaseFontSize", brief: "Decrease font size", doc: "Scales the font size smaller by 10%", menubar: "View", keys: "Ctrl--", kind: CommandKind::GpuiWindow, status: CommandStatus::Wired });
    v.push(PaletteCommand { id: "IncreaseFontSize", brief: "Increase font size", doc: "Scales the font size larger by 10%", menubar: "View", keys: "Ctrl-=", kind: CommandKind::GpuiWindow, status: CommandStatus::Wired });
    v.push(PaletteCommand { id: "ResetFontSize", brief: "Reset font size", doc: "Restores the font size to match your configuration file", menubar: "View", keys: "Ctrl-0", kind: CommandKind::GpuiWindow, status: CommandStatus::Wired });
    v.push(PaletteCommand { id: "ResetFontAndWindowSize", brief: "Reset the window and font size", doc: "Restores the original window and font size", menubar: "View", keys: "", kind: CommandKind::GpuiWindow, status: CommandStatus::Wired });
    v.push(PaletteCommand { id: "ScrollByPage.Up", brief: "Scroll Up One Page", doc: "Scrolls the viewport up by 1 page", menubar: "View", keys: "Shift-PageUp", kind: CommandKind::CallCore, status: CommandStatus::Wired });
    v.push(PaletteCommand { id: "ScrollByPage.Down", brief: "Scroll Down One Page", doc: "Scrolls the viewport down by 1 page", menubar: "View", keys: "Shift-PageDown", kind: CommandKind::CallCore, status: CommandStatus::Wired });
    v.push(PaletteCommand { id: "ScrollToTop", brief: "Scroll to the top", doc: "Scrolls to the top of the viewport", menubar: "View", keys: "", kind: CommandKind::CallCore, status: CommandStatus::Wired });
    v.push(PaletteCommand { id: "ScrollToBottom", brief: "Scroll to the bottom", doc: "Scrolls to the bottom of the viewport", menubar: "View", keys: "", kind: CommandKind::CallCore, status: CommandStatus::Wired });
    assert(v@ =~= start + catalog_part_2());
}

pub open spec fn catalog_part_3() -> Seq<PaletteCommand> {
    seq![
        PaletteCommand { id: "ToggleFullScreen", brief: "Toggle full screen mode", doc: "Switch between normal and full screen mode", menubar: "View", keys: "Alt-Return", kind: CommandKind::GpuiWindow, status: CommandStatus::Wired },
        PaletteCommand { id: "ToggleAlwaysOnTop", brief: "Toggle always on Top", doc: "Toggles the window between floating and non-floating states to stay on top of other windows.", menubar: "Window", keys: "", kind: CommandKind::GpuiWindow, status: CommandStatus::Wired },
        PaletteCommand { id: "ToggleAlwaysOnBottom", brief: "Toggle always on Bottom", doc: "Toggles the window to remain behind all other windows.", menubar: "Window", keys: "", kind: CommandKind::GpuiWindow, status: CommandStatus::Wired },
        PaletteCommand { id: "SetWindowLevel.AlwaysOnBottom", brief: "Always on Bottom", doc: "Set window to remain behind all other windows.", menubar: "Window", keys: "", kind: CommandKind::GpuiWindow, status: CommandStatus::Wired },
        PaletteCommand { id: "SetWindowLevel.Normal", brief: "Normal", doc: "Set window level to normal", menubar: "Window", keys: "", kind: CommandKind::GpuiWindow, status: CommandStatus::Wired },
        PaletteCommand { id: "SetWindowLevel.AlwaysOnTop", brief: "Always on Top", doc: "Set the window level to be on top of other windows.", menubar: "Window", keys: "", kind: CommandKind::GpuiWindow, status: CommandStatus::Wired },
        PaletteCommand { id: "Hide", brief: "Hide/Minimize Window", doc: "Hides/Mimimizes the current window", menubar: "Window", keys: "Shift-Ctrl-M", kind: CommandKind::GpuiWindow, status: CommandStatus::Wired },
        PaletteCommand { id: "Search", brief: "Search pane output", doc: "Enters the search mode UI for the current pane", menubar: "Window", keys: "Shift-Ctrl-F", kind: CommandKind::GpuiUi, status: CommandStatus::Listed },
        PaletteCommand { id: "PaneSelect.Activate", brief: "Enter Pane selection mode", doc: "Activates the pane selection UI", menubar: "Window", keys: "", kind: CommandKind::GpuiUi, status: CommandStatus::Listed },
        PaletteCommand { id: "PaneSelect.SwapWithActive", brief: "Swap a pane with the active pane", doc: "Activates the pane selection UI", menubar: "Window", keys: "", kind: CommandKind::GpuiUi, status: CommandStatus::Listed },
    ]
}

fn build_part_3(v: &mut Vec<PaletteCommand>)
    ensures
        final(v)@ == old(v)@ + catalog_part_3(),
{
    let ghost start = v@;
    v.push(PaletteCommand { id: "ToggleFullScreen", brief: "Toggle full screen mode", doc: "Switch between normal and full screen mode", menubar: "View", keys: "Alt-Return", kind: CommandKind::GpuiWindow, status: CommandStatus::Wired });
    v.push(PaletteCommand { id: "ToggleAlwaysOnTop", brief: "Toggle always on Top", doc: "Toggles the window between floating and non-floating states to stay on top of other windows.", menubar: "Window", keys: "", kind: CommandKind::GpuiWindow, status: CommandStatus::Wired });
    v.push(PaletteCommand { id: "ToggleAlwaysOnBottom", brief: "Toggle always on Bottom", doc: "Toggles the window to remain behind all other windows.", menubar: "Window", keys: "", kind: CommandKind::GpuiWindow, status: CommandStatus::Wired });
    v.push(PaletteCommand { id: "SetWindowLevel.AlwaysOnBottom", brief: "Always on Bottom", doc: "Set window to remain behind all other windows.", menubar: "Window", keys: "", kind: CommandKind::GpuiWindow, status: CommandStatus::Wired });
    v.push(PaletteCommand { id: "SetWindowLevel.Normal", brief: "Normal", doc: "Set window level to normal", menubar: "Window", keys: "", kind: CommandKind::GpuiWindow, status: CommandStatus::Wired });
    v.push(PaletteCommand { id: "SetWindowLevel.AlwaysOnTop", brief: "Always on Top", doc: "Set the window level to be on top of other windows.", menubar: "Window", keys: "", kind: CommandKind::GpuiWindow, status: CommandStatus::Wired });
    v.push(PaletteCommand { id: "Hide", brief: "Hide/Minimize Window", doc: "Hides/Mimimizes the current window", menubar: "Window", keys: "Shift-Ctrl-M", kind: CommandKind::GpuiWindow, status: CommandStatus::Wired });
    v.push(PaletteCommand { id: "Search", brief: "Search pane output", doc: "Enters the search mode UI for the current pane", menubar: "Window", keys: "Shift-Ctrl-F", kind: CommandKind::GpuiUi, status: CommandStatus::Listed });
    v.push(PaletteCommand { id: "PaneSelect.Activate", brief: "Enter Pane selection mode", doc: "Activates the pane selection UI", menubar: "Window", keys: "", kind: CommandKind::GpuiUi, status: CommandStatus::Listed });
    v.push(PaletteCommand { id: "PaneSelect.SwapWithActive", brief: "Swap a pane with the active pane", doc: "Activates the pane selection UI", menubar: "Window", keys: "", kind: CommandKind::GpuiUi, status: CommandStatus::Listed });
    assert(v@ =~= start + catalog_part_3());
}

pub open spec fn catalog_part_4() -> Seq<PaletteCommand> {
    seq![
        PaletteCommand { id: "PaneSelect.SwapWithActiveKeepFocus", brief: "Swap a pane with the active pane, keeping focus", doc: "Activates the pane selection UI", menubar: "Window", keys: "", kind: CommandKind::GpuiUi, status: CommandStatus::Listed },
        PaletteCommand { id: "PaneSelect.MoveToNewTab", brief: "Move a pane into its own tab", doc: "Activates the pane selection UI", menubar: "Window", keys: "", kind: CommandKind::GpuiUi, status: CommandStatus::Listed },
        PaletteCommand { id: "PaneSelect.MoveToNewWindow", brief: "Move a pane into its own window", doc: "Activates the pane selection UI", menubar: "Window", keys: "", kind: CommandKind::GpuiUi, status: CommandStatus::Listed },
        PaletteCommand { id: "RotatePanes.Clockwise", brief: "Rotate panes Clockwise", doc: "Rotate panes Clockwise", menubar: "Window", keys: "", kind: CommandKind::CallCore, status: CommandStatus::Wired },
        PaletteCommand { id: "RotatePanes.CounterClockwise", brief: "Rotate panes CounterClockwise", doc: "Rotate panes CounterClockwise", menubar: "Window", keys: "", kind: CommandKind::CallCore, status: CommandStatus::Wired },
        PaletteCommand { id: "ActivateTab.0", brief: "Activate 1st Tab", doc: "Activates the 1st tab", menubar: "Window", keys: "Shift-Ctrl-1", kind: CommandKind::GpuiWindow, status: CommandStatus::Wired },
        PaletteCommand { id: "ActivateTab.1", brief: "Activate 2nd Tab", doc: "Activates the 2nd tab", menubar: "Window", keys: "Shift-Ctrl-2", kind: CommandKind::GpuiWindow, status: CommandStatus::Wired },
        PaletteCommand { id: "ActivateTab.2", brief: "Activate 3rd Tab", doc: "Activates the 3rd tab", menubar: "Window", keys: "Shift-Ctrl-3", kind: CommandKind::GpuiWindow, status: CommandStatus::Wired },
        PaletteCommand { id: "ActivateTab.3", brief: "Activate 4th Tab", doc: "Activates the 4th tab", menubar: "Window", keys: "Shift-Ctrl-4", kind: CommandKind::GpuiWindow, status: CommandStatus::Wired },
        PaletteCommand { id: "ActivateTab.4", brief: "Activate 5th Tab", doc: "Activates the 5th tab", menubar: "Window", keys: "Shift-Ctrl-5", kind: CommandKind::GpuiWindow, status: CommandStatus::Wired },
    ]
}

fn build_part_4(v: &mut Vec<PaletteCommand>)
    ensures
        final(v)@ == old(v)@ + catalog_part_4(),
{
    let ghost start = v@;
    v.push(PaletteCommand { id: "PaneSelect.SwapWithActiveKeepFocus", brief: "Swap a pane with the active pane, keeping focus", doc: "Activates the pane selection UI", menubar: "Window", keys: "", kind: CommandKind::GpuiUi, status: CommandStatus::Listed });
    v.push(PaletteCommand { id: "PaneSelect.MoveToNewTab", brief: "Move a pane into its own tab", doc: "Activates the pane selection UI", menubar: "Window", keys: "", kind: CommandKind::GpuiUi, status: CommandStatus::Listed });
    v.push(PaletteCommand { id: "PaneSelect.MoveToNewWindow", brief: "Move a pane into its own window", doc: "Activates the pane selection UI", menubar: "Window", keys: "", kind: CommandKind::GpuiUi, status: CommandStatus::Listed });
    v.push(PaletteCommand { id: "RotatePanes.Clockwise", brief: "Rotate panes Clockwise", doc: "Rotate panes Clockwise", menubar: "Window", keys: "", kind: CommandKind::CallCore, status: CommandStatus::Wired });
    v.push(PaletteCommand { id: "RotatePanes.CounterClockwise", brief: "Rotate panes CounterClockwise", doc: "Rotate panes CounterClockwise", menubar: "Window", keys: "", kind: CommandKind::CallCore, status: CommandStatus::Wired });
    v.push(PaletteCommand { id: "ActivateTab.0", brief: "Activate 1st Tab", doc: "Activates the 1st tab", menubar: "Window", keys: "Shift-Ctrl-1", kind: CommandKind::GpuiWindow, status: CommandStatus::Wired });
    v.push(PaletteCommand { id: "ActivateTab.1", brief: "Activate 2nd Tab", doc: "Activates the 2nd tab", menubar: "Window", keys: "Shift-Ctrl-2", kind: CommandKind::GpuiWindow, status: CommandStatus::Wired });
    v.push(PaletteCommand { id: "ActivateTab.2", brief: "Activate 3rd Tab", doc: "Activates the 3rd tab", menubar: "Window", keys: "Shift-Ctrl-3", kind: CommandKind::GpuiWindow, status: CommandStatus::Wired });
    v.push(PaletteCommand { id: "ActivateTab.3", brief: "Activate 4th Tab", doc: "Activates the 4th tab", menubar: "Window", keys: "Shift-Ctrl-4", kind: CommandKind::GpuiWindow, status: CommandStatus::Wired });
    v.push(PaletteCommand { id: "ActivateTab.4", brief: "Activate 5th Tab", doc: "Activates the 5th tab", menubar: "Window", keys: "Shift-Ctrl-5", kind: CommandKind::GpuiWindow, status: CommandStatus::Wired });
    assert(v@ =~= start + catalog_part_4());
}

pub open spec fn catalog_part_5() -> Seq<PaletteCommand> {
    seq![
        PaletteCommand { id: "ActivateTab.5", brief: "Activate 6th Tab", doc: "Activates the 6th tab", menubar: "Window", keys: "Shift-Ctrl-6", kind: CommandKind::GpuiWindow, status: CommandStatus::Wired },
        PaletteCommand { id: "ActivateTab.6", brief: "Activate 7th Tab", doc: "Activates the 7th tab", menubar: "Window", keys: "Shift-Ctrl-7", kind: CommandKind::GpuiWindow, status: CommandStatus::Wired },
        PaletteCommand { id: "ActivateTab.7", brief: "Activate 8th Tab", doc: "Activates the 8th tab", menubar: "Window", keys: "Shift-Ctrl-8", kind: CommandKind::GpuiWindow, status: CommandStatus::Wired },
        PaletteCommand { id: "ActivateTab.-1", brief: "Activate right-most tab", doc: "Activates the tab on the far right", menubar: "Window", keys: "Shift-Ctrl-9", kind: CommandKind::GpuiWindow, status: CommandStatus::Wired },
        PaletteCommand { id: "ActivateTabRelative.-1", brief: "Activate the tab to the left", doc: "Activates the tab to the left. If this is the left-most tab then cycles around and activates the right-most tab", menubar: "Window", keys: "Shift-Ctrl-Tab", kind: CommandKind::GpuiWindow, status: CommandStatus::Wired },
        PaletteCommand { id: "ActivateTabRelative.1", brief: "Activate the tab to the right", doc: "Activates the tab to the right. If this is the right-most tab then cycles around and activates the left-most tab", menubar: "Window", keys: "Ctrl-Tab", kind: CommandKind::GpuiWindow, status: CommandStatus::Wired },
        PaletteCommand { id: "ActivateWindow.0", brief: "Activate 1st Window", doc: "Activates the 1st window", menubar: "Window", keys: "", kind: CommandKind::GpuiWindow, status: CommandStatus::Listed },
        PaletteCommand { id: "ActivateWindow.1", brief: "Activate 2nd Window", doc: "Activates the 2nd window", menubar: "Window", keys: "", kind: CommandKind::GpuiWindow, status: CommandStatus::Listed },
        PaletteCommand { id: "ActivateWindow.2", brief: "Activate 3rd Window", doc: "Activates the 3rd window", menubar: "Window", keys: "", kind: CommandKind::GpuiWindow, status: CommandStatus::Listed },
        PaletteCommand { id: "ActivateWindow.3", brief: "Activate 4th Window", doc: "Activates the 4th window", menubar: "Window", keys: "", kind: CommandKind::GpuiWindow, status: CommandStatus::Listed },
    ]
}

fn build_part_5(v: &mut Vec<PaletteCommand>)
    ensures
        final(v)@ == old(v)@ + catalog_part_5(),
{
    let ghost start = v@;
    v.push(PaletteCommand { id: "ActivateTab.5", brief: "Activate 6th Tab", doc: "Activates the 6th tab", menubar: "Window", keys: "Shift-Ctrl-6", kind: CommandKind::GpuiWindow, status: CommandStatus::Wired });
    v.push(PaletteCommand { id: "ActivateTab.6", brief: "Activate 7th Tab", doc: "Activates the 7th tab", menubar: "Window", keys: "Shift-Ctrl-7", kind: CommandKind::GpuiWindow, status: CommandStatus::Wired });
    v.push(PaletteCommand { id: "ActivateTab.7", brief: "Activate 8th Tab", doc: "Activates the 8th tab", menubar: "Window", keys: "Shift-Ctrl-8", kind: CommandKind::GpuiWindow, status: CommandStatus::Wired });
    v.push(PaletteCommand { id: "ActivateTab.-1", brief: "Activate right-most tab", doc: "Activates the tab on the far right", menubar: "Window", keys: "Shift-Ctrl-9", kind: CommandKind::GpuiWindow, status: CommandStatus::Wired });
    v.push(PaletteCommand { id: "ActivateTabRelative.-1", brief: "Activate the tab to the left", doc: "Activates the tab to the left. If this is the left-most tab then cycles around and activates the right-most tab", menubar: "Window", keys: "Shift-Ctrl-Tab", kind: CommandKind::GpuiWindow, status: CommandStatus::Wired });
    v.push(PaletteCommand { id: "ActivateTabRelative.1", brief: "Activate the tab to the right", doc: "Activates the tab to the right. If this is the right-most tab then cycles around and activates the left-most tab", menubar: "Window", keys: "Ctrl-Tab", kind: CommandKind::GpuiWindow, status: CommandStatus::Wired });
    v.push(PaletteCommand { id: "ActivateWindow.0", brief: "Activate 1st Window", doc: "Activates the 1st window", menubar: "Window", keys: "", kind: CommandKind::GpuiWindow, status: CommandStatus::Listed });
    v.push(PaletteCommand { id: "ActivateWindow.1", brief: "Activate 2nd Window", doc: "Activates the 2nd window", menubar: "Window", keys: "", kind: CommandKind::GpuiWindow, status: CommandStatus::Listed });
    v.push(PaletteCommand { id: "ActivateWindow.2", brief: "Activate 3rd Window", doc: "Activates the 3rd window", menubar: "Window", keys: "", kind: CommandKind::GpuiWindow, status: CommandStatus::Listed });
    v.push(PaletteCommand { id: "ActivateWindow.3", brief: "Activate 4th Window", doc: "Activates the 4th window", menubar: "Window", keys: "", kind: CommandKind::GpuiWindow, status: CommandStatus::Listed });
    assert(v@ =~= start + catalog_part_5());
}

pub open spec fn catalog_part_6() -> Seq<PaletteCommand> {
    seq![
        PaletteCommand { id: "ActivateWindow.4", brief: "Activate 5th Window", doc: "Activates the 5th window", menubar: "Window", keys: "", kind: CommandKind::GpuiWindow, status: CommandStatus::Listed },
        PaletteCommand { id: "ActivateWindow.5", brief: "Activate 6th Window", doc: "Activates the 6th window", menubar: "Window", keys: "", kind: CommandKind::GpuiWindow, status: CommandStatus::Listed },
        PaletteCommand { id: "ActivateWindow.6", brief: "Activate 7th Window", doc: "Activates the 7th window", menubar: "Window", keys: "", kind: CommandKind::GpuiWindow, status: CommandStatus::Listed },
        PaletteCommand { id: "ActivateWindow.7", brief: "Activate 8th Window", doc: "Activates the 8th window", menubar: "Window", keys: "", kind: CommandKind::GpuiWindow, status: CommandStatus::Listed },
        PaletteCommand { id: "ActivateWindow.8", brief: "Activate 9th Window", doc: "Activates the 9th window", menubar: "Window", keys: "", kind: CommandKind::GpuiWindow, status: CommandStatus::Listed },
        PaletteCommand { id: "ActivateWindow.9", brief: "Activate 10th Window", doc: "Activates the 10th window", menubar: "Window", keys: "", kind: CommandKind::GpuiWindow, status: CommandStatus::Listed },
        PaletteCommand { id: "ActivateWindowRelative.-1", brief: "Activate the preceeding window", doc: "Activates the preceeding window. If this is the first window then cycles around and activates last window", menubar: "Window", keys: "", kind: CommandKind::GpuiWindow, status: CommandStatus::Listed },
        PaletteCommand { id: "ActivateWindowRelative.1", brief: "Activate the next window", doc: "Activates the next window. If this is the last window then cycles around and activates first window", menubar: "Window", keys: "", kind: CommandKind::GpuiWindow, status: CommandStatus::Listed },
        PaletteCommand { id: "MoveTabRelative.-1", brief: "Move tab one place to the left", doc: "Rearranges the tabs so that the current tab moves one place to the left", menubar: "Window", keys: "Shift-Ctrl-PageUp", kind: CommandKind::GpuiWindow, status: CommandStatus::Wired },
        PaletteCommand { id: "MoveTabRelative.1", brief: "Move tab one place to the right", doc: "Rearranges the tabs so that the current tab moves one place to the right", menubar: "Window", keys: "Shift-Ctrl-PageDown", kind: CommandKind::GpuiWindow, status: CommandStatus::Wired },
    ]
}

fn build_part_6(v: &mut Vec<PaletteCommand>)
    ensures
        final(v)@ == old(v)@ + catalog_part_6(),
{
    let ghost start = v@;
    v.push(PaletteCommand { id: "ActivateWindow.4", brief: "Activate 5th Window", doc: "Activates the 5th window", menubar: "Window", keys: "", kind: CommandKind::GpuiWindow, status: CommandStatus::Listed });
    v.push(PaletteCommand { id: "ActivateWindow.5", brief: "Activate 6th Window", doc: "Activates the 6th window", menubar: "Window", keys: "", kind: CommandKind::GpuiWindow, status: CommandStatus::Listed });
    v.push(PaletteCommand { id: "ActivateWindow.6", brief: "Activate 7th Window", doc: "Activates the 7th window", menubar: "Window", keys: "", kind: CommandKind::GpuiWindow, status: CommandStatus::Listed });
    v.push(PaletteCommand { id: "ActivateWindow.7", brief: "Activate 8th Window", doc: "Activates the 8th window", menubar: "Window", keys: "", kind: CommandKind::GpuiWindow, status: CommandStatus::Listed });
    v.push(PaletteCommand { id: "ActivateWindow.8", brief: "Activate 9th Window", doc: "Activates the 9th window", menubar: "Window", keys: "", kind: CommandKind::GpuiWindow, status: CommandStatus::Listed });
    v.push(PaletteCommand { id: "ActivateWindow.9", brief: "Activate 10th Window", doc: "Activates the 10th window", menubar: "Window", keys: "", kind: CommandKind::GpuiWindow, status: CommandStatus::Listed });
    v.push(PaletteCommand { id: "ActivateWindowRelative.-1", brief: "Activate the preceeding window", doc: "Activates the preceeding window. If this is the first window then cycles around and activates last window", menubar: "Window", keys: "", kind: CommandKind::GpuiWindow, status: CommandStatus::Listed });
    v.push(PaletteCommand { id: "ActivateWindowRelative.1", brief: "Activate the next window", doc: "Activates the next window. If this is the last window then cycles around and activates first window", menubar: "Window", keys: "", kind: CommandKind::GpuiWindow, status: CommandStatus::Listed });
    v.push(PaletteCommand { id: "MoveTabRelative.-1", brief: "Move tab one place to the left", doc: "Rearranges the tabs so that the current tab moves one place to the left", menubar: "Window", keys: "Shift-Ctrl-PageUp", kind: CommandKind::GpuiWindow, status: CommandStatus::Wired });
    v.push(PaletteCommand { id: "MoveTabRelative.1", brief: "Move tab one place to the right", doc: "Rearranges the tabs so that the current tab moves one place to the right", menubar: "Window", keys: "Shift-Ctrl-PageDown", kind: CommandKind::GpuiWindow, status: CommandStatus::Wired });
    assert(v@ =~= start + catalog_part_6());
}

pub open spec fn catalog_part_7() -> Seq<PaletteCommand> {
    seq![
        PaletteCommand { id: "AdjustPaneSize.Left", brief: "Resize Pane 1 cell(s) to the Left", doc: "Adjusts the closest split divider to the left", menubar: "Window", keys: "Ctrl-Alt-Shift-LeftArrow", kind: CommandKind::CallCore, status: CommandStatus::Listed },
        PaletteCommand { id: "AdjustPaneSize.Right", brief: "Resize Pane 1 cell(s) to the Right", doc: "Adjusts the closest split divider to the right", menubar: "Window", keys: "Ctrl-Alt-Shift-RightArrow", kind: CommandKind::CallCore, status: CommandStatus::Listed },
        PaletteCommand { id: "AdjustPaneSize.Up", brief: "Resize Pane 1 cell(s) Upwards", doc: "Adjusts the closest split divider towards the top", menubar: "Window", keys: "Ctrl-Alt-Shift-UpArrow", kind: CommandKind::CallCore, status: CommandStatus::Listed },
        PaletteCommand { id: "AdjustPaneSize.Down", brief: "Resize Pane 1 cell(s) Downwards", doc: "Adjusts the closest split divider towards the bottom", menubar: "Window", keys: "Ctrl-Alt-Shift-DownArrow", kind: CommandKind::CallCore, status: CommandStatus::Listed },
        PaletteCommand { id: "ActivatePaneDirection.Left", brief: "Activate Pane Left", doc: "Activates the pane to the left of the current pane", menubar: "Window", keys: "Shift-Ctrl-LeftArrow", kind: CommandKind::CallCore, status: CommandStatus::Wired },
        PaletteCommand { id: "ActivatePaneDirection.Right", brief: "Activate Pane Right", doc: "Activates the pane to the right of the current pane", menubar: "Window", keys: "Shift-Ctrl-RightArrow", kind: CommandKind::CallCore, status: CommandStatus::Wired },
        PaletteCommand { id: "ActivatePaneDirection.Up", brief: "Activate Pane Up", doc: "Activates the pane to the top of the current pane", menubar: "Window", keys: "Shift-Ctrl-UpArrow", kind: CommandKind::CallCore, status: CommandStatus::Wired },
        PaletteCommand { id: "ActivatePaneDirection.Down", brief: "Activate Pane Down", doc: "Activates the pane to the bottom of the current pane", menubar: "Window", keys: "Shift-Ctrl-DownArrow", kind: CommandKind::CallCore, status: CommandStatus::Wired },
        PaletteCommand { id: "TogglePaneZoomState", brief: "Toggle Pane Zoom", doc: "Toggles the zoom state for the current pane", menubar: "Window", keys: "Shift-Ctrl-Z", kind: CommandKind::CallCore, status: CommandStatus::Wired },
        PaletteCommand { id: "ActivateLastTab", brief: "Activate the last active tab", doc: "If there was no prior active tab, has no effect.", menubar: "Window", keys: "", kind: CommandKind::GpuiWindow, status: CommandStatus::Wired },
    ]
}

fn build_part_7(v: &mut Vec<PaletteCommand>)
    ensures
        final(v)@ == old(v)@ + catalog_part_7(),
{
    let ghost start = v@;
    v.push(PaletteCommand { id: "AdjustPaneSize.Left", brief: "Resize Pane 1 cell(s) to the Left", doc: "Adjusts the closest split divider to the left", menubar: "Window", keys: "Ctrl-Alt-Shift-LeftArrow", kind: CommandKind::CallCore, status: CommandStatus::Listed });
    v.push(PaletteCommand { id: "AdjustPaneSize.Right", brief: "Resize Pane 1 cell(s) to the Right", doc: "Adjusts the closest split divider to the right", menubar: "Window", keys: "Ctrl-Alt-Shift-RightArrow", kind: CommandKind::CallCore, status: CommandStatus::Listed });
    v.push(PaletteCommand { id: "AdjustPaneSize.Up", brief: "Resize Pane 1 cell(s) Upwards", doc: "Adjusts the closest split divider towards the top", menubar: "Window", keys: "Ctrl-Alt-Shift-UpArrow", kind: CommandKind::CallCore, status: CommandStatus::Listed });
    v.push(PaletteCommand { id: "AdjustPaneSize.Down", brief: "Resize Pane 1 cell(s) Downwards", doc: "Adjusts the closest split divider towards the bottom", menubar: "Window", keys: "Ctrl-Alt-Shift-DownArrow", kind: CommandKind::CallCore, status: CommandStatus::Listed });
    v.push(PaletteCommand { id: "ActivatePaneDirection.Left", brief: "Activate Pane Left", doc: "Activates the pane to the left of the current pane", menubar: "Window", keys: "Shift-Ctrl-LeftArrow", kind: CommandKind::CallCore, status: CommandStatus::Wired });
    v.push(PaletteCommand { id: "ActivatePaneDirection.Right", brief: "Activate Pane Right", doc: "Activates the pane to the right of the current pane", menubar: "Window", keys: "Shift-Ctrl-RightArrow", kind: CommandKind::CallCore, status: CommandStatus::Wired });
    v.push(PaletteCommand { id: "ActivatePaneDirection.Up", brief: "Activate Pane Up", doc: "Activates the pane to the top of the current pane", menubar: "Window", keys: "Shift-Ctrl-UpArrow", kind: CommandKind::CallCore, status: CommandStatus::Wired });
    v.push(PaletteCommand { id: "ActivatePaneDirection.Down", brief: "Activate Pane Down", doc: "Activates the pane to the bottom of the current pane", menubar: "Window", keys: "Shift-Ctrl-DownArrow", kind: CommandKind::CallCore, status: CommandStatus::Wired });
    v.push(PaletteCommand { id: "TogglePaneZoomState", brief: "Toggle Pane Zoom", doc: "Toggles the zoom state for the current pane", menubar: "Window", keys: "Shift-Ctrl-Z", kind: CommandKind::CallCore, status: CommandStatus::Wired });
    v.push(PaletteCommand { id: "ActivateLastTab", brief: "Activate the last active tab", doc: "If there was no prior active tab, has no effect.", menubar: "Window", keys: "", kind: CommandKind::GpuiWindow, status: CommandStatus::Wired });
    assert(v@ =~= start + catalog_part_7());
}

pub open spec fn catalog_part_8() -> Seq<PaletteCommand> {
    seq![
        PaletteCommand { id: "ShowTabNavigator", brief: "Navigate tabs", doc: "Shows the tab navigator", menubar: "Window", keys: "", kind: CommandKind::GpuiUi, status: CommandStatus::Listed },
        PaletteCommand { id: "OpenUri.docs", brief: "Documentation", doc: "Visit the wezterm documentation website", menubar: "Help", keys: "", kind: CommandKind::OpenUrl, status: CommandStatus::Wired },
        PaletteCommand { id: "OpenUri.discussions", brief: "Discuss on GitHub", doc: "Visit wezterm's GitHub discussion", menubar: "Help", keys: "", kind: CommandKind::OpenUrl, status: CommandStatus::Wired },
        PaletteCommand { id: "OpenUri.issues", brief: "Search or report issue on GitHub", doc: "Visit wezterm's GitHub issues", menubar: "Help", keys: "", kind: CommandKind::OpenUrl, status: CommandStatus::Wired },
        PaletteCommand { id: "ShowDebugOverlay", brief: "Show debug overlay", doc: "Activates the debug overlay and Lua REPL", menubar: "Help", keys: "Shift-Ctrl-L", kind: CommandKind::GpuiUi, status: CommandStatus::Listed },
        PaletteCommand { id: "QuitApplication", brief: "Quit WezTerm", doc: "Quits WezTerm", menubar: "WezTerm", keys: "Ctrl-Q", kind: CommandKind::GpuiWindow, status: CommandStatus::Wired },
        PaletteCommand { id: "PromptInputLine", brief: "Prompt the user for a line of text", doc: "Activates the prompt overlay and wait for input", menubar: "Edit", keys: "", kind: CommandKind::GpuiUi, status: CommandStatus::Wired },
        PaletteCommand { id: "Confirmation", brief: "Prompt the user for confirmation", doc: "Activates the confirmation overlay and wait for input", menubar: "Edit", keys: "", kind: CommandKind::GpuiUi, status: CommandStatus::Wired },
        PaletteCommand { id: "RenameTab", brief: "Rename tab", doc: "Prompt for a new title for the current tab", menubar: "Edit", keys: "", kind: CommandKind::GpuiUi, status: CommandStatus::Wired },
    ]
}

fn build_part_8(v: &mut Vec<PaletteCommand>)
    ensures
        final(v)@ == old(v)@ + catalog_part_8(),
{
    let ghost start = v@;
    v.push(PaletteCommand { id: "ShowTabNavigator", brief: "Navigate tabs", doc: "Shows the tab navigator", menubar: "Window", keys: "", kind: CommandKind::GpuiUi, status: CommandStatus::Listed });
    v.push(PaletteCommand { id: "OpenUri.docs", brief: "Documentation", doc: "Visit the wezterm documentation website", menubar: "Help", keys: "", kind: CommandKind::OpenUrl, status: CommandStatus::Wired });
    v.push(PaletteCommand { id: "OpenUri.discussions", brief: "Discuss on GitHub", doc: "Visit wezterm's GitHub discussion", menubar: "Help", keys: "", kind: CommandKind::OpenUrl, status: CommandStatus::Wired });
    v.push(PaletteCommand { id: "OpenUri.issues", brief: "Search or report issue on GitHub", doc: "Visit wezterm's GitHub issues", menubar: "Help", keys: "", kind: CommandKind::OpenUrl, status: CommandStatus::Wired });
    v.push(PaletteCommand { id: "ShowDebugOverlay", brief: "Show debug overlay", doc: "Activates the debug overlay and Lua REPL", menubar: "Help", keys: "Shift-Ctrl-L", kind: CommandKind::GpuiUi, status: CommandStatus::Listed });
    v.push(PaletteCommand { id: "QuitApplication", brief: "Quit WezTerm", doc: "Quits WezTerm", menubar: "WezTerm", keys: "Ctrl-Q", kind: CommandKind::GpuiWindow, status: CommandStatus::Wired });
    v.push(PaletteCommand { id: "PromptInputLine", brief: "Prompt the user for a line of text", doc: "Activates the prompt overlay and wait for input", menubar: "Edit", keys: "", kind: CommandKind::GpuiUi, status: CommandStatus::Wired });
    v.push(PaletteCommand { id: "Confirmation", brief: "Prompt the user for confirmation", doc: "Activates the confirmation overlay and wait for input", menubar: "Edit", keys: "", kind: CommandKind::GpuiUi, status: CommandStatus::Wired });
    v.push(PaletteCommand { id: "RenameTab", brief: "Rename tab", doc: "Prompt for a new title for the current tab", menubar: "Edit", keys: "", kind: CommandKind::GpuiUi, status: CommandStatus::Wired });
    assert(v@ =~= start + catalog_part_8());
}

/// The default palette, in menu order: WezTerm, Shell, Edit, View, Window,
/// Help, then the extra rows of this front end.
pub open spec fn palette_catalog() -> Seq<PaletteCommand> {
    catalog_part_0()
        + catalog_part_1()
        + catalog_part_2()
        + catalog_part_3()
        + catalog_part_4()
        + catalog_part_5()
        + catalog_part_6()
        + catalog_part_7()
        + catalog_part_8()
}

/// The default palette rows.
pub fn palette_commands() -> (r: Vec<PaletteCommand>)
    ensures
        r@ == palette_catalog(),
{
    let mut v: Vec<PaletteCommand> = Vec::new();
    build_part_0(&mut v);
    build_part_1(&mut v);
    build_part_2(&mut v);
    build_part_3(&mut v);
    build_part_4(&mut v);
    build_part_5(&mut v);
    build_part_6(&mut v);
    build_part_7(&mut v);
    build_part_8(&mut v);
    assert(v@ =~= palette_catalog());
    v
}

/// The first row of `rows` whose id is `id`.
pub open spec fn first_with_id(rows: Seq<PaletteCommand>, id: Seq<char>) -> Option<PaletteCommand> {
    if exists|k: int| 0 <= k < rows.len() && rows[k].id@ == id {
        Some(
            rows[choose|k: int|
                0 <= k < rows.len() && rows[k].id@ == id && forall|j: int|
                    0 <= j < k ==> rows[j].id@ != id],
        )
    } else {
        None
    }
}

/// The catalog row with id `id`.
pub fn command_by_id(id: &str) -> (r: Option<PaletteCommand>)
    ensures
        r == first_with_id(palette_catalog(), id@),
{
    let rows = palette_commands();
    let ghost s = rows@;
    let mut k: usize = 0;
    while k < rows.len()
        invariant
            rows@ == s,
            s == palette_catalog(),
            0 <= k <= s.len(),
            forall|j: int| 0 <= j < k ==> s[j].id@ != id@,
        decreases s.len() - k,
    {
        if str_eq(rows[k].id, id) {
            proof {
                let w = choose|w: int|
                    0 <= w < s.len() && s[w].id@ == id@ && forall|j: int| 0 <= j < w ==> s[j].id@ != id@;
                assert(0 <= k < s.len() && s[k as int].id@ == id@);
                if w < k {
                } else if w > k {
                    assert(s[k as int].id@ != id@);
                }
            }
            return Some(rows[k]);
        }
        k += 1;
    }
    None
}

} // verus!
