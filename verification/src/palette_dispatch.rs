//! What a command-palette id asks the shell to do.
//!
//! The shell window hands the id of the chosen palette row to
//! [`palette_action`] and carries out the action that comes back.

use vstd::prelude::*;

use crate::split_layout::{PaneDir, SplitAxis};
use crate::text::{
    decimal, parse_isize, parse_usize, spec_parse_isize, spec_parse_usize, spec_strip_prefix, str_eq, strip_prefix,
};
use crate::win_zorder::WindowZOrder;

verus! {

/// What a pane-select overlay does with the pane picked.
#[derive(Debug, Clone, Copy, PartialEq, Eq, Structural)]
pub enum PaneSelectMode {
    Activate,
    Swap,
    SwapKeep,
    MoveTab,
    MoveWindow,
}

/// The searchable lists that the shell can open.
#[derive(Debug, Clone, Copy, PartialEq, Eq, Structural)]
pub enum PickerKind {
    Launcher,
    CharSelect,
    TabNav,
}

/// Pages of the project's web presence.
#[derive(Debug, Clone, Copy, PartialEq, Eq, Structural)]
pub enum HelpLink {
    Docs,
    Discussions,
    Issues,
}

/// Informational toasts for commands that have nothing to do here.
#[derive(Debug, Clone, Copy, PartialEq, Eq, Structural)]
pub enum Notice {
    LocalDomainCannotDetach,
    KeyTableStackEmpty,
}

/// One step the shell window takes for a palette command.
#[derive(Debug, Clone, Copy, PartialEq, Eq, Structural)]
pub enum ShellAction {
    CreateWorkspace,
    SwitchWorkspaceRelative(isize),
    NewTab,
    Split(SplitAxis),
    ConfirmCloseTab,
    ConfirmClosePane,
    ConfirmQuit,
    IncreaseFontSize,
    DecreaseFontSize,
    ResetFontSize,
    ResetFontAndWindowSize,
    ToggleFullScreen,
    ToggleAlwaysOnTop,
    ToggleAlwaysOnBottom,
    ClearScrollback,
    ClearScrollbackAndViewport,
    ResetTerminal,
    /// Pages to scroll: negative is up.
    ScrollByPage(isize),
    ScrollToTop,
    ScrollToBottom,
    OpenLinkAtMouseCursor,
    OpenUri(HelpLink),
    Minimize,
    TogglePaneZoom,
    ActivateLastTab,
    CopySelection,
    PasteClipboard,
    OpenPalette,
    ReloadConfiguration,
    SpawnWindow,
    Notice(Notice),
    OpenPicker(PickerKind),
    QuickSelect,
    CopyMode,
    Search,
    DebugOverlay,
    PaneSelect(PaneSelectMode),
    ToggleFpsHud,
    RenamePrompt,
    DemoConfirm,
    ActivateTabRelative(isize),
    /// A tab number as written in the id; negative counts from the end.
    ActivateTab(isize),
    MoveTabRelative(isize),
    ActivatePaneDirection(PaneDir),
    /// `true` rotates clockwise.
    RotatePanes(bool),
    ActivateWindowRelative(isize),
    ActivateWindow(usize),
    AdjustPaneSize(PaneDir),
    SetWindowLevel(WindowZOrder),
    /// The id names nothing that the shell does.
    Nothing,
}

/// A palette command: spawn in a named domain, switch to a named
/// workspace, or take one of the fixed steps.
#[derive(Debug, PartialEq, Eq)]
pub enum PaletteTarget {
    SpawnDomain(String),
    SwitchWorkspace(String),
    Run(ShellAction),
}

/// [`PaletteTarget`] with the names taken as character sequences.
pub enum PaletteTargetView {
    SpawnDomain(Seq<char>),
    SwitchWorkspace(Seq<char>),
    Run(ShellAction),
}

impl View for PaletteTarget {
    type V = PaletteTargetView;

    open spec fn view(&self) -> PaletteTargetView {
        match self {
            PaletteTarget::SpawnDomain(s) => PaletteTargetView::SpawnDomain(s@),
            PaletteTarget::SwitchWorkspace(s) => PaletteTargetView::SwitchWorkspace(s@),
            PaletteTarget::Run(a) => PaletteTargetView::Run(*a),
        }
    }
}

/// The ids that name one fixed step.
pub open spec fn spec_named_action(id: Seq<char>) -> Option<ShellAction> {
    if id == "SpawnTab.CurrentPaneDomain"@ {
        Some(ShellAction::NewTab)
    } else if id == "SplitHorizontal"@ {
        Some(ShellAction::Split(SplitAxis::Horizontal))
    } else if id == "SplitVertical"@ {
        Some(ShellAction::Split(SplitAxis::Vertical))
    } else if id == "CloseCurrentTab.confirm"@ {
        Some(ShellAction::ConfirmCloseTab)
    } else if id == "CloseCurrentPane.confirm"@ {
        Some(ShellAction::ConfirmClosePane)
    } else if id == "QuitApplication"@ {
        Some(ShellAction::ConfirmQuit)
    } else if id == "IncreaseFontSize"@ {
        Some(ShellAction::IncreaseFontSize)
    } else if id == "DecreaseFontSize"@ {
        Some(ShellAction::DecreaseFontSize)
    } else if id == "ResetFontSize"@ {
        Some(ShellAction::ResetFontSize)
    } else if id == "ResetFontAndWindowSize"@ {
        Some(ShellAction::ResetFontAndWindowSize)
    } else if id == "ToggleFullScreen"@ {
        Some(ShellAction::ToggleFullScreen)
    } else if id == "ToggleAlwaysOnTop"@ {
        Some(ShellAction::ToggleAlwaysOnTop)
    } else if id == "ToggleAlwaysOnBottom"@ {
        Some(ShellAction::ToggleAlwaysOnBottom)
    } else if id == "ClearScrollback.ScrollbackOnly"@ {
        Some(ShellAction::ClearScrollback)
    } else if id == "ClearScrollback.ScrollbackAndViewport"@ {
        Some(ShellAction::ClearScrollbackAndViewport)
    } else if id == "ResetTerminal"@ {
        Some(ShellAction::ResetTerminal)
    } else if id == "ScrollByPage.Up"@ {
        Some(ShellAction::ScrollByPage(-1isize))
    } else if id == "ScrollByPage.Down"@ {
        Some(ShellAction::ScrollByPage(1isize))
    } else if id == "ScrollToTop"@ {
        Some(ShellAction::ScrollToTop)
    } else if id == "ScrollToBottom"@ {
        Some(ShellAction::ScrollToBottom)
    } else if id == "OpenLinkAtMouseCursor"@ {
        Some(ShellAction::OpenLinkAtMouseCursor)
    } else if id == "OpenUri.docs"@ {
        Some(ShellAction::OpenUri(HelpLink::Docs))
    } else if id == "OpenUri.discussions"@ {
        Some(ShellAction::OpenUri(HelpLink::Discussions))
    } else if id == "OpenUri.issues"@ {
        Some(ShellAction::OpenUri(HelpLink::Issues))
    } else if id == "Hide"@ {
        Some(ShellAction::Minimize)
    } else if id == "TogglePaneZoomState"@ {
        Some(ShellAction::TogglePaneZoom)
    } else if id == "ActivateLastTab"@ {
        Some(ShellAction::ActivateLastTab)
    } else if id == "CopyTo.Clipboard"@ {
        Some(ShellAction::CopySelection)
    } else if id == "PasteFrom.Clipboard"@ {
        Some(ShellAction::PasteClipboard)
    } else if id == "ActivateCommandPalette"@ {
        Some(ShellAction::OpenPalette)
    } else if id == "ReloadConfiguration"@ {
        Some(ShellAction::ReloadConfiguration)
    } else if id == "SpawnWindow"@ {
        Some(ShellAction::SpawnWindow)
    } else if id == "DetachDomain.CurrentPaneDomain"@ {
        Some(ShellAction::Notice(Notice::LocalDomainCannotDetach))
    } else if id == "ShowLauncher"@ {
        Some(ShellAction::OpenPicker(PickerKind::Launcher))
    } else if id == "PasteFrom.PrimarySelection"@ {
        Some(ShellAction::PasteClipboard)
    } else if id == "CopyTo.PrimarySelection"@ {
        Some(ShellAction::CopySelection)
    } else if id == "QuickSelect"@ {
        Some(ShellAction::QuickSelect)
    } else if id == "CharSelect"@ {
        Some(ShellAction::OpenPicker(PickerKind::CharSelect))
    } else if id == "ActivateCopyMode"@ {
        Some(ShellAction::CopyMode)
    } else if id == "ClearKeyTableStack"@ {
        Some(ShellAction::Notice(Notice::KeyTableStackEmpty))
    } else if id == "Search"@ {
        Some(ShellAction::Search)
    } else if id == "ShowTabNavigator"@ {
        Some(ShellAction::OpenPicker(PickerKind::TabNav))
    } else if id == "ShowDebugOverlay"@ {
        Some(ShellAction::DebugOverlay)
    } else if id == "PaneSelect.Activate"@ {
        Some(ShellAction::PaneSelect(PaneSelectMode::Activate))
    } else if id == "PaneSelect.SwapWithActive"@ {
        Some(ShellAction::PaneSelect(PaneSelectMode::Swap))
    } else if id == "PaneSelect.SwapWithActiveKeepFocus"@ {
        Some(ShellAction::PaneSelect(PaneSelectMode::SwapKeep))
    } else if id == "PaneSelect.MoveToNewTab"@ {
        Some(ShellAction::PaneSelect(PaneSelectMode::MoveTab))
    } else if id == "PaneSelect.MoveToNewWindow"@ {
        Some(ShellAction::PaneSelect(PaneSelectMode::MoveWindow))
    } else if id == "ToggleFpsHud"@ {
        Some(ShellAction::ToggleFpsHud)
    } else if id == "RenameTab"@ {
        Some(ShellAction::RenamePrompt)
    } else if id == "PromptInputLine"@ {
        Some(ShellAction::RenamePrompt)
    } else if id == "Confirmation"@ {
        Some(ShellAction::DemoConfirm)
    } else {
        None
    }
}

fn named_action(id: &str) -> (r: Option<ShellAction>)
    ensures
        r == spec_named_action(id@),
{
    if str_eq(id, "SpawnTab.CurrentPaneDomain") {
        Some(ShellAction::NewTab)
    } else if str_eq(id, "SplitHorizontal") {
        Some(ShellAction::Split(SplitAxis::Horizontal))
    } else if str_eq(id, "SplitVertical") {
        Some(ShellAction::Split(SplitAxis::Vertical))
    } else if str_eq(id, "CloseCurrentTab.confirm") {
        Some(ShellAction::ConfirmCloseTab)
    } else if str_eq(id, "CloseCurrentPane.confirm") {
        Some(ShellAction::ConfirmClosePane)
    } else if str_eq(id, "QuitApplication") {
        Some(ShellAction::ConfirmQuit)
    } else if str_eq(id, "IncreaseFontSize") {
        Some(ShellAction::IncreaseFontSize)
    } else if str_eq(id, "DecreaseFontSize") {
        Some(ShellAction::DecreaseFontSize)
    } else if str_eq(id, "ResetFontSize") {
        Some(ShellAction::ResetFontSize)
    } else if str_eq(id, "ResetFontAndWindowSize") {
        Some(ShellAction::ResetFontAndWindowSize)
    } else if str_eq(id, "ToggleFullScreen") {
        Some(ShellAction::ToggleFullScreen)
    } else if str_eq(id, "ToggleAlwaysOnTop") {
        Some(ShellAction::ToggleAlwaysOnTop)
    } else if str_eq(id, "ToggleAlwaysOnBottom") {
        Some(ShellAction::ToggleAlwaysOnBottom)
    } else if str_eq(id, "ClearScrollback.ScrollbackOnly") {
        Some(ShellAction::ClearScrollback)
    } else if str_eq(id, "ClearScrollback.ScrollbackAndViewport") {
        Some(ShellAction::ClearScrollbackAndViewport)
    } else if str_eq(id, "ResetTerminal") {
        Some(ShellAction::ResetTerminal)
    } else if str_eq(id, "ScrollByPage.Up") {
        Some(ShellAction::ScrollByPage(-1))
    } else if str_eq(id, "ScrollByPage.Down") {
        Some(ShellAction::ScrollByPage(1isize))
    } else if str_eq(id, "ScrollToTop") {
        Some(ShellAction::ScrollToTop)
    } else if str_eq(id, "ScrollToBottom") {
        Some(ShellAction::ScrollToBottom)
    } else if str_eq(id, "OpenLinkAtMouseCursor") {
        Some(ShellAction::OpenLinkAtMouseCursor)
    } else if str_eq(id, "OpenUri.docs") {
        Some(ShellAction::OpenUri(HelpLink::Docs))
    } else if str_eq(id, "OpenUri.discussions") {
        Some(ShellAction::OpenUri(HelpLink::Discussions))
    } else if str_eq(id, "OpenUri.issues") {
        Some(ShellAction::OpenUri(HelpLink::Issues))
    } else if str_eq(id, "Hide") {
        Some(ShellAction::Minimize)
    } else if str_eq(id, "TogglePaneZoomState") {
        Some(ShellAction::TogglePaneZoom)
    } else if str_eq(id, "ActivateLastTab") {
        Some(ShellAction::ActivateLastTab)
    } else if str_eq(id, "CopyTo.Clipboard") {
        Some(ShellAction::CopySelection)
    } else if str_eq(id, "PasteFrom.Clipboard") {
        Some(ShellAction::PasteClipboard)
    } else if str_eq(id, "ActivateCommandPalette") {
        Some(ShellAction::OpenPalette)
    } else if str_eq(id, "ReloadConfiguration") {
        Some(ShellAction::ReloadConfiguration)
    } else if str_eq(id, "SpawnWindow") {
        Some(ShellAction::SpawnWindow)
    } else if str_eq(id, "DetachDomain.CurrentPaneDomain") {
        Some(ShellAction::Notice(Notice::LocalDomainCannotDetach))
    } else if str_eq(id, "ShowLauncher") {
        Some(ShellAction::OpenPicker(PickerKind::Launcher))
    } else if str_eq(id, "PasteFrom.PrimarySelection") {
        Some(ShellAction::PasteClipboard)
    } else if str_eq(id, "CopyTo.PrimarySelection") {
        Some(ShellAction::CopySelection)
    } else if str_eq(id, "QuickSelect") {
        Some(ShellAction::QuickSelect)
    } else if str_eq(id, "CharSelect") {
        Some(ShellAction::OpenPicker(PickerKind::CharSelect))
    } else if str_eq(id, "ActivateCopyMode") {
        Some(ShellAction::CopyMode)
    } else if str_eq(id, "ClearKeyTableStack") {
        Some(ShellAction::Notice(Notice::KeyTableStackEmpty))
    } else if str_eq(id, "Search") {
        Some(ShellAction::Search)
    } else if str_eq(id, "ShowTabNavigator") {
        Some(ShellAction::OpenPicker(PickerKind::TabNav))
    } else if str_eq(id, "ShowDebugOverlay") {
        Some(ShellAction::DebugOverlay)
    } else if str_eq(id, "PaneSelect.Activate") {
        Some(ShellAction::PaneSelect(PaneSelectMode::Activate))
    } else if str_eq(id, "PaneSelect.SwapWithActive") {
        Some(ShellAction::PaneSelect(PaneSelectMode::Swap))
    } else if str_eq(id, "PaneSelect.SwapWithActiveKeepFocus") {
        Some(ShellAction::PaneSelect(PaneSelectMode::SwapKeep))
    } else if str_eq(id, "PaneSelect.MoveToNewTab") {
        Some(ShellAction::PaneSelect(PaneSelectMode::MoveTab))
    } else if str_eq(id, "PaneSelect.MoveToNewWindow") {
        Some(ShellAction::PaneSelect(PaneSelectMode::MoveWindow))
    } else if str_eq(id, "ToggleFpsHud") {
        Some(ShellAction::ToggleFpsHud)
    } else if str_eq(id, "RenameTab") {
        Some(ShellAction::RenamePrompt)
    } else if str_eq(id, "PromptInputLine") {
        Some(ShellAction::RenamePrompt)
    } else if str_eq(id, "Confirmation") {
        Some(ShellAction::DemoConfirm)
    } else {
        None
    }
}

/// A number after a prefix, or nothing when it does not parse.
pub open spec fn with_isize(n: Option<isize>, f: spec_fn(isize) -> ShellAction) -> ShellAction {
    match n {
        Some(v) => f(v),
        None => ShellAction::Nothing,
    }
}

/// The ids that carry an argument after a prefix, tried in this order;
/// the `SetWindowLevel.*` ids come last.
pub open spec fn spec_prefixed_action(id: Seq<char>) -> ShellAction {
    if let Some(n) = spec_strip_prefix(id, "ActivateTabRelative."@) {
        with_isize(spec_parse_isize(n), |v: isize| ShellAction::ActivateTabRelative(v))
    } else if let Some(n) = spec_strip_prefix(id, "ActivateTab."@) {
        with_isize(spec_parse_isize(n), |v: isize| ShellAction::ActivateTab(v))
    } else if let Some(n) = spec_strip_prefix(id, "MoveTabRelative."@) {
        with_isize(spec_parse_isize(n), |v: isize| ShellAction::MoveTabRelative(v))
    } else if let Some(d) = spec_strip_prefix(id, "ActivatePaneDirection."@) {
        match PaneDir::spec_from_palette_suffix(d) {
            Some(dir) => ShellAction::ActivatePaneDirection(dir),
            None => ShellAction::Nothing,
        }
    } else if let Some(r) = spec_strip_prefix(id, "RotatePanes."@) {
        if r == "Clockwise"@ {
            ShellAction::RotatePanes(true)
        } else if r == "CounterClockwise"@ {
            ShellAction::RotatePanes(false)
        } else {
            ShellAction::Nothing
        }
    } else if let Some(n) = spec_strip_prefix(id, "ActivateWindowRelative."@) {
        with_isize(spec_parse_isize(n), |v: isize| ShellAction::ActivateWindowRelative(v))
    } else if let Some(n) = spec_strip_prefix(id, "ActivateWindow."@) {
        match spec_parse_usize(n) {
            Some(v) => ShellAction::ActivateWindow(v),
            None => ShellAction::Nothing,
        }
    } else if let Some(d) = spec_strip_prefix(id, "AdjustPaneSize."@) {
        match PaneDir::spec_from_palette_suffix(d) {
            Some(dir) => ShellAction::AdjustPaneSize(dir),
            None => ShellAction::Nothing,
        }
    } else {
        match WindowZOrder::spec_from_palette_id(id) {
            Some(level) => ShellAction::SetWindowLevel(level),
            None => ShellAction::Nothing,
        }
    }
}

fn prefixed_action(id: &str) -> (r: ShellAction)
    ensures
        r == spec_prefixed_action(id@),
{
    if let Some(n) = strip_prefix(id, "ActivateTabRelative.") {
        match parse_isize(n) {
            Some(v) => ShellAction::ActivateTabRelative(v),
            None => ShellAction::Nothing,
        }
    } else if let Some(n) = strip_prefix(id, "ActivateTab.") {
        match parse_isize(n) {
            Some(v) => ShellAction::ActivateTab(v),
            None => ShellAction::Nothing,
        }
    } else if let Some(n) = strip_prefix(id, "MoveTabRelative.") {
        match parse_isize(n) {
            Some(v) => ShellAction::MoveTabRelative(v),
            None => ShellAction::Nothing,
        }
    } else if let Some(d) = strip_prefix(id, "ActivatePaneDirection.") {
        match PaneDir::from_palette_suffix(d) {
            Some(dir) => ShellAction::ActivatePaneDirection(dir),
            None => ShellAction::Nothing,
        }
    } else if let Some(r) = strip_prefix(id, "RotatePanes.") {
        if str_eq(r, "Clockwise") {
            ShellAction::RotatePanes(true)
        } else if str_eq(r, "CounterClockwise") {
            ShellAction::RotatePanes(false)
        } else {
            ShellAction::Nothing
        }
    } else if let Some(n) = strip_prefix(id, "ActivateWindowRelative.") {
        match parse_isize(n) {
            Some(v) => ShellAction::ActivateWindowRelative(v),
            None => ShellAction::Nothing,
        }
    } else if let Some(n) = strip_prefix(id, "ActivateWindow.") {
        match parse_usize(n) {
            Some(v) => ShellAction::ActivateWindow(v),
            None => ShellAction::Nothing,
        }
    } else if let Some(d) = strip_prefix(id, "AdjustPaneSize.") {
        match PaneDir::from_palette_suffix(d) {
            Some(dir) => ShellAction::AdjustPaneSize(dir),
            None => ShellAction::Nothing,
        }
    } else {
        match WindowZOrder::from_palette_id(id) {
            Some(level) => ShellAction::SetWindowLevel(level),
            None => ShellAction::Nothing,
        }
    }
}

/// What palette id `id` asks for: a domain or workspace name after its
/// prefix, the workspace steps, the fixed commands, then the ids with an
/// argument.
pub open spec fn spec_palette_action(id: Seq<char>) -> PaletteTargetView {
    if let Some(name) = spec_strip_prefix(id, "domain:"@) {
        PaletteTargetView::SpawnDomain(name)
    } else if id == "workspace:create"@ {
        PaletteTargetView::Run(ShellAction::CreateWorkspace)
    } else if let Some(name) = spec_strip_prefix(id, "workspace:switch:"@) {
        PaletteTargetView::SwitchWorkspace(name)
    } else if id == "workspace:relative:1"@ {
        PaletteTargetView::Run(ShellAction::SwitchWorkspaceRelative(1isize))
    } else if id == "workspace:relative:-1"@ {
        PaletteTargetView::Run(ShellAction::SwitchWorkspaceRelative(-1isize))
    } else {
        match spec_named_action(id) {
            Some(a) => PaletteTargetView::Run(a),
            None => PaletteTargetView::Run(spec_prefixed_action(id)),
        }
    }
}

/// Every fixed palette id runs its namesake: "IncreaseFontSize" grows the
/// font, "DecreaseFontSize" shrinks it, "SplitHorizontal" splits side by
/// side, and so on for each id of the palette's fixed commands.
pub proof fn lemma_fixed_ids_run_their_namesakes()
    ensures
        spec_palette_action("SpawnTab.CurrentPaneDomain"@) == PaletteTargetView::Run(ShellAction::NewTab),
        spec_palette_action("SplitHorizontal"@) == PaletteTargetView::Run(ShellAction::Split(SplitAxis::Horizontal)),
        spec_palette_action("SplitVertical"@) == PaletteTargetView::Run(ShellAction::Split(SplitAxis::Vertical)),
        spec_palette_action("CloseCurrentTab.confirm"@) == PaletteTargetView::Run(ShellAction::ConfirmCloseTab),
        spec_palette_action("CloseCurrentPane.confirm"@) == PaletteTargetView::Run(ShellAction::ConfirmClosePane),
        spec_palette_action("QuitApplication"@) == PaletteTargetView::Run(ShellAction::ConfirmQuit),
        spec_palette_action("IncreaseFontSize"@) == PaletteTargetView::Run(ShellAction::IncreaseFontSize),
        spec_palette_action("DecreaseFontSize"@) == PaletteTargetView::Run(ShellAction::DecreaseFontSize),
        spec_palette_action("ResetFontSize"@) == PaletteTargetView::Run(ShellAction::ResetFontSize),
        spec_palette_action("ResetFontAndWindowSize"@) == PaletteTargetView::Run(ShellAction::ResetFontAndWindowSize),
        spec_palette_action("ToggleFullScreen"@) == PaletteTargetView::Run(ShellAction::ToggleFullScreen),
        spec_palette_action("ToggleAlwaysOnTop"@) == PaletteTargetView::Run(ShellAction::ToggleAlwaysOnTop),
        spec_palette_action("ToggleAlwaysOnBottom"@) == PaletteTargetView::Run(ShellAction::ToggleAlwaysOnBottom),
        spec_palette_action("ClearScrollback.ScrollbackOnly"@) == PaletteTargetView::Run(ShellAction::ClearScrollback),
        spec_palette_action("ClearScrollback.ScrollbackAndViewport"@) == PaletteTargetView::Run(ShellAction::ClearScrollbackAndViewport),
        spec_palette_action("ResetTerminal"@) == PaletteTargetView::Run(ShellAction::ResetTerminal),
        spec_palette_action("ScrollByPage.Up"@) == PaletteTargetView::Run(ShellAction::ScrollByPage(-1isize)),
        spec_palette_action("ScrollByPage.Down"@) == PaletteTargetView::Run(ShellAction::ScrollByPage(1isize)),
        spec_palette_action("ScrollToTop"@) == PaletteTargetView::Run(ShellAction::ScrollToTop),
        spec_palette_action("ScrollToBottom"@) == PaletteTargetView::Run(ShellAction::ScrollToBottom),
        spec_palette_action("OpenLinkAtMouseCursor"@) == PaletteTargetView::Run(ShellAction::OpenLinkAtMouseCursor),
        spec_palette_action("OpenUri.docs"@) == PaletteTargetView::Run(ShellAction::OpenUri(HelpLink::Docs)),
        spec_palette_action("OpenUri.discussions"@) == PaletteTargetView::Run(ShellAction::OpenUri(HelpLink::Discussions)),
        spec_palette_action("OpenUri.issues"@) == PaletteTargetView::Run(ShellAction::OpenUri(HelpLink::Issues)),
        spec_palette_action("Hide"@) == PaletteTargetView::Run(ShellAction::Minimize),
        spec_palette_action("TogglePaneZoomState"@) == PaletteTargetView::Run(ShellAction::TogglePaneZoom),
        spec_palette_action("ActivateLastTab"@) == PaletteTargetView::Run(ShellAction::ActivateLastTab),
        spec_palette_action("CopyTo.Clipboard"@) == PaletteTargetView::Run(ShellAction::CopySelection),
        spec_palette_action("PasteFrom.Clipboard"@) == PaletteTargetView::Run(ShellAction::PasteClipboard),
        spec_palette_action("ActivateCommandPalette"@) == PaletteTargetView::Run(ShellAction::OpenPalette),
        spec_palette_action("ReloadConfiguration"@) == PaletteTargetView::Run(ShellAction::ReloadConfiguration),
        spec_palette_action("SpawnWindow"@) == PaletteTargetView::Run(ShellAction::SpawnWindow),
        spec_palette_action("DetachDomain.CurrentPaneDomain"@) == PaletteTargetView::Run(ShellAction::Notice(Notice::LocalDomainCannotDetach)),
        spec_palette_action("ShowLauncher"@) == PaletteTargetView::Run(ShellAction::OpenPicker(PickerKind::Launcher)),
        spec_palette_action("PasteFrom.PrimarySelection"@) == PaletteTargetView::Run(ShellAction::PasteClipboard),
        spec_palette_action("CopyTo.PrimarySelection"@) == PaletteTargetView::Run(ShellAction::CopySelection),
        spec_palette_action("QuickSelect"@) == PaletteTargetView::Run(ShellAction::QuickSelect),
        spec_palette_action("CharSelect"@) == PaletteTargetView::Run(ShellAction::OpenPicker(PickerKind::CharSelect)),
        spec_palette_action("ActivateCopyMode"@) == PaletteTargetView::Run(ShellAction::CopyMode),
        spec_palette_action("ClearKeyTableStack"@) == PaletteTargetView::Run(ShellAction::Notice(Notice::KeyTableStackEmpty)),
        spec_palette_action("Search"@) == PaletteTargetView::Run(ShellAction::Search),
        spec_palette_action("ShowTabNavigator"@) == PaletteTargetView::Run(ShellAction::OpenPicker(PickerKind::TabNav)),
        spec_palette_action("ShowDebugOverlay"@) == PaletteTargetView::Run(ShellAction::DebugOverlay),
        spec_palette_action("PaneSelect.Activate"@) == PaletteTargetView::Run(ShellAction::PaneSelect(PaneSelectMode::Activate)),
        spec_palette_action("PaneSelect.SwapWithActive"@) == PaletteTargetView::Run(ShellAction::PaneSelect(PaneSelectMode::Swap)),
        spec_palette_action("PaneSelect.SwapWithActiveKeepFocus"@) == PaletteTargetView::Run(ShellAction::PaneSelect(PaneSelectMode::SwapKeep)),
        spec_palette_action("PaneSelect.MoveToNewTab"@) == PaletteTargetView::Run(ShellAction::PaneSelect(PaneSelectMode::MoveTab)),
        spec_palette_action("PaneSelect.MoveToNewWindow"@) == PaletteTargetView::Run(ShellAction::PaneSelect(PaneSelectMode::MoveWindow)),
        spec_palette_action("ToggleFpsHud"@) == PaletteTargetView::Run(ShellAction::ToggleFpsHud),
        spec_palette_action("RenameTab"@) == PaletteTargetView::Run(ShellAction::RenamePrompt),
        spec_palette_action("PromptInputLine"@) == PaletteTargetView::Run(ShellAction::RenamePrompt),
        spec_palette_action("Confirmation"@) == PaletteTargetView::Run(ShellAction::DemoConfirm),
{
    reveal_strlit("ActivateCommandPalette");
    reveal_strlit("ActivateCopyMode");
    reveal_strlit("ActivateLastTab");
    reveal_strlit("CharSelect");
    reveal_strlit("ClearKeyTableStack");
    reveal_strlit("ClearScrollback.ScrollbackAndViewport");
    reveal_strlit("ClearScrollback.ScrollbackOnly");
    reveal_strlit("CloseCurrentPane.confirm");
    reveal_strlit("CloseCurrentTab.confirm");
    reveal_strlit("Confirmation");
    reveal_strlit("CopyTo.Clipboard");
    reveal_strlit("CopyTo.PrimarySelection");
    reveal_strlit("DecreaseFontSize");
    reveal_strlit("DetachDomain.CurrentPaneDomain");
    reveal_strlit("Hide");
    reveal_strlit("IncreaseFontSize");
    reveal_strlit("OpenLinkAtMouseCursor");
    reveal_strlit("OpenUri.discussions");
    reveal_strlit("OpenUri.docs");
    reveal_strlit("OpenUri.issues");
    reveal_strlit("PaneSelect.Activate");
    reveal_strlit("PaneSelect.MoveToNewTab");
    reveal_strlit("PaneSelect.MoveToNewWindow");
    reveal_strlit("PaneSelect.SwapWithActive");
    reveal_strlit("PaneSelect.SwapWithActiveKeepFocus");
    reveal_strlit("PasteFrom.Clipboard");
    reveal_strlit("PasteFrom.PrimarySelection");
    reveal_strlit("PromptInputLine");
    reveal_strlit("QuickSelect");
    reveal_strlit("QuitApplication");
    reveal_strlit("ReloadConfiguration");
    reveal_strlit("RenameTab");
    reveal_strlit("ResetFontAndWindowSize");
    reveal_strlit("ResetFontSize");
    reveal_strlit("ResetTerminal");
    reveal_strlit("ScrollByPage.Down");
    reveal_strlit("ScrollByPage.Up");
    reveal_strlit("ScrollToBottom");
    reveal_strlit("ScrollToTop");
    reveal_strlit("Search");
    reveal_strlit("ShowDebugOverlay");
    reveal_strlit("ShowLauncher");
    reveal_strlit("ShowTabNavigator");
    reveal_strlit("SpawnTab.CurrentPaneDomain");
    reveal_strlit("SpawnWindow");
    reveal_strlit("SplitHorizontal");
    reveal_strlit("SplitVertical");
    reveal_strlit("ToggleAlwaysOnBottom");
    reveal_strlit("ToggleAlwaysOnTop");
    reveal_strlit("ToggleFpsHud");
    reveal_strlit("ToggleFullScreen");
    reveal_strlit("TogglePaneZoomState");
    reveal_strlit("domain:");
    reveal_strlit("workspace:create");
    reveal_strlit("workspace:relative:-1");
    reveal_strlit("workspace:relative:1");
    reveal_strlit("workspace:switch:");
    assert("SpawnTab.CurrentPaneDomain"@.subrange(0, 7)[0] != "domain:"@[0]);
    assert("SpawnTab.CurrentPaneDomain"@.subrange(0, 17)[0] != "workspace:switch:"@[0]);
    assert("SplitHorizontal"@.subrange(0, 7)[0] != "domain:"@[0]);
    assert("SplitVertical"@.subrange(0, 7)[0] != "domain:"@[0]);
    assert("CloseCurrentTab.confirm"@.subrange(0, 7)[0] != "domain:"@[0]);
    assert("CloseCurrentTab.confirm"@.subrange(0, 17)[0] != "workspace:switch:"@[0]);
    assert("CloseCurrentPane.confirm"@.subrange(0, 7)[0] != "domain:"@[0]);
    assert("CloseCurrentPane.confirm"@.subrange(0, 17)[0] != "workspace:switch:"@[0]);
    assert("QuitApplication"@.subrange(0, 7)[0] != "domain:"@[0]);
    assert("QuitApplication"@[0] != "SplitHorizontal"@[0]);
    assert("IncreaseFontSize"@.subrange(0, 7)[0] != "domain:"@[0]);
    assert("IncreaseFontSize"@[0] != "workspace:create"@[0]);
    assert("DecreaseFontSize"@.subrange(0, 7)[0] != "domain:"@[0]);
    assert("DecreaseFontSize"@[0] != "workspace:create"@[0]);
    assert("DecreaseFontSize"@[0] != "IncreaseFontSize"@[0]);
    assert("ResetFontSize"@.subrange(0, 7)[0] != "domain:"@[0]);
    assert("ResetFontSize"@[0] != "SplitVertical"@[0]);
    assert("ResetFontAndWindowSize"@.subrange(0, 7)[0] != "domain:"@[0]);
    assert("ResetFontAndWindowSize"@.subrange(0, 17)[0] != "workspace:switch:"@[0]);
    assert("ToggleFullScreen"@.subrange(0, 7)[0] != "domain:"@[0]);
    assert("ToggleFullScreen"@[0] != "workspace:create"@[0]);
    assert("ToggleFullScreen"@[0] != "IncreaseFontSize"@[0]);
    assert("ToggleFullScreen"@[0] != "DecreaseFontSize"@[0]);
    assert("ToggleAlwaysOnTop"@.subrange(0, 7)[0] != "domain:"@[0]);
    assert("ToggleAlwaysOnTop"@.subrange(0, 17)[0] != "workspace:switch:"@[0]);
    assert("ToggleAlwaysOnBottom"@.subrange(0, 7)[0] != "domain:"@[0]);
    assert("ToggleAlwaysOnBottom"@.subrange(0, 17)[0] != "workspace:switch:"@[0]);
    assert("ToggleAlwaysOnBottom"@[0] != "workspace:relative:1"@[0]);
    assert("ClearScrollback.ScrollbackOnly"@.subrange(0, 7)[0] != "domain:"@[0]);
    assert("ClearScrollback.ScrollbackOnly"@.subrange(0, 17)[0] != "workspace:switch:"@[0]);
    assert("ClearScrollback.ScrollbackAndViewport"@.subrange(0, 7)[0] != "domain:"@[0]);
    assert("ClearScrollback.ScrollbackAndViewport"@.subrange(0, 17)[0] != "workspace:switch:"@[0]);
    assert("ResetTerminal"@.subrange(0, 7)[0] != "domain:"@[0]);
    assert("ResetTerminal"@[0] != "SplitVertical"@[0]);
    assert("ResetTerminal"@[5] != "ResetFontSize"@[5]);
    assert("ScrollByPage.Up"@.subrange(0, 7)[0] != "domain:"@[0]);
    assert("ScrollByPage.Up"@[1] != "SplitHorizontal"@[1]);
    assert("ScrollByPage.Up"@[0] != "QuitApplication"@[0]);
    assert("ScrollByPage.Down"@.subrange(0, 7)[0] != "domain:"@[0]);
    assert("ScrollByPage.Down"@.subrange(0, 17)[0] != "workspace:switch:"@[0]);
    assert("ScrollByPage.Down"@[0] != "ToggleAlwaysOnTop"@[0]);
    assert("ScrollToTop"@.subrange(0, 7)[0] != "domain:"@[0]);
    assert("ScrollToBottom"@.subrange(0, 7)[0] != "domain:"@[0]);
    assert("OpenLinkAtMouseCursor"@.subrange(0, 7)[0] != "domain:"@[0]);
    assert("OpenLinkAtMouseCursor"@.subrange(0, 17)[0] != "workspace:switch:"@[0]);
    assert("OpenLinkAtMouseCursor"@[0] != "workspace:relative:-1"@[0]);
    assert("OpenUri.docs"@.subrange(0, 7)[0] != "domain:"@[0]);
    assert("OpenUri.discussions"@.subrange(0, 7)[0] != "domain:"@[0]);
    assert("OpenUri.discussions"@.subrange(0, 17)[0] != "workspace:switch:"@[0]);
    assert("OpenUri.issues"@.subrange(0, 7)[0] != "domain:"@[0]);
    assert("OpenUri.issues"@[0] != "ScrollToBottom"@[0]);
    assert("TogglePaneZoomState"@.subrange(0, 7)[0] != "domain:"@[0]);
    assert("TogglePaneZoomState"@.subrange(0, 17)[0] != "workspace:switch:"@[0]);
    assert("TogglePaneZoomState"@[0] != "OpenUri.discussions"@[0]);
    assert("ActivateLastTab"@.subrange(0, 7)[0] != "domain:"@[0]);
    assert("ActivateLastTab"@[0] != "SplitHorizontal"@[0]);
    assert("ActivateLastTab"@[0] != "QuitApplication"@[0]);
    assert("ActivateLastTab"@[0] != "ScrollByPage.Up"@[0]);
    assert("CopyTo.Clipboard"@.subrange(0, 7)[0] != "domain:"@[0]);
    assert("CopyTo.Clipboard"@[0] != "workspace:create"@[0]);
    assert("CopyTo.Clipboard"@[0] != "IncreaseFontSize"@[0]);
    assert("CopyTo.Clipboard"@[0] != "DecreaseFontSize"@[0]);
    assert("CopyTo.Clipboard"@[0] != "ToggleFullScreen"@[0]);
    assert("PasteFrom.Clipboard"@.subrange(0, 7)[0] != "domain:"@[0]);
    assert("PasteFrom.Clipboard"@.subrange(0, 17)[0] != "workspace:switch:"@[0]);
    assert("PasteFrom.Clipboard"@[0] != "OpenUri.discussions"@[0]);
    assert("PasteFrom.Clipboard"@[0] != "TogglePaneZoomState"@[0]);
    assert("ActivateCommandPalette"@.subrange(0, 7)[0] != "domain:"@[0]);
    assert("ActivateCommandPalette"@.subrange(0, 17)[0] != "workspace:switch:"@[0]);
    assert("ActivateCommandPalette"@[0] != "ResetFontAndWindowSize"@[0]);
    assert("ReloadConfiguration"@.subrange(0, 7)[0] != "domain:"@[0]);
    assert("ReloadConfiguration"@.subrange(0, 17)[0] != "workspace:switch:"@[0]);
    assert("ReloadConfiguration"@[0] != "OpenUri.discussions"@[0]);
    assert("ReloadConfiguration"@[0] != "TogglePaneZoomState"@[0]);
    assert("ReloadConfiguration"@[0] != "PasteFrom.Clipboard"@[0]);
    assert("SpawnWindow"@.subrange(0, 7)[0] != "domain:"@[0]);
    assert("SpawnWindow"@[1] != "ScrollToTop"@[1]);
    assert("DetachDomain.CurrentPaneDomain"@.subrange(0, 7)[0] != "domain:"@[0]);
    assert("DetachDomain.CurrentPaneDomain"@.subrange(0, 17)[0] != "workspace:switch:"@[0]);
    assert("DetachDomain.CurrentPaneDomain"@[0] != "ClearScrollback.ScrollbackOnly"@[0]);
    assert("ShowLauncher"@.subrange(0, 7)[0] != "domain:"@[0]);
    assert("ShowLauncher"@[0] != "OpenUri.docs"@[0]);
    assert("PasteFrom.PrimarySelection"@.subrange(0, 7)[0] != "domain:"@[0]);
    assert("PasteFrom.PrimarySelection"@.subrange(0, 17)[0] != "workspace:switch:"@[0]);
    assert("PasteFrom.PrimarySelection"@[0] != "SpawnTab.CurrentPaneDomain"@[0]);
    assert("CopyTo.PrimarySelection"@.subrange(0, 7)[0] != "domain:"@[0]);
    assert("CopyTo.PrimarySelection"@.subrange(0, 17)[0] != "workspace:switch:"@[0]);
    assert("CopyTo.PrimarySelection"@[1] != "CloseCurrentTab.confirm"@[1]);
    assert("QuickSelect"@.subrange(0, 7)[0] != "domain:"@[0]);
    assert("QuickSelect"@[0] != "ScrollToTop"@[0]);
    assert("QuickSelect"@[0] != "SpawnWindow"@[0]);
    assert("CharSelect"@.subrange(0, 7)[0] != "domain:"@[0]);
    assert("ActivateCopyMode"@.subrange(0, 7)[0] != "domain:"@[0]);
    assert("ActivateCopyMode"@[0] != "workspace:create"@[0]);
    assert("ActivateCopyMode"@[0] != "IncreaseFontSize"@[0]);
    assert("ActivateCopyMode"@[0] != "DecreaseFontSize"@[0]);
    assert("ActivateCopyMode"@[0] != "ToggleFullScreen"@[0]);
    assert("ActivateCopyMode"@[0] != "CopyTo.Clipboard"@[0]);
    assert("ClearKeyTableStack"@.subrange(0, 7)[0] != "domain:"@[0]);
    assert("ClearKeyTableStack"@.subrange(0, 17)[0] != "workspace:switch:"@[0]);
    assert("ShowTabNavigator"@.subrange(0, 7)[0] != "domain:"@[0]);
    assert("ShowTabNavigator"@[0] != "workspace:create"@[0]);
    assert("ShowTabNavigator"@[0] != "IncreaseFontSize"@[0]);
    assert("ShowTabNavigator"@[0] != "DecreaseFontSize"@[0]);
    assert("ShowTabNavigator"@[0] != "ToggleFullScreen"@[0]);
    assert("ShowTabNavigator"@[0] != "CopyTo.Clipboard"@[0]);
    assert("ShowTabNavigator"@[0] != "ActivateCopyMode"@[0]);
    assert("ShowDebugOverlay"@.subrange(0, 7)[0] != "domain:"@[0]);
    assert("ShowDebugOverlay"@[0] != "workspace:create"@[0]);
    assert("ShowDebugOverlay"@[0] != "IncreaseFontSize"@[0]);
    assert("ShowDebugOverlay"@[0] != "DecreaseFontSize"@[0]);
    assert("ShowDebugOverlay"@[0] != "ToggleFullScreen"@[0]);
    assert("ShowDebugOverlay"@[0] != "CopyTo.Clipboard"@[0]);
    assert("ShowDebugOverlay"@[0] != "ActivateCopyMode"@[0]);
    assert("ShowDebugOverlay"@[4] != "ShowTabNavigator"@[4]);
    assert("PaneSelect.Activate"@.subrange(0, 7)[0] != "domain:"@[0]);
    assert("PaneSelect.Activate"@.subrange(0, 17)[0] != "workspace:switch:"@[0]);
    assert("PaneSelect.Activate"@[0] != "OpenUri.discussions"@[0]);
    assert("PaneSelect.Activate"@[0] != "TogglePaneZoomState"@[0]);
    assert("PaneSelect.Activate"@[2] != "PasteFrom.Clipboard"@[2]);
    assert("PaneSelect.Activate"@[0] != "ReloadConfiguration"@[0]);
    assert("PaneSelect.SwapWithActive"@.subrange(0, 7)[0] != "domain:"@[0]);
    assert("PaneSelect.SwapWithActive"@.subrange(0, 17)[0] != "workspace:switch:"@[0]);
    assert("PaneSelect.SwapWithActiveKeepFocus"@.subrange(0, 7)[0] != "domain:"@[0]);
    assert("PaneSelect.SwapWithActiveKeepFocus"@.subrange(0, 17)[0] != "workspace:switch:"@[0]);
    assert("PaneSelect.MoveToNewTab"@.subrange(0, 7)[0] != "domain:"@[0]);
    assert("PaneSelect.MoveToNewTab"@.subrange(0, 17)[0] != "workspace:switch:"@[0]);
    assert("PaneSelect.MoveToNewTab"@[0] != "CloseCurrentTab.confirm"@[0]);
    assert("PaneSelect.MoveToNewTab"@[0] != "CopyTo.PrimarySelection"@[0]);
    assert("PaneSelect.MoveToNewWindow"@.subrange(0, 7)[0] != "domain:"@[0]);
    assert("PaneSelect.MoveToNewWindow"@.subrange(0, 17)[0] != "workspace:switch:"@[0]);
    assert("PaneSelect.MoveToNewWindow"@[0] != "SpawnTab.CurrentPaneDomain"@[0]);
    assert("PaneSelect.MoveToNewWindow"@[2] != "PasteFrom.PrimarySelection"@[2]);
    assert("ToggleFpsHud"@.subrange(0, 7)[0] != "domain:"@[0]);
    assert("ToggleFpsHud"@[0] != "OpenUri.docs"@[0]);
    assert("ToggleFpsHud"@[0] != "ShowLauncher"@[0]);
    assert("RenameTab"@.subrange(0, 7)[0] != "domain:"@[0]);
    assert("PromptInputLine"@.subrange(0, 7)[0] != "domain:"@[0]);
    assert("PromptInputLine"@[0] != "SplitHorizontal"@[0]);
    assert("PromptInputLine"@[0] != "QuitApplication"@[0]);
    assert("PromptInputLine"@[0] != "ScrollByPage.Up"@[0]);
    assert("PromptInputLine"@[0] != "ActivateLastTab"@[0]);
    assert("Confirmation"@.subrange(0, 7)[0] != "domain:"@[0]);
    assert("Confirmation"@[0] != "OpenUri.docs"@[0]);
    assert("Confirmation"@[0] != "ShowLauncher"@[0]);
    assert("Confirmation"@[0] != "ToggleFpsHud"@[0]);
}

/// Each fixed action comes only from its own palette ids: whatever id
/// dispatches to, say, growing the font is "IncreaseFontSize" itself, and
/// likewise for every fixed action (copying and pasting each have a
/// clipboard and a primary-selection id; renaming has two).
pub proof fn lemma_fixed_actions_come_from_their_ids(id: Seq<char>)
    ensures
        spec_palette_action(id) == PaletteTargetView::Run(ShellAction::NewTab) ==> id == "SpawnTab.CurrentPaneDomain"@,
        spec_palette_action(id) == PaletteTargetView::Run(ShellAction::Split(SplitAxis::Horizontal)) ==> id == "SplitHorizontal"@,
        spec_palette_action(id) == PaletteTargetView::Run(ShellAction::Split(SplitAxis::Vertical)) ==> id == "SplitVertical"@,
        spec_palette_action(id) == PaletteTargetView::Run(ShellAction::ConfirmCloseTab) ==> id == "CloseCurrentTab.confirm"@,
        spec_palette_action(id) == PaletteTargetView::Run(ShellAction::ConfirmClosePane) ==> id == "CloseCurrentPane.confirm"@,
        spec_palette_action(id) == PaletteTargetView::Run(ShellAction::ConfirmQuit) ==> id == "QuitApplication"@,
        spec_palette_action(id) == PaletteTargetView::Run(ShellAction::IncreaseFontSize) ==> id == "IncreaseFontSize"@,
        spec_palette_action(id) == PaletteTargetView::Run(ShellAction::DecreaseFontSize) ==> id == "DecreaseFontSize"@,
        spec_palette_action(id) == PaletteTargetView::Run(ShellAction::ResetFontSize) ==> id == "ResetFontSize"@,
        spec_palette_action(id) == PaletteTargetView::Run(ShellAction::ResetFontAndWindowSize) ==> id == "ResetFontAndWindowSize"@,
        spec_palette_action(id) == PaletteTargetView::Run(ShellAction::ToggleFullScreen) ==> id == "ToggleFullScreen"@,
        spec_palette_action(id) == PaletteTargetView::Run(ShellAction::ToggleAlwaysOnTop) ==> id == "ToggleAlwaysOnTop"@,
        spec_palette_action(id) == PaletteTargetView::Run(ShellAction::ToggleAlwaysOnBottom) ==> id == "ToggleAlwaysOnBottom"@,
        spec_palette_action(id) == PaletteTargetView::Run(ShellAction::ClearScrollback) ==> id == "ClearScrollback.ScrollbackOnly"@,
        spec_palette_action(id) == PaletteTargetView::Run(ShellAction::ClearScrollbackAndViewport) ==> id == "ClearScrollback.ScrollbackAndViewport"@,
        spec_palette_action(id) == PaletteTargetView::Run(ShellAction::ResetTerminal) ==> id == "ResetTerminal"@,
        spec_palette_action(id) == PaletteTargetView::Run(ShellAction::ScrollByPage(-1isize)) ==> id == "ScrollByPage.Up"@,
        spec_palette_action(id) == PaletteTargetView::Run(ShellAction::ScrollByPage(1isize)) ==> id == "ScrollByPage.Down"@,
        spec_palette_action(id) == PaletteTargetView::Run(ShellAction::ScrollToTop) ==> id == "ScrollToTop"@,
        spec_palette_action(id) == PaletteTargetView::Run(ShellAction::ScrollToBottom) ==> id == "ScrollToBottom"@,
        spec_palette_action(id) == PaletteTargetView::Run(ShellAction::OpenLinkAtMouseCursor) ==> id == "OpenLinkAtMouseCursor"@,
        spec_palette_action(id) == PaletteTargetView::Run(ShellAction::OpenUri(HelpLink::Docs)) ==> id == "OpenUri.docs"@,
        spec_palette_action(id) == PaletteTargetView::Run(ShellAction::OpenUri(HelpLink::Discussions)) ==> id == "OpenUri.discussions"@,
        spec_palette_action(id) == PaletteTargetView::Run(ShellAction::OpenUri(HelpLink::Issues)) ==> id == "OpenUri.issues"@,
        spec_palette_action(id) == PaletteTargetView::Run(ShellAction::Minimize) ==> id == "Hide"@,
        spec_palette_action(id) == PaletteTargetView::Run(ShellAction::TogglePaneZoom) ==> id == "TogglePaneZoomState"@,
        spec_palette_action(id) == PaletteTargetView::Run(ShellAction::ActivateLastTab) ==> id == "ActivateLastTab"@,
        spec_palette_action(id) == PaletteTargetView::Run(ShellAction::CopySelection) ==> id == "CopyTo.Clipboard"@ || id == "CopyTo.PrimarySelection"@,
        spec_palette_action(id) == PaletteTargetView::Run(ShellAction::PasteClipboard) ==> id == "PasteFrom.Clipboard"@ || id == "PasteFrom.PrimarySelection"@,
        spec_palette_action(id) == PaletteTargetView::Run(ShellAction::OpenPalette) ==> id == "ActivateCommandPalette"@,
        spec_palette_action(id) == PaletteTargetView::Run(ShellAction::ReloadConfiguration) ==> id == "ReloadConfiguration"@,
        spec_palette_action(id) == PaletteTargetView::Run(ShellAction::SpawnWindow) ==> id == "SpawnWindow"@,
        spec_palette_action(id) == PaletteTargetView::Run(ShellAction::Notice(Notice::LocalDomainCannotDetach)) ==> id == "DetachDomain.CurrentPaneDomain"@,
        spec_palette_action(id) == PaletteTargetView::Run(ShellAction::OpenPicker(PickerKind::Launcher)) ==> id == "ShowLauncher"@,
        spec_palette_action(id) == PaletteTargetView::Run(ShellAction::QuickSelect) ==> id == "QuickSelect"@,
        spec_palette_action(id) == PaletteTargetView::Run(ShellAction::OpenPicker(PickerKind::CharSelect)) ==> id == "CharSelect"@,
        spec_palette_action(id) == PaletteTargetView::Run(ShellAction::CopyMode) ==> id == "ActivateCopyMode"@,
        spec_palette_action(id) == PaletteTargetView::Run(ShellAction::Notice(Notice::KeyTableStackEmpty)) ==> id == "ClearKeyTableStack"@,
        spec_palette_action(id) == PaletteTargetView::Run(ShellAction::Search) ==> id == "Search"@,
        spec_palette_action(id) == PaletteTargetView::Run(ShellAction::OpenPicker(PickerKind::TabNav)) ==> id == "ShowTabNavigator"@,
        spec_palette_action(id) == PaletteTargetView::Run(ShellAction::DebugOverlay) ==> id == "ShowDebugOverlay"@,
        spec_palette_action(id) == PaletteTargetView::Run(ShellAction::PaneSelect(PaneSelectMode::Activate)) ==> id == "PaneSelect.Activate"@,
        spec_palette_action(id) == PaletteTargetView::Run(ShellAction::PaneSelect(PaneSelectMode::Swap)) ==> id == "PaneSelect.SwapWithActive"@,
        spec_palette_action(id) == PaletteTargetView::Run(ShellAction::PaneSelect(PaneSelectMode::SwapKeep)) ==> id == "PaneSelect.SwapWithActiveKeepFocus"@,
        spec_palette_action(id) == PaletteTargetView::Run(ShellAction::PaneSelect(PaneSelectMode::MoveTab)) ==> id == "PaneSelect.MoveToNewTab"@,
        spec_palette_action(id) == PaletteTargetView::Run(ShellAction::PaneSelect(PaneSelectMode::MoveWindow)) ==> id == "PaneSelect.MoveToNewWindow"@,
        spec_palette_action(id) == PaletteTargetView::Run(ShellAction::ToggleFpsHud) ==> id == "ToggleFpsHud"@,
        spec_palette_action(id) == PaletteTargetView::Run(ShellAction::RenamePrompt) ==> id == "RenameTab"@ || id == "PromptInputLine"@,
        spec_palette_action(id) == PaletteTargetView::Run(ShellAction::DemoConfirm) ==> id == "Confirmation"@,
{
}

/// The ids with a fixed argument run their namesakes too: moving the
/// focus or resizing toward a named side goes that way, rotating clockwise
/// or counter-clockwise turns that way, each window level id sets that
/// level, and the workspace ids create a workspace or step forward or back.
pub proof fn lemma_argument_ids_run_their_namesakes()
    ensures
        spec_palette_action("ActivatePaneDirection.Left"@) == PaletteTargetView::Run(ShellAction::ActivatePaneDirection(PaneDir::Left)),
        spec_palette_action("AdjustPaneSize.Left"@) == PaletteTargetView::Run(ShellAction::AdjustPaneSize(PaneDir::Left)),
        spec_palette_action("ActivatePaneDirection.Right"@) == PaletteTargetView::Run(ShellAction::ActivatePaneDirection(PaneDir::Right)),
        spec_palette_action("AdjustPaneSize.Right"@) == PaletteTargetView::Run(ShellAction::AdjustPaneSize(PaneDir::Right)),
        spec_palette_action("ActivatePaneDirection.Up"@) == PaletteTargetView::Run(ShellAction::ActivatePaneDirection(PaneDir::Up)),
        spec_palette_action("AdjustPaneSize.Up"@) == PaletteTargetView::Run(ShellAction::AdjustPaneSize(PaneDir::Up)),
        spec_palette_action("ActivatePaneDirection.Down"@) == PaletteTargetView::Run(ShellAction::ActivatePaneDirection(PaneDir::Down)),
        spec_palette_action("AdjustPaneSize.Down"@) == PaletteTargetView::Run(ShellAction::AdjustPaneSize(PaneDir::Down)),
        spec_palette_action("RotatePanes.Clockwise"@) == PaletteTargetView::Run(ShellAction::RotatePanes(true)),
        spec_palette_action("RotatePanes.CounterClockwise"@) == PaletteTargetView::Run(ShellAction::RotatePanes(false)),
        spec_palette_action("SetWindowLevel.Normal"@) == PaletteTargetView::Run(ShellAction::SetWindowLevel(WindowZOrder::Normal)),
        spec_palette_action("SetWindowLevel.AlwaysOnTop"@) == PaletteTargetView::Run(ShellAction::SetWindowLevel(WindowZOrder::AlwaysOnTop)),
        spec_palette_action("SetWindowLevel.AlwaysOnBottom"@) == PaletteTargetView::Run(ShellAction::SetWindowLevel(WindowZOrder::AlwaysOnBottom)),
        spec_palette_action("workspace:create"@) == PaletteTargetView::Run(ShellAction::CreateWorkspace),
        spec_palette_action("workspace:relative:1"@) == PaletteTargetView::Run(ShellAction::SwitchWorkspaceRelative(1isize)),
        spec_palette_action("workspace:relative:-1"@) == PaletteTargetView::Run(ShellAction::SwitchWorkspaceRelative(-1isize)),
{
    reveal_strlit("ActivateCommandPalette");
    reveal_strlit("ActivateCopyMode");
    reveal_strlit("ActivateLastTab");
    reveal_strlit("ActivatePaneDirection.");
    reveal_strlit("ActivatePaneDirection.Down");
    reveal_strlit("ActivatePaneDirection.Left");
    reveal_strlit("ActivatePaneDirection.Right");
    reveal_strlit("ActivatePaneDirection.Up");
    reveal_strlit("ActivateTab.");
    reveal_strlit("ActivateTabRelative.");
    reveal_strlit("ActivateWindow.");
    reveal_strlit("ActivateWindowRelative.");
    reveal_strlit("AdjustPaneSize.");
    reveal_strlit("AdjustPaneSize.Down");
    reveal_strlit("AdjustPaneSize.Left");
    reveal_strlit("AdjustPaneSize.Right");
    reveal_strlit("AdjustPaneSize.Up");
    reveal_strlit("CharSelect");
    reveal_strlit("ClearKeyTableStack");
    reveal_strlit("ClearScrollback.ScrollbackAndViewport");
    reveal_strlit("ClearScrollback.ScrollbackOnly");
    reveal_strlit("Clockwise");
    reveal_strlit("CloseCurrentPane.confirm");
    reveal_strlit("CloseCurrentTab.confirm");
    reveal_strlit("Confirmation");
    reveal_strlit("CopyTo.Clipboard");
    reveal_strlit("CopyTo.PrimarySelection");
    reveal_strlit("CounterClockwise");
    reveal_strlit("DecreaseFontSize");
    reveal_strlit("DetachDomain.CurrentPaneDomain");
    reveal_strlit("Down");
    reveal_strlit("Hide");
    reveal_strlit("IncreaseFontSize");
    reveal_strlit("Left");
    reveal_strlit("MoveTabRelative.");
    reveal_strlit("OpenLinkAtMouseCursor");
    reveal_strlit("OpenUri.discussions");
    reveal_strlit("OpenUri.docs");
    reveal_strlit("OpenUri.issues");
    reveal_strlit("PaneSelect.Activate");
    reveal_strlit("PaneSelect.MoveToNewTab");
    reveal_strlit("PaneSelect.MoveToNewWindow");
    reveal_strlit("PaneSelect.SwapWithActive");
    reveal_strlit("PaneSelect.SwapWithActiveKeepFocus");
    reveal_strlit("PasteFrom.Clipboard");
    reveal_strlit("PasteFrom.PrimarySelection");
    reveal_strlit("PromptInputLine");
    reveal_strlit("QuickSelect");
    reveal_strlit("QuitApplication");
    reveal_strlit("ReloadConfiguration");
    reveal_strlit("RenameTab");
    reveal_strlit("ResetFontAndWindowSize");
    reveal_strlit("ResetFontSize");
    reveal_strlit("ResetTerminal");
    reveal_strlit("Right");
    reveal_strlit("RotatePanes.");
    reveal_strlit("RotatePanes.Clockwise");
    reveal_strlit("RotatePanes.CounterClockwise");
    reveal_strlit("ScrollByPage.Down");
    reveal_strlit("ScrollByPage.Up");
    reveal_strlit("ScrollToBottom");
    reveal_strlit("ScrollToTop");
    reveal_strlit("Search");
    reveal_strlit("SetWindowLevel.AlwaysOnBottom");
    reveal_strlit("SetWindowLevel.AlwaysOnTop");
    reveal_strlit("SetWindowLevel.Normal");
    reveal_strlit("ShowDebugOverlay");
    reveal_strlit("ShowLauncher");
    reveal_strlit("ShowTabNavigator");
    reveal_strlit("SpawnTab.CurrentPaneDomain");
    reveal_strlit("SpawnWindow");
    reveal_strlit("SplitHorizontal");
    reveal_strlit("SplitVertical");
    reveal_strlit("ToggleAlwaysOnBottom");
    reveal_strlit("ToggleAlwaysOnTop");
    reveal_strlit("ToggleFpsHud");
    reveal_strlit("ToggleFullScreen");
    reveal_strlit("TogglePaneZoomState");
    reveal_strlit("Up");
    reveal_strlit("domain:");
    reveal_strlit("workspace:create");
    reveal_strlit("workspace:relative:-1");
    reveal_strlit("workspace:relative:1");
    reveal_strlit("workspace:switch:");
    crate::text::lemma_not_prefix("ActivatePaneDirection.Left"@, "domain:"@, 0);
    crate::text::lemma_not_prefix("ActivatePaneDirection.Left"@, "workspace:switch:"@, 0);
    assert("ActivatePaneDirection.Left"@[0] != "SpawnTab.CurrentPaneDomain"@[0]);
    assert("ActivatePaneDirection.Left"@[0] != "PasteFrom.PrimarySelection"@[0]);
    assert("ActivatePaneDirection.Left"@[0] != "PaneSelect.MoveToNewWindow"@[0]);
    crate::text::lemma_not_prefix("ActivatePaneDirection.Left"@, "ActivateTabRelative."@, 8);
    crate::text::lemma_not_prefix("ActivatePaneDirection.Left"@, "ActivateTab."@, 8);
    crate::text::lemma_not_prefix("ActivatePaneDirection.Left"@, "MoveTabRelative."@, 0);
    assert("ActivatePaneDirection.Left"@ =~= "ActivatePaneDirection."@ + "Left"@);
    crate::text::lemma_is_prefix("ActivatePaneDirection."@, "Left"@);
    crate::text::lemma_not_prefix("AdjustPaneSize.Left"@, "domain:"@, 0);
    crate::text::lemma_not_prefix("AdjustPaneSize.Left"@, "workspace:switch:"@, 0);
    assert("AdjustPaneSize.Left"@[0] != "OpenUri.discussions"@[0]);
    assert("AdjustPaneSize.Left"@[0] != "TogglePaneZoomState"@[0]);
    assert("AdjustPaneSize.Left"@[0] != "PasteFrom.Clipboard"@[0]);
    assert("AdjustPaneSize.Left"@[0] != "ReloadConfiguration"@[0]);
    assert("AdjustPaneSize.Left"@[0] != "PaneSelect.Activate"@[0]);
    crate::text::lemma_not_prefix("AdjustPaneSize.Left"@, "ActivateTab."@, 1);
    crate::text::lemma_not_prefix("AdjustPaneSize.Left"@, "MoveTabRelative."@, 0);
    crate::text::lemma_not_prefix("AdjustPaneSize.Left"@, "RotatePanes."@, 0);
    crate::text::lemma_not_prefix("AdjustPaneSize.Left"@, "ActivateWindow."@, 1);
    assert("AdjustPaneSize.Left"@ =~= "AdjustPaneSize."@ + "Left"@);
    crate::text::lemma_is_prefix("AdjustPaneSize."@, "Left"@);
    crate::text::lemma_not_prefix("ActivatePaneDirection.Right"@, "domain:"@, 0);
    crate::text::lemma_not_prefix("ActivatePaneDirection.Right"@, "workspace:switch:"@, 0);
    crate::text::lemma_not_prefix("ActivatePaneDirection.Right"@, "ActivateTabRelative."@, 8);
    crate::text::lemma_not_prefix("ActivatePaneDirection.Right"@, "ActivateTab."@, 8);
    crate::text::lemma_not_prefix("ActivatePaneDirection.Right"@, "MoveTabRelative."@, 0);
    assert("ActivatePaneDirection.Right"@ =~= "ActivatePaneDirection."@ + "Right"@);
    crate::text::lemma_is_prefix("ActivatePaneDirection."@, "Right"@);
    crate::text::lemma_not_prefix("AdjustPaneSize.Right"@, "domain:"@, 0);
    crate::text::lemma_not_prefix("AdjustPaneSize.Right"@, "workspace:switch:"@, 0);
    assert("AdjustPaneSize.Right"@[0] != "workspace:relative:1"@[0]);
    assert("AdjustPaneSize.Right"@[0] != "ToggleAlwaysOnBottom"@[0]);
    crate::text::lemma_not_prefix("AdjustPaneSize.Right"@, "ActivateTabRelative."@, 1);
    crate::text::lemma_not_prefix("AdjustPaneSize.Right"@, "ActivateTab."@, 1);
    crate::text::lemma_not_prefix("AdjustPaneSize.Right"@, "MoveTabRelative."@, 0);
    crate::text::lemma_not_prefix("AdjustPaneSize.Right"@, "RotatePanes."@, 0);
    crate::text::lemma_not_prefix("AdjustPaneSize.Right"@, "ActivateWindow."@, 1);
    assert("AdjustPaneSize.Right"@ =~= "AdjustPaneSize."@ + "Right"@);
    crate::text::lemma_is_prefix("AdjustPaneSize."@, "Right"@);
    crate::text::lemma_not_prefix("ActivatePaneDirection.Up"@, "domain:"@, 0);
    crate::text::lemma_not_prefix("ActivatePaneDirection.Up"@, "workspace:switch:"@, 0);
    assert("ActivatePaneDirection.Up"@[0] != "CloseCurrentPane.confirm"@[0]);
    crate::text::lemma_not_prefix("ActivatePaneDirection.Up"@, "ActivateTabRelative."@, 8);
    crate::text::lemma_not_prefix("ActivatePaneDirection.Up"@, "ActivateTab."@, 8);
    crate::text::lemma_not_prefix("ActivatePaneDirection.Up"@, "MoveTabRelative."@, 0);
    assert("ActivatePaneDirection.Up"@ =~= "ActivatePaneDirection."@ + "Up"@);
    crate::text::lemma_is_prefix("ActivatePaneDirection."@, "Up"@);
    crate::text::lemma_not_prefix("AdjustPaneSize.Up"@, "domain:"@, 0);
    crate::text::lemma_not_prefix("AdjustPaneSize.Up"@, "workspace:switch:"@, 0);
    assert("AdjustPaneSize.Up"@[0] != "ToggleAlwaysOnTop"@[0]);
    assert("AdjustPaneSize.Up"@[0] != "ScrollByPage.Down"@[0]);
    crate::text::lemma_not_prefix("AdjustPaneSize.Up"@, "ActivateTab."@, 1);
    crate::text::lemma_not_prefix("AdjustPaneSize.Up"@, "MoveTabRelative."@, 0);
    crate::text::lemma_not_prefix("AdjustPaneSize.Up"@, "RotatePanes."@, 0);
    crate::text::lemma_not_prefix("AdjustPaneSize.Up"@, "ActivateWindow."@, 1);
    assert("AdjustPaneSize.Up"@ =~= "AdjustPaneSize."@ + "Up"@);
    crate::text::lemma_is_prefix("AdjustPaneSize."@, "Up"@);
    crate::text::lemma_not_prefix("ActivatePaneDirection.Down"@, "domain:"@, 0);
    crate::text::lemma_not_prefix("ActivatePaneDirection.Down"@, "workspace:switch:"@, 0);
    assert("ActivatePaneDirection.Down"@[0] != "SpawnTab.CurrentPaneDomain"@[0]);
    assert("ActivatePaneDirection.Down"@[0] != "PasteFrom.PrimarySelection"@[0]);
    assert("ActivatePaneDirection.Down"@[0] != "PaneSelect.MoveToNewWindow"@[0]);
    crate::text::lemma_not_prefix("ActivatePaneDirection.Down"@, "ActivateTabRelative."@, 8);
    crate::text::lemma_not_prefix("ActivatePaneDirection.Down"@, "ActivateTab."@, 8);
    crate::text::lemma_not_prefix("ActivatePaneDirection.Down"@, "MoveTabRelative."@, 0);
    assert("ActivatePaneDirection.Down"@ =~= "ActivatePaneDirection."@ + "Down"@);
    crate::text::lemma_is_prefix("ActivatePaneDirection."@, "Down"@);
    assert("Down"@[0] != "Left"@[0]);
    crate::text::lemma_not_prefix("AdjustPaneSize.Down"@, "domain:"@, 0);
    crate::text::lemma_not_prefix("AdjustPaneSize.Down"@, "workspace:switch:"@, 0);
    assert("AdjustPaneSize.Down"@[0] != "OpenUri.discussions"@[0]);
    assert("AdjustPaneSize.Down"@[0] != "TogglePaneZoomState"@[0]);
    assert("AdjustPaneSize.Down"@[0] != "PasteFrom.Clipboard"@[0]);
    assert("AdjustPaneSize.Down"@[0] != "ReloadConfiguration"@[0]);
    assert("AdjustPaneSize.Down"@[0] != "PaneSelect.Activate"@[0]);
    crate::text::lemma_not_prefix("AdjustPaneSize.Down"@, "ActivateTab."@, 1);
    crate::text::lemma_not_prefix("AdjustPaneSize.Down"@, "MoveTabRelative."@, 0);
    crate::text::lemma_not_prefix("AdjustPaneSize.Down"@, "RotatePanes."@, 0);
    crate::text::lemma_not_prefix("AdjustPaneSize.Down"@, "ActivateWindow."@, 1);
    assert("AdjustPaneSize.Down"@ =~= "AdjustPaneSize."@ + "Down"@);
    crate::text::lemma_is_prefix("AdjustPaneSize."@, "Down"@);
    assert("Down"@[0] != "Left"@[0]);
    crate::text::lemma_not_prefix("RotatePanes.Clockwise"@, "domain:"@, 0);
    crate::text::lemma_not_prefix("RotatePanes.Clockwise"@, "workspace:switch:"@, 0);
    assert("RotatePanes.Clockwise"@[0] != "workspace:relative:-1"@[0]);
    assert("RotatePanes.Clockwise"@[0] != "OpenLinkAtMouseCursor"@[0]);
    crate::text::lemma_not_prefix("RotatePanes.Clockwise"@, "ActivateTabRelative."@, 0);
    crate::text::lemma_not_prefix("RotatePanes.Clockwise"@, "ActivateTab."@, 0);
    crate::text::lemma_not_prefix("RotatePanes.Clockwise"@, "MoveTabRelative."@, 0);
    assert("RotatePanes.Clockwise"@ =~= "RotatePanes."@ + "Clockwise"@);
    crate::text::lemma_is_prefix("RotatePanes."@, "Clockwise"@);
    crate::text::lemma_not_prefix("RotatePanes.CounterClockwise"@, "domain:"@, 0);
    crate::text::lemma_not_prefix("RotatePanes.CounterClockwise"@, "workspace:switch:"@, 0);
    crate::text::lemma_not_prefix("RotatePanes.CounterClockwise"@, "ActivateTabRelative."@, 0);
    crate::text::lemma_not_prefix("RotatePanes.CounterClockwise"@, "ActivateTab."@, 0);
    crate::text::lemma_not_prefix("RotatePanes.CounterClockwise"@, "MoveTabRelative."@, 0);
    crate::text::lemma_not_prefix("RotatePanes.CounterClockwise"@, "ActivatePaneDirection."@, 0);
    assert("RotatePanes.CounterClockwise"@ =~= "RotatePanes."@ + "CounterClockwise"@);
    crate::text::lemma_is_prefix("RotatePanes."@, "CounterClockwise"@);
    crate::text::lemma_not_prefix("SetWindowLevel.Normal"@, "domain:"@, 0);
    crate::text::lemma_not_prefix("SetWindowLevel.Normal"@, "workspace:switch:"@, 0);
    assert("SetWindowLevel.Normal"@[0] != "workspace:relative:-1"@[0]);
    assert("SetWindowLevel.Normal"@[0] != "OpenLinkAtMouseCursor"@[0]);
    crate::text::lemma_not_prefix("SetWindowLevel.Normal"@, "ActivateTabRelative."@, 0);
    crate::text::lemma_not_prefix("SetWindowLevel.Normal"@, "ActivateTab."@, 0);
    crate::text::lemma_not_prefix("SetWindowLevel.Normal"@, "MoveTabRelative."@, 0);
    crate::text::lemma_not_prefix("SetWindowLevel.Normal"@, "RotatePanes."@, 0);
    crate::text::lemma_not_prefix("SetWindowLevel.Normal"@, "ActivateWindow."@, 0);
    crate::text::lemma_not_prefix("SetWindowLevel.Normal"@, "AdjustPaneSize."@, 0);
    crate::text::lemma_not_prefix("SetWindowLevel.AlwaysOnTop"@, "domain:"@, 0);
    crate::text::lemma_not_prefix("SetWindowLevel.AlwaysOnTop"@, "workspace:switch:"@, 0);
    assert("SetWindowLevel.AlwaysOnTop"@[1] != "SpawnTab.CurrentPaneDomain"@[1]);
    assert("SetWindowLevel.AlwaysOnTop"@[0] != "PasteFrom.PrimarySelection"@[0]);
    assert("SetWindowLevel.AlwaysOnTop"@[0] != "PaneSelect.MoveToNewWindow"@[0]);
    crate::text::lemma_not_prefix("SetWindowLevel.AlwaysOnTop"@, "ActivateTabRelative."@, 0);
    crate::text::lemma_not_prefix("SetWindowLevel.AlwaysOnTop"@, "ActivateTab."@, 0);
    crate::text::lemma_not_prefix("SetWindowLevel.AlwaysOnTop"@, "MoveTabRelative."@, 0);
    crate::text::lemma_not_prefix("SetWindowLevel.AlwaysOnTop"@, "ActivatePaneDirection."@, 0);
    crate::text::lemma_not_prefix("SetWindowLevel.AlwaysOnTop"@, "RotatePanes."@, 0);
    crate::text::lemma_not_prefix("SetWindowLevel.AlwaysOnTop"@, "ActivateWindowRelative."@, 0);
    crate::text::lemma_not_prefix("SetWindowLevel.AlwaysOnTop"@, "ActivateWindow."@, 0);
    crate::text::lemma_not_prefix("SetWindowLevel.AlwaysOnTop"@, "AdjustPaneSize."@, 0);
    crate::text::lemma_not_prefix("SetWindowLevel.AlwaysOnBottom"@, "domain:"@, 0);
    crate::text::lemma_not_prefix("SetWindowLevel.AlwaysOnBottom"@, "workspace:switch:"@, 0);
    crate::text::lemma_not_prefix("SetWindowLevel.AlwaysOnBottom"@, "ActivateTabRelative."@, 0);
    crate::text::lemma_not_prefix("SetWindowLevel.AlwaysOnBottom"@, "ActivateTab."@, 0);
    crate::text::lemma_not_prefix("SetWindowLevel.AlwaysOnBottom"@, "MoveTabRelative."@, 0);
    crate::text::lemma_not_prefix("SetWindowLevel.AlwaysOnBottom"@, "ActivatePaneDirection."@, 0);
    crate::text::lemma_not_prefix("SetWindowLevel.AlwaysOnBottom"@, "RotatePanes."@, 0);
    crate::text::lemma_not_prefix("SetWindowLevel.AlwaysOnBottom"@, "ActivateWindowRelative."@, 0);
    crate::text::lemma_not_prefix("SetWindowLevel.AlwaysOnBottom"@, "ActivateWindow."@, 0);
    crate::text::lemma_not_prefix("SetWindowLevel.AlwaysOnBottom"@, "AdjustPaneSize."@, 0);
    crate::text::lemma_not_prefix("workspace:create"@, "domain:"@, 0);
    crate::text::lemma_not_prefix("workspace:relative:1"@, "domain:"@, 0);
    crate::text::lemma_not_prefix("workspace:relative:1"@, "workspace:switch:"@, 10);
    crate::text::lemma_not_prefix("workspace:relative:-1"@, "domain:"@, 0);
    crate::text::lemma_not_prefix("workspace:relative:-1"@, "workspace:switch:"@, 10);
}

/// A domain row spawns in exactly the domain it names, and a workspace
/// row switches to exactly the workspace it names, whatever the name.
pub proof fn lemma_named_rows_carry_their_name(name: Seq<char>)
    ensures
        spec_palette_action("domain:"@ + name) == PaletteTargetView::SpawnDomain(name),
        spec_palette_action("workspace:switch:"@ + name) == PaletteTargetView::SwitchWorkspace(name),
{
    reveal_strlit("domain:");
    reveal_strlit("workspace:switch:");
    reveal_strlit("workspace:create");
    crate::text::lemma_is_prefix("domain:"@, name);
    crate::text::lemma_is_prefix("workspace:switch:"@, name);
    crate::text::lemma_not_prefix("workspace:switch:"@ + name, "domain:"@, 0);
}

/// The number written after "ActivateTabRelative." is the one the command gets.
pub proof fn lemma_activate_tab_relative_id_carries_its_number(n: isize)
    requires
        n >= 0,
    ensures
        spec_palette_action("ActivateTabRelative."@ + decimal(n as nat)) == PaletteTargetView::Run(ShellAction::ActivateTabRelative(n)),
{
    reveal_strlit("ActivateCommandPalette");
    reveal_strlit("ActivateCopyMode");
    reveal_strlit("ActivateLastTab");
    reveal_strlit("ActivateTabRelative.");
    reveal_strlit("CharSelect");
    reveal_strlit("ClearKeyTableStack");
    reveal_strlit("ClearScrollback.ScrollbackAndViewport");
    reveal_strlit("ClearScrollback.ScrollbackOnly");
    reveal_strlit("CloseCurrentPane.confirm");
    reveal_strlit("CloseCurrentTab.confirm");
    reveal_strlit("Confirmation");
    reveal_strlit("CopyTo.Clipboard");
    reveal_strlit("CopyTo.PrimarySelection");
    reveal_strlit("DecreaseFontSize");
    reveal_strlit("DetachDomain.CurrentPaneDomain");
    reveal_strlit("Hide");
    reveal_strlit("IncreaseFontSize");
    reveal_strlit("OpenLinkAtMouseCursor");
    reveal_strlit("OpenUri.discussions");
    reveal_strlit("OpenUri.docs");
    reveal_strlit("OpenUri.issues");
    reveal_strlit("PaneSelect.Activate");
    reveal_strlit("PaneSelect.MoveToNewTab");
    reveal_strlit("PaneSelect.MoveToNewWindow");
    reveal_strlit("PaneSelect.SwapWithActive");
    reveal_strlit("PaneSelect.SwapWithActiveKeepFocus");
    reveal_strlit("PasteFrom.Clipboard");
    reveal_strlit("PasteFrom.PrimarySelection");
    reveal_strlit("PromptInputLine");
    reveal_strlit("QuickSelect");
    reveal_strlit("QuitApplication");
    reveal_strlit("ReloadConfiguration");
    reveal_strlit("RenameTab");
    reveal_strlit("ResetFontAndWindowSize");
    reveal_strlit("ResetFontSize");
    reveal_strlit("ResetTerminal");
    reveal_strlit("ScrollByPage.Down");
    reveal_strlit("ScrollByPage.Up");
    reveal_strlit("ScrollToBottom");
    reveal_strlit("ScrollToTop");
    reveal_strlit("Search");
    reveal_strlit("ShowDebugOverlay");
    reveal_strlit("ShowLauncher");
    reveal_strlit("ShowTabNavigator");
    reveal_strlit("SpawnTab.CurrentPaneDomain");
    reveal_strlit("SpawnWindow");
    reveal_strlit("SplitHorizontal");
    reveal_strlit("SplitVertical");
    reveal_strlit("ToggleAlwaysOnBottom");
    reveal_strlit("ToggleAlwaysOnTop");
    reveal_strlit("ToggleFpsHud");
    reveal_strlit("ToggleFullScreen");
    reveal_strlit("TogglePaneZoomState");
    reveal_strlit("domain:");
    reveal_strlit("workspace:create");
    reveal_strlit("workspace:relative:-1");
    reveal_strlit("workspace:relative:1");
    reveal_strlit("workspace:switch:");
    crate::text::lemma_decimal_value(n as nat);
    crate::text::lemma_not_prefix(("ActivateTabRelative."@ + decimal(n as nat)), "domain:"@, 0);
    crate::text::lemma_not_prefix(("ActivateTabRelative."@ + decimal(n as nat)), "workspace:switch:"@, 0);
    assert(("ActivateTabRelative."@ + decimal(n as nat))[0] != "workspace:create"@[0]);
    assert(("ActivateTabRelative."@ + decimal(n as nat))[0] != "workspace:relative:1"@[0]);
    assert(("ActivateTabRelative."@ + decimal(n as nat))[0] != "workspace:relative:-1"@[0]);
    assert(("ActivateTabRelative."@ + decimal(n as nat))[0] != "SpawnTab.CurrentPaneDomain"@[0]);
    assert(("ActivateTabRelative."@ + decimal(n as nat))[0] != "SplitHorizontal"@[0]);
    assert(("ActivateTabRelative."@ + decimal(n as nat))[0] != "SplitVertical"@[0]);
    assert(("ActivateTabRelative."@ + decimal(n as nat))[0] != "CloseCurrentTab.confirm"@[0]);
    assert(("ActivateTabRelative."@ + decimal(n as nat))[0] != "CloseCurrentPane.confirm"@[0]);
    assert(("ActivateTabRelative."@ + decimal(n as nat))[0] != "QuitApplication"@[0]);
    assert(("ActivateTabRelative."@ + decimal(n as nat))[0] != "IncreaseFontSize"@[0]);
    assert(("ActivateTabRelative."@ + decimal(n as nat))[0] != "DecreaseFontSize"@[0]);
    assert(("ActivateTabRelative."@ + decimal(n as nat))[0] != "ResetFontSize"@[0]);
    assert(("ActivateTabRelative."@ + decimal(n as nat))[0] != "ResetFontAndWindowSize"@[0]);
    assert(("ActivateTabRelative."@ + decimal(n as nat))[0] != "ToggleFullScreen"@[0]);
    assert(("ActivateTabRelative."@ + decimal(n as nat))[0] != "ToggleAlwaysOnTop"@[0]);
    assert(("ActivateTabRelative."@ + decimal(n as nat))[0] != "ToggleAlwaysOnBottom"@[0]);
    assert(("ActivateTabRelative."@ + decimal(n as nat))[0] != "ClearScrollback.ScrollbackOnly"@[0]);
    assert(("ActivateTabRelative."@ + decimal(n as nat))[0] != "ClearScrollback.ScrollbackAndViewport"@[0]);
    assert(("ActivateTabRelative."@ + decimal(n as nat))[0] != "ResetTerminal"@[0]);
    assert(("ActivateTabRelative."@ + decimal(n as nat))[0] != "ScrollByPage.Up"@[0]);
    assert(("ActivateTabRelative."@ + decimal(n as nat))[0] != "ScrollByPage.Down"@[0]);
    assert(("ActivateTabRelative."@ + decimal(n as nat))[0] != "ScrollToTop"@[0]);
    assert(("ActivateTabRelative."@ + decimal(n as nat))[0] != "ScrollToBottom"@[0]);
    assert(("ActivateTabRelative."@ + decimal(n as nat))[0] != "OpenLinkAtMouseCursor"@[0]);
    assert(("ActivateTabRelative."@ + decimal(n as nat))[0] != "OpenUri.docs"@[0]);
    assert(("ActivateTabRelative."@ + decimal(n as nat))[0] != "OpenUri.discussions"@[0]);
    assert(("ActivateTabRelative."@ + decimal(n as nat))[0] != "OpenUri.issues"@[0]);
    assert(("ActivateTabRelative."@ + decimal(n as nat))[0] != "Hide"@[0]);
    assert(("ActivateTabRelative."@ + decimal(n as nat))[0] != "TogglePaneZoomState"@[0]);
    assert(("ActivateTabRelative."@ + decimal(n as nat))[8] != "ActivateLastTab"@[8]);
    assert(("ActivateTabRelative."@ + decimal(n as nat))[0] != "CopyTo.Clipboard"@[0]);
    assert(("ActivateTabRelative."@ + decimal(n as nat))[0] != "PasteFrom.Clipboard"@[0]);
    assert(("ActivateTabRelative."@ + decimal(n as nat))[8] != "ActivateCommandPalette"@[8]);
    assert(("ActivateTabRelative."@ + decimal(n as nat))[0] != "ReloadConfiguration"@[0]);
    assert(("ActivateTabRelative."@ + decimal(n as nat))[0] != "SpawnWindow"@[0]);
    assert(("ActivateTabRelative."@ + decimal(n as nat))[0] != "DetachDomain.CurrentPaneDomain"@[0]);
    assert(("ActivateTabRelative."@ + decimal(n as nat))[0] != "ShowLauncher"@[0]);
    assert(("ActivateTabRelative."@ + decimal(n as nat))[0] != "PasteFrom.PrimarySelection"@[0]);
    assert(("ActivateTabRelative."@ + decimal(n as nat))[0] != "CopyTo.PrimarySelection"@[0]);
    assert(("ActivateTabRelative."@ + decimal(n as nat))[0] != "QuickSelect"@[0]);
    assert(("ActivateTabRelative."@ + decimal(n as nat))[0] != "CharSelect"@[0]);
    assert(("ActivateTabRelative."@ + decimal(n as nat))[8] != "ActivateCopyMode"@[8]);
    assert(("ActivateTabRelative."@ + decimal(n as nat))[0] != "ClearKeyTableStack"@[0]);
    assert(("ActivateTabRelative."@ + decimal(n as nat))[0] != "Search"@[0]);
    assert(("ActivateTabRelative."@ + decimal(n as nat))[0] != "ShowTabNavigator"@[0]);
    assert(("ActivateTabRelative."@ + decimal(n as nat))[0] != "ShowDebugOverlay"@[0]);
    assert(("ActivateTabRelative."@ + decimal(n as nat))[0] != "PaneSelect.Activate"@[0]);
    assert(("ActivateTabRelative."@ + decimal(n as nat))[0] != "PaneSelect.SwapWithActive"@[0]);
    assert(("ActivateTabRelative."@ + decimal(n as nat))[0] != "PaneSelect.SwapWithActiveKeepFocus"@[0]);
    assert(("ActivateTabRelative."@ + decimal(n as nat))[0] != "PaneSelect.MoveToNewTab"@[0]);
    assert(("ActivateTabRelative."@ + decimal(n as nat))[0] != "PaneSelect.MoveToNewWindow"@[0]);
    assert(("ActivateTabRelative."@ + decimal(n as nat))[0] != "ToggleFpsHud"@[0]);
    assert(("ActivateTabRelative."@ + decimal(n as nat))[0] != "RenameTab"@[0]);
    assert(("ActivateTabRelative."@ + decimal(n as nat))[0] != "PromptInputLine"@[0]);
    assert(("ActivateTabRelative."@ + decimal(n as nat))[0] != "Confirmation"@[0]);
    crate::text::lemma_is_prefix("ActivateTabRelative."@, decimal(n as nat));
    crate::text::lemma_parse_isize_decimal(n);
}

/// The number written after "ActivateTab." is the one the command gets.
pub proof fn lemma_activate_tab_id_carries_its_number(n: isize)
    requires
        n >= 0,
    ensures
        spec_palette_action("ActivateTab."@ + decimal(n as nat)) == PaletteTargetView::Run(ShellAction::ActivateTab(n)),
{
    reveal_strlit("ActivateCommandPalette");
    reveal_strlit("ActivateCopyMode");
    reveal_strlit("ActivateLastTab");
    reveal_strlit("ActivateTab.");
    reveal_strlit("ActivateTabRelative.");
    reveal_strlit("CharSelect");
    reveal_strlit("ClearKeyTableStack");
    reveal_strlit("ClearScrollback.ScrollbackAndViewport");
    reveal_strlit("ClearScrollback.ScrollbackOnly");
    reveal_strlit("CloseCurrentPane.confirm");
    reveal_strlit("CloseCurrentTab.confirm");
    reveal_strlit("Confirmation");
    reveal_strlit("CopyTo.Clipboard");
    reveal_strlit("CopyTo.PrimarySelection");
    reveal_strlit("DecreaseFontSize");
    reveal_strlit("DetachDomain.CurrentPaneDomain");
    reveal_strlit("Hide");
    reveal_strlit("IncreaseFontSize");
    reveal_strlit("OpenLinkAtMouseCursor");
    reveal_strlit("OpenUri.discussions");
    reveal_strlit("OpenUri.docs");
    reveal_strlit("OpenUri.issues");
    reveal_strlit("PaneSelect.Activate");
    reveal_strlit("PaneSelect.MoveToNewTab");
    reveal_strlit("PaneSelect.MoveToNewWindow");
    reveal_strlit("PaneSelect.SwapWithActive");
    reveal_strlit("PaneSelect.SwapWithActiveKeepFocus");
    reveal_strlit("PasteFrom.Clipboard");
    reveal_strlit("PasteFrom.PrimarySelection");
    reveal_strlit("PromptInputLine");
    reveal_strlit("QuickSelect");
    reveal_strlit("QuitApplication");
    reveal_strlit("ReloadConfiguration");
    reveal_strlit("RenameTab");
    reveal_strlit("ResetFontAndWindowSize");
    reveal_strlit("ResetFontSize");
    reveal_strlit("ResetTerminal");
    reveal_strlit("ScrollByPage.Down");
    reveal_strlit("ScrollByPage.Up");
    reveal_strlit("ScrollToBottom");
    reveal_strlit("ScrollToTop");
    reveal_strlit("Search");
    reveal_strlit("ShowDebugOverlay");
    reveal_strlit("ShowLauncher");
    reveal_strlit("ShowTabNavigator");
    reveal_strlit("SpawnTab.CurrentPaneDomain");
    reveal_strlit("SpawnWindow");
    reveal_strlit("SplitHorizontal");
    reveal_strlit("SplitVertical");
    reveal_strlit("ToggleAlwaysOnBottom");
    reveal_strlit("ToggleAlwaysOnTop");
    reveal_strlit("ToggleFpsHud");
    reveal_strlit("ToggleFullScreen");
    reveal_strlit("TogglePaneZoomState");
    reveal_strlit("domain:");
    reveal_strlit("workspace:create");
    reveal_strlit("workspace:relative:-1");
    reveal_strlit("workspace:relative:1");
    reveal_strlit("workspace:switch:");
    crate::text::lemma_decimal_value(n as nat);
    crate::text::lemma_not_prefix(("ActivateTab."@ + decimal(n as nat)), "domain:"@, 0);
    crate::text::lemma_not_prefix(("ActivateTab."@ + decimal(n as nat)), "workspace:switch:"@, 0);
    assert(("ActivateTab."@ + decimal(n as nat))[0] != "workspace:create"@[0]);
    assert(("ActivateTab."@ + decimal(n as nat))[0] != "workspace:relative:1"@[0]);
    assert(("ActivateTab."@ + decimal(n as nat))[0] != "workspace:relative:-1"@[0]);
    assert(("ActivateTab."@ + decimal(n as nat))[0] != "SpawnTab.CurrentPaneDomain"@[0]);
    assert(("ActivateTab."@ + decimal(n as nat))[0] != "SplitHorizontal"@[0]);
    assert(("ActivateTab."@ + decimal(n as nat))[0] != "SplitVertical"@[0]);
    assert(("ActivateTab."@ + decimal(n as nat))[0] != "CloseCurrentTab.confirm"@[0]);
    assert(("ActivateTab."@ + decimal(n as nat))[0] != "CloseCurrentPane.confirm"@[0]);
    assert(("ActivateTab."@ + decimal(n as nat))[0] != "QuitApplication"@[0]);
    assert(("ActivateTab."@ + decimal(n as nat))[0] != "IncreaseFontSize"@[0]);
    assert(("ActivateTab."@ + decimal(n as nat))[0] != "DecreaseFontSize"@[0]);
    assert(("ActivateTab."@ + decimal(n as nat))[0] != "ResetFontSize"@[0]);
    assert(("ActivateTab."@ + decimal(n as nat))[0] != "ResetFontAndWindowSize"@[0]);
    assert(("ActivateTab."@ + decimal(n as nat))[0] != "ToggleFullScreen"@[0]);
    assert(("ActivateTab."@ + decimal(n as nat))[0] != "ToggleAlwaysOnTop"@[0]);
    assert(("ActivateTab."@ + decimal(n as nat))[0] != "ToggleAlwaysOnBottom"@[0]);
    assert(("ActivateTab."@ + decimal(n as nat))[0] != "ClearScrollback.ScrollbackOnly"@[0]);
    assert(("ActivateTab."@ + decimal(n as nat))[0] != "ClearScrollback.ScrollbackAndViewport"@[0]);
    assert(("ActivateTab."@ + decimal(n as nat))[0] != "ResetTerminal"@[0]);
    assert(("ActivateTab."@ + decimal(n as nat))[0] != "ScrollByPage.Up"@[0]);
    assert(("ActivateTab."@ + decimal(n as nat))[0] != "ScrollByPage.Down"@[0]);
    assert(("ActivateTab."@ + decimal(n as nat))[0] != "ScrollToTop"@[0]);
    assert(("ActivateTab."@ + decimal(n as nat))[0] != "ScrollToBottom"@[0]);
    assert(("ActivateTab."@ + decimal(n as nat))[0] != "OpenLinkAtMouseCursor"@[0]);
    assert(("ActivateTab."@ + decimal(n as nat))[0] != "OpenUri.docs"@[0]);
    assert(("ActivateTab."@ + decimal(n as nat))[0] != "OpenUri.discussions"@[0]);
    assert(("ActivateTab."@ + decimal(n as nat))[0] != "OpenUri.issues"@[0]);
    assert(("ActivateTab."@ + decimal(n as nat))[0] != "Hide"@[0]);
    assert(("ActivateTab."@ + decimal(n as nat))[0] != "TogglePaneZoomState"@[0]);
    assert(("ActivateTab."@ + decimal(n as nat))[8] != "ActivateLastTab"@[8]);
    assert(("ActivateTab."@ + decimal(n as nat))[0] != "CopyTo.Clipboard"@[0]);
    assert(("ActivateTab."@ + decimal(n as nat))[0] != "PasteFrom.Clipboard"@[0]);
    assert(("ActivateTab."@ + decimal(n as nat))[8] != "ActivateCommandPalette"@[8]);
    assert(("ActivateTab."@ + decimal(n as nat))[0] != "ReloadConfiguration"@[0]);
    assert(("ActivateTab."@ + decimal(n as nat))[0] != "SpawnWindow"@[0]);
    assert(("ActivateTab."@ + decimal(n as nat))[0] != "DetachDomain.CurrentPaneDomain"@[0]);
    assert(("ActivateTab."@ + decimal(n as nat))[0] != "ShowLauncher"@[0]);
    assert(("ActivateTab."@ + decimal(n as nat))[0] != "PasteFrom.PrimarySelection"@[0]);
    assert(("ActivateTab."@ + decimal(n as nat))[0] != "CopyTo.PrimarySelection"@[0]);
    assert(("ActivateTab."@ + decimal(n as nat))[0] != "QuickSelect"@[0]);
    assert(("ActivateTab."@ + decimal(n as nat))[0] != "CharSelect"@[0]);
    assert(("ActivateTab."@ + decimal(n as nat))[8] != "ActivateCopyMode"@[8]);
    assert(("ActivateTab."@ + decimal(n as nat))[0] != "ClearKeyTableStack"@[0]);
    assert(("ActivateTab."@ + decimal(n as nat))[0] != "Search"@[0]);
    assert(("ActivateTab."@ + decimal(n as nat))[0] != "ShowTabNavigator"@[0]);
    assert(("ActivateTab."@ + decimal(n as nat))[0] != "ShowDebugOverlay"@[0]);
    assert(("ActivateTab."@ + decimal(n as nat))[0] != "PaneSelect.Activate"@[0]);
    assert(("ActivateTab."@ + decimal(n as nat))[0] != "PaneSelect.SwapWithActive"@[0]);
    assert(("ActivateTab."@ + decimal(n as nat))[0] != "PaneSelect.SwapWithActiveKeepFocus"@[0]);
    assert(("ActivateTab."@ + decimal(n as nat))[0] != "PaneSelect.MoveToNewTab"@[0]);
    assert(("ActivateTab."@ + decimal(n as nat))[0] != "PaneSelect.MoveToNewWindow"@[0]);
    assert(("ActivateTab."@ + decimal(n as nat))[0] != "ToggleFpsHud"@[0]);
    assert(("ActivateTab."@ + decimal(n as nat))[0] != "RenameTab"@[0]);
    assert(("ActivateTab."@ + decimal(n as nat))[0] != "PromptInputLine"@[0]);
    assert(("ActivateTab."@ + decimal(n as nat))[0] != "Confirmation"@[0]);
    crate::text::lemma_not_prefix(("ActivateTab."@ + decimal(n as nat)), "ActivateTabRelative."@, 11);
    crate::text::lemma_is_prefix("ActivateTab."@, decimal(n as nat));
    crate::text::lemma_parse_isize_decimal(n);
}

/// The number written after "MoveTabRelative." is the one the command gets.
pub proof fn lemma_move_tab_relative_id_carries_its_number(n: isize)
    requires
        n >= 0,
    ensures
        spec_palette_action("MoveTabRelative."@ + decimal(n as nat)) == PaletteTargetView::Run(ShellAction::MoveTabRelative(n)),
{
    reveal_strlit("ActivateCommandPalette");
    reveal_strlit("ActivateCopyMode");
    reveal_strlit("ActivateLastTab");
    reveal_strlit("ActivateTab.");
    reveal_strlit("ActivateTabRelative.");
    reveal_strlit("CharSelect");
    reveal_strlit("ClearKeyTableStack");
    reveal_strlit("ClearScrollback.ScrollbackAndViewport");
    reveal_strlit("ClearScrollback.ScrollbackOnly");
    reveal_strlit("CloseCurrentPane.confirm");
    reveal_strlit("CloseCurrentTab.confirm");
    reveal_strlit("Confirmation");
    reveal_strlit("CopyTo.Clipboard");
    reveal_strlit("CopyTo.PrimarySelection");
    reveal_strlit("DecreaseFontSize");
    reveal_strlit("DetachDomain.CurrentPaneDomain");
    reveal_strlit("Hide");
    reveal_strlit("IncreaseFontSize");
    reveal_strlit("MoveTabRelative.");
    reveal_strlit("OpenLinkAtMouseCursor");
    reveal_strlit("OpenUri.discussions");
    reveal_strlit("OpenUri.docs");
    reveal_strlit("OpenUri.issues");
    reveal_strlit("PaneSelect.Activate");
    reveal_strlit("PaneSelect.MoveToNewTab");
    reveal_strlit("PaneSelect.MoveToNewWindow");
    reveal_strlit("PaneSelect.SwapWithActive");
    reveal_strlit("PaneSelect.SwapWithActiveKeepFocus");
    reveal_strlit("PasteFrom.Clipboard");
    reveal_strlit("PasteFrom.PrimarySelection");
    reveal_strlit("PromptInputLine");
    reveal_strlit("QuickSelect");
    reveal_strlit("QuitApplication");
    reveal_strlit("ReloadConfiguration");
    reveal_strlit("RenameTab");
    reveal_strlit("ResetFontAndWindowSize");
    reveal_strlit("ResetFontSize");
    reveal_strlit("ResetTerminal");
    reveal_strlit("ScrollByPage.Down");
    reveal_strlit("ScrollByPage.Up");
    reveal_strlit("ScrollToBottom");
    reveal_strlit("ScrollToTop");
    reveal_strlit("Search");
    reveal_strlit("ShowDebugOverlay");
    reveal_strlit("ShowLauncher");
    reveal_strlit("ShowTabNavigator");
    reveal_strlit("SpawnTab.CurrentPaneDomain");
    reveal_strlit("SpawnWindow");
    reveal_strlit("SplitHorizontal");
    reveal_strlit("SplitVertical");
    reveal_strlit("ToggleAlwaysOnBottom");
    reveal_strlit("ToggleAlwaysOnTop");
    reveal_strlit("ToggleFpsHud");
    reveal_strlit("ToggleFullScreen");
    reveal_strlit("TogglePaneZoomState");
    reveal_strlit("domain:");
    reveal_strlit("workspace:create");
    reveal_strlit("workspace:relative:-1");
    reveal_strlit("workspace:relative:1");
    reveal_strlit("workspace:switch:");
    crate::text::lemma_decimal_value(n as nat);
    crate::text::lemma_not_prefix(("MoveTabRelative."@ + decimal(n as nat)), "domain:"@, 0);
    crate::text::lemma_not_prefix(("MoveTabRelative."@ + decimal(n as nat)), "workspace:switch:"@, 0);
    assert(("MoveTabRelative."@ + decimal(n as nat))[0] != "workspace:create"@[0]);
    assert(("MoveTabRelative."@ + decimal(n as nat))[0] != "workspace:relative:1"@[0]);
    assert(("MoveTabRelative."@ + decimal(n as nat))[0] != "workspace:relative:-1"@[0]);
    assert(("MoveTabRelative."@ + decimal(n as nat))[0] != "SpawnTab.CurrentPaneDomain"@[0]);
    assert(("MoveTabRelative."@ + decimal(n as nat))[0] != "SplitHorizontal"@[0]);
    assert(("MoveTabRelative."@ + decimal(n as nat))[0] != "SplitVertical"@[0]);
    assert(("MoveTabRelative."@ + decimal(n as nat))[0] != "CloseCurrentTab.confirm"@[0]);
    assert(("MoveTabRelative."@ + decimal(n as nat))[0] != "CloseCurrentPane.confirm"@[0]);
    assert(("MoveTabRelative."@ + decimal(n as nat))[0] != "QuitApplication"@[0]);
    assert(("MoveTabRelative."@ + decimal(n as nat))[0] != "IncreaseFontSize"@[0]);
    assert(("MoveTabRelative."@ + decimal(n as nat))[0] != "DecreaseFontSize"@[0]);
    assert(("MoveTabRelative."@ + decimal(n as nat))[0] != "ResetFontSize"@[0]);
    assert(("MoveTabRelative."@ + decimal(n as nat))[0] != "ResetFontAndWindowSize"@[0]);
    assert(("MoveTabRelative."@ + decimal(n as nat))[0] != "ToggleFullScreen"@[0]);
    assert(("MoveTabRelative."@ + decimal(n as nat))[0] != "ToggleAlwaysOnTop"@[0]);
    assert(("MoveTabRelative."@ + decimal(n as nat))[0] != "ToggleAlwaysOnBottom"@[0]);
    assert(("MoveTabRelative."@ + decimal(n as nat))[0] != "ClearScrollback.ScrollbackOnly"@[0]);
    assert(("MoveTabRelative."@ + decimal(n as nat))[0] != "ClearScrollback.ScrollbackAndViewport"@[0]);
    assert(("MoveTabRelative."@ + decimal(n as nat))[0] != "ResetTerminal"@[0]);
    assert(("MoveTabRelative."@ + decimal(n as nat))[0] != "ScrollByPage.Up"@[0]);
    assert(("MoveTabRelative."@ + decimal(n as nat))[0] != "ScrollByPage.Down"@[0]);
    assert(("MoveTabRelative."@ + decimal(n as nat))[0] != "ScrollToTop"@[0]);
    assert(("MoveTabRelative."@ + decimal(n as nat))[0] != "ScrollToBottom"@[0]);
    assert(("MoveTabRelative."@ + decimal(n as nat))[0] != "OpenLinkAtMouseCursor"@[0]);
    assert(("MoveTabRelative."@ + decimal(n as nat))[0] != "OpenUri.docs"@[0]);
    assert(("MoveTabRelative."@ + decimal(n as nat))[0] != "OpenUri.discussions"@[0]);
    assert(("MoveTabRelative."@ + decimal(n as nat))[0] != "OpenUri.issues"@[0]);
    assert(("MoveTabRelative."@ + decimal(n as nat))[0] != "Hide"@[0]);
    assert(("MoveTabRelative."@ + decimal(n as nat))[0] != "TogglePaneZoomState"@[0]);
    assert(("MoveTabRelative."@ + decimal(n as nat))[0] != "ActivateLastTab"@[0]);
    assert(("MoveTabRelative."@ + decimal(n as nat))[0] != "CopyTo.Clipboard"@[0]);
    assert(("MoveTabRelative."@ + decimal(n as nat))[0] != "PasteFrom.Clipboard"@[0]);
    assert(("MoveTabRelative."@ + decimal(n as nat))[0] != "ActivateCommandPalette"@[0]);
    assert(("MoveTabRelative."@ + decimal(n as nat))[0] != "ReloadConfiguration"@[0]);
    assert(("MoveTabRelative."@ + decimal(n as nat))[0] != "SpawnWindow"@[0]);
    assert(("MoveTabRelative."@ + decimal(n as nat))[0] != "DetachDomain.CurrentPaneDomain"@[0]);
    assert(("MoveTabRelative."@ + decimal(n as nat))[0] != "ShowLauncher"@[0]);
    assert(("MoveTabRelative."@ + decimal(n as nat))[0] != "PasteFrom.PrimarySelection"@[0]);
    assert(("MoveTabRelative."@ + decimal(n as nat))[0] != "CopyTo.PrimarySelection"@[0]);
    assert(("MoveTabRelative."@ + decimal(n as nat))[0] != "QuickSelect"@[0]);
    assert(("MoveTabRelative."@ + decimal(n as nat))[0] != "CharSelect"@[0]);
    assert(("MoveTabRelative."@ + decimal(n as nat))[0] != "ActivateCopyMode"@[0]);
    assert(("MoveTabRelative."@ + decimal(n as nat))[0] != "ClearKeyTableStack"@[0]);
    assert(("MoveTabRelative."@ + decimal(n as nat))[0] != "Search"@[0]);
    assert(("MoveTabRelative."@ + decimal(n as nat))[0] != "ShowTabNavigator"@[0]);
    assert(("MoveTabRelative."@ + decimal(n as nat))[0] != "ShowDebugOverlay"@[0]);
    assert(("MoveTabRelative."@ + decimal(n as nat))[0] != "PaneSelect.Activate"@[0]);
    assert(("MoveTabRelative."@ + decimal(n as nat))[0] != "PaneSelect.SwapWithActive"@[0]);
    assert(("MoveTabRelative."@ + decimal(n as nat))[0] != "PaneSelect.SwapWithActiveKeepFocus"@[0]);
    assert(("MoveTabRelative."@ + decimal(n as nat))[0] != "PaneSelect.MoveToNewTab"@[0]);
    assert(("MoveTabRelative."@ + decimal(n as nat))[0] != "PaneSelect.MoveToNewWindow"@[0]);
    assert(("MoveTabRelative."@ + decimal(n as nat))[0] != "ToggleFpsHud"@[0]);
    assert(("MoveTabRelative."@ + decimal(n as nat))[0] != "RenameTab"@[0]);
    assert(("MoveTabRelative."@ + decimal(n as nat))[0] != "PromptInputLine"@[0]);
    assert(("MoveTabRelative."@ + decimal(n as nat))[0] != "Confirmation"@[0]);
    crate::text::lemma_not_prefix(("MoveTabRelative."@ + decimal(n as nat)), "ActivateTabRelative."@, 0);
    crate::text::lemma_not_prefix(("MoveTabRelative."@ + decimal(n as nat)), "ActivateTab."@, 0);
    crate::text::lemma_is_prefix("MoveTabRelative."@, decimal(n as nat));
    crate::text::lemma_parse_isize_decimal(n);
}

/// The number written after "ActivateWindowRelative." is the one the command gets.
pub proof fn lemma_activate_window_relative_id_carries_its_number(n: isize)
    requires
        n >= 0,
    ensures
        spec_palette_action("ActivateWindowRelative."@ + decimal(n as nat)) == PaletteTargetView::Run(ShellAction::ActivateWindowRelative(n)),
{
    reveal_strlit("ActivateCommandPalette");
    reveal_strlit("ActivateCopyMode");
    reveal_strlit("ActivateLastTab");
    reveal_strlit("ActivatePaneDirection.");
    reveal_strlit("ActivateTab.");
    reveal_strlit("ActivateTabRelative.");
    reveal_strlit("ActivateWindowRelative.");
    reveal_strlit("CharSelect");
    reveal_strlit("ClearKeyTableStack");
    reveal_strlit("ClearScrollback.ScrollbackAndViewport");
    reveal_strlit("ClearScrollback.ScrollbackOnly");
    reveal_strlit("CloseCurrentPane.confirm");
    reveal_strlit("CloseCurrentTab.confirm");
    reveal_strlit("Confirmation");
    reveal_strlit("CopyTo.Clipboard");
    reveal_strlit("CopyTo.PrimarySelection");
    reveal_strlit("DecreaseFontSize");
    reveal_strlit("DetachDomain.CurrentPaneDomain");
    reveal_strlit("Hide");
    reveal_strlit("IncreaseFontSize");
    reveal_strlit("MoveTabRelative.");
    reveal_strlit("OpenLinkAtMouseCursor");
    reveal_strlit("OpenUri.discussions");
    reveal_strlit("OpenUri.docs");
    reveal_strlit("OpenUri.issues");
    reveal_strlit("PaneSelect.Activate");
    reveal_strlit("PaneSelect.MoveToNewTab");
    reveal_strlit("PaneSelect.MoveToNewWindow");
    reveal_strlit("PaneSelect.SwapWithActive");
    reveal_strlit("PaneSelect.SwapWithActiveKeepFocus");
    reveal_strlit("PasteFrom.Clipboard");
    reveal_strlit("PasteFrom.PrimarySelection");
    reveal_strlit("PromptInputLine");
    reveal_strlit("QuickSelect");
    reveal_strlit("QuitApplication");
    reveal_strlit("ReloadConfiguration");
    reveal_strlit("RenameTab");
    reveal_strlit("ResetFontAndWindowSize");
    reveal_strlit("ResetFontSize");
    reveal_strlit("ResetTerminal");
    reveal_strlit("RotatePanes.");
    reveal_strlit("ScrollByPage.Down");
    reveal_strlit("ScrollByPage.Up");
    reveal_strlit("ScrollToBottom");
    reveal_strlit("ScrollToTop");
    reveal_strlit("Search");
    reveal_strlit("ShowDebugOverlay");
    reveal_strlit("ShowLauncher");
    reveal_strlit("ShowTabNavigator");
    reveal_strlit("SpawnTab.CurrentPaneDomain");
    reveal_strlit("SpawnWindow");
    reveal_strlit("SplitHorizontal");
    reveal_strlit("SplitVertical");
    reveal_strlit("ToggleAlwaysOnBottom");
    reveal_strlit("ToggleAlwaysOnTop");
    reveal_strlit("ToggleFpsHud");
    reveal_strlit("ToggleFullScreen");
    reveal_strlit("TogglePaneZoomState");
    reveal_strlit("domain:");
    reveal_strlit("workspace:create");
    reveal_strlit("workspace:relative:-1");
    reveal_strlit("workspace:relative:1");
    reveal_strlit("workspace:switch:");
    crate::text::lemma_decimal_value(n as nat);
    crate::text::lemma_not_prefix(("ActivateWindowRelative."@ + decimal(n as nat)), "domain:"@, 0);
    crate::text::lemma_not_prefix(("ActivateWindowRelative."@ + decimal(n as nat)), "workspace:switch:"@, 0);
    assert(("ActivateWindowRelative."@ + decimal(n as nat))[0] != "workspace:create"@[0]);
    assert(("ActivateWindowRelative."@ + decimal(n as nat))[0] != "workspace:relative:1"@[0]);
    assert(("ActivateWindowRelative."@ + decimal(n as nat))[0] != "workspace:relative:-1"@[0]);
    assert(("ActivateWindowRelative."@ + decimal(n as nat))[0] != "SpawnTab.CurrentPaneDomain"@[0]);
    assert(("ActivateWindowRelative."@ + decimal(n as nat))[0] != "SplitHorizontal"@[0]);
    assert(("ActivateWindowRelative."@ + decimal(n as nat))[0] != "SplitVertical"@[0]);
    assert(("ActivateWindowRelative."@ + decimal(n as nat))[0] != "CloseCurrentTab.confirm"@[0]);
    assert(("ActivateWindowRelative."@ + decimal(n as nat))[0] != "CloseCurrentPane.confirm"@[0]);
    assert(("ActivateWindowRelative."@ + decimal(n as nat))[0] != "QuitApplication"@[0]);
    assert(("ActivateWindowRelative."@ + decimal(n as nat))[0] != "IncreaseFontSize"@[0]);
    assert(("ActivateWindowRelative."@ + decimal(n as nat))[0] != "DecreaseFontSize"@[0]);
    assert(("ActivateWindowRelative."@ + decimal(n as nat))[0] != "ResetFontSize"@[0]);
    assert(("ActivateWindowRelative."@ + decimal(n as nat))[0] != "ResetFontAndWindowSize"@[0]);
    assert(("ActivateWindowRelative."@ + decimal(n as nat))[0] != "ToggleFullScreen"@[0]);
    assert(("ActivateWindowRelative."@ + decimal(n as nat))[0] != "ToggleAlwaysOnTop"@[0]);
    assert(("ActivateWindowRelative."@ + decimal(n as nat))[0] != "ToggleAlwaysOnBottom"@[0]);
    assert(("ActivateWindowRelative."@ + decimal(n as nat))[0] != "ClearScrollback.ScrollbackOnly"@[0]);
    assert(("ActivateWindowRelative."@ + decimal(n as nat))[0] != "ClearScrollback.ScrollbackAndViewport"@[0]);
    assert(("ActivateWindowRelative."@ + decimal(n as nat))[0] != "ResetTerminal"@[0]);
    assert(("ActivateWindowRelative."@ + decimal(n as nat))[0] != "ScrollByPage.Up"@[0]);
    assert(("ActivateWindowRelative."@ + decimal(n as nat))[0] != "ScrollByPage.Down"@[0]);
    assert(("ActivateWindowRelative."@ + decimal(n as nat))[0] != "ScrollToTop"@[0]);
    assert(("ActivateWindowRelative."@ + decimal(n as nat))[0] != "ScrollToBottom"@[0]);
    assert(("ActivateWindowRelative."@ + decimal(n as nat))[0] != "OpenLinkAtMouseCursor"@[0]);
    assert(("ActivateWindowRelative."@ + decimal(n as nat))[0] != "OpenUri.docs"@[0]);
    assert(("ActivateWindowRelative."@ + decimal(n as nat))[0] != "OpenUri.discussions"@[0]);
    assert(("ActivateWindowRelative."@ + decimal(n as nat))[0] != "OpenUri.issues"@[0]);
    assert(("ActivateWindowRelative."@ + decimal(n as nat))[0] != "Hide"@[0]);
    assert(("ActivateWindowRelative."@ + decimal(n as nat))[0] != "TogglePaneZoomState"@[0]);
    assert(("ActivateWindowRelative."@ + decimal(n as nat))[8] != "ActivateLastTab"@[8]);
    assert(("ActivateWindowRelative."@ + decimal(n as nat))[0] != "CopyTo.Clipboard"@[0]);
    assert(("ActivateWindowRelative."@ + decimal(n as nat))[0] != "PasteFrom.Clipboard"@[0]);
    assert(("ActivateWindowRelative."@ + decimal(n as nat))[8] != "ActivateCommandPalette"@[8]);
    assert(("ActivateWindowRelative."@ + decimal(n as nat))[0] != "ReloadConfiguration"@[0]);
    assert(("ActivateWindowRelative."@ + decimal(n as nat))[0] != "SpawnWindow"@[0]);
    assert(("ActivateWindowRelative."@ + decimal(n as nat))[0] != "DetachDomain.CurrentPaneDomain"@[0]);
    assert(("ActivateWindowRelative."@ + decimal(n as nat))[0] != "ShowLauncher"@[0]);
    assert(("ActivateWindowRelative."@ + decimal(n as nat))[0] != "PasteFrom.PrimarySelection"@[0]);
    assert(("ActivateWindowRelative."@ + decimal(n as nat))[0] != "CopyTo.PrimarySelection"@[0]);
    assert(("ActivateWindowRelative."@ + decimal(n as nat))[0] != "QuickSelect"@[0]);
    assert(("ActivateWindowRelative."@ + decimal(n as nat))[0] != "CharSelect"@[0]);
    assert(("ActivateWindowRelative."@ + decimal(n as nat))[8] != "ActivateCopyMode"@[8]);
    assert(("ActivateWindowRelative."@ + decimal(n as nat))[0] != "ClearKeyTableStack"@[0]);
    assert(("ActivateWindowRelative."@ + decimal(n as nat))[0] != "Search"@[0]);
    assert(("ActivateWindowRelative."@ + decimal(n as nat))[0] != "ShowTabNavigator"@[0]);
    assert(("ActivateWindowRelative."@ + decimal(n as nat))[0] != "ShowDebugOverlay"@[0]);
    assert(("ActivateWindowRelative."@ + decimal(n as nat))[0] != "PaneSelect.Activate"@[0]);
    assert(("ActivateWindowRelative."@ + decimal(n as nat))[0] != "PaneSelect.SwapWithActive"@[0]);
    assert(("ActivateWindowRelative."@ + decimal(n as nat))[0] != "PaneSelect.SwapWithActiveKeepFocus"@[0]);
    assert(("ActivateWindowRelative."@ + decimal(n as nat))[0] != "PaneSelect.MoveToNewTab"@[0]);
    assert(("ActivateWindowRelative."@ + decimal(n as nat))[0] != "PaneSelect.MoveToNewWindow"@[0]);
    assert(("ActivateWindowRelative."@ + decimal(n as nat))[0] != "ToggleFpsHud"@[0]);
    assert(("ActivateWindowRelative."@ + decimal(n as nat))[0] != "RenameTab"@[0]);
    assert(("ActivateWindowRelative."@ + decimal(n as nat))[0] != "PromptInputLine"@[0]);
    assert(("ActivateWindowRelative."@ + decimal(n as nat))[0] != "Confirmation"@[0]);
    crate::text::lemma_not_prefix(("ActivateWindowRelative."@ + decimal(n as nat)), "ActivateTabRelative."@, 8);
    crate::text::lemma_not_prefix(("ActivateWindowRelative."@ + decimal(n as nat)), "ActivateTab."@, 8);
    crate::text::lemma_not_prefix(("ActivateWindowRelative."@ + decimal(n as nat)), "MoveTabRelative."@, 0);
    crate::text::lemma_not_prefix(("ActivateWindowRelative."@ + decimal(n as nat)), "ActivatePaneDirection."@, 8);
    crate::text::lemma_not_prefix(("ActivateWindowRelative."@ + decimal(n as nat)), "RotatePanes."@, 0);
    crate::text::lemma_is_prefix("ActivateWindowRelative."@, decimal(n as nat));
    crate::text::lemma_parse_isize_decimal(n);
}

/// The number written after "ActivateWindow." is the one the command gets.
pub proof fn lemma_activate_window_id_carries_its_number(n: usize)
    ensures
        spec_palette_action("ActivateWindow."@ + decimal(n as nat)) == PaletteTargetView::Run(ShellAction::ActivateWindow(n)),
{
    reveal_strlit("ActivateCommandPalette");
    reveal_strlit("ActivateCopyMode");
    reveal_strlit("ActivateLastTab");
    reveal_strlit("ActivatePaneDirection.");
    reveal_strlit("ActivateTab.");
    reveal_strlit("ActivateTabRelative.");
    reveal_strlit("ActivateWindow.");
    reveal_strlit("ActivateWindowRelative.");
    reveal_strlit("CharSelect");
    reveal_strlit("ClearKeyTableStack");
    reveal_strlit("ClearScrollback.ScrollbackAndViewport");
    reveal_strlit("ClearScrollback.ScrollbackOnly");
    reveal_strlit("CloseCurrentPane.confirm");
    reveal_strlit("CloseCurrentTab.confirm");
    reveal_strlit("Confirmation");
    reveal_strlit("CopyTo.Clipboard");
    reveal_strlit("CopyTo.PrimarySelection");
    reveal_strlit("DecreaseFontSize");
    reveal_strlit("DetachDomain.CurrentPaneDomain");
    reveal_strlit("Hide");
    reveal_strlit("IncreaseFontSize");
    reveal_strlit("MoveTabRelative.");
    reveal_strlit("OpenLinkAtMouseCursor");
    reveal_strlit("OpenUri.discussions");
    reveal_strlit("OpenUri.docs");
    reveal_strlit("OpenUri.issues");
    reveal_strlit("PaneSelect.Activate");
    reveal_strlit("PaneSelect.MoveToNewTab");
    reveal_strlit("PaneSelect.MoveToNewWindow");
    reveal_strlit("PaneSelect.SwapWithActive");
    reveal_strlit("PaneSelect.SwapWithActiveKeepFocus");
    reveal_strlit("PasteFrom.Clipboard");
    reveal_strlit("PasteFrom.PrimarySelection");
    reveal_strlit("PromptInputLine");
    reveal_strlit("QuickSelect");
    reveal_strlit("QuitApplication");
    reveal_strlit("ReloadConfiguration");
    reveal_strlit("RenameTab");
    reveal_strlit("ResetFontAndWindowSize");
    reveal_strlit("ResetFontSize");
    reveal_strlit("ResetTerminal");
    reveal_strlit("RotatePanes.");
    reveal_strlit("ScrollByPage.Down");
    reveal_strlit("ScrollByPage.Up");
    reveal_strlit("ScrollToBottom");
    reveal_strlit("ScrollToTop");
    reveal_strlit("Search");
    reveal_strlit("ShowDebugOverlay");
    reveal_strlit("ShowLauncher");
    reveal_strlit("ShowTabNavigator");
    reveal_strlit("SpawnTab.CurrentPaneDomain");
    reveal_strlit("SpawnWindow");
    reveal_strlit("SplitHorizontal");
    reveal_strlit("SplitVertical");
    reveal_strlit("ToggleAlwaysOnBottom");
    reveal_strlit("ToggleAlwaysOnTop");
    reveal_strlit("ToggleFpsHud");
    reveal_strlit("ToggleFullScreen");
    reveal_strlit("TogglePaneZoomState");
    reveal_strlit("domain:");
    reveal_strlit("workspace:create");
    reveal_strlit("workspace:relative:-1");
    reveal_strlit("workspace:relative:1");
    reveal_strlit("workspace:switch:");
    crate::text::lemma_decimal_value(n as nat);
    crate::text::lemma_not_prefix(("ActivateWindow."@ + decimal(n as nat)), "domain:"@, 0);
    crate::text::lemma_not_prefix(("ActivateWindow."@ + decimal(n as nat)), "workspace:switch:"@, 0);
    assert(("ActivateWindow."@ + decimal(n as nat))[0] != "workspace:create"@[0]);
    assert(("ActivateWindow."@ + decimal(n as nat))[0] != "workspace:relative:1"@[0]);
    assert(("ActivateWindow."@ + decimal(n as nat))[0] != "workspace:relative:-1"@[0]);
    assert(("ActivateWindow."@ + decimal(n as nat))[0] != "SpawnTab.CurrentPaneDomain"@[0]);
    assert(("ActivateWindow."@ + decimal(n as nat))[0] != "SplitHorizontal"@[0]);
    assert(("ActivateWindow."@ + decimal(n as nat))[0] != "SplitVertical"@[0]);
    assert(("ActivateWindow."@ + decimal(n as nat))[0] != "CloseCurrentTab.confirm"@[0]);
    assert(("ActivateWindow."@ + decimal(n as nat))[0] != "CloseCurrentPane.confirm"@[0]);
    assert(("ActivateWindow."@ + decimal(n as nat))[0] != "QuitApplication"@[0]);
    assert(("ActivateWindow."@ + decimal(n as nat))[0] != "IncreaseFontSize"@[0]);
    assert(("ActivateWindow."@ + decimal(n as nat))[0] != "DecreaseFontSize"@[0]);
    assert(("ActivateWindow."@ + decimal(n as nat))[0] != "ResetFontSize"@[0]);
    assert(("ActivateWindow."@ + decimal(n as nat))[0] != "ResetFontAndWindowSize"@[0]);
    assert(("ActivateWindow."@ + decimal(n as nat))[0] != "ToggleFullScreen"@[0]);
    assert(("ActivateWindow."@ + decimal(n as nat))[0] != "ToggleAlwaysOnTop"@[0]);
    assert(("ActivateWindow."@ + decimal(n as nat))[0] != "ToggleAlwaysOnBottom"@[0]);
    assert(("ActivateWindow."@ + decimal(n as nat))[0] != "ClearScrollback.ScrollbackOnly"@[0]);
    assert(("ActivateWindow."@ + decimal(n as nat))[0] != "ClearScrollback.ScrollbackAndViewport"@[0]);
    assert(("ActivateWindow."@ + decimal(n as nat))[0] != "ResetTerminal"@[0]);
    assert(("ActivateWindow."@ + decimal(n as nat))[0] != "ScrollByPage.Up"@[0]);
    assert(("ActivateWindow."@ + decimal(n as nat))[0] != "ScrollByPage.Down"@[0]);
    assert(("ActivateWindow."@ + decimal(n as nat))[0] != "ScrollToTop"@[0]);
    assert(("ActivateWindow."@ + decimal(n as nat))[0] != "ScrollToBottom"@[0]);
    assert(("ActivateWindow."@ + decimal(n as nat))[0] != "OpenLinkAtMouseCursor"@[0]);
    assert(("ActivateWindow."@ + decimal(n as nat))[0] != "OpenUri.docs"@[0]);
    assert(("ActivateWindow."@ + decimal(n as nat))[0] != "OpenUri.discussions"@[0]);
    assert(("ActivateWindow."@ + decimal(n as nat))[0] != "OpenUri.issues"@[0]);
    assert(("ActivateWindow."@ + decimal(n as nat))[0] != "Hide"@[0]);
    assert(("ActivateWindow."@ + decimal(n as nat))[0] != "TogglePaneZoomState"@[0]);
    assert(("ActivateWindow."@ + decimal(n as nat))[8] != "ActivateLastTab"@[8]);
    assert(("ActivateWindow."@ + decimal(n as nat))[0] != "CopyTo.Clipboard"@[0]);
    assert(("ActivateWindow."@ + decimal(n as nat))[0] != "PasteFrom.Clipboard"@[0]);
    assert(("ActivateWindow."@ + decimal(n as nat))[8] != "ActivateCommandPalette"@[8]);
    assert(("ActivateWindow."@ + decimal(n as nat))[0] != "ReloadConfiguration"@[0]);
    assert(("ActivateWindow."@ + decimal(n as nat))[0] != "SpawnWindow"@[0]);
    assert(("ActivateWindow."@ + decimal(n as nat))[0] != "DetachDomain.CurrentPaneDomain"@[0]);
    assert(("ActivateWindow."@ + decimal(n as nat))[0] != "ShowLauncher"@[0]);
    assert(("ActivateWindow."@ + decimal(n as nat))[0] != "PasteFrom.PrimarySelection"@[0]);
    assert(("ActivateWindow."@ + decimal(n as nat))[0] != "CopyTo.PrimarySelection"@[0]);
    assert(("ActivateWindow."@ + decimal(n as nat))[0] != "QuickSelect"@[0]);
    assert(("ActivateWindow."@ + decimal(n as nat))[0] != "CharSelect"@[0]);
    assert(("ActivateWindow."@ + decimal(n as nat))[8] != "ActivateCopyMode"@[8]);
    assert(("ActivateWindow."@ + decimal(n as nat))[0] != "ClearKeyTableStack"@[0]);
    assert(("ActivateWindow."@ + decimal(n as nat))[0] != "Search"@[0]);
    assert(("ActivateWindow."@ + decimal(n as nat))[0] != "ShowTabNavigator"@[0]);
    assert(("ActivateWindow."@ + decimal(n as nat))[0] != "ShowDebugOverlay"@[0]);
    assert(("ActivateWindow."@ + decimal(n as nat))[0] != "PaneSelect.Activate"@[0]);
    assert(("ActivateWindow."@ + decimal(n as nat))[0] != "PaneSelect.SwapWithActive"@[0]);
    assert(("ActivateWindow."@ + decimal(n as nat))[0] != "PaneSelect.SwapWithActiveKeepFocus"@[0]);
    assert(("ActivateWindow."@ + decimal(n as nat))[0] != "PaneSelect.MoveToNewTab"@[0]);
    assert(("ActivateWindow."@ + decimal(n as nat))[0] != "PaneSelect.MoveToNewWindow"@[0]);
    assert(("ActivateWindow."@ + decimal(n as nat))[0] != "ToggleFpsHud"@[0]);
    assert(("ActivateWindow."@ + decimal(n as nat))[0] != "RenameTab"@[0]);
    assert(("ActivateWindow."@ + decimal(n as nat))[0] != "PromptInputLine"@[0]);
    assert(("ActivateWindow."@ + decimal(n as nat))[0] != "Confirmation"@[0]);
    crate::text::lemma_not_prefix(("ActivateWindow."@ + decimal(n as nat)), "ActivateTabRelative."@, 8);
    crate::text::lemma_not_prefix(("ActivateWindow."@ + decimal(n as nat)), "ActivateTab."@, 8);
    crate::text::lemma_not_prefix(("ActivateWindow."@ + decimal(n as nat)), "MoveTabRelative."@, 0);
    crate::text::lemma_not_prefix(("ActivateWindow."@ + decimal(n as nat)), "ActivatePaneDirection."@, 8);
    crate::text::lemma_not_prefix(("ActivateWindow."@ + decimal(n as nat)), "RotatePanes."@, 0);
    crate::text::lemma_not_prefix(("ActivateWindow."@ + decimal(n as nat)), "ActivateWindowRelative."@, 14);
    crate::text::lemma_is_prefix("ActivateWindow."@, decimal(n as nat));
    crate::text::lemma_parse_usize_decimal(n);
}


/// Decodes the palette id `id` into what the shell does for it.
pub fn palette_action(id: &str) -> (r: PaletteTarget)
    ensures
        r@ == spec_palette_action(id@),
{
    if let Some(name) = strip_prefix(id, "domain:") {
        return PaletteTarget::SpawnDomain(name.to_string());
    }
    if str_eq(id, "workspace:create") {
        return PaletteTarget::Run(ShellAction::CreateWorkspace);
    }
    if let Some(name) = strip_prefix(id, "workspace:switch:") {
        return PaletteTarget::SwitchWorkspace(name.to_string());
    }
    if str_eq(id, "workspace:relative:1") {
        return PaletteTarget::Run(ShellAction::SwitchWorkspaceRelative(1));
    }
    if str_eq(id, "workspace:relative:-1") {
        return PaletteTarget::Run(ShellAction::SwitchWorkspaceRelative(-1));
    }
    match named_action(id) {
        Some(a) => PaletteTarget::Run(a),
        None => PaletteTarget::Run(prefixed_action(id)),
    }
}

impl HelpLink {
    pub open spec fn spec_url(self) -> Seq<char> {
        match self {
            HelpLink::Docs => "https://wezterm.org/"@,
            HelpLink::Discussions => "https://github.com/wezterm/wezterm/discussions/"@,
            HelpLink::Issues => "https://github.com/wezterm/wezterm/issues/"@,
        }
    }

    /// The address that the link opens.
    pub fn url(self) -> (r: &'static str)
        ensures
            r@ == self.spec_url(),
    {
        match self {
            HelpLink::Docs => "https://wezterm.org/",
            HelpLink::Discussions => "https://github.com/wezterm/wezterm/discussions/",
            HelpLink::Issues => "https://github.com/wezterm/wezterm/issues/",
        }
    }
}

impl Notice {
    pub open spec fn spec_text(self) -> Seq<char> {
        match self {
            Notice::LocalDomainCannotDetach => "The local domain cannot be detached"@,
            Notice::KeyTableStackEmpty => "Key table stack is empty"@,
        }
    }

    /// The toast's text.
    pub fn text(self) -> (r: &'static str)
        ensures
            r@ == self.spec_text(),
    {
        match self {
            Notice::LocalDomainCannotDetach => "The local domain cannot be detached",
            Notice::KeyTableStackEmpty => "Key table stack is empty",
        }
    }
}

} // verus!
