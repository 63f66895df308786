use std::collections::HashSet;

use wezterm_gpui::commands::{command_by_id, palette_commands, CommandKind, CommandStatus};

#[test]
fn palette_ids_unique() {
    let mut seen = HashSet::new();
    for cmd in palette_commands() {
        assert!(seen.insert(cmd.id), "duplicate palette id {}", cmd.id);
    }
}

#[test]
fn palette_has_windows_defaults_and_wired_subset() {
    let commands = palette_commands();
    assert!(commands.len() >= 80);
    let wired: Vec<_> = commands
        .iter()
        .filter(|c| c.is_wired())
        .map(|c| c.id)
        .collect();
    assert_eq!(wired.len(), 55);
    for id in [
        "SpawnTab.CurrentPaneDomain",
        "CopyTo.Clipboard",
        "PasteFrom.Clipboard",
        "ClearScrollback.ScrollbackOnly",
        "IncreaseFontSize",
        "ActivateCommandPalette",
        "CloseCurrentTab.confirm",
    ] {
        assert!(wired.contains(&id), "missing wired {id}");
    }
    assert!(
        commands
            .iter()
            .any(|c| c.id == "CharSelect" && !c.is_wired())
    );
    assert!(
        commands
            .iter()
            .any(|c| c.id == "ShowLauncher" && !c.is_wired())
    );
}

#[test]
fn palette_wired_ids_are_dispatched() {
    for id in [
        "SpawnTab.CurrentPaneDomain",
        "CloseCurrentTab.confirm",
        "CloseCurrentPane.confirm",
        "QuitApplication",
        "IncreaseFontSize",
        "DecreaseFontSize",
        "ResetFontSize",
        "ClearScrollback.ScrollbackOnly",
        "CopyTo.Clipboard",
        "PasteFrom.Clipboard",
        "ActivateCommandPalette",
        "RenameTab",
        "PromptInputLine",
        "Confirmation",
        "ResetTerminal",
        "OpenLinkAtMouseCursor",
        "ClearScrollback.ScrollbackAndViewport",
        "ScrollByPage.Up",
        "ScrollToTop",
        "Hide",
        "ActivateTab.0",
        "ActivateTab.-1",
        "ActivateTabRelative.1",
        "MoveTabRelative.-1",
        "ActivateLastTab",
        "OpenUri.docs",
        "SplitHorizontal",
        "SplitVertical",
        "ActivatePaneDirection.Left",
        "ActivatePaneDirection.Right",
        "RotatePanes.Clockwise",
        "TogglePaneZoomState",
        "ToggleFullScreen",
        "ResetFontAndWindowSize",
        "ToggleAlwaysOnTop",
        "SetWindowLevel.Normal",
    ] {
        assert!(
            command_by_id(id).is_some_and(|c| c.is_wired()),
            "wired id missing from catalog: {id}"
        );
    }
}

#[test]
fn haystack_joins_menu_brief_doc_and_keys() {
    let c = command_by_id("ReloadConfiguration").expect("row");
    assert_eq!(
        c.haystack(),
        "WezTerm: Reload configuration. Reloads the configuration file Shift-Ctrl-R"
    );
    assert_eq!(c.kind, CommandKind::CallCore);
    assert_eq!(c.status, CommandStatus::Listed);
    assert!(!c.is_wired());
    assert!(command_by_id("NoSuchCommand").is_none());
}
