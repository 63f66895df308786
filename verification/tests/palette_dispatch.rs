use wezterm_gpui::commands::palette_commands;
use wezterm_gpui::palette_dispatch::{
    palette_action, HelpLink, Notice, PaletteTarget, PaneSelectMode, PickerKind, ShellAction,
};
use wezterm_gpui::split_layout::{PaneDir, SplitAxis};
use wezterm_gpui::win_zorder::WindowZOrder;

fn run(id: &str) -> ShellAction {
    match palette_action(id) {
        PaletteTarget::Run(a) => a,
        other => panic!("{id} gave {other:?}"),
    }
}

#[test]
fn domain_and_workspace_prefixes_carry_names() {
    assert_eq!(palette_action("domain:WSL:Ubuntu"), PaletteTarget::SpawnDomain("WSL:Ubuntu".to_string()));
    assert_eq!(palette_action("workspace:switch:dev"), PaletteTarget::SwitchWorkspace("dev".to_string()));
    assert_eq!(palette_action("workspace:create"), PaletteTarget::Run(ShellAction::CreateWorkspace));
    assert_eq!(run("workspace:relative:1"), ShellAction::SwitchWorkspaceRelative(1));
    assert_eq!(run("workspace:relative:-1"), ShellAction::SwitchWorkspaceRelative(-1));
    assert_eq!(run("workspace:relative:2"), ShellAction::Nothing);
}

#[test]
fn fixed_ids_map_to_their_steps() {
    assert_eq!(run("SpawnTab.CurrentPaneDomain"), ShellAction::NewTab);
    assert_eq!(run("SplitHorizontal"), ShellAction::Split(SplitAxis::Horizontal));
    assert_eq!(run("SplitVertical"), ShellAction::Split(SplitAxis::Vertical));
    assert_eq!(run("ScrollByPage.Up"), ShellAction::ScrollByPage(-1));
    assert_eq!(run("ScrollByPage.Down"), ShellAction::ScrollByPage(1));
    assert_eq!(run("PasteFrom.PrimarySelection"), ShellAction::PasteClipboard);
    assert_eq!(run("CopyTo.PrimarySelection"), ShellAction::CopySelection);
    assert_eq!(run("RenameTab"), ShellAction::RenamePrompt);
    assert_eq!(run("PromptInputLine"), ShellAction::RenamePrompt);
    assert_eq!(run("ShowLauncher"), ShellAction::OpenPicker(PickerKind::Launcher));
    assert_eq!(run("CharSelect"), ShellAction::OpenPicker(PickerKind::CharSelect));
    assert_eq!(run("ShowTabNavigator"), ShellAction::OpenPicker(PickerKind::TabNav));
    assert_eq!(run("PaneSelect.SwapWithActiveKeepFocus"), ShellAction::PaneSelect(PaneSelectMode::SwapKeep));
    assert_eq!(run("Hide"), ShellAction::Minimize);
    assert_eq!(run("OpenUri.issues"), ShellAction::OpenUri(HelpLink::Issues));
    assert_eq!(run("ClearKeyTableStack"), ShellAction::Notice(Notice::KeyTableStackEmpty));
}

#[test]
fn ids_with_arguments_parse_them() {
    assert_eq!(run("ActivateTab.0"), ShellAction::ActivateTab(0));
    assert_eq!(run("ActivateTab.-1"), ShellAction::ActivateTab(-1));
    assert_eq!(run("ActivateTabRelative.1"), ShellAction::ActivateTabRelative(1));
    assert_eq!(run("ActivateTabRelative.-1"), ShellAction::ActivateTabRelative(-1));
    assert_eq!(run("MoveTabRelative.-1"), ShellAction::MoveTabRelative(-1));
    assert_eq!(run("ActivateWindowRelative.+2"), ShellAction::ActivateWindowRelative(2));
    assert_eq!(run("ActivateWindow.3"), ShellAction::ActivateWindow(3));
    assert_eq!(run("ActivateWindow.-3"), ShellAction::Nothing);
    assert_eq!(run("ActivateTab.x"), ShellAction::Nothing);
    assert_eq!(run("ActivatePaneDirection.Left"), ShellAction::ActivatePaneDirection(PaneDir::Left));
    assert_eq!(run("ActivatePaneDirection.Sideways"), ShellAction::Nothing);
    assert_eq!(run("AdjustPaneSize.Down"), ShellAction::AdjustPaneSize(PaneDir::Down));
    assert_eq!(run("RotatePanes.Clockwise"), ShellAction::RotatePanes(true));
    assert_eq!(run("RotatePanes.CounterClockwise"), ShellAction::RotatePanes(false));
    assert_eq!(run("RotatePanes.Up"), ShellAction::Nothing);
    assert_eq!(run("SetWindowLevel.AlwaysOnBottom"), ShellAction::SetWindowLevel(WindowZOrder::AlwaysOnBottom));
    assert_eq!(run("NoSuchCommand"), ShellAction::Nothing);
}

#[test]
fn every_wired_catalog_id_does_something() {
    for c in palette_commands() {
        if c.is_wired() {
            assert_ne!(palette_action(c.id), PaletteTarget::Run(ShellAction::Nothing), "{}", c.id);
        }
    }
}

#[test]
fn help_links_and_notices_have_their_text() {
    assert_eq!(HelpLink::Docs.url(), "https://wezterm.org/");
    assert_eq!(HelpLink::Discussions.url(), "https://github.com/wezterm/wezterm/discussions/");
    assert_eq!(Notice::LocalDomainCannotDetach.text(), "The local domain cannot be detached");
}
