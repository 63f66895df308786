use wezterm_gpui::launcher::{launcher_action, launcher_items, pane_items, tab_nav_items, LauncherAction, ShellEntry};
use wezterm_gpui::picker::PickerItem;
use wezterm_gpui::split_layout::SplitAxis;

fn item(id: &str, title: &str, sub: &str) -> PickerItem {
    PickerItem { id: id.into(), title: title.into(), subtitle: sub.into() }
}

#[test]
fn launcher_lists_every_kind_of_row_in_order() {
    let shells = vec![
        ShellEntry { label: "Command Prompt".into(), domain: None },
        ShellEntry { label: "Ubuntu".into(), domain: Some("WSL:Ubuntu".into()) },
    ];
    let domains = vec!["WSL:Ubuntu".to_string(), "SSH:box".to_string()];
    let names = vec!["default".to_string(), "dev".to_string()];
    let tabs = vec!["cmd".to_string()];
    let menu = vec![Some("htop".to_string()), None];
    let items = launcher_items(&shells, &domains, "default", &names, &tabs, &menu);
    assert_eq!(
        items,
        vec![
            item("launch:tab:0", "New Tab — Command Prompt", "Spawn"),
            item("launch:tab:1", "New Tab — Ubuntu", "domain `WSL:Ubuntu`"),
            item("domain:SSH:box", "New Tab (domain `SSH:box`)", "Mux domain"),
            item("launch:window", "New Window", "Spawn"),
            item("workspace:switch:dev", "Switch to workspace: `dev`", "Window | Workspace"),
            item("workspace:create", "Create new Workspace", "current is `default`"),
            item("launch:splith", "Split Horizontally", "Current tab"),
            item("launch:splitv", "Split Vertically", "Current tab"),
            item("tab:0", "Activate tab: cmd", "Tab 1"),
            item("launch:menu:0", "htop (New Tab)", "lua launch_menu"),
            item("launch:menu:1", "launch_menu #1 (New Tab)", "lua launch_menu"),
        ]
    );
}

#[test]
fn launcher_ids_decode_back() {
    assert_eq!(launcher_action("workspace:create"), LauncherAction::PaletteCommand);
    assert_eq!(launcher_action("domain:SSH:box"), LauncherAction::SpawnDomain("SSH:box".into()));
    assert_eq!(launcher_action("tab:3"), LauncherAction::ActivateTab(3));
    assert_eq!(launcher_action("tab:x"), LauncherAction::Nothing);
    assert_eq!(launcher_action("launch:tab:1"), LauncherAction::LaunchShell(1));
    assert_eq!(launcher_action("launch:window"), LauncherAction::SpawnWindow);
    assert_eq!(launcher_action("launch:splith"), LauncherAction::Split(SplitAxis::Horizontal));
    assert_eq!(launcher_action("launch:splitv"), LauncherAction::Split(SplitAxis::Vertical));
    assert_eq!(launcher_action("launch:menu:2"), LauncherAction::LaunchMenu(2));
    assert_eq!(launcher_action("launch:other"), LauncherAction::Nothing);
}

#[test]
fn every_launcher_row_decodes_to_an_action() {
    let shells = vec![ShellEntry { label: "cmd".into(), domain: None }];
    let items = launcher_items(&shells, &vec!["SSH:a".into()], "w", &vec!["v".into()], &vec!["t".into()], &vec![None]);
    for it in items {
        assert_ne!(launcher_action(&it.id), LauncherAction::Nothing, "{}", it.id);
    }
}

#[test]
fn tab_navigator_and_pane_picker_rows() {
    let tabs = tab_nav_items(&vec!["cmd".into(), "pwsh".into()]);
    assert_eq!(tabs, vec![item("tab:0", "cmd", "Tab 1"), item("tab:1", "pwsh", "Tab 2")]);
    let panes = pane_items(&vec!["a".into(), "b".into()], 1);
    assert_eq!(panes, vec![item("pane:0", "1: a", "Pane 1"), item("pane:1", "2: b (active)", "Pane 2")]);
    let many: Vec<String> = (0..36).map(|i| format!("p{i}")).collect();
    let panes = pane_items(&many, 0);
    assert_eq!(panes[34].title, "z: p34");
    assert_eq!(panes[35].title, "?: p35");
}
