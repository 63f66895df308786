use wezterm_gpui::find::compute_labels_for_alphabet;
use wezterm_gpui::keys::{
    copy_mode_key, map_keystroke, pane_select_key, quick_select_key, search_key, typed_char, CopyModeKey,
    KeyMods, KeyPress, LabelKey, SearchKey, TermKey,
};
use wezterm_gpui::quick_select::HintMatch;
use wezterm_gpui::selection::{copy_mode_selection, CellPos, CopyMode, SelRange};

fn key(k: &str) -> KeyPress {
    KeyPress { key: k.to_string(), key_char: None, control: false, alt: false, shift: false, platform: false }
}

fn typed(k: &str, c: &str) -> KeyPress {
    KeyPress { key_char: Some(c.to_string()), ..key(k) }
}

fn ctrl(k: &str) -> KeyPress {
    KeyPress { control: true, ..key(k) }
}

const NONE: KeyMods = KeyMods { ctrl: false, alt: false, shift: false, sup: false };

#[test]
fn typed_char_prefers_key_text() {
    assert_eq!(typed_char(&typed("a", "A")), Some('A'));
    assert_eq!(typed_char(&typed("a", "")), Some('a'));
    assert_eq!(typed_char(&key("escape")), None);
    assert_eq!(typed_char(&key("é")), None);
}

#[test]
fn window_shortcuts_never_reach_the_terminal() {
    for k in ["p", "c", "v", "f"] {
        assert_eq!(map_keystroke(&KeyPress { shift: true, ..ctrl(k) }), None, "{k}");
    }
    for k in ["t", "w", "q", "p"] {
        assert_eq!(map_keystroke(&ctrl(k)), None, "{k}");
    }
    assert_eq!(map_keystroke(&ctrl("insert")), None);
    assert_eq!(map_keystroke(&KeyPress { shift: true, ..key("insert") }), None);
    assert_eq!(map_keystroke(&key("insert")), Some((TermKey::Insert, NONE)));
}

#[test]
fn named_and_function_keys() {
    assert_eq!(map_keystroke(&key("enter")), Some((TermKey::Enter, NONE)));
    assert_eq!(map_keystroke(&key("return")), Some((TermKey::Enter, NONE)));
    assert_eq!(map_keystroke(&key("space")), Some((TermKey::Char(' '), NONE)));
    assert_eq!(map_keystroke(&key("f5")), Some((TermKey::Function(5), NONE)));
    assert_eq!(map_keystroke(&key("f24")), Some((TermKey::Function(24), NONE)));
    assert_eq!(map_keystroke(&key("f25")), None);
    assert_eq!(map_keystroke(&key("f0")), None);
    let alt_up = KeyPress { alt: true, ..key("up") };
    assert_eq!(map_keystroke(&alt_up), Some((TermKey::UpArrow, KeyMods { alt: true, ..NONE })));
}

#[test]
fn characters_carry_their_text() {
    let shifted = KeyPress { shift: true, ..typed("a", "A") };
    assert_eq!(map_keystroke(&shifted), Some((TermKey::Char('A'), NONE)));
    assert_eq!(map_keystroke(&key("f")), Some((TermKey::Char('f'), NONE)));
    assert_eq!(map_keystroke(&ctrl("a")), Some((TermKey::Char('a'), KeyMods { ctrl: true, ..NONE })));
    assert_eq!(map_keystroke(&ctrl("foo")), None);
    assert_eq!(map_keystroke(&key("capslock")), None);
}

#[test]
fn search_bar_keys() {
    assert_eq!(search_key(&KeyPress { shift: true, ..ctrl("f") }), SearchKey::NotHandled);
    assert_eq!(search_key(&ctrl("p")), SearchKey::NotHandled);
    assert_eq!(search_key(&KeyPress { shift: true, ..ctrl("c") }), SearchKey::CopySelection);
    assert_eq!(search_key(&ctrl("insert")), SearchKey::CopySelection);
    assert_eq!(search_key(&KeyPress { shift: true, ..key("insert") }), SearchKey::NotHandled);
    assert_eq!(search_key(&key("escape")), SearchKey::Close);
    assert_eq!(search_key(&key("enter")), SearchKey::Step(1));
    assert_eq!(search_key(&KeyPress { shift: true, ..key("enter") }), SearchKey::Step(-1));
    assert_eq!(search_key(&key("down")), SearchKey::Step(1));
    assert_eq!(search_key(&key("up")), SearchKey::Step(-1));
    assert_eq!(search_key(&key("backspace")), SearchKey::EraseChar);
    assert_eq!(search_key(&ctrl("r")), SearchKey::ToggleCase);
    assert_eq!(search_key(&ctrl("x")), SearchKey::Ignore);
    assert_eq!(search_key(&key("space")), SearchKey::Type(' '));
    assert_eq!(search_key(&typed("a", "a")), SearchKey::Type('a'));
    assert_eq!(search_key(&typed("tab", "\t")), SearchKey::Ignore);
}

#[test]
fn pane_select_picks_by_label() {
    let labels = compute_labels_for_alphabet("asdf", 3);
    assert_eq!(labels, vec!["a", "s", "d"]);
    assert_eq!(pane_select_key(&key("s"), "", "asdf", 3), LabelKey::Pick(1));
    assert_eq!(pane_select_key(&typed("S", "S"), "", "asdf", 3), LabelKey::Pick(1));
    assert_eq!(pane_select_key(&key("x"), "", "asdf", 3), LabelKey::Typed(String::new()));
    assert_eq!(pane_select_key(&key("-"), "", "asdf", 3), LabelKey::Ignore);
    assert_eq!(pane_select_key(&key("escape"), "a", "asdf", 3), LabelKey::Cancel);
    assert_eq!(pane_select_key(&key("backspace"), "a", "asdf", 3), LabelKey::EraseChar);
    assert_eq!(pane_select_key(&ctrl("a"), "", "asdf", 3), LabelKey::Ignore);
}

#[test]
fn quick_select_typing_narrows_then_picks() {
    let m = vec![
        HintMatch { label: "a".into(), y: 0, x: 0, text: "one".into() },
        HintMatch { label: "ba".into(), y: 0, x: 4, text: "two".into() },
        HintMatch { label: "bb".into(), y: 1, x: 0, text: "three".into() },
    ];
    assert_eq!(quick_select_key(&key("b"), "", &m), LabelKey::Typed("b".to_string()));
    assert_eq!(quick_select_key(&key("b"), "b", &m), LabelKey::Pick(2));
    assert_eq!(quick_select_key(&key("z"), "b", &m), LabelKey::Typed(String::new()));
    assert_eq!(quick_select_key(&key("-"), "", &m), LabelKey::Typed(String::new()));
}

#[test]
fn copy_mode_moves_within_the_row() {
    let start = CopyMode { pos: CellPos { y: 5, x: 2 }, visual: false, anchor: CellPos { y: 0, x: 0 } };
    let mv = |k: &str, m: CopyMode| match copy_mode_key(&key(k), Some(m), Some(10)) {
        CopyModeKey::Move(n) => n,
        other => panic!("{other:?}"),
    };
    assert_eq!(mv("l", start).pos, CellPos { y: 5, x: 3 });
    assert_eq!(mv("h", start).pos, CellPos { y: 5, x: 1 });
    assert_eq!(mv("b", start).pos, CellPos { y: 5, x: 0 });
    assert_eq!(mv("w", mv("w", start)).pos, CellPos { y: 5, x: 9 });
    assert_eq!(mv("$", start).pos, CellPos { y: 5, x: 9 });
    assert_eq!(mv("0", start).pos, CellPos { y: 5, x: 0 });
    assert_eq!(mv("k", start).pos, CellPos { y: 4, x: 2 });
    assert_eq!(mv("down", start).pos, CellPos { y: 6, x: 2 });
    let v = mv("v", start);
    assert!(v.visual);
    assert_eq!(v.anchor, start.pos);
    let moved = mv("l", v);
    assert_eq!(copy_mode_selection(moved), SelRange { start: start.pos, end: CellPos { y: 5, x: 3 } });
    assert_eq!(mv("q", start), start);
}

#[test]
fn copy_mode_exits_and_ignores_chords() {
    let m = CopyMode { pos: CellPos { y: 0, x: 0 }, visual: false, anchor: CellPos { y: 0, x: 0 } };
    assert_eq!(copy_mode_key(&key("escape"), Some(m), Some(80)), CopyModeKey::Exit);
    assert_eq!(copy_mode_key(&key("y"), Some(m), Some(80)), CopyModeKey::CopyAndExit);
    assert_eq!(copy_mode_key(&key("enter"), None, None), CopyModeKey::CopyAndExit);
    assert_eq!(copy_mode_key(&ctrl("escape"), Some(m), Some(80)), CopyModeKey::Ignore);
    assert_eq!(copy_mode_key(&key("l"), None, Some(80)), CopyModeKey::Ignore);
    assert_eq!(copy_mode_key(&key("l"), Some(m), None), CopyModeKey::Ignore);
}
