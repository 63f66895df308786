//! What a key press does in the terminal, the search bar and the
//! label-typing overlays (quick-select and pane-select).

use vstd::prelude::*;

use crate::find::{compute_labels_for_alphabet, labels_for_alphabet, views};
use crate::quick_select::HintMatch;
use crate::selection::{CellPos, CopyMode};
use crate::text::{
    decimal, ascii_lower, chars_of, is_ascii_alnum, is_control, is_control_char, parse_u8, spec_parse_u8,
    spec_strip_prefix, str_eq, strip_prefix, to_ascii_lower,
};

verus! {

/// A key press: the key's name, the text it types if any, and the
/// modifiers held.
#[derive(Debug)]
pub struct KeyPress {
    pub key: String,
    pub key_char: Option<String>,
    pub control: bool,
    pub alt: bool,
    pub shift: bool,
    pub platform: bool,
}

/// The character a key press types: the first character of its text, else
/// the key name when it is a single one-byte character.
pub open spec fn spec_typed_char(ks: KeyPress) -> Option<char> {
    if ks.key_char is Some && ks.key_char->0@.len() > 0 {
        Some(ks.key_char->0@[0])
    } else if vstd::utf8::encode_utf8(ks.key@).len() == 1 {
        Some(ks.key@[0])
    } else {
        None
    }
}

/// The character a key press types.
pub fn typed_char(ks: &KeyPress) -> (r: Option<char>)
    ensures
        r == spec_typed_char(*ks),
{
    if let Some(s) = &ks.key_char {
        let cs = chars_of(s.as_str());
        if cs.len() > 0 {
            return Some(cs[0]);
        }
    }
    if ks.key.as_str().as_bytes().len() == 1 {
        let cs = chars_of(ks.key.as_str());
        proof {
            if ks.key@.len() == 0 {
                assert(vstd::utf8::encode_utf8(ks.key@) =~= Seq::<u8>::empty());
            }
        }
        Some(cs[0])
    } else {
        None
    }
}

/// Keys that the terminal understands.
#[derive(Debug, Clone, Copy, PartialEq, Eq, Structural)]
pub enum TermKey {
    Enter,
    Tab,
    Escape,
    Backspace,
    Delete,
    UpArrow,
    DownArrow,
    LeftArrow,
    RightArrow,
    Home,
    End,
    PageUp,
    PageDown,
    Insert,
    Char(char),
    Function(u8),
}

/// Modifiers sent with a key: control, alt, shift and super.
#[derive(Debug, Clone, Copy, PartialEq, Eq, Structural)]
pub struct KeyMods {
    pub ctrl: bool,
    pub alt: bool,
    pub shift: bool,
    pub sup: bool,
}

/// The keys named by a word.
pub open spec fn named_key(k: Seq<char>) -> Option<TermKey> {
    if k == "enter"@ || k == "return"@ {
        Some(TermKey::Enter)
    } else if k == "tab"@ {
        Some(TermKey::Tab)
    } else if k == "escape"@ {
        Some(TermKey::Escape)
    } else if k == "backspace"@ {
        Some(TermKey::Backspace)
    } else if k == "delete"@ {
        Some(TermKey::Delete)
    } else if k == "up"@ {
        Some(TermKey::UpArrow)
    } else if k == "down"@ {
        Some(TermKey::DownArrow)
    } else if k == "left"@ {
        Some(TermKey::LeftArrow)
    } else if k == "right"@ {
        Some(TermKey::RightArrow)
    } else if k == "home"@ {
        Some(TermKey::Home)
    } else if k == "end"@ {
        Some(TermKey::End)
    } else if k == "pageup"@ {
        Some(TermKey::PageUp)
    } else if k == "pagedown"@ {
        Some(TermKey::PageDown)
    } else if k == "space"@ {
        Some(TermKey::Char(' '))
    } else if k == "insert"@ {
        Some(TermKey::Insert)
    } else {
        None
    }
}

fn named_key_of(k: &str) -> (r: Option<TermKey>)
    ensures
        r == named_key(k@),
{
    if str_eq(k, "enter") || str_eq(k, "return") {
        Some(TermKey::Enter)
    } else if str_eq(k, "tab") {
        Some(TermKey::Tab)
    } else if str_eq(k, "escape") {
        Some(TermKey::Escape)
    } else if str_eq(k, "backspace") {
        Some(TermKey::Backspace)
    } else if str_eq(k, "delete") {
        Some(TermKey::Delete)
    } else if str_eq(k, "up") {
        Some(TermKey::UpArrow)
    } else if str_eq(k, "down") {
        Some(TermKey::DownArrow)
    } else if str_eq(k, "left") {
        Some(TermKey::LeftArrow)
    } else if str_eq(k, "right") {
        Some(TermKey::RightArrow)
    } else if str_eq(k, "home") {
        Some(TermKey::Home)
    } else if str_eq(k, "end") {
        Some(TermKey::End)
    } else if str_eq(k, "pageup") {
        Some(TermKey::PageUp)
    } else if str_eq(k, "pagedown") {
        Some(TermKey::PageDown)
    } else if str_eq(k, "space") {
        Some(TermKey::Char(' '))
    } else if str_eq(k, "insert") {
        Some(TermKey::Insert)
    } else {
        None
    }
}

/// The number after an `f` in a key name, as `u8`.
pub open spec fn function_number(k: Seq<char>) -> Option<u8> {
    match spec_strip_prefix(k, "f"@) {
        Some(rest) => spec_parse_u8(rest),
        None => None,
    }
}

/// What the terminal receives for a key press. The window's own shortcuts
/// (Ctrl+Shift+P/C/V/F; Ctrl+T/W/Q/P; Ctrl+Insert and Shift+Insert alone)
/// send nothing; named keys and F1..F24 go with their modifiers; other keys
/// send the character they type (without Shift when the text already has
/// it applied), or with Control or Alt a one-byte key name's character.
pub open spec fn spec_map_keystroke(ks: KeyPress) -> Option<(TermKey, KeyMods)> {
    let mods = KeyMods { ctrl: ks.control, alt: ks.alt, shift: ks.shift, sup: ks.platform };
    let k = ks.key@;
    if ks.control && ks.shift && (k == "p"@ || k == "c"@ || k == "v"@ || k == "f"@) {
        None
    } else if ks.control && (k == "t"@ || k == "w"@ || k == "q"@ || k == "p"@) {
        None
    } else if k == "insert"@ && ((ks.control && !ks.shift) || (ks.shift && !ks.control)) {
        None
    } else {
        match named_key(k) {
            Some(t) => Some((t, mods)),
            None => match function_number(k) {
                Some(n) => if 1 <= n <= 24 {
                    Some((TermKey::Function(n), mods))
                } else {
                    None
                },
                None => if !ks.control && !ks.alt {
                    match spec_typed_char(ks) {
                        Some(ch) => Some(
                            (
                                TermKey::Char(ch),
                                if ks.key_char is Some {
                                    KeyMods { shift: false, ..mods }
                                } else {
                                    mods
                                },
                            ),
                        ),
                        None => None,
                    }
                } else if vstd::utf8::encode_utf8(k).len() == 1 {
                    Some((TermKey::Char(k[0]), mods))
                } else {
                    None
                },
            },
        }
    }
}

/// Each named key reaches the terminal as its namesake, with the
/// modifiers held: a press of "pageup" sends Page Up, "pagedown" Page
/// Down, and so on for every key name, whatever the modifiers (Insert only
/// when it is not the Ctrl+Insert or Shift+Insert shortcut).
pub proof fn lemma_named_keys_reach_terminal(ks: KeyPress)
    ensures
        ks.key@ == "enter"@ ==> spec_map_keystroke(ks) == Some((TermKey::Enter, KeyMods { ctrl: ks.control, alt: ks.alt, shift: ks.shift, sup: ks.platform })),
        ks.key@ == "return"@ ==> spec_map_keystroke(ks) == Some((TermKey::Enter, KeyMods { ctrl: ks.control, alt: ks.alt, shift: ks.shift, sup: ks.platform })),
        ks.key@ == "tab"@ ==> spec_map_keystroke(ks) == Some((TermKey::Tab, KeyMods { ctrl: ks.control, alt: ks.alt, shift: ks.shift, sup: ks.platform })),
        ks.key@ == "escape"@ ==> spec_map_keystroke(ks) == Some((TermKey::Escape, KeyMods { ctrl: ks.control, alt: ks.alt, shift: ks.shift, sup: ks.platform })),
        ks.key@ == "backspace"@ ==> spec_map_keystroke(ks) == Some((TermKey::Backspace, KeyMods { ctrl: ks.control, alt: ks.alt, shift: ks.shift, sup: ks.platform })),
        ks.key@ == "delete"@ ==> spec_map_keystroke(ks) == Some((TermKey::Delete, KeyMods { ctrl: ks.control, alt: ks.alt, shift: ks.shift, sup: ks.platform })),
        ks.key@ == "up"@ ==> spec_map_keystroke(ks) == Some((TermKey::UpArrow, KeyMods { ctrl: ks.control, alt: ks.alt, shift: ks.shift, sup: ks.platform })),
        ks.key@ == "down"@ ==> spec_map_keystroke(ks) == Some((TermKey::DownArrow, KeyMods { ctrl: ks.control, alt: ks.alt, shift: ks.shift, sup: ks.platform })),
        ks.key@ == "left"@ ==> spec_map_keystroke(ks) == Some((TermKey::LeftArrow, KeyMods { ctrl: ks.control, alt: ks.alt, shift: ks.shift, sup: ks.platform })),
        ks.key@ == "right"@ ==> spec_map_keystroke(ks) == Some((TermKey::RightArrow, KeyMods { ctrl: ks.control, alt: ks.alt, shift: ks.shift, sup: ks.platform })),
        ks.key@ == "home"@ ==> spec_map_keystroke(ks) == Some((TermKey::Home, KeyMods { ctrl: ks.control, alt: ks.alt, shift: ks.shift, sup: ks.platform })),
        ks.key@ == "end"@ ==> spec_map_keystroke(ks) == Some((TermKey::End, KeyMods { ctrl: ks.control, alt: ks.alt, shift: ks.shift, sup: ks.platform })),
        ks.key@ == "pageup"@ ==> spec_map_keystroke(ks) == Some((TermKey::PageUp, KeyMods { ctrl: ks.control, alt: ks.alt, shift: ks.shift, sup: ks.platform })),
        ks.key@ == "pagedown"@ ==> spec_map_keystroke(ks) == Some((TermKey::PageDown, KeyMods { ctrl: ks.control, alt: ks.alt, shift: ks.shift, sup: ks.platform })),
        ks.key@ == "space"@ ==> spec_map_keystroke(ks) == Some((TermKey::Char(' '), KeyMods { ctrl: ks.control, alt: ks.alt, shift: ks.shift, sup: ks.platform })),
        ks.key@ == "insert"@ && !((ks.control && !ks.shift) || (ks.shift && !ks.control)) ==> spec_map_keystroke(ks) == Some((TermKey::Insert, KeyMods { ctrl: ks.control, alt: ks.alt, shift: ks.shift, sup: ks.platform })),
{
    reveal_strlit("backspace");
    reveal_strlit("c");
    reveal_strlit("delete");
    reveal_strlit("down");
    reveal_strlit("end");
    reveal_strlit("enter");
    reveal_strlit("escape");
    reveal_strlit("f");
    reveal_strlit("home");
    reveal_strlit("insert");
    reveal_strlit("left");
    reveal_strlit("p");
    reveal_strlit("pagedown");
    reveal_strlit("pageup");
    reveal_strlit("q");
    reveal_strlit("return");
    reveal_strlit("right");
    reveal_strlit("space");
    reveal_strlit("t");
    reveal_strlit("tab");
    reveal_strlit("up");
    reveal_strlit("v");
    reveal_strlit("w");
    if ks.key@ == "enter"@ {
    }
    if ks.key@ == "return"@ {
        assert("return"@[0] != "insert"@[0]);
    }
    if ks.key@ == "tab"@ {
    }
    if ks.key@ == "escape"@ {
        assert("escape"@[0] != "insert"@[0]);
        assert("escape"@[0] != "return"@[0]);
    }
    if ks.key@ == "backspace"@ {
    }
    if ks.key@ == "delete"@ {
        assert("delete"@[0] != "insert"@[0]);
        assert("delete"@[0] != "return"@[0]);
        assert("delete"@[0] != "escape"@[0]);
    }
    if ks.key@ == "up"@ {
    }
    if ks.key@ == "down"@ {
    }
    if ks.key@ == "left"@ {
        assert("left"@[0] != "down"@[0]);
    }
    if ks.key@ == "right"@ {
        assert("right"@[0] != "enter"@[0]);
    }
    if ks.key@ == "home"@ {
        assert("home"@[0] != "down"@[0]);
        assert("home"@[0] != "left"@[0]);
    }
    if ks.key@ == "end"@ {
        assert("end"@[0] != "tab"@[0]);
    }
    if ks.key@ == "pageup"@ {
        assert("pageup"@[0] != "insert"@[0]);
        assert("pageup"@[0] != "return"@[0]);
        assert("pageup"@[0] != "escape"@[0]);
        assert("pageup"@[0] != "delete"@[0]);
    }
    if ks.key@ == "pagedown"@ {
    }
    if ks.key@ == "space"@ {
        assert("space"@[0] != "enter"@[0]);
        assert("space"@[0] != "right"@[0]);
    }
    if ks.key@ == "insert"@ {
        assert("insert"@[0] != "return"@[0]);
        assert("insert"@[0] != "escape"@[0]);
        assert("insert"@[0] != "delete"@[0]);
        assert("insert"@[0] != "pageup"@[0]);
    }
}

/// The window's own shortcuts never reach the terminal: Ctrl+Shift+P, C,
/// V and F; Ctrl+T, W, Q and P; and Insert with exactly one of Ctrl and
/// Shift.
pub proof fn lemma_window_shortcuts_stay_out(ks: KeyPress)
    ensures
        ks.control && ks.shift && (ks.key@ == "p"@ || ks.key@ == "c"@ || ks.key@ == "v"@ || ks.key@ == "f"@)
            ==> spec_map_keystroke(ks) is None,
        ks.control && (ks.key@ == "t"@ || ks.key@ == "w"@ || ks.key@ == "q"@ || ks.key@ == "p"@)
            ==> spec_map_keystroke(ks) is None,
        ks.key@ == "insert"@ && ((ks.control && !ks.shift) || (ks.shift && !ks.control)) ==> spec_map_keystroke(
            ks,
        ) is None,
{
}

/// A function key F`n` reaches the terminal as function key `n` with the
/// modifiers held, for `n` from 1 to 24; F0 and F25 and above send nothing.
pub proof fn lemma_function_keys(ks: KeyPress, n: u8)
    requires
        ks.key@ == "f"@ + decimal(n as nat),
    ensures
        1 <= n <= 24 ==> spec_map_keystroke(ks) == Some(
            (TermKey::Function(n), KeyMods { ctrl: ks.control, alt: ks.alt, shift: ks.shift, sup: ks.platform }),
        ),
        !(1 <= n <= 24) ==> spec_map_keystroke(ks) is None,
{
    reveal_strlit("f");
    reveal_strlit("p");
    reveal_strlit("c");
    reveal_strlit("v");
    reveal_strlit("t");
    reveal_strlit("w");
    reveal_strlit("q");
    reveal_strlit("insert");
    reveal_strlit("enter");
    reveal_strlit("return");
    reveal_strlit("tab");
    reveal_strlit("escape");
    reveal_strlit("backspace");
    reveal_strlit("delete");
    reveal_strlit("up");
    reveal_strlit("down");
    reveal_strlit("left");
    reveal_strlit("right");
    reveal_strlit("home");
    reveal_strlit("end");
    reveal_strlit("pageup");
    reveal_strlit("pagedown");
    reveal_strlit("space");
    crate::text::lemma_decimal_value(n as nat);
    let k = ks.key@;
    assert(k[0] == 'f');
    assert(k.len() >= 2);
    crate::text::lemma_is_prefix("f"@, decimal(n as nat));
    assert(named_key(k) is None);
}

/// A key typed without Ctrl or Alt under a one-character key name sends the
/// first character of the text it types, with Shift taken off (the text
/// already has it applied).
pub proof fn lemma_typed_text_reaches_terminal(ks: KeyPress)
    requires
        !ks.control,
        !ks.alt,
        ks.key@.len() == 1,
        ks.key_char is Some,
        ks.key_char->0@.len() > 0,
    ensures
        spec_map_keystroke(ks) == Some(
            (
                TermKey::Char(ks.key_char->0@[0]),
                KeyMods { ctrl: false, alt: false, shift: false, sup: ks.platform },
            ),
        ),
{
    reveal_strlit("f");
    reveal_strlit("insert");
    reveal_strlit("enter");
    reveal_strlit("return");
    reveal_strlit("tab");
    reveal_strlit("escape");
    reveal_strlit("backspace");
    reveal_strlit("delete");
    reveal_strlit("up");
    reveal_strlit("down");
    reveal_strlit("left");
    reveal_strlit("right");
    reveal_strlit("home");
    reveal_strlit("end");
    reveal_strlit("pageup");
    reveal_strlit("pagedown");
    reveal_strlit("space");
    let k = ks.key@;
    assert(named_key(k) is None);
    if let Some(rest) = spec_strip_prefix(k, "f"@) {
        assert(rest.len() == 0);
        assert(function_number(k) is None);
    }
}

/// The key and modifiers that a key press sends to the terminal, if any.
pub fn map_keystroke(ks: &KeyPress) -> (r: Option<(TermKey, KeyMods)>)
    ensures
        r == spec_map_keystroke(*ks),
{
    let mut mods = KeyMods { ctrl: ks.control, alt: ks.alt, shift: ks.shift, sup: ks.platform };
    let k = ks.key.as_str();
    if ks.control && ks.shift && (str_eq(k, "p") || str_eq(k, "c") || str_eq(k, "v") || str_eq(k, "f")) {
        return None;
    }
    if ks.control && (str_eq(k, "t") || str_eq(k, "w") || str_eq(k, "q") || str_eq(k, "p")) {
        return None;
    }
    if str_eq(k, "insert") && ((ks.control && !ks.shift) || (ks.shift && !ks.control)) {
        return None;
    }
    if let Some(t) = named_key_of(k) {
        return Some((t, mods));
    }
    let fnum = match strip_prefix(k, "f") {
        Some(rest) => parse_u8(rest),
        None => None,
    };
    if let Some(n) = fnum {
        if 1 <= n && n <= 24 {
            return Some((TermKey::Function(n), mods));
        } else {
            return None;
        }
    }
    if !ks.control && !ks.alt {
        let ch = match typed_char(ks) {
            Some(c) => c,
            None => {
                return None;
            },
        };
        if ks.key_char.is_some() {
            mods.shift = false;
        }
        Some((TermKey::Char(ch), mods))
    } else if k.as_bytes().len() == 1 {
        let cs = chars_of(k);
        proof {
            if k@.len() == 0 {
                assert(vstd::utf8::encode_utf8(k@) =~= Seq::<u8>::empty());
            }
        }
        Some((TermKey::Char(cs[0]), mods))
    } else {
        None
    }
}

/// What a key press does while the search bar is open.
#[derive(Debug, Clone, Copy, PartialEq, Eq, Structural)]
pub enum SearchKey {
    /// Not for the search bar: the window's own shortcut handles it.
    NotHandled,
    CopySelection,
    Close,
    /// Move to the next (`1`) or previous (`-1`) hit.
    Step(isize),
    EraseChar,
    ToggleCase,
    /// Swallowed with no effect.
    Ignore,
    /// Typed into the query.
    Type(char),
}

/// The search bar's reading of a key press: the palette and search
/// shortcuts and paste pass through; Ctrl+Shift+C or Ctrl+Insert copy;
/// Escape closes; Enter, Return and Down step forward (back with Shift),
/// Up steps back; Backspace erases; Ctrl+R toggles case; other chords are
/// swallowed; Space and printable characters are typed.
pub open spec fn spec_search_key(ks: KeyPress) -> SearchKey {
    let k = ks.key@;
    if ks.control && ks.shift && (k == "f"@ || k == "p"@) {
        SearchKey::NotHandled
    } else if ks.control && !ks.shift && k == "p"@ {
        SearchKey::NotHandled
    } else if (ks.control && ks.shift && k == "c"@) || (ks.control && k == "insert"@) {
        SearchKey::CopySelection
    } else if (ks.control && ks.shift && k == "v"@) || (ks.shift && k == "insert"@) {
        SearchKey::NotHandled
    } else if k == "escape"@ {
        SearchKey::Close
    } else if k == "enter"@ || k == "return"@ || k == "down"@ {
        SearchKey::Step(
            if ks.shift || k == "up"@ {
                -1isize
            } else {
                1isize
            },
        )
    } else if k == "up"@ {
        SearchKey::Step(-1isize)
    } else if k == "backspace"@ {
        SearchKey::EraseChar
    } else if ks.control && k == "r"@ {
        SearchKey::ToggleCase
    } else if ks.control || ks.alt || ks.platform {
        SearchKey::Ignore
    } else if k == "space"@ {
        SearchKey::Type(' ')
    } else {
        match spec_typed_char(ks) {
            Some(c) => if is_control_char(c) {
                SearchKey::Ignore
            } else {
                SearchKey::Type(c)
            },
            None => SearchKey::Ignore,
        }
    }
}

/// What a key press does in the search bar.
pub fn search_key(ks: &KeyPress) -> (r: SearchKey)
    ensures
        r == spec_search_key(*ks),
{
    let k = ks.key.as_str();
    if ks.control && ks.shift && (str_eq(k, "f") || str_eq(k, "p")) {
        return SearchKey::NotHandled;
    }
    if ks.control && !ks.shift && str_eq(k, "p") {
        return SearchKey::NotHandled;
    }
    if (ks.control && ks.shift && str_eq(k, "c")) || (ks.control && str_eq(k, "insert")) {
        return SearchKey::CopySelection;
    }
    if (ks.control && ks.shift && str_eq(k, "v")) || (ks.shift && str_eq(k, "insert")) {
        return SearchKey::NotHandled;
    }
    if str_eq(k, "escape") {
        return SearchKey::Close;
    }
    if str_eq(k, "enter") || str_eq(k, "return") || str_eq(k, "down") {
        let delta: isize = if ks.shift || str_eq(k, "up") {
            -1
        } else {
            1
        };
        return SearchKey::Step(delta);
    }
    if str_eq(k, "up") {
        return SearchKey::Step(-1);
    }
    if str_eq(k, "backspace") {
        return SearchKey::EraseChar;
    }
    if ks.control && str_eq(k, "r") {
        return SearchKey::ToggleCase;
    }
    if ks.control || ks.alt || ks.platform {
        return SearchKey::Ignore;
    }
    if str_eq(k, "space") {
        return SearchKey::Type(' ');
    }
    match typed_char(ks) {
        Some(c) => if is_control(c) {
            SearchKey::Ignore
        } else {
            SearchKey::Type(c)
        },
        None => SearchKey::Ignore,
    }
}

/// What a key press does while labels are being typed.
#[derive(Debug, PartialEq, Eq)]
pub enum LabelKey {
    /// Leave the overlay.
    Cancel,
    EraseChar,
    Ignore,
    /// The typed text is the label of item `i` (the first with it).
    Pick(usize),
    /// The text typed so far becomes this.
    Typed(String),
}

/// [`LabelKey`] with the text as characters.
pub enum LabelKeyView {
    Cancel,
    EraseChar,
    Ignore,
    Pick(int),
    Typed(Seq<char>),
}

impl View for LabelKey {
    type V = LabelKeyView;

    open spec fn view(&self) -> LabelKeyView {
        match self {
            LabelKey::Cancel => LabelKeyView::Cancel,
            LabelKey::EraseChar => LabelKeyView::EraseChar,
            LabelKey::Ignore => LabelKeyView::Ignore,
            LabelKey::Pick(i) => LabelKeyView::Pick(*i as int),
            LabelKey::Typed(s) => LabelKeyView::Typed(s@),
        }
    }
}

/// The first index of `t` in `labels`.
pub open spec fn position_of(labels: Seq<Seq<char>>, t: Seq<char>) -> Option<int>
    decreases labels.len(),
{
    if labels.len() == 0 {
        None
    } else {
        match position_of(labels.drop_last(), t) {
            Some(i) => Some(i),
            None => if labels.last() == t {
                Some(labels.len() - 1)
            } else {
                None
            },
        }
    }
}

/// Typing into a label overlay: Escape leaves, Backspace erases, chords
/// are ignored, and a character that qualifies (an ASCII letter or digit
/// when `alnum_only`, else any non-control character) is added in ASCII
/// lowercase. A complete label picks its item; text that starts no label
/// is cleared.
pub open spec fn spec_label_key(ks: KeyPress, typed: Seq<char>, labels: Seq<Seq<char>>, alnum_only: bool) -> LabelKeyView {
    let k = ks.key@;
    if k == "escape"@ {
        LabelKeyView::Cancel
    } else if k == "backspace"@ {
        LabelKeyView::EraseChar
    } else if ks.control || ks.alt || ks.platform {
        LabelKeyView::Ignore
    } else {
        match spec_typed_char(ks) {
            None => LabelKeyView::Ignore,
            Some(c) => if (alnum_only && !is_ascii_alnum(c)) || (!alnum_only && is_control_char(c)) {
                LabelKeyView::Ignore
            } else {
                let t = typed.push(ascii_lower(c));
                match position_of(labels, t) {
                    Some(i) => LabelKeyView::Pick(i),
                    None => if exists|j: int| 0 <= j < labels.len() && t.is_prefix_of(#[trigger] labels[j]) {
                        LabelKeyView::Typed(t)
                    } else {
                        LabelKeyView::Typed(Seq::empty())
                    },
                }
            },
        }
    }
}

fn find_label(labels: &Vec<String>, t: &str) -> (r: Option<usize>)
    ensures
        r matches Some(i) ==> position_of(views(labels@), t@) == Some(i as int),
        r is None ==> position_of(views(labels@), t@) is None,
{
    let ghost lv = views(labels@);
    let mut i: usize = 0;
    while i < labels.len()
        invariant
            lv == views(labels@),
            0 <= i <= labels@.len(),
            position_of(lv.take(i as int), t@) is None,
        decreases labels@.len() - i,
    {
        proof {
            assert(lv.take(i + 1).drop_last() =~= lv.take(i as int));
        }
        if str_eq(labels[i].as_str(), t) {
            proof {
                lemma_position_in_prefix(lv, t@, i as int);
            }
            return Some(i);
        }
        i += 1;
    }
    assert(lv.take(labels@.len() as int) =~= lv);
    None
}

proof fn lemma_position_in_prefix(lv: Seq<Seq<char>>, t: Seq<char>, i: int)
    requires
        0 <= i < lv.len(),
        lv[i] == t,
        position_of(lv.take(i), t) is None,
    ensures
        position_of(lv, t) == Some(i),
    decreases lv.len(),
{
    if i < lv.len() - 1 {
        assert(lv.drop_last().take(i) =~= lv.take(i));
        lemma_position_in_prefix(lv.drop_last(), t, i);
    } else {
        assert(lv.drop_last() =~= lv.take(i));
    }
}

fn starts_with(s: &str, p: &str) -> (r: bool)
    ensures
        r == p@.is_prefix_of(s@),
{
    let r = strip_prefix(s, p).is_some();
    proof {
        if p@.len() <= s@.len() {
            assert(p@.is_prefix_of(s@) == (s@.subrange(0, p@.len() as int) == p@));
        }
    }
    r
}

fn any_label_starts_with(labels: &Vec<String>, t: &str) -> (r: bool)
    ensures
        r == exists|j: int| 0 <= j < labels@.len() && t@.is_prefix_of(#[trigger] views(labels@)[j]),
{
    let ghost lv = views(labels@);
    let mut i: usize = 0;
    while i < labels.len()
        invariant
            lv == views(labels@),
            0 <= i <= labels@.len(),
            forall|j: int| 0 <= j < i ==> !t@.is_prefix_of(#[trigger] lv[j]),
        decreases labels@.len() - i,
    {
        if starts_with(labels[i].as_str(), t) {
            assert(t@.is_prefix_of(lv[i as int]));
            return true;
        }
        i += 1;
    }
    false
}

fn label_key(ks: &KeyPress, typed: &str, labels: &Vec<String>, alnum_only: bool) -> (r: LabelKey)
    ensures
        r@ == spec_label_key(*ks, typed@, views(labels@), alnum_only),
{
    let k = ks.key.as_str();
    if str_eq(k, "escape") {
        return LabelKey::Cancel;
    }
    if str_eq(k, "backspace") {
        return LabelKey::EraseChar;
    }
    if ks.control || ks.alt || ks.platform {
        return LabelKey::Ignore;
    }
    let c = match typed_char(ks) {
        Some(c) => c,
        None => {
            return LabelKey::Ignore;
        },
    };
    let ok = if alnum_only {
        ('0' <= c && c <= '9') || ('a' <= c && c <= 'z') || ('A' <= c && c <= 'Z')
    } else {
        !is_control(c)
    };
    if !ok {
        return LabelKey::Ignore;
    }
    let mut t = typed.to_string();
    crate::text::push_char(&mut t, to_ascii_lower(c));
    match find_label(labels, t.as_str()) {
        Some(i) => LabelKey::Pick(i),
        None => if any_label_starts_with(labels, t.as_str()) {
            LabelKey::Typed(t)
        } else {
            LabelKey::Typed(String::new())
        },
    }
}

/// A key press in pane-select, where `typed` is the text so far and the
/// panes are labelled from `alphabet`: letters and digits are typed.
pub fn pane_select_key(ks: &KeyPress, typed: &str, alphabet: &str, pane_count: usize) -> (r: LabelKey)
    ensures
        r@ == spec_label_key(*ks, typed@, labels_for_alphabet(alphabet@, pane_count as nat), true),
{
    let labels = compute_labels_for_alphabet(alphabet, pane_count);
    label_key(ks, typed, &labels, true)
}

pub open spec fn match_labels(m: Seq<HintMatch>) -> Seq<Seq<char>> {
    m.map_values(|h: HintMatch| h.label@)
}

/// A key press in quick-select, where `typed` is the text so far: any
/// printable character is typed; `Pick` names the match to copy.
pub fn quick_select_key(ks: &KeyPress, typed: &str, matches: &Vec<HintMatch>) -> (r: LabelKey)
    ensures
        r@ == spec_label_key(*ks, typed@, match_labels(matches@), false),
{
    let mut labels: Vec<String> = Vec::new();
    let mut i: usize = 0;
    while i < matches.len()
        invariant
            0 <= i <= matches@.len(),
            views(labels@) == match_labels(matches@).take(i as int),
        decreases matches@.len() - i,
    {
        let ghost before = labels@;
        let l = matches[i].label.clone();
        labels.push(l);
        proof {
            assert(match_labels(matches@)[i as int] == l@);
            assert(views(labels@) =~= views(before).push(l@));
            assert(views(labels@) =~= match_labels(matches@).take(i + 1));
        }
        i += 1;
    }
    assert(match_labels(matches@).take(matches@.len() as int) =~= match_labels(matches@));
    label_key(ks, typed, &labels, false)
}

/// What a key press does in copy mode.
#[derive(Debug, Clone, Copy, PartialEq, Eq, Structural)]
pub enum CopyModeKey {
    Ignore,
    Exit,
    CopyAndExit,
    /// The cursor state after the key.
    Move(CopyMode),
}

/// `a - b`, at least zero.
pub open spec fn sat_sub(a: usize, b: usize) -> usize {
    if a >= b {
        (a - b) as usize
    } else {
        0
    }
}

/// `a + b`, at most `max`.
pub open spec fn add_at_most(a: usize, b: usize, max: usize) -> usize {
    if a + b <= max {
        (a + b) as usize
    } else {
        max
    }
}

/// Copy-mode motion on a pane whose last column is `max_x`: `v` toggles
/// visual mode (anchoring at the cursor when it turns on), h/l and the
/// arrows move a cell, k/j a row, `0` and `$` go to the row's ends, `w`
/// and `b` move four cells; other keys leave the state as it is.
pub open spec fn spec_copy_move(mode: CopyMode, k: Seq<char>, max_x: usize) -> CopyMode {
    let p = mode.pos;
    if k == "v"@ {
        CopyMode { visual: !mode.visual, anchor: if !mode.visual { p } else { mode.anchor }, ..mode }
    } else if k == "h"@ || k == "left"@ {
        CopyMode { pos: CellPos { x: sat_sub(p.x, 1), ..p }, ..mode }
    } else if k == "l"@ || k == "right"@ {
        CopyMode { pos: CellPos { x: add_at_most(p.x, 1, max_x), ..p }, ..mode }
    } else if k == "k"@ || k == "up"@ {
        CopyMode { pos: CellPos { y: if p.y > isize::MIN { (p.y - 1) as isize } else { p.y }, ..p }, ..mode }
    } else if k == "j"@ || k == "down"@ {
        CopyMode { pos: CellPos { y: if p.y < isize::MAX { (p.y + 1) as isize } else { p.y }, ..p }, ..mode }
    } else if k == "0"@ {
        CopyMode { pos: CellPos { x: 0, ..p }, ..mode }
    } else if k == "$"@ {
        CopyMode { pos: CellPos { x: max_x, ..p }, ..mode }
    } else if k == "w"@ {
        CopyMode { pos: CellPos { x: add_at_most(p.x, 4, max_x), ..p }, ..mode }
    } else if k == "b"@ {
        CopyMode { pos: CellPos { x: sat_sub(p.x, 4), ..p }, ..mode }
    } else {
        mode
    }
}

/// Copy mode's reading of a key press: chords are ignored; Escape leaves;
/// `y` or Enter copy and leave; with copy mode on and a pane of `cols`
/// columns, other keys move the cursor (see [`spec_copy_move`]).
pub open spec fn spec_copy_mode_key(ks: KeyPress, mode: Option<CopyMode>, cols: Option<usize>) -> CopyModeKey {
    let k = ks.key@;
    if ks.control || ks.alt || ks.platform {
        CopyModeKey::Ignore
    } else if k == "escape"@ {
        CopyModeKey::Exit
    } else if k == "y"@ || k == "enter"@ {
        CopyModeKey::CopyAndExit
    } else {
        match (mode, cols) {
            (Some(m), Some(c)) => CopyModeKey::Move(spec_copy_move(m, k, sat_sub(c, 1))),
            _ => CopyModeKey::Ignore,
        }
    }
}

fn sub_sat(a: usize, b: usize) -> (r: usize)
    ensures
        r == sat_sub(a, b),
{
    if a >= b {
        a - b
    } else {
        0
    }
}

fn add_capped(a: usize, b: usize, max: usize) -> (r: usize)
    ensures
        r == add_at_most(a, b, max),
{
    if a <= max && b <= max - a {
        a + b
    } else {
        max
    }
}

fn copy_move(mode: CopyMode, k: &str, max_x: usize) -> (r: CopyMode)
    ensures
        r == spec_copy_move(mode, k@, max_x),
{
    let p = mode.pos;
    if str_eq(k, "v") {
        let visual = !mode.visual;
        CopyMode {
            visual,
            anchor: if visual {
                p
            } else {
                mode.anchor
            },
            ..mode
        }
    } else if str_eq(k, "h") || str_eq(k, "left") {
        CopyMode { pos: CellPos { x: sub_sat(p.x, 1), ..p }, ..mode }
    } else if str_eq(k, "l") || str_eq(k, "right") {
        CopyMode { pos: CellPos { x: add_capped(p.x, 1, max_x), ..p }, ..mode }
    } else if str_eq(k, "k") || str_eq(k, "up") {
        let y = if p.y > isize::MIN {
            p.y - 1
        } else {
            p.y
        };
        CopyMode { pos: CellPos { y, ..p }, ..mode }
    } else if str_eq(k, "j") || str_eq(k, "down") {
        let y = if p.y < isize::MAX {
            p.y + 1
        } else {
            p.y
        };
        CopyMode { pos: CellPos { y, ..p }, ..mode }
    } else if str_eq(k, "0") {
        CopyMode { pos: CellPos { x: 0, ..p }, ..mode }
    } else if str_eq(k, "$") {
        CopyMode { pos: CellPos { x: max_x, ..p }, ..mode }
    } else if str_eq(k, "w") {
        CopyMode { pos: CellPos { x: add_capped(p.x, 4, max_x), ..p }, ..mode }
    } else if str_eq(k, "b") {
        CopyMode { pos: CellPos { x: sub_sat(p.x, 4), ..p }, ..mode }
    } else {
        mode
    }
}

/// What a key press does in copy mode; `mode` is the copy-mode state and
/// `cols` the width of the live pane, if there is one.
pub fn copy_mode_key(ks: &KeyPress, mode: Option<CopyMode>, cols: Option<usize>) -> (r: CopyModeKey)
    ensures
        r == spec_copy_mode_key(*ks, mode, cols),
{
    if ks.control || ks.alt || ks.platform {
        return CopyModeKey::Ignore;
    }
    let k = ks.key.as_str();
    if str_eq(k, "escape") {
        return CopyModeKey::Exit;
    }
    if str_eq(k, "y") || str_eq(k, "enter") {
        return CopyModeKey::CopyAndExit;
    }
    match (mode, cols) {
        (Some(m), Some(c)) => CopyModeKey::Move(copy_move(m, k, sub_sat(c, 1))),
        _ => CopyModeKey::Ignore,
    }
}

} // verus!
