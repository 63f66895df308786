use wezterm_gpui::find::{compute_labels_for_alphabet, find_bytes, find_sub, quick_select_alphabet};

#[test]
fn labels_single_chars_first() {
    let l = compute_labels_for_alphabet("asdf", 3);
    assert_eq!(l, vec!["a", "s", "d"]);
}

#[test]
fn find_case() {
    assert_eq!(find_sub("NTUSER.DAT", "NTUSER", 0, true), Some(0));
    assert_eq!(find_sub("NTUSER.DAT", "ntuser", 0, true), None);
    assert_eq!(find_sub("NTUSER.DAT", "ntuser", 0, false), Some(0));
}

#[test]
fn labels_grow_two_part_from_the_last_single() {
    assert_eq!(compute_labels_for_alphabet("ab", 3), vec!["a", "ba", "bb"]);
    assert_eq!(
        compute_labels_for_alphabet("ab", 5),
        vec!["aa", "ab", "ba", "bb"]
    );
    assert_eq!(compute_labels_for_alphabet("AB", 2), vec!["a", "b"]);
    assert_eq!(compute_labels_for_alphabet("", 3), vec!["0", "1", "2"]);
    assert!(compute_labels_for_alphabet("asdf", 0).is_empty());
    assert_eq!(compute_labels_for_alphabet("asdfqwerzxcvjklmiuopghtybn", 30).len(), 30);
}

#[test]
fn find_sub_starts_at_offset_and_counts_bytes() {
    assert_eq!(find_sub("abcabc", "abc", 1, true), Some(3));
    assert_eq!(find_sub("abc", "abc", 4, true), None);
    assert_eq!(find_sub("abc", "", 3, true), Some(3));
    assert_eq!(find_sub("éa", "a", 0, true), Some(2));
    assert_eq!(find_sub("xxÄB", "äb", 0, false), Some(2));
    assert_eq!(find_bytes(b"hello", b"lo"), Some(3));
    assert_eq!(find_bytes(b"hello", b"xyz"), None);
}

#[test]
fn empty_alphabet_falls_back_to_the_default() {
    assert_eq!(quick_select_alphabet(""), "asdfqwerzxcvjklmiuopghtybn");
    assert_eq!(quick_select_alphabet("jk"), "jk");
}

#[test]
fn labels_never_begin_one_another() {
    for n in 0..10 {
        let l = compute_labels_for_alphabet("abc", n);
        for (i, a) in l.iter().enumerate() {
            for (j, b) in l.iter().enumerate() {
                if i != j {
                    assert!(!b.starts_with(a.as_str()), "{a} begins {b}");
                }
            }
        }
    }
    assert_eq!(compute_labels_for_alphabet("abc", 5), vec!["a", "b", "ca", "cb", "cc"]);
}
