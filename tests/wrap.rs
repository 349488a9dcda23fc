use task_tui::wrap;

#[test]
fn short_string_is_one_fragment() {
    assert_eq!(wrap("Buy milk", 20), vec!["Buy milk".to_string()]);
    assert_eq!(wrap("", 20), vec!["".to_string()]);
}

#[test]
fn long_string_splits_into_margin_sized_pieces() {
    // width 8: pieces of 8 - 3 = 5 characters
    assert_eq!(wrap("abcdefghijkl", 8), vec!["abcde", "fghij", "kl"]);
    assert_eq!(wrap("abcdefgh", 8), vec!["abcde", "fgh"]);
    assert_eq!(wrap("abcdefghij", 8), vec!["abcde", "fghij"]);
}

#[test]
fn wrapping_respects_character_boundaries() {
    let s = "héllo wörld ünïcödé";
    let fs = wrap(s, 6);
    assert_eq!(fs.concat(), s);
    for f in &fs {
        assert!(f.chars().count() <= 3);
    }
    assert_eq!(fs[0], "hél");
}

#[test]
fn fragments_rejoin_to_the_input() {
    let inputs = ["", "a", "one two three four five six seven", "xxxxxxxxxxxxxxxxxxxxxxxxxxxxxxxxxxxxxxxxx"];
    for s in inputs {
        for w in 1..30u16 {
            let fs = wrap(s, w);
            assert!(!fs.is_empty());
            assert_eq!(fs.concat(), s);
        }
    }
}

#[test]
fn narrow_width_gives_single_characters() {
    assert_eq!(wrap("abc", 1), vec!["a", "b", "c"]);
    assert_eq!(wrap("abcd", 3), vec!["a", "b", "c", "d"]);
}
