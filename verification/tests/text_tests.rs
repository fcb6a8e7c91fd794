use automata::mathutils::u32_decrement_wrap;
use automata::mathutils::u32_increment_wrap;
use automata::text::chars_of;
use automata::text::contains;
use automata::text::contains_char;
use automata::text::contains_ignore_case;
use automata::text::find_from;
use automata::text::join;
use automata::text::replace;
use automata::text::same_text;
use automata::text::split;
use automata::text::trim;
use automata::text::white_space;

fn strings(items: &[&str]) -> Vec<String> {
    items.iter().map(|s| s.to_string()).collect()
}

#[test]
fn increment_steps_forward() {
    assert_eq!(u32_increment_wrap(3, 0, 5), 4);
    assert_eq!(u32_increment_wrap(0, 0, 5), 1);
}

#[test]
fn increment_wraps_at_max() {
    assert_eq!(u32_increment_wrap(5, 0, 5), 0);
    assert_eq!(u32_increment_wrap(u32::MAX, 7, u32::MAX), 7);
    assert_eq!(u32_increment_wrap(0, 0, 0), 0);
}

#[test]
fn decrement_steps_back() {
    assert_eq!(u32_decrement_wrap(3, 0, 5), 2);
    assert_eq!(u32_decrement_wrap(5, 0, 5), 4);
}

#[test]
fn decrement_wraps_at_min() {
    assert_eq!(u32_decrement_wrap(0, 0, 5), 5);
    assert_eq!(u32_decrement_wrap(2, 2, 9), 9);
}

#[test]
fn chars_of_keeps_every_character() {
    assert_eq!(chars_of("añb"), vec!['a', 'ñ', 'b']);
    assert_eq!(chars_of(""), Vec::<char>::new());
}

#[test]
fn same_text_compares_contents() {
    assert!(same_text("km", "km"));
    assert!(!same_text("km", "kg"));
    assert!(!same_text("km", "k"));
    assert!(same_text("", ""));
}

#[test]
fn contains_char_finds_a_character() {
    assert!(contains_char("%u", '%'));
    assert!(contains_char("a@b", '@'));
    assert!(!contains_char("firefox", '%'));
    assert!(!contains_char("", '%'));
}

#[test]
fn find_from_gives_the_first_occurrence() {
    let hay = chars_of("a to b to c");
    let needle = chars_of("to");
    assert_eq!(find_from(&needle, &hay, 0), Some(2));
    assert_eq!(find_from(&needle, &hay, 3), Some(7));
    assert_eq!(find_from(&needle, &hay, 8), None);
    assert_eq!(find_from(&needle, &hay, 100), None);
}

#[test]
fn find_from_with_an_empty_needle() {
    let hay = chars_of("ab");
    let needle = chars_of("");
    assert_eq!(find_from(&needle, &hay, 0), Some(0));
    assert_eq!(find_from(&needle, &hay, 2), Some(2));
    assert_eq!(find_from(&needle, &hay, 3), None);
}

#[test]
fn contains_matches_std() {
    assert!(contains("/home/user/docs", "user"));
    assert!(contains("abc", ""));
    assert!(contains("abc", "abc"));
    assert!(!contains("abc", "abcd"));
    assert!(!contains("abc", "ac"));
}

#[test]
fn contains_ignore_case_folds_both_sides() {
    assert!(contains_ignore_case("Firefox", "FIRE"));
    assert!(contains_ignore_case("FIREFOX", "fire"));
    assert!(contains_ignore_case("Campfire", "fIrE"));
    assert!(!contains_ignore_case("Files", "fire"));
}

#[test]
fn split_cuts_at_each_separator() {
    assert_eq!(split("a b c", " "), strings(&["a", "b", "c"]));
    assert_eq!(split("a  b", " "), strings(&["a", "", "b"]));
    assert_eq!(split(" a ", " "), strings(&["", "a", ""]));
    assert_eq!(split("", " "), strings(&[""]));
    assert_eq!(split("abc", " "), strings(&["abc"]));
}

#[test]
fn split_on_a_word() {
    assert_eq!(split("5 km to mi", "to"), strings(&["5 km ", " mi"]));
    assert_eq!(split("1 m to cm to mm", "to"), strings(&["1 m ", " cm ", " mm"]));
    assert_eq!(split("tototo", "to"), strings(&["", "", "", ""]));
    assert_eq!(split("ttoo", "to"), strings(&["t", "o"]));
}

#[test]
fn split_agrees_with_std() {
    for s in ["", "to", "a to b", "tomato to potato", "x", "tt", "oto"] {
        let expected: Vec<String> = s.split("to").map(|p| p.to_string()).collect();
        assert_eq!(split(s, "to"), expected);
    }
}

#[test]
fn join_puts_the_separator_between() {
    assert_eq!(join(&strings(&["a", "b", "c"]), "+"), "a+b+c");
    assert_eq!(join(&strings(&["a"]), "+"), "a");
    assert_eq!(join(&strings(&[]), "+"), "");
    assert_eq!(join(&strings(&["", ""]), "+"), "+");
}

#[test]
fn replace_agrees_with_std() {
    assert_eq!(replace("rust book pdf", " ", "+"), "rust+book+pdf");
    assert_eq!(replace(" a  b ", " ", "+"), "+a++b+");
    assert_eq!(replace("", " ", "+"), "");
    assert_eq!(replace("aaa", "aa", "b"), "aaa".replace("aa", "b"));
}

#[test]
fn split_with_an_empty_separator_cuts_nowhere() {
    assert_eq!(split("abc", ""), strings(&["abc"]));
    assert_eq!(replace("abc", "", "+"), "abc");
}

#[test]
fn trim_removes_white_space_at_both_ends() {
    assert_eq!(trim("  mi \t"), "mi");
    assert_eq!(trim("mi"), "mi");
    assert_eq!(trim(" a b "), "a b");
    assert_eq!(trim("   "), "");
    assert_eq!(trim(""), "");
    assert_eq!(trim("\u{a0}km\u{3000}\n"), "km");
}

#[test]
fn white_space_agrees_with_std() {
    for code in 0u32..0x11000 {
        if let Some(c) = char::from_u32(code) {
            assert_eq!(white_space(c), c.is_whitespace(), "U+{:04X}", code);
        }
    }
}

#[test]
fn trim_agrees_with_std() {
    for s in ["", " ", "a", " a", "a ", "\t a b \r\n", "\u{2003}x\u{205f}", "x\u{200b}"] {
        assert_eq!(trim(s), s.trim());
    }
}
