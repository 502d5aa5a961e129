use game_similarity::text::{eq_ignore_ascii_case, is_exit_command, is_whitespace_char, trim};

#[test]
fn trim_removes_white_space_at_both_ends() {
    assert_eq!(trim("  The Witcher 3 \n"), "The Witcher 3");
    assert_eq!(trim("\tCeleste 2\r\n"), "Celeste 2");
    assert_eq!(trim("exit\n"), "exit");
}

#[test]
fn trim_keeps_white_space_inside() {
    assert_eq!(trim(" a  b\tc "), "a  b\tc");
}

#[test]
fn trim_of_white_space_only_is_empty() {
    assert_eq!(trim(""), "");
    assert_eq!(trim(" \t\r\n"), "");
    assert_eq!(trim("\u{3000}\u{2028}"), "");
}

#[test]
fn trim_leaves_a_trimmed_line_alone() {
    assert_eq!(trim("Hades"), "Hades");
    assert_eq!(trim("Pok\u{e9}mon"), "Pok\u{e9}mon");
}

#[test]
fn trim_knows_white_space_beyond_ascii() {
    assert_eq!(trim("\u{a0}\u{2003}Gris\u{205f}\u{85}"), "Gris");
    assert_eq!(trim("\u{200b}Gris\u{200b}"), "\u{200b}Gris\u{200b}");
}

#[test]
fn trim_agrees_with_the_standard_library() {
    let lines = [
        "",
        " ",
        "a",
        " a",
        "a ",
        "  a b  ",
        "\n\n",
        "\u{1680}x\u{1680}",
        "\u{180e}x\u{180e}",
        "\u{feff}x",
        "x\u{202f}",
        " \u{e9}t\u{e9} ",
        "\u{b}\u{c}game\u{1c}",
    ];
    for line in lines {
        assert_eq!(trim(line), line.trim());
    }
}

#[test]
fn white_space_is_what_the_standard_library_takes_for_it() {
    for code in 0..=0x10ffffu32 {
        if let Some(c) = char::from_u32(code) {
            assert_eq!(is_whitespace_char(c), c.is_whitespace());
        }
    }
}

#[test]
fn letters_are_equal_whatever_their_case() {
    assert!(eq_ignore_ascii_case("exit", "EXIT"));
    assert!(eq_ignore_ascii_case("Half-Life 2", "half-life 2"));
    assert!(eq_ignore_ascii_case("", ""));
}

#[test]
fn different_texts_are_not_equal() {
    assert!(!eq_ignore_ascii_case("exit", "exit "));
    assert!(!eq_ignore_ascii_case("exit", "exot"));
    assert!(!eq_ignore_ascii_case("exit", "exi"));
    assert!(!eq_ignore_ascii_case("a", "\u{e1}"));
}

#[test]
fn only_ascii_letters_lose_their_case() {
    assert!(!eq_ignore_ascii_case("\u{e9}", "\u{c9}"));
    assert!(!eq_ignore_ascii_case("@", "`"));
    assert!(!eq_ignore_ascii_case("[", "{"));
    assert!(eq_ignore_ascii_case("z", "Z"));
    assert!(eq_ignore_ascii_case("a", "A"));
}

#[test]
fn equality_agrees_with_the_standard_library() {
    let texts = ["exit", "EXIT", "eXiT", "exit ", "", "quit", "\u{e9}xit", "EX1T", "ex1t", "[", "{"];
    for a in texts {
        for b in texts {
            assert_eq!(eq_ignore_ascii_case(a, b), a.eq_ignore_ascii_case(b));
        }
    }
}

#[test]
fn exit_command_in_any_case() {
    assert!(is_exit_command("exit"));
    assert!(is_exit_command("EXIT"));
    assert!(is_exit_command("Exit"));
    assert!(is_exit_command("eXiT"));
}

#[test]
fn other_words_are_no_exit_command() {
    assert!(!is_exit_command(""));
    assert!(!is_exit_command("quit"));
    assert!(!is_exit_command("exit now"));
    assert!(!is_exit_command(" exit"));
    assert!(!is_exit_command("exit\n"));
    assert!(!is_exit_command("Exit Strategy"));
}
