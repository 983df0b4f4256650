use weatherlog::setup::{confirms, read_answer, settings_text, trimmed, Answer};

#[test]
fn trimmed_drops_the_white_space_around_a_line() {
    assert_eq!(trimmed("  osaka \n"), "osaka");
    assert_eq!(trimmed("osaka"), "osaka");
    assert_eq!(trimmed("\t new york\r\n"), "new york");
    assert_eq!(trimmed(""), "");
    assert_eq!(trimmed(" \t\r\n"), "");
    assert_eq!(trimmed("a"), "a");
    assert_eq!(trimmed(" a"), "a");
    assert_eq!(trimmed("a "), "a");
}

#[test]
fn trimmed_knows_the_white_space_of_unicode() {
    assert_eq!(trimmed("\u{3000}大阪\u{3000}"), "大阪");
    assert_eq!(trimmed("\u{a0}x\u{2003}\u{2028}"), "x");
    assert_eq!(trimmed("\u{85}\u{1680}y\u{202f}\u{205f}\u{2029}"), "y");
    assert_eq!(trimmed("\u{b}\u{c}z\u{2000}\u{200a}"), "z");
    assert_eq!(trimmed("\u{200b}z\u{200b}"), "\u{200b}z\u{200b}");
    assert_eq!(trimmed("\u{180e}z"), "\u{180e}z");
}

#[test]
fn trimmed_agrees_with_the_standard_trim() {
    let mut c: u32 = 0;
    while c <= 0x3100 {
        if let Some(ch) = char::from_u32(c) {
            let line = format!("{}mid dle{}", ch, ch);
            assert_eq!(trimmed(&line), line.trim(), "{:x}", c);
        }
        c += 1;
    }
}

#[test]
fn answers_are_read_by_their_letter() {
    assert_eq!(read_answer("Y"), Answer::Yes);
    assert_eq!(read_answer("y"), Answer::Yes);
    assert_eq!(read_answer("N"), Answer::No);
    assert_eq!(read_answer("n"), Answer::No);
    assert_eq!(read_answer("y\n"), Answer::Yes);
    assert_eq!(read_answer("  N \r\n"), Answer::No);
}

#[test]
fn anything_else_is_no_answer() {
    assert_eq!(read_answer(""), Answer::Unclear);
    assert_eq!(read_answer("\n"), Answer::Unclear);
    assert_eq!(read_answer("yes"), Answer::Unclear);
    assert_eq!(read_answer("no"), Answer::Unclear);
    assert_eq!(read_answer("Y N"), Answer::Unclear);
    assert_eq!(read_answer("x"), Answer::Unclear);
    assert_eq!(read_answer("ｙ"), Answer::Unclear);
}

#[test]
fn settings_are_saved_on_a_yes_only() {
    assert!(confirms("y\n"));
    assert!(confirms("Y"));
    assert!(!confirms("n\n"));
    assert!(!confirms(""));
    assert!(!confirms("yes"));
    assert!(!confirms("ok"));
}

#[test]
fn settings_file_has_three_lines() {
    assert_eq!(
        settings_text("https://example.org/w\n", " abc123 \n", "kyoto\n"),
        "OPEN_WEATHER_URL=https://example.org/w\nAPI_KEY=abc123\nLOCATION_NAME=kyoto"
    );
    assert_eq!(settings_text("", "", ""), "OPEN_WEATHER_URL=\nAPI_KEY=\nLOCATION_NAME=");
}
