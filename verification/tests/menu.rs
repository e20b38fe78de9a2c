use file_uploader::menu::{
    choice_from_number, choice_or_default, parse_menu_choice, read_menu_number, CompressionChoice,
};

#[test]
fn menu_entries_select_the_three_levels() {
    assert_eq!(parse_menu_choice("1"), Some(CompressionChoice::Default));
    assert_eq!(parse_menu_choice("2"), Some(CompressionChoice::Fastest));
    assert_eq!(parse_menu_choice("3"), Some(CompressionChoice::Best));
}

#[test]
fn menu_levels_are_flate2_levels() {
    assert_eq!(CompressionChoice::Default.level(), 6);
    assert_eq!(CompressionChoice::Fastest.level(), 1);
    assert_eq!(CompressionChoice::Best.level(), 9);
    assert_eq!(CompressionChoice::Default.level(), flate2::Compression::default().level());
    assert_eq!(CompressionChoice::Fastest.level(), flate2::Compression::fast().level());
    assert_eq!(CompressionChoice::Best.level(), flate2::Compression::best().level());
}

#[test]
fn menu_line_with_newline_and_spaces() {
    assert_eq!(parse_menu_choice("2\n"), Some(CompressionChoice::Fastest));
    assert_eq!(parse_menu_choice("  3  \r\n"), Some(CompressionChoice::Best));
    assert_eq!(parse_menu_choice("\t1"), Some(CompressionChoice::Default));
}

#[test]
fn menu_surrounding_white_space_does_not_matter() {
    for line in ["1", "2", "3", "+2", "7", "x", "", "12a"] {
        let padded = format!(" \t\u{3000}{}\u{2028}\n", line);
        assert_eq!(read_menu_number(&padded), read_menu_number(line));
        assert_eq!(parse_menu_choice(&padded), parse_menu_choice(line));
    }
}

#[test]
fn menu_rejects_other_lines() {
    assert_eq!(parse_menu_choice("4"), None);
    assert_eq!(parse_menu_choice("0"), None);
    assert_eq!(parse_menu_choice("abc"), None);
    assert_eq!(parse_menu_choice(""), None);
    assert_eq!(parse_menu_choice("-1"), None);
    assert_eq!(parse_menu_choice("1 2"), None);
    assert_eq!(parse_menu_choice("4294967296"), None);
}

#[test]
fn menu_number_reads_like_u32_from_str() {
    let lines = [
        "0", "1", "+2", "007", "+", "-", "-0", "-5", "", " ", "12 ", " 12", "1_000", "4294967295",
        "4294967296", "99999999999999999999", "+4294967295", "١", "3\u{a0}", "\u{85}9", "x1",
        "1x", "++1",
    ];
    for line in lines {
        assert_eq!(read_menu_number(line), line.trim().parse::<u32>().ok(), "line {:?}", line);
    }
}

#[test]
fn menu_number_extremes() {
    assert_eq!(read_menu_number("4294967295"), Some(u32::MAX));
    assert_eq!(read_menu_number("4294967296"), None);
    assert_eq!(read_menu_number("\t+007\r\n"), Some(7));
    assert_eq!(read_menu_number("+"), None);
}

#[test]
fn menu_falls_back_to_default() {
    assert_eq!(choice_or_default("x"), (CompressionChoice::Default, false));
    assert_eq!(choice_or_default("9\n"), (CompressionChoice::Default, false));
    assert_eq!(choice_or_default("3\n"), (CompressionChoice::Best, true));
    assert_eq!(choice_or_default("1\n"), (CompressionChoice::Default, true));
}

#[test]
fn menu_numbers_to_entries() {
    assert_eq!(choice_from_number(1), Some(CompressionChoice::Default));
    assert_eq!(choice_from_number(2), Some(CompressionChoice::Fastest));
    assert_eq!(choice_from_number(3), Some(CompressionChoice::Best));
    assert_eq!(choice_from_number(4), None);
    assert_eq!(choice_from_number(u32::MAX), None);
}

#[test]
fn menu_white_space_is_unicode_white_space() {
    for u in 0u32..=0x10FFFF {
        if let Some(c) = char::from_u32(u) {
            let line = format!("{}1{}", c, c);
            let expected = line.trim().parse::<u32>().ok();
            assert_eq!(read_menu_number(&line), expected, "code point {:#x}", u);
        }
    }
}
