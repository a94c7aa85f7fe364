use taobao_order::guide::{check_item_id, check_start_time, parse_yes_no, Guide, ItemIdError, Key};

#[test]
fn chooser_moves_and_wraps() {
    let mut g = Guide::default();
    assert_eq!(g.select_browsers.options, vec!["chrome", "firefox", "edge"]);
    g.process_keypress(Key::Up);
    assert_eq!(g.select_browsers.selected, 2);
    g.process_keypress(Key::Down);
    assert_eq!(g.select_browsers.selected, 0);
    g.process_keypress(Key::Down);
    g.process_keypress(Key::Left);
    g.process_keypress(Key::Right);
    g.process_keypress(Key::Char('q'));
    g.process_keypress(Key::Other);
    assert_eq!(g.select_browsers.selected, 1);
    assert!(!g.should_quit);
    g.process_keypress(Key::Enter);
    assert!(g.should_quit);
    assert_eq!(g.selection(), "firefox");
}

#[test]
fn chooser_interrupted_returns_nothing() {
    let mut g = Guide::default();
    g.process_keypress(Key::Down);
    g.process_keypress(Key::Char('z'));
    assert!(g.should_quit && g.is_interrupted);
    assert_eq!(g.selection(), "");
}

#[test]
fn option_lines_mark_cursor_and_chrome() {
    let mut g = Guide::default();
    assert_eq!(g.select_lines(">"), vec!["> chrome (仅macOS)", "  firefox", "  edge"]);
    g.process_keypress(Key::Up);
    assert_eq!(g.select_lines("\u{25CF}"), vec!["  chrome (仅macOS)", "  firefox", "\u{25CF} edge"]);
}

#[test]
fn yes_no_answers() {
    assert_eq!(parse_yes_no("y\n"), Some(true));
    assert_eq!(parse_yes_no("  n \r\n"), Some(false));
    assert_eq!(parse_yes_no("Y\n"), None);
    assert_eq!(parse_yes_no("yes"), None);
    assert_eq!(parse_yes_no(""), None);
}

#[test]
fn item_id_checks() {
    assert_eq!(check_item_id(" 123456789012 \n").unwrap(), "123456789012");
    assert!(matches!(check_item_id("  \n"), Err(ItemIdError::Empty)));
    assert!(matches!(check_item_id("12345678901a"), Err(ItemIdError::NotNumeric)));
    assert!(matches!(check_item_id("12345"), Err(ItemIdError::WrongLength)));
    // numeric but not ASCII: four characters of three bytes each
    assert!(check_item_id("一二三四").is_err());
    assert!(check_item_id("٣٣٣٣٣٣").is_ok());
    assert_eq!(ItemIdError::Empty.message(), "商品ID不能为空, 重新输入");
    assert_eq!(ItemIdError::NotNumeric.message(), "商品ID只能包含数字, 重新输入");
    assert_eq!(ItemIdError::WrongLength.message(), "商品ID长度应为12位, 重新输入");
}

#[test]
fn start_time_checks() {
    assert_eq!(check_start_time("2024-10-08 20:30:00\n").unwrap(), "2024-10-08 20:30:00");
    assert_eq!(check_start_time("2024-10-08 20:30").unwrap_err(), "ParseError(TooShort)");
    assert_eq!(check_start_time("2024-13-08 20:30:00").unwrap_err(), "ParseError(OutOfRange)");
    assert_eq!(check_start_time("").unwrap_err(), "ParseError(TooShort)");
    assert_eq!(check_start_time("2024-10-08 20:30:00x").unwrap_err(), "ParseError(TooLong)");
}
