use dynrpc::editing::find_common_prefix;
use dynrpc::editing::move_cursor_down;
use dynrpc::editing::move_cursor_to_line_end;
use dynrpc::editing::move_cursor_to_line_start;
use dynrpc::editing::move_cursor_up;

const TEXT: &str = "first line\nsecond\nthird one";

#[test]
fn cursor_up_keeps_column() {
    // Cursor at column 3 of "second" (position 11 + 3 = 14).
    let pos = move_cursor_up(TEXT, 14);
    assert_eq!(pos, 3);
}

#[test]
fn cursor_up_clamps_to_shorter_line() {
    // Cursor at column 7 of "third one" (position 18 + 7 = 25); the line
    // above, "second", has only 6 characters.
    let pos = move_cursor_up(TEXT, 25);
    assert_eq!(pos, 17);
}

#[test]
fn cursor_up_on_first_line_goes_to_start() {
    assert_eq!(move_cursor_up(TEXT, 4), 0);
    assert_eq!(move_cursor_up(TEXT, 0), 0);
}

#[test]
fn cursor_down_keeps_column() {
    // Cursor at column 2 of "first line"; "second" starts at 11.
    let pos = move_cursor_down(TEXT, 2);
    assert_eq!(pos, 13);
}

#[test]
fn cursor_down_clamps_to_shorter_line() {
    // Cursor at column 8 of "first line"; "second" has 6 characters.
    let pos = move_cursor_down(TEXT, 8);
    assert_eq!(pos, 17);
}

#[test]
fn cursor_down_on_last_line_goes_to_end() {
    let pos = move_cursor_down(TEXT, 20);
    assert_eq!(pos, TEXT.len());
}

#[test]
fn line_start_and_end() {
    assert_eq!(move_cursor_to_line_start(TEXT, 14), 11);
    assert_eq!(move_cursor_to_line_end(TEXT, 14), 17);
    assert_eq!(move_cursor_to_line_start(TEXT, 4), 0);
    assert_eq!(move_cursor_to_line_end(TEXT, 20), TEXT.len());
}

#[test]
fn common_prefix_of_nothing_is_empty() {
    let strings: Vec<String> = Vec::new();
    assert_eq!(find_common_prefix(&strings), "");
}

#[test]
fn common_prefix_of_one_is_itself() {
    let strings = vec!["alpha".to_string()];
    assert_eq!(find_common_prefix(&strings), "alpha");
}

#[test]
fn common_prefix_of_many() {
    let strings = vec![
        "service.pb".to_string(),
        "service.proto".to_string(),
        "service_old.proto".to_string(),
    ];
    assert_eq!(find_common_prefix(&strings), "service");
}

#[test]
fn common_prefix_when_none_shared() {
    let strings = vec!["abc".to_string(), "xyz".to_string()];
    assert_eq!(find_common_prefix(&strings), "");
}
