use key_dispatch::{Screen, Status};

#[test]
fn new_screen_is_quiet() {
    let screen = Screen::new(24);
    assert_eq!(screen.status(), &Status::Quiet);
    assert_eq!(screen.lines_height(), 24);
}

#[test]
fn prompt_shows_label_and_text() {
    let mut screen = Screen::new(10);
    screen.prompt(&"Save to: ".to_string(), &"notes".to_string());
    assert_eq!(
        screen.status(),
        &Status::Prompt("Save to: ".to_string(), "notes".to_string())
    );
    assert_eq!(screen.lines_height(), 10);
}

#[test]
fn message_replaces_prompt() {
    let mut screen = Screen::new(10);
    screen.prompt(&"Save to: ".to_string(), &"notes".to_string());
    screen.message(&"done".to_string());
    assert_eq!(screen.status(), &Status::Message("done".to_string()));
}

#[test]
fn quiet_clears_message_and_keeps_height() {
    let mut screen = Screen::new(u16::MAX);
    screen.message(&"done".to_string());
    screen.quiet();
    assert_eq!(screen.status(), &Status::Quiet);
    assert_eq!(screen.lines_height(), u16::MAX);
}

#[test]
fn screen_without_lines() {
    let screen = Screen::new(0);
    assert_eq!(screen.lines_height(), 0);
}
