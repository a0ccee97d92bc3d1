//! Console editing, history recall and the key-event state machine.

use suzu::console::{console_handle_key, CommandConsoleState, ConsoleKey};
use suzu::session::{ApplicationMode, ApplicationState};

fn type_line(console: &mut CommandConsoleState, app: &mut ApplicationState, line: &str) {
    console_handle_key(console, app, ConsoleKey::Prefix);
    for c in line.chars().skip(1) {
        console_handle_key(console, app, ConsoleKey::Char(c));
    }
    console_handle_key(console, app, ConsoleKey::Enter);
}

fn line_of(console: &CommandConsoleState) -> String {
    console.input().iter().collect()
}

#[test]
fn new_console_holds_the_bare_prefix() {
    let c = CommandConsoleState::new();
    assert_eq!(line_of(&c), ":");
    assert_eq!(c.cursor_position, 1);
    assert!(!c.is_input_error);
}

#[test]
fn typing_a_line_stores_it_as_the_pending_command() {
    let mut console = CommandConsoleState::new();
    let mut app = ApplicationState::new();
    type_line(&mut console, &mut app, ":fft");
    assert_eq!(app.command().as_deref(), Some(":fft"));
    // the console is reset to the bare prefix for the next line
    assert_eq!(line_of(&console), ":");
    assert_eq!(app.mode(), ApplicationMode::Input);
}

#[test]
fn backspace_never_eats_the_prefix() {
    let mut console = CommandConsoleState::new();
    let mut app = ApplicationState::new();
    console_handle_key(&mut console, &mut app, ConsoleKey::Prefix);
    console_handle_key(&mut console, &mut app, ConsoleKey::Char('q'));
    console_handle_key(&mut console, &mut app, ConsoleKey::Backspace);
    assert_eq!(line_of(&console), ":");
    console_handle_key(&mut console, &mut app, ConsoleKey::Backspace);
    assert_eq!(line_of(&console), ":");
}

#[test]
fn cursor_moves_edit_in_the_middle() {
    let mut console = CommandConsoleState::new();
    let mut app = ApplicationState::new();
    console_handle_key(&mut console, &mut app, ConsoleKey::Prefix);
    for c in ['z', 'o'] {
        console_handle_key(&mut console, &mut app, ConsoleKey::Char(c));
    }
    console_handle_key(&mut console, &mut app, ConsoleKey::Left);
    console_handle_key(&mut console, &mut app, ConsoleKey::Char('o'));
    assert_eq!(line_of(&console), ":zoo");
}

#[test]
fn history_recalls_previous_lines() {
    let mut console = CommandConsoleState::new();
    let mut app = ApplicationState::new();
    type_line(&mut console, &mut app, ":fft");
    type_line(&mut console, &mut app, ":hwt");
    console_handle_key(&mut console, &mut app, ConsoleKey::Up);
    assert_eq!(line_of(&console), ":hwt");
    console_handle_key(&mut console, &mut app, ConsoleKey::Up);
    assert_eq!(line_of(&console), ":fft");
}

#[test]
fn escape_returns_to_static_mode() {
    let mut console = CommandConsoleState::new();
    let mut app = ApplicationState::new();
    console_handle_key(&mut console, &mut app, ConsoleKey::Prefix);
    assert_eq!(app.mode(), ApplicationMode::Input);
    console_handle_key(&mut console, &mut app, ConsoleKey::Esc);
    assert_eq!(app.mode(), ApplicationMode::Static);
}

#[test]
fn enter_in_error_mode_clears_the_error_display() {
    let mut console = CommandConsoleState::new();
    let mut app = ApplicationState::new();
    app.set_error(Some(String::from("bad")));
    console.set_error("bad".chars().collect());
    assert!(console.is_input_error);
    console_handle_key(&mut console, &mut app, ConsoleKey::Enter);
    assert!(!console.is_input_error);
    assert_eq!(line_of(&console), ":");
    assert_eq!(app.mode(), ApplicationMode::Input);
    // no command was produced by the error-clearing keystroke
    assert!(app.command().is_none());
}
