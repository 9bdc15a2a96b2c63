use vimrs::commands::{CommandList, CommandType};
use vimrs::editor::Editor;
use vimrs::{App, AppContext, InputEvent, IoError, KeyCode, Mode};

fn fresh_app(text: &str) -> App {
    App::new(80, 24, Editor::from_text(23, 80, text, None))
}

fn key(c: char) -> InputEvent {
    InputEvent::Key(KeyCode::Char(c))
}

#[test]
fn starts_in_normal_mode() {
    let a = fresh_app("");
    assert!(matches!(a.mode, Mode::Normal));
    assert!(!a.close);
    assert_eq!(a.mode.into_string(), "NOR");
}

#[test]
fn colon_enters_command_mode_with_empty_line() {
    let mut a = fresh_app("");
    let r = a.update(key(':'));
    assert_eq!(r, None);
    assert!(matches!(&a.mode, Mode::EnteringCommand(s) if s.is_empty()));
    assert_eq!(a.mode.into_string(), "NOR :");
}

#[test]
fn typing_extends_the_command_line() {
    let mut a = fresh_app("");
    a.update(key(':'));
    a.update(key('x'));
    a.update(key('y'));
    assert_eq!(a.mode.into_string(), "NOR :xy");
}

#[test]
fn escape_discards_the_command_line() {
    let mut a = fresh_app("");
    a.update(key(':'));
    a.update(key('q'));
    let r = a.update(InputEvent::Key(KeyCode::Esc));
    assert_eq!(r, None);
    assert!(matches!(a.mode, Mode::Normal));
}

#[test]
fn submitting_empty_command_resolves_to_save_once() {
    let mut a = fresh_app("some text");
    a.update(key(':'));
    let r = a.update(InputEvent::Key(KeyCode::Enter));
    assert_eq!(r, Some(CommandType::SaveFile));
    assert!(matches!(a.mode, Mode::Normal));
    // the next event asks for nothing again
    let r2 = a.update(key('x'));
    assert_eq!(r2, None);
}

#[test]
fn submitting_unknown_command_resolves_to_no_action() {
    let mut a = fresh_app("");
    a.update(key(':'));
    a.update(key('x'));
    a.update(key('y'));
    a.update(key('z'));
    let r = a.update(InputEvent::Key(KeyCode::Enter));
    assert_eq!(r, Some(CommandType::Unrecognized));
    assert!(matches!(a.mode, Mode::Normal));
}

#[test]
fn i_enters_insert_mode_and_escape_leaves_it() {
    let mut a = fresh_app("");
    a.update(key('i'));
    assert!(matches!(a.mode, Mode::Editing));
    assert_eq!(a.mode.into_string(), "INS");
    a.update(InputEvent::Key(KeyCode::Esc));
    assert!(matches!(a.mode, Mode::Normal));
}

#[test]
fn insert_mode_types_into_the_buffer() {
    let mut a = fresh_app("");
    a.update(key('i'));
    a.update(key('H'));
    a.update(key('e'));
    a.update(key('y'));
    assert!(matches!(a.mode, Mode::Editing));
    assert_eq!(a.editor.current_buffer().as_string(), "Hey");
    assert_eq!(a.editor.cursor_idx(), 3);
}

#[test]
fn enter_is_ignored_in_insert_mode() {
    let mut a = fresh_app("ab");
    a.update(key('i'));
    let r = a.update(InputEvent::Key(KeyCode::Enter));
    assert_eq!(r, None);
    assert!(matches!(a.mode, Mode::Editing));
    assert_eq!(a.editor.current_buffer().as_string(), "ab");
}

#[test]
fn motion_keys_move_the_cursor_in_normal_mode() {
    let mut a = fresh_app("ab\ncd");
    a.update(key('l'));
    assert_eq!(a.editor.cursor_idx(), 1);
    a.update(key('j'));
    assert_eq!(a.editor.get_cursor_line_idx(), 1);
    a.update(key('k'));
    assert_eq!(a.editor.get_cursor_line_idx(), 0);
    a.update(key('h'));
    assert_eq!(a.editor.cursor_idx(), 0);
    assert!(matches!(a.mode, Mode::Normal));
}

#[test]
fn unbound_keys_change_nothing() {
    let mut a = fresh_app("ab");
    let r = a.update(key('q'));
    assert_eq!(r, None);
    assert!(matches!(a.mode, Mode::Normal));
    assert_eq!(a.editor.cursor_idx(), 0);
    let r2 = a.update(InputEvent::Key(KeyCode::Other));
    assert_eq!(r2, None);
    let r3 = a.update(InputEvent::Other);
    assert_eq!(r3, None);
    assert_eq!(a.editor.current_buffer().as_string(), "ab");
}

#[test]
fn resize_in_insert_mode_keeps_cursor_and_mode() {
    let mut a = fresh_app("hello\nworld");
    a.update(key('i'));
    a.update(key('X'));
    let idx = a.editor.cursor_idx();
    let r = a.update(InputEvent::Resize(100, 30));
    assert_eq!(r, None);
    assert!(matches!(a.mode, Mode::Editing));
    assert_eq!(a.editor.cursor_idx(), idx);
    assert_eq!(a.context.get_size(), (100, 30));
    assert_eq!(a.editor.viewport.cols, 100);
    // one terminal row is kept for the status bar
    assert_eq!(a.editor.viewport.rows, 29);
}

#[test]
fn resize_keeps_a_partly_typed_command() {
    let mut a = fresh_app("");
    a.update(key(':'));
    a.update(key('w'));
    a.update(InputEvent::Resize(50, 10));
    assert_eq!(a.mode.into_string(), "NOR :w");
}

#[test]
fn resize_to_zero_rows_is_harmless() {
    let mut a = fresh_app("a\nb\nc");
    let r = a.update(InputEvent::Resize(10, 0));
    assert_eq!(r, None);
    assert_eq!(a.editor.viewport.rows, 0);
    assert_eq!(a.editor.cursor_idx(), 0);
}

#[test]
fn empty_command_list_recognizes_nothing() {
    let c = CommandList::new();
    assert_eq!(c.get_command_type(String::new()), CommandType::Unrecognized);
    assert_eq!(c.get_command_type("w".to_string()), CommandType::Unrecognized);
}

#[test]
fn default_bindings_bind_exactly_the_empty_command() {
    let c = CommandList::new_with_default_bindings();
    assert_eq!(c.get_command_type(String::new()), CommandType::SaveFile);
    assert_eq!(c.get_command_type("xyz".to_string()), CommandType::Unrecognized);
    let e = Editor::new(5, 5);
    assert_eq!(c.execute(String::new(), &e), CommandType::SaveFile);
    assert_eq!(c.execute("w".to_string(), &e), CommandType::Unrecognized);
}

#[test]
fn first_matching_binding_wins() {
    let mut c = CommandList::new();
    c.register("w".to_string(), CommandType::SaveFile);
    c.register("w".to_string(), CommandType::Unrecognized);
    assert_eq!(c.get_command_type("w".to_string()), CommandType::SaveFile);
}

#[test]
fn io_errors_are_distinguishable() {
    assert_ne!(IoError::NotFound, IoError::PermissionDenied);
    assert_ne!(IoError::NotFound, IoError::Other);
    assert_eq!(IoError::NotFound, IoError::NotFound);
}

#[test]
fn status_text_shows_mode_and_cursor_numbers() {
    let mut a = fresh_app("hello\nworld");
    assert_eq!(a.status_text(), " NOR index: 0, x: 0, y: 0, line: 0");
    a.update(key('l'));
    a.update(key('j'));
    assert_eq!(a.status_text(), " NOR index: 7, x: 1, y: 1, line: 1");
    a.update(key(':'));
    a.update(key('w'));
    assert_eq!(a.status_text(), " NOR :w index: 7, x: 1, y: 1, line: 1");
    a.update(InputEvent::Key(KeyCode::Esc));
    a.update(key('i'));
    assert_eq!(a.status_text(), " INS index: 7, x: 1, y: 1, line: 1");
}

#[test]
fn status_text_renders_multi_digit_numbers() {
    let mut a = fresh_app("aaaaaaaaaaaaaaa");
    for _ in 0..12 {
        a.update(key('l'));
    }
    assert_eq!(a.status_text(), " NOR index: 12, x: 12, y: 0, line: 0");
}

#[test]
fn app_context_remembers_the_size() {
    let mut ctx = AppContext { size_x: 3, size_y: 4 };
    assert_eq!(ctx.get_size(), (3, 4));
    ctx.set_size((7, 8));
    assert_eq!(ctx.get_size(), (7, 8));
}
