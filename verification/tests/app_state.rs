use routecode_ui::chat::{Message, Role};
use routecode_ui::keys::{Effect, KeyCode, KeyInput};
use routecode_ui::mouse::{is_burst, tick_due};
use routecode_ui::state::{ApiKeyInputStage, App, Screen};

fn key(code: KeyCode) -> KeyInput {
    KeyInput { code, ctrl: false, shift: false, alt: false }
}

fn mock_app() -> App {
    App::with_session_stamp("Mock".to_string(), "20240101_000000")
}

fn input_of(app: &mut App, text: &str) {
    app.set_input_text(&text.to_string());
}

#[test]
fn test_app_initialization() {
    let app = App::new("Mock".to_string());
    assert_eq!(app.screen, Screen::Welcome);
    assert!(app.chat.history.is_empty());
    assert_eq!(app.chat.current_model, "gpt-4o");
}

#[test]
fn test_update_filtered_commands() {
    let mut app = App::new("Mock".to_string());
    input_of(&mut app, "/hel");
    app.update_filtered_commands();
    assert!(app.menus.show_menu);
    assert_eq!(app.menus.filtered_commands.len(), 1);
    assert_eq!(app.menus.filtered_commands[0].name, "/help");
}

#[test]
fn test_update_filtered_commands_no_match() {
    let mut app = App::new("Mock".to_string());
    input_of(&mut app, "/nonexistent");
    app.update_filtered_commands();
    assert!(!app.menus.show_menu);
    assert!(app.menus.filtered_commands.is_empty());
}

#[test]
fn test_user_msg_modal_rewind() {
    let mut app = App::new("Mock".to_string());
    app.chat.history.push(Message::user("First message".to_string()));
    app.chat.history.push(Message::assistant(Some("Assistant reply".to_string()), None, None));
    app.chat.history.push(Message::user("Second message".to_string()));
    app.prompts.user_msg_modal = Some(2);
    app.prompts.user_msg_modal_selected = 1;
    let effects = app.handle_key_event(key(KeyCode::Enter), false);
    assert!(!effects.iter().any(|e| matches!(e, Effect::Exit)));
    assert_eq!(app.prompts.user_msg_modal, None);
    assert_eq!(app.chat.history.len(), 2);
    assert_eq!(app.chat.history[0].role, Role::User);
    assert_eq!(app.chat.history[1].role, Role::Assistant);
    assert_eq!(app.input.lines[0], "Second message");
}

#[test]
fn fresh_app_has_stamped_session_and_empty_state() {
    let app = mock_app();
    assert_eq!(app.session_id, "session_20240101_000000");
    assert_eq!(app.chat.provider_name, "Mock");
    assert_eq!(app.chat.current_provider_id, "Mock");
    assert_eq!(app.input.lines, vec![String::new()]);
    assert!(app.scroll.auto_scroll);
    assert_eq!(app.key_dialog.stage, ApiKeyInputStage::Inactive);
    assert!(app.menus.selected.is_none());
}

#[test]
fn new_app_session_id_is_stamped_with_the_time() {
    let app = App::new("Mock".to_string());
    assert!(app.session_id.starts_with("session_"));
    assert_eq!(app.session_id.len(), "session_".len() + 15);
    assert_eq!(&app.session_id[16..17], "_");
    let stamp = &app.session_id["session_".len()..];
    assert!(stamp.chars().enumerate().all(|(i, c)| if i == 8 { c == '_' } else { c.is_ascii_digit() }));
}

#[test]
fn uppercase_input_matches_commands() {
    let mut app = mock_app();
    input_of(&mut app, "/HEL");
    app.update_filtered_commands();
    assert!(app.menus.show_menu);
    assert_eq!(app.menus.selected, Some(0));
    assert_eq!(app.menus.filtered_commands.len(), 1);
    assert_eq!(app.menus.filtered_commands[0].description, "Show help");
}

#[test]
fn slash_alone_lists_all_commands_in_order() {
    let mut app = mock_app();
    input_of(&mut app, "/");
    app.update_filtered_commands();
    let names: Vec<&str> = app.menus.filtered_commands.iter().map(|c| c.name).collect();
    assert_eq!(
        names,
        vec!["/model", "/resume", "/sessions", "/clear", "/thinking", "/help", "/stop", "/provider", "/settings", "/exit"]
    );
}

#[test]
fn prefix_s_matches_two_commands() {
    let mut app = mock_app();
    input_of(&mut app, "/s");
    app.update_filtered_commands();
    let names: Vec<&str> = app.menus.filtered_commands.iter().map(|c| c.name).collect();
    assert_eq!(names, vec!["/sessions", "/stop", "/settings"]);
}

#[test]
fn text_without_slash_hides_the_command_menu() {
    let mut app = mock_app();
    app.menus.show_menu = true;
    input_of(&mut app, "hello");
    app.update_filtered_commands();
    assert!(!app.menus.show_menu);
}

#[test]
fn populate_settings_lists_both_appearance_settings() {
    let mut app = mock_app();
    app.populate_settings("hover".to_string(), "neon".to_string());
    assert_eq!(app.menus.settings_items.len(), 3);
    match &app.menus.settings_items[0] {
        routecode_ui::state::SettingsMenuItem::Header(h) => assert_eq!(h, "Appearance"),
        _ => panic!("header expected"),
    }
    match &app.menus.settings_items[2] {
        routecode_ui::state::SettingsMenuItem::Option { name, val, key } => {
            assert_eq!(name, "Animation Theme");
            assert_eq!(val, "neon");
            assert_eq!(key, "logo_animation_color");
        }
        _ => panic!("option expected"),
    }
}

#[test]
fn set_input_text_splits_lines_and_keeps_one_line_for_empty_text() {
    let mut app = mock_app();
    input_of(&mut app, "héllo\r\nb\n");
    assert_eq!(app.input.lines, vec!["héllo".to_string(), "b".to_string()]);
    assert_eq!((app.input.cursor_row, app.input.cursor_col), (0, 5));
    assert!(app.is_well_formed());
    app.input.cursor_col = 6;
    assert!(!app.is_well_formed());
    app.input.cursor_col = 5;
    input_of(&mut app, "");
    assert_eq!(app.input.lines, vec![String::new()]);
    app.clear_input();
    assert_eq!(app.input.cursor_row, 0);
}

#[test]
fn push_system_adds_a_system_notice() {
    let mut app = mock_app();
    app.push_system("hi".to_string());
    assert_eq!(app.chat.history.len(), 1);
    assert_eq!(app.chat.history[0].role, Role::System);
    assert_eq!(app.chat.history[0].content.as_deref(), Some("hi"));
}

#[test]
fn deleting_to_the_start_keeps_what_follows_the_cursor() {
    let mut app = mock_app();
    app.input.lines = vec!["one".to_string(), "two".to_string()];
    app.input.cursor_row = 0;
    app.input.cursor_col = 1;
    app.delete_to_input_start();
    assert_eq!(app.input.lines, vec!["ne".to_string(), "two".to_string()]);
    app.input.lines = vec!["ab".to_string(), "cd".to_string()];
    app.input.cursor_row = 1;
    app.input.cursor_col = 2;
    app.delete_to_input_start();
    assert_eq!(app.input.lines, vec!["ab".to_string()]);
    app.input.lines = vec!["ab".to_string(), "cé".to_string(), "xéz".to_string(), "q".to_string()];
    app.input.cursor_row = 2;
    app.input.cursor_col = 2;
    app.delete_to_input_start();
    assert_eq!(app.input.lines, vec!["abcéz".to_string(), "q".to_string()]);
    assert_eq!((app.input.cursor_row, app.input.cursor_col), (0, 0));
    app.input.lines = vec!["a".to_string(), "b".to_string(), "c".to_string()];
    app.input.cursor_row = 1;
    app.input.cursor_col = 0;
    app.delete_to_input_start();
    assert_eq!(app.input.lines, vec!["ab".to_string(), "c".to_string()]);
    app.input.cursor_row = 0;
    app.input.cursor_col = 0;
    app.delete_to_input_start();
    assert_eq!(app.input.lines, vec!["ab".to_string(), "c".to_string()]);
}

#[test]
fn loop_checks() {
    assert!(tick_due(1000, 1100));
    assert!(!tick_due(1000, 1099));
    assert!(!tick_due(1000, 50));
    assert!(is_burst(2));
    assert!(!is_burst(1));
    let mut app = mock_app();
    assert!(app.can_tick());
    app.ticker.tick_count = u64::MAX;
    assert!(!app.can_tick());
    assert!(app.input_height_fits());
    app.input.lines = vec![String::new(); 65534];
    assert!(!app.input_height_fits());
}
