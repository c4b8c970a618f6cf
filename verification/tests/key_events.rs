use routecode_ui::chat::{Message, Role};
use routecode_ui::enter::{next_logo_animation_value, next_logo_color_value};
use routecode_ui::keys::{ConfirmationReply, Effect, KeyCode, KeyInput};
use routecode_ui::state::{ApiKeyInputStage, App, ModelInfo, ModelMenuItem, Screen, SettingsMenuItem};

fn key(code: KeyCode) -> KeyInput {
    KeyInput { code, ctrl: false, shift: false, alt: false }
}

fn ctrl(c: char) -> KeyInput {
    KeyInput { code: KeyCode::Char(c), ctrl: true, shift: false, alt: false }
}

fn mock_app() -> App {
    App::with_session_stamp("Mock".to_string(), "20240101_000000")
}

fn model(name: &str, provider: &str) -> ModelInfo {
    ModelInfo { name: name.to_string(), provider_id: provider.to_string() }
}

fn type_text(app: &mut App, text: &str) {
    app.set_input_text(&text.to_string());
}

fn dialog_text(app: &mut App, text: &str) {
    app.input.api_key_lines = vec![text.to_string()];
}

#[test]
fn modal_enter_on_copy_copies_and_tells() {
    let mut app = mock_app();
    app.chat.history.push(Message::user("hello there".to_string()));
    app.prompts.user_msg_modal = Some(0);
    let effects = app.handle_key_event(key(KeyCode::Enter), false);
    assert_eq!(effects.len(), 1);
    assert!(matches!(&effects[0], Effect::CopyToClipboard(t) if t == "hello there"));
    assert_eq!(app.chat.history.len(), 2);
    assert_eq!(app.chat.history[1].content.as_deref(), Some("Message copied to clipboard!"));
    assert_eq!(app.prompts.user_msg_modal, None);
}

#[test]
fn modal_arrows_switch_actions_and_esc_closes() {
    let mut app = mock_app();
    app.chat.history.push(Message::user("x".to_string()));
    app.prompts.user_msg_modal = Some(0);
    app.handle_key_event(key(KeyCode::Down), false);
    assert_eq!(app.prompts.user_msg_modal_selected, 1);
    app.handle_key_event(key(KeyCode::Char('k')), false);
    assert_eq!(app.prompts.user_msg_modal_selected, 0);
    app.handle_key_event(key(KeyCode::Esc), false);
    assert_eq!(app.prompts.user_msg_modal, None);
    assert_eq!(app.chat.history.len(), 1);
}

#[test]
fn confirmation_answers() {
    let mut app = mock_app();
    app.prompts.command_confirmation = Some(("Run?".to_string(), "ls".to_string()));
    let e = app.handle_key_event(key(KeyCode::Char('Y')), false);
    assert!(matches!(&e[0], Effect::Reply(ConfirmationReply::AllowOnce)));
    assert!(app.prompts.command_confirmation.is_none());

    app.prompts.command_confirmation = Some(("Run?".to_string(), "ls".to_string()));
    let e = app.handle_key_event(key(KeyCode::Char('s')), false);
    assert_eq!(e.len(), 2);
    assert!(matches!(&e[0], Effect::AllowCommandsForSession));
    assert!(matches!(&e[1], Effect::Reply(ConfirmationReply::AllowSession)));

    app.prompts.command_confirmation = Some(("Run?".to_string(), "ls".to_string()));
    let e = app.handle_key_event(key(KeyCode::Char('w')), false);
    assert!(matches!(&e[0], Effect::AllowOutsideAccessForWorkspace));
    assert!(matches!(&e[1], Effect::Reply(ConfirmationReply::AllowWorkspace)));

    app.prompts.command_confirmation = Some(("Run?".to_string(), "ls".to_string()));
    let e = app.handle_key_event(key(KeyCode::Esc), false);
    assert!(matches!(&e[0], Effect::Reply(ConfirmationReply::Deny)));

    app.prompts.command_confirmation = Some(("Run?".to_string(), "ls".to_string()));
    let e = app.handle_key_event(key(KeyCode::Char('x')), false);
    assert!(e.is_empty());
    assert!(app.prompts.command_confirmation.is_some());
}

#[test]
fn confirmation_feedback_is_trimmed_or_cancelled() {
    let mut app = mock_app();
    app.prompts.command_confirmation = Some(("Run?".to_string(), "rm -rf".to_string()));
    let e = app.handle_key_event(key(KeyCode::Char('f')), false);
    assert!(matches!(&e[0], Effect::AskFeedback));
    assert!(app.prompts.inputting_command_feedback);
    let e = app.handle_key_event(key(KeyCode::Char('a')), false);
    assert!(matches!(&e[0], Effect::ForwardKeyToInput));
    app.input.lines = vec!["  make a backup ".to_string(), "first\t".to_string()];
    let e = app.handle_key_event(key(KeyCode::Enter), false);
    assert!(matches!(&e[0], Effect::ClearFeedbackInput));
    assert!(matches!(&e[1], Effect::Reply(ConfirmationReply::Feedback(t)) if t == "make a backup \nfirst"));
    assert!(!app.prompts.inputting_command_feedback);
    assert!(app.prompts.command_confirmation.is_none());

    assert_eq!(app.input.lines, vec!["  make a backup ".to_string(), "first\t".to_string()]);

    app.prompts.command_confirmation = Some(("Run?".to_string(), "x".to_string()));
    app.prompts.inputting_command_feedback = true;
    app.input.lines = vec![" \u{3000} ".to_string()];
    app.input.cursor_row = 0;
    app.input.cursor_col = 3;
    let e = app.handle_key_event(key(KeyCode::Enter), false);
    assert!(matches!(&e[1], Effect::Reply(ConfirmationReply::Feedback(t)) if t == "Command cancelled."));
    assert_eq!(app.input.lines, vec![String::new()]);
    assert_eq!((app.input.cursor_row, app.input.cursor_col), (0, 0));
}

#[test]
fn feedback_esc_deletes_what_lies_before_the_cursor() {
    let mut app = mock_app();
    app.prompts.command_confirmation = Some(("Run?".to_string(), "x".to_string()));
    app.prompts.inputting_command_feedback = true;
    app.input.lines = vec!["ab".to_string(), "cdef".to_string(), "gh".to_string()];
    app.input.cursor_row = 1;
    app.input.cursor_col = 2;
    let e = app.handle_key_event(key(KeyCode::Esc), false);
    assert!(matches!(&e[0], Effect::ClearFeedbackInput));
    assert!(!app.prompts.inputting_command_feedback);
    assert!(app.prompts.command_confirmation.is_some());
    assert_eq!(app.input.lines, vec!["abef".to_string(), "gh".to_string()]);
    assert_eq!((app.input.cursor_row, app.input.cursor_col), (0, 0));
}

#[test]
fn clear_question_yes_clears_and_no_keeps() {
    let mut app = mock_app();
    app.chat.history.push(Message::user("x".to_string()));
    app.screen = Screen::Session;
    app.scroll.history_scroll = 9;
    app.prompts.pending_clear = true;
    app.handle_key_event(key(KeyCode::Char('n')), false);
    assert!(!app.prompts.pending_clear);
    assert_eq!(app.chat.history.len(), 1);
    app.prompts.pending_clear = true;
    app.handle_key_event(key(KeyCode::Enter), false);
    assert!(app.chat.history.is_empty());
    assert_eq!(app.screen, Screen::Welcome);
    assert_eq!(app.scroll.history_scroll, 0);
}

#[test]
fn exit_question_saves_a_non_empty_chat() {
    let mut app = mock_app();
    app.prompts.pending_exit = true;
    let e = app.handle_key_event(key(KeyCode::Char('y')), false);
    assert_eq!(e.len(), 1);
    assert!(matches!(&e[0], Effect::Exit));
    app.chat.history.push(Message::user("x".to_string()));
    let e = app.handle_key_event(key(KeyCode::Enter), false);
    assert_eq!(e.len(), 2);
    assert!(matches!(&e[0], Effect::SaveSession));
    assert!(matches!(&e[1], Effect::Exit));
    app.handle_key_event(key(KeyCode::Esc), false);
    assert!(!app.prompts.pending_exit);
}

#[test]
fn control_shortcuts() {
    let mut app = mock_app();
    type_text(&mut app, "/mo");
    app.handle_key_event(ctrl('p'), false);
    assert!(app.menus.show_menu);
    assert_eq!(app.menus.filtered_commands.len(), 1);

    app.menus.show_model_menu = true;
    app.menus.selected = Some(4);
    app.handle_key_event(ctrl('a'), false);
    assert!(app.menus.show_provider_menu && !app.menus.show_model_menu);
    assert_eq!(app.menus.selected, Some(0));

    app.chat.is_generating = true;
    app.chat.has_task = true;
    app.chat.active_tool = Some("grep".to_string());
    let e = app.handle_key_event(ctrl('c'), false);
    assert!(matches!(&e[0], Effect::AbortGeneration));
    assert!(!app.chat.is_generating && app.chat.active_tool.is_none() && !app.chat.has_task);

    app.chat.history.push(Message::user("x".to_string()));
    app.screen = Screen::Session;
    app.handle_key_event(ctrl('l'), false);
    assert!(app.chat.history.is_empty());
    assert_eq!(app.screen, Screen::Welcome);

    app.handle_key_event(ctrl('t'), false);
    assert!(!app.scroll.auto_scroll);
    assert_eq!(app.chat.history[0].content.as_deref(), Some("Auto-scroll disabled"));
    app.handle_key_event(ctrl('t'), false);
    assert_eq!(app.chat.history[1].content.as_deref(), Some("Auto-scroll enabled"));

    app.handle_key_event(ctrl('o'), false);
    assert!(app.thinking.collapse);

    app.scroll.max_scroll = 40;
    app.scroll.auto_scroll = false;
    app.handle_key_event(key(KeyCode::End), false);
    assert_eq!(app.scroll.history_scroll, 40);
    assert!(app.scroll.auto_scroll);
}

#[test]
fn enter_breaks_lines_in_bursts_after_backslash_and_with_shift() {
    let mut app = mock_app();
    type_text(&mut app, "hello");
    let e = app.handle_key_event(key(KeyCode::Enter), true);
    assert!(e.len() == 1 && matches!(&e[0], Effect::InsertNewline));
    let e = app.handle_key_event(KeyInput { code: KeyCode::Enter, ctrl: false, shift: true, alt: false }, false);
    assert!(e.len() == 1 && matches!(&e[0], Effect::InsertNewline));
    type_text(&mut app, "line\\");
    let e = app.handle_key_event(key(KeyCode::Enter), false);
    assert_eq!(e.len(), 3);
    assert!(matches!(&e[0], Effect::DeleteChar));
    assert!(matches!(&e[2], Effect::InsertNewline));
    assert!(app.chat.history.is_empty());
}

#[test]
fn enter_sends_the_prompt() {
    let mut app = mock_app();
    app.input.lines = vec!["hello".to_string(), "world".to_string()];
    app.input.cursor_row = 1;
    let e = app.handle_key_event(key(KeyCode::Enter), false);
    assert_eq!(e.len(), 2);
    assert!(matches!(&e[0], Effect::StartGeneration));
    assert!(matches!(&e[1], Effect::ClearInput));
    assert_eq!(app.chat.history.len(), 1);
    assert_eq!(app.chat.history[0].role, Role::User);
    assert_eq!(app.chat.history[0].content.as_deref(), Some("hello\nworld"));
    assert_eq!(app.input.prompt_history, vec!["hello\nworld".to_string()]);
    assert_eq!(app.screen, Screen::Session);
    assert!(app.chat.is_generating && app.chat.has_task);
    assert_eq!(app.input.lines, vec![String::new()]);
}

#[test]
fn enter_runs_slash_text_as_a_command_and_ignores_blank_text() {
    let mut app = mock_app();
    type_text(&mut app, "/clear now");
    let e = app.handle_key_event(key(KeyCode::Enter), false);
    assert!(matches!(&e[0], Effect::RunCommand(c) if c == "/clear now"));
    assert!(matches!(&e[1], Effect::ClearInput));
    assert!(app.chat.history.is_empty());
    type_text(&mut app, "   ");
    let e = app.handle_key_event(key(KeyCode::Enter), false);
    assert!(e.is_empty());
    assert_eq!(app.input.lines, vec!["   ".to_string()]);
}

#[test]
fn enter_in_command_menu_runs_the_selected_command() {
    let mut app = mock_app();
    type_text(&mut app, "/se");
    app.update_filtered_commands();
    app.menus.selected = Some(1);
    let e = app.handle_key_event(key(KeyCode::Enter), false);
    assert!(matches!(&e[0], Effect::ClearInput));
    assert!(matches!(&e[1], Effect::RunCommand(c) if c == "/settings"));
    assert!(!app.menus.show_menu);
}

#[test]
fn enter_in_provider_menu_opens_the_key_dialog() {
    let mut app = mock_app();
    app.menus.show_provider_menu = true;
    app.menus.selected = Some(4);
    let e = app.handle_key_event(key(KeyCode::Enter), false);
    assert!(matches!(&e[0], Effect::ClearApiKeyInput));
    assert!(app.key_dialog.active);
    assert_eq!(app.key_dialog.pending_provider_id.as_deref(), Some("openai"));
    assert_eq!(app.key_dialog.stage, ApiKeyInputStage::ApiKey);
    assert!(!app.menus.show_provider_menu);

    dialog_text(&mut app, "  sk-123 ");
    let e = app.handle_key_event(key(KeyCode::Enter), false);
    assert!(matches!(&e[0], Effect::SaveApiKey(p, k) if p == "openai" && k == "sk-123"));
    assert!(!app.key_dialog.active);
    assert_eq!(app.key_dialog.stage, ApiKeyInputStage::Inactive);
    assert_eq!(app.chat.history[0].content.as_deref(), Some("API Key saved for openai"));
}

#[test]
fn cloudflare_gateway_dialog_asks_three_values() {
    let mut app = mock_app();
    app.menus.show_provider_menu = true;
    app.menus.selected = Some(9);
    app.handle_key_event(key(KeyCode::Enter), false);
    assert_eq!(app.key_dialog.stage, ApiKeyInputStage::CloudflareAccountId);
    dialog_text(&mut app, "acct");
    app.handle_key_event(key(KeyCode::Enter), false);
    assert_eq!(app.key_dialog.stage, ApiKeyInputStage::CloudflareGatewayId);
    assert_eq!(app.input.api_key_lines, vec![String::new()]);
    dialog_text(&mut app, "gw");
    app.handle_key_event(key(KeyCode::Enter), false);
    assert_eq!(app.key_dialog.stage, ApiKeyInputStage::CloudflareApiKey);
    dialog_text(&mut app, "key");
    let e = app.handle_key_event(key(KeyCode::Enter), false);
    assert!(matches!(&e[0], Effect::SaveApiKey(p, k) if p == "cloudflare-gateway" && k == "acct:gw:key"));
    assert_eq!(app.chat.history[0].content.as_deref(), Some("Credentials saved for cloudflare-gateway"));
    assert!(app.key_dialog.pending_account_id.is_none() && app.key_dialog.pending_gateway_id.is_none());
}

#[test]
fn cloudflare_workers_dialog_skips_the_gateway() {
    let mut app = mock_app();
    app.menus.show_provider_menu = true;
    app.menus.selected = Some(8);
    app.handle_key_event(key(KeyCode::Enter), false);
    dialog_text(&mut app, "acct");
    app.handle_key_event(key(KeyCode::Enter), false);
    assert_eq!(app.key_dialog.stage, ApiKeyInputStage::CloudflareApiKey);
    dialog_text(&mut app, "key");
    let e = app.handle_key_event(key(KeyCode::Enter), false);
    assert!(matches!(&e[0], Effect::SaveApiKey(p, k) if p == "cloudflare-workers" && k == "acct:key"));
}

#[test]
fn empty_key_closes_the_dialog_and_esc_forgets_ids() {
    let mut app = mock_app();
    app.key_dialog.active = true;
    app.key_dialog.stage = ApiKeyInputStage::ApiKey;
    app.key_dialog.pending_provider_id = Some("openai".to_string());
    dialog_text(&mut app, "  ");
    let e = app.handle_key_event(key(KeyCode::Enter), false);
    assert!(e.is_empty());
    assert!(!app.key_dialog.active);
    assert_eq!(app.key_dialog.pending_provider_id.as_deref(), Some("openai"));

    app.key_dialog.active = true;
    app.key_dialog.stage = ApiKeyInputStage::CloudflareApiKey;
    app.key_dialog.pending_account_id = Some("a".to_string());
    app.handle_key_event(key(KeyCode::Esc), false);
    assert!(!app.key_dialog.active);
    assert!(app.key_dialog.pending_account_id.is_none());
    assert_eq!(app.key_dialog.stage, ApiKeyInputStage::Inactive);
}

#[test]
fn enter_in_settings_menu_steps_the_setting() {
    let mut app = mock_app();
    app.populate_settings("always".to_string(), "sunset".to_string());
    app.menus.show_settings_menu = true;
    app.menus.selected = Some(1);
    let e = app.handle_key_event(key(KeyCode::Enter), false);
    assert!(matches!(&e[0], Effect::SetLogoAnimation(v) if v == "hover"));
    app.menus.selected = Some(2);
    let e = app.handle_key_event(key(KeyCode::Enter), false);
    assert!(matches!(&e[0], Effect::SetLogoAnimationColor(v) if v == "mono"));
    app.menus.selected = Some(0);
    let e = app.handle_key_event(key(KeyCode::Enter), false);
    assert!(e.is_empty());
}

#[test]
fn settings_values_cycle() {
    let mut v = "always".to_string();
    for expected in ["hover", "click", "always"] {
        v = next_logo_animation_value(&v);
        assert_eq!(v, expected);
    }
    assert_eq!(next_logo_animation_value(&"odd".to_string()), "always");
    let mut c = "rainbow".to_string();
    for expected in ["neon", "cyberpunk", "sunset", "mono", "rainbow"] {
        c = next_logo_color_value(&c);
        assert_eq!(c, expected);
    }
    assert_eq!(next_logo_color_value(&"odd".to_string()), "rainbow");
}

fn model_menu_app() -> App {
    let mut app = mock_app();
    app.menus.show_model_menu = true;
    app.menus.filtered_models = vec![
        ModelMenuItem::Header("Favorites".to_string()),
        ModelMenuItem::Model(model("a", "openai")),
        ModelMenuItem::Model(model("b", "openai")),
        ModelMenuItem::Header("OpenRouter".to_string()),
        ModelMenuItem::Model(model("c", "openrouter")),
    ];
    app.menus.selected = Some(1);
    app
}

#[test]
fn model_menu_moves_skip_headers() {
    let mut app = model_menu_app();
    app.handle_key_event(key(KeyCode::Up), false);
    assert_eq!(app.menus.selected, Some(4));
    app.handle_key_event(key(KeyCode::Down), false);
    assert_eq!(app.menus.selected, Some(1));
    app.handle_key_event(key(KeyCode::Down), false);
    app.handle_key_event(key(KeyCode::Down), false);
    assert_eq!(app.menus.selected, Some(4));
}

#[test]
fn model_menu_jumps_between_sections() {
    let mut app = model_menu_app();
    app.handle_key_event(key(KeyCode::Right), false);
    assert_eq!(app.menus.selected, Some(4));
    app.handle_key_event(key(KeyCode::Right), false);
    assert_eq!(app.menus.selected, Some(1));
    app.handle_key_event(key(KeyCode::Left), false);
    assert_eq!(app.menus.selected, Some(4));
}

#[test]
fn model_menu_enter_and_favourite_ask_for_the_model() {
    let mut app = model_menu_app();
    app.menus.selected = Some(2);
    let e = app.handle_key_event(key(KeyCode::Enter), false);
    assert!(matches!(&e[0], Effect::SwitchModel(m) if m.name == "b" && m.provider_id == "openai"));
    let e = app.handle_key_event(ctrl('f'), false);
    assert!(matches!(&e[0], Effect::ToggleFavorite(m) if m.name == "b"));
    app.menus.selected = Some(0);
    assert!(app.handle_key_event(key(KeyCode::Enter), false).is_empty());
    let e = app.handle_key_event(key(KeyCode::Char('x')), false);
    assert!(matches!(&e[0], Effect::ForwardKeyToModelSearch));
}

#[test]
fn other_keys_go_to_the_box_in_use() {
    let mut app = mock_app();
    let e = app.handle_key_event(key(KeyCode::Char('x')), false);
    assert_eq!(e.len(), 2);
    assert!(matches!(&e[0], Effect::ForwardKeyToInput));
    assert!(matches!(&e[1], Effect::RefreshCommandMenu));
    app.key_dialog.active = true;
    let e = app.handle_key_event(key(KeyCode::Other), false);
    assert!(matches!(&e[0], Effect::ForwardKeyToApiKeyInput));
}

#[test]
fn esc_closes_menus_stops_generation_then_asks_to_leave() {
    let mut app = mock_app();
    app.menus.show_menu = true;
    app.menus.show_settings_menu = true;
    app.handle_key_event(key(KeyCode::Esc), false);
    assert!(!app.menus.show_menu && app.menus.show_settings_menu);
    app.handle_key_event(key(KeyCode::Esc), false);
    assert!(!app.menus.show_settings_menu);
    app.chat.is_generating = true;
    let e = app.handle_key_event(key(KeyCode::Esc), false);
    assert!(e.is_empty());
    assert!(!app.chat.is_generating);
    app.handle_key_event(key(KeyCode::Esc), false);
    assert!(app.prompts.pending_exit);
}

#[test]
fn up_and_down_scroll_the_chat_outside_menus() {
    let mut app = mock_app();
    app.scroll.history_scroll = 20;
    app.scroll.max_scroll = 40;
    app.handle_key_event(key(KeyCode::Up), false);
    assert_eq!(app.scroll.history_scroll, 5);
    assert!(!app.scroll.auto_scroll);
    app.handle_key_event(key(KeyCode::Up), false);
    assert_eq!(app.scroll.history_scroll, 0);
    app.handle_key_event(key(KeyCode::Down), false);
    app.handle_key_event(key(KeyCode::Down), false);
    assert_eq!(app.scroll.history_scroll, 30);
    assert!(!app.scroll.auto_scroll);
    app.handle_key_event(key(KeyCode::Down), false);
    assert_eq!(app.scroll.history_scroll, 45);
    assert!(app.scroll.auto_scroll);
    type_text(&mut app, "typing");
    app.scroll.history_scroll = 0;
    let e = app.handle_key_event(key(KeyCode::Up), false);
    assert!(matches!(&e[0], Effect::ForwardKeyToInput));
}

#[test]
fn sent_prompts_come_back_with_control_up_and_go_with_control_down() {
    let mut app = mock_app();
    type_text(&mut app, "first");
    app.handle_key_event(key(KeyCode::Enter), false);
    type_text(&mut app, "second");
    app.handle_key_event(key(KeyCode::Enter), false);
    let up = KeyInput { code: KeyCode::Up, ctrl: true, shift: false, alt: false };
    let down = KeyInput { code: KeyCode::Down, ctrl: true, shift: false, alt: false };
    let e = app.handle_key_event(up, false);
    assert!(matches!(&e[0], Effect::SetInput(t) if t == "second"));
    assert_eq!(app.input.prompt_history_index, Some(1));
    assert_eq!(app.input.lines, vec!["second".to_string()]);
    let e = app.handle_key_event(down, false);
    assert!(matches!(&e[0], Effect::ClearInput));
    assert_eq!(app.input.prompt_history_index, None);
    assert_eq!(app.input.lines, vec![String::new()]);
    app.input.prompt_history_index = Some(1);
    app.set_input_text(&"second".to_string());
    let e = app.handle_key_event(up, false);
    assert!(e.is_empty());
}

#[test]
fn model_switch_completes_with_or_without_a_key() {
    let mut app = model_menu_app();
    app.finish_model_switch(model("gpt-x", "openai"), false, None);
    assert_eq!(app.chat.history[0].content.as_deref(), Some("Error: No API key for openai"));
    assert!(app.menus.show_model_menu);
    assert!(app.changes_provider_to(&"openai".to_string()));
    assert!(!app.changes_provider_to(&"mock".to_string()));
    app.finish_model_switch(model("gpt-x", "openai"), true, Some("OpenAI".to_string()));
    assert_eq!(app.chat.current_model, "gpt-x");
    assert_eq!(app.chat.provider_name, "OpenAI");
    assert_eq!(app.chat.current_provider_id, "openai");
    assert_eq!(app.chat.history[1].content.as_deref(), Some("Switched to gpt-x on OpenAI"));
    assert!(!app.menus.show_model_menu);
    app.note_favorite(&"gpt-x".to_string(), true);
    assert_eq!(app.chat.history[2].content.as_deref(), Some("Added gpt-x to favorites"));
    app.note_favorite(&"gpt-x".to_string(), false);
    assert_eq!(app.chat.history[3].content.as_deref(), Some("Removed gpt-x from favorites"));
}

#[test]
fn settings_headers_are_skipped_in_the_settings_menu() {
    let mut app = mock_app();
    app.populate_settings("always".to_string(), "neon".to_string());
    app.menus.show_settings_menu = true;
    app.menus.selected = Some(1);
    app.handle_key_event(key(KeyCode::Up), false);
    assert_eq!(app.menus.selected, Some(2));
    match &app.menus.settings_items[0] {
        SettingsMenuItem::Header(_) => {}
        _ => panic!("header expected"),
    }
}
