use routecode_ui::chat::Message;
use routecode_ui::frame::{confirmation_dialog, message_dialog, push_decimal, question, thinking_tag, Overlay};
use routecode_ui::keys::Effect;
use routecode_ui::layout::{compute_message_hover, compute_thinking_hover, hover_wrap, line_width, rows_of};
use routecode_ui::mouse::{MouseInput, MouseKind};
use routecode_ui::render::measure_chat;
use routecode_ui::state::{App, ModelInfo, ModelMenuItem, Screen};
use routecode_ui::style::{Color, Line, Span, SpanStyle};

fn mock_app() -> App {
    App::with_session_stamp("Mock".to_string(), "20240101_000000")
}

fn ev(kind: MouseKind, row: u16, col: u16) -> MouseInput {
    MouseInput { kind, row, col }
}

fn model(name: &str) -> ModelInfo {
    ModelInfo { name: name.to_string(), provider_id: "p".to_string() }
}

#[test]
fn every_event_is_counted_and_placed() {
    let mut app = mock_app();
    app.handle_mouse_event(ev(MouseKind::Moved, 3, 4), None, 0);
    assert_eq!(app.pointer.events_count, 1);
    assert_eq!(app.pointer.row, Some(3));
    assert_eq!(app.pointer.col, Some(4));
    assert!(app.pointer.moved);
}

#[test]
fn message_dialog_clicks_copy_rewind_and_close() {
    let mut app = mock_app();
    app.chat.history.push(Message::user("one".to_string()));
    app.chat.history.push(Message::user("two".to_string()));
    app.prompts.user_msg_modal = Some(1);
    let e = app.handle_mouse_event(ev(MouseKind::LeftUp, 13, 40), Some((100, 30)), 0);
    assert!(matches!(&e[0], Effect::CopyToClipboard(t) if t == "two"));
    assert_eq!(app.prompts.user_msg_modal, None);
    assert_eq!(app.chat.history.len(), 3);

    app.prompts.user_msg_modal = Some(1);
    let e = app.handle_mouse_event(ev(MouseKind::LeftUp, 14, 40), Some((100, 30)), 0);
    assert!(matches!(&e[0], Effect::SetInput(t) if t == "two"));
    assert_eq!(app.chat.history.len(), 1);
    assert_eq!(app.prompts.user_msg_modal_selected, 1);
    assert_eq!(app.input.lines, vec!["two".to_string()]);

    app.prompts.user_msg_modal = Some(0);
    let e = app.handle_mouse_event(ev(MouseKind::LeftUp, 0, 0), Some((100, 30)), 0);
    assert!(e.is_empty());
    assert_eq!(app.prompts.user_msg_modal, Some(0));
    app.handle_mouse_event(ev(MouseKind::LeftDown, 0, 0), Some((100, 30)), 0);
    assert_eq!(app.prompts.user_msg_modal, None);
}

#[test]
fn wheel_scrolls_the_chat_and_back() {
    let mut app = mock_app();
    app.scroll.history_scroll = 20;
    app.scroll.max_scroll = 100;
    app.handle_mouse_event(ev(MouseKind::ScrollUp, 0, 0), None, 0);
    assert_eq!(app.scroll.history_scroll, 5);
    assert!(!app.scroll.auto_scroll);
    app.handle_mouse_event(ev(MouseKind::ScrollDown, 0, 0), None, 0);
    assert_eq!(app.scroll.history_scroll, 20);
    assert!(!app.scroll.auto_scroll);
}

#[test]
fn wheel_moves_the_model_menu_selection_over_headers() {
    let mut app = mock_app();
    app.menus.show_model_menu = true;
    app.menus.filtered_models = vec![
        ModelMenuItem::Header("A".to_string()),
        ModelMenuItem::Model(model("a")),
        ModelMenuItem::Model(model("b")),
        ModelMenuItem::Header("B".to_string()),
        ModelMenuItem::Model(model("c")),
    ];
    app.menus.selected = Some(4);
    app.handle_mouse_event(ev(MouseKind::ScrollUp, 0, 0), None, 0);
    assert_eq!(app.menus.selected, Some(1));
    app.handle_mouse_event(ev(MouseKind::ScrollDown, 0, 0), None, 0);
    assert_eq!(app.menus.selected, Some(4));
    app.menus.selected = Some(3);
    app.handle_mouse_event(ev(MouseKind::ScrollUp, 0, 0), None, 0);
    assert_eq!(app.menus.selected, Some(0));
}

#[test]
fn menu_clicks_close_or_choose_settings() {
    let mut app = mock_app();
    app.menus.show_menu = true;
    app.handle_mouse_event(ev(MouseKind::LeftDown, 0, 0), Some((100, 30)), 0);
    assert!(!app.menus.show_menu);

    app.populate_settings("hover".to_string(), "neon".to_string());
    app.menus.show_settings_menu = true;
    let e = app.handle_mouse_event(ev(MouseKind::LeftUp, 13, 30), Some((100, 30)), 0);
    assert!(matches!(&e[0], Effect::SetLogoAnimation(v) if v == "click"));
    assert!(app.menus.show_settings_menu);
    app.handle_mouse_event(ev(MouseKind::LeftUp, 11, 75), Some((100, 30)), 0);
    assert!(!app.menus.show_settings_menu);
}

#[test]
fn pressing_the_logo_animates_it() {
    let mut app = mock_app();
    app.handle_mouse_event(ev(MouseKind::LeftDown, 5, 10), Some((80, 30)), 0);
    assert_eq!(app.ticker.logo_anim_frames, 0);
    app.handle_mouse_event(ev(MouseKind::LeftDown, 12, 10), Some((80, 30)), 0);
    assert_eq!(app.ticker.logo_anim_frames, 20);
    app.on_tick(100);
    assert_eq!(app.ticker.logo_anim_frames, 19);
    assert_eq!(app.ticker.tick_count, 1);
}

fn thinking_app() -> App {
    let mut app = mock_app();
    app.screen = Screen::Session;
    app.chat.history.push(Message::assistant(Some("answer".to_string()), Some("think".to_string()), None));
    app
}

#[test]
fn double_click_folds_thoughts_with_a_cooldown() {
    let mut app = thinking_app();
    app.pointer.last_click_up = Some((1000, 10, 5));
    app.handle_mouse_event(ev(MouseKind::LeftDown, 6, 12), Some((80, 24)), 1200);
    assert!(app.thinking.collapse);
    assert_eq!(app.pointer.last_toggle_time, Some(1200));
    assert!(app.pointer.last_click_up.is_none());
    app.pointer.last_click_up = Some((1250, 12, 6));
    app.handle_mouse_event(ev(MouseKind::LeftDown, 6, 12), Some((80, 24)), 1300);
    assert!(app.thinking.collapse);
}

#[test]
fn holding_a_press_on_a_thought_unfolds_it() {
    let mut app = thinking_app();
    app.thinking.hover_rendered = true;
    app.thinking.collapse = true;
    assert!(!compute_thinking_hover(&app, 80, 24));
    app.handle_mouse_event(ev(MouseKind::LeftDown, 2, 5), Some((80, 24)), 500);
    assert_eq!(app.pointer.mouse_down_start, Some((500, 5, 2)));
    app.on_tick(800);
    assert!(!app.thinking.temp_expand);
    app.on_tick(900);
    assert!(app.thinking.temp_expand);
    app.handle_mouse_event(ev(MouseKind::LeftUp, 10, 5), Some((80, 24)), 950);
    assert!(!app.thinking.temp_expand);
    assert!(app.pointer.mouse_down_start.is_none());
}

#[test]
fn releasing_on_a_user_message_opens_its_dialog() {
    let mut app = mock_app();
    app.screen = Screen::Session;
    app.chat.history.push(Message::system("note".to_string()));
    app.chat.history.push(Message::user("hi".to_string()));
    app.pointer.row = Some(2);
    assert_eq!(compute_message_hover(&app, 80, 24), Some(0));
    app.handle_mouse_event(ev(MouseKind::LeftUp, 5, 3), Some((80, 24)), 0);
    assert_eq!(app.prompts.user_msg_modal, Some(1));
    assert_eq!(app.prompts.user_msg_modal_selected, 0);
}

#[test]
fn chat_view_follows_the_bottom() {
    let mut app = mock_app();
    for _ in 0..3 {
        app.chat.history.push(Message::user("hi".to_string()));
    }
    app.refresh_chat_view(80, 24, 80, 5);
    assert_eq!(app.cache.total_height, 11);
    assert_eq!(app.scroll.max_scroll, 6);
    assert_eq!(app.scroll.history_scroll, 6);
    assert_eq!(app.cache.history_len, 3);
    assert!(app.cache.text.is_some());
    app.scroll.auto_scroll = false;
    app.scroll.history_scroll = 2;
    app.refresh_chat_view(80, 24, 80, 5);
    assert_eq!(app.scroll.history_scroll, 2);
    assert!(!app.scroll.auto_scroll);
    app.scroll.history_scroll = 9;
    app.refresh_chat_view(80, 24, 80, 5);
    assert_eq!(app.scroll.history_scroll, 6);
    assert!(app.scroll.auto_scroll);
}

#[test]
fn widths_and_wrapped_rows() {
    let line = Line {
        spans: vec![
            Span::styled("ab".to_string(), SpanStyle::plain()),
            Span::styled("中".to_string(), SpanStyle::fg(Color::Primary)),
        ],
    };
    assert_eq!(line_width(&line), 4);
    assert_eq!(hover_wrap(100), 95);
    assert_eq!(hover_wrap(1), 1);
    assert_eq!(hover_wrap(0), 1);
    assert_eq!(rows_of(0, 95), 1);
    assert_eq!(rows_of(190, 95), 2);
    assert_eq!(rows_of(191, 95), 3);
    let long = Line { spans: vec![Span::raw("x".repeat(40))] };
    assert_eq!(measure_chat(&vec![long], 20), 3 + 2);
    let short = Line { spans: vec![Span::raw("xyz".to_string())] };
    assert_eq!(measure_chat(&vec![short], 1), 3 + 2);
}

#[test]
fn overlay_and_status_texts() {
    let mut app = mock_app();
    assert_eq!(app.overlay(), Overlay::Nothing);
    app.prompts.pending_exit = true;
    app.prompts.pending_clear = true;
    assert_eq!(app.overlay(), Overlay::ClearQuestion);
    assert_eq!(question(Overlay::ExitQuestion).as_deref(), Some("Are you sure you want to exit RouteCode? (y/n)"));
    assert_eq!(question(Overlay::Nothing), None);
    app.menus.show_model_menu = true;
    assert_eq!(app.overlay(), Overlay::ModelMenu);
    app.scroll.max_scroll = 12;
    assert_eq!(app.scroll_status(), " • Scroll: 0/12 ");
    assert_eq!(app.activity(), "");
    app.chat.is_generating = true;
    app.ticker.tick_count = 11;
    assert_eq!(app.activity(), " ⠙ [Thinking...] ");
    app.chat.active_tool = Some("grep".to_string());
    assert_eq!(app.activity(), " ⠙ [Running grep...] ");
    assert_eq!(thinking_tag(&"default".to_string()), "");
    assert_eq!(thinking_tag(&"max".to_string()), " • [max] ");
    let mut s = String::new();
    push_decimal(&mut s, 65535);
    push_decimal(&mut s, 0);
    assert_eq!(s, "655350");
}

#[test]
fn dialog_lines() {
    let lines = confirmation_dialog(&"Run this?".to_string(), &"rm x".to_string(), false);
    assert_eq!(lines.len(), 4);
    assert_eq!(lines[1].spans[0].text, "> rm x");
    assert_eq!(lines[3].spans.len(), 10);
    assert_eq!(lines[3].spans[8].text, "[D] or [Esc]");
    assert_eq!(lines[3].spans[8].style, SpanStyle::bold(Color::Red));
    let lines = confirmation_dialog(&"Run this?".to_string(), &"rm x".to_string(), true);
    assert_eq!(lines[3].spans[0].text, "Please type your feedback below and press Enter (Esc to cancel):");
    let lines = message_dialog(1);
    assert_eq!(lines.len(), 6);
    assert_eq!(lines[2].spans[0].text, "   ");
    assert_eq!(lines[3].spans[0].text, " ➜ ");
    assert_eq!(lines[3].spans[1].text, "Rewind & Edit");
    assert_eq!(lines[3].spans[1].style, SpanStyle::bold(Color::Primary));
}

#[test]
fn only_lines_of_a_thought_count_as_hovered() {
    let mut app = mock_app();
    app.screen = Screen::Session;
    app.chat.history.push(Message::user("│ Thinking... ┃".to_string()));
    app.chat.history.push(Message::assistant(Some("ok".to_string()), Some("t1\nt2".to_string()), None));
    // Rows: user header 1, quoted line 2, blank 3, assistant header 4,
    // thought header 5, thought lines 6 and 7, reply 8.
    for (row, hovered) in [(2u16, false), (4, false), (5, true), (6, true), (7, true), (8, false), (9, false)] {
        app.pointer.row = Some(row);
        assert_eq!(compute_thinking_hover(&app, 80, 24), hovered, "row {}", row);
    }
    app.thinking.collapse = true;
    app.pointer.row = Some(5);
    assert!(compute_thinking_hover(&app, 80, 24));
    app.pointer.row = Some(6);
    assert!(!compute_thinking_hover(&app, 80, 24));
}

#[test]
fn hover_follows_the_chat_row() {
    let mut app = mock_app();
    app.screen = Screen::Session;
    for i in 0..5 {
        app.chat.history.push(Message::user(format!("m{}", i)));
    }
    app.pointer.row = Some(8);
    let before = compute_message_hover(&app, 80, 24);
    app.pointer.row = Some(2);
    app.scroll.history_scroll = 6;
    assert_eq!(compute_message_hover(&app, 80, 24), before);
    assert_eq!(before, Some(2));
}
