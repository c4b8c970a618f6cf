use routecode_ui::chat::{render_history, Message};
use routecode_ui::keys::{KeyCode, KeyInput};
use routecode_ui::layout::{hover_wrap, rows_of_lines};
use routecode_ui::mouse::{MouseInput, MouseKind};
use routecode_ui::render::measure_chat;
use routecode_ui::state::App;
use routecode_ui::stream::StreamChunk;
use routecode_ui::style::{Line, Span};

fn texts(lines: &[Line]) -> Vec<String> {
    lines.iter().map(|l| l.spans.iter().map(|s| s.text.clone()).collect::<String>()).collect()
}

#[test]
fn chat_lines_are_the_lines_of_its_parts() {
    let a = vec![Message::user("one\ntwo".to_string()), Message::system("s".to_string())];
    let b = vec![Message::assistant(Some("**r**".to_string()), Some("t".to_string()), None)];
    let mut ab = a.clone();
    ab.extend(b.clone());
    let whole = texts(&render_history(&ab, false, false));
    let mut parts = texts(&render_history(&a, false, false));
    parts.extend(texts(&render_history(&b, false, false)));
    assert_eq!(whole, parts);
}

#[test]
fn hover_rows_match_view_rows_at_every_width() {
    let lines = vec![
        Line { spans: vec![Span::raw("x".repeat(77))] },
        Line { spans: vec![Span::raw(String::new())] },
        Line { spans: vec![Span::raw("y".repeat(5))] },
    ];
    for w in [0u16, 1, 2, 3, 20, 80] {
        assert_eq!(measure_chat(&lines, w) - 2, rows_of_lines(&lines, hover_wrap(w)));
    }
    assert_eq!(measure_chat(&lines, 1) - 2, 77 + 1 + 5);
    assert_eq!(rows_of_lines(&lines, hover_wrap(1)), 77 + 1 + 5);
}

#[test]
fn steps_keep_the_session_id() {
    let mut app = App::with_session_stamp("Mock".to_string(), "20240101_000000");
    let enter = KeyInput { code: KeyCode::Enter, ctrl: false, shift: false, alt: false };
    app.set_input_text(&"hello".to_string());
    app.handle_key_event(enter, false);
    app.apply_stream_chunk(StreamChunk::Text("hi".to_string()));
    app.handle_mouse_event(MouseInput { kind: MouseKind::LeftUp, row: 2, col: 2 }, Some((80, 24)), 5);
    app.on_tick(10);
    assert_eq!(app.session_id, "session_20240101_000000");
}

#[test]
fn logo_animation_runs_for_twenty_ticks() {
    let mut app = App::with_session_stamp("Mock".to_string(), "20240101_000000");
    app.handle_mouse_event(MouseInput { kind: MouseKind::LeftDown, row: 8, col: 2 }, Some((80, 24)), 0);
    assert_eq!(app.ticker.logo_anim_frames, 20);
    for t in 0..20u64 {
        app.on_tick(t * 100);
    }
    assert_eq!(app.ticker.logo_anim_frames, 0);
    app.on_tick(2100);
    assert_eq!(app.ticker.logo_anim_frames, 0);
}
