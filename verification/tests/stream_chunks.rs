use routecode_ui::chat::{Message, Role, ToolCall};
use routecode_ui::keys::Effect;
use routecode_ui::models::{remember_recent, toggle_favorite};
use routecode_ui::state::{App, ModelInfo};
use routecode_ui::stream::{error_message, merge_tool_call, StreamChunk};

fn mock_app() -> App {
    App::with_session_stamp("Mock".to_string(), "20240101_000000")
}

fn call(index: Option<u64>, id: &str, name: &str) -> ToolCall {
    ToolCall { index, id: id.to_string(), name: name.to_string(), arguments: "{}".to_string() }
}

fn model(name: &str, provider: &str) -> ModelInfo {
    ModelInfo { name: name.to_string(), provider_id: provider.to_string() }
}

#[test]
fn text_chunks_accumulate_in_one_reply() {
    let mut app = mock_app();
    app.chat.history.push(Message::user("q".to_string()));
    app.apply_stream_chunk(StreamChunk::Text("Hel".to_string()));
    app.apply_stream_chunk(StreamChunk::Text("lo".to_string()));
    assert_eq!(app.chat.history.len(), 2);
    assert_eq!(app.chat.history[1].role, Role::Assistant);
    assert_eq!(app.chat.history[1].content.as_deref(), Some("Hello"));
    app.apply_stream_chunk(StreamChunk::Thought("hmm".to_string()));
    app.apply_stream_chunk(StreamChunk::Thought("!".to_string()));
    assert_eq!(app.chat.history.len(), 2);
    assert_eq!(app.chat.history[1].thought.as_deref(), Some("hmm!"));
}

#[test]
fn thought_on_an_empty_chat_starts_a_reply() {
    let mut app = mock_app();
    app.apply_stream_chunk(StreamChunk::Thought("t".to_string()));
    assert_eq!(app.chat.history.len(), 1);
    assert_eq!(app.chat.history[0].role, Role::Assistant);
    assert!(app.chat.history[0].content.is_none());
}

#[test]
fn tool_calls_merge_by_position_and_id() {
    let mut app = mock_app();
    app.apply_stream_chunk(StreamChunk::ToolCall(call(Some(0), "a", "read")));
    assert_eq!(app.chat.active_tool.as_deref(), Some("read"));
    app.apply_stream_chunk(StreamChunk::ToolCall(call(Some(0), "a", "read_file")));
    app.apply_stream_chunk(StreamChunk::ToolCall(call(Some(1), "b", "grep")));
    let calls = app.chat.history[0].tool_calls.as_ref().unwrap();
    assert_eq!(calls.len(), 2);
    assert_eq!(calls[0].name, "read_file");
    assert_eq!(calls[1].name, "grep");

    let mut v = vec![call(None, "x", "one")];
    merge_tool_call(&mut v, call(None, "x", "again"));
    assert_eq!(v.len(), 1);
    merge_tool_call(&mut v, call(None, "", "no id"));
    merge_tool_call(&mut v, call(None, "", "no id again"));
    assert_eq!(v.len(), 3);
}

#[test]
fn tool_results_errors_and_end_are_recorded() {
    let mut app = mock_app();
    app.chat.is_generating = true;
    app.chat.active_tool = Some("grep".to_string());
    app.apply_stream_chunk(StreamChunk::ToolResult {
        name: "grep".to_string(),
        content: "found".to_string(),
        tool_call_id: "c1".to_string(),
        decoded: None,
    });
    assert!(app.chat.active_tool.is_none());
    assert_eq!(app.chat.history[0].role, Role::Tool);
    assert_eq!(app.chat.history[0].tool_call_id.as_deref(), Some("c1"));
    app.apply_stream_chunk(StreamChunk::Error("HTTP 401: {\"error\":{\"message\":\"bad key\"}}".to_string()));
    assert_eq!(app.chat.history[1].content.as_deref(), Some("Error: bad key"));
    assert!(!app.chat.is_generating);
    app.chat.is_generating = true;
    app.apply_stream_chunk(StreamChunk::Done);
    assert!(!app.chat.is_generating);
}

#[test]
fn error_messages_are_read_from_json() {
    assert_eq!(error_message(&"oops".to_string()), "oops");
    assert_eq!(error_message(&"x {\"message\":\"m1\"}".to_string()), "m1");
    assert_eq!(error_message(&"{\"errors\":[{\"message\":\"e0\"},{\"message\":\"e1\"}]}".to_string()), "e0");
    assert_eq!(error_message(&"{\"errors\":[]}".to_string()), "{\"errors\":[]}");
    let with_object = "E: {\"error\":{\"code\":7},\"message\":\"m\"}".to_string();
    assert_eq!(error_message(&with_object), with_object);
    assert_eq!(error_message(&"{\"error\":\"flat\",\"message\":\"m2\"}".to_string()), "m2");
    assert_eq!(error_message(&"{not json".to_string()), "{not json");
}

#[test]
fn models_history_and_confirmation_chunks() {
    let mut app = mock_app();
    app.chat.is_fetching_models = true;
    let e = app.apply_stream_chunk(StreamChunk::Models(vec![model("a", "p"), model("b", "p")]));
    assert!(matches!(&e[0], Effect::SearchModels(false)));
    assert_eq!(app.menus.all_available_models.len(), 2);
    app.apply_stream_chunk(StreamChunk::ModelsDone);
    assert!(!app.chat.is_fetching_models);
    app.apply_stream_chunk(StreamChunk::FinalHistory(vec![Message::user("u".to_string())]));
    assert_eq!(app.chat.history.len(), 1);
    app.apply_stream_chunk(StreamChunk::RequestConfirmation { message: "Run?".to_string(), target: "ls".to_string() });
    assert_eq!(app.prompts.command_confirmation, Some(("Run?".to_string(), "ls".to_string())));
    let e = app.apply_stream_chunk(StreamChunk::Other);
    assert!(e.is_empty());
}

#[test]
fn recent_models_keep_three_with_the_latest_first() {
    let mut recent = vec![model("a", "p"), model("b", "p"), model("c", "p")];
    remember_recent(&mut recent, model("b", "p"));
    let names: Vec<&str> = recent.iter().map(|m| m.name.as_str()).collect();
    assert_eq!(names, vec!["b", "a", "c"]);
    remember_recent(&mut recent, model("d", "q"));
    let names: Vec<&str> = recent.iter().map(|m| m.name.as_str()).collect();
    assert_eq!(names, vec!["d", "b", "a"]);
    let mut few = Vec::new();
    remember_recent(&mut few, model("x", "p"));
    assert_eq!(few.len(), 1);
}

#[test]
fn favourites_toggle_back_and_forth() {
    let mut favs = vec![model("a", "p")];
    assert!(toggle_favorite(&mut favs, model("b", "p")));
    assert_eq!(favs.len(), 2);
    assert!(!toggle_favorite(&mut favs, model("b", "p")));
    assert_eq!(favs.len(), 1);
    assert_eq!(favs[0].name, "a");
    assert!(toggle_favorite(&mut favs, model("a", "q")));
}
