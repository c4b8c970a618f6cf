use routecode_ui::catalog::{commands, providers};
use routecode_ui::chat::{preview, render_history, Message, ToolCall, ToolResult};
use routecode_ui::markdown::{parse_inline_markdown, parse_markdown_line};
use routecode_ui::menu::{menu_down, menu_up, next_section, prev_section, scroll_down, scroll_up};
use routecode_ui::style::{Color, SpanStyle};
use routecode_ui::text::{join_with_newlines, split_lines, trim_string};

fn texts(spans: &[routecode_ui::style::Span]) -> Vec<String> {
    spans.iter().map(|s| s.text.clone()).collect()
}

#[test]
fn inline_markdown_styles_and_keeps_the_text() {
    let spans = parse_inline_markdown("a **b** `c*d` *e*");
    assert_eq!(texts(&spans), vec!["a ", "b", " ", "c*d", " ", "e"]);
    assert_eq!(spans[0].style, SpanStyle::plain());
    assert_eq!(spans[1].style, SpanStyle { fg: None, bold: true, italic: false, dim: false });
    assert_eq!(spans[3].style, SpanStyle::fg(Color::Primary));
    assert_eq!(spans[5].style, SpanStyle { fg: None, bold: false, italic: true, dim: false });
    let joined: String = texts(&spans).concat();
    assert_eq!(joined, "a b c*d e");
}

#[test]
fn markdown_lines_headings_bullets_and_code() {
    let spans = parse_markdown_line("  ## Title", false);
    assert_eq!(texts(&spans), vec!["  ", "## Title"]);
    assert_eq!(spans[1].style, SpanStyle::bold(Color::Primary));
    let spans = parse_markdown_line("- **x**", false);
    assert_eq!(texts(&spans), vec!["", "- ", "x"]);
    assert_eq!(spans[1].style, SpanStyle::bold(Color::Primary));
    let spans = parse_markdown_line("let x = *y;", true);
    assert_eq!(texts(&spans), vec!["let x = *y;"]);
    assert_eq!(spans[0].style, SpanStyle::fg(Color::Secondary));
}

#[test]
fn history_renders_each_message_with_a_blank_line() {
    let history = vec![
        Message::user("hi\nthere".to_string()),
        Message::assistant(
            Some("```\ncode\n```\ntext".to_string()),
            None,
            Some(vec![ToolCall {
                index: None,
                id: "1".to_string(),
                name: "read".to_string(),
                arguments: "{\"path\":\"src/a.rs\"}".to_string(),
            }]),
        ),
        Message::tool(
            "1".to_string(),
            "read".to_string(),
            "{}".to_string(),
            Some(ToolResult { content: None, diff: Some("+a\n-b".to_string()), error: None }),
        ),
        Message::system("done".to_string()),
    ];
    let lines = render_history(&history, false, false);
    let first: Vec<String> = lines.iter().map(|l| l.spans.iter().map(|s| s.text.clone()).collect::<String>()).collect();
    assert_eq!(
        first,
        vec![
            " ● User",
            "   hi",
            "   there",
            "",
            " ● RouteCode",
            "   🛠 Using read (src/a.rs)",
            "   ```",
            "   code",
            "   ```",
            "   text",
            "",
            "   ✓ Tool (read)",
            "     +a",
            "     -b",
            "",
            " ● System",
            "   done",
            "",
        ]
    );
    assert_eq!(lines[12].spans[1].style, SpanStyle::fg(Color::Success));
    assert_eq!(lines[13].spans[1].style, SpanStyle::fg(Color::Red));
}

#[test]
fn folded_thoughts_show_one_line() {
    let history = vec![Message::assistant(None, Some("a\nb".to_string()), None)];
    let lines = render_history(&history, true, false);
    assert_eq!(lines.len(), 3);
    assert_eq!(lines[1].spans[1].text, "▶ Thinking... (ctrl+o to expand)");
    let lines = render_history(&history, false, true);
    assert_eq!(lines.len(), 5);
    assert_eq!(lines[2].spans[0].text, "   ┃ ");
    assert_eq!(lines[2].spans[1].text, "a");
}

#[test]
fn long_text_previews_cut_at_a_character_boundary() {
    let short = "x".repeat(100);
    assert_eq!(preview(&short), short);
    let long = "é".repeat(60);
    let p = preview(&long);
    assert_eq!(p, format!("{}...", "é".repeat(50)));
}

#[test]
fn text_helpers() {
    assert_eq!(split_lines("a\nb\r\n\nc"), vec!["a", "b", "", "c"]);
    assert_eq!(split_lines(""), Vec::<String>::new());
    assert_eq!(join_with_newlines(&vec!["a".to_string(), "b".to_string()]), "a\nb");
    assert_eq!(trim_string("\t x y \n"), "x y");
}

#[test]
fn catalogues() {
    let ps = providers();
    assert_eq!(ps.len(), 10);
    assert_eq!(ps[8].id, "cloudflare-workers");
    assert_eq!(ps[9].name, "Cloudflare AI Gateway");
    let cs = commands();
    assert_eq!(cs[0].name, "/model");
    assert_eq!(cs[9].description, "Exit application");
}

#[test]
fn menu_walks() {
    let hdr = vec![true, false, false, true, false];
    assert_eq!(menu_up(&hdr, 5, 1), 4);
    assert_eq!(menu_down(&hdr, 5, 4), 1);
    assert_eq!(menu_down(&hdr, 5, 1), 2);
    let plain = vec![false, false, false];
    assert_eq!(menu_down(&plain, 3, 2), 0);
    assert_eq!(menu_up(&plain, 3, 0), 2);
    let all = vec![true, true];
    assert_eq!(menu_up(&all, 2, 0), 0);
    assert_eq!(next_section(&hdr, 1), Some(4));
    assert_eq!(next_section(&hdr, 4), Some(1));
    assert_eq!(prev_section(&hdr, 4), Some(1));
    assert_eq!(prev_section(&plain, 1), None);
    assert_eq!(scroll_up(&hdr, 4), 1);
    assert_eq!(scroll_up(&hdr, 2), 0);
    assert_eq!(scroll_down(&hdr, 5, 0), 4);
    assert_eq!(scroll_down(&hdr, 5, 1), 4);
}
