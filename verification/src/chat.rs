//! The chat history and its rendering into styled lines.

use vstd::prelude::*;
use vstd::string::StringExecFns;
use vstd::utf8::{encode_utf8, encode_scalar};
use crate::style::{
    Color, Line, Span, SpanStyle, SpanV, plain_style, fg_style, bold_style, italic_style, dim_style,
    spans_view, lines_view, push_span, append_spans, push_line, line1, line2, line3, blank_line,
};
use crate::text::{chars_of, string_of, split_lines, strings_view, lines_of, starts_with, trim, trim_start,
    lemma_trim_end_keeps_prefix, count_leading_ws, has_prefix_at, is_white_space};
use crate::markdown::{markdown_line, parse_markdown_line};
use crate::json::{json_string_at, string_at};

verus! {

/// Who wrote a message.
#[derive(Clone, Copy, Debug, PartialEq, Eq, Structural)]
pub enum Role {
    User,
    Assistant,
    Tool,
    System,
}

/// A tool call that the assistant made: its position in the stream (when the
/// provider numbers calls), its id, the tool's name and its JSON arguments.
#[derive(Clone, Debug)]
pub struct ToolCall {
    pub index: Option<u64>,
    pub id: String,
    pub name: String,
    pub arguments: String,
}

/// What a tool returned, decoded: a diff, an output, or an error.
#[derive(Clone, Debug)]
pub struct ToolResult {
    pub content: Option<String>,
    pub diff: Option<String>,
    pub error: Option<String>,
}

/// One message of the chat. `tool_result` holds the content of a tool
/// message decoded as a tool result, where it decodes as one.
#[derive(Clone, Debug)]
pub struct Message {
    pub role: Role,
    pub content: Option<String>,
    pub thought: Option<String>,
    pub tool_calls: Option<Vec<ToolCall>>,
    pub name: Option<String>,
    pub tool_call_id: Option<String>,
    pub tool_result: Option<ToolResult>,
}

impl Message {
    /// A message of the user.
    pub fn user(content: String) -> (m: Message)
        ensures
            m == (Message {
                role: Role::User,
                content: Some(content),
                thought: None,
                tool_calls: None,
                name: None,
                tool_call_id: None,
                tool_result: None,
            }),
    {
        Message {
            role: Role::User,
            content: Some(content),
            thought: None,
            tool_calls: None,
            name: None,
            tool_call_id: None,
            tool_result: None,
        }
    }

    /// A message of the system (notices shown in the chat).
    pub fn system(content: String) -> (m: Message)
        ensures
            m == (Message {
                role: Role::System,
                content: Some(content),
                thought: None,
                tool_calls: None,
                name: None,
                tool_call_id: None,
                tool_result: None,
            }),
    {
        Message {
            role: Role::System,
            content: Some(content),
            thought: None,
            tool_calls: None,
            name: None,
            tool_call_id: None,
            tool_result: None,
        }
    }

    /// A message of the assistant.
    pub fn assistant(content: Option<String>, thought: Option<String>, tool_calls: Option<Vec<ToolCall>>) -> (m: Message)
        ensures
            m == (Message { role: Role::Assistant, content, thought, tool_calls, name: None, tool_call_id: None, tool_result: None }),
    {
        Message { role: Role::Assistant, content, thought, tool_calls, name: None, tool_call_id: None, tool_result: None }
    }

    /// The answer of a tool to a call.
    pub fn tool(tool_call_id: String, name: String, content: String, tool_result: Option<ToolResult>) -> (m: Message)
        ensures
            m == (Message {
                role: Role::Tool,
                content: Some(content),
                thought: None,
                tool_calls: None,
                name: Some(name),
                tool_call_id: Some(tool_call_id),
                tool_result,
            }),
    {
        Message {
            role: Role::Tool,
            content: Some(content),
            thought: None,
            tool_calls: None,
            name: Some(name),
            tool_call_id: Some(tool_call_id),
            tool_result,
        }
    }
}

/// The number of bytes of the UTF-8 encoding of `s` (`str::len`).
pub open spec fn byte_len(s: Seq<char>) -> nat {
    encode_utf8(s).len()
}

/// The number of bytes of the UTF-8 encoding of `c`.
pub open spec fn utf8_len(c: char) -> nat {
    encode_scalar(c as u32).len()
}

proof fn lemma_encode_utf8_append(a: Seq<char>, b: Seq<char>)
    ensures
        encode_utf8(a + b) == encode_utf8(a) + encode_utf8(b),
    decreases a.len(),
{
    if a.len() == 0 {
        assert(a + b =~= b);
        assert(encode_utf8(a) + encode_utf8(b) =~= encode_utf8(b));
    } else {
        lemma_encode_utf8_append(a.drop_first(), b);
        assert((a + b).drop_first() =~= a.drop_first() + b);
        assert((a + b)[0] == a[0]);
        assert(encode_utf8(a + b) =~= encode_utf8(a) + encode_utf8(b));
    }
}

proof fn lemma_byte_len_take_succ(s: Seq<char>, j: int)
    requires
        0 <= j < s.len(),
    ensures
        byte_len(s.take(j + 1)) == byte_len(s.take(j)) + utf8_len(s[j]),
{
    assert(s.take(j + 1) =~= s.take(j) + seq![s[j]]);
    lemma_encode_utf8_append(s.take(j), seq![s[j]]);
    assert(seq![s[j]].drop_first() =~= Seq::<char>::empty());
    assert(encode_utf8(seq![s[j]]) =~= encode_scalar(s[j] as u32) + encode_utf8(Seq::<char>::empty()));
}

/// The number of bytes of the UTF-8 encoding of `c` (`char::len_utf8`).
fn char_utf8_len(c: char) -> (n: usize)
    ensures
        n == utf8_len(c),
        1 <= n <= 4,
{
    broadcast use vstd::utf8::char_is_scalar;
    let v = c as u32;
    if v <= 0x7F {
        1
    } else if v <= 0x7FF {
        2
    } else if v <= 0xFFFF {
        3
    } else {
        4
    }
}

/// The largest position `j` from the given one on, before the last character,
/// at which a character of `s` starts within the first 100 bytes.
pub open spec fn cut_from(s: Seq<char>, j: int) -> int
    decreases s.len() - j,
{
    if 0 <= j && j + 1 < s.len() && byte_len(s.take(j + 1)) <= 100 {
        cut_from(s, j + 1)
    } else {
        j
    }
}

/// The preview of a tool output: a text of more than 100 bytes is cut before
/// the last character that starts within its first 100 bytes and `...` is
/// appended; a shorter text is shown whole.
pub open spec fn preview_text(s: Seq<char>) -> Seq<char> {
    if byte_len(s) > 100 {
        s.take(cut_from(s, 0)) + "..."@
    } else {
        s
    }
}

/// Whether the UTF-8 encoding of `cs` is longer than 100 bytes.
fn longer_than_100_bytes(cs: &Vec<char>) -> (b: bool)
    ensures
        b == (byte_len(cs@) > 100),
{
    let mut j: usize = 0;
    let mut off: usize = 0;
    assert(cs@.take(0) =~= Seq::<char>::empty());
    assert(encode_utf8(Seq::<char>::empty()).len() == 0);
    while j < cs.len() && off <= 100
        invariant
            j <= cs.len(),
            off == byte_len(cs@.take(j as int)),
            off <= 104,
        decreases cs.len() - j,
    {
        proof {
            lemma_byte_len_take_succ(cs@, j as int);
        }
        off = off + char_utf8_len(cs[j]);
        j = j + 1;
    }
    proof {
        assert(cs@ =~= cs@.take(j as int) + cs@.skip(j as int));
        lemma_encode_utf8_append(cs@.take(j as int), cs@.skip(j as int));
        if j == cs.len() {
            assert(cs@.take(j as int) =~= cs@);
        }
    }
    off > 100
}

/// The preview of a tool output (see `preview_text`).
pub fn preview(s: &String) -> (r: String)
    ensures
        r@ == preview_text(s@),
{
    let cs = chars_of(s.as_str());
    if longer_than_100_bytes(&cs) {
        assert(cs@.len() > 0) by {
            if cs@.len() == 0 {
                assert(encode_utf8(cs@).len() == 0);
            }
        }
        let mut j: usize = 0;
        let mut off: usize = 0;
        assert(cs@.take(0) =~= Seq::<char>::empty());
        assert(encode_utf8(Seq::<char>::empty()).len() == 0);
        while j + 1 < cs.len() && off + char_utf8_len(cs[j]) <= 100
            invariant
                cs@ == s@,
                j < cs.len(),
                off == byte_len(cs@.take(j as int)),
                off <= 100,
                cut_from(cs@, j as int) == cut_from(cs@, 0),
            decreases cs.len() - j,
        {
            proof {
                lemma_byte_len_take_succ(cs@, j as int);
            }
            off = off + char_utf8_len(cs[j]);
            j = j + 1;
        }
        proof {
            if j + 1 < cs@.len() {
                lemma_byte_len_take_succ(cs@, j as int);
            }
            assert(cut_from(cs@, j as int) == j);
        }
        let mut r = string_of(cs.as_slice(), 0, j);
        r.append("...");
        assert(cs@.subrange(0, j as int) =~= cs@.take(j as int));
        r
    } else {
        s.clone()
    }
}

/// The lines `l` of a text, each shown as `[(indent, plain), (l, style)]`.
pub open spec fn indented(ls: Seq<Seq<char>>, indent: Seq<char>, style: SpanStyle) -> Seq<Seq<SpanV>> {
    ls.map_values(|l: Seq<char>| seq![(indent, plain_style()), (l, style)])
}

/// The lines of a user message.
pub open spec fn user_lines(m: Message) -> Seq<Seq<SpanV>> {
    let rest = match m.content {
        Some(c) => indented(lines_of(c@), "   "@, plain_style()),
        None => seq![],
    };
    seq![seq![(" ● User"@, bold_style(Color::Primary))]] + rest
}

/// The guide drawn to the left of thinking lines.
pub open spec fn thought_guide(hovered: bool) -> SpanV {
    if hovered {
        ("   ┃ "@, bold_style(Color::Primary))
    } else {
        ("   │ "@, fg_style(Color::Dim))
    }
}

/// The lines of an assistant's thought: collapsed, one line that says how to
/// expand it; expanded, a header and then each line of the thought behind the
/// guide. Hovering draws them in the primary colour.
pub open spec fn thought_lines(t: Seq<char>, collapsed: bool, hovered: bool) -> Seq<Seq<SpanV>> {
    if collapsed {
        if hovered {
            seq![seq![
                thought_guide(true),
                ("▶ Thinking... (Double click to expand, one hold click to see thought)"@, bold_style(Color::Primary)),
            ]]
        } else {
            seq![seq![thought_guide(false), ("▶ Thinking... (ctrl+o to expand)"@, italic_style(Color::Secondary))]]
        }
    } else {
        let header = if hovered {
            seq![thought_guide(true), ("▼ Thinking... (Double click to collapse)"@, bold_style(Color::Primary))]
        } else {
            seq![thought_guide(false), ("▼ Thinking... (ctrl+o to collapse)"@, italic_style(Color::Secondary))]
        };
        let text_style = if hovered { italic_style(Color::Primary) } else { italic_style(Color::Secondary) };
        seq![header] + lines_of(t).map_values(|l: Seq<char>| seq![thought_guide(hovered), (l, text_style)])
    }
}

/// What a tool call line shows in brackets: the `path` argument where the
/// arguments are JSON with a string `path`, else the tool's name.
pub open spec fn arg_preview(tc: ToolCall) -> Seq<char> {
    match json_string_at(tc.arguments@, "/path"@) {
        Some(p) => "("@ + p + ")"@,
        None => "("@ + tc.name@ + ")"@,
    }
}

/// The line of one tool call.
pub open spec fn tool_call_line(tc: ToolCall) -> Seq<SpanV> {
    seq![
        ("   🛠 "@, fg_style(Color::Primary)),
        ("Using "@ + tc.name@ + " "@, fg_style(Color::Text)),
        (arg_preview(tc), dim_style(Color::Secondary)),
    ]
}

/// The tool-call lines of a message.
pub open spec fn tool_call_lines(calls: Option<Vec<ToolCall>>) -> Seq<Seq<SpanV>> {
    match calls {
        Some(v) => v@.map_values(|tc: ToolCall| tool_call_line(tc)),
        None => seq![],
    }
}

/// Whether a line opens or closes a fenced code block.
pub open spec fn is_fence(l: Seq<char>) -> bool {
    starts_with(trim(l), seq!['`', '`', '`'])
}

/// The lines of an assistant's reply from line `i` on: a fence line is shown
/// in bold primary and toggles code, any other line is highlighted as
/// markdown (see `markdown_line`) behind a three-space indentation.
pub open spec fn reply_lines_from(ls: Seq<Seq<char>>, i: int, in_code: bool) -> Seq<Seq<SpanV>>
    decreases ls.len() - i,
{
    if i < 0 || i >= ls.len() {
        seq![]
    } else if is_fence(ls[i]) {
        seq![seq![("   "@, plain_style()), (ls[i], bold_style(Color::Primary))]]
            + reply_lines_from(ls, i + 1, !in_code)
    } else {
        seq![seq![("   "@, plain_style())] + markdown_line(ls[i], in_code)] + reply_lines_from(ls, i + 1, in_code)
    }
}

/// Whether no line of `ls` is a fence line.
pub open spec fn fence_free(ls: Seq<Seq<char>>) -> bool {
    forall|k: int| 0 <= k < ls.len() ==> !is_fence(#[trigger] ls[k])
}

/// A reply line drawn as highlighted markdown, or, in a code block, as it is.
pub open spec fn reply_text_line(l: Seq<char>, in_code: bool) -> Seq<SpanV> {
    seq![("   "@, plain_style())] + markdown_line(l, in_code)
}

proof fn lemma_reply_lines_len(ls: Seq<Seq<char>>, i: int, in_code: bool)
    requires
        0 <= i <= ls.len(),
    ensures
        reply_lines_from(ls, i, in_code).len() == ls.len() - i,
    decreases ls.len() - i,
{
    if i < ls.len() {
        lemma_reply_lines_len(ls, i + 1, !in_code);
        lemma_reply_lines_len(ls, i + 1, in_code);
    }
}

/// Lines without fences keep the code state: each is drawn in it.
proof fn lemma_reply_plain_run(ls: Seq<Seq<char>>, i: int, j: int, in_code: bool)
    requires
        0 <= i <= j <= ls.len(),
        forall|k: int| i <= k < j ==> !is_fence(#[trigger] ls[k]),
    ensures
        forall|k: int| i <= k < j ==> #[trigger] reply_lines_from(ls, i, in_code)[k - i] == reply_text_line(
            ls[k],
            in_code,
        ),
        forall|k: int|
            0 <= k < ls.len() - j ==> #[trigger] reply_lines_from(ls, i, in_code)[j - i + k] == reply_lines_from(
                ls,
                j,
                in_code,
            )[k],
    decreases j - i,
{
    if i < j {
        lemma_reply_plain_run(ls, i + 1, j, in_code);
        lemma_reply_lines_len(ls, i + 1, in_code);
        let r = reply_lines_from(ls, i, in_code);
        let r1 = reply_lines_from(ls, i + 1, in_code);
        assert(r =~= seq![reply_text_line(ls[i], in_code)] + r1);
        assert forall|k: int| i <= k < j implies #[trigger] r[k - i] == reply_text_line(ls[k], in_code) by {
            if k > i {
                assert(r[k - i] == r1[k - (i + 1)]);
            }
        }
        assert forall|k: int| 0 <= k < ls.len() - j implies #[trigger] r[j - i + k] == reply_lines_from(
            ls,
            j,
            in_code,
        )[k] by {
            assert(r[j - i + k] == r1[j - (i + 1) + k]);
        }
    }
}

/// A fence line opens a code block and the next one closes it: in a reply
/// made of lines without fences `p`, a fence line `f1`, lines `mid`, a fence
/// line `f2` and lines `rest`, the lines of `p` and of `rest` are drawn as
/// markdown, the fences in bold primary, and the lines of `mid` as they are,
/// in the secondary colour.
pub proof fn law_fences_delimit_code(
    p: Seq<Seq<char>>,
    f1: Seq<char>,
    mid: Seq<Seq<char>>,
    f2: Seq<char>,
    rest: Seq<Seq<char>>,
)
    requires
        fence_free(p),
        fence_free(mid),
        fence_free(rest),
        is_fence(f1),
        is_fence(f2),
    ensures
        ({
            let ls = p + seq![f1] + mid + seq![f2] + rest;
            let r = reply_lines_from(ls, 0, false);
            let a = p.len() as int;
            let b = a + 1 + mid.len();
            &&& r.len() == ls.len()
            &&& forall|k: int| 0 <= k < a ==> r[k] == reply_text_line(p[k], false)
            &&& r[a] == seq![("   "@, plain_style()), (f1, bold_style(Color::Primary))]
            &&& forall|k: int| 0 <= k < mid.len() ==> r[a + 1 + k] == seq![
                ("   "@, plain_style()),
                (mid[k], fg_style(Color::Secondary)),
            ]
            &&& r[b] == seq![("   "@, plain_style()), (f2, bold_style(Color::Primary))]
            &&& forall|k: int| 0 <= k < rest.len() ==> r[b + 1 + k] == reply_text_line(rest[k], false)
        }),
{
    let ls = p + seq![f1] + mid + seq![f2] + rest;
    let a = p.len() as int;
    let m = mid.len() as int;
    let b = a + 1 + m;
    let n = ls.len() as int;
    assert forall|k: int| 0 <= k < a implies !is_fence(#[trigger] ls[k]) by {
        assert(ls[k] == p[k]);
    }
    assert forall|k: int| a + 1 <= k < b implies !is_fence(#[trigger] ls[k]) by {
        assert(ls[k] == mid[k - a - 1]);
    }
    assert forall|k: int| b + 1 <= k < n implies !is_fence(#[trigger] ls[k]) by {
        assert(ls[k] == rest[k - b - 1]);
    }
    assert(ls[a] == f1);
    assert(ls[b] == f2);
    lemma_reply_lines_len(ls, 0, false);
    lemma_reply_plain_run(ls, 0, a, false);
    lemma_reply_plain_run(ls, a + 1, b, true);
    lemma_reply_plain_run(ls, b + 1, n, false);
    lemma_reply_lines_len(ls, a + 1, true);
    lemma_reply_lines_len(ls, b + 1, false);
    let r = reply_lines_from(ls, 0, false);
    let ra = reply_lines_from(ls, a, false);
    let ra1 = reply_lines_from(ls, a + 1, true);
    let rb = reply_lines_from(ls, b, true);
    let rb1 = reply_lines_from(ls, b + 1, false);
    assert(ra =~= seq![seq![("   "@, plain_style()), (f1, bold_style(Color::Primary))]] + ra1);
    assert(rb =~= seq![seq![("   "@, plain_style()), (f2, bold_style(Color::Primary))]] + rb1);
    assert forall|k: int| 0 <= k < a implies r[k] == reply_text_line(p[k], false) by {
        assert(r[k - 0] == reply_text_line(ls[k], false));
        assert(ls[k] == p[k]);
    }
    assert(r[a - 0 + 0] == ra[0]);
    assert forall|k: int| 0 <= k < mid.len() implies r[a + 1 + k] == seq![
        ("   "@, plain_style()),
        (mid[k], fg_style(Color::Secondary)),
    ] by {
        assert(r[a - 0 + (1 + k)] == ra[1 + k]);
        assert(ra[1 + k] == ra1[k]);
        assert(ra1[(a + 1 + k) - (a + 1)] == reply_text_line(ls[a + 1 + k], true));
        assert(ls[a + 1 + k] == mid[k]);
        assert(reply_text_line(mid[k], true) =~= seq![("   "@, plain_style()), (mid[k], fg_style(Color::Secondary))]);
    }
    assert(r[a - 0 + (1 + m)] == ra[1 + m]);
    assert(ra[1 + m] == ra1[m]);
    assert(ra1[b - (a + 1) + 0] == rb[0]);
    assert forall|k: int| 0 <= k < rest.len() implies r[b + 1 + k] == reply_text_line(rest[k], false) by {
        assert(r[a - 0 + (1 + m + 1 + k)] == ra[1 + m + 1 + k]);
        assert(ra[1 + m + 1 + k] == ra1[m + 1 + k]);
        assert(ra1[b - (a + 1) + (1 + k)] == rb[1 + k]);
        assert(rb[1 + k] == rb1[k]);
        assert(rb1[(b + 1 + k) - (b + 1)] == reply_text_line(ls[b + 1 + k], false));
        assert(ls[b + 1 + k] == rest[k]);
    }
}

/// The lines of an assistant message: a header, its thought, its tool calls
/// and its reply.
pub open spec fn assistant_lines(m: Message, collapsed: bool, hovered: bool) -> Seq<Seq<SpanV>> {
    let thought = match m.thought {
        Some(t) => thought_lines(t@, collapsed, hovered),
        None => seq![],
    };
    let reply = match m.content {
        Some(c) => reply_lines_from(lines_of(c@), 0, false),
        None => seq![],
    };
    seq![seq![(" ● RouteCode"@, bold_style(Color::Text))]] + thought + tool_call_lines(m.tool_calls) + reply
}

/// The style of a diff line: additions green, removals red, the rest dim.
pub open spec fn diff_style(l: Seq<char>) -> SpanStyle {
    if l.len() > 0 && l[0] == '+' {
        fg_style(Color::Success)
    } else if l.len() > 0 && l[0] == '-' {
        fg_style(Color::Red)
    } else {
        fg_style(Color::Dim)
    }
}

/// The lines of a decoded tool result: its diff line by line, else a preview
/// of its output, else its error.
pub open spec fn result_lines(r: ToolResult) -> Seq<Seq<SpanV>> {
    match r.diff {
        Some(d) => lines_of(d@).map_values(|l: Seq<char>| seq![("     "@, plain_style()), (l, diff_style(l))]),
        None => match r.content {
            Some(out) => seq![seq![("     "@ + preview_text(out@), dim_style(Color::Dim))]],
            None => match r.error {
                Some(e) => seq![seq![("     Error: "@ + e@, fg_style(Color::Red))]],
                None => seq![],
            },
        },
    }
}

/// The name shown for a tool message.
pub open spec fn tool_name_or_default(m: Message) -> Seq<char> {
    match m.name {
        Some(n) => n@,
        None => "result"@,
    }
}

/// The lines of a tool message: a header naming the tool, then the decoded
/// result, or a preview of the raw content where it did not decode.
pub open spec fn tool_lines(m: Message) -> Seq<Seq<SpanV>> {
    let rest = match m.content {
        Some(c) => match m.tool_result {
            Some(r) => result_lines(r),
            None => seq![seq![("     "@ + preview_text(c@), dim_style(Color::Dim))]],
        },
        None => seq![],
    };
    seq![seq![("   ✓ Tool ("@ + tool_name_or_default(m) + ")"@, fg_style(Color::Secondary))]] + rest
}

/// The lines of a system message: a header and the content on one line.
pub open spec fn system_lines(m: Message) -> Seq<Seq<SpanV>> {
    let rest = match m.content {
        Some(c) => seq![seq![("   "@ + c@, dim_style(Color::System))]],
        None => seq![],
    };
    seq![seq![(" ● System"@, dim_style(Color::System))]] + rest
}

/// The empty line that follows each message.
pub open spec fn blank() -> Seq<SpanV> {
    seq![(Seq::<char>::empty(), plain_style())]
}

/// The lines of one message, the empty line after it included.
pub open spec fn message_lines(m: Message, collapsed: bool, hovered: bool) -> Seq<Seq<SpanV>> {
    let body = match m.role {
        Role::User => user_lines(m),
        Role::Assistant => assistant_lines(m, collapsed, hovered),
        Role::Tool => tool_lines(m),
        Role::System => system_lines(m),
    };
    body + seq![blank()]
}

/// The lines of a history: those of each message, in order.
pub open spec fn history_lines(h: Seq<Message>, collapsed: bool, hovered: bool) -> Seq<Seq<SpanV>>
    decreases h.len(),
{
    if h.len() == 0 {
        seq![]
    } else {
        history_lines(h.drop_last(), collapsed, hovered) + message_lines(h.last(), collapsed, hovered)
    }
}

/// The number of lines that the thought of message `m` takes: none when it
/// is no message of the assistant or has no thought.
pub open spec fn thought_line_count(m: Message, collapsed: bool, hovered: bool) -> int {
    match m.thought {
        Some(t) => if m.role == Role::Assistant {
            thought_lines(t@, collapsed, hovered).len() as int
        } else {
            0
        },
        None => 0,
    }
}

/// Which lines of message `m` (see `message_lines`) belong to its thought:
/// the header of the thought and its lines, which follow the header of an
/// assistant's message.
pub open spec fn thought_marks(m: Message, collapsed: bool, hovered: bool) -> Seq<bool> {
    Seq::new(
        message_lines(m, collapsed, hovered).len(),
        |i: int| 1 <= i < 1 + thought_line_count(m, collapsed, hovered),
    )
}

/// Which lines of a chat (see `history_lines`) belong to a thought.
pub open spec fn history_marks(h: Seq<Message>, collapsed: bool, hovered: bool) -> Seq<bool>
    decreases h.len(),
{
    if h.len() == 0 {
        seq![]
    } else {
        history_marks(h.drop_last(), collapsed, hovered) + thought_marks(h.last(), collapsed, hovered)
    }
}

/// The string of a literal.
pub(crate) fn lit(s: &str) -> (r: String)
    ensures
        r@ == s@,
{
    String::from_str(s)
}

/// `a + b` as one string.
pub(crate) fn concat2(a: &str, b: &str) -> (r: String)
    ensures
        r@ == a@ + b@,
{
    let mut r = String::from_str(a);
    r.append(b);
    r
}

/// `a + b + c` as one string.
pub(crate) fn concat3(a: &str, b: &str, c: &str) -> (r: String)
    ensures
        r@ == a@ + b@ + c@,
{
    let mut r = String::from_str(a);
    r.append(b);
    r.append(c);
    r
}

/// Appends the lines of `text`, each behind `indent`, to `out`.
fn push_indented(out: &mut Vec<Line>, text: &String, indent: &str, style: SpanStyle)
    ensures
        lines_view(final(out)@) == lines_view(old(out)@) + indented(lines_of(text@), indent@, style),
{
    let ls = split_lines(text.as_str());
    let ghost base = lines_view(out@);
    let ghost all = indented(lines_of(text@), indent@, style);
    let mut i: usize = 0;
    assert(base + all.take(0) =~= base);
    while i < ls.len()
        invariant
            i <= ls@.len(),
            strings_view(ls@) == lines_of(text@),
            all == indented(lines_of(text@), indent@, style),
            lines_view(out@) == base + all.take(i as int),
        decreases ls.len() - i,
    {
        assert(strings_view(ls@)[i as int] == ls@[i as int]@);
        push_line(out, line2(Span::raw(lit(indent)), Span::styled(ls[i].clone(), style)));
        assert(all.take(i + 1) =~= all.take(i as int).push(all[i as int]));
        i = i + 1;
    }
    assert(all.take(ls@.len() as int) =~= all);
}

/// The lines of a user message.
fn render_user(out: &mut Vec<Line>, m: &Message)
    requires
        m.role == Role::User,
    ensures
        lines_view(final(out)@) == lines_view(old(out)@) + user_lines(*m),
{
    let ghost base = lines_view(out@);
    push_line(out, line1(Span::styled(lit(" ● User"), SpanStyle::bold(Color::Primary))));
    match &m.content {
        Some(c) => {
            push_indented(out, c, "   ", SpanStyle::plain());
        },
        None => {},
    }
    assert(lines_view(out@) =~= base + user_lines(*m));
}

/// The exec form of `thought_guide`.
fn guide_span(hovered: bool) -> (s: Span)
    ensures
        s@ == thought_guide(hovered),
{
    if hovered {
        Span::styled(lit("   ┃ "), SpanStyle::bold(Color::Primary))
    } else {
        Span::styled(lit("   │ "), SpanStyle::fg(Color::Dim))
    }
}

/// Appends the lines of a thought to `out`.
fn push_thought(out: &mut Vec<Line>, t: &String, collapsed: bool, hovered: bool)
    ensures
        lines_view(final(out)@) == lines_view(old(out)@) + thought_lines(t@, collapsed, hovered),
{
    let ghost base = lines_view(out@);
    if collapsed {
        if hovered {
            push_line(out, line2(guide_span(true), Span::styled(
                lit("▶ Thinking... (Double click to expand, one hold click to see thought)"),
                SpanStyle::bold(Color::Primary),
            )));
        } else {
            push_line(out, line2(guide_span(false), Span::styled(
                lit("▶ Thinking... (ctrl+o to expand)"),
                SpanStyle::italic(Color::Secondary),
            )));
        }
        assert(lines_view(out@) =~= base + thought_lines(t@, collapsed, hovered));
        return;
    }
    if hovered {
        push_line(out, line2(guide_span(true), Span::styled(
            lit("▼ Thinking... (Double click to collapse)"),
            SpanStyle::bold(Color::Primary),
        )));
    } else {
        push_line(out, line2(guide_span(false), Span::styled(
            lit("▼ Thinking... (ctrl+o to collapse)"),
            SpanStyle::italic(Color::Secondary),
        )));
    }
    let text_style = if hovered { SpanStyle::italic(Color::Primary) } else { SpanStyle::italic(Color::Secondary) };
    let ls = split_lines(t.as_str());
    let ghost head = lines_view(out@);
    let ghost all = lines_of(t@).map_values(|l: Seq<char>| seq![thought_guide(hovered), (l, text_style)]);
    let mut i: usize = 0;
    assert(head + all.take(0) =~= head);
    while i < ls.len()
        invariant
            i <= ls@.len(),
            strings_view(ls@) == lines_of(t@),
            all == lines_of(t@).map_values(|l: Seq<char>| seq![thought_guide(hovered), (l, text_style)]),
            lines_view(out@) == head + all.take(i as int),
        decreases ls.len() - i,
    {
        assert(strings_view(ls@)[i as int] == ls@[i as int]@);
        push_line(out, line2(guide_span(hovered), Span::styled(ls[i].clone(), text_style)));
        assert(all.take(i + 1) =~= all.take(i as int).push(all[i as int]));
        i = i + 1;
    }
    assert(all.take(ls@.len() as int) =~= all);
    assert(lines_view(out@) =~= base + thought_lines(t@, collapsed, hovered));
}

/// The line of one tool call.
fn tool_call_line_of(tc: &ToolCall) -> (l: Line)
    ensures
        l@ == tool_call_line(*tc),
{
    let preview = match string_at(tc.arguments.as_str(), "/path") {
        Some(p) => concat3("(", p.as_str(), ")"),
        None => concat3("(", tc.name.as_str(), ")"),
    };
    line3(
        Span::styled(lit("   🛠 "), SpanStyle::fg(Color::Primary)),
        Span::styled(concat3("Using ", tc.name.as_str(), " "), SpanStyle::fg(Color::Text)),
        Span::styled(preview, SpanStyle::dim(Color::Secondary)),
    )
}

/// Appends the lines of the tool calls of a message to `out`.
fn push_tool_calls(out: &mut Vec<Line>, calls: &Option<Vec<ToolCall>>)
    ensures
        lines_view(final(out)@) == lines_view(old(out)@) + tool_call_lines(*calls),
{
    match calls {
        Some(v) => {
            let ghost base = lines_view(out@);
            let ghost all = v@.map_values(|tc: ToolCall| tool_call_line(tc));
            let mut i: usize = 0;
            assert(base + all.take(0) =~= base);
            while i < v.len()
                invariant
                    i <= v@.len(),
                    all == v@.map_values(|tc: ToolCall| tool_call_line(tc)),
                    lines_view(out@) == base + all.take(i as int),
                decreases v.len() - i,
            {
                push_line(out, tool_call_line_of(&v[i]));
                assert(all.take(i + 1) =~= all.take(i as int).push(all[i as int]));
                i = i + 1;
            }
            assert(all.take(v@.len() as int) =~= all);
        },
        None => {
            assert(lines_view(out@) + tool_call_lines(*calls) =~= lines_view(out@));
        },
    }
}

/// Whether a line opens or closes a fenced code block (see `is_fence`).
fn is_fence_line(l: &String) -> (b: bool)
    ensures
        b == is_fence(l@),
{
    let cs = chars_of(l.as_str());
    let k = count_leading_ws(cs.as_slice());
    let backquote_is_space = crate::text::char_is_whitespace('`');
    proof {
        assert(!is_white_space('`'));
        lemma_trim_end_keeps_prefix(trim_start(l@), seq!['`', '`', '`']);
    }
    has_prefix_at(cs.as_slice(), k, &['`', '`', '`']) && !backquote_is_space
}

/// Appends the lines of an assistant's reply to `out`.
fn push_reply(out: &mut Vec<Line>, c: &String)
    ensures
        lines_view(final(out)@) == lines_view(old(out)@) + reply_lines_from(lines_of(c@), 0, false),
{
    let ls = split_lines(c.as_str());
    let ghost base = lines_view(out@);
    let ghost l = lines_of(c@);
    let mut in_code = false;
    let mut i: usize = 0;
    while i < ls.len()
        invariant
            i <= ls@.len(),
            strings_view(ls@) == l,
            l == lines_of(c@),
            base + reply_lines_from(l, 0, false) == lines_view(out@) + reply_lines_from(l, i as int, in_code),
        decreases ls.len() - i,
    {
        assert(strings_view(ls@)[i as int] == ls@[i as int]@);
        let ghost before = lines_view(out@);
        let ghost ic = in_code;
        if is_fence_line(&ls[i]) {
            push_line(out, line2(Span::raw(lit("   ")), Span::styled(ls[i].clone(), SpanStyle::bold(Color::Primary))));
            in_code = !in_code;
        } else {
            let mut spans: Vec<Span> = Vec::new();
            push_span(&mut spans, Span::raw(lit("   ")));
            append_spans(&mut spans, parse_markdown_line(ls[i].as_str(), in_code));
            assert(spans_view(Seq::<Span>::empty()) =~= Seq::<SpanV>::empty());
            assert(Seq::<SpanV>::empty().push(("   "@, plain_style())) =~= seq![("   "@, plain_style())]);
            push_line(out, Line { spans });
        }
        assert(before + reply_lines_from(l, i as int, ic) =~= lines_view(out@)
            + reply_lines_from(l, i + 1, in_code));
        i = i + 1;
    }
    assert(reply_lines_from(l, i as int, in_code) =~= Seq::<Seq<SpanV>>::empty());
    assert(lines_view(out@) + Seq::<Seq<SpanV>>::empty() =~= lines_view(out@));
}

/// Appends the lines of an assistant message to `out`.
fn render_assistant(out: &mut Vec<Line>, m: &Message, collapsed: bool, hovered: bool)
    requires
        m.role == Role::Assistant,
    ensures
        lines_view(final(out)@) == lines_view(old(out)@) + assistant_lines(*m, collapsed, hovered),
{
    let ghost base = lines_view(out@);
    push_line(out, line1(Span::styled(lit(" ● RouteCode"), SpanStyle::bold(Color::Text))));
    let ghost l1 = lines_view(out@);
    match &m.thought {
        Some(t) => push_thought(out, t, collapsed, hovered),
        None => {},
    }
    let ghost l2 = lines_view(out@);
    push_tool_calls(out, &m.tool_calls);
    let ghost l3 = lines_view(out@);
    match &m.content {
        Some(c) => push_reply(out, c),
        None => {},
    }
    assert(lines_view(out@) =~= base + assistant_lines(*m, collapsed, hovered));
}

/// The diff line `l` of a tool result.
fn diff_line(l: &String) -> (r: Line)
    ensures
        r@ == seq![("     "@, plain_style()), (l@, diff_style(l@))],
{
    let cs = chars_of(l.as_str());
    let style = if cs.len() > 0 && cs[0] == '+' {
        SpanStyle::fg(Color::Success)
    } else if cs.len() > 0 && cs[0] == '-' {
        SpanStyle::fg(Color::Red)
    } else {
        SpanStyle::fg(Color::Dim)
    };
    line2(Span::raw(lit("     ")), Span::styled(l.clone(), style))
}

/// Appends the lines of a decoded tool result to `out`.
fn push_result(out: &mut Vec<Line>, r: &ToolResult)
    ensures
        lines_view(final(out)@) == lines_view(old(out)@) + result_lines(*r),
{
    let ghost base = lines_view(out@);
    match &r.diff {
        Some(d) => {
            let ls = split_lines(d.as_str());
            let ghost all = lines_of(d@).map_values(|l: Seq<char>| seq![("     "@, plain_style()), (l, diff_style(l))]);
            let mut i: usize = 0;
            assert(base + all.take(0) =~= base);
            while i < ls.len()
                invariant
                    i <= ls@.len(),
                    strings_view(ls@) == lines_of(d@),
                    all == lines_of(d@).map_values(|l: Seq<char>| seq![("     "@, plain_style()), (l, diff_style(l))]),
                    lines_view(out@) == base + all.take(i as int),
                decreases ls.len() - i,
            {
                assert(strings_view(ls@)[i as int] == ls@[i as int]@);
                push_line(out, diff_line(&ls[i]));
                assert(all.take(i + 1) =~= all.take(i as int).push(all[i as int]));
                i = i + 1;
            }
            assert(all.take(ls@.len() as int) =~= all);
        },
        None => match &r.content {
            Some(o) => {
                let p = preview(o);
                push_line(out, line1(Span::styled(concat2("     ", p.as_str()), SpanStyle::dim(Color::Dim))));
                assert(lines_view(out@) =~= base + result_lines(*r));
            },
            None => match &r.error {
                Some(e) => {
                    push_line(out, line1(Span::styled(concat2("     Error: ", e.as_str()), SpanStyle::fg(Color::Red))));
                    assert(lines_view(out@) =~= base + result_lines(*r));
                },
                None => {
                    assert(lines_view(out@) =~= base + result_lines(*r));
                },
            },
        },
    }
}

/// Appends the lines of a tool message to `out`.
fn render_tool(out: &mut Vec<Line>, m: &Message)
    requires
        m.role == Role::Tool,
    ensures
        lines_view(final(out)@) == lines_view(old(out)@) + tool_lines(*m),
{
    let ghost base = lines_view(out@);
    let header = match &m.name {
        Some(n) => concat3("   ✓ Tool (", n.as_str(), ")"),
        None => concat3("   ✓ Tool (", "result", ")"),
    };
    push_line(out, line1(Span::styled(header, SpanStyle::fg(Color::Secondary))));
    let ghost l1 = lines_view(out@);
    match &m.content {
        Some(c) => match &m.tool_result {
            Some(r) => push_result(out, r),
            None => {
                let p = preview(c);
                push_line(out, line1(Span::styled(concat2("     ", p.as_str()), SpanStyle::dim(Color::Dim))));
            },
        },
        None => {},
    }
    assert(lines_view(out@) =~= base + tool_lines(*m));
}

/// Appends the lines of a system message to `out`.
fn render_system(out: &mut Vec<Line>, m: &Message)
    requires
        m.role == Role::System,
    ensures
        lines_view(final(out)@) == lines_view(old(out)@) + system_lines(*m),
{
    let ghost base = lines_view(out@);
    push_line(out, line1(Span::styled(lit(" ● System"), SpanStyle::dim(Color::System))));
    match &m.content {
        Some(c) => push_line(out, line1(Span::styled(concat2("   ", c.as_str()), SpanStyle::dim(Color::System)))),
        None => {},
    }
    assert(lines_view(out@) =~= base + system_lines(*m));
}

/// Appends the lines of one message, and the empty line after it, to `out`.
fn render_message(out: &mut Vec<Line>, m: &Message, collapsed: bool, hovered: bool)
    ensures
        lines_view(final(out)@) == lines_view(old(out)@) + message_lines(*m, collapsed, hovered),
{
    let ghost base = lines_view(out@);
    match m.role {
        Role::User => render_user(out, m),
        Role::Assistant => render_assistant(out, m, collapsed, hovered),
        Role::Tool => render_tool(out, m),
        Role::System => render_system(out, m),
    }
    push_line(out, blank_line());
    assert(lines_view(out@) =~= base + message_lines(*m, collapsed, hovered));
}

/// Renders one message into styled lines, the empty line after it included
/// (see `message_lines`).
pub fn render_message_lines(m: &Message, collapse_thinking: bool, thinking_hovered: bool) -> (lines: Vec<Line>)
    ensures
        lines_view(lines@) == message_lines(*m, collapse_thinking, thinking_hovered),
{
    let mut out: Vec<Line> = Vec::new();
    assert(lines_view(out@) =~= Seq::<Seq<SpanV>>::empty());
    render_message(&mut out, m, collapse_thinking, thinking_hovered);
    assert(lines_view(out@) =~= message_lines(*m, collapse_thinking, thinking_hovered));
    out
}

/// Renders the chat history (see `render_history`) and tells which of its
/// lines belong to a thought (see `history_marks`).
pub fn render_history_marked(history: &[Message], collapse_thinking: bool, thinking_hovered: bool) -> (r: (
    Vec<Line>,
    Vec<bool>,
))
    ensures
        lines_view(r.0@) == history_lines(history@, collapse_thinking, thinking_hovered),
        r.1@ == history_marks(history@, collapse_thinking, thinking_hovered),
{
    let mut out: Vec<Line> = Vec::new();
    let mut marks: Vec<bool> = Vec::new();
    let mut i: usize = 0;
    assert(lines_view(out@) =~= Seq::<Seq<SpanV>>::empty());
    assert(history@.take(0) =~= Seq::<Message>::empty());
    while i < history.len()
        invariant
            i <= history@.len(),
            lines_view(out@) == history_lines(history@.take(i as int), collapse_thinking, thinking_hovered),
            marks@ == history_marks(history@.take(i as int), collapse_thinking, thinking_hovered),
        decreases history.len() - i,
    {
        proof {
            lemma_history_lines_take(history@, i as int, collapse_thinking, thinking_hovered);
            assert(history@.take(i + 1).drop_last() =~= history@.take(i as int));
        }
        let m = &history[i];
        let mut ls = render_message_lines(m, collapse_thinking, thinking_hovered);
        let n = ls.len();
        let with_thought = m.role == Role::Assistant && m.thought.is_some();
        let extra: usize = match &m.thought {
            Some(t) => {
                let v = split_lines(t.as_str());
                assert(strings_view(v@).len() == v@.len());
                v.len()
            },
            None => 0,
        };
        proof {
            if let Some(t) = &m.thought {
                assert(thought_lines(t@, collapse_thinking, thinking_hovered).len() == (if collapse_thinking {
                    1int
                } else {
                    1 + lines_of(t@).len() as int
                }));
                assert(extra == lines_of(t@).len());
            }
        }
        let ghost before = marks@;
        let mut j: usize = 0;
        while j < n
            invariant
                j <= n,
                n == message_lines(*m, collapse_thinking, thinking_hovered).len(),
                with_thought ==> thought_line_count(*m, collapse_thinking, thinking_hovered) == (if collapse_thinking {
                    1int
                } else {
                    1 + extra as int
                }),
                !with_thought ==> thought_line_count(*m, collapse_thinking, thinking_hovered) == 0,
                marks@ == before + thought_marks(*m, collapse_thinking, thinking_hovered).take(j as int),
            decreases n - j,
        {
            let mark = with_thought && j >= 1 && (j == 1 || (!collapse_thinking && j - 2 < extra));
            marks.push(mark);
            assert(marks@ =~= before + thought_marks(*m, collapse_thinking, thinking_hovered).take(j + 1));
            j = j + 1;
        }
        let ghost lv = lines_view(out@);
        let ghost mv = lines_view(ls@);
        out.append(&mut ls);
        assert(lines_view(out@) =~= lv + mv);
        assert(thought_marks(*m, collapse_thinking, thinking_hovered).take(n as int) =~= thought_marks(
            *m,
            collapse_thinking,
            thinking_hovered,
        ));
        i = i + 1;
    }
    assert(history@.take(history@.len() as int) =~= history@);
    (out, marks)
}

proof fn lemma_history_lines_take(h: Seq<Message>, i: int, collapsed: bool, hovered: bool)
    requires
        0 <= i < h.len(),
    ensures
        history_lines(h.take(i + 1), collapsed, hovered) == history_lines(h.take(i), collapsed, hovered)
            + message_lines(h[i], collapsed, hovered),
{
    assert(h.take(i + 1).drop_last() =~= h.take(i));
}

/// Renders the chat history into styled lines: for each message a header
/// naming its author, its body, and an empty line (see `message_lines`).
/// `collapse_thinking` folds each thought into one line; `thinking_hovered`
/// draws thoughts highlighted.
pub fn render_history(history: &[Message], collapse_thinking: bool, thinking_hovered: bool) -> (lines: Vec<Line>)
    ensures
        lines_view(lines@) == history_lines(history@, collapse_thinking, thinking_hovered),
{
    let mut out: Vec<Line> = Vec::new();
    let mut i: usize = 0;
    assert(lines_view(out@) =~= Seq::<Seq<SpanV>>::empty());
    assert(history@.take(0) =~= Seq::<Message>::empty());
    while i < history.len()
        invariant
            i <= history@.len(),
            lines_view(out@) == history_lines(history@.take(i as int), collapse_thinking, thinking_hovered),
        decreases history.len() - i,
    {
        proof {
            lemma_history_lines_take(history@, i as int, collapse_thinking, thinking_hovered);
        }
        render_message(&mut out, &history[i], collapse_thinking, thinking_hovered);
        i = i + 1;
    }
    assert(history@.take(history@.len() as int) =~= history@);
    out
}

} // verus!
