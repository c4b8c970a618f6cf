//! What the chunks that a generation streams back do to the state: text and
//! thoughts grow the assistant's reply, tool calls are merged into it, tool
//! results and errors join the chat, and the end, the models fetched, the
//! final chat and requests for confirmation are recorded.

use vstd::prelude::*;
use vstd::string::StringExecFns;
use crate::chat::{Message, Role, ToolCall, ToolResult, concat2};
use crate::json::{json_string_at, json_object_at, json_array_at, string_at, object_at, array_at};
use crate::keys::Effect;
use crate::state::{App, Part, Chat, Menus, Prompts, ModelInfo, unchanged_except, notice_added, opt_text};
use crate::text::chars_of;

verus! {

/// A chunk streamed back by a generation. A tool result carries its content
/// decoded as a tool result, where it decodes as one.
#[derive(Debug)]
pub enum StreamChunk {
    Text(String),
    Thought(String),
    ToolCall(ToolCall),
    ToolResult { name: String, content: String, tool_call_id: String, decoded: Option<ToolResult> },
    Done,
    Error(String),
    Models(Vec<ModelInfo>),
    ModelsDone,
    FinalHistory(Vec<Message>),
    RequestConfirmation { message: String, target: String },
    Other,
}

/// Whether the chat ends with a message of the assistant.
pub open spec fn ends_with_reply(h: Seq<Message>) -> bool {
    h.len() > 0 && h.last().role == Role::Assistant
}

/// The tool calls of an optional list (none when there is no list).
pub open spec fn calls_of(o: Option<Vec<ToolCall>>) -> Seq<ToolCall> {
    match o {
        Some(v) => v@,
        None => seq![],
    }
}

/// The stream positions of the tool calls.
pub open spec fn call_indices(calls: Seq<ToolCall>) -> Seq<Option<u64>> {
    calls.map_values(|c: ToolCall| c.index)
}

/// The tool calls after `tc` arrives. A call with a stream position replaces
/// the first call at that position, or joins at the end when there is none.
/// A call without one joins at the end unless a call with the same non-empty
/// id is there already.
pub open spec fn merged_calls(calls: Seq<ToolCall>, tc: ToolCall) -> Seq<ToolCall> {
    match tc.index {
        Some(idx) => match call_indices(calls).index_of_first(Some(idx)) {
            Some(j) => calls.update(j, tc),
            None => calls.push(tc),
        },
        None => if exists|j: int| 0 <= j < calls.len() && (#[trigger] calls[j]).id@ == tc.id@ && calls[j].id@.len() > 0 {
            calls
        } else {
            calls.push(tc)
        },
    }
}

/// The chat `post` is `pre`'s with its last message replaced by `m`.
pub open spec fn last_replaced(pre: Seq<Message>, post: Seq<Message>, m: Message) -> bool {
    post.len() == pre.len() && post.drop_last() == pre.drop_last() && post.last() == m
}

/// The chat `post` is `pre`'s with `m` added at its end.
pub open spec fn appended(pre: Seq<Message>, post: Seq<Message>, m: Message) -> bool {
    post.len() == pre.len() + 1 && post.drop_last() == pre && post.last() == m
}

/// A message of the assistant with nothing in it but what is given.
pub open spec fn reply(content: Option<String>, thought: Option<String>, calls: Option<Vec<ToolCall>>) -> Message {
    Message {
        role: Role::Assistant,
        content,
        thought,
        tool_calls: calls,
        name: None,
        tool_call_id: None,
        tool_result: None,
    }
}

/// Text streamed back: appended to the content of the assistant's message
/// that ends the chat, else a new message of the assistant holds it.
pub open spec fn text_chunk_post(pre: Seq<Message>, post: Seq<Message>, c: Seq<char>) -> bool {
    if ends_with_reply(pre) {
        let m = pre.last();
        &&& last_replaced(pre, post, Message { content: post.last().content, ..m })
        &&& post.last().content is Some
        &&& opt_text(post.last().content) == opt_text(m.content) + c
    } else {
        &&& appended(pre, post, reply(post.last().content, None, None))
        &&& post.last().content is Some
        &&& opt_text(post.last().content) == c
    }
}

/// A thought streamed back: as text, but into the thought.
pub open spec fn thought_chunk_post(pre: Seq<Message>, post: Seq<Message>, c: Seq<char>) -> bool {
    if ends_with_reply(pre) {
        let m = pre.last();
        &&& last_replaced(pre, post, Message { thought: post.last().thought, ..m })
        &&& post.last().thought is Some
        &&& opt_text(post.last().thought) == opt_text(m.thought) + c
    } else {
        &&& appended(pre, post, reply(None, post.last().thought, None))
        &&& post.last().thought is Some
        &&& opt_text(post.last().thought) == c
    }
}

/// A tool call streamed back: merged into the calls of the assistant's
/// message that ends the chat (see `merged_calls`), else a new message of the
/// assistant holds it alone.
pub open spec fn call_chunk_post(pre: Seq<Message>, post: Seq<Message>, tc: ToolCall) -> bool {
    &&& post.last().tool_calls is Some
    &&& if ends_with_reply(pre) {
        let m = pre.last();
        &&& last_replaced(pre, post, Message { tool_calls: post.last().tool_calls, ..m })
        &&& calls_of(post.last().tool_calls) == merged_calls(calls_of(m.tool_calls), tc)
    } else {
        &&& appended(pre, post, reply(None, None, post.last().tool_calls))
        &&& calls_of(post.last().tool_calls) == seq![tc]
    }
}

/// The part of an error text where its JSON starts: from the first `{`, or
/// all of it when there is none.
pub open spec fn json_part(s: Seq<char>) -> Seq<char> {
    match s.index_of_first('{') {
        Some(i) => s.skip(i),
        None => s,
    }
}

/// The message shown for an error text `s`, read from its JSON part `j`
/// (see `json_part`) as `serde_json` parses it: `error.message` where it is a
/// string; otherwise the text itself where `error` is an object; else
/// `message` where it is a string; else, where `errors` is an array, the
/// `message` of its first element where that is a string; and the text
/// itself in every other case (text that is no JSON among them). An `error`
/// object without a `message` key also gives the text itself: reading that key
/// with `Map`'s `[]` would panic, and this function does not.
pub open spec fn error_display(s: Seq<char>) -> Seq<char> {
    let j = json_part(s);
    match json_string_at(j, "/error/message"@) {
        Some(m) => m,
        None => if json_object_at(j, "/error"@) {
            s
        } else {
            match json_string_at(j, "/message"@) {
                Some(m) => m,
                None => if json_array_at(j, "/errors"@) {
                    match json_string_at(j, "/errors/0/message"@) {
                        Some(m) => m,
                        None => s,
                    }
                } else {
                    s
                },
            }
        },
    }
}

/// What a chunk does to the state, and the outside work it asks for.
pub open spec fn chunk_post(pre: App, post: App, chunk: StreamChunk, effects: Seq<Effect>) -> bool {
    let h = pre.chat.history@;
    let h2 = post.chat.history@;
    let same_chat = Chat { history: post.chat.history, ..pre.chat };
    match chunk {
        StreamChunk::Text(c) => {
            &&& effects.len() == 0
            &&& text_chunk_post(h, h2, c@)
            &&& post.chat == same_chat
            &&& unchanged_except(pre, post, set![Part::Chat])
        },
        StreamChunk::Thought(c) => {
            &&& effects.len() == 0
            &&& thought_chunk_post(h, h2, c@)
            &&& post.chat == same_chat
            &&& unchanged_except(pre, post, set![Part::Chat])
        },
        StreamChunk::ToolCall(tc) => {
            &&& effects.len() == 0
            &&& call_chunk_post(h, h2, tc)
            &&& post.chat == (Chat { history: post.chat.history, active_tool: post.chat.active_tool, ..pre.chat })
            &&& post.chat.active_tool is Some
            &&& opt_text(post.chat.active_tool) == tc.name@
            &&& unchanged_except(pre, post, set![Part::Chat])
        },
        StreamChunk::ToolResult { name, content, tool_call_id, decoded } => {
            &&& effects.len() == 0
            &&& appended(h, h2, Message {
                role: Role::Tool,
                content: Some(content),
                thought: None,
                tool_calls: None,
                name: Some(name),
                tool_call_id: Some(tool_call_id),
                tool_result: decoded,
            })
            &&& post.chat == (Chat { history: post.chat.history, active_tool: None, ..pre.chat })
            &&& unchanged_except(pre, post, set![Part::Chat])
        },
        StreamChunk::Done => {
            &&& effects.len() == 0
            &&& post.chat == (Chat { is_generating: false, active_tool: None, ..pre.chat })
            &&& unchanged_except(pre, post, set![Part::Chat])
        },
        StreamChunk::Error(c) => {
            let mid = App { chat: Chat { is_generating: false, active_tool: None, ..pre.chat }, ..pre };
            &&& effects.len() == 0
            &&& notice_added(mid, post, "Error: "@ + error_display(c@))
            &&& unchanged_except(pre, post, set![Part::Chat])
        },
        StreamChunk::Models(ms) => {
            &&& effects =~= seq![Effect::SearchModels(false)]
            &&& post.menus.all_available_models@ == pre.menus.all_available_models@ + ms@
            &&& post.menus == (Menus { all_available_models: post.menus.all_available_models, ..pre.menus })
            &&& unchanged_except(pre, post, set![Part::Menus])
        },
        StreamChunk::ModelsDone => {
            &&& effects.len() == 0
            &&& post.chat == (Chat { is_fetching_models: false, ..pre.chat })
            &&& unchanged_except(pre, post, set![Part::Chat])
        },
        StreamChunk::FinalHistory(nh) => {
            &&& effects.len() == 0
            &&& post.chat == (Chat { history: nh, ..pre.chat })
            &&& unchanged_except(pre, post, set![Part::Chat])
        },
        StreamChunk::RequestConfirmation { message, target } => {
            &&& effects.len() == 0
            &&& post.prompts == (Prompts { command_confirmation: Some((message, target)), ..pre.prompts })
            &&& unchanged_except(pre, post, set![Part::Prompts])
        },
        StreamChunk::Other => effects.len() == 0 && unchanged_except(pre, post, Set::empty()),
    }
}

/// The position of the first `{` of `s` (see `json_part`).
fn first_brace(cs: &Vec<char>) -> (r: Option<usize>)
    ensures
        match r {
            Some(i) => i < cs@.len() && cs@.index_of_first('{') == Some(i as int),
            None => cs@.index_of_first('{') is None,
        },
{
    let mut i: usize = 0;
    while i < cs.len()
        invariant
            i <= cs@.len(),
            forall|k: int| 0 <= k < i ==> cs@[k] != '{',
        decreases cs.len() - i,
    {
        if cs[i] == '{' {
            proof {
                cs@.index_of_first_ensures('{');
            }
            return Some(i);
        }
        i = i + 1;
    }
    proof {
        cs@.index_of_first_ensures('{');
    }
    None
}

/// The message shown for an error text (see `error_display`); an `error`
/// object without a `message` key gives the text itself, where indexing the
/// object by that key would panic.
pub fn error_message(content: &String) -> (r: String)
    ensures
        r@ == error_display(content@),
{
    let cs = chars_of(content.as_str());
    let part = match first_brace(&cs) {
        Some(i) => crate::text::string_of(cs.as_slice(), i, cs.len()),
        None => content.clone(),
    };
    proof {
        cs@.index_of_first_ensures('{');
        if let Some(i) = cs@.index_of_first('{') {
            assert(cs@.subrange(i, cs@.len() as int) =~= cs@.skip(i));
        }
    }
    match string_at(part.as_str(), "/error/message") {
        Some(m) => m,
        None => if object_at(part.as_str(), "/error") {
            content.clone()
        } else {
            match string_at(part.as_str(), "/message") {
                Some(m) => m,
                None => if array_at(part.as_str(), "/errors") {
                    match string_at(part.as_str(), "/errors/0/message") {
                        Some(m) => m,
                        None => content.clone(),
                    }
                } else {
                    content.clone()
                },
            }
        },
    }
}

/// Merges `tc` into `calls` (see `merged_calls`).
pub fn merge_tool_call(calls: &mut Vec<ToolCall>, tc: ToolCall)
    ensures
        final(calls)@ == merged_calls(old(calls)@, tc),
{
    match tc.index {
        Some(idx) => {
            let ghost ix = call_indices(calls@);
            let mut i: usize = 0;
            let mut found: Option<usize> = None;
            while i < calls.len()
                invariant
                    i <= calls@.len(),
                    ix == call_indices(calls@),
                    found is None ==> forall|k: int| 0 <= k < i ==> ix[k] != Some(idx),
                    found matches Some(j) ==> j < calls@.len() && ix[j as int] == Some(idx) && forall|k: int|
                        0 <= k < j ==> ix[k] != Some(idx),
                decreases calls.len() - i,
            {
                if found.is_none() {
                    let same = match calls[i].index {
                        Some(x) => x == idx,
                        None => false,
                    };
                    if same {
                        found = Some(i);
                    }
                }
                i = i + 1;
            }
            proof {
                ix.index_of_first_ensures(Some(idx));
            }
            match found {
                Some(j) => {
                    calls.set(j, tc);
                },
                None => {
                    calls.push(tc);
                },
            }
        },
        None => {
            let mut dup = false;
            let mut i: usize = 0;
            while i < calls.len()
                invariant
                    i <= calls@.len(),
                    dup == exists|j: int| 0 <= j < i && (#[trigger] calls@[j]).id@ == tc.id@ && calls@[j].id@.len() > 0,
                decreases calls.len() - i,
            {
                if calls[i].id == tc.id && !calls[i].id.as_str().is_empty() {
                    dup = true;
                }
                i = i + 1;
            }
            if !dup {
                calls.push(tc);
            }
        },
    }
}

/// The chat of `app` with its last message taken off, and that message.
fn pop_last(h: &mut Vec<Message>) -> (m: Message)
    requires
        old(h)@.len() > 0,
    ensures
        m == old(h)@.last(),
        final(h)@ == old(h)@.drop_last(),
{
    match h.pop() {
        Some(m) => m,
        None => Message::system(String::new()),
    }
}

impl App {
    /// Whether the chat ends with a message of the assistant.
    fn reply_is_last(&self) -> (b: bool)
        ensures
            b == ends_with_reply(self.chat.history@),
    {
        let n = self.chat.history.len();
        n > 0 && self.chat.history[n - 1].role == Role::Assistant
    }

    /// Text streamed back (see `text_chunk_post`).
    fn add_text(&mut self, c: String)
        ensures
            text_chunk_post(old(self).chat.history@, final(self).chat.history@, c@),
            final(self).chat == (Chat { history: final(self).chat.history, ..old(self).chat }),
            unchanged_except(*old(self), *final(self), set![Part::Chat]),
    {
        let ghost h0 = self.chat.history@;
        if self.reply_is_last() {
            let mut m = pop_last(&mut self.chat.history);
            let ghost before = m;
            let mut cur = match m.content.take() {
                Some(s) => s,
                None => String::new(),
            };
            cur.append(c.as_str());
            m.content = Some(cur);
            assert(m == (Message { content: m.content, ..before }));
            self.chat.history.push(m);
            assert(self.chat.history@.drop_last() =~= h0.drop_last());
        } else {
            self.chat.history.push(Message::assistant(Some(c), None, None));
            assert(self.chat.history@.drop_last() =~= h0);
        }
    }

    /// A thought streamed back (see `thought_chunk_post`).
    fn add_thought(&mut self, c: String)
        ensures
            thought_chunk_post(old(self).chat.history@, final(self).chat.history@, c@),
            final(self).chat == (Chat { history: final(self).chat.history, ..old(self).chat }),
            unchanged_except(*old(self), *final(self), set![Part::Chat]),
    {
        let ghost h0 = self.chat.history@;
        if self.reply_is_last() {
            let mut m = pop_last(&mut self.chat.history);
            let ghost before = m;
            let mut cur = match m.thought.take() {
                Some(s) => s,
                None => String::new(),
            };
            cur.append(c.as_str());
            m.thought = Some(cur);
            assert(m == (Message { thought: m.thought, ..before }));
            self.chat.history.push(m);
            assert(self.chat.history@.drop_last() =~= h0.drop_last());
        } else {
            self.chat.history.push(Message::assistant(None, Some(c), None));
            assert(self.chat.history@.drop_last() =~= h0);
        }
    }

    /// A tool call streamed back (see `call_chunk_post`).
    fn add_tool_call(&mut self, tc: ToolCall)
        ensures
            call_chunk_post(old(self).chat.history@, final(self).chat.history@, tc),
            final(self).chat == (Chat { history: final(self).chat.history, ..old(self).chat }),
            unchanged_except(*old(self), *final(self), set![Part::Chat]),
    {
        let ghost h0 = self.chat.history@;
        if self.reply_is_last() {
            let mut m = pop_last(&mut self.chat.history);
            let ghost before = m;
            let mut calls = match m.tool_calls.take() {
                Some(v) => v,
                None => Vec::new(),
            };
            merge_tool_call(&mut calls, tc);
            m.tool_calls = Some(calls);
            assert(m == (Message { tool_calls: m.tool_calls, ..before }));
            self.chat.history.push(m);
            assert(self.chat.history@.drop_last() =~= h0.drop_last());
        } else {
            let mut calls: Vec<ToolCall> = Vec::new();
            calls.push(tc);
            self.chat.history.push(Message::assistant(None, None, Some(calls)));
            assert(self.chat.history@.drop_last() =~= h0);
        }
    }

    /// A tool call streamed back: it becomes the active tool and is merged
    /// into the reply.
    fn on_tool_call(&mut self, tc: ToolCall) -> (effects: Vec<Effect>)
        ensures
            chunk_post(*old(self), *final(self), StreamChunk::ToolCall(tc), effects@),
            old(self).wf() ==> final(self).wf(),
    {
        self.chat.active_tool = Some(tc.name.clone());
        self.add_tool_call(tc);
        Vec::new()
    }

    /// A tool result streamed back: it joins the chat as a tool message.
    fn on_tool_result(&mut self, name: String, content: String, tool_call_id: String, decoded: Option<ToolResult>) -> (effects: Vec<Effect>)
        ensures
            chunk_post(
                *old(self),
                *final(self),
                StreamChunk::ToolResult { name, content, tool_call_id, decoded },
                effects@,
            ),
            old(self).wf() ==> final(self).wf(),
    {
        self.chat.active_tool = None;
        let ghost h = self.chat.history@;
        self.chat.history.push(Message::tool(tool_call_id, name, content, decoded));
        assert(self.chat.history@.drop_last() =~= h);
        Vec::new()
    }

    /// An error streamed back: the generation ends with a notice of the
    /// error.
    fn on_error(&mut self, c: String) -> (effects: Vec<Effect>)
        ensures
            chunk_post(*old(self), *final(self), StreamChunk::Error(c), effects@),
            old(self).wf() ==> final(self).wf(),
    {
        let shown = error_message(&c);
        self.chat.is_generating = false;
        self.chat.active_tool = None;
        self.push_system(concat2("Error: ", shown.as_str()));
        Vec::new()
    }

    /// Models fetched: they join the models available, and the search runs
    /// again.
    fn on_models(&mut self, ms: Vec<ModelInfo>) -> (effects: Vec<Effect>)
        ensures
            chunk_post(*old(self), *final(self), StreamChunk::Models(ms), effects@),
            old(self).wf() ==> final(self).wf(),
    {
        let mut ms2 = ms;
        self.menus.all_available_models.append(&mut ms2);
        let mut effects: Vec<Effect> = Vec::new();
        effects.push(Effect::SearchModels(false));
        effects
    }

    /// Applies one streamed chunk (see `chunk_post`) and returns the outside
    /// work it asks for.
    pub fn apply_stream_chunk(&mut self, chunk: StreamChunk) -> (effects: Vec<Effect>)
        ensures
            chunk_post(*old(self), *final(self), chunk, effects@),
            old(self).wf() ==> final(self).wf(),
    {
        match chunk {
            StreamChunk::Text(c) => {
                self.add_text(c);
                Vec::new()
            },
            StreamChunk::Thought(c) => {
                self.add_thought(c);
                Vec::new()
            },
            StreamChunk::ToolCall(tc) => self.on_tool_call(tc),
            StreamChunk::ToolResult { name, content, tool_call_id, decoded } => self.on_tool_result(
                name,
                content,
                tool_call_id,
                decoded,
            ),
            StreamChunk::Done => {
                self.chat.is_generating = false;
                self.chat.active_tool = None;
                Vec::new()
            },
            StreamChunk::Error(c) => self.on_error(c),
            StreamChunk::Models(ms) => self.on_models(ms),
            StreamChunk::ModelsDone => {
                self.chat.is_fetching_models = false;
                Vec::new()
            },
            StreamChunk::FinalHistory(h) => {
                self.chat.history = h;
                Vec::new()
            },
            StreamChunk::RequestConfirmation { message, target } => {
                self.prompts.command_confirmation = Some((message, target));
                Vec::new()
            },
            StreamChunk::Other => Vec::new(),
        }
    }
}

} // verus!
