//! Properties of the interface that relate several steps, or hold of every
//! step.

use vstd::prelude::*;
use crate::chat::{Message, Role, ToolCall, history_lines};
use crate::enter::{send_post, input_text, next_logo_animation, next_logo_color};
use crate::events::key_step;
use crate::keys::{Effect, KeyInput};
use crate::models::{same_model, favorites_after, without_model};
use crate::mouse::{mouse_post, MouseInput, tick_post};
use crate::render::{scroll_after, view_rows, view_wrap_width, view_lines_rows, refresh_post};
use crate::layout::is_collapsed;
use crate::style::lines_view;
use vstd::utf8::{encode_utf8, encode_scalar};
use crate::layout::{hover_rows, hover_wrap_width, lines_rows, message_hovered, thinking_hovered, history_height, pointer_target};
use crate::state::Pointer;
use crate::style::SpanV;
use crate::shortcuts::{ctrl_up_post, ctrl_down_post};
use crate::keys::{input_is_empty, any_menu};
use crate::mouse::wheel_post;
use crate::text::lines_of;
use crate::state::{App, Scroll, ModelInfo, box_lines, opt_text};
use crate::stream::{text_chunk_post, ends_with_reply, merged_calls, call_indices, chunk_post, StreamChunk};
use crate::text::{strings_view, trim, starts_with};

verus! {

/// The prompt just sent comes back with Control+Up: after text that is no
/// command is sent, Control+Up puts it back in the input, as the last prompt
/// sent.
pub proof fn law_sent_prompt_recalled(pre: App, mid: App, post: App, e1: Seq<Effect>, e2: Seq<Effect>)
    requires
        send_post(pre, mid, e1),
        trim(input_text(pre)).len() > 0,
        !starts_with(input_text(pre), seq!['/']),
        ctrl_up_post(mid, post, e2),
    ensures
        strings_view(post.input.lines@) == box_lines(input_text(pre)),
        post.input.prompt_history_index == Some(pre.input.prompt_history@.len() as usize),
        e2.len() == 1,
        e2[0] matches Effect::SetInput(t) && t@ == input_text(pre),
{
    let n = pre.input.prompt_history@.len();
    assert(strings_view(mid.input.prompt_history@).len() == mid.input.prompt_history@.len());
    assert(strings_view(mid.input.lines@).len() == mid.input.lines@.len());
    assert(mid.input.lines@[0]@ == strings_view(mid.input.lines@)[0]);
    assert(mid.input.prompt_history@[n as int]@ == strings_view(mid.input.prompt_history@)[n as int]);
}

/// Browsing the prompts sent and back: from an empty input, not browsing,
/// Control+Up shows the last prompt sent, and where that prompt is one line
/// Control+Down then empties the input and ends browsing.
pub proof fn law_prompt_browse_round_trip(pre: App, mid: App, post: App, e1: Seq<Effect>, e2: Seq<Effect>)
    requires
        pre.input.cursor_row == 0,
        input_is_empty(pre),
        0 < pre.input.prompt_history@.len() <= usize::MAX,
        pre.input.prompt_history_index is None,
        lines_of(pre.input.prompt_history@.last()@).len() <= 1,
        ctrl_up_post(pre, mid, e1),
        ctrl_down_post(mid, post, e2),
    ensures
        strings_view(mid.input.lines@) == box_lines(pre.input.prompt_history@.last()@),
        strings_view(post.input.lines@) == seq![Seq::<char>::empty()],
        post.input.prompt_history_index is None,
        post.input.prompt_history@ == pre.input.prompt_history@,
{
    let n = pre.input.prompt_history@.len();
    let t = pre.input.prompt_history@.last()@;
    assert(box_lines(t).len() == 1);
    assert(strings_view(mid.input.lines@).len() == mid.input.lines@.len());
    assert(mid.input.lines@.len() == 1);
    assert(mid.input.cursor_row == 0);
    assert(mid.input.prompt_history_index == Some((n - 1) as usize));
    assert(mid.input.prompt_history@.len() == n);
}

/// Scrolling the chat up and then down with the wheel, outside menus, comes
/// back to the row one started from, where one was at least 15 rows down.
pub proof fn law_wheel_round_trip(a: App, b: App, c: App)
    requires
        !any_menu(a.menus),
        a.scroll.history_scroll >= 15,
        wheel_post(a, b, true),
        wheel_post(b, c, false),
    ensures
        c.scroll.history_scroll == a.scroll.history_scroll,
{
}

/// Streamed text accumulates in one reply: two pieces of text in a row leave
/// the chat ending with a reply of the assistant whose content ends with
/// both, in order (a new reply is started only where the chat did not end
/// with one).
pub proof fn law_text_chunks_accumulate(h0: Seq<Message>, h1: Seq<Message>, h2: Seq<Message>, a: Seq<char>, b: Seq<char>)
    requires
        text_chunk_post(h0, h1, a),
        text_chunk_post(h1, h2, b),
    ensures
        h2.len() == (if ends_with_reply(h0) { h0.len() } else { h0.len() + 1 }),
        h2.last().role == Role::Assistant,
        opt_text(h2.last().content) == (if ends_with_reply(h0) { opt_text(h0.last().content) } else { seq![] }) + a
            + b,
{
    assert(ends_with_reply(h1));
    if !ends_with_reply(h0) {
        assert(seq![] + a =~= a);
    }
}

/// Tool calls with the same stream position do not pile up: once a call
/// with a position is merged, another call with that position takes its
/// place, and the list keeps its length.
pub proof fn law_positioned_calls_replace(calls: Seq<ToolCall>, a: ToolCall, b: ToolCall)
    requires
        a.index is Some,
        b.index == a.index,
    ensures
        merged_calls(merged_calls(calls, a), b).len() == merged_calls(calls, a).len(),
{
    let idx = a.index->0;
    let m1 = merged_calls(calls, a);
    let ix = call_indices(calls);
    ix.index_of_first_ensures(Some(idx));
    let j = match ix.index_of_first(Some(idx)) {
        Some(j) => j,
        None => calls.len() as int,
    };
    assert(0 <= j < m1.len() && m1[j] == a);
    assert(call_indices(m1)[j] == Some(idx));
    call_indices(m1).index_of_first_ensures(Some(idx));
    assert(call_indices(m1).contains(Some(idx)));
}

proof fn lemma_filter_keeps_all(s: Seq<ModelInfo>, m: ModelInfo)
    requires
        forall|i: int| 0 <= i < s.len() ==> !same_model(#[trigger] s[i], m),
    ensures
        without_model(s, m) == s,
    decreases s.len(),
{
    let p = |x: ModelInfo| !same_model(x, m);
    if s.len() > 0 {
        lemma_filter_keeps_all(s.drop_last(), m);
        assert(s.drop_last().push(s.last()) =~= s);
        s.drop_last().lemma_filter_push(s.last(), p);
    } else {
        assert(s.filter(p) =~= s);
    }
}

/// Toggling a model that is not a favourite twice gives the favourites
/// back: it is added at the end, then removed.
pub proof fn law_favorite_toggle_twice(f: Seq<ModelInfo>, m: ModelInfo)
    requires
        forall|i: int| 0 <= i < f.len() ==> !same_model(#[trigger] f[i], m),
    ensures
        favorites_after(f, m) == f.push(m),
        favorites_after(favorites_after(f, m), m) == f,
{
    let g = f.push(m);
    assert(same_model(g[f.len() as int], m));
    let p = |x: ModelInfo| !same_model(x, m);
    f.lemma_filter_push(m, p);
    lemma_filter_keeps_all(f, m);
}

/// The settings cycle: stepping the logo animation three times, from any of
/// its values, and the animation theme five times, from any of its values,
/// comes back to where it started; and stepping from any value gives one of
/// the values of the cycle.
pub proof fn law_settings_cycle(v: Seq<char>)
    ensures
        (v == "always"@ || v == "hover"@ || v == "click"@) ==> next_logo_animation(
            next_logo_animation(next_logo_animation(v)),
        ) == v,
        (v == "rainbow"@ || v == "neon"@ || v == "cyberpunk"@ || v == "sunset"@ || v == "mono"@) ==> next_logo_color(
            next_logo_color(next_logo_color(next_logo_color(next_logo_color(v)))),
        ) == v,
        next_logo_animation(v) == "always"@ || next_logo_animation(v) == "hover"@ || next_logo_animation(v)
            == "click"@,
{
    reveal_strlit("always");
    reveal_strlit("hover");
    reveal_strlit("click");
    reveal_strlit("rainbow");
    reveal_strlit("neon");
    reveal_strlit("cyberpunk");
    reveal_strlit("sunset");
    reveal_strlit("mono");
    assert("always"@.len() == 6 && "hover"@.len() == 5 && "click"@.len() == 5);
    assert("hover"@[0] == 'h' && "click"@[0] == 'c');
    assert("always"@ != "hover"@ && "always"@ != "click"@ && "hover"@ != "click"@);
    assert("rainbow"@.len() == 7 && "neon"@.len() == 4 && "cyberpunk"@.len() == 9 && "sunset"@.len() == 6
        && "mono"@.len() == 4);
    assert("neon"@[0] == 'n' && "mono"@[0] == 'm');
    assert("rainbow"@ != "neon"@ && "rainbow"@ != "cyberpunk"@ && "rainbow"@ != "sunset"@ && "rainbow"@ != "mono"@);
    assert("neon"@ != "cyberpunk"@ && "neon"@ != "sunset"@ && "neon"@ != "mono"@);
    assert("cyberpunk"@ != "sunset"@ && "cyberpunk"@ != "mono"@ && "sunset"@ != "mono"@);
}

/// Following new text keeps the chat at its bottom: once drawn, a chat that
/// follows new text is scrolled to its last row in view, and the scrolling
/// never goes past `u16::MAX`.
pub proof fn law_follow_stays_at_bottom(s: Scroll, total: int, h: int)
    ensures
        scroll_after(s, total, h).auto_scroll ==> scroll_after(s, total, h).history_scroll == scroll_after(
            s,
            total,
            h,
        ).max_scroll,
        !s.auto_scroll && s.history_scroll < scroll_after(s, total, h).max_scroll ==> scroll_after(
            s,
            total,
            h,
        ).history_scroll == s.history_scroll && !scroll_after(s, total, h).auto_scroll,
{
}

/// Finding what lies under the mouse wraps lines as the chat view does: in a
/// view of any width, a line takes as many rows for one as for the other, and
/// so do all the lines of a chat.
pub proof fn law_hover_wraps_as_the_view(ls: Seq<Seq<SpanV>>, lw: int, w: u16)
    ensures
        hover_wrap_width(w) == view_wrap_width(w),
        hover_rows(lw, hover_wrap_width(w)) == view_rows(lw, view_wrap_width(w)),
        lines_rows(ls, hover_wrap_width(w)) == view_lines_rows(ls, view_wrap_width(w)),
    decreases ls.len(),
{
    if ls.len() > 0 {
        law_hover_wraps_as_the_view(ls.drop_last(), crate::layout::spans_width(ls.last()), w);
    }
}

/// What lies under the mouse depends only on the row of the chat under it:
/// with the mouse `k` rows higher over the chat view and the chat scrolled
/// `k` rows further, the same message, and the same line of a thought, lie
/// under it.
pub proof fn law_hover_follows_the_chat_row(a: App, b: App, r: u16, k: u16, w: u16, h: u16)
    requires
        r + k <= u16::MAX,
        a.scroll.history_scroll + k <= u16::MAX,
        a.pointer.row == Some((r + k) as u16),
        b == (App {
            pointer: Pointer { row: Some(r), ..a.pointer },
            scroll: Scroll { history_scroll: (a.scroll.history_scroll + k) as u16, ..a.scroll },
            ..a
        }),
        1 <= r,
        r + k < 1 + history_height(a, h),
    ensures
        pointer_target(a, h) == pointer_target(b, h),
        message_hovered(a, w, h) == message_hovered(b, w, h),
        thinking_hovered(a, w, h) == thinking_hovered(b, w, h),
{
    assert(history_height(a, h) == history_height(b, h));
}

/// The lines of a chat are those of its first part followed by those of the
/// rest: each message is drawn on its own.
pub proof fn law_history_lines_concat(a: Seq<Message>, b: Seq<Message>, collapsed: bool, hovered: bool)
    ensures
        history_lines(a + b, collapsed, hovered) == history_lines(a, collapsed, hovered) + history_lines(
            b,
            collapsed,
            hovered,
        ),
    decreases b.len(),
{
    if b.len() == 0 {
        assert(a + b =~= a);
        assert(history_lines(a, collapsed, hovered) + history_lines(b, collapsed, hovered) =~= history_lines(
            a,
            collapsed,
            hovered,
        ));
    } else {
        law_history_lines_concat(a, b.drop_last(), collapsed, hovered);
        assert((a + b).drop_last() =~= a + b.drop_last());
        assert((a + b).last() == b.last());
    }
}

/// Keys, the mouse, streamed chunks and the clock never change the session
/// id.
pub proof fn law_session_id_fixed(
    pre: App,
    post: App,
    key: KeyInput,
    is_burst: bool,
    ev: MouseInput,
    size: Option<(u16, u16)>,
    now: u64,
    chunk: StreamChunk,
    effects: Seq<Effect>,
)
    ensures
        key_step(pre, post, key, is_burst, effects) ==> post.session_id == pre.session_id,
        mouse_post(pre, post, ev, size, now, effects) ==> post.session_id == pre.session_id,
        chunk_post(pre, post, chunk, effects) ==> post.session_id == pre.session_id,
        tick_post(pre, post, now) ==> post.session_id == pre.session_id,
{
}


proof fn lemma_encode_len_concat(a: Seq<char>, b: Seq<char>)
    ensures
        encode_utf8(a + b).len() == encode_utf8(a).len() + encode_utf8(b).len(),
    decreases a.len(),
{
    if a.len() == 0 {
        assert(a + b =~= b);
    } else {
        lemma_encode_len_concat(a.drop_first(), b);
        assert((a + b).drop_first() =~= a.drop_first() + b);
        assert((a + b)[0] == a[0]);
    }
}

proof fn lemma_encode_len_lower(a: Seq<char>)
    ensures
        encode_utf8(a).len() >= a.len(),
    decreases a.len(),
{
    if a.len() > 0 {
        lemma_encode_len_lower(a.drop_first());
        assert(encode_scalar(a[0] as u32).len() >= 1);
    }
}

/// The bytes of a message: those of its content and its thought, and one
/// for each of its tool calls.
pub open spec fn message_bytes(m: Message) -> int {
    encode_utf8(opt_text(m.content)).len() + encode_utf8(opt_text(m.thought)).len() + match m.tool_calls {
        Some(v) => v@.len() as int,
        None => 0int,
    }
}

/// Text streamed into the chat is drawn at the next refresh: after a refresh
/// of the chat view, a chunk of text that is not empty, and another refresh,
/// the chat kept for the view is the chat as it is now, whether the text
/// grew the last reply or started a new one (for chats and messages whose
/// sizes stay below `usize::MAX`).
pub proof fn law_streamed_text_is_drawn(
    s0: App,
    s1: App,
    s2: App,
    s3: App,
    tw: u16,
    th: u16,
    vw: u16,
    vh: u16,
    c: String,
    effects: Seq<Effect>,
)
    requires
        refresh_post(s0, s1, tw, th, vw, vh),
        chunk_post(s1, s2, StreamChunk::Text(c), effects),
        refresh_post(s2, s3, tw, th, vw, vh),
        c@.len() > 0,
        s2.chat.history@.len() <= usize::MAX,
        message_bytes(s2.chat.history@.last()) < usize::MAX,
    ensures
        s3.cache.text is Some,
        lines_view(s3.cache.text->0@) == history_lines(
            s2.chat.history@,
            is_collapsed(s2),
            thinking_hovered(s2, tw, th),
        ),
{
    let h1 = s1.chat.history@;
    let h2 = s2.chat.history@;
    assert(s1.cache.last_msg_len == crate::render::last_message_size(h1));
    assert(s1.cache.history_len == h1.len() || h1.len() > usize::MAX);
    if ends_with_reply(h1) {
        let m = h1.last();
        let m2 = h2.last();
        lemma_encode_len_concat(opt_text(m.content), c@);
        lemma_encode_len_lower(c@);
        assert(opt_text(m2.content) == opt_text(m.content) + c@);
        let a = encode_utf8(opt_text(m.content)).len() as int;
        let ct = encode_utf8(c@).len() as int;
        assert(crate::render::str_len(opt_text(m2.content)) == a + ct);
        match m.content {
            Some(x) => assert(crate::render::str_len(x@) == a),
            None => assert(encode_utf8(Seq::<char>::empty()).len() == 0),
        }
        assert(crate::render::last_message_size(h2) != crate::render::last_message_size(h1));
    }
    assert(!crate::render::cache_valid(s2, vw, is_collapsed(s2), thinking_hovered(s2, tw, th)));
}


/// A chat view of another width is measured anew: after a refresh of the
/// chat view at width `vw`, a refresh at another width `vw2` draws the chat
/// and measures its height at `vw2`.
pub proof fn law_new_width_is_measured(
    s0: App,
    s1: App,
    s2: App,
    tw: u16,
    th: u16,
    vw: u16,
    vh: u16,
    tw2: u16,
    th2: u16,
    vw2: u16,
    vh2: u16,
)
    requires
        refresh_post(s0, s1, tw, th, vw, vh),
        refresh_post(s1, s2, tw2, th2, vw2, vh2),
        vw2 != vw,
    ensures
        s2.cache.text is Some,
        s2.cache.width == vw2,
        lines_view(s2.cache.text->0@) == history_lines(
            s1.chat.history@,
            is_collapsed(s1),
            thinking_hovered(s1, tw2, th2),
        ),
        s2.cache.total_height == crate::render::chat_height(lines_view(s2.cache.text->0@), vw2) as usize,
{
    assert(s1.cache.width == vw);
}

} // verus!
