//! What a frame shows: the chat view (kept from the last frame while the chat
//! did not change) with its scrolling, the status line's texts, which dialog
//! lies on top, and the lines of the dialogs.

use vstd::prelude::*;
use crate::chat::{Message, history_lines, render_history};
use crate::layout::{sat_add, ceil_div, spans_width, line_width, thinking_hovered, is_collapsed, geometry_ok, compute_thinking_hover};
use crate::mouse::sat_sub;
use crate::state::{App, Part, Scroll, Thinking, RenderCache, unchanged_except};
use crate::style::{Line, SpanV, lines_view};
use vstd::utf8::encode_utf8;

verus! {

/// The width used to wrap the chat view `w` columns wide when its height is
/// measured: 95% of it (rounded down), and at least 1 column.
pub open spec fn view_wrap_width(w: u16) -> int {
    let ww = if w >= 1 { w as int } else { 1 };
    if ww * 19 / 20 >= 1 { ww * 19 / 20 } else { 1 }
}

/// The rows a line of width `w` takes in the chat view wrapped at `c`
/// columns: one for an empty line.
pub open spec fn view_rows(w: int, c: int) -> int {
    if w == 0 {
        1
    } else {
        ceil_div(w, c)
    }
}

/// The rows that lines take in the chat view (added up, not past
/// `usize::MAX`).
pub open spec fn view_lines_rows(ls: Seq<Seq<SpanV>>, c: int) -> int
    decreases ls.len(),
{
    if ls.len() == 0 {
        0
    } else {
        sat_add(view_lines_rows(ls.drop_last(), c), view_rows(spans_width(ls.last()), c))
    }
}

/// The height of the chat drawn as `ls` in a view `w` columns wide: the rows
/// of its lines, and two more.
pub open spec fn chat_height(ls: Seq<Seq<SpanV>>, w: u16) -> int {
    sat_add(view_lines_rows(ls, view_wrap_width(w)), 2)
}

/// The length in bytes of a string (`str::len`).
pub open spec fn str_len(s: Seq<char>) -> int {
    encode_utf8(s).len() as usize as int
}

/// The size of the last message, to tell whether it changed: the bytes of
/// its content and of its thought, and the number of its tool calls.
pub open spec fn last_message_size(h: Seq<Message>) -> int {
    if h.len() == 0 {
        0
    } else {
        let m = h.last();
        let c = match m.content {
            Some(s) => str_len(s@),
            None => 0,
        };
        let t = match m.thought {
            Some(s) => str_len(s@),
            None => 0,
        };
        let k = match m.tool_calls {
            Some(v) => v@.len() as int,
            None => 0,
        };
        sat_add(sat_add(c, t), k)
    }
}

/// Whether the chat kept from the last frame can be shown again: it was
/// drawn for a chat of the same number of messages, whose last message has
/// the same size, in a view as wide, with thoughts folded and hovered alike.
pub open spec fn cache_valid(app: App, view_w: u16, collapsed: bool, hovered: bool) -> bool {
    &&& app.cache.text is Some
    &&& app.cache.history_len == app.chat.history@.len()
    &&& app.cache.last_msg_len == last_message_size(app.chat.history@)
    &&& app.cache.width == view_w
    &&& app.cache.is_collapsed == collapsed
    &&& app.cache.thinking_hovered == hovered
}

/// The scrolling once the chat, `total` rows high, is shown in a view `h`
/// rows high: the chat scrolls at most to its bottom row in view (and no
/// further than `u16::MAX`); while it follows new text it is scrolled there,
/// and scrolled there by hand it follows new text again.
pub open spec fn scroll_after(s: Scroll, total: int, h: int) -> Scroll {
    let over = sat_sub(total, h);
    let max = (if over < u16::MAX { over } else { u16::MAX as int }) as u16;
    if s.auto_scroll {
        Scroll { max_scroll: max, history_scroll: max, ..s }
    } else if s.history_scroll >= max && max > 0 {
        Scroll { max_scroll: max, history_scroll: max, auto_scroll: true }
    } else {
        Scroll { max_scroll: max, ..s }
    }
}

/// What drawing the chat view does, on a terminal `term_w` by `term_h`
/// with a chat view `view_w` by `view_h`. Whether the mouse lies over a
/// thought is found again (see `thinking_hovered`) and kept. Unless the chat
/// kept from the last frame can be shown again (see `cache_valid`), the chat
/// is drawn anew (see `history_lines`) and measured (see `chat_height`), and
/// what it was drawn for is kept with it. Then the scrolling follows the
/// chat's height (see `scroll_after`).
pub open spec fn refresh_post(pre: App, post: App, term_w: u16, term_h: u16, view_w: u16, view_h: u16) -> bool {
    let hovered = thinking_hovered(pre, term_w, term_h);
    let collapsed = is_collapsed(pre);
    let ls = history_lines(pre.chat.history@, collapsed, hovered);
    &&& post.thinking == (Thinking { hover_rendered: hovered, ..pre.thinking })
    &&& if cache_valid(pre, view_w, collapsed, hovered) {
        post.cache == pre.cache
    } else {
        &&& post.cache == (RenderCache {
            history_len: pre.chat.history@.len() as usize,
            last_msg_len: last_message_size(pre.chat.history@) as usize,
            width: view_w,
            is_collapsed: collapsed,
            thinking_hovered: hovered,
            total_height: chat_height(ls, view_w) as usize,
            text: post.cache.text,
            hovered_msg_idx: pre.cache.hovered_msg_idx,
        })
        &&& post.cache.text is Some
        &&& lines_view(post.cache.text->0@) == ls
    }
    &&& post.scroll == scroll_after(pre.scroll, post.cache.total_height as int, view_h as int)
    &&& unchanged_except(pre, post, set![Part::Thinking, Part::Cache, Part::Scroll])
}

/// The size of the last message (see `last_message_size`).
fn last_size(h: &Vec<Message>) -> (r: usize)
    ensures
        r == last_message_size(h@),
{
    let n = h.len();
    if n == 0 {
        return 0;
    }
    let m = &h[n - 1];
    let c: usize = match &m.content {
        Some(s) => s.as_str().len(),
        None => 0,
    };
    let t: usize = match &m.thought {
        Some(s) => s.as_str().len(),
        None => 0,
    };
    let k: usize = match &m.tool_calls {
        Some(v) => v.len(),
        None => 0,
    };
    c.saturating_add(t).saturating_add(k)
}

/// The rows a line of width `w` takes in the chat view (see `view_rows`).
fn rows_in_view(w: usize, c: usize) -> (r: usize)
    requires
        c >= 1,
    ensures
        r == view_rows(w as int, c as int),
{
    if w == 0 {
        1
    } else {
        crate::layout::rows_of(w, c)
    }
}

/// The height of the chat drawn as `ls` (see `chat_height`).
pub fn measure_chat(ls: &Vec<Line>, view_w: u16) -> (r: usize)
    ensures
        r == chat_height(lines_view(ls@), view_w),
{
    let ww: usize = if view_w >= 1 { view_w as usize } else { 1 };
    let c: usize = if ww * 19 / 20 >= 1 { ww * 19 / 20 } else { 1 };
    let mut total: usize = 0;
    let mut i: usize = 0;
    assert(lines_view(ls@).take(0) =~= Seq::<Seq<SpanV>>::empty());
    while i < ls.len()
        invariant
            c == view_wrap_width(view_w),
            i <= ls@.len(),
            total == view_lines_rows(lines_view(ls@).take(i as int), c as int),
        decreases ls.len() - i,
    {
        let h = rows_in_view(line_width(&ls[i]), c);
        assert(lines_view(ls@).take(i + 1).drop_last() =~= lines_view(ls@).take(i as int));
        total = total.saturating_add(h);
        i = i + 1;
    }
    assert(lines_view(ls@).take(ls@.len() as int) =~= lines_view(ls@));
    total.saturating_add(2)
}

impl App {
    /// Scrolls the chat, `total` rows high, in a view `h` rows high (see
    /// `scroll_after`).
    fn follow_chat(&mut self, total: usize, h: u16)
        ensures
            final(self).scroll == scroll_after(old(self).scroll, total as int, h as int),
            unchanged_except(*old(self), *final(self), set![Part::Scroll]),
    {
        let over = total.saturating_sub(h as usize);
        let max: u16 = if over < 65535 { over as u16 } else { 65535 };
        self.scroll.max_scroll = max;
        if self.scroll.auto_scroll {
            self.scroll.history_scroll = max;
        } else if self.scroll.history_scroll >= max && max > 0 {
            self.scroll.auto_scroll = true;
            self.scroll.history_scroll = max;
        }
    }

    /// Draws the chat view (see `refresh_post`): `term_w` by `term_h` is the
    /// terminal's size and `view_w` by `view_h` the chat view's.
    pub fn refresh_chat_view(&mut self, term_w: u16, term_h: u16, view_w: u16, view_h: u16)
        requires
            geometry_ok(*old(self)),
        ensures
            refresh_post(*old(self), *final(self), term_w, term_h, view_w, view_h),
            old(self).wf() ==> final(self).wf(),
    {
        let hovered = compute_thinking_hover(self, term_w, term_h);
        let collapsed = self.thinking.collapse && !self.thinking.temp_expand;
        self.thinking.hover_rendered = hovered;
        let last = last_size(&self.chat.history);
        let valid = self.cache.text.is_some() && self.cache.history_len == self.chat.history.len()
            && self.cache.last_msg_len == last && self.cache.width == view_w && self.cache.is_collapsed == collapsed
            && self.cache.thinking_hovered == hovered;
        if !valid {
            let lines = render_history(self.chat.history.as_slice(), collapsed, hovered);
            let total = measure_chat(&lines, view_w);
            self.cache.history_len = self.chat.history.len();
            self.cache.last_msg_len = last;
            self.cache.width = view_w;
            self.cache.is_collapsed = collapsed;
            self.cache.thinking_hovered = hovered;
            self.cache.total_height = total;
            self.cache.text = Some(lines);
        }
        let total = self.cache.total_height;
        self.follow_chat(total, view_h);
    }
}

} // verus!
