//! Where the chat lies on the screen: the display width of styled lines, the
//! rows a line takes once wrapped, and which line, and which message, lies
//! under the mouse.

use vstd::prelude::*;
use crate::chat::{Message, history_lines, history_marks, message_lines, render_history_marked, render_message_lines};
use crate::state::{App, Screen};
use crate::style::{Line, SpanV, spans_view, lines_view};

verus! {

/// The number of terminal columns that `s` takes, as
/// `unicode_width::UnicodeWidthStr::width` computes it.
pub uninterp spec fn display_width(s: Seq<char>) -> nat;

/// `unicode_width::UnicodeWidthStr::width`: the number of terminal columns
/// that `s` takes. The contract only names the result, which depends on `s`
/// alone.
#[verifier::external_body]
pub(crate) fn str_width(s: &str) -> (r: usize)
    ensures
        r == display_width(s@),
{
    unicode_width::UnicodeWidthStr::width(s)
}

/// `a + b`, but no more than `usize::MAX`.
pub open spec fn sat_add(a: int, b: int) -> int {
    if a + b > usize::MAX {
        usize::MAX as int
    } else {
        a + b
    }
}

/// The width of a line: the widths of its spans added up (not past
/// `usize::MAX`).
pub open spec fn spans_width(spans: Seq<SpanV>) -> int
    decreases spans.len(),
{
    if spans.len() == 0 {
        0
    } else {
        sat_add(spans_width(spans.drop_last()), display_width(spans.last().0) as int)
    }
}

/// `a / b` rounded up.
pub open spec fn ceil_div(a: int, b: int) -> int {
    (a + b - 1) / b
}

/// The width used to wrap lines in a view `w` columns wide, for finding what
/// lies under the mouse: 95% of it (rounded down), and at least 1.
pub open spec fn hover_wrap_width(w: u16) -> int {
    let ww = if w >= 1 { w as int } else { 1 };
    if ww * 19 / 20 >= 1 { ww * 19 / 20 } else { 1 }
}

/// The rows that a line of width `w` takes once wrapped at `calc` columns:
/// one for an empty line.
pub open spec fn hover_rows(w: int, calc: int) -> int {
    if w == 0 {
        1
    } else {
        ceil_div(w, calc)
    }
}

/// The rows that lines take once wrapped at `calc` columns (added up, not
/// past `usize::MAX`).
pub open spec fn lines_rows(ls: Seq<Seq<SpanV>>, calc: int) -> int
    decreases ls.len(),
{
    if ls.len() == 0 {
        0
    } else {
        sat_add(lines_rows(ls.drop_last(), calc), hover_rows(spans_width(ls.last()), calc))
    }
}

/// The line among `ls[i..]`, whose first row is `cum`, that takes the row
/// `target` once the lines are wrapped at `calc` columns.
pub open spec fn line_owner(ls: Seq<Seq<SpanV>>, calc: int, target: int, i: int, cum: int) -> Option<int>
    decreases ls.len() - i,
{
    if i < 0 || i >= ls.len() {
        None
    } else {
        let end = sat_add(cum, hover_rows(spans_width(ls[i]), calc));
        if cum <= target && target < end {
            Some(i)
        } else {
            line_owner(ls, calc, target, i + 1, end)
        }
    }
}

/// The message among `h[i..]`, whose first row is `cum`, that takes the row
/// `target` once its lines are wrapped at `calc` columns.
pub open spec fn message_owner(
    h: Seq<Message>,
    collapsed: bool,
    hovered: bool,
    calc: int,
    target: int,
    i: int,
    cum: int,
) -> Option<int>
    decreases h.len() - i,
{
    if i < 0 || i >= h.len() {
        None
    } else {
        let end = sat_add(cum, lines_rows(message_lines(h[i], collapsed, hovered), calc));
        if cum <= target && target < end {
            Some(i)
        } else {
            message_owner(h, collapsed, hovered, calc, target, i + 1, end)
        }
    }
}

/// The rows of the input box: its lines and its frame, at most 12 (the line
/// count taken as a `u16`).
pub open spec fn input_height(n: int) -> int {
    let k = n % 65536 + 2;
    if k < 12 {
        k
    } else {
        12
    }
}

/// The rows of the chat view on a screen `h` rows high: what the header
/// line, the input box and the status line leave.
pub open spec fn history_height(app: App, h: u16) -> int {
    let area = if h >= 1 { h - 1 } else { 0 };
    let ih = input_height(app.input.lines@.len() as int);
    let rest = if area >= ih { area - ih } else { 0 };
    if rest >= 1 { rest - 1 } else { 0 }
}

/// The row of the chat, counted from its top, under the mouse, where the
/// mouse is over the chat view (which starts below the header line).
pub open spec fn pointer_target(app: App, h: u16) -> Option<int> {
    match app.pointer.row {
        Some(r) => if 1 <= r && r < 1 + history_height(app, h) {
            Some(r - 1 + app.scroll.history_scroll)
        } else {
            None
        },
        None => None,
    }
}

/// Whether thoughts are drawn folded: folding is on and no held press
/// unfolds them.
pub open spec fn is_collapsed(app: App) -> bool {
    app.thinking.collapse && !app.thinking.temp_expand
}

/// Whether some message of the chat has a thought.
pub open spec fn has_thoughts(h: Seq<Message>) -> bool {
    exists|i: int| 0 <= i < h.len() && (#[trigger] h[i]).thought is Some
}

/// Whether the mouse lies over a line of a thought, on a screen of `w` by
/// `h`: on the chat screen, with thoughts in the chat, over the chat view,
/// on a row that a line of a thought (its header or one of its lines, see
/// `history_marks`) takes once the chat is drawn as the last frame drew it
/// and wrapped (see `hover_wrap_width`).
pub open spec fn thinking_hovered(app: App, w: u16, h: u16) -> bool {
    let ls = history_lines(app.chat.history@, is_collapsed(app), app.thinking.hover_rendered);
    let marks = history_marks(app.chat.history@, is_collapsed(app), app.thinking.hover_rendered);
    &&& app.screen == Screen::Session
    &&& has_thoughts(app.chat.history@)
    &&& pointer_target(app, h) is Some
    &&& line_owner(ls, hover_wrap_width(w), pointer_target(app, h)->0, 0, 0) is Some
    &&& marks[line_owner(ls, hover_wrap_width(w), pointer_target(app, h)->0, 0, 0)->0]
}

/// The message under the mouse, on a screen of `w` by `h`: on the chat
/// screen, over the chat view, the message whose lines take the row under
/// the mouse (see `message_owner`).
pub open spec fn message_hovered(app: App, w: u16, h: u16) -> Option<int> {
    if app.screen == Screen::Session && pointer_target(app, h) is Some {
        message_owner(
            app.chat.history@,
            is_collapsed(app),
            app.thinking.hover_rendered,
            hover_wrap_width(w),
            pointer_target(app, h)->0,
            0,
            0,
        )
    } else {
        None
    }
}

/// Whether the input box's height can be computed: its line count, taken as
/// a `u16`, leaves room for the frame.
pub open spec fn geometry_ok(app: App) -> bool {
    app.input.lines@.len() % 65536 < 65534
}

/// The rows that the first `k` messages of `h` take, their lines wrapped at
/// `calc` columns (added up, not past `usize::MAX`).
pub open spec fn rows_before(h: Seq<Message>, collapsed: bool, hovered: bool, calc: int, k: int) -> int
    decreases k,
{
    if k <= 0 {
        0
    } else {
        sat_add(rows_before(h, collapsed, hovered, calc, k - 1), lines_rows(message_lines(h[k - 1], collapsed, hovered), calc))
    }
}

proof fn lemma_spans_width_nonneg(spans: Seq<SpanV>)
    ensures
        spans_width(spans) >= 0,
    decreases spans.len(),
{
    if spans.len() > 0 {
        lemma_spans_width_nonneg(spans.drop_last());
    }
}

proof fn lemma_lines_rows_bounds(ls: Seq<Seq<SpanV>>, calc: int)
    requires
        calc >= 1,
    ensures
        0 <= lines_rows(ls, calc) <= usize::MAX,
    decreases ls.len(),
{
    if ls.len() > 0 {
        lemma_lines_rows_bounds(ls.drop_last(), calc);
        let w = spans_width(ls.last());
        lemma_spans_width_nonneg(ls.last());
        if w > 0 {
            lemma_ceil_div(w, calc);
        }
    }
}

proof fn lemma_rows_before_bounds(h: Seq<Message>, collapsed: bool, hovered: bool, calc: int, k: int)
    requires
        calc >= 1,
    ensures
        0 <= rows_before(h, collapsed, hovered, calc, k) <= usize::MAX,
    decreases k,
{
    if k > 0 {
        lemma_rows_before_bounds(h, collapsed, hovered, calc, k - 1);
        lemma_lines_rows_bounds(message_lines(h[k - 1], collapsed, hovered), calc);
    }
}

proof fn lemma_rows_before_grow(h: Seq<Message>, collapsed: bool, hovered: bool, calc: int, i: int, j: int)
    requires
        calc >= 1,
        i <= j,
    ensures
        rows_before(h, collapsed, hovered, calc, i) <= rows_before(h, collapsed, hovered, calc, j),
    decreases j - i,
{
    if i < j {
        lemma_rows_before_grow(h, collapsed, hovered, calc, i, j - 1);
        lemma_rows_before_bounds(h, collapsed, hovered, calc, j - 1);
        if j > 0 {
            lemma_lines_rows_bounds(message_lines(h[j - 1], collapsed, hovered), calc);
        }
    }
}

proof fn lemma_message_owner(h: Seq<Message>, collapsed: bool, hovered: bool, calc: int, t: int, i: int, k: int)
    requires
        calc >= 1,
        0 <= i,
    ensures
        message_owner(h, collapsed, hovered, calc, t, i, rows_before(h, collapsed, hovered, calc, i)) == Some(k) <==> (
        i <= k < h.len() && rows_before(h, collapsed, hovered, calc, k) <= t < rows_before(
            h,
            collapsed,
            hovered,
            calc,
            k + 1,
        )),
    decreases h.len() - i,
{
    if i < h.len() {
        let cum = rows_before(h, collapsed, hovered, calc, i);
        let end = rows_before(h, collapsed, hovered, calc, i + 1);
        if k > i {
            lemma_rows_before_grow(h, collapsed, hovered, calc, i + 1, k);
        }
        if !(cum <= t && t < end) {
            lemma_message_owner(h, collapsed, hovered, calc, t, i + 1, k);
        }
    }
}

/// The message under the mouse is the message of the row under it, with
/// lines wrapped as the view wraps them: message `k` is hovered exactly when
/// the rows its lines take, wrapped, placed after the rows of the messages
/// before it, cover the row of the chat under the mouse.
pub proof fn law_message_hover_counts_wrapped_rows(app: App, w: u16, h: u16, k: int)
    ensures
        message_hovered(app, w, h) == Some(k) <==> ({
            let hist = app.chat.history@;
            let c = is_collapsed(app);
            let hv = app.thinking.hover_rendered;
            let calc = hover_wrap_width(w);
            &&& app.screen == Screen::Session
            &&& pointer_target(app, h) is Some
            &&& 0 <= k < hist.len()
            &&& rows_before(hist, c, hv, calc, k) <= pointer_target(app, h)->0
            &&& pointer_target(app, h)->0 < rows_before(hist, c, hv, calc, k + 1)
        }),
{
    if app.screen == Screen::Session && pointer_target(app, h) is Some {
        lemma_message_owner(
            app.chat.history@,
            is_collapsed(app),
            app.thinking.hover_rendered,
            hover_wrap_width(w),
            pointer_target(app, h)->0,
            0,
            k,
        );
    }
}

proof fn lemma_marks_len(h: Seq<Message>, collapsed: bool, hovered: bool)
    ensures
        history_marks(h, collapsed, hovered).len() == history_lines(h, collapsed, hovered).len(),
    decreases h.len(),
{
    if h.len() > 0 {
        lemma_marks_len(h.drop_last(), collapsed, hovered);
    }
}

proof fn lemma_ceil_div(a: int, b: int)
    requires
        a >= 0,
        b >= 1,
    ensures
        ceil_div(a, b) == a / b + (if a % b == 0 { 0int } else { 1int }),
        ceil_div(a, b) >= 0,
        a >= 1 ==> ceil_div(a, b) >= 1,
{
    vstd::arithmetic::div_mod::lemma_fundamental_div_mod(a, b);
    vstd::arithmetic::div_mod::lemma_mod_bound(a, b);
    let q = a / b;
    let r = a % b;
    assert(a == b * q + r);
    assert(q >= 0 && (a >= 1 && r == 0 ==> q >= 1)) by (nonlinear_arith)
        requires
            a >= 0,
            b >= 1,
            a == b * q + r,
            0 <= r < b,
    ;
    assert(b * q == q * b && (q + 1) * b == q * b + b) by (nonlinear_arith);
    if r == 0 {
        vstd::arithmetic::div_mod::lemma_fundamental_div_mod_converse(a + b - 1, b, q, b - 1);
    } else {
        vstd::arithmetic::div_mod::lemma_fundamental_div_mod_converse(a + b - 1, b, q + 1, r - 1);
    }
}

/// The width of a line (see `spans_width`).
pub fn line_width(l: &Line) -> (w: usize)
    ensures
        w == spans_width(spans_view(l.spans@)),
{
    let mut w: usize = 0;
    let mut i: usize = 0;
    assert(spans_view(l.spans@).take(0) =~= Seq::<SpanV>::empty());
    while i < l.spans.len()
        invariant
            i <= l.spans@.len(),
            w == spans_width(spans_view(l.spans@).take(i as int)),
        decreases l.spans.len() - i,
    {
        let d = str_width(l.spans[i].text.as_str());
        assert(spans_view(l.spans@).take(i + 1).drop_last() =~= spans_view(l.spans@).take(i as int));
        w = w.saturating_add(d);
        i = i + 1;
    }
    assert(spans_view(l.spans@).take(l.spans@.len() as int) =~= spans_view(l.spans@));
    w
}

/// The wrap width for finding what lies under the mouse (see
/// `hover_wrap_width`).
pub fn hover_wrap(w: u16) -> (c: usize)
    ensures
        c == hover_wrap_width(w),
        c >= 1,
{
    let ww: usize = if w >= 1 { w as usize } else { 1 };
    let c = ww * 19 / 20;
    if c >= 1 { c } else { 1 }
}

/// The rows a line of width `w` takes (see `hover_rows`).
pub fn rows_of(w: usize, calc: usize) -> (r: usize)
    requires
        calc >= 1,
    ensures
        r == hover_rows(w as int, calc as int),
{
    if w == 0 {
        1
    } else {
        proof {
            lemma_ceil_div(w as int, calc as int);
        }
        let q = w / calc;
        if w % calc == 0 {
            q
        } else {
            assert(q < w) by (nonlinear_arith)
                requires
                    q == w / calc,
                    calc >= 1,
                    w >= 1,
                    w % calc != 0,
            ;
            q + 1
        }
    }
}

/// The rows that lines take (see `lines_rows`).
pub fn rows_of_lines(ls: &Vec<Line>, calc: usize) -> (r: usize)
    requires
        calc >= 1,
    ensures
        r == lines_rows(lines_view(ls@), calc as int),
{
    let mut r: usize = 0;
    let mut i: usize = 0;
    assert(lines_view(ls@).take(0) =~= Seq::<Seq<SpanV>>::empty());
    while i < ls.len()
        invariant
            calc >= 1,
            i <= ls@.len(),
            r == lines_rows(lines_view(ls@).take(i as int), calc as int),
        decreases ls.len() - i,
    {
        let h = rows_of(line_width(&ls[i]), calc);
        assert(lines_view(ls@).take(i + 1).drop_last() =~= lines_view(ls@).take(i as int));
        r = r.saturating_add(h);
        i = i + 1;
    }
    assert(lines_view(ls@).take(ls@.len() as int) =~= lines_view(ls@));
    r
}

/// The line that takes row `target` (see `line_owner`).
fn line_at_row(ls: &Vec<Line>, calc: usize, target: usize) -> (r: Option<usize>)
    requires
        calc >= 1,
    ensures
        match r {
            Some(k) => k < ls@.len() && line_owner(lines_view(ls@), calc as int, target as int, 0, 0) == Some(
                k as int,
            ),
            None => line_owner(lines_view(ls@), calc as int, target as int, 0, 0) is None,
        },
{
    let mut cum: usize = 0;
    let mut i: usize = 0;
    while i < ls.len()
        invariant
            calc >= 1,
            i <= ls@.len(),
            line_owner(lines_view(ls@), calc as int, target as int, i as int, cum as int) == line_owner(
                lines_view(ls@),
                calc as int,
                target as int,
                0,
                0,
            ),
        decreases ls.len() - i,
    {
        let end = cum.saturating_add(rows_of(line_width(&ls[i]), calc));
        if cum <= target && target < end {
            return Some(i);
        }
        cum = end;
        i = i + 1;
    }
    None
}

/// Whether the chat has a thought (see `has_thoughts`).
pub(crate) fn any_thought(h: &Vec<Message>) -> (b: bool)
    ensures
        b == has_thoughts(h@),
{
    let mut i: usize = 0;
    while i < h.len()
        invariant
            i <= h@.len(),
            forall|j: int| 0 <= j < i ==> (#[trigger] h@[j]).thought is None,
        decreases h.len() - i,
    {
        if h[i].thought.is_some() {
            return true;
        }
        i = i + 1;
    }
    false
}

impl App {
    /// Whether the input box's height can be computed (see `geometry_ok`).
    pub fn input_height_fits(&self) -> (b: bool)
        ensures
            b == geometry_ok(*self),
    {
        self.input.lines.len() % 65536 < 65534
    }

    /// The row of the chat under the mouse (see `pointer_target`).
    pub fn pointer_row_in_chat(&self, h: u16) -> (r: Option<usize>)
        requires
            geometry_ok(*self),
        ensures
            match r {
                Some(t) => pointer_target(*self, h) == Some(t as int),
                None => pointer_target(*self, h) is None,
            },
    {
        match self.pointer.row {
            Some(row) => {
                let n = self.input.lines.len();
                let k = (n % 65536) as u16 + 2;
                let ih: u16 = if k < 12 { k } else { 12 };
                let area = h.saturating_sub(1);
                let hh = area.saturating_sub(ih).saturating_sub(1);
                if 1 <= row && row < 1 + hh {
                    Some((row - 1) as usize + self.scroll.history_scroll as usize)
                } else {
                    None
                }
            },
            None => None,
        }
    }

}

/// Whether the mouse lies over a line of a thought, on a terminal `w`
/// columns wide and `h` rows high (see `thinking_hovered`).
pub fn compute_thinking_hover(app: &App, w: u16, h: u16) -> (b: bool)
    requires
        geometry_ok(*app),
    ensures
        b == thinking_hovered(*app, w, h),
{
    app.thinking_hover_at(w, h)
}

/// The message under the mouse, on a terminal `w` columns wide and `h` rows
/// high (see `message_hovered`).
pub fn compute_message_hover(app: &App, w: u16, h: u16) -> (r: Option<usize>)
    requires
        geometry_ok(*app),
    ensures
        match r {
            Some(k) => k < app.chat.history@.len() && message_hovered(*app, w, h) == Some(k as int),
            None => message_hovered(*app, w, h) is None,
        },
{
    app.message_hover_at(w, h)
}

impl App {
    /// Whether the mouse lies over a line of a thought (see
    /// `thinking_hovered`).
    fn thinking_hover_at(&self, w: u16, h: u16) -> (b: bool)
        requires
            geometry_ok(*self),
        ensures
            b == thinking_hovered(*self, w, h),
    {
        if self.screen != Screen::Session || !any_thought(&self.chat.history) {
            return false;
        }
        let target = match self.pointer_row_in_chat(h) {
            Some(t) => t,
            None => return false,
        };
        let collapsed = self.thinking.collapse && !self.thinking.temp_expand;
        let (lines, marks) = render_history_marked(self.chat.history.as_slice(), collapsed, self.thinking.hover_rendered);
        proof {
            lemma_marks_len(self.chat.history@, collapsed, self.thinking.hover_rendered);
        }
        let calc = hover_wrap(w);
        match line_at_row(&lines, calc, target) {
            Some(k) => marks[k],
            None => false,
        }
    }

    /// The message under the mouse (see `message_hovered`).
    fn message_hover_at(&self, w: u16, h: u16) -> (r: Option<usize>)
        requires
            geometry_ok(*self),
        ensures
            match r {
                Some(k) => k < self.chat.history@.len() && message_hovered(*self, w, h) == Some(k as int),
                None => message_hovered(*self, w, h) is None,
            },
    {
        if self.screen != Screen::Session {
            return None;
        }
        let target = match self.pointer_row_in_chat(h) {
            Some(t) => t,
            None => return None,
        };
        let collapsed = self.thinking.collapse && !self.thinking.temp_expand;
        let calc = hover_wrap(w);
        let mut cum: usize = 0;
        let mut i: usize = 0;
        while i < self.chat.history.len()
            invariant
                calc >= 1,
                calc == hover_wrap_width(w),
                i <= self.chat.history@.len(),
                collapsed == is_collapsed(*self),
                pointer_target(*self, h) == Some(target as int),
                self.screen == Screen::Session,
                message_owner(
                    self.chat.history@,
                    collapsed,
                    self.thinking.hover_rendered,
                    calc as int,
                    target as int,
                    i as int,
                    cum as int,
                ) == message_hovered(*self, w, h),
            decreases self.chat.history.len() - i,
        {
            let lines = render_message_lines(&self.chat.history[i], collapsed, self.thinking.hover_rendered);
            let end = cum.saturating_add(rows_of_lines(&lines, calc));
            if cum <= target && target < end {
                return Some(i);
            }
            cum = end;
            i = i + 1;
        }
        None
    }
}

} // verus!
