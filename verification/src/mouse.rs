//! The mouse and the clock: what moving, scrolling and clicking do, given
//! the terminal's size and the time, and what each tick of the animation
//! clock does.

use vstd::prelude::*;
use vstd::string::StringExecFns;
use crate::keys::{Effect, message_text, any_menu, menu_len, skip_flags, selection};
use crate::enter::{setting_effects, choose_setting};
use crate::layout::{thinking_hovered, message_hovered, has_thoughts, geometry_ok, any_thought, compute_thinking_hover, compute_message_hover};
use crate::menu::{scroll_up_target, scroll_down_target, scroll_up, scroll_down};
use crate::catalog::PROVIDER_COUNT;
use crate::chat::Role;
use crate::state::{
    App, Part, Screen, Chat, InputBoxes, Menus, Scroll, Prompts, Pointer, Thinking, Ticker, unchanged_except,
    notice_added, box_lines,
};
use crate::text::strings_view;

verus! {

/// What the mouse did.
#[derive(Clone, Copy, Debug, PartialEq, Eq, Structural)]
pub enum MouseKind {
    Moved,
    ScrollUp,
    ScrollDown,
    LeftDown,
    LeftUp,
    Other,
}

/// A mouse event: what happened and where (row and column of the terminal).
#[derive(Clone, Copy, Debug, PartialEq, Eq, Structural)]
pub struct MouseInput {
    pub kind: MouseKind,
    pub row: u16,
    pub col: u16,
}

/// The state once the mouse event is counted and its position kept.
pub open spec fn pointed(app: App, ev: MouseInput) -> App {
    App {
        pointer: Pointer {
            row: Some(ev.row),
            col: Some(ev.col),
            events_count: (app.pointer.events_count + 1) as u64,
            ..app.pointer
        },
        ..app
    }
}

/// The copy action of the message dialog on message `i`: the message's text
/// goes to the clipboard, a notice says so, and the dialog closes with its
/// first action selected.
pub open spec fn copy_post(pre: App, post: App, i: int, effects: Seq<Effect>) -> bool {
    &&& notice_added(pre, post, "Message copied to clipboard!"@)
    &&& post.prompts == (Prompts { user_msg_modal: None, user_msg_modal_selected: 0, ..pre.prompts })
    &&& unchanged_except(pre, post, set![Part::Chat, Part::Prompts])
    &&& effects.len() == 1
    &&& effects[0] matches Effect::CopyToClipboard(t) && t@ == message_text(pre.chat.history@[i])
}

/// The rewind action of the message dialog on message `i`: the chat is cut
/// before the message, its text goes back into the input, and the dialog
/// closes with its second action selected.
pub open spec fn rewind_post(pre: App, post: App, i: int, effects: Seq<Effect>) -> bool {
    let text = message_text(pre.chat.history@[i]);
    &&& post.chat.history@ == pre.chat.history@.take(i)
    &&& post.chat == (Chat { history: post.chat.history, ..pre.chat })
    &&& strings_view(post.input.lines@) == box_lines(text)
    &&& post.input == (InputBoxes {
        lines: post.input.lines,
        cursor_row: 0,
        cursor_col: post.input.cursor_col,
        ..pre.input
    })
    &&& post.input.cursor_col == box_lines(text)[0].len()
    &&& post.prompts == (Prompts { user_msg_modal: None, user_msg_modal_selected: 1, ..pre.prompts })
    &&& unchanged_except(pre, post, set![Part::Chat, Part::Input, Part::Prompts])
    &&& effects.len() == 1
    &&& effects[0] matches Effect::SetInput(t) && t@ == text
}

/// `a - b`, but no less than 0.
pub open spec fn sat_sub(a: int, b: int) -> int {
    if a >= b {
        a - b
    } else {
        0
    }
}

/// Whether `(row, col)` lies outside the box at `(x, y)` of `w` by `h`.
pub open spec fn outside_box(row: int, col: int, x: int, y: int, w: int, h: int) -> bool {
    col < x || col >= x + w || row < y || row >= y + h
}

/// The message dialog on a terminal `w` by `h`: its left column, top row and
/// width (it is 8 rows high, 40% of the terminal wide, centred).
pub open spec fn message_dialog_box(w: u16, h: u16) -> (int, int, int) {
    let width = w * 2 / 5;
    (sat_sub(w as int, width) / 2, sat_sub(h as int, 8) / 2, width)
}

/// A click while the message dialog is open on message `i`. A press outside
/// the dialog closes it; a release on its first action copies the message,
/// on its second rewinds the chat to it (see `copy_post`, `rewind_post`);
/// anything else does nothing, as does a click when the terminal's size is
/// unknown.
pub open spec fn dialog_click_post(mid: App, post: App, ev: MouseInput, size: Option<(u16, u16)>, effects: Seq<Effect>) -> bool {
    let i = mid.prompts.user_msg_modal->0 as int;
    match size {
        Some((w, h)) => {
            let (x, y, width) = message_dialog_box(w, h);
            if outside_box(ev.row as int, ev.col as int, x, y, width, 8) {
                if ev.kind == MouseKind::LeftDown {
                    &&& effects.len() == 0
                    &&& post.prompts == (Prompts { user_msg_modal: None, ..mid.prompts })
                    &&& unchanged_except(mid, post, set![Part::Prompts])
                } else {
                    effects.len() == 0 && unchanged_except(mid, post, Set::empty())
                }
            } else if ev.kind == MouseKind::LeftUp && ev.row == y + 2 {
                copy_post(mid, post, i, effects)
            } else if ev.kind == MouseKind::LeftUp && ev.row == y + 3 {
                rewind_post(mid, post, i, effects)
            } else {
                effects.len() == 0 && unchanged_except(mid, post, Set::empty())
            }
        },
        None => effects.len() == 0 && unchanged_except(mid, post, Set::empty()),
    }
}

/// The size of the menu that shows: 60 columns wide (70 for the model
/// menu), and six rows more than its items (seven for the model menu), up to
/// 15 rows (18 for the model menu).
pub open spec fn menu_box_size(m: Menus) -> (int, int) {
    if m.show_menu {
        (60, if m.filtered_commands@.len() + 6 < 15 { m.filtered_commands@.len() + 6 as int } else { 15 })
    } else if m.show_provider_menu {
        (60, if PROVIDER_COUNT + 6 < 15 { PROVIDER_COUNT + 6 } else { 15 })
    } else if m.show_settings_menu {
        (60, if m.settings_items@.len() + 6 < 15 { m.settings_items@.len() + 6 as int } else { 15 })
    } else {
        (70, if m.filtered_models@.len() + 7 < 18 { m.filtered_models@.len() + 7 as int } else { 18 })
    }
}

/// The menu box on a terminal `w` by `h`: its left column, top row, width
/// and height (centred).
pub open spec fn menu_box(m: Menus, w: u16, h: u16) -> (int, int, int, int) {
    let (mw, mh) = menu_box_size(m);
    (sat_sub(w as int, mw) / 2, sat_sub(h as int, mh) / 2, mw, mh)
}

/// A click while a menu shows. A click outside the menu, or on its top right
/// corner (where `Esc` is shown), closes all menus. A release on an item of
/// the settings menu chooses it (see `setting_effects`; the menu's scroll
/// offset counts). Anything else does nothing, as does a click when the
/// terminal's size is unknown.
pub open spec fn menu_click_post(mid: App, post: App, ev: MouseInput, size: Option<(u16, u16)>, effects: Seq<Effect>) -> bool {
    match size {
        Some((w, h)) => {
            let (x, y, mw, mh) = menu_box(mid.menus, w, h);
            let row = ev.row as int;
            let col = ev.col as int;
            let is_esc = row <= y + 2 && col >= x + sat_sub(mw, 10) && col <= x + mw;
            let in_list = row >= y + 2 && row < y + mh - 1 && col >= x + 1 && col < x + mw - 1;
            if outside_box(row, col, x, y, mw, mh) || is_esc {
                &&& effects.len() == 0
                &&& post.menus == (Menus {
                    show_menu: false,
                    show_provider_menu: false,
                    show_model_menu: false,
                    show_settings_menu: false,
                    ..mid.menus
                })
                &&& unchanged_except(mid, post, set![Part::Menus])
            } else if in_list && ev.kind == MouseKind::LeftUp && mid.menus.show_settings_menu {
                &&& setting_effects(
                    mid.menus.settings_items@,
                    Some((row - (y + 2) + mid.menus.offset) as usize),
                    effects,
                )
                &&& unchanged_except(mid, post, Set::empty())
            } else {
                effects.len() == 0 && unchanged_except(mid, post, Set::empty())
            }
        },
        None => effects.len() == 0 && unchanged_except(mid, post, Set::empty()),
    }
}

/// The time of a remembered click (0 when there is none).
pub open spec fn click_time(c: Option<(u64, u16, u16)>) -> int {
    match c {
        Some((t, _, _)) => t as int,
        None => 0,
    }
}

/// The column of a remembered click (0 when there is none).
pub open spec fn click_col(c: Option<(u64, u16, u16)>) -> int {
    match c {
        Some((_, col, _)) => col as int,
        None => 0,
    }
}

/// The row of a remembered click (0 when there is none).
pub open spec fn click_row(c: Option<(u64, u16, u16)>) -> int {
    match c {
        Some((_, _, row)) => row as int,
        None => 0,
    }
}

/// Whether a press at `ev`, at time `now`, is the second click of a double
/// click: the last click on a thought was less than 600 ms before, at most 4
/// columns and 3 rows away.
pub open spec fn double_click(p: Pointer, ev: MouseInput, now: u64) -> bool {
    &&& p.last_click_up is Some
    &&& now < click_time(p.last_click_up) + 600
    &&& -4 <= click_col(p.last_click_up) - ev.col <= 4
    &&& -3 <= click_row(p.last_click_up) - ev.row <= 3
}

/// A press on the chat screen, at time `now`. Within 400 ms of the last fold
/// or unfold, or without thoughts in the chat, nothing happens. A double
/// click folds or unfolds the thoughts and forgets the clicks. Otherwise a
/// press on a thought's line is remembered (for a double click, and as a
/// held press), and a press elsewhere forgets the last click.
pub open spec fn chat_press_post(mid: App, post: App, ev: MouseInput, size: Option<(u16, u16)>, now: u64) -> bool {
    let p = mid.pointer;
    let cooldown = p.last_toggle_time matches Some(t) && now < t + 400;
    if cooldown || !has_thoughts(mid.chat.history@) {
        unchanged_except(mid, post, Set::empty())
    } else if double_click(p, ev, now) {
        &&& post.thinking == (Thinking { collapse: !mid.thinking.collapse, ..mid.thinking })
        &&& post.pointer == (Pointer {
            last_click_up: None,
            mouse_down_start: None,
            last_toggle_time: Some(now),
            ..p
        })
        &&& unchanged_except(mid, post, set![Part::Thinking, Part::Pointer])
    } else {
        match size {
            Some((w, h)) => {
                &&& post.pointer == (if thinking_hovered(mid, w, h) {
                    Pointer {
                        last_click_up: Some((now, ev.col, ev.row)),
                        mouse_down_start: Some((now, ev.col, ev.row)),
                        ..p
                    }
                } else {
                    Pointer { last_click_up: None, ..p }
                })
                &&& unchanged_except(mid, post, set![Part::Pointer])
            },
            None => unchanged_except(mid, post, Set::empty()),
        }
    }
}

/// A release on the chat screen: on a message of the user, the message
/// dialog opens on it with its first action selected; otherwise the held
/// press ends and thoughts unfolded by it fold again.
pub open spec fn chat_release_post(mid: App, post: App, size: Option<(u16, u16)>) -> bool {
    let released = {
        &&& post.pointer == (Pointer { mouse_down_start: None, ..mid.pointer })
        &&& post.thinking == (Thinking { temp_expand: false, ..mid.thinking })
        &&& unchanged_except(mid, post, set![Part::Pointer, Part::Thinking])
    };
    match size {
        Some((w, h)) => match message_hovered(mid, w, h) {
            Some(k) => if mid.chat.history@[k].role == Role::User {
                &&& post.prompts == (Prompts {
                    user_msg_modal: Some(k as usize),
                    user_msg_modal_selected: 0,
                    ..mid.prompts
                })
                &&& unchanged_except(mid, post, set![Part::Prompts])
            } else {
                released
            },
            None => released,
        },
        None => released,
    }
}

/// A press on the welcome screen: on the logo (shown on terminals 20 rows
/// high or more, a third of the height down, 6 rows high), the logo animates
/// for 20 ticks.
pub open spec fn logo_press_post(mid: App, post: App, ev: MouseInput, size: Option<(u16, u16)>) -> bool {
    match size {
        Some((w, h)) => {
            let logo = if h < 20 { 0int } else { 6int };
            let top = if h < 15 { 0int } else { h as int / 3 };
            if logo > 0 && ev.row >= top && ev.row < top + logo {
                &&& post.ticker == (Ticker { logo_anim_frames: 20, ..mid.ticker })
                &&& unchanged_except(mid, post, set![Part::Ticker])
            } else {
                unchanged_except(mid, post, Set::empty())
            }
        },
        None => unchanged_except(mid, post, Set::empty()),
    }
}

/// A click (press or release of the left button): the message dialog takes
/// it first, then a menu that shows, then the screen (see the predicate of
/// each).
pub open spec fn click_post(
    mid: App,
    post: App,
    ev: MouseInput,
    size: Option<(u16, u16)>,
    now: u64,
    effects: Seq<Effect>,
) -> bool {
    if mid.prompts.user_msg_modal is Some {
        dialog_click_post(mid, post, ev, size, effects)
    } else if any_menu(mid.menus) {
        menu_click_post(mid, post, ev, size, effects)
    } else if mid.screen == Screen::Session {
        &&& effects.len() == 0
        &&& if ev.kind == MouseKind::LeftUp {
            chat_release_post(mid, post, size)
        } else {
            chat_press_post(mid, post, ev, size, now)
        }
    } else if ev.kind == MouseKind::LeftDown {
        effects.len() == 0 && logo_press_post(mid, post, ev, size)
    } else {
        effects.len() == 0 && unchanged_except(mid, post, Set::empty())
    }
}

/// A scroll of the wheel: in a menu the selection moves (see
/// `scroll_up_target`, `scroll_down_target`); otherwise the chat scrolls 15
/// rows, stopping to follow new text upwards and following it again once at
/// the bottom.
pub open spec fn wheel_post(mid: App, post: App, up: bool) -> bool {
    if any_menu(mid.menus) {
        let t = if up {
            scroll_up_target(skip_flags(mid.menus), selection(mid.menus))
        } else {
            scroll_down_target(skip_flags(mid.menus), menu_len(mid.menus), selection(mid.menus))
        };
        &&& post.menus == (Menus { selected: Some(t as usize), ..mid.menus })
        &&& unchanged_except(mid, post, set![Part::Menus])
    } else {
        let s = mid.scroll;
        &&& post.scroll == (if up {
            Scroll { history_scroll: sat_sub(s.history_scroll as int, 15) as u16, auto_scroll: false, ..s }
        } else {
            let n = if s.history_scroll + 15 <= u16::MAX { (s.history_scroll + 15) as u16 } else { u16::MAX };
            Scroll { history_scroll: n, auto_scroll: if n >= s.max_scroll { true } else { s.auto_scroll }, ..s }
        })
        &&& unchanged_except(mid, post, set![Part::Scroll])
    }
}

/// What a mouse event does: it is counted and its position kept (see
/// `pointed`); then a move is recorded, the wheel scrolls (see
/// `wheel_post`) and a click acts (see `click_post`).
pub open spec fn mouse_post(
    pre: App,
    post: App,
    ev: MouseInput,
    size: Option<(u16, u16)>,
    now: u64,
    effects: Seq<Effect>,
) -> bool {
    let mid = pointed(pre, ev);
    match ev.kind {
        MouseKind::Moved => {
            &&& effects.len() == 0
            &&& post.pointer == (Pointer { moved: true, ..mid.pointer })
            &&& unchanged_except(mid, post, set![Part::Pointer])
        },
        MouseKind::ScrollUp => effects.len() == 0 && wheel_post(mid, post, true),
        MouseKind::ScrollDown => effects.len() == 0 && wheel_post(mid, post, false),
        MouseKind::LeftDown | MouseKind::LeftUp => click_post(mid, post, ev, size, now, effects),
        MouseKind::Other => effects.len() == 0 && unchanged_except(mid, post, Set::empty()),
    }
}

/// The states and events on which a mouse event comes to an end without
/// fault: the event count can grow; the state is well formed and the input
/// box's height can be computed; the wheel does not scroll down a model or
/// settings menu without items; the message dialog names a message of the
/// chat when one of its actions is clicked; and the index of a clicked
/// settings item fits in a `usize`.
pub open spec fn mouse_accepted(app: App, ev: MouseInput, size: Option<(u16, u16)>) -> bool {
    let mid = pointed(app, ev);
    &&& app.pointer.events_count < u64::MAX
    &&& app.wf()
    &&& geometry_ok(app)
    &&& (ev.kind == MouseKind::ScrollDown && any_menu(app.menus) && (app.menus.show_model_menu
        || app.menus.show_settings_menu) ==> menu_len(app.menus) > 0)
    &&& (app.prompts.user_msg_modal matches Some(i) ==> (ev.kind == MouseKind::LeftUp ==> i < app.chat.history@.len()))
    &&& (app.menus.offset + u16::MAX <= usize::MAX)
}

/// What a tick of the animation clock does at time `now`: the tick is
/// counted, the logo animation has one frame less to run, and on the chat
/// screen a press on a thought held for 400 ms unfolds the thoughts.
pub open spec fn tick_post(pre: App, post: App, now: u64) -> bool {
    let held = pre.screen == Screen::Session && pre.pointer.mouse_down_start is Some && now >= click_time(
        pre.pointer.mouse_down_start,
    ) + 400 && pre.thinking.hover_rendered;
    &&& post.ticker == (Ticker {
        tick_count: (pre.ticker.tick_count + 1) as u64,
        logo_anim_frames: sat_sub(pre.ticker.logo_anim_frames as int, 1) as u16,
    })
    &&& post.thinking == (if held { Thinking { temp_expand: true, ..pre.thinking } } else { pre.thinking })
    &&& unchanged_except(pre, post, set![Part::Ticker, Part::Thinking])
}

/// Whether the animation clock ticks at time `now`, its last tick at
/// `last` (both in milliseconds): once 100 ms have passed.
pub fn tick_due(last: u64, now: u64) -> (b: bool)
    ensures
        b == (now >= last + 100),
{
    now >= last && now - last >= 100
}

/// Whether the events read in one poll came as a burst (as the keys of a
/// paste do): more than one.
pub fn is_burst(count: usize) -> (b: bool)
    ensures
        b == (count > 1),
{
    count > 1
}

impl App {
    /// Whether the clock can tick once more (see `on_tick`).
    pub fn can_tick(&self) -> (b: bool)
        ensures
            b == (self.ticker.tick_count < u64::MAX),
    {
        self.ticker.tick_count < u64::MAX
    }

    /// The copy action of the message dialog (see `copy_post`).
    fn dialog_copy(&mut self, i: usize) -> (effects: Vec<Effect>)
        requires
            i < old(self).chat.history@.len(),
            old(self).wf(),
        ensures
            copy_post(*old(self), *final(self), i as int, effects@),
            final(self).wf(),
    {
        self.prompts.user_msg_modal_selected = 0;
        let text = self.message_text_at(i);
        let mut effects: Vec<Effect> = Vec::new();
        effects.push(Effect::CopyToClipboard(text));
        self.push_system(String::from_str("Message copied to clipboard!"));
        self.prompts.user_msg_modal = None;
        effects
    }

    /// The rewind action of the message dialog (see `rewind_post`).
    fn dialog_rewind(&mut self, i: usize) -> (effects: Vec<Effect>)
        requires
            i < old(self).chat.history@.len(),
            old(self).wf(),
        ensures
            rewind_post(*old(self), *final(self), i as int, effects@),
            final(self).wf(),
    {
        self.prompts.user_msg_modal_selected = 1;
        let text = self.message_text_at(i);
        self.truncate_history(i);
        self.set_input_text(&text);
        let mut effects: Vec<Effect> = Vec::new();
        effects.push(Effect::SetInput(text));
        self.prompts.user_msg_modal = None;
        effects
    }

    /// A click while the message dialog is open (see `dialog_click_post`).
    fn dialog_click(&mut self, ev: MouseInput, size: Option<(u16, u16)>) -> (effects: Vec<Effect>)
        requires
            old(self).wf(),
            old(self).prompts.user_msg_modal matches Some(i) && (ev.kind == MouseKind::LeftUp ==> i
                < old(self).chat.history@.len()),
        ensures
            dialog_click_post(*old(self), *final(self), ev, size, effects@),
            final(self).wf(),
    {
        let i = match self.prompts.user_msg_modal {
            Some(i) => i,
            None => 0,
        };
        match size {
            Some((w, h)) => {
                let width = ((w as u32) * 2 / 5) as u16;
                let x = w.saturating_sub(width) / 2;
                let y = h.saturating_sub(8) / 2;
                let outside = (ev.col as u32) < x as u32 || (ev.col as u32) >= x as u32 + width as u32 || (ev.row as u32)
                    < y as u32 || (ev.row as u32) >= y as u32 + 8;
                if outside {
                    if ev.kind == MouseKind::LeftDown {
                        self.prompts.user_msg_modal = None;
                    }
                    Vec::new()
                } else if ev.kind == MouseKind::LeftUp && ev.row as u32 == y as u32 + 2 {
                    self.dialog_copy(i)
                } else if ev.kind == MouseKind::LeftUp && ev.row as u32 == y as u32 + 3 {
                    self.dialog_rewind(i)
                } else {
                    Vec::new()
                }
            },
            None => Vec::new(),
        }
    }
}

/// The size of the menu that shows (see `menu_box_size`).
fn menu_box_size_of(m: &Menus) -> (r: (u16, u16))
    ensures
        r.0 as int == menu_box_size(*m).0,
        r.1 as int == menu_box_size(*m).1,
{
    if m.show_menu {
        (60, if m.filtered_commands.len() < 9 { m.filtered_commands.len() as u16 + 6 } else { 15 })
    } else if m.show_provider_menu {
        (60, 15)
    } else if m.show_settings_menu {
        (60, if m.settings_items.len() < 9 { m.settings_items.len() as u16 + 6 } else { 15 })
    } else {
        (70, if m.filtered_models.len() < 11 { m.filtered_models.len() as u16 + 7 } else { 18 })
    }
}

impl App {
    /// A click while a menu shows (see `menu_click_post`).
    fn menu_click(&mut self, ev: MouseInput, size: Option<(u16, u16)>) -> (effects: Vec<Effect>)
        requires
            old(self).wf(),
            old(self).menus.offset + u16::MAX <= usize::MAX,
        ensures
            menu_click_post(*old(self), *final(self), ev, size, effects@),
            final(self).wf(),
    {
        match size {
            Some((w, h)) => {
                let (mw, mh) = menu_box_size_of(&self.menus);
                let x = (w.saturating_sub(mw) / 2) as u32;
                let y = (h.saturating_sub(mh) / 2) as u32;
                let (mw, mh) = (mw as u32, mh as u32);
                let row = ev.row as u32;
                let col = ev.col as u32;
                let is_esc = row <= y + 2 && col >= x + (mw as u16).saturating_sub(10) as u32 && col <= x + mw;
                let in_list = row >= y + 2 && row + 1 < y + mh && col >= x + 1 && col + 1 < x + mw;
                let outside = col < x || col >= x + mw || row < y || row >= y + mh;
                if outside || is_esc {
                    self.menus.show_menu = false;
                    self.menus.show_provider_menu = false;
                    self.menus.show_model_menu = false;
                    self.menus.show_settings_menu = false;
                    Vec::new()
                } else if in_list && ev.kind == MouseKind::LeftUp && self.menus.show_settings_menu {
                    let idx = (row - (y + 2)) as usize + self.menus.offset;
                    choose_setting(&self.menus.settings_items, Some(idx))
                } else {
                    Vec::new()
                }
            },
            None => Vec::new(),
        }
    }

    /// A press on the chat screen (see `chat_press_post`).
    fn chat_press(&mut self, ev: MouseInput, size: Option<(u16, u16)>, now: u64)
        requires
            geometry_ok(*old(self)),
        ensures
            chat_press_post(*old(self), *final(self), ev, size, now),
    {
        let cooldown = match self.pointer.last_toggle_time {
            Some(t) => (now as u128) < (t as u128) + 400,
            None => false,
        };
        if cooldown || !any_thought(&self.chat.history) {
            return;
        }
        let double = match self.pointer.last_click_up {
            Some((t, c, r)) => {
                let dc = c as i32 - ev.col as i32;
                let dr = r as i32 - ev.row as i32;
                (now as u128) < (t as u128) + 600 && -4 <= dc && dc <= 4 && -3 <= dr && dr <= 3
            },
            None => false,
        };
        if double {
            self.thinking.collapse = !self.thinking.collapse;
            self.pointer.last_click_up = None;
            self.pointer.mouse_down_start = None;
            self.pointer.last_toggle_time = Some(now);
        } else {
            match size {
                Some((w, h)) => {
                    if compute_thinking_hover(self, w, h) {
                        self.pointer.last_click_up = Some((now, ev.col, ev.row));
                        self.pointer.mouse_down_start = Some((now, ev.col, ev.row));
                    } else {
                        self.pointer.last_click_up = None;
                    }
                },
                None => {},
            }
        }
    }

    /// A release on the chat screen (see `chat_release_post`).
    fn chat_release(&mut self, size: Option<(u16, u16)>)
        requires
            geometry_ok(*old(self)),
        ensures
            chat_release_post(*old(self), *final(self), size),
    {
        match size {
            Some((w, h)) => match compute_message_hover(self, w, h) {
                Some(k) => {
                    if self.chat.history[k].role == Role::User {
                        self.prompts.user_msg_modal = Some(k);
                        self.prompts.user_msg_modal_selected = 0;
                        return;
                    }
                },
                None => {},
            },
            None => {},
        }
        self.pointer.mouse_down_start = None;
        self.thinking.temp_expand = false;
    }

    /// A press on the welcome screen (see `logo_press_post`).
    fn logo_press(&mut self, ev: MouseInput, size: Option<(u16, u16)>)
        ensures
            logo_press_post(*old(self), *final(self), ev, size),
    {
        match size {
            Some((_, h)) => {
                let logo: u32 = if h < 20 { 0 } else { 6 };
                let top: u32 = if h < 15 { 0 } else { (h / 3) as u32 };
                if logo > 0 && ev.row as u32 >= top && (ev.row as u32) < top + logo {
                    self.ticker.logo_anim_frames = 20;
                }
            },
            None => {},
        }
    }

    /// A click (see `click_post`).
    fn click(&mut self, ev: MouseInput, size: Option<(u16, u16)>, now: u64) -> (effects: Vec<Effect>)
        requires
            old(self).wf(),
            geometry_ok(*old(self)),
            ev.kind == MouseKind::LeftDown || ev.kind == MouseKind::LeftUp,
            old(self).prompts.user_msg_modal matches Some(i) ==> (ev.kind == MouseKind::LeftUp ==> i
                < old(self).chat.history@.len()),
            old(self).menus.offset + u16::MAX <= usize::MAX,
        ensures
            click_post(*old(self), *final(self), ev, size, now, effects@),
            final(self).wf(),
    {
        if self.prompts.user_msg_modal.is_some() {
            self.dialog_click(ev, size)
        } else if self.menus.show_menu || self.menus.show_provider_menu || self.menus.show_model_menu
            || self.menus.show_settings_menu {
            self.menu_click(ev, size)
        } else if self.screen == Screen::Session {
            if ev.kind == MouseKind::LeftUp {
                self.chat_release(size);
            } else {
                self.chat_press(ev, size, now);
            }
            Vec::new()
        } else {
            if ev.kind == MouseKind::LeftDown {
                self.logo_press(ev, size);
            }
            Vec::new()
        }
    }

    /// A scroll of the wheel (see `wheel_post`).
    fn wheel(&mut self, up: bool)
        requires
            !up && any_menu(old(self).menus) && (old(self).menus.show_model_menu
                || old(self).menus.show_settings_menu) ==> menu_len(old(self).menus) > 0,
        ensures
            wheel_post(*old(self), *final(self), up),
    {
        if self.menus.show_menu || self.menus.show_provider_menu || self.menus.show_model_menu
            || self.menus.show_settings_menu {
            let flags = self.menus.skipped();
            let cur = self.menus.selection_or_first();
            let t = if up {
                scroll_up(&flags, cur)
            } else {
                let max = self.menus.len_shown();
                if max == 0 {
                    0
                } else {
                    scroll_down(&flags, max, cur)
                }
            };
            self.menus.selected = Some(t);
        } else if up {
            self.scroll.history_scroll = self.scroll.history_scroll.saturating_sub(15);
            self.scroll.auto_scroll = false;
        } else {
            self.scroll.history_scroll = self.scroll.history_scroll.saturating_add(15);
            if self.scroll.history_scroll >= self.scroll.max_scroll {
                self.scroll.auto_scroll = true;
            }
        }
    }

    /// Handles a mouse event on a terminal of `size` (width and height, when
    /// known) at time `now` in milliseconds (see `mouse_post`), and returns
    /// the outside work it asks for.
    pub fn handle_mouse_event(&mut self, ev: MouseInput, size: Option<(u16, u16)>, now: u64) -> (effects: Vec<Effect>)
        requires
            mouse_accepted(*old(self), ev, size),
        ensures
            mouse_post(*old(self), *final(self), ev, size, now, effects@),
            final(self).wf(),
    {
        self.pointer.events_count = self.pointer.events_count + 1;
        self.pointer.row = Some(ev.row);
        self.pointer.col = Some(ev.col);
        match ev.kind {
            MouseKind::Moved => {
                self.pointer.moved = true;
                Vec::new()
            },
            MouseKind::ScrollUp => {
                self.wheel(true);
                Vec::new()
            },
            MouseKind::ScrollDown => {
                self.wheel(false);
                Vec::new()
            },
            MouseKind::LeftDown | MouseKind::LeftUp => self.click(ev, size, now),
            MouseKind::Other => Vec::new(),
        }
    }

    /// Whether a mouse event on this state comes to an end without fault (see
    /// `mouse_accepted`).
    pub fn accepts_mouse(&self, ev: MouseInput, size: Option<(u16, u16)>) -> (b: bool)
        ensures
            b == mouse_accepted(*self, ev, size),
    {
        let wf = self.is_well_formed();
        let m = &self.menus;
        let shown = m.show_menu || m.show_provider_menu || m.show_model_menu || m.show_settings_menu;
        let wheel_ok = !(ev.kind == MouseKind::ScrollDown && shown && (m.show_model_menu || m.show_settings_menu))
            || m.len_shown() > 0;
        let modal_ok = match self.prompts.user_msg_modal {
            Some(i) => ev.kind != MouseKind::LeftUp || i < self.chat.history.len(),
            None => true,
        };
        self.pointer.events_count < u64::MAX && wf && self.input.lines.len() % 65536 < 65534 && wheel_ok && modal_ok
            && m.offset <= usize::MAX - 65535
    }

    /// A tick of the animation clock at time `now` in milliseconds (see
    /// `tick_post`).
    pub fn on_tick(&mut self, now: u64)
        requires
            old(self).ticker.tick_count < u64::MAX,
        ensures
            tick_post(*old(self), *final(self), now),
            old(self).wf() ==> final(self).wf(),
    {
        self.ticker.tick_count = self.ticker.tick_count + 1;
        self.ticker.logo_anim_frames = self.ticker.logo_anim_frames.saturating_sub(1);
        if self.screen == Screen::Session {
            match self.pointer.mouse_down_start {
                Some((t, _, _)) => {
                    if (now as u128) >= (t as u128) + 400 && self.thinking.hover_rendered {
                        self.thinking.temp_expand = true;
                    }
                },
                None => {},
            }
        }
    }
}

} // verus!
