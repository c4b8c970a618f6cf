//! A key press, from start to end: the open dialog or question takes it
//! first, and otherwise the key's own action applies.

use vstd::prelude::*;
use crate::keys::{
    Effect, KeyCode, KeyInput, is_char, selection, menu_walk_stops, modal_key_post, confirmation_key_post,
    clear_key_post, exit_key_post, up_key_post, down_key_post,
};
use crate::enter::enter_key_post;
use crate::shortcuts::{
    ctrl_p_post, ctrl_a_post, ctrl_c_post, ctrl_l_post, esc_post, ctrl_t_post, ctrl_o_post, end_post,
    ctrl_up_post, ctrl_down_post, right_post, left_post, ctrl_f_effects, forward_effects,
};
use crate::state::{App, unchanged_except};
use crate::menu::{up_walk_stops, down_walk_stops};

verus! {

/// Whether no dialog or question waits for an answer, so that keys take
/// their own action.
pub open spec fn no_dialog(app: App) -> bool {
    &&& app.prompts.user_msg_modal is None
    &&& app.prompts.command_confirmation is None
    &&& !app.prompts.pending_clear
    &&& !app.prompts.pending_exit
}

/// What a key does when no dialog waits (see the predicate of each key):
/// Control with `p`, `a`, `c`, `l`, `t`, `o`; Enter (a new line with Shift
/// or Alt); Esc; End; Control with Up or Down; Up; Down; Right and Left and
/// Control with `f` in the model menu; any other key goes to a text box.
pub open spec fn main_key_post(pre: App, post: App, key: KeyInput, is_burst: bool, effects: Seq<Effect>) -> bool {
    let c = key.code;
    if is_char(key, 'p') && key.ctrl {
        ctrl_p_post(pre, post, effects)
    } else if is_char(key, 'a') && key.ctrl {
        ctrl_a_post(pre, post, effects)
    } else if is_char(key, 'c') && key.ctrl {
        ctrl_c_post(pre, post, effects)
    } else if is_char(key, 'l') && key.ctrl {
        ctrl_l_post(pre, post, effects)
    } else if c == KeyCode::Enter && (key.shift || key.alt) {
        effects =~= seq![Effect::InsertNewline] && unchanged_except(pre, post, Set::empty())
    } else if c == KeyCode::Enter {
        enter_key_post(pre, post, is_burst, effects)
    } else if c == KeyCode::Esc {
        esc_post(pre, post, effects)
    } else if is_char(key, 't') && key.ctrl {
        ctrl_t_post(pre, post, effects)
    } else if is_char(key, 'o') && key.ctrl {
        ctrl_o_post(pre, post, effects)
    } else if c == KeyCode::End {
        end_post(pre, post, effects)
    } else if c == KeyCode::Up && key.ctrl {
        ctrl_up_post(pre, post, effects)
    } else if c == KeyCode::Down && key.ctrl {
        ctrl_down_post(pre, post, effects)
    } else if c == KeyCode::Up {
        up_key_post(pre, post, key, effects)
    } else if c == KeyCode::Down {
        down_key_post(pre, post, key, effects)
    } else if c == KeyCode::Right && pre.menus.show_model_menu {
        right_post(pre, post, effects)
    } else if c == KeyCode::Left && pre.menus.show_model_menu {
        left_post(pre, post, effects)
    } else if is_char(key, 'f') && key.ctrl && pre.menus.show_model_menu {
        ctrl_f_effects(pre, effects) && unchanged_except(pre, post, Set::empty())
    } else {
        effects == forward_effects(pre) && unchanged_except(pre, post, Set::empty())
    }
}

/// What a key press does: the message dialog takes it first, then a command
/// that waits for confirmation, then the question to clear the chat, then
/// the question to leave; otherwise the key takes its own action (see
/// `main_key_post`). `is_burst` says whether the key came with other events
/// at once (as the keys of a paste do).
pub open spec fn key_step(pre: App, post: App, key: KeyInput, is_burst: bool, effects: Seq<Effect>) -> bool {
    if pre.prompts.user_msg_modal is Some {
        modal_key_post(pre, post, key, effects)
    } else if pre.prompts.command_confirmation is Some {
        confirmation_key_post(pre, post, key, effects)
    } else if pre.prompts.pending_clear {
        clear_key_post(pre, post, key, effects)
    } else if pre.prompts.pending_exit {
        exit_key_post(pre, post, key, effects)
    } else {
        main_key_post(pre, post, key, is_burst, effects)
    }
}

/// The states and keys on which a key press comes to an end without fault:
/// the state is well formed; Enter in the message dialog names a message of
/// the chat; and, when no dialog waits, moving the selection of a menu comes
/// to a stop (see `menu_walk_stops`) and Right in the model menu starts from
/// a selection below `usize::MAX`.
pub open spec fn key_accepted(app: App, key: KeyInput) -> bool {
    &&& app.wf()
    &&& (app.prompts.user_msg_modal matches Some(i) ==> (key.code == KeyCode::Enter ==> i < app.chat.history@.len()))
    &&& (no_dialog(app) ==> menu_walk_stops(app, key))
    &&& (no_dialog(app) && key.code == KeyCode::Right && app.menus.show_model_menu ==> selection(app.menus)
        < usize::MAX)
}

impl App {
    /// Whether a press of `key` on this state comes to an end without fault
    /// (see `key_accepted`).
    pub fn accepts_key(&self, key: KeyInput) -> (b: bool)
        ensures
            b == key_accepted(*self, key),
    {
        let wf = self.is_well_formed();
        let modal_ok = match self.prompts.user_msg_modal {
            Some(i) => key.code != KeyCode::Enter || i < self.chat.history.len(),
            None => true,
        };
        let free = self.prompts.user_msg_modal.is_none() && self.prompts.command_confirmation.is_none()
            && !self.prompts.pending_clear && !self.prompts.pending_exit;
        let m = &self.menus;
        let shown = m.show_menu || m.show_provider_menu || m.show_model_menu || m.show_settings_menu;
        let len = m.len_shown();
        let walk_ok = if free && shown && len > 0 && !key.ctrl {
            let flags = m.skipped();
            let start = m.selection_or_first();
            (key.code != KeyCode::Up || up_walk_stops(&flags, len, start)) && (key.code != KeyCode::Down
                || down_walk_stops(&flags, len, start))
        } else {
            true
        };
        let right_ok = !(free && key.code == KeyCode::Right && m.show_model_menu) || m.selection_or_first()
            < usize::MAX;
        wf && modal_ok && walk_ok && right_ok
    }

    /// The key's own action, when no dialog waits (see `main_key_post`).
    fn main_key(&mut self, key: KeyInput, is_burst: bool) -> (effects: Vec<Effect>)
        requires
            key_accepted(*old(self), key),
            no_dialog(*old(self)),
        ensures
            main_key_post(*old(self), *final(self), key, is_burst, effects@),
            final(self).wf(),
    {
        let c = key.code;
        if c == KeyCode::Char('p') && key.ctrl {
            self.ctrl_p()
        } else if c == KeyCode::Char('a') && key.ctrl {
            self.ctrl_a()
        } else if c == KeyCode::Char('c') && key.ctrl {
            if self.chat.is_generating {
                self.stop_generation()
            } else {
                Vec::new()
            }
        } else if c == KeyCode::Char('l') && key.ctrl {
            self.ctrl_l()
        } else if c == KeyCode::Enter && (key.shift || key.alt) {
            let mut effects: Vec<Effect> = Vec::new();
            effects.push(Effect::InsertNewline);
            effects
        } else if c == KeyCode::Enter {
            self.enter_key(is_burst)
        } else if c == KeyCode::Esc {
            self.esc()
        } else if c == KeyCode::Char('t') && key.ctrl {
            self.ctrl_t()
        } else if c == KeyCode::Char('o') && key.ctrl {
            self.ctrl_o()
        } else if c == KeyCode::End {
            self.end()
        } else if c == KeyCode::Up && key.ctrl {
            self.ctrl_up()
        } else if c == KeyCode::Down && key.ctrl {
            self.ctrl_down()
        } else if c == KeyCode::Up {
            self.up_key(key)
        } else if c == KeyCode::Down {
            self.down_key(key)
        } else if c == KeyCode::Right && self.menus.show_model_menu {
            self.right()
        } else if c == KeyCode::Left && self.menus.show_model_menu {
            self.left()
        } else if c == KeyCode::Char('f') && key.ctrl && self.menus.show_model_menu {
            self.ctrl_f()
        } else {
            self.forward()
        }
    }

    /// Handles a key press (see `key_step`) and returns the outside work that
    /// it asks for, in order.
    pub fn handle_key_event(&mut self, key: KeyInput, is_burst: bool) -> (effects: Vec<Effect>)
        requires
            key_accepted(*old(self), key),
        ensures
            key_step(*old(self), *final(self), key, is_burst, effects@),
            final(self).wf(),
    {
        if self.prompts.user_msg_modal.is_some() {
            self.modal_key(key)
        } else if self.prompts.command_confirmation.is_some() {
            self.confirmation_key(key)
        } else if self.prompts.pending_clear {
            self.clear_key(key)
        } else if self.prompts.pending_exit {
            self.exit_key(key)
        } else {
            self.main_key(key, is_burst)
        }
    }
}

} // verus!
