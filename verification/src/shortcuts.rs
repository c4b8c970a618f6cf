//! The keys outside dialogs other than Enter, Up and Down: the Control
//! shortcuts, Esc, End, browsing the prompts sent, jumping between the
//! sections of the model menu, and the keys that go to a text box.

use vstd::prelude::*;
use crate::chat::lit;
use crate::keys::{Effect, model_flags, selection, input_is_empty};
use crate::enter::model_at;
use crate::menu::{next_section_target, prev_section_target, next_section, prev_section};
use crate::state::{App, Part, Screen, ApiKeyInputStage, Chat, InputBoxes, Menus, Scroll, KeyDialog, Prompts, Thinking, unchanged_except, notice_added, command_menu_post, box_lines};
use crate::text::strings_view;

verus! {

/// Control+P: the command menu opens with its first item selected, then
/// follows the input (see `command_menu_post`).
pub open spec fn ctrl_p_post(pre: App, post: App, effects: Seq<Effect>) -> bool {
    let opened = App { menus: Menus { show_menu: true, selected: Some(0usize), ..pre.menus }, ..pre };
    effects.len() == 0 && command_menu_post(opened, post, pre.input.lines@[0]@)
}

/// Control+A: the provider menu opens, in place of the model menu, with its
/// first item selected.
pub open spec fn ctrl_a_post(pre: App, post: App, effects: Seq<Effect>) -> bool {
    &&& effects.len() == 0
    &&& post.menus == (Menus {
        show_model_menu: false,
        show_provider_menu: true,
        selected: Some(0usize),
        ..pre.menus
    })
    &&& unchanged_except(pre, post, set![Part::Menus])
}

/// The generation stops: its task is aborted (where one runs) and no tool
/// is shown as active.
pub open spec fn stopped_post(pre: App, post: App, effects: Seq<Effect>) -> bool {
    &&& (if pre.chat.has_task { effects =~= seq![Effect::AbortGeneration] } else { effects.len() == 0 })
    &&& post.chat == (Chat { is_generating: false, active_tool: None, has_task: false, ..pre.chat })
    &&& unchanged_except(pre, post, set![Part::Chat])
}

/// Control+C: stops the generation, when one runs.
pub open spec fn ctrl_c_post(pre: App, post: App, effects: Seq<Effect>) -> bool {
    if pre.chat.is_generating {
        stopped_post(pre, post, effects)
    } else {
        effects.len() == 0 && unchanged_except(pre, post, Set::empty())
    }
}

/// Control+L: the chat empties and the welcome screen shows, scrolled to the
/// top.
pub open spec fn ctrl_l_post(pre: App, post: App, effects: Seq<Effect>) -> bool {
    &&& effects.len() == 0
    &&& post.chat.history@.len() == 0
    &&& post.chat == (Chat { history: post.chat.history, ..pre.chat })
    &&& post.screen == Screen::Welcome
    &&& post.scroll == (Scroll { history_scroll: 0, ..pre.scroll })
    &&& unchanged_except(pre, post, set![Part::Chat, Part::Screen, Part::Scroll])
}

/// Esc: closes the first of the command, provider, model and settings menus
/// that shows; else closes the key dialog and forgets the ids typed in it;
/// else stops the generation that runs; else asks whether to leave.
pub open spec fn esc_post(pre: App, post: App, effects: Seq<Effect>) -> bool {
    let m = pre.menus;
    if m.show_menu || m.show_provider_menu || m.show_model_menu || m.show_settings_menu {
        &&& effects.len() == 0
        &&& post.menus == (if m.show_menu {
            Menus { show_menu: false, ..m }
        } else if m.show_provider_menu {
            Menus { show_provider_menu: false, ..m }
        } else if m.show_model_menu {
            Menus { show_model_menu: false, ..m }
        } else {
            Menus { show_settings_menu: false, ..m }
        })
        &&& unchanged_except(pre, post, set![Part::Menus])
    } else if pre.key_dialog.active {
        &&& effects.len() == 0
        &&& post.key_dialog == (KeyDialog {
            active: false,
            stage: ApiKeyInputStage::Inactive,
            pending_account_id: None,
            pending_gateway_id: None,
            ..pre.key_dialog
        })
        &&& unchanged_except(pre, post, set![Part::KeyDialog])
    } else if pre.chat.is_generating {
        stopped_post(pre, post, effects)
    } else {
        &&& effects.len() == 0
        &&& post.prompts == (Prompts { pending_exit: true, ..pre.prompts })
        &&& unchanged_except(pre, post, set![Part::Prompts])
    }
}

/// Control+T: following new text is switched on or off, with a notice that
/// says which.
pub open spec fn ctrl_t_post(pre: App, post: App, effects: Seq<Effect>) -> bool {
    let on = !pre.scroll.auto_scroll;
    &&& effects.len() == 0
    &&& post.scroll == (Scroll { auto_scroll: on, ..pre.scroll })
    &&& notice_added(pre, post, if on { "Auto-scroll enabled"@ } else { "Auto-scroll disabled"@ })
    &&& unchanged_except(pre, post, set![Part::Scroll, Part::Chat])
}

/// Control+O: thoughts are folded, or unfolded.
pub open spec fn ctrl_o_post(pre: App, post: App, effects: Seq<Effect>) -> bool {
    &&& effects.len() == 0
    &&& post.thinking == (Thinking { collapse: !pre.thinking.collapse, ..pre.thinking })
    &&& unchanged_except(pre, post, set![Part::Thinking])
}

/// End: the chat scrolls to the bottom and follows new text.
pub open spec fn end_post(pre: App, post: App, effects: Seq<Effect>) -> bool {
    &&& effects.len() == 0
    &&& post.scroll == (Scroll { history_scroll: pre.scroll.max_scroll, auto_scroll: true, ..pre.scroll })
    &&& unchanged_except(pre, post, set![Part::Scroll])
}

/// The input shows prompt `idx` of those sent, which is being browsed.
pub open spec fn shows_prompt(pre: App, post: App, idx: int, effects: Seq<Effect>) -> bool {
    let t = pre.input.prompt_history@[idx]@;
    &&& strings_view(post.input.lines@) == box_lines(t)
    &&& post.input == (InputBoxes {
        lines: post.input.lines,
        cursor_row: 0,
        cursor_col: post.input.cursor_col,
        prompt_history_index: Some(idx as usize),
        ..pre.input
    })
    &&& post.input.cursor_col == box_lines(t)[0].len()
    &&& unchanged_except(pre, post, set![Part::Input])
    &&& effects.len() == 1
    &&& effects[0] matches Effect::SetInput(x) && x@ == t
}

/// Control+Up, with an empty input and prompts sent: the input shows the
/// prompt before the one browsed (the first stays), or the last one when
/// none is browsed. Otherwise nothing happens.
pub open spec fn ctrl_up_post(pre: App, post: App, effects: Seq<Effect>) -> bool {
    let n = pre.input.prompt_history@.len();
    if pre.input.cursor_row == 0 && input_is_empty(pre) && n > 0 {
        let idx = match pre.input.prompt_history_index {
            Some(i) => if i == 0 { 0 } else { i - 1 },
            None => n - 1,
        };
        shows_prompt(pre, post, idx, effects)
    } else {
        effects.len() == 0 && unchanged_except(pre, post, Set::empty())
    }
}

/// Control+Down, with the cursor on the last line while prompts are
/// browsed: the input shows the next prompt, or, after the last one, empties
/// and browsing ends. Otherwise nothing happens.
pub open spec fn ctrl_down_post(pre: App, post: App, effects: Seq<Effect>) -> bool {
    let n = pre.input.prompt_history@.len();
    if pre.input.cursor_row >= pre.input.lines@.len() - 1 && pre.input.prompt_history_index is Some {
        let i = pre.input.prompt_history_index->0;
        if i >= n - 1 {
            &&& effects =~= seq![Effect::ClearInput]
            &&& strings_view(post.input.lines@) == seq![Seq::<char>::empty()]
            &&& post.input == (InputBoxes {
                lines: post.input.lines,
                cursor_row: 0,
                cursor_col: 0,
                prompt_history_index: None,
                ..pre.input
            })
            &&& unchanged_except(pre, post, set![Part::Input])
        } else {
            shows_prompt(pre, post, i + 1, effects)
        }
    } else {
        effects.len() == 0 && unchanged_except(pre, post, Set::empty())
    }
}

/// The selection moves to `target` where there is one; else nothing
/// happens.
pub open spec fn jumps_to(pre: App, post: App, target: Option<int>, effects: Seq<Effect>) -> bool {
    &&& effects.len() == 0
    &&& match target {
        Some(t) => post.menus == (Menus { selected: Some(t as usize), ..pre.menus }) && unchanged_except(
            pre,
            post,
            set![Part::Menus],
        ),
        None => unchanged_except(pre, post, Set::empty()),
    }
}

/// Right in the model menu: the selection jumps to the first model of the
/// next section (see `next_section_target`).
pub open spec fn right_post(pre: App, post: App, effects: Seq<Effect>) -> bool {
    let items = pre.menus.filtered_models@;
    if items.len() > 0 {
        jumps_to(pre, post, next_section_target(model_flags(items), selection(pre.menus)), effects)
    } else {
        effects.len() == 0 && unchanged_except(pre, post, Set::empty())
    }
}

/// Left in the model menu: the selection jumps to the first model of the
/// previous section (see `prev_section_target`).
pub open spec fn left_post(pre: App, post: App, effects: Seq<Effect>) -> bool {
    let items = pre.menus.filtered_models@;
    if items.len() > 0 {
        jumps_to(pre, post, prev_section_target(model_flags(items), selection(pre.menus)), effects)
    } else {
        effects.len() == 0 && unchanged_except(pre, post, Set::empty())
    }
}

/// Control+F in the model menu: the selected model is added to the
/// favourites or removed from them (see `App::note_favorite`).
pub open spec fn ctrl_f_effects(app: App, effects: Seq<Effect>) -> bool {
    match model_at(app.menus.filtered_models@, app.menus.selected) {
        Some(m) => effects =~= seq![Effect::ToggleFavorite(m)],
        None => effects.len() == 0,
    }
}

/// Any other key goes to the text box in use: the key dialog's, the model
/// search's, or the input (after which the command menu follows the input).
pub open spec fn forward_effects(app: App) -> Seq<Effect> {
    if app.key_dialog.active {
        seq![Effect::ForwardKeyToApiKeyInput]
    } else if app.menus.show_model_menu {
        seq![Effect::ForwardKeyToModelSearch]
    } else {
        seq![Effect::ForwardKeyToInput, Effect::RefreshCommandMenu]
    }
}

impl App {
    /// Control+P (see `ctrl_p_post`).
    pub(crate) fn ctrl_p(&mut self) -> (effects: Vec<Effect>)
        requires
            old(self).wf(),
        ensures
            ctrl_p_post(*old(self), *final(self), effects@),
            final(self).wf(),
    {
        self.menus.show_menu = true;
        self.menus.selected = Some(0);
        self.update_filtered_commands();
        Vec::new()
    }

    /// Control+A (see `ctrl_a_post`).
    pub(crate) fn ctrl_a(&mut self) -> (effects: Vec<Effect>)
        requires
            old(self).wf(),
        ensures
            ctrl_a_post(*old(self), *final(self), effects@),
            final(self).wf(),
    {
        self.menus.show_model_menu = false;
        self.menus.show_provider_menu = true;
        self.menus.selected = Some(0);
        Vec::new()
    }

    /// Stops the generation (see `stopped_post`).
    pub(crate) fn stop_generation(&mut self) -> (effects: Vec<Effect>)
        requires
            old(self).wf(),
        ensures
            stopped_post(*old(self), *final(self), effects@),
            final(self).wf(),
    {
        let mut effects: Vec<Effect> = Vec::new();
        if self.chat.has_task {
            effects.push(Effect::AbortGeneration);
        }
        self.chat.has_task = false;
        self.chat.is_generating = false;
        self.chat.active_tool = None;
        effects
    }

    /// Control+L (see `ctrl_l_post`).
    pub(crate) fn ctrl_l(&mut self) -> (effects: Vec<Effect>)
        requires
            old(self).wf(),
        ensures
            ctrl_l_post(*old(self), *final(self), effects@),
            final(self).wf(),
    {
        self.chat.history.clear();
        self.screen = Screen::Welcome;
        self.scroll.history_scroll = 0;
        Vec::new()
    }

    /// Esc (see `esc_post`).
    pub(crate) fn esc(&mut self) -> (effects: Vec<Effect>)
        requires
            old(self).wf(),
        ensures
            esc_post(*old(self), *final(self), effects@),
            final(self).wf(),
    {
        if self.menus.show_menu {
            self.menus.show_menu = false;
        } else if self.menus.show_provider_menu {
            self.menus.show_provider_menu = false;
        } else if self.menus.show_model_menu {
            self.menus.show_model_menu = false;
        } else if self.menus.show_settings_menu {
            self.menus.show_settings_menu = false;
        } else if self.key_dialog.active {
            self.key_dialog.active = false;
            self.key_dialog.stage = ApiKeyInputStage::Inactive;
            self.key_dialog.pending_account_id = None;
            self.key_dialog.pending_gateway_id = None;
        } else if self.chat.is_generating {
            return self.stop_generation();
        } else {
            self.prompts.pending_exit = true;
        }
        Vec::new()
    }

    /// Control+T (see `ctrl_t_post`).
    pub(crate) fn ctrl_t(&mut self) -> (effects: Vec<Effect>)
        requires
            old(self).wf(),
        ensures
            ctrl_t_post(*old(self), *final(self), effects@),
            final(self).wf(),
    {
        self.scroll.auto_scroll = !self.scroll.auto_scroll;
        let notice = if self.scroll.auto_scroll {
            lit("Auto-scroll enabled")
        } else {
            lit("Auto-scroll disabled")
        };
        self.push_system(notice);
        Vec::new()
    }

    /// Control+O (see `ctrl_o_post`).
    pub(crate) fn ctrl_o(&mut self) -> (effects: Vec<Effect>)
        requires
            old(self).wf(),
        ensures
            ctrl_o_post(*old(self), *final(self), effects@),
            final(self).wf(),
    {
        self.thinking.collapse = !self.thinking.collapse;
        Vec::new()
    }

    /// End (see `end_post`).
    pub(crate) fn end(&mut self) -> (effects: Vec<Effect>)
        requires
            old(self).wf(),
        ensures
            end_post(*old(self), *final(self), effects@),
            final(self).wf(),
    {
        self.scroll.auto_scroll = true;
        self.scroll.history_scroll = self.scroll.max_scroll;
        Vec::new()
    }

    /// Shows prompt `idx` of those sent in the input (see `shows_prompt`).
    fn show_prompt(&mut self, idx: usize) -> (effects: Vec<Effect>)
        requires
            old(self).wf(),
            idx < old(self).input.prompt_history@.len(),
        ensures
            shows_prompt(*old(self), *final(self), idx as int, effects@),
            final(self).wf(),
    {
        let t = self.input.prompt_history[idx].clone();
        self.set_input_text(&t);
        self.input.prompt_history_index = Some(idx);
        let mut effects: Vec<Effect> = Vec::new();
        effects.push(Effect::SetInput(t));
        effects
    }

    /// Control+Up (see `ctrl_up_post`).
    pub(crate) fn ctrl_up(&mut self) -> (effects: Vec<Effect>)
        requires
            old(self).wf(),
        ensures
            ctrl_up_post(*old(self), *final(self), effects@),
            final(self).wf(),
    {
        let n = self.input.prompt_history.len();
        if self.input.cursor_row == 0 && self.input.lines.len() == 1 && self.input.lines[0].as_str().is_empty()
            && n > 0 {
            let idx = match self.input.prompt_history_index {
                Some(i) => if i == 0 { 0 } else { i - 1 },
                None => n - 1,
            };
            self.show_prompt(idx)
        } else {
            Vec::new()
        }
    }

    /// Control+Down (see `ctrl_down_post`).
    pub(crate) fn ctrl_down(&mut self) -> (effects: Vec<Effect>)
        requires
            old(self).wf(),
        ensures
            ctrl_down_post(*old(self), *final(self), effects@),
            final(self).wf(),
    {
        let n = self.input.prompt_history.len();
        match self.input.prompt_history_index {
            Some(i) => {
                if self.input.cursor_row >= self.input.lines.len() - 1 {
                    if i >= n - 1 {
                        self.input.prompt_history_index = None;
                        self.clear_input();
                        let mut effects: Vec<Effect> = Vec::new();
                        effects.push(Effect::ClearInput);
                        effects
                    } else {
                        self.show_prompt(i + 1)
                    }
                } else {
                    Vec::new()
                }
            },
            None => Vec::new(),
        }
    }

    /// Right in the model menu (see `right_post`).
    pub(crate) fn right(&mut self) -> (effects: Vec<Effect>)
        requires
            old(self).wf(),
            selection(old(self).menus) < usize::MAX,
        ensures
            right_post(*old(self), *final(self), effects@),
            final(self).wf(),
    {
        if self.menus.filtered_models.len() > 0 {
            let flags = crate::keys::model_header_flags(&self.menus.filtered_models);
            let current = self.menus.selection_or_first();
            match next_section(&flags, current) {
                Some(t) => {
                    self.menus.selected = Some(t);
                },
                None => {},
            }
        }
        Vec::new()
    }

    /// Left in the model menu (see `left_post`).
    pub(crate) fn left(&mut self) -> (effects: Vec<Effect>)
        requires
            old(self).wf(),
        ensures
            left_post(*old(self), *final(self), effects@),
            final(self).wf(),
    {
        if self.menus.filtered_models.len() > 0 {
            let flags = crate::keys::model_header_flags(&self.menus.filtered_models);
            let current = self.menus.selection_or_first();
            match prev_section(&flags, current) {
                Some(t) => {
                    self.menus.selected = Some(t);
                },
                None => {},
            }
        }
        Vec::new()
    }

    /// Control+F in the model menu (see `ctrl_f_effects`).
    pub(crate) fn ctrl_f(&self) -> (effects: Vec<Effect>)
        ensures
            ctrl_f_effects(*self, effects@),
    {
        let mut effects: Vec<Effect> = Vec::new();
        match self.selected_model() {
            Some(m) => effects.push(Effect::ToggleFavorite(m)),
            None => {},
        }
        effects
    }

    /// Any other key (see `forward_effects`).
    pub(crate) fn forward(&self) -> (effects: Vec<Effect>)
        ensures
            effects@ == forward_effects(*self),
    {
        let mut effects: Vec<Effect> = Vec::new();
        if self.key_dialog.active {
            effects.push(Effect::ForwardKeyToApiKeyInput);
        } else if self.menus.show_model_menu {
            effects.push(Effect::ForwardKeyToModelSearch);
        } else {
            effects.push(Effect::ForwardKeyToInput);
            effects.push(Effect::RefreshCommandMenu);
        }
        assert(effects@ =~= forward_effects(*self));
        effects
    }
}

} // verus!
