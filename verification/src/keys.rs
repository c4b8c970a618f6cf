//! Key presses: what each key does to the state, and the outside work that it
//! asks of the caller (as a list of effects, performed in order).

use vstd::prelude::*;
use vstd::string::StringExecFns;
use crate::chat::Message;
use crate::state::{after_head_deletion, App, Part, Screen, ModelInfo, ModelMenuItem, SettingsMenuItem, Prompts, Chat, InputBoxes, Menus, Scroll, unchanged_except, is_system_message, box_lines};
use crate::catalog::PROVIDER_COUNT;
use crate::menu::{menu_up_target, menu_down_target, menu_up, menu_down};
use crate::text::{strings_view, trim, join_lines, trim_string, join_with_newlines};

verus! {

/// The key of a key press.
#[derive(Clone, Copy, Debug, PartialEq, Eq, Structural)]
pub enum KeyCode {
    Char(char),
    Enter,
    Esc,
    Up,
    Down,
    Left,
    Right,
    End,
    Other,
}

/// A key press: the key and the modifiers held.
#[derive(Clone, Copy, Debug, PartialEq, Eq, Structural)]
pub struct KeyInput {
    pub code: KeyCode,
    pub ctrl: bool,
    pub shift: bool,
    pub alt: bool,
}

/// The answer given to a command that waits for confirmation.
#[derive(Clone, Debug)]
pub enum ConfirmationReply {
    AllowOnce,
    AllowSession,
    AllowWorkspace,
    Deny,
    Feedback(String),
}

/// Outside work that a step asks of its caller, to be done in order.
#[derive(Clone, Debug)]
pub enum Effect {
    /// Put the text on the clipboard.
    CopyToClipboard(String),
    /// Replace the input box by the lines of the text, the cursor at the end
    /// of the first line.
    SetInput(String),
    /// Replace the input box by an empty one.
    ClearInput,
    /// Delete the input box's text before the cursor, line by line, and give
    /// it back its usual placeholder.
    ClearFeedbackInput,
    /// Give the input box the placeholder that asks for feedback.
    AskFeedback,
    /// Break the input box's line at the cursor.
    InsertNewline,
    /// Delete the character before the input box's cursor.
    DeleteChar,
    /// Hand the key to the input box.
    ForwardKeyToInput,
    /// Update the command menu from the input box (`App::update_filtered_commands`).
    RefreshCommandMenu,
    /// Hand the key to the key dialog's box.
    ForwardKeyToApiKeyInput,
    /// Hand the key to the model search box, and search again if it changed.
    ForwardKeyToModelSearch,
    /// Search the models for the text of the model search box; the flag is
    /// set when the search follows a key typed into the box, and not newly
    /// fetched models.
    SearchModels(bool),
    /// Replace the key dialog's box by an empty one.
    ClearApiKeyInput,
    /// Send the answer to the command that waits for confirmation.
    Reply(ConfirmationReply),
    /// Allow all commands for this session in the session's configuration.
    AllowCommandsForSession,
    /// Allow access outside the workspace in the workspace's configuration.
    AllowOutsideAccessForWorkspace,
    /// Save the session.
    SaveSession,
    /// Leave the application.
    Exit,
    /// Run the slash command.
    RunCommand(String),
    /// Stop the generation that runs.
    AbortGeneration,
    /// Start a generation on the chat with the current model.
    StartGeneration,
    /// Store the new logo animation and fill the settings menu again.
    SetLogoAnimation(String),
    /// Store the new logo animation theme and fill the settings menu again.
    SetLogoAnimationColor(String),
    /// Switch to the model, where a key for its provider is known.
    SwitchModel(ModelInfo),
    /// Add the model to the favourites, or remove it from them.
    ToggleFavorite(ModelInfo),
    /// Store the key for the provider.
    SaveApiKey(String, String),
}

/// Whether the key is the character `c` with any modifiers.
pub open spec fn is_char(key: KeyInput, c: char) -> bool {
    key.code == KeyCode::Char(c)
}

/// The text of a message (empty when it has none).
pub open spec fn message_text(m: Message) -> Seq<char> {
    match m.content {
        Some(c) => c@,
        None => seq![],
    }
}

/// A key press while the message dialog is open for message `i`: up/`k` and
/// down/`j` switch between its two actions; Enter performs the selected one
/// (copy the message, or cut the chat before it and put its text back in the
/// input box) and closes the dialog; Esc closes it; other keys do nothing.
pub open spec fn modal_key_post(pre: App, post: App, key: KeyInput, effects: Seq<Effect>) -> bool {
    let i = pre.prompts.user_msg_modal->0;
    let sel = pre.prompts.user_msg_modal_selected;
    if key.code == KeyCode::Up || is_char(key, 'k') {
        &&& effects.len() == 0
        &&& post.prompts == (Prompts { user_msg_modal_selected: if sel == 0 { 1usize } else { 0usize }, ..pre.prompts })
        &&& unchanged_except(pre, post, set![Part::Prompts])
    } else if key.code == KeyCode::Down || is_char(key, 'j') {
        &&& effects.len() == 0
        &&& post.prompts == (Prompts { user_msg_modal_selected: if sel == 1 { 0usize } else { 1usize }, ..pre.prompts })
        &&& unchanged_except(pre, post, set![Part::Prompts])
    } else if key.code == KeyCode::Enter {
        let text = message_text(pre.chat.history@[i as int]);
        &&& post.prompts == (Prompts { user_msg_modal: None, ..pre.prompts })
        &&& effects.len() == 1
        &&& if sel == 0 {
            &&& effects[0] matches Effect::CopyToClipboard(t) && t@ == text
            &&& post.chat.history@.len() == pre.chat.history@.len() + 1
            &&& post.chat.history@.drop_last() == pre.chat.history@
            &&& is_system_message(post.chat.history@.last(), "Message copied to clipboard!"@)
            &&& post.chat == (Chat { history: post.chat.history, ..pre.chat })
            &&& unchanged_except(pre, post, set![Part::Chat, Part::Prompts])
        } else {
            &&& effects[0] matches Effect::SetInput(t) && t@ == text
            &&& post.chat.history@ == pre.chat.history@.take(i as int)
            &&& post.chat == (Chat { history: post.chat.history, ..pre.chat })
            &&& strings_view(post.input.lines@) == box_lines(text)
            &&& post.input == (InputBoxes {
                lines: post.input.lines,
                cursor_row: 0,
                cursor_col: post.input.cursor_col,
                ..pre.input
            })
            &&& post.input.cursor_col == box_lines(text)[0].len()
            &&& unchanged_except(pre, post, set![Part::Chat, Part::Input, Part::Prompts])
        }
    } else if key.code == KeyCode::Esc {
        &&& effects.len() == 0
        &&& post.prompts == (Prompts { user_msg_modal: None, ..pre.prompts })
        &&& unchanged_except(pre, post, set![Part::Prompts])
    } else {
        effects.len() == 0 && unchanged_except(pre, post, Set::empty())
    }
}

impl App {
    /// Keeps the first `n` messages of the chat.
    pub(crate) fn truncate_history(&mut self, n: usize)
        requires
            n <= old(self).chat.history@.len(),
        ensures
            final(self).chat.history@ == old(self).chat.history@.take(n as int),
            final(self).chat == (Chat { history: final(self).chat.history, ..old(self).chat }),
            unchanged_except(*old(self), *final(self), set![Part::Chat]),
    {
        self.chat.history.truncate(n);
    }

    /// The text of message `i`.
    pub(crate) fn message_text_at(&self, i: usize) -> (t: String)
        requires
            i < self.chat.history@.len(),
        ensures
            t@ == message_text(self.chat.history@[i as int]),
    {
        match &self.chat.history[i].content {
            Some(c) => c.clone(),
            None => String::new(),
        }
    }

    /// Handles a key press while the message dialog is open (see
    /// `modal_key_post`).
    pub(crate) fn modal_key(&mut self, key: KeyInput) -> (effects: Vec<Effect>)
        requires
            old(self).wf(),
            old(self).prompts.user_msg_modal is Some,
            key.code == KeyCode::Enter ==> old(self).prompts.user_msg_modal->0 < old(self).chat.history@.len(),
        ensures
            modal_key_post(*old(self), *final(self), key, effects@),
            final(self).wf(),
    {
        let mut effects: Vec<Effect> = Vec::new();
        let i = match self.prompts.user_msg_modal {
            Some(i) => i,
            None => 0,
        };
        let sel = self.prompts.user_msg_modal_selected;
        if key.code == KeyCode::Up || key.code == KeyCode::Char('k') {
            self.prompts.user_msg_modal_selected = if sel == 0 { 1 } else { 0 };
        } else if key.code == KeyCode::Down || key.code == KeyCode::Char('j') {
            self.prompts.user_msg_modal_selected = if sel == 1 { 0 } else { 1 };
        } else if key.code == KeyCode::Enter {
            let text = self.message_text_at(i);
            if sel == 0 {
                effects.push(Effect::CopyToClipboard(text));
                self.push_system(String::from_str("Message copied to clipboard!"));
            } else {
                self.truncate_history(i);
                self.set_input_text(&text);
                effects.push(Effect::SetInput(text));
            }
            self.prompts.user_msg_modal = None;
        } else if key.code == KeyCode::Esc {
            self.prompts.user_msg_modal = None;
        }
        effects
    }
}

/// The feedback sent when the user types `text`: the text without
/// surrounding whitespace, or `Command cancelled.` when nothing is left.
pub open spec fn feedback_text(text: Seq<char>) -> Seq<char> {
    if trim(text).len() == 0 {
        "Command cancelled."@
    } else {
        trim(text)
    }
}

/// The input box once what lies before its cursor is deleted back to its
/// start (see `after_head_deletion`), the cursor at the start.
pub open spec fn input_head_deleted(pre: App, post: App) -> bool {
    &&& strings_view(post.input.lines@) == after_head_deletion(
        strings_view(pre.input.lines@),
        pre.input.cursor_row as int,
        pre.input.cursor_col as int,
    )
    &&& post.input == (InputBoxes { lines: post.input.lines, cursor_row: 0, cursor_col: 0, ..pre.input })
}

/// A key press while a command waits for confirmation. While feedback is
/// typed: Esc stops typing it and deletes what was typed before the cursor
/// (see `input_head_deleted`); Enter sends the typed text as feedback (see
/// `feedback_text`), deletes it likewise and stops; other keys go to the
/// input box. Otherwise:
/// `y` allows the command once, `s` for the session and `w` for the
/// workspace (recording that in the configuration), `d` or Esc deny it, and
/// `f` starts typing feedback; other keys do nothing.
pub open spec fn confirmation_key_post(pre: App, post: App, key: KeyInput, effects: Seq<Effect>) -> bool {
    let answered = post.prompts == (Prompts { command_confirmation: None, ..pre.prompts })
        && unchanged_except(pre, post, set![Part::Prompts]);
    if pre.prompts.inputting_command_feedback {
        if key.code == KeyCode::Esc {
            &&& effects =~= seq![Effect::ClearFeedbackInput]
            &&& post.prompts == (Prompts { inputting_command_feedback: false, ..pre.prompts })
            &&& input_head_deleted(pre, post)
            &&& unchanged_except(pre, post, set![Part::Prompts, Part::Input])
        } else if key.code == KeyCode::Enter {
            let fb = feedback_text(join_lines(strings_view(pre.input.lines@)));
            &&& post.prompts == (Prompts {
                command_confirmation: None,
                inputting_command_feedback: false,
                ..pre.prompts
            })
            &&& input_head_deleted(pre, post)
            &&& unchanged_except(pre, post, set![Part::Prompts, Part::Input])
            &&& effects.len() == 2
            &&& effects[0] is ClearFeedbackInput
            &&& effects[1] matches Effect::Reply(ConfirmationReply::Feedback(t)) && t@ == fb
        } else {
            effects =~= seq![Effect::ForwardKeyToInput] && unchanged_except(pre, post, Set::empty())
        }
    } else if is_char(key, 'y') || is_char(key, 'Y') {
        &&& answered
        &&& effects.len() == 1
        &&& effects[0] matches Effect::Reply(ConfirmationReply::AllowOnce)
    } else if is_char(key, 's') || is_char(key, 'S') {
        &&& answered
        &&& effects.len() == 2
        &&& effects[0] is AllowCommandsForSession
        &&& effects[1] matches Effect::Reply(ConfirmationReply::AllowSession)
    } else if is_char(key, 'w') || is_char(key, 'W') {
        &&& answered
        &&& effects.len() == 2
        &&& effects[0] is AllowOutsideAccessForWorkspace
        &&& effects[1] matches Effect::Reply(ConfirmationReply::AllowWorkspace)
    } else if is_char(key, 'd') || is_char(key, 'D') || key.code == KeyCode::Esc {
        &&& answered
        &&& effects.len() == 1
        &&& effects[0] matches Effect::Reply(ConfirmationReply::Deny)
    } else if is_char(key, 'f') || is_char(key, 'F') {
        &&& effects =~= seq![Effect::AskFeedback]
        &&& post.prompts == (Prompts { inputting_command_feedback: true, ..pre.prompts })
        &&& unchanged_except(pre, post, set![Part::Prompts])
    } else {
        effects.len() == 0 && unchanged_except(pre, post, Set::empty())
    }
}

/// A key press while the question to clear the chat waits: `y` or Enter
/// clear it, back to the welcome screen scrolled to the top; `n` or Esc
/// drop the question; other keys do nothing.
pub open spec fn clear_key_post(pre: App, post: App, key: KeyInput, effects: Seq<Effect>) -> bool {
    &&& effects.len() == 0
    &&& if is_char(key, 'y') || is_char(key, 'Y') || key.code == KeyCode::Enter {
        &&& post.chat.history@.len() == 0
        &&& post.chat == (Chat { history: post.chat.history, ..pre.chat })
        &&& post.screen == Screen::Welcome
        &&& post.scroll == (crate::state::Scroll { history_scroll: 0, ..pre.scroll })
        &&& post.prompts == (Prompts { pending_clear: false, ..pre.prompts })
        &&& unchanged_except(pre, post, set![Part::Chat, Part::Screen, Part::Scroll, Part::Prompts])
    } else if is_char(key, 'n') || is_char(key, 'N') || key.code == KeyCode::Esc {
        &&& post.prompts == (Prompts { pending_clear: false, ..pre.prompts })
        &&& unchanged_except(pre, post, set![Part::Prompts])
    } else {
        unchanged_except(pre, post, Set::empty())
    }
}

/// A key press while the question to leave waits: `y` or Enter leave,
/// saving the session first when the chat is not empty; `n` or Esc drop the
/// question; other keys do nothing.
pub open spec fn exit_key_post(pre: App, post: App, key: KeyInput, effects: Seq<Effect>) -> bool {
    if is_char(key, 'y') || is_char(key, 'Y') || key.code == KeyCode::Enter {
        &&& if pre.chat.history@.len() > 0 {
            effects =~= seq![Effect::SaveSession, Effect::Exit]
        } else {
            effects =~= seq![Effect::Exit]
        }
        &&& unchanged_except(pre, post, Set::empty())
    } else if is_char(key, 'n') || is_char(key, 'N') || key.code == KeyCode::Esc {
        &&& effects.len() == 0
        &&& post.prompts == (Prompts { pending_exit: false, ..pre.prompts })
        &&& unchanged_except(pre, post, set![Part::Prompts])
    } else {
        effects.len() == 0 && unchanged_except(pre, post, Set::empty())
    }
}

/// The feedback typed in the input box (see `feedback_text`).
fn feedback_of(lines: &Vec<String>) -> (t: String)
    ensures
        t@ == feedback_text(join_lines(strings_view(lines@))),
{
    let joined = join_with_newlines(lines);
    let trimmed = trim_string(joined.as_str());
    if trimmed.as_str().is_empty() {
        String::from_str("Command cancelled.")
    } else {
        trimmed
    }
}

impl App {
    /// Handles a key press while a command waits for confirmation (see
    /// `confirmation_key_post`).
    pub(crate) fn confirmation_key(&mut self, key: KeyInput) -> (effects: Vec<Effect>)
        requires
            old(self).wf(),
        ensures
            confirmation_key_post(*old(self), *final(self), key, effects@),
            final(self).wf(),
    {
        let mut effects: Vec<Effect> = Vec::new();
        if self.prompts.inputting_command_feedback {
            if key.code == KeyCode::Esc {
                self.prompts.inputting_command_feedback = false;
                self.delete_to_input_start();
                effects.push(Effect::ClearFeedbackInput);
            } else if key.code == KeyCode::Enter {
                let fb = feedback_of(&self.input.lines);
                self.delete_to_input_start();
                self.prompts.command_confirmation = None;
                effects.push(Effect::ClearFeedbackInput);
                effects.push(Effect::Reply(ConfirmationReply::Feedback(fb)));
                self.prompts.inputting_command_feedback = false;
            } else {
                effects.push(Effect::ForwardKeyToInput);
            }
        } else if key.code == KeyCode::Char('y') || key.code == KeyCode::Char('Y') {
            self.prompts.command_confirmation = None;
            effects.push(Effect::Reply(ConfirmationReply::AllowOnce));
        } else if key.code == KeyCode::Char('s') || key.code == KeyCode::Char('S') {
            effects.push(Effect::AllowCommandsForSession);
            self.prompts.command_confirmation = None;
            effects.push(Effect::Reply(ConfirmationReply::AllowSession));
        } else if key.code == KeyCode::Char('w') || key.code == KeyCode::Char('W') {
            effects.push(Effect::AllowOutsideAccessForWorkspace);
            self.prompts.command_confirmation = None;
            effects.push(Effect::Reply(ConfirmationReply::AllowWorkspace));
        } else if key.code == KeyCode::Char('d') || key.code == KeyCode::Char('D') || key.code == KeyCode::Esc {
            self.prompts.command_confirmation = None;
            effects.push(Effect::Reply(ConfirmationReply::Deny));
        } else if key.code == KeyCode::Char('f') || key.code == KeyCode::Char('F') {
            self.prompts.inputting_command_feedback = true;
            effects.push(Effect::AskFeedback);
        }
        effects
    }

    /// Handles a key press while the question to clear the chat waits (see
    /// `clear_key_post`).
    pub(crate) fn clear_key(&mut self, key: KeyInput) -> (effects: Vec<Effect>)
        requires
            old(self).wf(),
        ensures
            clear_key_post(*old(self), *final(self), key, effects@),
            final(self).wf(),
    {
        if key.code == KeyCode::Char('y') || key.code == KeyCode::Char('Y') || key.code == KeyCode::Enter {
            self.chat.history.clear();
            self.screen = Screen::Welcome;
            self.scroll.history_scroll = 0;
            self.prompts.pending_clear = false;
        } else if key.code == KeyCode::Char('n') || key.code == KeyCode::Char('N') || key.code == KeyCode::Esc {
            self.prompts.pending_clear = false;
        }
        Vec::new()
    }

    /// Handles a key press while the question to leave waits (see
    /// `exit_key_post`).
    pub(crate) fn exit_key(&mut self, key: KeyInput) -> (effects: Vec<Effect>)
        requires
            old(self).wf(),
        ensures
            exit_key_post(*old(self), *final(self), key, effects@),
            final(self).wf(),
    {
        let mut effects: Vec<Effect> = Vec::new();
        if key.code == KeyCode::Char('y') || key.code == KeyCode::Char('Y') || key.code == KeyCode::Enter {
            if self.chat.history.len() > 0 {
                effects.push(Effect::SaveSession);
            }
            effects.push(Effect::Exit);
        } else if key.code == KeyCode::Char('n') || key.code == KeyCode::Char('N') || key.code == KeyCode::Esc {
            self.prompts.pending_exit = false;
        }
        effects
    }
}

/// The header flags of the model menu's items.
pub open spec fn model_flags(items: Seq<ModelMenuItem>) -> Seq<bool> {
    items.map_values(|i: ModelMenuItem| i is Header)
}

/// The header flags of the settings menu's items.
pub open spec fn settings_flags(items: Seq<SettingsMenuItem>) -> Seq<bool> {
    items.map_values(|i: SettingsMenuItem| i is Header)
}

/// Whether a menu shows.
pub open spec fn any_menu(m: Menus) -> bool {
    m.show_menu || m.show_provider_menu || m.show_model_menu || m.show_settings_menu
}

/// The number of items of the menu that shows first among the command,
/// provider, settings and model menus (in that order).
pub open spec fn menu_len(m: Menus) -> int {
    if m.show_menu {
        m.filtered_commands@.len() as int
    } else if m.show_provider_menu {
        PROVIDER_COUNT as int
    } else if m.show_settings_menu {
        m.settings_items@.len() as int
    } else {
        m.filtered_models@.len() as int
    }
}

/// The headers that moving the selection skips: those of the model menu when
/// it shows, else those of the settings menu when it shows, else none.
pub open spec fn skip_flags(m: Menus) -> Seq<bool> {
    if m.show_model_menu {
        model_flags(m.filtered_models@)
    } else if m.show_settings_menu {
        settings_flags(m.settings_items@)
    } else {
        seq![]
    }
}

/// The current selection, or the first item when there is none.
pub open spec fn selection(m: Menus) -> int {
    match m.selected {
        Some(s) => s as int,
        None => 0,
    }
}

/// Whether the input box holds one empty line.
pub open spec fn input_is_empty(app: App) -> bool {
    app.input.lines@.len() == 1 && app.input.lines@[0]@.len() == 0
}

/// Up without Control. In a menu with items the selection moves up (see
/// `menu_up_target`). Outside menus, when the input is empty, the chat is
/// scrolled, a reply is generated or Shift is held, the chat scrolls up 15
/// rows and stops following new text; otherwise the key goes to the input.
pub open spec fn up_key_post(pre: App, post: App, key: KeyInput, effects: Seq<Effect>) -> bool {
    if any_menu(pre.menus) {
        &&& effects.len() == 0
        &&& if menu_len(pre.menus) > 0 {
            let t = menu_up_target(skip_flags(pre.menus), menu_len(pre.menus), selection(pre.menus))->0;
            &&& post.menus == (Menus { selected: Some(t as usize), ..pre.menus })
            &&& unchanged_except(pre, post, set![Part::Menus])
        } else {
            unchanged_except(pre, post, Set::empty())
        }
    } else if input_is_empty(pre) || pre.scroll.history_scroll > 0 || pre.chat.is_generating || key.shift {
        &&& effects.len() == 0
        &&& post.scroll == (Scroll {
            history_scroll: if pre.scroll.history_scroll >= 15 { (pre.scroll.history_scroll - 15) as u16 } else { 0u16 },
            auto_scroll: false,
            ..pre.scroll
        })
        &&& unchanged_except(pre, post, set![Part::Scroll])
    } else {
        effects =~= seq![Effect::ForwardKeyToInput] && unchanged_except(pre, post, Set::empty())
    }
}

/// Down without Control. In a menu with items the selection moves down (see
/// `menu_down_target`). Outside menus, when the input is empty, the chat can
/// scroll further, a reply is generated or Shift is held, the chat scrolls
/// down 15 rows (not past `u16::MAX`) and follows new text again once at the
/// bottom; otherwise the key goes to the input.
pub open spec fn down_key_post(pre: App, post: App, key: KeyInput, effects: Seq<Effect>) -> bool {
    if any_menu(pre.menus) {
        &&& effects.len() == 0
        &&& if menu_len(pre.menus) > 0 {
            let t = menu_down_target(skip_flags(pre.menus), menu_len(pre.menus), selection(pre.menus))->0;
            &&& post.menus == (Menus { selected: Some(t as usize), ..pre.menus })
            &&& unchanged_except(pre, post, set![Part::Menus])
        } else {
            unchanged_except(pre, post, Set::empty())
        }
    } else if input_is_empty(pre) || pre.scroll.history_scroll < pre.scroll.max_scroll || pre.chat.is_generating
        || key.shift {
        let s = if pre.scroll.history_scroll + 15 <= u16::MAX { (pre.scroll.history_scroll + 15) as u16 } else { u16::MAX };
        &&& effects.len() == 0
        &&& post.scroll == (Scroll {
            history_scroll: s,
            auto_scroll: if s >= pre.scroll.max_scroll { true } else { pre.scroll.auto_scroll },
            ..pre.scroll
        })
        &&& unchanged_except(pre, post, set![Part::Scroll])
    } else {
        effects =~= seq![Effect::ForwardKeyToInput] && unchanged_except(pre, post, Set::empty())
    }
}

/// Whether moving the selection comes to a stop for this key (it does
/// whenever the selection lies within the menu, see `law_menu_walk_stops`).
pub open spec fn menu_walk_stops(app: App, key: KeyInput) -> bool {
    (any_menu(app.menus) && menu_len(app.menus) > 0 && !key.ctrl) ==> {
        &&& key.code == KeyCode::Up ==> menu_up_target(skip_flags(app.menus), menu_len(app.menus), selection(app.menus)) is Some
        &&& key.code == KeyCode::Down ==> menu_down_target(skip_flags(app.menus), menu_len(app.menus), selection(app.menus)) is Some
    }
}

/// The header flags of the model menu.
pub(crate) fn model_header_flags(items: &Vec<ModelMenuItem>) -> (v: Vec<bool>)
    ensures
        v@ == model_flags(items@),
{
    let mut v: Vec<bool> = Vec::new();
    let mut i: usize = 0;
    while i < items.len()
        invariant
            i <= items@.len(),
            v@ == model_flags(items@.take(i as int)),
        decreases items.len() - i,
    {
        let h = match &items[i] {
            ModelMenuItem::Header(_) => true,
            ModelMenuItem::Model(_) => false,
        };
        v.push(h);
        assert(model_flags(items@.take(i + 1)) =~= model_flags(items@.take(i as int)).push(h));
        i = i + 1;
    }
    assert(items@.take(items@.len() as int) =~= items@);
    v
}

/// The header flags of the settings menu.
pub(crate) fn settings_header_flags(items: &Vec<SettingsMenuItem>) -> (v: Vec<bool>)
    ensures
        v@ == settings_flags(items@),
{
    let mut v: Vec<bool> = Vec::new();
    let mut i: usize = 0;
    while i < items.len()
        invariant
            i <= items@.len(),
            v@ == settings_flags(items@.take(i as int)),
        decreases items.len() - i,
    {
        let h = match &items[i] {
            SettingsMenuItem::Header(_) => true,
            SettingsMenuItem::Option { .. } => false,
        };
        v.push(h);
        assert(settings_flags(items@.take(i + 1)) =~= settings_flags(items@.take(i as int)).push(h));
        i = i + 1;
    }
    assert(items@.take(items@.len() as int) =~= items@);
    v
}

impl Menus {
    /// The number of items of the menu that shows (see `menu_len`).
    pub(crate) fn len_shown(&self) -> (n: usize)
        ensures
            n == menu_len(*self),
    {
        if self.show_menu {
            self.filtered_commands.len()
        } else if self.show_provider_menu {
            PROVIDER_COUNT
        } else if self.show_settings_menu {
            self.settings_items.len()
        } else {
            self.filtered_models.len()
        }
    }

    /// The headers that moving the selection skips (see `skip_flags`).
    pub(crate) fn skipped(&self) -> (v: Vec<bool>)
        ensures
            v@ == skip_flags(*self),
    {
        if self.show_model_menu {
            model_header_flags(&self.filtered_models)
        } else if self.show_settings_menu {
            settings_header_flags(&self.settings_items)
        } else {
            let v: Vec<bool> = Vec::new();
            assert(v@ =~= Seq::<bool>::empty());
            v
        }
    }

    /// The current selection, or the first item (see `selection`).
    pub(crate) fn selection_or_first(&self) -> (s: usize)
        ensures
            s == selection(*self),
    {
        match self.selected {
            Some(s) => s,
            None => 0,
        }
    }
}

impl App {
    /// Handles Up without Control (see `up_key_post`).
    pub(crate) fn up_key(&mut self, key: KeyInput) -> (effects: Vec<Effect>)
        requires
            old(self).wf(),
            menu_walk_stops(*old(self), key),
            key.code == KeyCode::Up && !key.ctrl,
        ensures
            up_key_post(*old(self), *final(self), key, effects@),
            final(self).wf(),
    {
        let mut effects: Vec<Effect> = Vec::new();
        if self.menus.show_menu || self.menus.show_provider_menu || self.menus.show_model_menu
            || self.menus.show_settings_menu {
            let len = self.menus.len_shown();
            if len > 0 {
                let flags = self.menus.skipped();
                let t = menu_up(&flags, len, self.menus.selection_or_first());
                self.menus.selected = Some(t);
            }
        } else if (self.input.lines.len() == 1 && self.input.lines[0].as_str().is_empty())
            || self.scroll.history_scroll > 0 || self.chat.is_generating || key.shift {
            self.scroll.history_scroll = self.scroll.history_scroll.saturating_sub(15);
            self.scroll.auto_scroll = false;
        } else {
            effects.push(Effect::ForwardKeyToInput);
        }
        effects
    }

    /// Handles Down without Control (see `down_key_post`).
    pub(crate) fn down_key(&mut self, key: KeyInput) -> (effects: Vec<Effect>)
        requires
            old(self).wf(),
            menu_walk_stops(*old(self), key),
            key.code == KeyCode::Down && !key.ctrl,
        ensures
            down_key_post(*old(self), *final(self), key, effects@),
            final(self).wf(),
    {
        let mut effects: Vec<Effect> = Vec::new();
        if self.menus.show_menu || self.menus.show_provider_menu || self.menus.show_model_menu
            || self.menus.show_settings_menu {
            let len = self.menus.len_shown();
            if len > 0 {
                let flags = self.menus.skipped();
                let t = menu_down(&flags, len, self.menus.selection_or_first());
                self.menus.selected = Some(t);
            }
        } else if (self.input.lines.len() == 1 && self.input.lines[0].as_str().is_empty())
            || self.scroll.history_scroll < self.scroll.max_scroll || self.chat.is_generating || key.shift {
            self.scroll.history_scroll = self.scroll.history_scroll.saturating_add(15);
            if self.scroll.history_scroll >= self.scroll.max_scroll {
                self.scroll.auto_scroll = true;
            }
        } else {
            effects.push(Effect::ForwardKeyToInput);
        }
        effects
    }
}

} // verus!
