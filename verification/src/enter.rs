//! The Enter key: it runs the selected command, opens the key dialog for the
//! selected provider, steps a setting, switches to the selected model, moves
//! the key dialog on, or sends the prompt.

use vstd::prelude::*;
use vstd::string::StringExecFns;
use crate::chat::{Message, Role, lit, concat2};
use crate::catalog::{PROVIDER_COUNT, provider_table, providers};
use crate::keys::Effect;
use crate::state::{App, Part, Screen, ApiKeyInputStage, ModelInfo, ModelMenuItem, SettingsMenuItem, Chat, InputBoxes, Menus, Scroll, KeyDialog, unchanged_except, notice_added, opt_text};
use crate::text::{strings_view, trim, join_lines, trim_string, join_with_newlines, starts_with, chars_of, has_prefix_at};

verus! {

/// The value that follows `v` for the logo animation setting:
/// `always`, `hover`, `click`, then `always` again (and `always` after any
/// other value).
pub open spec fn next_logo_animation(v: Seq<char>) -> Seq<char> {
    if v == "always"@ {
        "hover"@
    } else if v == "hover"@ {
        "click"@
    } else {
        "always"@
    }
}

/// The value that follows `v` for the logo animation theme: `rainbow`,
/// `neon`, `cyberpunk`, `sunset`, `mono`, then `rainbow` again (and
/// `rainbow` after any other value).
pub open spec fn next_logo_color(v: Seq<char>) -> Seq<char> {
    if v == "rainbow"@ {
        "neon"@
    } else if v == "neon"@ {
        "cyberpunk"@
    } else if v == "cyberpunk"@ {
        "sunset"@
    } else if v == "sunset"@ {
        "mono"@
    } else {
        "rainbow"@
    }
}

/// The next value of the logo animation setting (see `next_logo_animation`).
pub fn next_logo_animation_value(v: &String) -> (r: String)
    ensures
        r@ == next_logo_animation(v@),
{
    if *v == lit("always") {
        lit("hover")
    } else if *v == lit("hover") {
        lit("click")
    } else {
        lit("always")
    }
}

/// The next value of the logo animation theme (see `next_logo_color`).
pub fn next_logo_color_value(v: &String) -> (r: String)
    ensures
        r@ == next_logo_color(v@),
{
    if *v == lit("rainbow") {
        lit("neon")
    } else if *v == lit("neon") {
        lit("cyberpunk")
    } else if *v == lit("cyberpunk") {
        lit("sunset")
    } else if *v == lit("sunset") {
        lit("mono")
    } else {
        lit("rainbow")
    }
}

/// The selected item of a menu, where the selection lies within it.
pub open spec fn selected_index(sel: Option<usize>, len: int) -> Option<int> {
    match sel {
        Some(s) => if s < len { Some(s as int) } else { None },
        None => None,
    }
}

/// The model of the selected item of the model menu, where it is a model.
pub open spec fn model_at(items: Seq<ModelMenuItem>, sel: Option<usize>) -> Option<ModelInfo> {
    match selected_index(sel, items.len() as int) {
        Some(i) => match items[i] {
            ModelMenuItem::Model(m) => Some(m),
            ModelMenuItem::Header(_) => None,
        },
        None => None,
    }
}

/// The key and value of the selected item of the settings menu, where it is
/// a setting.
pub open spec fn setting_at(items: Seq<SettingsMenuItem>, sel: Option<usize>) -> Option<(Seq<char>, Seq<char>)> {
    match selected_index(sel, items.len() as int) {
        Some(i) => match items[i] {
            SettingsMenuItem::Option { key, val, .. } => Some((key@, val@)),
            SettingsMenuItem::Header(_) => None,
        },
        None => None,
    }
}

/// Whether the provider needs an account id (and asks for it first).
pub open spec fn is_cloudflare(id: Seq<char>) -> bool {
    id == "cloudflare-workers"@ || id == "cloudflare-gateway"@
}

/// Whether the input ends with a backslash, which asks for a new line.
pub open spec fn ends_with_backslash(app: App) -> bool {
    let l = app.input.lines@.last()@;
    l.len() > 0 && l.last() == '\\'
}

/// Enter in the command menu: the selected command runs, after the menu
/// closes and the input is emptied.
pub open spec fn command_enter_post(pre: App, post: App, effects: Seq<Effect>) -> bool {
    match selected_index(pre.menus.selected, pre.menus.filtered_commands@.len() as int) {
        Some(i) => {
            &&& post.menus == (Menus { show_menu: false, ..pre.menus })
            &&& strings_view(post.input.lines@) == seq![Seq::<char>::empty()]
            &&& post.input == (InputBoxes { lines: post.input.lines, cursor_row: 0, cursor_col: 0, ..pre.input })
            &&& unchanged_except(pre, post, set![Part::Menus, Part::Input])
            &&& effects.len() == 2
            &&& effects[0] is ClearInput
            &&& effects[1] matches Effect::RunCommand(n) && n@ == pre.menus.filtered_commands@[i].name@
        },
        None => effects.len() == 0 && unchanged_except(pre, post, Set::empty()),
    }
}

/// Enter in the provider menu: the menu closes and the key dialog opens for
/// the selected provider, with an empty box, asking for the account id first
/// for the Cloudflare providers and for the key otherwise.
pub open spec fn provider_enter_post(pre: App, post: App, effects: Seq<Effect>) -> bool {
    match selected_index(pre.menus.selected, PROVIDER_COUNT as int) {
        Some(i) => {
            let id = provider_table()[i].0;
            &&& effects =~= seq![Effect::ClearApiKeyInput]
            &&& post.key_dialog == (KeyDialog {
                active: true,
                pending_provider_id: post.key_dialog.pending_provider_id,
                stage: if is_cloudflare(id) {
                    ApiKeyInputStage::CloudflareAccountId
                } else {
                    ApiKeyInputStage::ApiKey
                },
                ..pre.key_dialog
            })
            &&& post.key_dialog.pending_provider_id is Some
            &&& opt_text(post.key_dialog.pending_provider_id) == id
            &&& strings_view(post.input.api_key_lines@) == seq![Seq::<char>::empty()]
            &&& post.input == (InputBoxes { api_key_lines: post.input.api_key_lines, ..pre.input })
            &&& post.menus == (Menus { show_provider_menu: false, ..pre.menus })
            &&& unchanged_except(pre, post, set![Part::KeyDialog, Part::Input, Part::Menus])
        },
        None => effects.len() == 0 && unchanged_except(pre, post, Set::empty()),
    }
}

/// Choosing item `sel` of the settings menu: on the logo animation or its
/// theme, the next value is stored (see `next_logo_animation`,
/// `next_logo_color`); on anything else nothing happens.
pub open spec fn setting_effects(items: Seq<SettingsMenuItem>, sel: Option<usize>, effects: Seq<Effect>) -> bool {
    match setting_at(items, sel) {
        Some((key, val)) => if key == "logo_animation"@ {
            &&& effects.len() == 1
            &&& effects[0] matches Effect::SetLogoAnimation(v) && v@ == next_logo_animation(val)
        } else if key == "logo_animation_color"@ {
            &&& effects.len() == 1
            &&& effects[0] matches Effect::SetLogoAnimationColor(v) && v@ == next_logo_color(val)
        } else {
            effects.len() == 0
        },
        None => effects.len() == 0,
    }
}

/// Enter in the settings menu: the selected item is chosen (see
/// `setting_effects`); the state itself does not change.
pub open spec fn settings_enter_effects(app: App, effects: Seq<Effect>) -> bool {
    setting_effects(app.menus.settings_items@, app.menus.selected, effects)
}

/// Enter in the model menu: a switch to the selected model is asked for; the
/// state itself changes once it is known whether a key exists (see
/// `App::finish_model_switch`).
pub open spec fn model_enter_effects(app: App, effects: Seq<Effect>) -> bool {
    match model_at(app.menus.filtered_models@, app.menus.selected) {
        Some(m) => effects =~= seq![Effect::SwitchModel(m)],
        None => effects.len() == 0,
    }
}

/// The value typed in the key dialog: its lines joined, without surrounding
/// whitespace.
pub open spec fn dialog_value(app: App) -> Seq<char> {
    trim(join_lines(strings_view(app.input.api_key_lines@)))
}

/// The key stored for a Cloudflare provider: account id, gateway id (for the
/// gateway only) and key, joined by colons.
pub open spec fn cloudflare_key(provider: Seq<char>, account: Seq<char>, gateway: Seq<char>, key: Seq<char>) -> Seq<char> {
    if provider == "cloudflare-gateway"@ {
        account + ":"@ + gateway + ":"@ + key
    } else {
        account + ":"@ + key
    }
}

/// The dialog closes without storing anything.
pub open spec fn dialog_closed(pre: App, post: App, effects: Seq<Effect>) -> bool {
    &&& effects.len() == 0
    &&& post.key_dialog == (KeyDialog { active: false, stage: ApiKeyInputStage::Inactive, ..pre.key_dialog })
    &&& unchanged_except(pre, post, set![Part::KeyDialog])
}

/// Enter in the key dialog with the value `v` (see `dialog_value`). An empty
/// value closes the dialog. Otherwise, by stage: a key is stored for the
/// provider with a notice, and the dialog closes; an account id or gateway
/// id is kept and the dialog asks for the next value (the gateway id only
/// for the gateway); the Cloudflare key is stored joined with the ids kept
/// (see `cloudflare_key`), with a notice, and the dialog closes.
pub open spec fn dialog_enter_post(pre: App, post: App, effects: Seq<Effect>) -> bool {
    let v = dialog_value(pre);
    let kd = pre.key_dialog;
    if v.len() == 0 {
        dialog_closed(pre, post, effects)
    } else {
        match kd.stage {
            ApiKeyInputStage::ApiKey => match kd.pending_provider_id {
                Some(p) => {
                    &&& post.key_dialog == (KeyDialog {
                        active: false,
                        stage: ApiKeyInputStage::Inactive,
                        pending_provider_id: None,
                        ..kd
                    })
                    &&& notice_added(pre, post, "API Key saved for "@ + p@)
                    &&& unchanged_except(pre, post, set![Part::KeyDialog, Part::Chat])
                    &&& effects.len() == 1
                    &&& effects[0] matches Effect::SaveApiKey(a, b) && a@ == p@ && b@ == v
                },
                None => dialog_closed(pre, post, effects),
            },
            ApiKeyInputStage::CloudflareAccountId => {
                let gateway = kd.pending_provider_id matches Some(p) && p@ == "cloudflare-gateway"@;
                &&& effects =~= seq![Effect::ClearApiKeyInput]
                &&& post.key_dialog == (KeyDialog {
                    pending_account_id: post.key_dialog.pending_account_id,
                    stage: if gateway {
                        ApiKeyInputStage::CloudflareGatewayId
                    } else {
                        ApiKeyInputStage::CloudflareApiKey
                    },
                    ..kd
                })
                &&& post.key_dialog.pending_account_id is Some
                &&& opt_text(post.key_dialog.pending_account_id) == v
                &&& strings_view(post.input.api_key_lines@) == seq![Seq::<char>::empty()]
                &&& post.input == (InputBoxes { api_key_lines: post.input.api_key_lines, ..pre.input })
                &&& unchanged_except(pre, post, set![Part::KeyDialog, Part::Input])
            },
            ApiKeyInputStage::CloudflareGatewayId => {
                &&& effects =~= seq![Effect::ClearApiKeyInput]
                &&& post.key_dialog == (KeyDialog {
                    pending_gateway_id: post.key_dialog.pending_gateway_id,
                    stage: ApiKeyInputStage::CloudflareApiKey,
                    ..kd
                })
                &&& post.key_dialog.pending_gateway_id is Some
                &&& opt_text(post.key_dialog.pending_gateway_id) == v
                &&& strings_view(post.input.api_key_lines@) == seq![Seq::<char>::empty()]
                &&& post.input == (InputBoxes { api_key_lines: post.input.api_key_lines, ..pre.input })
                &&& unchanged_except(pre, post, set![Part::KeyDialog, Part::Input])
            },
            ApiKeyInputStage::CloudflareApiKey => match kd.pending_provider_id {
                Some(p) => {
                    let gateway = p@ == "cloudflare-gateway"@;
                    let k = cloudflare_key(p@, opt_text(kd.pending_account_id), opt_text(kd.pending_gateway_id), v);
                    &&& post.key_dialog == (KeyDialog {
                        active: false,
                        stage: ApiKeyInputStage::Inactive,
                        pending_provider_id: None,
                        pending_account_id: None,
                        pending_gateway_id: if gateway { None } else { kd.pending_gateway_id },
                    })
                    &&& notice_added(pre, post, "Credentials saved for "@ + p@)
                    &&& unchanged_except(pre, post, set![Part::KeyDialog, Part::Chat])
                    &&& effects.len() == 1
                    &&& effects[0] matches Effect::SaveApiKey(a, b) && a@ == p@ && b@ == k
                },
                None => dialog_closed(pre, post, effects),
            },
            ApiKeyInputStage::Inactive => {
                &&& effects.len() == 0
                &&& post.key_dialog == (KeyDialog { active: false, ..kd })
                &&& unchanged_except(pre, post, set![Part::KeyDialog])
            },
        }
    }
}

/// The text of the input box: its lines joined by newlines.
pub open spec fn input_text(app: App) -> Seq<char> {
    join_lines(strings_view(app.input.lines@))
}

/// Enter outside menus and dialogs, with the input text `t` (see
/// `input_text`). Blank text does nothing. Text that starts with `/` runs as
/// a command and the input is emptied. Other text is sent: it joins the chat
/// as the user's message and the prompts sent, the input empties, the chat
/// screen shows and follows the reply, which is being generated.
pub open spec fn send_post(pre: App, post: App, effects: Seq<Effect>) -> bool {
    let t = input_text(pre);
    if trim(t).len() == 0 {
        effects.len() == 0 && unchanged_except(pre, post, Set::empty())
    } else if starts_with(t, seq!['/']) {
        &&& strings_view(post.input.lines@) == seq![Seq::<char>::empty()]
        &&& post.input == (InputBoxes { lines: post.input.lines, cursor_row: 0, cursor_col: 0, ..pre.input })
        &&& unchanged_except(pre, post, set![Part::Input])
        &&& effects.len() == 2
        &&& effects[1] is ClearInput
        &&& effects[0] matches Effect::RunCommand(c) && c@ == t
    } else {
        &&& post.chat.history@.len() == pre.chat.history@.len() + 1
        &&& post.chat.history@.drop_last() == pre.chat.history@
        &&& post.chat.history@.last() == (Message {
            role: Role::User,
            content: post.chat.history@.last().content,
            thought: None,
            tool_calls: None,
            name: None,
            tool_call_id: None,
            tool_result: None,
        })
        &&& opt_text(post.chat.history@.last().content) == t
        &&& post.chat.history@.last().content is Some
        &&& post.chat == (Chat { history: post.chat.history, is_generating: true, has_task: true, ..pre.chat })
        &&& strings_view(post.input.prompt_history@) == strings_view(pre.input.prompt_history@).push(t)
        &&& strings_view(post.input.lines@) == seq![Seq::<char>::empty()]
        &&& post.input == (InputBoxes {
            lines: post.input.lines,
            cursor_row: 0,
            cursor_col: 0,
            prompt_history: post.input.prompt_history,
            prompt_history_index: None,
            ..pre.input
        })
        &&& post.screen == Screen::Session
        &&& post.scroll == (Scroll { auto_scroll: true, ..pre.scroll })
        &&& unchanged_except(pre, post, set![Part::Chat, Part::Input, Part::Screen, Part::Scroll])
        &&& effects =~= seq![Effect::StartGeneration, Effect::ClearInput]
    }
}

/// Enter without Shift or Alt. Within a burst of events (a paste), or after
/// a backslash that ends the input, it breaks the line (the backslash is
/// deleted first). Otherwise it acts on the first of the command, provider,
/// settings and model menus that shows, else on the key dialog when it is
/// open, else it sends the input (see the `*_post` and `*_effects`
/// predicates of each).
pub open spec fn enter_key_post(pre: App, post: App, is_burst: bool, effects: Seq<Effect>) -> bool {
    if is_burst {
        effects =~= seq![Effect::InsertNewline] && unchanged_except(pre, post, Set::empty())
    } else if ends_with_backslash(pre) {
        &&& effects =~= seq![Effect::DeleteChar, Effect::InsertNewline, Effect::InsertNewline]
        &&& unchanged_except(pre, post, Set::empty())
    } else if pre.menus.show_menu {
        command_enter_post(pre, post, effects)
    } else if pre.menus.show_provider_menu {
        provider_enter_post(pre, post, effects)
    } else if pre.menus.show_settings_menu {
        settings_enter_effects(pre, effects) && unchanged_except(pre, post, Set::empty())
    } else if pre.menus.show_model_menu {
        model_enter_effects(pre, effects) && unchanged_except(pre, post, Set::empty())
    } else if pre.key_dialog.active {
        dialog_enter_post(pre, post, effects)
    } else {
        send_post(pre, post, effects)
    }
}

/// Chooses item `sel` of the settings menu (see `setting_effects`).
pub fn choose_setting(items: &Vec<SettingsMenuItem>, sel: Option<usize>) -> (effects: Vec<Effect>)
    ensures
        setting_effects(items@, sel, effects@),
{
    let mut effects: Vec<Effect> = Vec::new();
    match sel {
        Some(s) => {
            if s < items.len() {
                match &items[s] {
                    SettingsMenuItem::Option { key, val, .. } => {
                        if *key == lit("logo_animation") {
                            effects.push(Effect::SetLogoAnimation(next_logo_animation_value(val)));
                        } else if *key == lit("logo_animation_color") {
                            effects.push(Effect::SetLogoAnimationColor(next_logo_color_value(val)));
                        }
                    },
                    SettingsMenuItem::Header(_) => {},
                }
            }
        },
        None => {},
    }
    effects
}

impl App {
    /// Enter in the command menu (see `command_enter_post`).
    fn command_enter(&mut self) -> (effects: Vec<Effect>)
        requires
            old(self).wf(),
        ensures
            command_enter_post(*old(self), *final(self), effects@),
            final(self).wf(),
    {
        let mut effects: Vec<Effect> = Vec::new();
        match self.menus.selected {
            Some(s) => {
                if s < self.menus.filtered_commands.len() {
                    let name = lit(self.menus.filtered_commands[s].name);
                    self.menus.show_menu = false;
                    self.clear_input();
                    effects.push(Effect::ClearInput);
                    effects.push(Effect::RunCommand(name));
                }
            },
            None => {},
        }
        effects
    }

    /// Enter in the provider menu (see `provider_enter_post`).
    fn provider_enter(&mut self) -> (effects: Vec<Effect>)
        requires
            old(self).wf(),
        ensures
            provider_enter_post(*old(self), *final(self), effects@),
            final(self).wf(),
    {
        let mut effects: Vec<Effect> = Vec::new();
        match self.menus.selected {
            Some(s) => {
                if s < PROVIDER_COUNT {
                    let ps = providers();
                    let id = lit(ps[s].id);
                    let cf = id == lit("cloudflare-workers") || id == lit("cloudflare-gateway");
                    self.key_dialog.pending_provider_id = Some(id);
                    self.key_dialog.active = true;
                    self.clear_api_key_input();
                    effects.push(Effect::ClearApiKeyInput);
                    self.menus.show_provider_menu = false;
                    self.key_dialog.stage = if cf {
                        ApiKeyInputStage::CloudflareAccountId
                    } else {
                        ApiKeyInputStage::ApiKey
                    };
                }
            },
            None => {},
        }
        effects
    }

    /// Enter in the settings menu (see `settings_enter_effects`).
    fn settings_enter(&self) -> (effects: Vec<Effect>)
        ensures
            settings_enter_effects(*self, effects@),
    {
        choose_setting(&self.menus.settings_items, self.menus.selected)
    }

    /// The model of the selected item of the model menu (see `model_at`).
    pub fn selected_model(&self) -> (r: Option<ModelInfo>)
        ensures
            r == model_at(self.menus.filtered_models@, self.menus.selected),
    {
        match self.menus.selected {
            Some(s) => {
                if s < self.menus.filtered_models.len() {
                    match &self.menus.filtered_models[s] {
                        ModelMenuItem::Model(m) => Some(m.duplicate()),
                        ModelMenuItem::Header(_) => None,
                    }
                } else {
                    None
                }
            },
            None => None,
        }
    }

    /// Enter in the model menu (see `model_enter_effects`).
    fn model_enter(&self) -> (effects: Vec<Effect>)
        ensures
            model_enter_effects(*self, effects@),
    {
        let mut effects: Vec<Effect> = Vec::new();
        match self.selected_model() {
            Some(m) => effects.push(Effect::SwitchModel(m)),
            None => {},
        }
        effects
    }
}

impl App {
    /// Closes the key dialog without storing anything (see `dialog_closed`).
    fn close_dialog(&mut self) -> (effects: Vec<Effect>)
        requires
            old(self).wf(),
        ensures
            dialog_closed(*old(self), *final(self), effects@),
            final(self).wf(),
    {
        self.key_dialog.active = false;
        self.key_dialog.stage = ApiKeyInputStage::Inactive;
        Vec::new()
    }

    /// Stores the key `v` typed for the provider of the dialog.
    fn save_dialog_key(&mut self, v: String) -> (effects: Vec<Effect>)
        requires
            old(self).wf(),
            dialog_value(*old(self)) == v@,
            v@.len() > 0,
            old(self).key_dialog.stage == ApiKeyInputStage::ApiKey,
        ensures
            dialog_enter_post(*old(self), *final(self), effects@),
            final(self).wf(),
    {
        match self.key_dialog.pending_provider_id.take() {
            Some(p) => {
                let notice = concat2("API Key saved for ", p.as_str());
                let mut effects: Vec<Effect> = Vec::new();
                effects.push(Effect::SaveApiKey(p, v));
                self.push_system(notice);
                self.key_dialog.active = false;
                self.key_dialog.stage = ApiKeyInputStage::Inactive;
                effects
            },
            None => self.close_dialog(),
        }
    }

    /// Keeps the account id `v` and asks for the next value.
    fn store_account_id(&mut self, v: String) -> (effects: Vec<Effect>)
        requires
            old(self).wf(),
            dialog_value(*old(self)) == v@,
            v@.len() > 0,
            old(self).key_dialog.stage == ApiKeyInputStage::CloudflareAccountId,
        ensures
            dialog_enter_post(*old(self), *final(self), effects@),
            final(self).wf(),
    {
        let gateway = match &self.key_dialog.pending_provider_id {
            Some(p) => *p == lit("cloudflare-gateway"),
            None => false,
        };
        self.key_dialog.pending_account_id = Some(v);
        self.clear_api_key_input();
        self.key_dialog.stage = if gateway {
            ApiKeyInputStage::CloudflareGatewayId
        } else {
            ApiKeyInputStage::CloudflareApiKey
        };
        let mut effects: Vec<Effect> = Vec::new();
        effects.push(Effect::ClearApiKeyInput);
        effects
    }

    /// Keeps the gateway id `v` and asks for the key.
    fn store_gateway_id(&mut self, v: String) -> (effects: Vec<Effect>)
        requires
            old(self).wf(),
            dialog_value(*old(self)) == v@,
            v@.len() > 0,
            old(self).key_dialog.stage == ApiKeyInputStage::CloudflareGatewayId,
        ensures
            dialog_enter_post(*old(self), *final(self), effects@),
            final(self).wf(),
    {
        self.key_dialog.pending_gateway_id = Some(v);
        self.clear_api_key_input();
        self.key_dialog.stage = ApiKeyInputStage::CloudflareApiKey;
        let mut effects: Vec<Effect> = Vec::new();
        effects.push(Effect::ClearApiKeyInput);
        effects
    }

    /// Stores the Cloudflare key `v` joined with the ids kept.
    fn save_credentials(&mut self, v: String) -> (effects: Vec<Effect>)
        requires
            old(self).wf(),
            dialog_value(*old(self)) == v@,
            v@.len() > 0,
            old(self).key_dialog.stage == ApiKeyInputStage::CloudflareApiKey,
        ensures
            dialog_enter_post(*old(self), *final(self), effects@),
            final(self).wf(),
    {
        match self.key_dialog.pending_provider_id.take() {
            Some(p) => {
                let mut k = match self.key_dialog.pending_account_id.take() {
                    Some(a) => a,
                    None => String::new(),
                };
                k.append(":");
                if p == lit("cloudflare-gateway") {
                    let g = match self.key_dialog.pending_gateway_id.take() {
                        Some(g) => g,
                        None => String::new(),
                    };
                    k.append(g.as_str());
                    k.append(":");
                }
                k.append(v.as_str());
                let notice = concat2("Credentials saved for ", p.as_str());
                let mut effects: Vec<Effect> = Vec::new();
                effects.push(Effect::SaveApiKey(p, k));
                self.push_system(notice);
                self.key_dialog.active = false;
                self.key_dialog.stage = ApiKeyInputStage::Inactive;
                effects
            },
            None => self.close_dialog(),
        }
    }

    /// Enter in the key dialog (see `dialog_enter_post`).
    fn dialog_enter(&mut self) -> (effects: Vec<Effect>)
        requires
            old(self).wf(),
        ensures
            dialog_enter_post(*old(self), *final(self), effects@),
            final(self).wf(),
    {
        let joined = join_with_newlines(&self.input.api_key_lines);
        let v = trim_string(joined.as_str());
        if v.as_str().is_empty() {
            return self.close_dialog();
        }
        match self.key_dialog.stage {
            ApiKeyInputStage::ApiKey => self.save_dialog_key(v),
            ApiKeyInputStage::CloudflareAccountId => self.store_account_id(v),
            ApiKeyInputStage::CloudflareGatewayId => self.store_gateway_id(v),
            ApiKeyInputStage::CloudflareApiKey => self.save_credentials(v),
            ApiKeyInputStage::Inactive => {
                self.key_dialog.active = false;
                Vec::new()
            },
        }
    }

    /// Sends the input, or runs it as a command (see `send_post`).
    fn send_input(&mut self) -> (effects: Vec<Effect>)
        requires
            old(self).wf(),
        ensures
            send_post(*old(self), *final(self), effects@),
            final(self).wf(),
    {
        let mut effects: Vec<Effect> = Vec::new();
        let text = join_with_newlines(&self.input.lines);
        let trimmed = trim_string(text.as_str());
        if trimmed.as_str().is_empty() {
            return effects;
        }
        let cs = chars_of(text.as_str());
        let slash = ['/'];
        assert(slash@ =~= seq!['/']);
        assert(cs@.skip(0) =~= cs@);
        if has_prefix_at(cs.as_slice(), 0, &slash) {
            effects.push(Effect::RunCommand(text));
            self.clear_input();
            effects.push(Effect::ClearInput);
        } else {
            let ghost sent = self.input.prompt_history@;
            let ghost h = self.chat.history@;
            self.chat.history.push(Message::user(text.clone()));
            assert(self.chat.history@.drop_last() =~= h);
            self.input.prompt_history.push(text);
            assert(strings_view(self.input.prompt_history@) =~= strings_view(sent).push(
                self.input.prompt_history@.last()@,
            ));
            self.input.prompt_history_index = None;
            self.clear_input();
            self.screen = Screen::Session;
            self.chat.is_generating = true;
            self.chat.has_task = true;
            self.scroll.auto_scroll = true;
            effects.push(Effect::StartGeneration);
            effects.push(Effect::ClearInput);
        }
        effects
    }

    /// Enter without Shift or Alt (see `enter_key_post`).
    pub(crate) fn enter_key(&mut self, is_burst: bool) -> (effects: Vec<Effect>)
        requires
            old(self).wf(),
        ensures
            enter_key_post(*old(self), *final(self), is_burst, effects@),
            final(self).wf(),
    {
        let mut effects: Vec<Effect> = Vec::new();
        if is_burst {
            effects.push(Effect::InsertNewline);
            return effects;
        }
        let n = self.input.lines.len();
        let last = chars_of(self.input.lines[n - 1].as_str());
        if last.len() > 0 && last[last.len() - 1] == '\\' {
            effects.push(Effect::DeleteChar);
            effects.push(Effect::InsertNewline);
            effects.push(Effect::InsertNewline);
            return effects;
        }
        if self.menus.show_menu {
            self.command_enter()
        } else if self.menus.show_provider_menu {
            self.provider_enter()
        } else if self.menus.show_settings_menu {
            self.settings_enter()
        } else if self.menus.show_model_menu {
            self.model_enter()
        } else if self.key_dialog.active {
            self.dialog_enter()
        } else {
            self.send_input()
        }
    }
}

} // verus!
