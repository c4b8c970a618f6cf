//! The state of the interface and the steps that do not depend on an event:
//! creation, the settings menu and the filtering of slash commands.

use vstd::prelude::*;
use vstd::string::StringExecFns;
use crate::catalog::{Command, commands, command_table};
use crate::chat::{Message, Role, concat2};
use crate::style::{Line, lines_view};
use crate::text::{lowercase, starts_with, to_lowercase, chars_of, has_prefix_at, strings_view, lines_of, split_lines};
use crate::textbox::{TextBox, CursorStep, area_ok, area_lines, area_cursor, cursor_at, new_area, move_area_cursor, delete_area_head, cursor_of, lines_of_area};

verus! {

/// The screen that is shown.
#[derive(Clone, Copy, Debug, PartialEq, Eq, Structural)]
pub enum Screen {
    Welcome,
    Session,
}

/// Which value the key dialog asks for.
#[derive(Clone, Copy, Debug, PartialEq, Eq, Structural)]
pub enum ApiKeyInputStage {
    Inactive,
    ApiKey,
    CloudflareAccountId,
    CloudflareGatewayId,
    CloudflareApiKey,
}

/// An item of the settings menu: a section header, or a setting with its
/// shown name, its value and its configuration key.
#[derive(Clone, Debug)]
pub enum SettingsMenuItem {
    Header(String),
    Option { name: String, val: String, key: String },
}

/// A model that can be chosen: its name and the id of its provider.
#[derive(Clone, Debug)]
pub struct ModelInfo {
    pub name: String,
    pub provider_id: String,
}

impl ModelInfo {
    /// A copy of the model.
    pub fn duplicate(&self) -> (m: ModelInfo)
        ensures
            m == *self,
    {
        ModelInfo { name: self.name.clone(), provider_id: self.provider_id.clone() }
    }
}

/// An item of the model menu: a section header, or a model.
#[derive(Clone, Debug)]
pub enum ModelMenuItem {
    Header(String),
    Model(ModelInfo),
}

/// The chat and what produces it.
#[derive(Clone, Debug)]
pub struct Chat {
    pub history: Vec<Message>,
    pub current_model: String,
    pub current_provider_id: String,
    pub provider_name: String,
    pub is_generating: bool,
    pub active_tool: Option<String>,
    pub has_task: bool,
    pub is_fetching_models: bool,
}

/// The text boxes, as their widgets show them, and the prompts sent before.
/// The input's cursor is at `cursor_row`, `cursor_col` (counted in
/// characters). `prompt_history_index` is the position of the prompt shown
/// while the user browses them.
#[derive(Clone, Debug)]
pub struct InputBoxes {
    pub lines: Vec<String>,
    pub cursor_row: usize,
    pub cursor_col: usize,
    pub api_key_lines: Vec<String>,
    pub prompt_history: Vec<String>,
    pub prompt_history_index: Option<usize>,
}

/// The menus: which one shows, its selection and its items.
#[derive(Clone, Debug)]
pub struct Menus {
    pub show_menu: bool,
    pub show_provider_menu: bool,
    pub show_model_menu: bool,
    pub show_settings_menu: bool,
    pub selected: Option<usize>,
    pub offset: usize,
    pub filtered_commands: Vec<Command>,
    pub filtered_models: Vec<ModelMenuItem>,
    pub all_available_models: Vec<ModelInfo>,
    pub settings_items: Vec<SettingsMenuItem>,
}

/// The scrolling of the chat.
#[derive(Clone, Copy, Debug, PartialEq, Eq, Structural)]
pub struct Scroll {
    pub history_scroll: u16,
    pub max_scroll: u16,
    pub auto_scroll: bool,
}

/// The dialog that asks for a provider's key.
#[derive(Clone, Debug)]
pub struct KeyDialog {
    pub active: bool,
    pub pending_provider_id: Option<String>,
    pub stage: ApiKeyInputStage,
    pub pending_account_id: Option<String>,
    pub pending_gateway_id: Option<String>,
}

/// The questions that wait for an answer: clearing the chat, leaving, a
/// command that asks to run (its message and target), and the dialog on one
/// of the user's messages.
#[derive(Clone, Debug)]
pub struct Prompts {
    pub pending_clear: bool,
    pub pending_exit: bool,
    pub command_confirmation: Option<(String, String)>,
    pub inputting_command_feedback: bool,
    pub user_msg_modal: Option<usize>,
    pub user_msg_modal_selected: usize,
}

/// The mouse: its position, and the times (in milliseconds) and places of the
/// last click, of the press that is held, and of the last fold or unfold.
#[derive(Clone, Copy, Debug)]
pub struct Pointer {
    pub row: Option<u16>,
    pub col: Option<u16>,
    pub moved: bool,
    pub events_count: u64,
    pub last_click_up: Option<(u64, u16, u16)>,
    pub mouse_down_start: Option<(u64, u16, u16)>,
    pub last_toggle_time: Option<u64>,
}

/// How thoughts are shown: folded, unfolded for a held press, and whether
/// the last frame drew them hovered.
#[derive(Clone, Copy, Debug, PartialEq, Eq, Structural)]
pub struct Thinking {
    pub collapse: bool,
    pub temp_expand: bool,
    pub hover_rendered: bool,
}

/// The animation clock: ticks so far and frames of logo animation left.
#[derive(Clone, Copy, Debug, PartialEq, Eq, Structural)]
pub struct Ticker {
    pub tick_count: u64,
    pub logo_anim_frames: u16,
}

/// The rendered chat of the last frame and what it was rendered for.
#[derive(Clone, Debug)]
pub struct RenderCache {
    pub history_len: usize,
    pub last_msg_len: usize,
    pub width: u16,
    pub is_collapsed: bool,
    pub thinking_hovered: bool,
    pub total_height: usize,
    pub text: Option<Vec<Line>>,
    pub hovered_msg_idx: Option<usize>,
}

/// The state of the interface. The input box, the key dialog's box and the
/// model search box are edited by their widgets; `input` holds what the
/// first two show.
#[derive(Clone, Debug)]
pub struct App {
    pub screen: Screen,
    pub chat: Chat,
    pub input: InputBoxes,
    pub menus: Menus,
    pub scroll: Scroll,
    pub key_dialog: KeyDialog,
    pub prompts: Prompts,
    pub pointer: Pointer,
    pub thinking: Thinking,
    pub ticker: Ticker,
    pub cache: RenderCache,
    pub session_id: String,
}

/// The parts of `App`, to name those that a step changes.
#[derive(Clone, Copy, Debug, PartialEq, Eq, Structural)]
pub enum Part {
    Screen,
    Chat,
    Input,
    Menus,
    Scroll,
    KeyDialog,
    Prompts,
    Pointer,
    Thinking,
    Ticker,
    Cache,
    SessionId,
}

/// Whether `post` agrees with `pre` on every part outside `changed`.
pub open spec fn unchanged_except(pre: App, post: App, changed: Set<Part>) -> bool {
    &&& (changed.contains(Part::Screen) || post.screen == pre.screen)
    &&& (changed.contains(Part::Chat) || post.chat == pre.chat)
    &&& (changed.contains(Part::Input) || post.input == pre.input)
    &&& (changed.contains(Part::Menus) || post.menus == pre.menus)
    &&& (changed.contains(Part::Scroll) || post.scroll == pre.scroll)
    &&& (changed.contains(Part::KeyDialog) || post.key_dialog == pre.key_dialog)
    &&& (changed.contains(Part::Prompts) || post.prompts == pre.prompts)
    &&& (changed.contains(Part::Pointer) || post.pointer == pre.pointer)
    &&& (changed.contains(Part::Thinking) || post.thinking == pre.thinking)
    &&& (changed.contains(Part::Ticker) || post.ticker == pre.ticker)
    &&& (changed.contains(Part::Cache) || post.cache == pre.cache)
    &&& (changed.contains(Part::SessionId) || post.session_id == pre.session_id)
}

/// Whether `c` is an ASCII digit.
pub open spec fn is_digit(c: char) -> bool {
    '0' <= c && c <= '9'
}

/// Whether every character of `s` is an ASCII digit.
pub open spec fn all_digits(s: Seq<char>) -> bool {
    forall|i: int| 0 <= i < s.len() ==> is_digit(#[trigger] s[i])
}

/// Whether `s` is written as `chrono` writes a time with `%Y%m%d_%H%M%S`: the
/// year (four digits for the years 0 to 9999, else a sign and at least four
/// digits), then month and day, an underscore, and hour, minute and second,
/// two digits each.
pub open spec fn stamp_shaped(s: Seq<char>) -> bool {
    let n = s.len() as int;
    let year = s.take(n - 11);
    &&& n >= 15
    &&& all_digits(s.subrange(n - 11, n - 7))
    &&& s[n - 7] == '_'
    &&& all_digits(s.skip(n - 6))
    &&& (year.len() == 4 && all_digits(year)) || (year.len() >= 5 && (year[0] == '+' || year[0] == '-')
        && all_digits(year.skip(1)))
}

/// `chrono::Utc::now()` formatted with `%Y%m%d_%H%M%S`. Which time it is
/// depends on the clock, so the contract states only the shape that the
/// format gives every time (see `stamp_shaped`).
#[verifier::external_body]
pub(crate) fn utc_session_stamp() -> (s: String)
    ensures
        stamp_shaped(s@),
{
    chrono::Utc::now().format("%Y%m%d_%H%M%S").to_string()
}

/// The lines of an empty text box (`TextArea::default`): one empty line.
fn one_empty_line() -> (v: Vec<String>)
    ensures
        strings_view(v@) == seq![Seq::<char>::empty()],
        v@.len() == 1,
{
    let v = lines_of_area(new_area(Vec::new()));
    assert(v@.len() == strings_view(v@).len());
    v
}

impl App {
    /// Whether the state is well formed: the boxes hold at least one line,
    /// the input cursor is on one of them, within it or at its end, the
    /// prompt history position (when browsing) is within the prompt history,
    /// and the chat kept from the last frame is kept with its height.
    pub open spec fn wf(&self) -> bool {
        &&& self.input.lines@.len() >= 1
        &&& self.input.cursor_row < self.input.lines@.len()
        &&& self.input.cursor_col <= self.input.lines@[self.input.cursor_row as int]@.len()
        &&& self.input.api_key_lines@.len() >= 1
        &&& (self.input.prompt_history_index matches Some(i) ==> i < self.input.prompt_history@.len())
        &&& (self.cache.text matches Some(t) ==> self.cache.total_height == crate::render::chat_height(
            lines_view(t@),
            self.cache.width,
        ))
    }

    /// Whether `app` is the state of a fresh interface for `provider_name`:
    /// the welcome screen, an empty chat and input, model `gpt-4o`, no menu,
    /// dialog or pending question, scrolling that follows the chat, and the
    /// given session id.
    pub open spec fn is_fresh(app: App, provider_name: Seq<char>, session_id: Seq<char>) -> bool {
        &&& app.wf()
        &&& app.screen == Screen::Welcome
        &&& app.chat.history@.len() == 0
        &&& app.chat.current_model@ == "gpt-4o"@
        &&& app.chat.current_provider_id@ == provider_name
        &&& app.chat.provider_name@ == provider_name
        &&& !app.chat.is_generating && app.chat.active_tool is None && !app.chat.has_task
        &&& !app.chat.is_fetching_models
        &&& strings_view(app.input.lines@) == seq![Seq::<char>::empty()]
        &&& app.input.cursor_row == 0 && app.input.cursor_col == 0
        &&& strings_view(app.input.api_key_lines@) == seq![Seq::<char>::empty()]
        &&& app.input.prompt_history@.len() == 0 && app.input.prompt_history_index is None
        &&& !app.menus.show_menu && !app.menus.show_provider_menu && !app.menus.show_model_menu
        &&& !app.menus.show_settings_menu
        &&& app.menus.selected is None && app.menus.offset == 0
        &&& app.menus.filtered_commands@.len() == 0 && app.menus.filtered_models@.len() == 0
        &&& app.menus.all_available_models@.len() == 0 && app.menus.settings_items@.len() == 0
        &&& app.scroll == (Scroll { history_scroll: 0, max_scroll: 0, auto_scroll: true })
        &&& !app.key_dialog.active && app.key_dialog.pending_provider_id is None
        &&& app.key_dialog.stage == ApiKeyInputStage::Inactive
        &&& app.key_dialog.pending_account_id is None && app.key_dialog.pending_gateway_id is None
        &&& !app.prompts.pending_clear && !app.prompts.pending_exit
        &&& app.prompts.command_confirmation is None && !app.prompts.inputting_command_feedback
        &&& app.prompts.user_msg_modal is None && app.prompts.user_msg_modal_selected == 0
        &&& app.pointer == (Pointer {
            row: None,
            col: None,
            moved: false,
            events_count: 0,
            last_click_up: None,
            mouse_down_start: None,
            last_toggle_time: None,
        })
        &&& app.thinking == (Thinking { collapse: false, temp_expand: false, hover_rendered: false })
        &&& app.ticker == (Ticker { tick_count: 0, logo_anim_frames: 0 })
        &&& app.cache.history_len == 0 && app.cache.last_msg_len == 0 && app.cache.width == 0
        &&& !app.cache.is_collapsed && !app.cache.thinking_hovered && app.cache.total_height == 0
        &&& app.cache.text is None && app.cache.hovered_msg_idx is None
        &&& app.session_id@ == session_id
    }

    /// A fresh interface for `provider_name` whose session is stamped
    /// `stamp` (see `is_fresh`).
    pub fn with_session_stamp(provider_name: String, stamp: &str) -> (app: App)
        ensures
            App::is_fresh(app, provider_name@, "session_"@ + stamp@),
    {
        let current_provider_id = provider_name.clone();
        let app = App {
            screen: Screen::Welcome,
            chat: Chat {
                history: Vec::new(),
                current_model: String::from_str("gpt-4o"),
                current_provider_id,
                provider_name,
                is_generating: false,
                active_tool: None,
                has_task: false,
                is_fetching_models: false,
            },
            input: InputBoxes {
                lines: one_empty_line(),
                cursor_row: 0,
                cursor_col: 0,
                api_key_lines: one_empty_line(),
                prompt_history: Vec::new(),
                prompt_history_index: None,
            },
            menus: Menus {
                show_menu: false,
                show_provider_menu: false,
                show_model_menu: false,
                show_settings_menu: false,
                selected: None,
                offset: 0,
                filtered_commands: Vec::new(),
                filtered_models: Vec::new(),
                all_available_models: Vec::new(),
                settings_items: Vec::new(),
            },
            scroll: Scroll { history_scroll: 0, max_scroll: 0, auto_scroll: true },
            key_dialog: KeyDialog {
                active: false,
                pending_provider_id: None,
                stage: ApiKeyInputStage::Inactive,
                pending_account_id: None,
                pending_gateway_id: None,
            },
            prompts: Prompts {
                pending_clear: false,
                pending_exit: false,
                command_confirmation: None,
                inputting_command_feedback: false,
                user_msg_modal: None,
                user_msg_modal_selected: 0,
            },
            pointer: Pointer {
                row: None,
                col: None,
                moved: false,
                events_count: 0,
                last_click_up: None,
                mouse_down_start: None,
                last_toggle_time: None,
            },
            thinking: Thinking { collapse: false, temp_expand: false, hover_rendered: false },
            ticker: Ticker { tick_count: 0, logo_anim_frames: 0 },
            cache: RenderCache {
                history_len: 0,
                last_msg_len: 0,
                width: 0,
                is_collapsed: false,
                thinking_hovered: false,
                total_height: 0,
                text: None,
                hovered_msg_idx: None,
            },
            session_id: concat2("session_", stamp),
        };
        assert(app.wf());
        assert(app.chat.current_model@ == "gpt-4o"@);
        assert(app.chat.provider_name@ == provider_name@);
        assert(app.chat.current_provider_id@ == provider_name@);
        app
    }

    /// A fresh interface for `provider_name` (see `is_fresh`), its session
    /// stamped with the current time as `chrono` writes it (see `stamp_shaped`).
    pub fn new(provider_name: String) -> (app: App)
        ensures
            exists|stamp: Seq<char>| stamp_shaped(stamp) && App::is_fresh(app, provider_name@, "session_"@ + stamp),
    {
        let stamp = utc_session_stamp();
        let app = App::with_session_stamp(provider_name, stamp.as_str());
        assert(stamp_shaped(stamp@) && App::is_fresh(app, provider_name@, "session_"@ + stamp@));
        app
    }
}

/// Whether the settings items are those shown for the given values of the
/// two appearance settings: a header and one item for each.
pub open spec fn settings_for(items: Seq<SettingsMenuItem>, logo_animation: Seq<char>, logo_color: Seq<char>) -> bool {
    &&& items.len() == 3
    &&& items[0] matches SettingsMenuItem::Header(h) && h@ == "Appearance"@
    &&& items[1] matches SettingsMenuItem::Option { name, val, key }
        && name@ == "Logo Animation"@ && val@ == logo_animation && key@ == "logo_animation"@
    &&& items[2] matches SettingsMenuItem::Option { name, val, key }
        && name@ == "Animation Theme"@ && val@ == logo_color && key@ == "logo_animation_color"@
}

/// The commands whose lowercased name starts with `prefix`, in catalogue
/// order.
#[verifier::opaque]
pub open spec fn commands_matching(prefix: Seq<char>) -> Seq<(Seq<char>, Seq<char>)> {
    command_table().filter(|c: (Seq<char>, Seq<char>)| starts_with(lowercase(c.0), prefix))
}

/// The name and description of each command of a vector.
pub open spec fn commands_view(v: Seq<Command>) -> Seq<(Seq<char>, Seq<char>)> {
    v.map_values(|c: Command| (c.name@, c.description@))
}

/// What the command menu becomes for the input whose first line is `line`
/// when the lowercased line starts with `/`: the menu lists the commands
/// whose lowercased name starts with it, shows when there is one, and then
/// selects the first.
pub open spec fn filtered_commands_post(pre: App, post: App, line: Seq<char>) -> bool {
    let m = commands_matching(lowercase(line));
    &&& commands_view(post.menus.filtered_commands@) == m
    &&& post.menus == (Menus {
        show_menu: m.len() > 0,
        selected: if m.len() > 0 { Some(0usize) } else { pre.menus.selected },
        filtered_commands: post.menus.filtered_commands,
        ..pre.menus
    })
    &&& unchanged_except(pre, post, set![Part::Menus])
}

/// What the command menu becomes for the input whose first line is `line`:
/// see `filtered_commands_post` when the lowercased line starts with `/`;
/// otherwise the menu hides.
pub open spec fn command_menu_post(pre: App, post: App, line: Seq<char>) -> bool {
    if is_command_prefix(line) {
        filtered_commands_post(pre, post, line)
    } else {
        &&& post.menus == (Menus { show_menu: false, ..pre.menus })
        &&& unchanged_except(pre, post, set![Part::Menus])
    }
}

/// Whether the lowercased `line` starts with `/`.
pub open spec fn is_command_prefix(line: Seq<char>) -> bool {
    starts_with(lowercase(line), seq!['/'])
}

/// The commands whose lowercased name starts with `prefix` (see
/// `commands_matching`).
fn commands_with_prefix(cs: &Vec<char>) -> (found: Vec<Command>)
    ensures
        commands_view(found@) == commands_matching(cs@),
{
    reveal(commands_matching);
    let all = commands();
    let mut found: Vec<Command> = Vec::new();
    let mut i: usize = 0;
    let ghost p = |c: (Seq<char>, Seq<char>)| starts_with(lowercase(c.0), cs@);
    assert(command_table().take(0) =~= Seq::<(Seq<char>, Seq<char>)>::empty());
    assert(commands_view(found@) =~= Seq::<(Seq<char>, Seq<char>)>::empty());
    while i < all.len()
        invariant
            i <= all@.len(),
            all@.len() == command_table().len(),
            forall|j: int| 0 <= j < all@.len() ==> (#[trigger] all@[j]).name@ == command_table()[j].0
                && all@[j].description@ == command_table()[j].1,
            p == (|c: (Seq<char>, Seq<char>)| starts_with(lowercase(c.0), cs@)),
            commands_view(found@) == command_table().take(i as int).filter(p),
        decreases all.len() - i,
    {
        let name_low = to_lowercase(all[i].name);
        let ncs = chars_of(name_low.as_str());
        let keep = has_prefix_at(ncs.as_slice(), 0, cs.as_slice());
        let ghost before = found@;
        proof {
            assert(ncs@.skip(0) =~= ncs@);
            let t = command_table();
            assert(t.take(i + 1) =~= t.take(i as int).push(t[i as int]));
            t.take(i as int).lemma_filter_push(t[i as int], p);
            assert(all@[i as int].name@ == t[i as int].0);
            assert(p(t[i as int]) == keep);
        }
        if keep {
            found.push(all[i]);
            assert(commands_view(found@) =~= commands_view(before).push((all@[i as int].name@, all@[i as int].description@)));
        }
        i = i + 1;
    }
    assert(command_table().take(all@.len() as int) =~= command_table());
    found
}

impl App {
    /// Fills the settings menu from the current values of the two appearance
    /// settings (see `settings_for`); nothing else changes.
    pub fn populate_settings(&mut self, logo_animation: String, logo_animation_color: String)
        ensures
            settings_for(final(self).menus.settings_items@, logo_animation@, logo_animation_color@),
            final(self).menus == (Menus { settings_items: final(self).menus.settings_items, ..old(self).menus }),
            unchanged_except(*old(self), *final(self), set![Part::Menus]),
    {
        let mut items: Vec<SettingsMenuItem> = Vec::new();
        items.push(SettingsMenuItem::Header(String::from_str("Appearance")));
        items.push(SettingsMenuItem::Option {
            name: String::from_str("Logo Animation"),
            val: logo_animation,
            key: String::from_str("logo_animation"),
        });
        items.push(SettingsMenuItem::Option {
            name: String::from_str("Animation Theme"),
            val: logo_animation_color,
            key: String::from_str("logo_animation_color"),
        });
        self.menus.settings_items = items;
    }

    /// Updates the command menu from the first line of the input (see
    /// `command_menu_post`).
    pub fn update_filtered_commands(&mut self)
        requires
            old(self).wf(),
        ensures
            command_menu_post(*old(self), *final(self), old(self).input.lines@[0]@),
            final(self).wf(),
    {
        match matching_commands(&self.input.lines[0]) {
            Some(found) => {
                let show = found.len() > 0;
                let sel = if show { Some(0) } else { self.menus.selected };
                self.menus.show_menu = show;
                self.menus.selected = sel;
                self.menus.filtered_commands = found;
            },
            None => {
                self.menus.show_menu = false;
            },
        }
    }
}

/// The commands that the input line `line` selects: `None` when the
/// lowercased line does not start with `/`, else those whose lowercased name
/// starts with it.
fn matching_commands(line: &String) -> (r: Option<Vec<Command>>)
    ensures
        r is Some <==> is_command_prefix(line@),
        r matches Some(v) ==> commands_view(v@) == commands_matching(lowercase(line@)),
{
    let low = to_lowercase(line.as_str());
    let cs = chars_of(low.as_str());
    let slash = ['/'];
    assert(slash@ =~= seq!['/']);
    assert(cs@.skip(0) =~= cs@);
    if has_prefix_at(cs.as_slice(), 0, &slash) {
        Some(commands_with_prefix(&cs))
    } else {
        None
    }
}

/// Whether `m` is a system notice that says `text`.
pub open spec fn is_system_message(m: Message, text: Seq<char>) -> bool {
    &&& m.role == Role::System
    &&& m.content matches Some(c) && c@ == text
    &&& m.thought is None && m.tool_calls is None && m.name is None
    &&& m.tool_call_id is None && m.tool_result is None
}

/// Whether `post`'s chat is `pre`'s with a system notice that says `text`
/// added at its end, all else of the chat unchanged.
pub open spec fn notice_added(pre: App, post: App, text: Seq<char>) -> bool {
    &&& post.chat.history@.len() == pre.chat.history@.len() + 1
    &&& post.chat.history@.drop_last() == pre.chat.history@
    &&& is_system_message(post.chat.history@.last(), text)
    &&& post.chat == (Chat { history: post.chat.history, ..pre.chat })
}

/// The text of an optional string (empty when there is none).
pub open spec fn opt_text(o: Option<String>) -> Seq<char> {
    match o {
        Some(s) => s@,
        None => seq![],
    }
}

/// The lines `ls` written one after another, without line breaks.
pub open spec fn joined(ls: Seq<Seq<char>>) -> Seq<char>
    decreases ls.len(),
{
    if ls.len() == 0 {
        seq![]
    } else {
        joined(ls.drop_last()) + ls.last()
    }
}

/// The lines of an input box once everything before its cursor, at `row`,
/// `col`, is deleted line by line from the cursor back to the first line
/// (`TextArea::delete_line_by_head`, then moving to the head of the line and
/// deleting again until the cursor is at the start): the cursor's line loses
/// what lies before the cursor, and each break before it is removed, so the
/// lines before it are joined to it. The lines after the cursor's stay.
pub open spec fn after_head_deletion(ls: Seq<Seq<char>>, row: int, col: int) -> Seq<Seq<char>> {
    seq![joined(ls.take(row)) + ls[row].skip(col)] + ls.skip(row + 1)
}

/// The lines of an input box at a step of deleting what lies before its
/// cursor, at `row`, `col`, line by line back to the start (see
/// `after_head_deletion`), once the cursor has come back to row `r`: the lines
/// before `r` stay, line `r` holds the lines from `r` on up to the cursor's
/// joined, and the lines after the cursor's stay.
pub open spec fn head_deleted_from(ls: Seq<Seq<char>>, row: int, col: int, r: int) -> Seq<Seq<char>> {
    ls.take(r) + seq![joined(ls.subrange(r, row)) + ls[row].skip(col)] + ls.skip(row + 1)
}

/// Joining a line to the front of lines puts it before their joined text.
pub proof fn lemma_joined_front(a: Seq<char>, ls: Seq<Seq<char>>)
    ensures
        joined(seq![a] + ls) == a + joined(ls),
    decreases ls.len(),
{
    if ls.len() == 0 {
        let e = Seq::<Seq<char>>::empty();
        assert(seq![a] + ls =~= seq![a]);
        assert(seq![a].drop_last() =~= e);
        assert(joined(e) == Seq::<char>::empty());
        assert(joined(seq![a]) == joined(e) + a);
        assert(Seq::<char>::empty() + a =~= a);
        assert(a + joined(ls) =~= a);
    } else {
        lemma_joined_front(a, ls.drop_last());
        assert((seq![a] + ls).drop_last() =~= seq![a] + ls.drop_last());
        assert(joined(seq![a] + ls) =~= a + joined(ls));
    }
}

/// A text box that holds `lines`, its cursor at `row`, `col`.
fn load_box(lines: Vec<String>, row: usize, col: usize) -> (t: TextBox)
    requires
        row < lines@.len(),
        col <= lines@[row as int]@.len(),
    ensures
        area_ok(t),
        area_lines(t) == strings_view(lines@),
        cursor_at(t) == (row as int, col as int),
{
    let ghost ls = strings_view(lines@);
    assert(ls[row as int] == lines@[row as int]@);
    let mut t = new_area(lines);
    let mut i: usize = 0;
    while i < row
        invariant
            area_ok(t),
            area_lines(t) == ls,
            cursor_at(t) == (i as int, 0int),
            i <= row,
            row < ls.len(),
            col <= ls[row as int].len(),
        decreases row - i,
    {
        move_area_cursor(&mut t, CursorStep::Down);
        i = i + 1;
    }
    let mut j: usize = 0;
    while j < col
        invariant
            area_ok(t),
            area_lines(t) == ls,
            cursor_at(t) == (row as int, j as int),
            j <= col,
            row < ls.len(),
            col <= ls[row as int].len(),
        decreases col - j,
    {
        move_area_cursor(&mut t, CursorStep::Forward);
        j = j + 1;
    }
    t
}

/// The lines that an input box shows after it is given `text`: the lines of
/// the text, or one empty line when the text has none.
pub open spec fn box_lines(text: Seq<char>) -> Seq<Seq<char>> {
    if lines_of(text).len() == 0 {
        seq![Seq::<char>::empty()]
    } else {
        lines_of(text)
    }
}

impl App {
    /// Adds a system notice that says `text` to the chat.
    pub fn push_system(&mut self, text: String)
        ensures
            notice_added(*old(self), *final(self), text@),
            unchanged_except(*old(self), *final(self), set![Part::Chat]),
    {
        let ghost h = self.chat.history@;
        self.chat.history.push(Message::system(text));
        assert(self.chat.history@.drop_last() =~= h);
    }

    /// Puts `text` in the input box, as a text box made from the lines of the
    /// text with its cursor moved to the end of the line (`CursorMove::End`):
    /// the cursor ends at the end of the first line.
    pub fn set_input_text(&mut self, text: &String)
        ensures
            strings_view(final(self).input.lines@) == box_lines(text@),
            final(self).input.lines@.len() >= 1,
            final(self).input.cursor_col == box_lines(text@)[0].len(),
            final(self).input == (InputBoxes {
                lines: final(self).input.lines,
                cursor_row: 0,
                cursor_col: final(self).input.cursor_col,
                ..old(self).input
            }),
            unchanged_except(*old(self), *final(self), set![Part::Input]),
    {
        let mut t = new_area(split_lines(text.as_str()));
        move_area_cursor(&mut t, CursorStep::End);
        let (row, col) = cursor_of(&t);
        let lines = lines_of_area(t);
        assert(lines@.len() == strings_view(lines@).len());
        self.input.lines = lines;
        self.input.cursor_row = row;
        self.input.cursor_col = col;
    }

    /// Empties the input box.
    pub fn clear_input(&mut self)
        ensures
            strings_view(final(self).input.lines@) == seq![Seq::<char>::empty()],
            final(self).input.lines@.len() == 1,
            final(self).input == (InputBoxes {
                lines: final(self).input.lines,
                cursor_row: 0,
                cursor_col: 0,
                ..old(self).input
            }),
            unchanged_except(*old(self), *final(self), set![Part::Input]),
    {
        self.input.lines = one_empty_line();
        self.input.cursor_row = 0;
        self.input.cursor_col = 0;
    }

    /// Deletes everything before the input's cursor back to the start of the
    /// box in a text box: `delete_line_by_head`, then, until the cursor is at
    /// the start, a move to the head of its line and another deletion (see
    /// `after_head_deletion`); the cursor ends at the start.
    pub fn delete_to_input_start(&mut self)
        requires
            old(self).wf(),
        ensures
            strings_view(final(self).input.lines@) == after_head_deletion(
                strings_view(old(self).input.lines@),
                old(self).input.cursor_row as int,
                old(self).input.cursor_col as int,
            ),
            final(self).input == (InputBoxes {
                lines: final(self).input.lines,
                cursor_row: 0,
                cursor_col: 0,
                ..old(self).input
            }),
            unchanged_except(*old(self), *final(self), set![Part::Input]),
            final(self).wf(),
    {
        let row = self.input.cursor_row;
        let col = self.input.cursor_col;
        let mut lines: Vec<String> = Vec::new();
        std::mem::swap(&mut lines, &mut self.input.lines);
        let ghost ls = strings_view(lines@);
        let mut t = load_box(lines, row, col);
        delete_area_head(&mut t);
        proof {
            if col == 0 && row > 0 {
                lemma_joined_front(ls[row - 1], seq![]);
                assert(ls.subrange(row - 1, row as int) =~= seq![ls[row - 1]]);
            }
            assert(ls.subrange(row as int, row as int) =~= Seq::<Seq<char>>::empty());
            assert(ls[row as int].skip(0) =~= ls[row as int]);
            assert(area_lines(t) =~= head_deleted_from(ls, row as int, col as int, area_cursor(t).0 as int));
        }
        let mut cur = cursor_of(&t);
        while cur.0 != 0 || cur.1 != 0
            invariant
                area_ok(t),
                cur == area_cursor(t),
                row < ls.len(),
                col <= ls[row as int].len(),
                cur.0 <= row,
                area_lines(t) == head_deleted_from(ls, row as int, col as int, cur.0 as int),
            decreases (if cur.1 > 0 { 2 * cur.0 + 1 } else { 2 * cur.0 }),
        {
            let ghost r = cur.0 as int;
            let ghost tail = ls[row as int].skip(col as int);
            move_area_cursor(&mut t, CursorStep::Head);
            let ghost l = area_lines(t);
            delete_area_head(&mut t);
            proof {
                if r > 0 {
                    assert(l.take(r - 1) =~= ls.take(r - 1));
                    assert(l[r - 1] == ls[r - 1]);
                    assert(l[r] == joined(ls.subrange(r, row as int)) + tail);
                    assert(l.skip(r + 1) =~= ls.skip(row + 1));
                    assert(ls[r - 1] + (joined(ls.subrange(r, row as int)) + tail) =~= (ls[r - 1] + joined(
                        ls.subrange(r, row as int),
                    )) + tail);
                    lemma_joined_front(ls[r - 1], ls.subrange(r, row as int));
                    assert(ls.subrange(r - 1, row as int) =~= seq![ls[r - 1]] + ls.subrange(r, row as int));
                    assert(area_lines(t) =~= head_deleted_from(ls, row as int, col as int, r - 1));
                }
            }
            cur = cursor_of(&t);
        }
        proof {
            assert(ls.subrange(0, row as int) =~= ls.take(row as int));
            assert(head_deleted_from(ls, row as int, col as int, 0) =~= after_head_deletion(ls, row as int, col as int));
        }
        self.input.lines = lines_of_area(t);
        self.input.cursor_row = 0;
        self.input.cursor_col = 0;
    }

    /// Whether the state is well formed (see `wf`).
    pub fn is_well_formed(&self) -> (b: bool)
        ensures
            b == self.wf(),
    {
        if self.input.lines.len() == 0 || self.input.cursor_row >= self.input.lines.len()
            || self.input.api_key_lines.len() == 0 {
            return false;
        }
        let cs = chars_of(self.input.lines[self.input.cursor_row].as_str());
        if self.input.cursor_col > cs.len() {
            return false;
        }
        match self.input.prompt_history_index {
            Some(i) => if i >= self.input.prompt_history.len() {
                return false;
            },
            None => {},
        }
        match &self.cache.text {
            Some(t) => crate::render::measure_chat(t, self.cache.width) == self.cache.total_height,
            None => true,
        }
    }

    /// Empties the key dialog's box.
    pub fn clear_api_key_input(&mut self)
        ensures
            strings_view(final(self).input.api_key_lines@) == seq![Seq::<char>::empty()],
            final(self).input.api_key_lines@.len() == 1,
            final(self).input == (InputBoxes { api_key_lines: final(self).input.api_key_lines, ..old(self).input }),
            unchanged_except(*old(self), *final(self), set![Part::Input]),
    {
        self.input.api_key_lines = one_empty_line();
    }
}

} // verus!
