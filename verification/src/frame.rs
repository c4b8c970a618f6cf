//! The parts of a frame besides the chat: which dialog lies on top, the
//! texts of the status line, and the lines of the dialogs.

use vstd::prelude::*;
use vstd::string::StringExecFns;
use crate::chat::{lit, concat2, concat3};
use crate::state::App;
use crate::style::{
    Color, Line, Span, SpanStyle, SpanV, lines_view, plain_style, fg_style, bold_style, push_line, push_span,
    line1, line2, blank_line, line_of,
};
use crate::text::push_char;

verus! {

/// What lies on top of the screen.
#[derive(Clone, Copy, Debug, PartialEq, Eq, Structural)]
pub enum Overlay {
    CommandMenu,
    ProviderMenu,
    ModelMenu,
    SettingsMenu,
    KeyDialog,
    ClearQuestion,
    ExitQuestion,
    CommandConfirmation,
    MessageActions,
    Nothing,
}

/// What lies on top of the screen: the first, in this order, of the command,
/// provider, model and settings menus that shows; else the key dialog; else
/// the question to clear the chat, then the one to leave; else a command
/// that waits for confirmation; else the message dialog.
pub open spec fn overlay_of(app: App) -> Overlay {
    if app.menus.show_menu {
        Overlay::CommandMenu
    } else if app.menus.show_provider_menu {
        Overlay::ProviderMenu
    } else if app.menus.show_model_menu {
        Overlay::ModelMenu
    } else if app.menus.show_settings_menu {
        Overlay::SettingsMenu
    } else if app.key_dialog.active {
        Overlay::KeyDialog
    } else if app.prompts.pending_clear {
        Overlay::ClearQuestion
    } else if app.prompts.pending_exit {
        Overlay::ExitQuestion
    } else if app.prompts.command_confirmation is Some {
        Overlay::CommandConfirmation
    } else if app.prompts.user_msg_modal is Some {
        Overlay::MessageActions
    } else {
        Overlay::Nothing
    }
}

/// The question that a question dialog asks.
pub open spec fn question_of(o: Overlay) -> Option<Seq<char>> {
    match o {
        Overlay::ClearQuestion => Some("Are you sure you want to clear all history? (y/n)"@),
        Overlay::ExitQuestion => Some("Are you sure you want to exit RouteCode? (y/n)"@),
        _ => None,
    }
}

/// The digit of `d` (below 10).
pub open spec fn digit_char(d: int) -> char {
    if d == 0 {
        '0'
    } else if d == 1 {
        '1'
    } else if d == 2 {
        '2'
    } else if d == 3 {
        '3'
    } else if d == 4 {
        '4'
    } else if d == 5 {
        '5'
    } else if d == 6 {
        '6'
    } else if d == 7 {
        '7'
    } else if d == 8 {
        '8'
    } else {
        '9'
    }
}

/// `n` written in decimal.
pub open spec fn decimal(n: nat) -> Seq<char>
    decreases n,
{
    if n < 10 {
        seq![digit_char(n as int)]
    } else {
        decimal(n / 10) + seq![digit_char((n % 10) as int)]
    }
}

/// The frame `i` (below 10) of the spinner shown while a reply is generated.
pub open spec fn spinner_frame(i: int) -> Seq<char> {
    if i == 0 {
        "⠋"@
    } else if i == 1 {
        "⠙"@
    } else if i == 2 {
        "⠹"@
    } else if i == 3 {
        "⠸"@
    } else if i == 4 {
        "⠼"@
    } else if i == 5 {
        "⠴"@
    } else if i == 6 {
        "⠦"@
    } else if i == 7 {
        "⠧"@
    } else if i == 8 {
        "⠇"@
    } else {
        "⠏"@
    }
}

/// The activity shown in the status line: while a reply is generated, the
/// spinner's frame for the current tick and the tool that runs, or
/// `Thinking...`; nothing otherwise.
pub open spec fn activity_text(app: App) -> Seq<char> {
    if app.chat.is_generating {
        let f = spinner_frame((app.ticker.tick_count % 10) as int);
        match app.chat.active_tool {
            Some(t) => " "@ + f + " [Running "@ + t@ + "...] "@,
            None => " "@ + f + " [Thinking...] "@,
        }
    } else {
        seq![]
    }
}

/// The scrolling shown in the status line.
pub open spec fn scroll_text(app: App) -> Seq<char> {
    " • Scroll: "@ + decimal(app.scroll.history_scroll as nat) + "/"@ + decimal(app.scroll.max_scroll as nat) + " "@
}

/// The thinking level shown in the status line: nothing for the default
/// level.
pub open spec fn thinking_tag_text(level: Seq<char>) -> Seq<char> {
    if level == "default"@ {
        seq![]
    } else {
        " • ["@ + level + "] "@
    }
}

/// A span's view.
pub open spec fn span_view(t: Seq<char>, s: crate::style::SpanStyle) -> SpanV {
    (t, s)
}

/// The lines of the dialog of a command that waits for confirmation: the
/// message, the target, an empty line, and then either the request for
/// feedback or the answers that can be given.
pub open spec fn confirmation_lines(message: Seq<char>, target: Seq<char>, feedback: bool) -> Seq<Seq<SpanV>> {
    let head = seq![
        seq![span_view(message, fg_style(Color::Text))],
        seq![span_view("> "@ + target, bold_style(Color::System))],
        seq![span_view(seq![], plain_style())],
    ];
    if feedback {
        head + seq![
            seq![span_view("Please type your feedback below and press Enter (Esc to cancel):"@, fg_style(Color::Secondary))],
        ]
    } else {
        head + seq![
            seq![
                span_view("[Y]"@, bold_style(Color::Success)),
                span_view(" Allow once  "@, plain_style()),
                span_view("[S]"@, bold_style(Color::Primary)),
                span_view(" Allow for session  "@, plain_style()),
                span_view("[W]"@, bold_style(Color::Primary)),
                span_view(" Allow for Workspace  "@, plain_style()),
                span_view("[F]"@, bold_style(Color::Secondary)),
                span_view(" Tell Agent something else  "@, plain_style()),
                span_view("[D] or [Esc]"@, bold_style(Color::Red)),
                span_view(" Deny"@, plain_style()),
            ],
        ]
    }
}

/// The line of one action of the message dialog: an arrow before the
/// selected one, which is drawn bold.
pub open spec fn action_line(text: Seq<char>, selected: bool) -> Seq<SpanV> {
    seq![
        span_view(if selected { " ➜ "@ } else { "   "@ }, fg_style(Color::Primary)),
        span_view(text, if selected { bold_style(Color::Primary) } else { fg_style(Color::Text) }),
    ]
}

/// The lines of the message dialog with action `selected` selected.
pub open spec fn message_dialog_lines(selected: usize) -> Seq<Seq<SpanV>> {
    seq![
        seq![span_view(" Choose an action:"@, fg_style(Color::Secondary))],
        seq![span_view(seq![], plain_style())],
        action_line("Copy Message"@, selected == 0),
        action_line("Rewind & Edit"@, selected == 1),
        seq![span_view(seq![], plain_style())],
        seq![span_view(" Press Enter/Click to select, Esc to close"@, fg_style(Color::Dim))],
    ]
}

impl App {
    /// What lies on top of the screen (see `overlay_of`).
    pub fn overlay(&self) -> (o: Overlay)
        ensures
            o == overlay_of(*self),
    {
        if self.menus.show_menu {
            Overlay::CommandMenu
        } else if self.menus.show_provider_menu {
            Overlay::ProviderMenu
        } else if self.menus.show_model_menu {
            Overlay::ModelMenu
        } else if self.menus.show_settings_menu {
            Overlay::SettingsMenu
        } else if self.key_dialog.active {
            Overlay::KeyDialog
        } else if self.prompts.pending_clear {
            Overlay::ClearQuestion
        } else if self.prompts.pending_exit {
            Overlay::ExitQuestion
        } else if self.prompts.command_confirmation.is_some() {
            Overlay::CommandConfirmation
        } else if self.prompts.user_msg_modal.is_some() {
            Overlay::MessageActions
        } else {
            Overlay::Nothing
        }
    }

    /// The activity shown in the status line (see `activity_text`).
    pub fn activity(&self) -> (s: String)
        ensures
            s@ == activity_text(*self),
    {
        if !self.chat.is_generating {
            return String::new();
        }
        let f = spinner((self.ticker.tick_count % 10) as usize);
        match &self.chat.active_tool {
            Some(t) => {
                let mut s = concat3(" ", f.as_str(), " [Running ");
                s.append(t.as_str());
                s.append("...] ");
                s
            },
            None => concat3(" ", f.as_str(), " [Thinking...] "),
        }
    }

    /// The scrolling shown in the status line (see `scroll_text`).
    pub fn scroll_status(&self) -> (s: String)
        ensures
            s@ == scroll_text(*self),
    {
        let mut s = lit(" • Scroll: ");
        push_decimal(&mut s, self.scroll.history_scroll as u64);
        s.append("/");
        push_decimal(&mut s, self.scroll.max_scroll as u64);
        s.append(" ");
        s
    }
}

/// The question that a question dialog asks (see `question_of`).
pub fn question(o: Overlay) -> (r: Option<String>)
    ensures
        match r {
            Some(s) => question_of(o) == Some(s@),
            None => question_of(o) is None,
        },
{
    match o {
        Overlay::ClearQuestion => Some(lit("Are you sure you want to clear all history? (y/n)")),
        Overlay::ExitQuestion => Some(lit("Are you sure you want to exit RouteCode? (y/n)")),
        _ => None,
    }
}

/// The digit of `d` (see `digit_char`).
fn digit(d: u64) -> (c: char)
    requires
        d < 10,
    ensures
        c == digit_char(d as int),
{
    if d == 0 {
        '0'
    } else if d == 1 {
        '1'
    } else if d == 2 {
        '2'
    } else if d == 3 {
        '3'
    } else if d == 4 {
        '4'
    } else if d == 5 {
        '5'
    } else if d == 6 {
        '6'
    } else if d == 7 {
        '7'
    } else if d == 8 {
        '8'
    } else {
        '9'
    }
}

/// Appends `n` written in decimal (see `decimal`).
pub fn push_decimal(s: &mut String, n: u64)
    ensures
        final(s)@ == old(s)@ + decimal(n as nat),
    decreases n,
{
    if n >= 10 {
        push_decimal(s, n / 10);
    }
    push_char(s, digit(n % 10));
    assert(final(s)@ =~= old(s)@ + decimal(n as nat)) by {
        if n >= 10 {
            assert(decimal(n as nat) == decimal((n / 10) as nat) + seq![digit_char((n % 10) as int)]);
        }
    }
}

/// The spinner's frame `i` (see `spinner_frame`).
fn spinner(i: usize) -> (s: String)
    requires
        i < 10,
    ensures
        s@ == spinner_frame(i as int),
{
    if i == 0 {
        lit("⠋")
    } else if i == 1 {
        lit("⠙")
    } else if i == 2 {
        lit("⠹")
    } else if i == 3 {
        lit("⠸")
    } else if i == 4 {
        lit("⠼")
    } else if i == 5 {
        lit("⠴")
    } else if i == 6 {
        lit("⠦")
    } else if i == 7 {
        lit("⠧")
    } else if i == 8 {
        lit("⠇")
    } else {
        lit("⠏")
    }
}

/// The thinking level shown in the status line (see `thinking_tag_text`).
pub fn thinking_tag(level: &String) -> (s: String)
    ensures
        s@ == thinking_tag_text(level@),
{
    if *level == lit("default") {
        String::new()
    } else {
        concat3(" • [", level.as_str(), "] ")
    }
}

/// A span of a literal in a style.
fn span(t: &str, s: SpanStyle) -> (r: Span)
    ensures
        r@ == span_view(t@, s),
{
    Span::styled(lit(t), s)
}

/// The lines of the dialog of a command that waits for confirmation (see
/// `confirmation_lines`).
pub fn confirmation_dialog(message: &String, target: &String, feedback: bool) -> (lines: Vec<Line>)
    ensures
        lines_view(lines@) == confirmation_lines(message@, target@, feedback),
{
    let mut lines: Vec<Line> = Vec::new();
    assert(lines_view(lines@) =~= Seq::<Seq<SpanV>>::empty());
    push_line(&mut lines, line1(Span::styled(message.clone(), SpanStyle::fg(Color::Text))));
    push_line(&mut lines, line1(Span::styled(concat2("> ", target.as_str()), SpanStyle::bold(Color::System))));
    push_line(&mut lines, blank_line());
    let ghost head = lines_view(lines@);
    assert(head =~= seq![
        seq![span_view(message@, fg_style(Color::Text))],
        seq![span_view("> "@ + target@, bold_style(Color::System))],
        seq![span_view(seq![], plain_style())],
    ]);
    if feedback {
        push_line(
            &mut lines,
            line1(span("Please type your feedback below and press Enter (Esc to cancel):", SpanStyle::fg(Color::Secondary))),
        );
    } else {
        let mut v: Vec<Span> = Vec::new();
        assert(crate::style::spans_view(v@) =~= Seq::<SpanV>::empty());
        push_span(&mut v, span("[Y]", SpanStyle::bold(Color::Success)));
        push_span(&mut v, span(" Allow once  ", SpanStyle::plain()));
        push_span(&mut v, span("[S]", SpanStyle::bold(Color::Primary)));
        push_span(&mut v, span(" Allow for session  ", SpanStyle::plain()));
        push_span(&mut v, span("[W]", SpanStyle::bold(Color::Primary)));
        push_span(&mut v, span(" Allow for Workspace  ", SpanStyle::plain()));
        push_span(&mut v, span("[F]", SpanStyle::bold(Color::Secondary)));
        push_span(&mut v, span(" Tell Agent something else  ", SpanStyle::plain()));
        push_span(&mut v, span("[D] or [Esc]", SpanStyle::bold(Color::Red)));
        push_span(&mut v, span(" Deny", SpanStyle::plain()));
        assert(crate::style::spans_view(v@) =~= confirmation_lines(message@, target@, false)[3]);
        push_line(&mut lines, line_of(v));
    }
    assert(lines_view(lines@) =~= confirmation_lines(message@, target@, feedback));
    lines
}

/// The line of one action of the message dialog (see `action_line`).
fn action(text: &str, selected: bool) -> (l: Line)
    ensures
        l@ == action_line(text@, selected),
{
    let prefix = if selected { span(" ➜ ", SpanStyle::fg(Color::Primary)) } else { span("   ", SpanStyle::fg(Color::Primary)) };
    let style = if selected { SpanStyle::bold(Color::Primary) } else { SpanStyle::fg(Color::Text) };
    line2(prefix, span(text, style))
}

/// The lines of the message dialog (see `message_dialog_lines`).
pub fn message_dialog(selected: usize) -> (lines: Vec<Line>)
    ensures
        lines_view(lines@) == message_dialog_lines(selected),
{
    let mut lines: Vec<Line> = Vec::new();
    assert(lines_view(lines@) =~= Seq::<Seq<SpanV>>::empty());
    push_line(&mut lines, line1(span(" Choose an action:", SpanStyle::fg(Color::Secondary))));
    push_line(&mut lines, blank_line());
    push_line(&mut lines, action("Copy Message", selected == 0));
    push_line(&mut lines, action("Rewind & Edit", selected == 1));
    push_line(&mut lines, blank_line());
    push_line(&mut lines, line1(span(" Press Enter/Click to select, Esc to close", SpanStyle::fg(Color::Dim))));
    assert(lines_view(lines@) =~= message_dialog_lines(selected));
    lines
}

} // verus!
