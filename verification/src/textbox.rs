//! The text boxes of the interface are `tui_textarea::TextArea`s. What the
//! library reads of one is named here: the lines it holds, where its cursor
//! is, and whether text is selected in it.

use vstd::prelude::*;
use crate::text::strings_view;
use tui_textarea::{CursorMove, TextArea};

verus! {

/// A text box: a `TextArea` that the library edits through the functions of
/// this module alone.
#[verifier::external_body]
pub struct TextBox {
    area: TextArea<'static>,
}

/// The lines that a text area holds (`TextArea::lines`).
pub uninterp spec fn area_lines(t: TextBox) -> Seq<Seq<char>>;

/// Where the cursor of a text area is (`TextArea::cursor`): its row, and its
/// column counted in characters.
pub uninterp spec fn area_cursor(t: TextBox) -> (usize, usize);

/// Whether text is selected in a text area (`TextArea::is_selecting`).
pub uninterp spec fn area_selecting(t: TextBox) -> bool;

/// A text area that holds a line, whose cursor stands on one of its lines,
/// at most at the end of it, and in which no text is selected.
pub open spec fn area_ok(t: TextBox) -> bool {
    &&& area_lines(t).len() >= 1
    &&& area_cursor(t).0 < area_lines(t).len()
    &&& area_cursor(t).1 <= area_lines(t)[area_cursor(t).0 as int].len()
    &&& !area_selecting(t)
}

/// The moves of the cursor that the library makes.
#[derive(Clone, Copy, Debug)]
pub enum CursorStep {
    Forward,
    Down,
    Head,
    End,
}

/// Where the cursor at `at` goes in the lines `ls` on the move `m`: `Forward`
/// goes one character on, or at the end of a line to the start of the next,
/// if there is one; `Down` goes to the next line, if there is one, in the same
/// column or at its end if it is shorter; `Head` and `End` go to the start and
/// the end of the line.
pub open spec fn cursor_after(ls: Seq<Seq<char>>, at: (int, int), m: CursorStep) -> (int, int) {
    let (row, col) = at;
    match m {
        CursorStep::Forward => if col >= ls[row].len() {
            if row + 1 < ls.len() {
                (row + 1, 0)
            } else {
                at
            }
        } else {
            (row, col + 1)
        },
        CursorStep::Down => if row + 1 < ls.len() {
            (row + 1, if col <= ls[row + 1].len() { col } else { ls[row + 1].len() as int })
        } else {
            at
        },
        CursorStep::Head => (row, 0),
        CursorStep::End => (row, ls[row].len() as int),
    }
}

/// The cursor of a text area, as a pair of integers.
pub open spec fn cursor_at(t: TextBox) -> (int, int) {
    (area_cursor(t).0 as int, area_cursor(t).1 as int)
}

/// The lines that `TextArea::new` gives a text area: those it is given, or
/// one empty line when it is given none.
pub open spec fn area_lines_of(ls: Seq<Seq<char>>) -> Seq<Seq<char>> {
    if ls.len() == 0 {
        seq![Seq::<char>::empty()]
    } else {
        ls
    }
}

/// `TextArea::new`: a text area that holds `lines` (one empty line when there
/// are none), with its cursor at the start and nothing selected.
#[verifier::external_body]
pub(crate) fn new_area(lines: Vec<String>) -> (t: TextBox)
    ensures
        area_lines(t) == area_lines_of(strings_view(lines@)),
        area_cursor(t) == (0usize, 0usize),
        !area_selecting(t),
{
    TextBox { area: TextArea::new(lines) }
}

/// `TextArea::move_cursor`: the lines stay, nothing gets selected, and the
/// cursor goes where `cursor_after` says.
#[verifier::external_body]
pub(crate) fn move_area_cursor(t: &mut TextBox, m: CursorStep)
    requires
        area_ok(*old(t)),
    ensures
        area_lines(*final(t)) == area_lines(*old(t)),
        cursor_at(*final(t)) == cursor_after(area_lines(*old(t)), cursor_at(*old(t)), m),
        !area_selecting(*final(t)),
{
    t.area.move_cursor(
        match m {
            CursorStep::Forward => CursorMove::Forward,
            CursorStep::Down => CursorMove::Down,
            CursorStep::Head => CursorMove::Head,
            CursorStep::End => CursorMove::End,
        },
    );
}

/// `TextArea::delete_line_by_head`, with nothing selected: with the cursor
/// inside a line, what lies before it on the line goes and the cursor moves
/// to the start of the line; with the cursor at the start of a line after the
/// first, the line is joined to the end of the one before and the cursor
/// stands where they meet; at the start of the first line nothing changes.
#[verifier::external_body]
pub(crate) fn delete_area_head(t: &mut TextBox)
    requires
        area_ok(*old(t)),
    ensures
        ({
            let ls = area_lines(*old(t));
            let (row, col) = cursor_at(*old(t));
            &&& col > 0 ==> area_lines(*final(t)) == ls.update(row, ls[row].skip(col)) && cursor_at(*final(t))
                == (row, 0int)
            &&& col == 0 && row > 0 ==> area_lines(*final(t)) == ls.take(row - 1) + seq![ls[row - 1] + ls[row]]
                + ls.skip(row + 1) && cursor_at(*final(t)) == (row - 1, ls[row - 1].len() as int)
            &&& col == 0 && row == 0 ==> area_lines(*final(t)) == ls && cursor_at(*final(t)) == (0int, 0int)
        }),
        !area_selecting(*final(t)),
{
    t.area.delete_line_by_head();
}

/// `TextArea::cursor`.
#[verifier::external_body]
pub(crate) fn cursor_of(t: &TextBox) -> (c: (usize, usize))
    ensures
        c == area_cursor(*t),
{
    t.area.cursor()
}

/// `TextArea::into_lines`: the lines that the text area holds.
#[verifier::external_body]
pub(crate) fn lines_of_area(t: TextBox) -> (v: Vec<String>)
    ensures
        strings_view(v@) == area_lines(t),
{
    t.area.into_lines()
}

} // verus!
