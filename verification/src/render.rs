//! The big-text renderer: which terminal operations draw one line of text as
//! block letters, in which order.

use vstd::prelude::*;
use vstd::string::*;
use crate::action::Screen;
use crate::color::Color;
use crate::format::{hms_text, lemma_hms_layout};

verus! {

/// The column at which big text is anchored.
pub const ANCHOR_COLUMN: u16 = 0;

/// The row at which big text is anchored.
pub const ANCHOR_ROW: u16 = 1;

/// One operation on the terminal.
#[derive(Debug, PartialEq, Eq)]
pub enum TermOp {
    /// Wipe the whole screen.
    ClearAll,
    /// Put the cursor at a column and a row, counted from zero.
    MoveTo(u16, u16),
    /// Draw what follows in a colour.
    SetForeground(Color),
    /// Write a text and end the line.
    WriteLine(String),
    /// Go back to the terminal's own colour.
    ResetColor,
    /// Hand everything written so far to the terminal.
    Flush,
}

/// A terminal operation as a plain value: the text of a line is a sequence
/// of characters.
pub enum TermOpView {
    ClearAll,
    MoveTo(u16, u16),
    SetForeground(Color),
    WriteLine(Seq<char>),
    ResetColor,
    Flush,
}

impl View for TermOp {
    type V = TermOpView;

    open spec fn view(&self) -> TermOpView {
        match self {
            TermOp::ClearAll => TermOpView::ClearAll,
            TermOp::MoveTo(column, row) => TermOpView::MoveTo(*column, *row),
            TermOp::SetForeground(color) => TermOpView::SetForeground(*color),
            TermOp::WriteLine(text) => TermOpView::WriteLine(text@),
            TermOp::ResetColor => TermOpView::ResetColor,
            TermOp::Flush => TermOpView::Flush,
        }
    }
}

impl DeepView for TermOp {
    type V = TermOpView;

    open spec fn deep_view(&self) -> TermOpView {
        self@
    }
}

/// The block-letter picture that the standard FIGlet font makes of a text,
/// rows joined by line ends; `None` where the font has a glyph for none of
/// its characters.
pub uninterp spec fn standard_figure(text: Seq<char>) -> Option<Seq<char>>;

/// Whether a text holds at least one printable ASCII character, from the
/// space to the tilde. The standard font has a glyph for each of these.
pub open spec fn has_printable(text: Seq<char>) -> bool {
    exists|i: int| 0 <= i < text.len() && ' ' <= #[trigger] text[i] <= '~'
}

/// The operations that draw the picture `art` at the anchor: go to the
/// anchor, switch the colour on if one is set, write the picture, switch the
/// colour off again if one was set, and flush.
pub open spec fn big_text_frame(art: Seq<char>, color: Option<Color>) -> Seq<TermOpView> {
    match color {
        Some(c) => seq![
            TermOpView::MoveTo(ANCHOR_COLUMN, ANCHOR_ROW),
            TermOpView::SetForeground(c),
            TermOpView::WriteLine(art),
            TermOpView::ResetColor,
            TermOpView::Flush,
        ],
        None => seq![
            TermOpView::MoveTo(ANCHOR_COLUMN, ANCHOR_ROW),
            TermOpView::WriteLine(art),
            TermOpView::Flush,
        ],
    }
}

/// The operations that wipe the screen and park the cursor in its top left
/// corner.
pub open spec fn clear_frame() -> Seq<TermOpView> {
    seq![TermOpView::ClearAll, TermOpView::MoveTo(0, 0), TermOpView::Flush]
}

/// Draws `text` in block letters with `figlet_rs`: loads the font with
/// `FIGfont::standard`, converts the text with `FIGfont::convert` and joins
/// the rows of the figure as its `Display` does. The result is the picture
/// that the font makes of the text, which depends on the text alone. An empty
/// text has no picture. The font that is compiled into `figlet_rs` loads, and
/// holds a glyph for every character from the space to the tilde, so a text
/// with one of these has a picture.
#[verifier::external_body]
fn standard_big_text(text: &str) -> (r: Option<String>)
    ensures
        match r {
            Some(art) => standard_figure(text@) == Some(art@),
            None => standard_figure(text@) is None,
        },
        text@.len() == 0 ==> r is None,
        has_printable(text@) ==> r is Some,
{
    let font = match figlet_rs::FIGfont::standard() {
        Ok(font) => font,
        Err(_) => return None,
    };
    let figure = font.convert(text)?;
    Some(figure.to_string())
}

/// The operations that draw an already made picture at the anchor, in
/// `color` if one is set.
pub fn frame_of(art: String, color: Option<Color>) -> (ops: Vec<TermOp>)
    ensures
        ops.deep_view() == big_text_frame(art@, color),
{
    let mut ops: Vec<TermOp> = Vec::new();
    ops.push(TermOp::MoveTo(ANCHOR_COLUMN, ANCHOR_ROW));
    match color {
        Some(c) => {
            ops.push(TermOp::SetForeground(c));
            ops.push(TermOp::WriteLine(art));
            ops.push(TermOp::ResetColor);
        },
        None => {
            ops.push(TermOp::WriteLine(art));
        },
    }
    ops.push(TermOp::Flush);
    assert(ops.deep_view() =~= big_text_frame(art@, color));
    ops
}

/// The operations that draw `text` in block letters at the anchor, in
/// `color` if one is set; `None` where the font has no picture of the text.
pub fn display_big_text(text: &str, color: Option<Color>) -> (r: Option<Vec<TermOp>>)
    ensures
        match r {
            Some(ops) => standard_figure(text@) matches Some(art) && ops.deep_view()
                == big_text_frame(art, color),
            None => standard_figure(text@) is None,
        },
        text@.len() == 0 ==> r is None,
        has_printable(text@) ==> r is Some,
{
    match standard_big_text(text) {
        Some(art) => Some(frame_of(art, color)),
        None => None,
    }
}

/// The operations that draw a screen in block letters at the anchor, in
/// `color` if one is set. Every screen has a picture, so this never fails.
pub fn draw_screen(screen: &Screen, color: Option<Color>) -> (ops: Vec<TermOp>)
    ensures
        standard_figure(screen.text()) matches Some(art) && ops.deep_view() == big_text_frame(
            art,
            color,
        ),
{
    let text: String = screen.to_text();
    proof {
        lemma_screen_has_printable(*screen);
    }
    match display_big_text(text.as_str(), color) {
        Some(ops) => ops,
        None => Vec::new(),
    }
}

/// The text of every screen holds a printable ASCII character: a colon, a
/// point or a letter.
pub proof fn lemma_screen_has_printable(screen: Screen)
    ensures
        has_printable(screen.text()),
{
    let text = screen.text();
    match screen {
        Screen::Elapsed { secs, millis } => {
            let at = hms_text(secs as nat).len() as int;
            assert(text[at] == '.');
        },
        Screen::Countdown { secs } => {
            lemma_hms_layout(secs as nat);
            assert(text[text.len() - 3] == ':');
        },
        Screen::Work { secs } => {
            reveal_strlit("Work: ");
            assert(text[0] == 'W');
        },
        Screen::Break { secs } => {
            reveal_strlit("Break: ");
            assert(text[0] == 'B');
        },
        Screen::Banner(banner) => {
            reveal_strlit("ALARM UP!");
            reveal_strlit("BREAK TIME!");
            reveal_strlit("NEXT CYCLE STARTING!");
            reveal_strlit("POMODORO DONE!");
            assert(text[0] == 'A' || text[0] == 'B' || text[0] == 'N' || text[0] == 'P');
        },
    }
}

/// The operations that wipe the screen and park the cursor in its top left
/// corner.
pub fn clear_terminal() -> (ops: Vec<TermOp>)
    ensures
        ops.deep_view() == clear_frame(),
{
    let mut ops: Vec<TermOp> = Vec::new();
    ops.push(TermOp::ClearAll);
    ops.push(TermOp::MoveTo(0, 0));
    ops.push(TermOp::Flush);
    assert(ops.deep_view() =~= clear_frame());
    ops
}

/// Whatever the picture and the colour, a frame starts at the anchor, writes
/// the picture exactly once and ends with a flush. With a colour set, the
/// colour is switched on before the picture and off after it; with none set,
/// the frame touches no colour.
pub proof fn lemma_frame_shape(art: Seq<char>, color: Option<Color>)
    ensures
        big_text_frame(art, color).first() == TermOpView::MoveTo(ANCHOR_COLUMN, ANCHOR_ROW),
        big_text_frame(art, color).last() == TermOpView::Flush,
        big_text_frame(art, color).filter(|op: TermOpView| op is WriteLine) == seq![
            TermOpView::WriteLine(art),
        ],
        color matches Some(c) ==> exists|i: int, j: int, k: int|
            0 <= i < j < k < big_text_frame(art, color).len() && #[trigger] big_text_frame(
                art,
                color,
            )[i] == TermOpView::SetForeground(c) && #[trigger] big_text_frame(art, color)[j]
                == TermOpView::WriteLine(art) && #[trigger] big_text_frame(art, color)[k]
                == TermOpView::ResetColor,
        color is None ==> forall|i: int|
            0 <= i < big_text_frame(art, color).len() ==> !(#[trigger] big_text_frame(
                art,
                color,
            )[i] is SetForeground) && !(big_text_frame(art, color)[i] is ResetColor),
{
    let frame = big_text_frame(art, color);
    let is_write = |op: TermOpView| op is WriteLine;
    reveal_with_fuel(Seq::filter, 6);
    if let Some(c) = color {
        assert(frame[1] == TermOpView::SetForeground(c) && frame[2] == TermOpView::WriteLine(art)
            && frame[3] == TermOpView::ResetColor);
    }
    assert(frame.filter(is_write) =~= seq![TermOpView::WriteLine(art)]);
}

} // verus!
