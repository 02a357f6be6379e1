//! The display palette and the one lookup from colour names to colours.

use vstd::prelude::*;
use vstd::string::*;
use crate::text::same_text;

verus! {

/// A colour of the fixed palette.
#[derive(Clone, Copy, Debug, PartialEq, Eq, Structural)]
pub enum Color {
    Red,
    Green,
    Blue,
    Yellow,
    Cyan,
    Magenta,
    White,
}

/// The colour that a name stands for. Names are lower case and matched
/// exactly; any other text names no colour.
pub open spec fn color_of_name(name: Seq<char>) -> Option<Color> {
    if name == "red"@ {
        Some(Color::Red)
    } else if name == "green"@ {
        Some(Color::Green)
    } else if name == "blue"@ {
        Some(Color::Blue)
    } else if name == "yellow"@ {
        Some(Color::Yellow)
    } else if name == "cyan"@ {
        Some(Color::Cyan)
    } else if name == "magenta"@ {
        Some(Color::Magenta)
    } else if name == "white"@ {
        Some(Color::White)
    } else {
        None
    }
}

/// The name under which a colour is looked up.
pub open spec fn name_of_color(c: Color) -> Seq<char> {
    match c {
        Color::Red => "red"@,
        Color::Green => "green"@,
        Color::Blue => "blue"@,
        Color::Yellow => "yellow"@,
        Color::Cyan => "cyan"@,
        Color::Magenta => "magenta"@,
        Color::White => "white"@,
    }
}

/// A name that no colour of the palette has.
#[derive(Clone, Copy, Debug, PartialEq, Eq, Structural)]
pub struct UnknownColor;

impl UnknownColor {
    /// The words that tell the user what went wrong.
    pub fn message(&self) -> (r: String)
        ensures
            r@ == "Unknown color. Use red, green, blue, yellow, cyan, magenta or white."@,
    {
        String::from_str("Unknown color. Use red, green, blue, yellow, cyan, magenta or white.")
    }
}

/// What an optional colour name asks for: no override where no name is
/// given, the colour for a name of the palette, and an error for any other
/// name.
pub open spec fn color_option_of(name: Option<Seq<char>>) -> Result<Option<Color>, UnknownColor> {
    match name {
        None => Ok(None),
        Some(text) => match color_of_name(text) {
            Some(found) => Ok(Some(found)),
            None => Err(UnknownColor),
        },
    }
}

/// Looks a colour up by its name; `None` for a text outside the palette.
/// This is the one lookup: what it finds is what is accepted, and what is
/// accepted is what is drawn.
pub fn parse_color(color: &str) -> (r: Option<Color>)
    ensures
        r == color_of_name(color@),
{
    if same_text(color, "red") {
        Some(Color::Red)
    } else if same_text(color, "green") {
        Some(Color::Green)
    } else if same_text(color, "blue") {
        Some(Color::Blue)
    } else if same_text(color, "yellow") {
        Some(Color::Yellow)
    } else if same_text(color, "cyan") {
        Some(Color::Cyan)
    } else if same_text(color, "magenta") {
        Some(Color::Magenta)
    } else if same_text(color, "white") {
        Some(Color::White)
    } else {
        None
    }
}

/// The colour override that an optional name asks for: none where no name
/// is given, the colour for a name of the palette, and an error for a name
/// outside it.
pub fn parse_color_option(name: Option<&str>) -> (r: Result<Option<Color>, UnknownColor>)
    ensures
        r == color_option_of(
            match name {
                Some(text) => Some(text@),
                None => None,
            },
        ),
{
    match name {
        Some(text) => match parse_color(text) {
            Some(found) => Ok(Some(found)),
            None => Err(UnknownColor),
        },
        None => Ok(None),
    }
}

impl Color {
    /// The name of this colour.
    pub fn name(&self) -> (r: &'static str)
        ensures
            r@ == name_of_color(*self),
    {
        match self {
            Color::Red => "red",
            Color::Green => "green",
            Color::Blue => "blue",
            Color::Yellow => "yellow",
            Color::Cyan => "cyan",
            Color::Magenta => "magenta",
            Color::White => "white",
        }
    }

    /// The whole palette, each colour once.
    pub fn palette() -> (r: Vec<Color>)
        ensures
            r@ == seq![
                Color::Red,
                Color::Green,
                Color::Blue,
                Color::Yellow,
                Color::Cyan,
                Color::Magenta,
                Color::White,
            ],
    {
        let mut r: Vec<Color> = Vec::new();
        r.push(Color::Red);
        r.push(Color::Green);
        r.push(Color::Blue);
        r.push(Color::Yellow);
        r.push(Color::Cyan);
        r.push(Color::Magenta);
        r.push(Color::White);
        assert(r@ =~= seq![
            Color::Red,
            Color::Green,
            Color::Blue,
            Color::Yellow,
            Color::Cyan,
            Color::Magenta,
            Color::White,
        ]);
        r
    }
}

/// Every colour is found again under its own name, so the names that are
/// accepted and the palette that is drawn cannot drift apart.
pub proof fn lemma_color_names_round_trip(c: Color)
    ensures
        color_of_name(name_of_color(c)) == Some(c),
{
    reveal_strlit("red");
    reveal_strlit("green");
    reveal_strlit("blue");
    reveal_strlit("yellow");
    reveal_strlit("cyan");
    reveal_strlit("magenta");
    reveal_strlit("white");
    assert("red"@.len() == 3 && "yellow"@.len() == 6 && "magenta"@.len() == 7);
    assert("green"@.len() == 5 && "green"@[0] == 'g');
    assert("white"@.len() == 5 && "white"@[0] == 'w');
    assert("blue"@.len() == 4 && "blue"@[0] == 'b');
    assert("cyan"@.len() == 4 && "cyan"@[0] == 'c');
}

/// A name is accepted exactly when it is the name of a colour of the palette.
pub proof fn lemma_accepted_names(name: Seq<char>)
    ensures
        color_of_name(name) is Some <==> exists|c: Color| name == #[trigger] name_of_color(c),
{
    if color_of_name(name) is Some {
        let c = color_of_name(name)->0;
        assert(name == name_of_color(c));
    }
    if exists|c: Color| name == #[trigger] name_of_color(c) {
        let c = choose|c: Color| name == #[trigger] name_of_color(c);
        lemma_color_names_round_trip(c);
    }
}

} // verus!
