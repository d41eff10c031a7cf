use vstd::prelude::*;

verus! {

/// A terminal styling rule, or none.
#[derive(Clone, Copy, Debug, PartialEq, Eq)]
pub enum Color {
    Plain,
    Black,
    Red,
    Green,
    Yellow,
    Blue,
    Magenta,
    Cyan,
    White,
    Gray,
    Bold,
}

/// The SGR parameter of a color (empty for `Color::Plain`, which styles nothing).
pub open spec fn ansi_code(color: Color) -> Seq<char> {
    match color {
        Color::Plain => Seq::empty(),
        Color::Black => "30"@,
        Color::Red => "31"@,
        Color::Green => "32"@,
        Color::Yellow => "33"@,
        Color::Blue => "34"@,
        Color::Magenta => "35"@,
        Color::Cyan => "36"@,
        Color::White => "37"@,
        Color::Gray => "90"@,
        Color::Bold => "97"@,
    }
}

/// `s` between the escape sequence that selects `color` and the reset sequence;
/// `s` itself for `Color::Plain`.
pub open spec fn colored(s: Seq<char>, color: Color) -> Seq<char> {
    match color {
        Color::Plain => s,
        _ => "\x1B["@ + ansi_code(color) + "m"@ + s + "\x1B[0m"@,
    }
}

/// `colored(s, color)` when coloring is enabled, `s` otherwise.
pub open spec fn colored_when(s: Seq<char>, color: Color, enabled: bool) -> Seq<char> {
    if enabled {
        colored(s, color)
    } else {
        s
    }
}

/// Coloring is the identity when it is disabled, whatever the color, and
/// `Color::Plain` changes nothing even when it is enabled.
pub proof fn uncolored_is_identity(s: Seq<char>, color: Color)
    ensures
        colored_when(s, color, false) == s,
        colored(s, Color::Plain) == s,
        colored_when(s, Color::Plain, true) == s,
{
}

fn ansi_code_text(color: Color) -> (r: &'static str)
    requires
        color != Color::Plain,
    ensures
        r@ == ansi_code(color),
{
    match color {
        Color::Plain => "",
        Color::Black => "30",
        Color::Red => "31",
        Color::Green => "32",
        Color::Yellow => "33",
        Color::Blue => "34",
        Color::Magenta => "35",
        Color::Cyan => "36",
        Color::White => "37",
        Color::Gray => "90",
        Color::Bold => "97",
    }
}

/// Wraps `s` into the passed down color. For `Color::Plain` it is returned as-is.
pub fn colorize(s: &str, color: Color) -> (r: String)
    ensures
        r@ == colored(s@, color),
        color == Color::Plain ==> r@ == s@,
{
    match color {
        Color::Plain => String::from_str(s),
        _ => {
            let mut r = String::from_str("\x1B[");
            r.append(ansi_code_text(color));
            r.append("m");
            r.append(s);
            r.append("\x1B[0m");
            r
        },
    }
}

/// Colors `s` when `enabled`; hands it back unchanged otherwise, whatever the color.
pub fn colorize_when(s: &str, color: Color, enabled: bool) -> (r: String)
    ensures
        r@ == colored_when(s@, color, enabled),
        !enabled ==> r@ == s@,
        color == Color::Plain ==> r@ == s@,
{
    if enabled {
        colorize(s, color)
    } else {
        String::from_str(s)
    }
}

} // verus!
