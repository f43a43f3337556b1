//! Terminal colors for what is shown to the operator.

use crate::text::same_text;
use vstd::prelude::*;
use vstd::string::*;

verus! {

/// The escape sequence that ends a colored stretch.
pub open spec fn reset_code() -> Seq<char> {
    "\x1b[0m"@
}

/// The escape sequence that starts the color of the given name. A name
/// that is none of the five known colors gives the reset sequence.
pub open spec fn color_code(color: Seq<char>) -> Seq<char> {
    if color == "red"@ {
        "\x1b[31m"@
    } else if color == "green"@ {
        "\x1b[32m"@
    } else if color == "yellow"@ {
        "\x1b[33m"@
    } else if color == "blue"@ {
        "\x1b[34m"@
    } else if color == "cyan"@ {
        "\x1b[36m"@
    } else {
        reset_code()
    }
}

/// A text in a color: the color's sequence, the text, the reset sequence.
pub open spec fn colorized(text: Seq<char>, color: Seq<char>) -> Seq<char> {
    color_code(color) + text + reset_code()
}

/// Wraps `text` in the escape sequences of the named color.
pub fn colorize(text: &str, color: &str) -> (colored: String)
    ensures
        colored@ == colorized(text@, color@),
{
    let code = if same_text(color, "red") {
        "\x1b[31m"
    } else if same_text(color, "green") {
        "\x1b[32m"
    } else if same_text(color, "yellow") {
        "\x1b[33m"
    } else if same_text(color, "blue") {
        "\x1b[34m"
    } else if same_text(color, "cyan") {
        "\x1b[36m"
    } else {
        "\x1b[0m"
    };
    let mut colored = String::from_str(code);
    colored.append(text);
    colored.append("\x1b[0m");
    colored
}

} // verus!
