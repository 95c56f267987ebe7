//! Entry formatter: renders one log entry (content plus optional header and
//! context) into the text block that is appended to the log file.

use vstd::prelude::*;

verus! {

/// The horizontal rule drawn above and below the label line of an entry
/// that carries a header or a context.
pub open spec fn separator() -> Seq<char> {
    "-----------------------------------------------------------"@
}

/// The view of an optional piece of entry text.
pub open spec fn opt_text(o: Option<&str>) -> Option<Seq<char>> {
    match o {
        Some(s) => Some(s@),
        None => None,
    }
}

/// The view of an optional owned piece of entry text.
pub open spec fn opt_string_text(o: Option<String>) -> Option<Seq<char>> {
    match o {
        Some(s) => Some(s@),
        None => None,
    }
}

/// The label line of an entry, by case: a header with a context, a header
/// alone, or a context alone. An entry with neither has no label line.
pub open spec fn label_line(header: Option<Seq<char>>, context: Option<Seq<char>>) -> Seq<char> {
    match (header, context) {
        (Some(h), Some(c)) => "> "@ + h + " ("@ + c + ")"@,
        (Some(h), None) => "> "@ + h,
        (None, Some(c)) => "> [at "@ + c + "]"@,
        (None, None) => Seq::<char>::empty(),
    }
}

/// The full rendered block for one entry. A bare entry is a blank line, the
/// content and a line break; an entry with a header or a context frames its
/// label line between two separator lines before the content.
pub open spec fn rendered_entry(
    content: Seq<char>,
    header: Option<Seq<char>>,
    context: Option<Seq<char>>,
) -> Seq<char> {
    if header is None && context is None {
        "\n"@ + content + "\n"@
    } else {
        "\n"@ + separator() + "\n"@ + label_line(header, context) + "\n"@ + separator() + "\n"@
            + content + "\n"@
    }
}

/// Renders one entry into the exact block described by `rendered_entry`.
pub fn render_entry(content: &str, header: Option<&str>, context: Option<&str>) -> (r: String)
    ensures
        r@ == rendered_entry(content@, opt_text(header), opt_text(context)),
{
    let mut out = String::new();
    out.append("\n");
    match (header, context) {
        (Some(h), Some(c)) => {
            out.append("-----------------------------------------------------------");
            out.append("\n");
            out.append("> ");
            out.append(h);
            out.append(" (");
            out.append(c);
            out.append(")");
            out.append("\n");
            out.append("-----------------------------------------------------------");
            out.append("\n");
        },
        (Some(h), None) => {
            out.append("-----------------------------------------------------------");
            out.append("\n");
            out.append("> ");
            out.append(h);
            out.append("\n");
            out.append("-----------------------------------------------------------");
            out.append("\n");
        },
        (None, Some(c)) => {
            out.append("-----------------------------------------------------------");
            out.append("\n");
            out.append("> [at ");
            out.append(c);
            out.append("]");
            out.append("\n");
            out.append("-----------------------------------------------------------");
            out.append("\n");
        },
        (None, None) => {},
    }
    out.append(content);
    out.append("\n");
    proof {
        assert(out@ =~= rendered_entry(content@, opt_text(header), opt_text(context)));
    }
    out
}

} // verus!
