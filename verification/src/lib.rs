//! Abort-report lines.
//!
//! A program that hits an unrecoverable condition writes one line to its
//! standard error stream — `"<prefix>: <message>\n"`, the prefix being
//! `"error"` or `"fatal"`, plain or wrapped in the ANSI bold+red escape
//! codes — and terminates with exit code `-1`. This crate builds that line
//! and proves exactly which characters it holds; rendering a value to text,
//! the write itself and the exit are left to the caller, since they are the
//! only parts that cannot be verified.

use colored::Colorize;
use vstd::prelude::*;

verus! {

/// Exit status an aborting caller hands to the process-termination
/// primitive. Fixed: no entry point accepts another code.
pub const EXIT_CODE: i32 = -1;

/// The character that opens every ANSI control sequence.
pub const ESCAPE: char = '\u{1b}';

/// The tag of the "error" entry point.
pub open spec fn error_prefix() -> Seq<char> {
    seq!['e', 'r', 'r', 'o', 'r']
}

/// The tag of the "fatal" entry point.
pub open spec fn fatal_prefix() -> Seq<char> {
    seq!['f', 'a', 't', 'a', 'l']
}

/// What stands between the prefix and the message.
pub open spec fn separator() -> Seq<char> {
    seq![':', ' ']
}

/// The line terminator.
pub open spec fn newline() -> Seq<char> {
    seq!['\n']
}

/// The ANSI sequence that turns the bold style and the red foreground on.
pub open spec fn bold_red_on() -> Seq<char> {
    seq!['\u{1b}', '[', '1', ';', '3', '1', 'm']
}

/// The ANSI sequence that resets all styling.
pub open spec fn style_off() -> Seq<char> {
    seq!['\u{1b}', '[', '0', 'm']
}

/// A text wrapped in the bold+red escape codes.
pub open spec fn bold_red(s: Seq<char>) -> Seq<char> {
    bold_red_on() + s + style_off()
}

/// The prefix as it stands in the line: wrapped in bold+red when the color
/// switch is on, plain when it is off.
pub open spec fn styled(prefix: Seq<char>, color: bool) -> Seq<char> {
    if color {
        bold_red(prefix)
    } else {
        prefix
    }
}

/// No escape character occurs anywhere in `s`.
pub open spec fn escape_free(s: Seq<char>) -> bool {
    forall|i: int| 0 <= i < s.len() ==> s[i] != ESCAPE
}

/// The full report line for an already-styled prefix and a message.
pub open spec fn report_line(prefix: Seq<char>, msg: Seq<char>) -> Seq<char> {
    prefix + separator() + msg + newline()
}

/// `"<prefix>: <msg>\n"`: the message framed by the prefix, the separator
/// and the newline, character for character.
pub fn compose_line(prefix: &str, msg: &str) -> (r: String)
    ensures
        r@ == report_line(prefix@, msg@),
{
    let mut line = String::new();
    line.append(prefix);
    line.append(": ");
    line.append(msg);
    line.append("\n");
    proof {
        reveal_strlit(": ");
        reveal_strlit("\n");
        assert(": "@ =~= separator());
        assert("\n"@ =~= newline());
        assert(line@ =~= report_line(prefix@, msg@));
    }
    line
}

/// The bold+red wrapping that the color switch applies to the prefix.
pub fn paint_bold_red(s: &str) -> (r: String)
    ensures
        r@ == bold_red(s@),
{
    let mut painted = String::new();
    painted.append("\u{1b}[1;31m");
    painted.append(s);
    painted.append("\u{1b}[0m");
    proof {
        reveal_strlit("\u{1b}[1;31m");
        reveal_strlit("\u{1b}[0m");
        assert("\u{1b}[1;31m"@ =~= bold_red_on());
        assert("\u{1b}[0m"@ =~= style_off());
        assert(painted@ =~= bold_red(s@));
    }
    painted
}

/// The one routine behind both entry points, parameterized by the prefix
/// text: the full line, with the prefix bold and red exactly when `color`
/// is on.
pub fn render_line(prefix: &str, msg: &str, color: bool) -> (r: String)
    ensures
        r@ == report_line(styled(prefix@, color), msg@),
{
    if color {
        let painted = paint_bold_red(prefix);
        compose_line(painted.as_str(), msg)
    } else {
        compose_line(prefix, msg)
    }
}

/// Relies on colored's `Colorize::bold` and `Colorize::red` and on the
/// `Display` of its `ColoredString`: when its global switch and the
/// environment allow color, the text comes back wrapped in the bold+red
/// escape codes; otherwise it comes back unchanged. A text without escape
/// characters is never rewritten inside.
#[verifier::external_body]
fn bold_red_env(s: &str) -> (r: String)
    requires
        escape_free(s@),
    ensures
        r@ == s@ || r@ == bold_red(s@),
{
    s.bold().red().to_string()
}

/// The line of the "error" entry point with the prefix handed to the
/// colored crate, which decides from its global switch and the environment:
/// the prefix comes out plain or bold+red, and the line is exact either way.
pub fn error_line_env(msg: &str) -> (r: String)
    ensures
        r@ == report_line(error_prefix(), msg@) || r@ == report_line(
            bold_red(error_prefix()),
            msg@,
        ),
{
    proof {
        reveal_strlit("error");
        assert("error"@ =~= error_prefix());
    }
    let prefix = bold_red_env("error");
    compose_line(prefix.as_str(), msg)
}

/// The line of the "fatal" entry point with the prefix handed to the
/// colored crate, as in `error_line_env`.
pub fn fatal_line_env(msg: &str) -> (r: String)
    ensures
        r@ == report_line(fatal_prefix(), msg@) || r@ == report_line(
            bold_red(fatal_prefix()),
            msg@,
        ),
{
    proof {
        reveal_strlit("fatal");
        assert("fatal"@ =~= fatal_prefix());
    }
    let prefix = bold_red_env("fatal");
    compose_line(prefix.as_str(), msg)
}

/// The line of the "error" entry point: `"error: <msg>\n"`, the prefix
/// styled exactly when `color` is on.
pub fn error_line(msg: &str, color: bool) -> (r: String)
    ensures
        r@ == report_line(styled(error_prefix(), color), msg@),
{
    proof {
        reveal_strlit("error");
        assert("error"@ =~= error_prefix());
    }
    render_line("error", msg, color)
}

/// The line of the "fatal" entry point: `"fatal: <msg>\n"`, the prefix
/// styled exactly when `color` is on.
pub fn fatal_line(msg: &str, color: bool) -> (r: String)
    ensures
        r@ == report_line(styled(fatal_prefix(), color), msg@),
{
    proof {
        reveal_strlit("fatal");
        assert("fatal"@ =~= fatal_prefix());
    }
    render_line("fatal", msg, color)
}

/// With the color switch off, a prefix and a message free of escape
/// characters give a line free of escape characters anywhere.
pub proof fn lemma_plain_line_escape_free(prefix: Seq<char>, msg: Seq<char>)
    requires
        escape_free(prefix),
        escape_free(msg),
    ensures
        escape_free(report_line(styled(prefix, false), msg)),
{
    let line = report_line(prefix, msg);
    assert forall|i: int| 0 <= i < line.len() implies line[i] != ESCAPE by {
        let p: int = prefix.len() as int;
        let s: int = separator().len() as int;
        let m: int = msg.len() as int;
        if i < p {
            assert(line[i] == prefix[i]);
        } else if i < p + s {
            assert(line[i] == separator()[i - p]);
        } else if i < p + s + m {
            assert(line[i] == msg[i - p - s]);
        } else {
            assert(line[i] == newline()[i - p - s - m]);
        }
    }
}

/// With the color switch on, the escape codes stand immediately around the
/// prefix alone: the opener, the prefix, the style reset, and only then the
/// separator, the message and the newline.
pub proof fn lemma_colored_line_shape(prefix: Seq<char>, msg: Seq<char>)
    ensures
        report_line(styled(prefix, true), msg) == bold_red_on() + prefix + style_off()
            + separator() + msg + newline(),
{
    assert(report_line(styled(prefix, true), msg) =~= bold_red_on() + prefix + style_off()
        + separator() + msg + newline());
}

/// With the color switch on and escape-free inputs, the escape character
/// occurs in the line exactly twice: where the bold+red opener starts, and
/// where the style reset starts, immediately after the prefix.
pub proof fn lemma_colored_line_escape_positions(prefix: Seq<char>, msg: Seq<char>)
    requires
        escape_free(prefix),
        escape_free(msg),
    ensures
        forall|i: int|
            0 <= i < report_line(styled(prefix, true), msg).len() ==> (report_line(
                styled(prefix, true),
                msg,
            )[i] == ESCAPE <==> (i == 0 || i == bold_red_on().len() + prefix.len())),
{
    let line = report_line(bold_red(prefix), msg);
    let b: int = bold_red_on().len() as int;
    let p: int = prefix.len() as int;
    let f: int = style_off().len() as int;
    let s: int = separator().len() as int;
    let m: int = msg.len() as int;
    assert forall|i: int| 0 <= i < line.len() implies (line[i] == ESCAPE <==> (i == 0 || i == b
        + p)) by {
        if i < b {
            assert(line[i] == bold_red_on()[i]);
        } else if i < b + p {
            assert(line[i] == prefix[i - b]);
        } else if i < b + p + f {
            assert(line[i] == style_off()[i - b - p]);
        } else if i < b + p + f + s {
            assert(line[i] == separator()[i - b - p - f]);
        } else if i < b + p + f + s + m {
            assert(line[i] == msg[i - b - p - f - s]);
        } else {
            assert(line[i] == newline()[i - b - p - f - s - m]);
        }
    }
}

} // verus!
