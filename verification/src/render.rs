//! The response text, line by line in the colours of the terminal.

use crate::fragment::fence;
use crate::text::{
    chars_of, lines, newline, split_lines, starts_with, string_of, texts, trim, trimmed,
};
use vstd::prelude::*;

verus! {

/// What a line of a response is shown as.
#[derive(Clone, Copy, Debug, PartialEq, Eq, Structural)]
pub enum LineKind {
    /// Nothing but whitespace.
    Blank,
    /// The marker of a code fragment.
    Fence,
    Heading,
    Bullet,
    Plain,
}

/// The kind of a line, by the start of its text without the whitespace
/// around it.
pub open spec fn line_kind(line: Seq<char>) -> LineKind {
    let t = trim(line);
    if t.len() == 0 {
        LineKind::Blank
    } else if fence().is_prefix_of(t) {
        LineKind::Fence
    } else if t[0] == '#' {
        LineKind::Heading
    } else if t[0] == '-' {
        LineKind::Bullet
    } else {
        LineKind::Plain
    }
}

/// The escape sequences that switch the style of a kind on.
pub open spec fn escape(kind: LineKind) -> Seq<char> {
    match kind {
        LineKind::Blank => Seq::empty(),
        LineKind::Fence => "\x1b[36m"@,
        LineKind::Heading => "\x1b[33m\x1b[1m"@,
        LineKind::Bullet => "\x1b[32m"@,
        LineKind::Plain => "\x1b[37m"@,
    }
}

/// The escape sequence that switches every style off.
pub open spec fn reset() -> Seq<char> {
    "\x1b[0m"@
}

/// Whether `out` is `line` in the style of `kind`: the line itself where
/// colours are off, and the line between the escape sequences of the
/// style where they are on.
pub open spec fn is_styled(kind: LineKind, line: Seq<char>, out: Seq<char>) -> bool {
    out == line || out == escape(kind) + line + reset()
}

/// Whether `piece` is what a line is shown as: a line feed for a blank
/// line, and for any other the line in the style of its kind, then a line
/// feed.
pub open spec fn shows(line: Seq<char>, piece: Seq<char>) -> bool {
    if line_kind(line) == LineKind::Blank {
        piece == newline()
    } else {
        exists|styled: Seq<char>| #[trigger]
            is_styled(line_kind(line), line, styled) && piece == styled + newline()
    }
}

/// `head`, then `piece`.
pub open spec fn followed_by(head: Seq<char>, piece: Seq<char>) -> Seq<char> {
    head + piece
}

/// Whether `out` shows `lines`, one after the other.
pub open spec fn is_formatted(lines: Seq<Seq<char>>, out: Seq<char>) -> bool
    decreases lines.len(),
{
    if lines.len() == 0 {
        out.len() == 0
    } else {
        exists|head: Seq<char>, piece: Seq<char>|
            is_formatted(lines.drop_last(), head) && shows(lines.last(), piece) && out
                == #[trigger] followed_by(head, piece)
    }
}

proof fn lemma_formatted_longer(lines: Seq<Seq<char>>, head: Seq<char>, piece: Seq<char>)
    requires
        lines.len() > 0,
        is_formatted(lines.drop_last(), head),
        shows(lines.last(), piece),
    ensures
        is_formatted(lines, head + piece),
{
    assert(head + piece == followed_by(head, piece));
}

/// `console::style(line).cyan()`, formatted. The crate writes the line
/// unchanged where colours are off for standard output, and between the
/// escape sequences for cyan and for reset where they are on.
#[verifier::external_body]
fn paint_cyan(line: &str) -> (out: String)
    ensures
        is_styled(LineKind::Fence, line@, out@),
{
    format!("{}", console::style(line).cyan())
}

/// `console::style(line).yellow().bold()`, formatted. The crate writes the
/// line unchanged where colours are off for standard output, and between
/// the escape sequences for yellow and bold and for reset where they are
/// on.
#[verifier::external_body]
fn paint_yellow_bold(line: &str) -> (out: String)
    ensures
        is_styled(LineKind::Heading, line@, out@),
{
    format!("{}", console::style(line).yellow().bold())
}

/// `console::style(line).green()`, formatted. The crate writes the line
/// unchanged where colours are off for standard output, and between the
/// escape sequences for green and for reset where they are on.
#[verifier::external_body]
fn paint_green(line: &str) -> (out: String)
    ensures
        is_styled(LineKind::Bullet, line@, out@),
{
    format!("{}", console::style(line).green())
}

/// `console::style(line).white()`, formatted. The crate writes the line
/// unchanged where colours are off for standard output, and between the
/// escape sequences for white and for reset where they are on.
#[verifier::external_body]
fn paint_white(line: &str) -> (out: String)
    ensures
        is_styled(LineKind::Plain, line@, out@),
{
    format!("{}", console::style(line).white())
}

/// The kind of a line.
pub fn kind_of(line: &[char]) -> (kind: LineKind)
    ensures
        kind == line_kind(line@),
{
    let t = trimmed(line);
    let mut marker: Vec<char> = Vec::new();
    marker.push('`');
    marker.push('`');
    marker.push('`');
    assert(marker@ == fence());
    if t.len() == 0 {
        LineKind::Blank
    } else if starts_with(t, marker.as_slice()) {
        LineKind::Fence
    } else if t[0] == '#' {
        LineKind::Heading
    } else if t[0] == '-' {
        LineKind::Bullet
    } else {
        LineKind::Plain
    }
}

/// Shows a response: each line in the style of its kind, a line feed
/// after each, and a blank line as a line feed alone. Whether the styles
/// are written as escape sequences is the terminal's matter, so the
/// result is stated for either case.
pub fn format_response(response: &str) -> (out: String)
    ensures
        is_formatted(lines(response@), out@),
{
    let chars = chars_of(response);
    let all = split_lines(chars.as_slice());
    let ghost ls = texts(all@);
    let mut formatted = String::new();
    let mut i: usize = 0;
    assert(ls.take(0).len() == 0);
    while i < all.len()
        invariant
            i <= all.len(),
            ls == texts(all@),
            ls == lines(response@),
            is_formatted(ls.take(i as int), formatted@),
        decreases all.len() - i,
    {
        let line = all[i].as_slice();
        let ghost head = formatted@;
        let text = string_of(line);
        let ghost mut shown: Seq<char> = Seq::empty();
        match kind_of(line) {
            LineKind::Blank => {
                formatted.push('\n');
            },
            LineKind::Fence => {
                let styled = paint_cyan(text.as_str());
                formatted.append(styled.as_str());
                formatted.push('\n');
                proof {
                    shown = styled@;
                }
            },
            LineKind::Heading => {
                let styled = paint_yellow_bold(text.as_str());
                formatted.append(styled.as_str());
                formatted.push('\n');
                proof {
                    shown = styled@;
                }
            },
            LineKind::Bullet => {
                let styled = paint_green(text.as_str());
                formatted.append(styled.as_str());
                formatted.push('\n');
                proof {
                    shown = styled@;
                }
            },
            LineKind::Plain => {
                let styled = paint_white(text.as_str());
                formatted.append(styled.as_str());
                formatted.push('\n');
                proof {
                    shown = styled@;
                }
            },
        }
        proof {
            let longer = ls.take(i + 1);
            let piece = formatted@.skip(head.len() as int);
            assert(ls.len() == all.len());
            assert(longer.len() == i + 1);
            assert(longer.drop_last() == ls.take(i as int));
            assert(longer.last() == line@);
            assert(formatted@ == head + piece);
            if line_kind(line@) == LineKind::Blank {
                assert(piece == newline());
            } else {
                assert(is_styled(line_kind(line@), line@, shown));
                assert(piece == shown + newline());
            }
            assert(shows(line@, piece));
            lemma_formatted_longer(longer, head, piece);
        }
        i += 1;
    }
    assert(ls.take(i as int) == ls);
    formatted
}

} // verus!
