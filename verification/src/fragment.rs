//! Code fragments in a response text: the fenced regions and their
//! language tags.

use crate::text::{
    chars_of, lines, newline, split_lines, starts_with, string_of, texts, trim, trimmed,
};
use vstd::prelude::*;
use vstd::slice::slice_subrange;

verus! {

/// A code fragment: its language tag and its source.
pub type CodeBlock = (String, String);

/// The marker that opens and closes a fragment.
pub open spec fn fence() -> Seq<char> {
    seq!['`', '`', '`']
}

/// Whether a line, without the whitespace around it, starts with the
/// marker.
pub open spec fn is_fence(line: Seq<char>) -> bool {
    fence().is_prefix_of(trim(line))
}

/// `s` without the markers at its start.
pub open spec fn strip_fences(s: Seq<char>) -> Seq<char>
    decreases s.len(),
{
    if fence().is_prefix_of(s) {
        strip_fences(s.skip(3))
    } else {
        s
    }
}

/// The language tag on an opening line: what follows its markers.
pub open spec fn fence_label(line: Seq<char>) -> Seq<char> {
    strip_fences(trim(line))
}

/// The lines put together, a line feed after each.
pub open spec fn join_lines(lines: Seq<Seq<char>>) -> Seq<char>
    decreases lines.len(),
{
    if lines.len() == 0 {
        Seq::empty()
    } else {
        lines[0] + newline() + join_lines(lines.drop_first())
    }
}

/// The index of the first line that starts with the marker.
pub open spec fn first_fence(lines: Seq<Seq<char>>) -> Option<int>
    decreases lines.len(),
{
    if lines.len() == 0 {
        None
    } else if is_fence(lines[0]) {
        Some(0)
    } else {
        match first_fence(lines.drop_first()) {
            Some(k) => Some(k + 1),
            None => None,
        }
    }
}

/// `first_fence` gives the least index of a marker line, and `None` where
/// no line starts with the marker.
pub proof fn lemma_first_fence(lines: Seq<Seq<char>>)
    ensures
        match first_fence(lines) {
            Some(k) => 0 <= k < lines.len() && is_fence(lines[k]) && forall|j: int|
                0 <= j < k ==> !is_fence(#[trigger] lines[j]),
            None => forall|j: int| 0 <= j < lines.len() ==> !is_fence(#[trigger] lines[j]),
        },
    decreases lines.len(),
{
    if lines.len() > 0 && !is_fence(lines[0]) {
        let rest = lines.drop_first();
        lemma_first_fence(rest);
        assert(forall|j: int| 0 < j < lines.len() ==> lines[j] == rest[j - 1]);
    }
}

/// The fragments among `lines`, each as its language tag and its source.
/// A fragment opens at a marker line and closes at the next one; its
/// source is the lines between them. A fragment that is never closed is
/// left out.
pub open spec fn blocks_in(lines: Seq<Seq<char>>) -> Seq<(Seq<char>, Seq<char>)>
    decreases lines.len(),
    via blocks_in_terminates
{
    match first_fence(lines) {
        None => Seq::empty(),
        Some(open) => {
            let body = lines.skip(open + 1);
            match first_fence(body) {
                None => Seq::empty(),
                Some(close) => seq![(fence_label(lines[open]), join_lines(body.take(close)))]
                    + blocks_in(body.skip(close + 1)),
            }
        },
    }
}

#[via_fn]
proof fn blocks_in_terminates(lines: Seq<Seq<char>>) {
    lemma_first_fence(lines);
    match first_fence(lines) {
        None => {},
        Some(open) => {
            lemma_first_fence(lines.skip(open + 1));
        },
    }
}

/// The fragments of a response text.
pub open spec fn code_blocks(response: Seq<char>) -> Seq<(Seq<char>, Seq<char>)> {
    blocks_in(lines(response))
}

/// The fragments that follow when a fragment with tag `label` is open and
/// `body` is its source so far.
pub open spec fn blocks_after_open(
    label: Seq<char>,
    body: Seq<char>,
    rest: Seq<Seq<char>>,
) -> Seq<(Seq<char>, Seq<char>)> {
    match first_fence(rest) {
        None => Seq::empty(),
        Some(close) => seq![(label, body + join_lines(rest.take(close)))] + blocks_in(
            rest.skip(close + 1),
        ),
    }
}

proof fn lemma_skip_plain_line(rest: Seq<Seq<char>>)
    requires
        rest.len() > 0,
        !is_fence(rest[0]),
    ensures
        blocks_in(rest) == blocks_in(rest.drop_first()),
{
    let tail = rest.drop_first();
    lemma_first_fence(tail);
    match first_fence(tail) {
        None => {},
        Some(k) => {
            assert(rest.skip(k + 2) == tail.skip(k + 1));
            assert(rest[k + 1] == tail[k]);
        },
    }
}

proof fn lemma_open_line(rest: Seq<Seq<char>>)
    requires
        rest.len() > 0,
        is_fence(rest[0]),
    ensures
        blocks_in(rest) == blocks_after_open(
            fence_label(rest[0]),
            Seq::empty(),
            rest.drop_first(),
        ),
{
    let body = rest.skip(1);
    assert(body == rest.drop_first());
    match first_fence(body) {
        None => {},
        Some(close) => {
            assert(Seq::<char>::empty() + join_lines(body.take(close)) == join_lines(
                body.take(close),
            ));
        },
    }
}

proof fn lemma_body_line(label: Seq<char>, body: Seq<char>, rest: Seq<Seq<char>>)
    requires
        rest.len() > 0,
        !is_fence(rest[0]),
    ensures
        blocks_after_open(label, body, rest) == blocks_after_open(
            label,
            body + rest[0] + newline(),
            rest.drop_first(),
        ),
{
    let tail = rest.drop_first();
    lemma_first_fence(tail);
    match first_fence(tail) {
        None => {},
        Some(k) => {
            assert(rest.skip(k + 2) == tail.skip(k + 1));
            assert(rest.take(k + 1).drop_first() == tail.take(k));
            assert(rest.take(k + 1)[0] == rest[0]);
            assert(body + (rest[0] + newline() + join_lines(tail.take(k))) == body + rest[0]
                + newline() + join_lines(tail.take(k)));
        },
    }
}

proof fn lemma_close_line(label: Seq<char>, body: Seq<char>, rest: Seq<Seq<char>>)
    requires
        rest.len() > 0,
        is_fence(rest[0]),
    ensures
        blocks_after_open(label, body, rest) == seq![(label, body)] + blocks_in(rest.drop_first()),
{
    assert(rest.take(0) == Seq::<Seq<char>>::empty());
    assert(body + join_lines(rest.take(0)) == body);
    assert(rest.skip(1) == rest.drop_first());
}

/// The tags and sources that the pairs of `v` hold.
pub open spec fn pairs(v: Seq<CodeBlock>) -> Seq<(Seq<char>, Seq<char>)> {
    v.map_values(|p: CodeBlock| (p.0@, p.1@))
}

/// The language tag on an opening line.
pub fn label_of(line: &[char]) -> (out: String)
    ensures
        out@ == fence_label(line@),
{
    let mut marker: Vec<char> = Vec::new();
    marker.push('`');
    marker.push('`');
    marker.push('`');
    assert(marker@ == fence());
    let mut t = trimmed(line);
    while starts_with(t, marker.as_slice())
        invariant
            marker@ == fence(),
            strip_fences(t@) == fence_label(line@),
        decreases t@.len(),
    {
        let length: usize = t.len();
        let shorter = slice_subrange(t, 3, length);
        assert(shorter@ == t@.skip(3));
        t = shorter;
    }
    string_of(t)
}

/// Extracts the code fragments of a response text, each as its language
/// tag and its source. The result holds the fragments in the order of the
/// text.
pub fn extract_code_blocks(response: &str) -> (out: Vec<CodeBlock>)
    ensures
        pairs(out@) == code_blocks(response@),
{
    let chars = chars_of(response);
    let all = split_lines(chars.as_slice());
    let ghost ls = texts(all@);
    let mut marker: Vec<char> = Vec::new();
    marker.push('`');
    marker.push('`');
    marker.push('`');
    assert(marker@ == fence());
    let mut blocks: Vec<CodeBlock> = Vec::new();
    let mut current = String::new();
    let mut lang = String::new();
    let mut in_block = false;
    let mut i: usize = 0;
    assert(ls.skip(0) == ls);
    assert(pairs(blocks@) == Seq::<(Seq<char>, Seq<char>)>::empty());
    while i < all.len()
        invariant
            i <= all.len(),
            ls == texts(all@),
            ls == lines(response@),
            marker@ == fence(),
            code_blocks(response@) == pairs(blocks@) + (if in_block {
                blocks_after_open(lang@, current@, ls.skip(i as int))
            } else {
                blocks_in(ls.skip(i as int))
            }),
        decreases all.len() - i,
    {
        let line = all[i].as_slice();
        let ghost rest = ls.skip(i as int);
        assert(rest[0] == line@);
        assert(rest.drop_first() == ls.skip(i + 1));
        if starts_with(trimmed(line), marker.as_slice()) {
            if in_block {
                proof {
                    lemma_close_line(lang@, current@, rest);
                    assert(pairs(blocks@.push((lang, current))) == pairs(blocks@).push(
                        (lang@, current@),
                    ));
                    assert(pairs(blocks@) + (seq![(lang@, current@)] + blocks_in(
                        rest.drop_first(),
                    )) == pairs(blocks@).push((lang@, current@)) + blocks_in(rest.drop_first()));
                }
                blocks.push((lang, current));
                current = String::new();
                lang = String::new();
                in_block = false;
            } else {
                proof {
                    lemma_open_line(rest);
                }
                in_block = true;
                lang = label_of(line);
                current = String::new();
            }
        } else if in_block {
            proof {
                lemma_body_line(lang@, current@, rest);
            }
            let ghost before = current@;
            let text = string_of(line);
            current.append(text.as_str());
            current.push('\n');
            assert(current@ == before + line@ + newline());
        } else {
            proof {
                lemma_skip_plain_line(rest);
            }
        }
        i += 1;
    }
    proof {
        assert(ls.skip(i as int).len() == 0);
        assert(first_fence(ls.skip(i as int)) is None);
        assert(pairs(blocks@) + Seq::<(Seq<char>, Seq<char>)>::empty() == pairs(blocks@));
    }
    blocks
}

} // verus!
