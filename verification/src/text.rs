//! Character-level text utilities with exact specifications.
//!
//! Texts are modelled as `Seq<char>`. The executable functions work on
//! `&[char]` and are specified by the spec functions of the same module.

use vstd::prelude::*;
use vstd::slice::{slice_subrange, slice_to_vec};
use vstd::std_specs::iter::IteratorSpec;

verus! {

broadcast use vstd::string::group_string_axioms;

/// `String::push` appends one character to the end of the string.
pub assume_specification[ String::push ](s: &mut String, c: char)
    ensures
        final(s)@ == old(s)@.push(c),
;

/// The characters of `s`, in order.
pub fn chars_of(s: &str) -> (out: Vec<char>)
    ensures
        out@ == s@,
{
    let mut out: Vec<char> = Vec::new();
    let mut it = s.chars();
    loop
        invariant
            out@ + it.remaining() == s@,
        ensures
            out@ == s@,
        decreases s@.len() - out@.len(),
    {
        match it.next() {
            Some(c) => {
                out.push(c);
            },
            None => {
                break ;
            },
        }
    }
    out
}

/// The text made of `chars`.
pub fn string_of(chars: &[char]) -> (out: String)
    ensures
        out@ == chars@,
{
    let mut out = String::new();
    let mut i: usize = 0;
    while i < chars.len()
        invariant
            i <= chars.len(),
            out@ == chars@.take(i as int),
        decreases chars.len() - i,
    {
        out.push(chars[i]);
        i += 1;
        assert(chars@.take(i as int) == chars@.take(i - 1).push(chars@[i - 1]));
    }
    assert(chars@.take(i as int) == chars@);
    out
}

/// Whether `c` has the Unicode property White_Space.
pub open spec fn is_whitespace(c: char) -> bool {
    let n = c as u32;
    ||| 0x09 <= n <= 0x0D
    ||| n == 0x20
    ||| n == 0x85
    ||| n == 0xA0
    ||| n == 0x1680
    ||| 0x2000 <= n <= 0x200A
    ||| n == 0x2028
    ||| n == 0x2029
    ||| n == 0x202F
    ||| n == 0x205F
    ||| n == 0x3000
}

/// Whether `c` is whitespace.
pub fn whitespace(c: char) -> (b: bool)
    ensures
        b == is_whitespace(c),
{
    let n: u32 = c as u32;
    (0x09 <= n && n <= 0x0D) || n == 0x20 || n == 0x85 || n == 0xA0 || n == 0x1680 || (0x2000 <= n
        && n <= 0x200A) || n == 0x2028 || n == 0x2029 || n == 0x202F || n == 0x205F || n == 0x3000
}

/// `c` with an ASCII capital letter replaced by its small letter.
pub open spec fn ascii_lower(c: char) -> char {
    if 'A' <= c <= 'Z' {
        ((c as u8) + 32) as char
    } else {
        c
    }
}

/// `c` in lowercase, where it is an ASCII capital letter.
pub fn to_ascii_lower(c: char) -> (out: char)
    ensures
        out == ascii_lower(c),
{
    if 'A' <= c && c <= 'Z' {
        let b: u8 = c as u8;
        (b + 32) as char
    } else {
        c
    }
}

/// `s` with every ASCII capital letter replaced by its small letter.
pub open spec fn lowercase(s: Seq<char>) -> Seq<char> {
    Seq::new(s.len(), |i: int| ascii_lower(s[i]))
}

/// `chars` with the ASCII capital letters in lowercase.
pub fn to_lowercase(chars: &[char]) -> (out: Vec<char>)
    ensures
        out@ == lowercase(chars@),
{
    let mut out: Vec<char> = Vec::new();
    let mut i: usize = 0;
    while i < chars.len()
        invariant
            i <= chars.len(),
            out@ == lowercase(chars@.take(i as int)),
        decreases chars.len() - i,
    {
        out.push(to_ascii_lower(chars[i]));
        i += 1;
        assert(lowercase(chars@.take(i as int)) == lowercase(chars@.take(i - 1)).push(
            ascii_lower(chars@[i - 1]),
        ));
    }
    assert(chars@.take(i as int) == chars@);
    out
}

/// Whether the two texts are the same.
pub fn equal(a: &[char], b: &[char]) -> (same: bool)
    ensures
        same == (a@ == b@),
{
    if a.len() != b.len() {
        return false;
    }
    let mut i: usize = 0;
    while i < a.len()
        invariant
            i <= a.len(),
            a.len() == b.len(),
            a@.take(i as int) == b@.take(i as int),
        decreases a.len() - i,
    {
        if a[i] != b[i] {
            return false;
        }
        i += 1;
        assert(a@.take(i as int) == a@.take(i - 1).push(a@[i - 1]));
        assert(b@.take(i as int) == b@.take(i - 1).push(b@[i - 1]));
    }
    assert(a@.take(i as int) == a@);
    assert(b@.take(i as int) == b@);
    true
}

/// Whether `chars` is exactly the literal `word`.
pub fn is_word(chars: &[char], word: &str) -> (same: bool)
    ensures
        same == (chars@ == word@),
{
    let w = chars_of(word);
    equal(chars, w.as_slice())
}

/// Whether `chars` begins with `prefix`.
pub fn starts_with(chars: &[char], prefix: &[char]) -> (b: bool)
    ensures
        b == prefix@.is_prefix_of(chars@),
{
    if prefix.len() > chars.len() {
        return false;
    }
    let head = slice_subrange(chars, 0, prefix.len());
    equal(head, prefix)
}

/// The number of whitespace characters at the start of `s`.
pub open spec fn leading_whitespace(s: Seq<char>) -> nat
    decreases s.len(),
{
    if s.len() > 0 && is_whitespace(s[0]) {
        1 + leading_whitespace(s.drop_first())
    } else {
        0
    }
}

/// The number of whitespace characters at the end of `s`.
pub open spec fn trailing_whitespace(s: Seq<char>) -> nat
    decreases s.len(),
{
    if s.len() > 0 && is_whitespace(s.last()) {
        1 + trailing_whitespace(s.drop_last())
    } else {
        0
    }
}

/// `s` without the whitespace at its start.
pub open spec fn trim_start(s: Seq<char>) -> Seq<char> {
    s.skip(leading_whitespace(s) as int)
}

/// `s` without the whitespace at its end.
pub open spec fn trim_end(s: Seq<char>) -> Seq<char> {
    s.take(s.len() - trailing_whitespace(s))
}

/// `s` without the whitespace at its start and at its end.
pub open spec fn trim(s: Seq<char>) -> Seq<char> {
    trim_end(trim_start(s))
}

/// Dropping one more leading whitespace character leaves one fewer to drop.
proof fn lemma_leading_step(s: Seq<char>, a: int)
    requires
        0 <= a < s.len(),
        is_whitespace(s[a]),
    ensures
        leading_whitespace(s.skip(a)) == 1 + leading_whitespace(s.skip(a + 1)),
{
    assert(s.skip(a).drop_first() == s.skip(a + 1));
}

proof fn lemma_trailing_step(s: Seq<char>, b: int)
    requires
        0 < b <= s.len(),
        is_whitespace(s[b - 1]),
    ensures
        trailing_whitespace(s.take(b)) == 1 + trailing_whitespace(s.take(b - 1)),
{
    assert(s.take(b).drop_last() == s.take(b - 1));
}

/// The trailing whitespace of a text is whitespace throughout and starts
/// after a character that is none.
pub proof fn lemma_trailing_bounds(s: Seq<char>)
    ensures
        trailing_whitespace(s) <= s.len(),
        trailing_whitespace(s) < s.len() ==> !is_whitespace(
            s[s.len() - trailing_whitespace(s) - 1],
        ),
        forall|i: int| s.len() - trailing_whitespace(s) <= i < s.len() ==> is_whitespace(s[i]),
    decreases s.len(),
{
    if s.len() > 0 && is_whitespace(s.last()) {
        let r = s.drop_last();
        lemma_trailing_bounds(r);
        assert(forall|i: int| 0 <= i < r.len() ==> s[i] == r[i]);
    }
}

/// What trimming leaves: the part of the text from its first to its last
/// character that is no whitespace, and nothing where there is none.
pub proof fn lemma_trim(s: Seq<char>)
    ensures
        ({
            let from = leading_whitespace(s) as int;
            let to = from + trim(s).len();
            &&& 0 <= from <= to <= s.len()
            &&& trim(s) == s.subrange(from, to)
            &&& forall|i: int| 0 <= i < from ==> is_whitespace(s[i])
            &&& forall|i: int| to <= i < s.len() ==> is_whitespace(s[i])
            &&& from < to ==> !is_whitespace(s[from]) && !is_whitespace(s[to - 1])
        }),
{
    lemma_leading_bounds(s);
    let rest = trim_start(s);
    lemma_trailing_bounds(rest);
    let from = leading_whitespace(s) as int;
    let to = from + trim(s).len();
    assert(trim(s) == s.subrange(from, to));
    assert forall|i: int| to <= i < s.len() implies is_whitespace(s[i]) by {
        assert(s[i] == rest[i - from]);
    }
    if from < to {
        assert(rest[0] == s[from]);
        assert(rest[to - from - 1] == s[to - 1]);
    }
}

/// The part of `chars` that is left when leading and trailing whitespace
/// is removed.
pub fn trimmed<'a>(chars: &'a [char]) -> (out: &'a [char])
    ensures
        out@ == trim(chars@),
{
    let mut a: usize = 0;
    assert(chars@.skip(0) == chars@);
    while a < chars.len() && whitespace(chars[a])
        invariant
            a <= chars.len(),
            leading_whitespace(chars@) == a + leading_whitespace(chars@.skip(a as int)),
        decreases chars.len() - a,
    {
        proof {
            lemma_leading_step(chars@, a as int);
        }
        a += 1;
    }
    let ghost rest = chars@.skip(a as int);
    assert(rest == trim_start(chars@));
    let mut b: usize = chars.len();
    assert(rest.take(b - a) == rest);
    while b > a && whitespace(chars[b - 1])
        invariant
            a <= b <= chars.len(),
            rest == chars@.skip(a as int),
            trailing_whitespace(rest) == (chars.len() - b) + trailing_whitespace(
                rest.take(b - a),
            ),
        decreases b,
    {
        proof {
            lemma_trailing_step(rest, b - a);
        }
        b -= 1;
    }
    assert(trailing_whitespace(rest.take(b - a)) == 0) by {
        if b > a {
            assert(rest.take(b - a).last() == chars@[b - 1]);
        }
    }
    assert(chars@.subrange(a as int, b as int) == rest.take(
        rest.len() - trailing_whitespace(rest),
    ));
    slice_subrange(chars, a, b)
}

/// Whether `pat` stands in `s` at position `i`.
pub open spec fn occurs_at(s: Seq<char>, pat: Seq<char>, i: int) -> bool {
    0 <= i && i + pat.len() <= s.len() && s.subrange(i, i + pat.len()) == pat
}

/// The first position at or after `from` where `pat` stands in `s`.
pub open spec fn find_from(s: Seq<char>, pat: Seq<char>, from: int) -> Option<int>
    decreases s.len() + 1 - from,
{
    if from < 0 || from + pat.len() > s.len() {
        None
    } else if occurs_at(s, pat, from) {
        Some(from)
    } else {
        find_from(s, pat, from + 1)
    }
}

/// The first position where `pat` stands in `s`.
pub open spec fn find(s: Seq<char>, pat: Seq<char>) -> Option<int> {
    find_from(s, pat, 0)
}

/// Whether `pat` stands somewhere in `s`.
pub open spec fn contains(s: Seq<char>, pat: Seq<char>) -> bool {
    find(s, pat) is Some
}

/// `find_from` returns the least position not before `from` at which the
/// pattern stands, and `None` exactly when there is no such position.
pub proof fn lemma_find_from(s: Seq<char>, pat: Seq<char>, from: int)
    requires
        0 <= from,
    ensures
        match find_from(s, pat, from) {
            Some(i) => from <= i && occurs_at(s, pat, i) && forall|j: int|
                from <= j < i ==> !occurs_at(s, pat, j),
            None => forall|j: int| from <= j ==> !occurs_at(s, pat, j),
        },
    decreases s.len() + 1 - from,
{
    if from + pat.len() > s.len() {
    } else if occurs_at(s, pat, from) {
    } else {
        lemma_find_from(s, pat, from + 1);
    }
}

/// `find` returns the least position at which the pattern stands, and
/// `None` exactly when it stands nowhere.
pub proof fn lemma_find(s: Seq<char>, pat: Seq<char>)
    ensures
        match find(s, pat) {
            Some(i) => occurs_at(s, pat, i) && forall|j: int| 0 <= j < i ==> !occurs_at(s, pat, j),
            None => forall|j: int| !occurs_at(s, pat, j),
        },
        contains(s, pat) <==> exists|j: int| occurs_at(s, pat, j),
{
    lemma_find_from(s, pat, 0);
}

/// The first position where `pat` stands in `chars`, counted in
/// characters.
pub fn find_text(chars: &[char], pat: &[char]) -> (at: Option<usize>)
    ensures
        match at {
            Some(i) => find(chars@, pat@) == Some(i as int),
            None => find(chars@, pat@) is None,
        },
{
    if pat.len() > chars.len() {
        return None;
    }
    if pat.len() == 0 {
        assert(chars@.subrange(0, 0) == pat@);
        return Some(0);
    }
    let last: usize = chars.len() - pat.len();
    let mut i: usize = 0;
    while i <= last
        invariant
            i <= last + 1,
            0 < pat.len() <= chars.len(),
            last == chars.len() - pat.len(),
            find(chars@, pat@) == find_from(chars@, pat@, i as int),
        decreases last + 1 - i,
    {
        let window = slice_subrange(chars, i, i + pat.len());
        if equal(window, pat) {
            return Some(i);
        }
        i += 1;
    }
    None
}

/// Whether the literal `word` stands somewhere in `chars`.
pub fn contains_word(chars: &[char], word: &str) -> (found: bool)
    ensures
        found == contains(chars@, word@),
{
    let w = chars_of(word);
    find_text(chars, w.as_slice()).is_some()
}

/// The texts that the vectors of `v` hold.
pub open spec fn texts(v: Seq<Vec<char>>) -> Seq<Seq<char>> {
    v.map_values(|x: Vec<char>| x@)
}

/// The number of characters at the start of `s` that are no whitespace.
pub open spec fn leading_text(s: Seq<char>) -> nat
    decreases s.len(),
{
    if s.len() > 0 && !is_whitespace(s[0]) {
        1 + leading_text(s.drop_first())
    } else {
        0
    }
}

/// The leading whitespace of a text is whitespace throughout and ends
/// before a character that is none; likewise the leading characters that
/// are no whitespace.
pub proof fn lemma_leading_bounds(s: Seq<char>)
    ensures
        leading_whitespace(s) <= s.len(),
        leading_text(s) <= s.len(),
        leading_whitespace(s) < s.len() ==> !is_whitespace(s[leading_whitespace(s) as int]),
        leading_text(s) < s.len() ==> is_whitespace(s[leading_text(s) as int]),
        forall|i: int| 0 <= i < leading_whitespace(s) ==> is_whitespace(s[i]),
        forall|i: int| 0 <= i < leading_text(s) ==> !is_whitespace(s[i]),
    decreases s.len(),
{
    if s.len() > 0 {
        let r = s.drop_first();
        lemma_leading_bounds(r);
        assert(forall|i: int| 0 < i < s.len() ==> s[i] == r[i - 1]);
    }
}

/// The maximal runs of characters of `s` that hold no whitespace, in order.
pub open spec fn tokens(s: Seq<char>) -> Seq<Seq<char>>
    decreases s.len(),
    via tokens_terminates
{
    let t = trim_start(s);
    if t.len() == 0 {
        Seq::empty()
    } else {
        let n = leading_text(t);
        seq![t.take(n as int)] + tokens(t.skip(n as int))
    }
}

#[via_fn]
proof fn tokens_terminates(s: Seq<char>) {
    lemma_leading_bounds(s);
    let t = trim_start(s);
    lemma_leading_bounds(t);
    if t.len() > 0 {
        assert(t[0] == s[leading_whitespace(s) as int]);
        assert(leading_text(t) > 0);
    }
}

proof fn lemma_text_step(s: Seq<char>, a: int)
    requires
        0 <= a < s.len(),
        !is_whitespace(s[a]),
    ensures
        leading_text(s.skip(a)) == 1 + leading_text(s.skip(a + 1)),
{
    assert(s.skip(a).drop_first() == s.skip(a + 1));
}

/// The pieces of `chars` between runs of whitespace.
pub fn split_whitespace(chars: &[char]) -> (out: Vec<Vec<char>>)
    ensures
        texts(out@) == tokens(chars@),
{
    let mut out: Vec<Vec<char>> = Vec::new();
    let mut i: usize = 0;
    assert(chars@.skip(0) == chars@);
    loop
        invariant
            i <= chars.len(),
            tokens(chars@) == texts(out@) + tokens(chars@.skip(i as int)),
        ensures
            texts(out@) == tokens(chars@),
        decreases chars.len() - i,
    {
        let ghost rest = chars@.skip(i as int);
        let mut a: usize = i;
        assert(rest.skip(0) == rest);
        while a < chars.len() && whitespace(chars[a])
            invariant
                i <= a <= chars.len(),
                rest == chars@.skip(i as int),
                leading_whitespace(rest) == (a - i) + leading_whitespace(chars@.skip(a as int)),
            decreases chars.len() - a,
        {
            proof {
                lemma_leading_step(chars@, a as int);
            }
            a += 1;
        }
        let ghost t = chars@.skip(a as int);
        assert(t == trim_start(rest));
        if a == chars.len() {
            break ;
        }
        let mut b: usize = a;
        assert(t.skip(0) == t);
        while b < chars.len() && !whitespace(chars[b])
            invariant
                a <= b <= chars.len(),
                t == chars@.skip(a as int),
                leading_text(t) == (b - a) + leading_text(chars@.skip(b as int)),
            decreases chars.len() - b,
        {
            proof {
                lemma_text_step(chars@, b as int);
            }
            b += 1;
        }
        assert(leading_text(t) == b - a);
        let piece = slice_to_vec(slice_subrange(chars, a, b));
        proof {
            assert(piece@ == t.take(b - a));
            assert(t.skip(b - a) == chars@.skip(b as int));
            assert(texts(out@.push(piece)) == texts(out@).push(piece@));
            assert(texts(out@) + (seq![piece@] + tokens(chars@.skip(b as int))) == texts(
                out@,
            ).push(piece@) + tokens(chars@.skip(b as int)));
        }
        out.push(piece);
        i = b;
    }
    out
}

/// Whether `c` is a decimal digit.
pub open spec fn is_digit(c: char) -> bool {
    '0' <= c <= '9'
}

/// The number that a decimal digit stands for.
pub open spec fn digit_value(c: char) -> nat {
    (c as u32 - '0' as u32) as nat
}

/// Whether `s` holds decimal digits only.
pub open spec fn all_digits(s: Seq<char>) -> bool {
    forall|i: int| 0 <= i < s.len() ==> is_digit(#[trigger] s[i])
}

/// The number that the decimal digits of `s` write.
pub open spec fn decimal_value(s: Seq<char>) -> nat
    decreases s.len(),
{
    if s.len() == 0 {
        0
    } else {
        decimal_value(s.drop_last()) * 10 + digit_value(s.last())
    }
}

/// What a text means as a 16-bit unsigned number: an optional `+`, then
/// one or more decimal digits whose value is at most 65535.
pub open spec fn parse_u16(s: Seq<char>) -> Option<u16> {
    let digits = if s.len() > 0 && s[0] == '+' {
        s.drop_first()
    } else {
        s
    };
    if digits.len() > 0 && all_digits(digits) && decimal_value(digits) <= 0xFFFF {
        Some(decimal_value(digits) as u16)
    } else {
        None
    }
}

/// A longer digit string is worth at least as much as each of its prefixes.
proof fn lemma_decimal_grows(s: Seq<char>, n: int)
    requires
        0 <= n <= s.len(),
    ensures
        decimal_value(s.take(n)) <= decimal_value(s),
    decreases s.len(),
{
    if n == s.len() {
        assert(s.take(n) == s);
    } else {
        assert(s.drop_last().take(n) == s.take(n));
        lemma_decimal_grows(s.drop_last(), n);
    }
}

/// Reads a text as a 16-bit unsigned number.
pub fn to_u16(chars: &[char]) -> (out: Option<u16>)
    ensures
        out == parse_u16(chars@),
{
    let start: usize = if chars.len() > 0 && chars[0] == '+' {
        1
    } else {
        0
    };
    let ghost digits = if chars@.len() > 0 && chars@[0] == '+' {
        chars@.drop_first()
    } else {
        chars@
    };
    assert(digits == chars@.skip(start as int));
    if start == chars.len() {
        return None;
    }
    let mut value: u16 = 0;
    let mut i: usize = start;
    assert(digits.take(0) == Seq::<char>::empty());
    while i < chars.len()
        invariant
            start <= i <= chars.len(),
            start < chars.len(),
            digits == chars@.skip(start as int),
            digits == if chars@.len() > 0 && chars@[0] == '+' {
                chars@.drop_first()
            } else {
                chars@
            },
            all_digits(digits.take(i - start)),
            value == decimal_value(digits.take(i - start)),
        decreases chars.len() - i,
    {
        let c = chars[i];
        let ghost next = digits.take(i - start + 1);
        assert(next.drop_last() == digits.take(i - start));
        assert(next.last() == c);
        if !('0' <= c && c <= '9') {
            assert(!is_digit(digits[i - start]));
            return None;
        }
        let d: u16 = (c as u32 - '0' as u32) as u16;
        if value > 6553 || (value == 6553 && d > 5) {
            proof {
                assert(decimal_value(next) == value * 10 + d);
                lemma_decimal_grows(digits, i - start + 1);
            }
            return None;
        }
        value = value * 10 + d;
        i += 1;
    }
    assert(digits.take(i - start) == digits);
    Some(value)
}

/// The decimal digit that stands for `d`.
pub open spec fn digit_char(d: nat) -> char {
    (('0' as u32) + d) as char
}

/// The decimal digits of `n`, without leading zeros.
pub open spec fn decimal(n: nat) -> Seq<char>
    decreases n,
{
    if n < 10 {
        seq![digit_char(n)]
    } else {
        decimal(n / 10).push(digit_char(n % 10))
    }
}

/// Appends the decimal digits of `n` to `out`.
pub fn push_decimal(out: &mut Vec<char>, n: u16)
    ensures
        final(out)@ == old(out)@ + decimal(n as nat),
    decreases n,
{
    if n >= 10 {
        push_decimal(out, n / 10);
    }
    let d: u8 = (n % 10) as u8;
    out.push((48u8 + d) as char);
    assert(out@ == old(out)@ + decimal(n as nat));
}

/// Reading the decimal digits of a 16-bit number gives the number back.
pub proof fn lemma_decimal_round_trip(n: nat)
    requires
        n <= 0xFFFF,
    ensures
        parse_u16(decimal(n)) == Some(n as u16),
{
    lemma_decimal_digits(n);
}

proof fn lemma_decimal_digits(n: nat)
    ensures
        decimal(n).len() > 0,
        all_digits(decimal(n)),
        decimal_value(decimal(n)) == n,
    decreases n,
{
    assert(digit_value(digit_char(n % 10)) == n % 10);
    if n < 10 {
        assert(decimal(n).drop_last() == Seq::<char>::empty());
        assert(decimal_value(Seq::<char>::empty()) == 0);
        assert(decimal(n).last() == digit_char(n));
    } else {
        lemma_decimal_digits(n / 10);
        assert(decimal(n).drop_last() == decimal(n / 10));
        assert(decimal(n).last() == digit_char(n % 10));
    }
}

/// A line feed.
pub open spec fn newline() -> Seq<char> {
    seq!['\n']
}

/// `line` without one carriage return at its end.
pub open spec fn strip_carriage_return(line: Seq<char>) -> Seq<char> {
    if line.len() > 0 && line.last() == '\r' {
        line.drop_last()
    } else {
        line
    }
}

/// The lines of `s`. A line ends at a line feed, or at the end of the text;
/// the line feed and a carriage return just before it are no part of the
/// line, and an empty rest after the last line feed is no line.
pub open spec fn lines(s: Seq<char>) -> Seq<Seq<char>>
    decreases s.len(),
    via lines_terminates
{
    if s.len() == 0 {
        Seq::empty()
    } else {
        match find(s, newline()) {
            None => seq![s],
            Some(k) => seq![strip_carriage_return(s.take(k))] + lines(s.skip(k + 1)),
        }
    }
}

#[via_fn]
proof fn lines_terminates(s: Seq<char>) {
    lemma_find(s, newline());
}

/// The lines of `chars`.
pub fn split_lines(chars: &[char]) -> (out: Vec<Vec<char>>)
    ensures
        texts(out@) == lines(chars@),
{
    let mut out: Vec<Vec<char>> = Vec::new();
    let mut pattern: Vec<char> = Vec::new();
    pattern.push('\n');
    let mut start: usize = 0;
    assert(chars@.skip(0) == chars@);
    while start < chars.len()
        invariant
            start <= chars.len(),
            pattern@ == newline(),
            lines(chars@) == texts(out@) + lines(chars@.skip(start as int)),
        decreases chars.len() - start,
    {
        let rest = slice_subrange(chars, start, chars.len());
        assert(rest@ == chars@.skip(start as int));
        proof {
            lemma_find(rest@, newline());
        }
        match find_text(rest, pattern.as_slice()) {
            None => {
                let piece = slice_to_vec(rest);
                proof {
                    assert(texts(out@.push(piece)) == texts(out@).push(piece@));
                    assert(chars@.skip(chars.len() as int).len() == 0);
                }
                out.push(piece);
                start = chars.len();
            },
            Some(k) => {
                let end: usize = if k > 0 && rest[k - 1] == '\r' {
                    k - 1
                } else {
                    k
                };
                let piece = slice_to_vec(slice_subrange(rest, 0, end));
                proof {
                    assert(rest@.take(k as int).len() == k);
                    assert(k > 0 ==> rest@.take(k as int).last() == rest@[k - 1]);
                    assert(piece@ == strip_carriage_return(rest@.take(k as int)));
                    assert(rest@.skip(k + 1) == chars@.skip(start + k + 1));
                    assert(texts(out@.push(piece)) == texts(out@).push(piece@));
                    assert(texts(out@) + (seq![piece@] + lines(rest@.skip(k + 1))) == texts(
                        out@,
                    ).push(piece@) + lines(rest@.skip(k + 1)));
                }
                out.push(piece);
                start = start + k + 1;
            },
        }
    }
    out
}

} // verus!
