//! Text as sequences of characters: the few string operations the registry
//! needs, each with an exact contract over `Seq<char>`.

use vstd::prelude::*;

verus! {

/// The pieces of `s` between occurrences of `sep`, in order.
///
/// There is always at least one piece; a separator at the very start or end,
/// or two separators in a row, give an empty piece.
pub open spec fn split_on(s: Seq<char>, sep: char) -> Seq<Seq<char>>
    decreases s.len(),
{
    if s.len() == 0 {
        seq![Seq::<char>::empty()]
    } else if s.last() == sep {
        split_on(s.drop_last(), sep).push(Seq::<char>::empty())
    } else {
        let before = split_on(s.drop_last(), sep);
        before.drop_last().push(before.last().push(s.last()))
    }
}

/// The character that stands for the decimal digit `d`.
pub open spec fn digit(d: int) -> char {
    if d == 0 {
        '0'
    } else if d == 1 {
        '1'
    } else if d == 2 {
        '2'
    } else if d == 3 {
        '3'
    } else if d == 4 {
        '4'
    } else if d == 5 {
        '5'
    } else if d == 6 {
        '6'
    } else if d == 7 {
        '7'
    } else if d == 8 {
        '8'
    } else {
        '9'
    }
}

/// The decimal numeral of `n`, without leading zeros.
pub open spec fn decimal(n: nat) -> Seq<char>
    decreases n,
{
    if n < 10 {
        seq![digit(n as int)]
    } else {
        decimal(n / 10).push(digit((n % 10) as int))
    }
}

/// A line without the carriage return that may end it.
pub open spec fn strip_cr(line: Seq<char>) -> Seq<char> {
    if line.len() > 0 && line.last() == '\r' {
        line.drop_last()
    } else {
        line
    }
}

/// The lines of a text: its pieces between line feeds, each without the
/// carriage return that may end it. What follows the last line feed is a line
/// only if it is not empty, so an empty text has no lines.
pub open spec fn lines_of(text: Seq<char>) -> Seq<Seq<char>> {
    let pieces = split_on(text, '\n');
    let kept = if pieces.last().len() == 0 {
        pieces.drop_last()
    } else {
        pieces
    };
    Seq::new(kept.len(), |i: int| strip_cr(kept[i]))
}

/// The view of an optional text.
pub open spec fn text_view(text: Option<String>) -> Option<Seq<char>> {
    match text {
        Some(s) => Some(s@),
        None => None,
    }
}

/// `split_on` always yields at least one piece.
pub proof fn lemma_split_on_nonempty(s: Seq<char>, sep: char)
    ensures
        split_on(s, sep).len() >= 1,
    decreases s.len(),
{
    if s.len() > 0 {
        lemma_split_on_nonempty(s.drop_last(), sep);
    }
}

/// Appends one character to a string, by `String::push`: afterwards the string
/// holds what it held before, followed by `c`.
#[verifier::external_body]
pub(crate) fn push_char(s: &mut String, c: char)
    ensures
        final(s)@ == old(s)@.push(c),
{
    s.push(c)
}

/// The characters of `s`, in order.
pub fn chars_of(s: &str) -> (v: Vec<char>)
    ensures
        v@ == s@,
{
    let mut v: Vec<char> = Vec::new();
    for c in it: s.chars()
        invariant
            v@ == s@.take(it.index() as int),
            it.seq() == s@,
    {
        v.push(c);
    }
    v
}

/// The string made of the characters `chars[from..to]`.
pub fn text_of(chars: &Vec<char>, from: usize, to: usize) -> (s: String)
    requires
        from <= to <= chars.len(),
    ensures
        s@ == chars@.subrange(from as int, to as int),
{
    let mut s = String::new();
    let mut i: usize = from;
    while i < to
        invariant
            from <= i <= to <= chars.len(),
            s@ == chars@.subrange(from as int, i as int),
        decreases to - i,
    {
        push_char(&mut s, chars[i]);
        i = i + 1;
    }
    s
}

/// An owned copy of `s`.
pub fn owned(s: &str) -> (r: String)
    ensures
        r@ == s@,
{
    s.to_owned()
}

/// Whether two texts hold the same characters.
pub fn same_text(a: &str, b: &str) -> (r: bool)
    ensures
        r == (a@ == b@),
{
    let x = chars_of(a);
    let y = chars_of(b);
    if x.len() != y.len() {
        return false;
    }
    let mut i: usize = 0;
    while i < x.len()
        invariant
            i <= x.len(),
            x.len() == y.len(),
            x@ == a@,
            y@ == b@,
            x@.take(i as int) == y@.take(i as int),
        decreases x.len() - i,
    {
        if x[i] != y[i] {
            return false;
        }
        assert(x@.take(i + 1) =~= x@.take(i as int).push(x@[i as int]));
        assert(y@.take(i + 1) =~= y@.take(i as int).push(y@[i as int]));
        i = i + 1;
    }
    assert(x@ =~= x@.take(x.len() as int));
    assert(y@ =~= y@.take(y.len() as int));
    true
}

/// Whether `text` begins with `prefix`.
pub fn starts_with(text: &str, prefix: &str) -> (r: bool)
    ensures
        r == prefix@.is_prefix_of(text@),
{
    let t = chars_of(text);
    let p = chars_of(prefix);
    if p.len() > t.len() {
        return false;
    }
    let mut i: usize = 0;
    while i < p.len()
        invariant
            i <= p.len() <= t.len(),
            t@ == text@,
            p@ == prefix@,
            forall|j: int| 0 <= j < i ==> t@[j] == p@[j],
        decreases p.len() - i,
    {
        if t[i] != p[i] {
            assert(t@.subrange(0, p.len() as int)[i as int] != p@[i as int]);
            return false;
        }
        i = i + 1;
    }
    assert(p@ =~= t@.subrange(0, p.len() as int));
    true
}

/// Whether `text` ends with `suffix`.
pub fn ends_with(text: &str, suffix: &str) -> (r: bool)
    ensures
        r == suffix@.is_suffix_of(text@),
{
    let t = chars_of(text);
    let s = chars_of(suffix);
    if s.len() > t.len() {
        return false;
    }
    let off: usize = t.len() - s.len();
    let mut i: usize = 0;
    while i < s.len()
        invariant
            i <= s.len() <= t.len(),
            off == t.len() - s.len(),
            t@ == text@,
            s@ == suffix@,
            forall|j: int| 0 <= j < i ==> t@[off + j] == s@[j],
        decreases s.len() - i,
    {
        if t[off + i] != s[i] {
            assert(t@.subrange(off as int, t.len() as int)[i as int] != s@[i as int]);
            return false;
        }
        i = i + 1;
    }
    assert(s@ =~= t@.subrange(off as int, t.len() as int));
    true
}

/// `text` without its first `n` characters.
pub fn skip_chars(text: &str, n: usize) -> (r: String)
    requires
        n <= text@.len(),
    ensures
        r@ == text@.skip(n as int),
{
    let t = chars_of(text);
    text_of(&t, n, t.len())
}

/// `text` without its last `n` characters.
pub fn drop_chars(text: &str, n: usize) -> (r: String)
    requires
        n <= text@.len(),
    ensures
        r@ == text@.take(text@.len() - n),
{
    let t = chars_of(text);
    text_of(&t, 0, t.len() - n)
}

/// Splits `text` at every `sep`.
pub fn split(text: &str, sep: char) -> (parts: Vec<String>)
    ensures
        parts.deep_view() == split_on(text@, sep),
{
    let mut parts: Vec<String> = Vec::new();
    let mut piece = String::new();
    for c in it: text.chars()
        invariant
            it.seq() == text@,
            parts.deep_view().push(piece@) == split_on(text@.take(it.index() as int), sep),
    {
        let ghost k = it.index() as int;
        let ghost before = split_on(text@.take(k), sep);
        proof {
            assert(text@.take(k + 1).drop_last() =~= text@.take(k));
            assert(text@.take(k + 1).last() == c);
        }
        if c == sep {
            let ghost old_parts = parts.deep_view();
            let ghost old_piece = piece@;
            parts.push(piece);
            piece = String::new();
            assert(parts.deep_view() =~= old_parts.push(old_piece));
        } else {
            let ghost old_piece = piece@;
            push_char(&mut piece, c);
            assert(before.drop_last() =~= parts.deep_view());
            assert(before.last() == old_piece);
        }
    }
    let ghost old_parts = parts.deep_view();
    assert(text@.take(text@.len() as int) =~= text@);
    parts.push(piece);
    assert(parts.deep_view() =~= old_parts.push(piece@));
    parts
}

/// The character of one decimal digit.
pub fn digit_char(d: u8) -> (c: char)
    requires
        d < 10,
    ensures
        c == digit(d as int),
{
    if d == 0 {
        '0'
    } else if d == 1 {
        '1'
    } else if d == 2 {
        '2'
    } else if d == 3 {
        '3'
    } else if d == 4 {
        '4'
    } else if d == 5 {
        '5'
    } else if d == 6 {
        '6'
    } else if d == 7 {
        '7'
    } else if d == 8 {
        '8'
    } else {
        '9'
    }
}

/// Appends the decimal numeral of `n` to `out`.
pub fn push_decimal(out: &mut String, n: u64)
    ensures
        final(out)@ == old(out)@ + decimal(n as nat),
    decreases n,
{
    if n >= 10 {
        push_decimal(out, n / 10);
    }
    push_char(out, digit_char((n % 10) as u8));
    proof {
        if n >= 10 {
            assert(old(out)@ + decimal(n as nat) =~= (old(out)@ + decimal((n / 10) as nat)).push(
                digit((n % 10) as int),
            ));
        } else {
            assert(old(out)@ + decimal(n as nat) =~= old(out)@.push(digit(n as int)));
        }
    }
}

/// The lines of `text`.
pub fn lines(text: &str) -> (r: Vec<String>)
    ensures
        r.deep_view() == lines_of(text@),
{
    let mut pieces = split(text, '\n');
    proof {
        lemma_split_on_nonempty(text@, '\n');
    }
    let ghost all = pieces.deep_view();
    let n = pieces.len();
    let keep: usize = if pieces[n - 1].as_str().is_empty() {
        n - 1
    } else {
        n
    };
    let ghost kept = if all.last().len() == 0 {
        all.drop_last()
    } else {
        all
    };
    let mut r: Vec<String> = Vec::new();
    let mut i: usize = 0;
    while i < keep
        invariant
            i <= keep <= pieces.len(),
            pieces.deep_view() == all,
            kept.len() == keep,
            forall|j: int| 0 <= j < keep ==> kept[j] == all[j],
            r.len() == i,
            forall|j: int| 0 <= j < i ==> r@[j]@ == strip_cr(kept[j]),
        decreases keep - i,
    {
        let line = chars_of(pieces[i].as_str());
        assert(line@ == all[i as int]);
        let len = line.len();
        let end: usize = if len > 0 && line[len - 1] == '\r' {
            len - 1
        } else {
            len
        };
        let stripped = text_of(&line, 0, end);
        assert(stripped@ =~= strip_cr(line@));
        r.push(stripped);
        i = i + 1;
    }
    assert(r.deep_view() =~= lines_of(text@));
    r
}

} // verus!
