//! Characters and white space.

use vstd::prelude::*;

verus! {

/// Whether the character is white space: one of the twenty-five characters
/// that Unicode gives the property White_Space. These are the tab, the line
/// feed, the vertical tab, the form feed and the carriage return, the space,
/// the next-line control, the no-break space, the Ogham space mark, the spaces
/// from U+2000 to U+200A, the line and the paragraph separator, the narrow
/// no-break space, the medium mathematical space and the ideographic space.
pub open spec fn white_space(c: char) -> bool {
    let code = c as u32;
    0x09 <= code <= 0x0D || code == 0x20 || code == 0x85 || code == 0xA0 || code == 0x1680
        || 0x2000 <= code <= 0x200A || code == 0x2028 || code == 0x2029 || code == 0x202F
        || code == 0x205F || code == 0x3000
}

/// Whether the character is white space.
pub fn is_white_space(c: char) -> (white: bool)
    ensures
        white == white_space(c),
{
    let code = c as u32;
    (0x09 <= code && code <= 0x0D) || code == 0x20 || code == 0x85 || code == 0xA0 || code
        == 0x1680 || (0x2000 <= code && code <= 0x200A) || code == 0x2028 || code == 0x2029
        || code == 0x202F || code == 0x205F || code == 0x3000
}

/// The characters without the white space that they begin with.
pub open spec fn trim_start(s: Seq<char>) -> Seq<char>
    decreases s.len(),
{
    if s.len() > 0 && white_space(s.first()) {
        trim_start(s.drop_first())
    } else {
        s
    }
}

/// The characters without the white space that they end with.
pub open spec fn trim_end(s: Seq<char>) -> Seq<char>
    decreases s.len(),
{
    if s.len() > 0 && white_space(s.last()) {
        trim_end(s.drop_last())
    } else {
        s
    }
}

/// The characters without the white space at either end.
pub open spec fn trimmed(s: Seq<char>) -> Seq<char> {
    trim_end(trim_start(s))
}

/// What is left once the white space at the beginning is left out is the end of
/// the text, and begins with no white space.
pub proof fn lemma_trim_start_is_a_tail(s: Seq<char>)
    ensures
        trim_start(s).len() <= s.len(),
        trim_start(s) == s.skip(s.len() - trim_start(s).len()),
        trim_start(s).len() > 0 ==> !white_space(trim_start(s).first()),
    decreases s.len(),
{
    if s.len() > 0 && white_space(s.first()) {
        let rest = s.drop_first();
        lemma_trim_start_is_a_tail(rest);
        assert(rest.skip(rest.len() - trim_start(rest).len()) =~= s.skip(
            s.len() - trim_start(s).len(),
        ));
    } else {
        assert(s.skip(0) =~= s);
    }
}

/// What is left once the white space at the end is left out is the beginning of
/// the text, and ends with no white space.
pub proof fn lemma_trim_end_is_a_head(s: Seq<char>)
    ensures
        trim_end(s).len() <= s.len(),
        trim_end(s) == s.take(trim_end(s).len() as int),
        trim_end(s).len() > 0 ==> !white_space(trim_end(s).last()),
    decreases s.len(),
{
    if s.len() > 0 && white_space(s.last()) {
        let rest = s.drop_last();
        lemma_trim_end_is_a_head(rest);
        assert(rest.take(trim_end(rest).len() as int) =~= s.take(trim_end(s).len() as int));
    } else {
        assert(s.take(s.len() as int) =~= s);
    }
}

/// A trimmed text is a piece of the text it was made from: what stands between
/// two places of it. It neither begins nor ends with white space.
pub proof fn law_trimmed_is_a_bare_piece(s: Seq<char>)
    ensures
        exists|from: int, to: int|
            0 <= from <= to <= s.len() && trimmed(s) == #[trigger] s.subrange(from, to),
        trimmed(s).len() > 0 ==> !white_space(trimmed(s).first()) && !white_space(
            trimmed(s).last(),
        ),
{
    let tail = trim_start(s);
    lemma_trim_start_is_a_tail(s);
    lemma_trim_end_is_a_head(tail);
    let from = s.len() - tail.len();
    let to = from + trimmed(s).len();
    assert(trimmed(s) =~= s.subrange(from, to));
    if trimmed(s).len() > 0 {
        assert(trimmed(s).first() == tail.first());
    }
}

/// The upper-case form of an ASCII letter; any other character as it is.
pub open spec fn ascii_upper(c: char) -> char {
    if 'a' <= c <= 'z' {
        ((c as int) - 32) as char
    } else {
        c
    }
}

/// The characters with every ASCII letter in upper case.
pub open spec fn ascii_uppercase(s: Seq<char>) -> Seq<char> {
    s.map_values(|c: char| ascii_upper(c))
}

/// The characters of a string.
pub fn chars_of(s: &str) -> (chars: Vec<char>)
    ensures
        chars@ == s@,
{
    let mut chars: Vec<char> = Vec::new();
    for c in it: s.chars()
        invariant
            it.seq() == s@,
            chars@ == it.seq().take(it.index() as int),
    {
        chars.push(c);
        assert(it.seq().take(it.index() + 1) =~= it.seq().take(it.index() as int).push(c));
    }
    assert(s@.take(s@.len() as int) =~= s@);
    chars
}

/// The upper-case form of an ASCII letter; any other character as it is.
pub fn to_ascii_upper(c: char) -> (upper: char)
    ensures
        upper == ascii_upper(c),
{
    if 'a' <= c && c <= 'z' {
        ((c as u8) - 32) as char
    } else {
        c
    }
}

/// The characters with every ASCII letter in upper case.
pub fn to_ascii_uppercase(chars: &Vec<char>) -> (upper: Vec<char>)
    ensures
        upper@ == ascii_uppercase(chars@),
{
    let mut upper: Vec<char> = Vec::new();
    let mut i: usize = 0;
    while i < chars.len()
        invariant
            i <= chars.len(),
            upper@.len() == i,
            forall|k: int| 0 <= k < i ==> upper@[k] == ascii_upper(chars@[k]),
        decreases chars.len() - i,
    {
        upper.push(to_ascii_upper(chars[i]));
        i += 1;
    }
    assert(upper@ =~= ascii_uppercase(chars@));
    upper
}

/// Where the characters from `from` up to `to` begin and end once the white
/// space at either end is left out.
pub fn trim_bounds(chars: &Vec<char>, from: usize, to: usize) -> (bounds: (usize, usize))
    requires
        from <= to <= chars@.len(),
    ensures
        from <= bounds.0 <= bounds.1 <= to,
        chars@.subrange(bounds.0 as int, bounds.1 as int) == trimmed(
            chars@.subrange(from as int, to as int),
        ),
{
    let mut begin = from;
    while begin < to && is_white_space(chars[begin])
        invariant
            from <= begin <= to <= chars@.len(),
            trim_start(chars@.subrange(from as int, to as int)) == trim_start(
                chars@.subrange(begin as int, to as int),
            ),
        decreases to - begin,
    {
        assert(chars@.subrange(begin as int, to as int).drop_first() =~= chars@.subrange(
            begin + 1,
            to as int,
        ));
        begin += 1;
    }
    let mut end = to;
    while end > begin && is_white_space(chars[end - 1])
        invariant
            begin <= end <= to <= chars@.len(),
            trim_end(chars@.subrange(begin as int, to as int)) == trim_end(
                chars@.subrange(begin as int, end as int),
            ),
        decreases end - begin,
    {
        assert(chars@.subrange(begin as int, end as int).drop_last() =~= chars@.subrange(
            begin as int,
            end - 1,
        ));
        end -= 1;
    }
    (begin, end)
}

} // verus!
