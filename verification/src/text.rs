//! Text as sequences of characters: trimming, searching, lines, joining.
//!
//! Every contract of the crate speaks of text through `Seq<char>`, the view of
//! `str` and `String`. The executable functions work on `Vec<char>`, which
//! gives constant-time indexing.

use vstd::prelude::*;

verus! {

/// The lowercase form of a text, as `str::to_lowercase` maps it.
pub uninterp spec fn lowercase_of(s: Seq<char>) -> Seq<char>;

/// Whether a character is numeric in the sense of `char::is_numeric`
/// (the Unicode general categories Nd, Nl and No).
pub uninterp spec fn is_numeric_char(c: char) -> bool;

/// `str::to_lowercase` maps each character by the Unicode lowercase mapping,
/// which depends on the text alone. Nothing else is claimed of the result.
pub assume_specification[ str::to_lowercase ](s: &str) -> (r: String)
    ensures
        r@ == lowercase_of(s@),
;

/// `char::is_numeric` decides by the character alone.
pub assume_specification[ char::is_numeric ](c: char) -> (r: bool)
    ensures
        r == is_numeric_char(c),
;

/// `String::push` appends one character to the end of the string.
pub assume_specification[ String::push ](s: &mut String, c: char)
    ensures
        final(s)@ == old(s)@.push(c),
;

/// The characters with the Unicode property White_Space.
pub open spec fn is_white_space(c: char) -> bool {
    let n = c as u32;
    ||| 0x09 <= n <= 0x0D
    ||| n == 0x20
    ||| n == 0x85
    ||| n == 0xA0
    ||| n == 0x1680
    ||| 0x2000 <= n <= 0x200A
    ||| n == 0x2028
    ||| n == 0x2029
    ||| n == 0x202F
    ||| n == 0x205F
    ||| n == 0x3000
}

/// The first position at or after `from` that holds no white space, or the
/// length of `s` if there is none.
pub open spec fn leading_space(s: Seq<char>, from: int) -> int
    decreases s.len() - from,
{
    if 0 <= from < s.len() && is_white_space(s[from]) {
        leading_space(s, from + 1)
    } else {
        from
    }
}

/// The end of `s[lo..hi]` once the white space at its end is dropped.
pub open spec fn trailing_space(s: Seq<char>, lo: int, hi: int) -> int
    decreases hi - lo,
{
    if lo < hi <= s.len() && is_white_space(s[hi - 1]) {
        trailing_space(s, lo, hi - 1)
    } else {
        hi
    }
}

/// `s` without the white space at its two ends.
pub open spec fn trimmed(s: Seq<char>) -> Seq<char> {
    let lo = leading_space(s, 0);
    s.subrange(lo, trailing_space(s, lo, s.len() as int))
}

/// Whether every character of `s` is white space.
pub open spec fn all_white_space(s: Seq<char>) -> bool {
    forall|i: int| 0 <= i < s.len() ==> is_white_space(#[trigger] s[i])
}

/// Whether `needle` stands in `hay` at position `at`.
pub open spec fn occurs_at(hay: Seq<char>, needle: Seq<char>, at: int) -> bool {
    &&& 0 <= at
    &&& at + needle.len() <= hay.len()
    &&& hay.subrange(at, at + needle.len()) == needle
}

/// Whether `needle` stands somewhere in `hay`.
pub open spec fn contains_text(hay: Seq<char>, needle: Seq<char>) -> bool {
    exists|at: int| occurs_at(hay, needle, at)
}

pub open spec fn starts_with(s: Seq<char>, prefix: Seq<char>) -> bool {
    occurs_at(s, prefix, 0)
}

pub open spec fn ends_with(s: Seq<char>, suffix: Seq<char>) -> bool {
    occurs_at(s, suffix, s.len() - suffix.len())
}

/// The position of the last `c` in `s[..end]`, or -1 if there is none.
pub open spec fn last_position(s: Seq<char>, c: char, end: int) -> int
    decreases end,
{
    if end <= 0 || end > s.len() {
        -1
    } else if s[end - 1] == c {
        end - 1
    } else {
        last_position(s, c, end - 1)
    }
}

/// The position of the first line feed at or after `from`, or the length of
/// `s` if there is none.
pub open spec fn line_end(s: Seq<char>, from: int) -> int
    decreases s.len() - from,
{
    if 0 <= from < s.len() && s[from] != '\n' {
        line_end(s, from + 1)
    } else {
        from
    }
}

/// The line that starts at `from`: the text up to the next line feed, without
/// the carriage return that may stand directly before that line feed.
pub open spec fn line_at(s: Seq<char>, from: int) -> Seq<char> {
    let end = line_end(s, from);
    if from < end < s.len() && s[end - 1] == '\r' {
        s.subrange(from, end - 1)
    } else {
        s.subrange(from, end)
    }
}

/// The lines of `s` from position `from` on. A line ends at a line feed or at
/// a carriage return followed by one; the last line needs no ending, and a
/// text that ends with a line ending has no empty line after it.
pub open spec fn lines_from(s: Seq<char>, from: int) -> Seq<Seq<char>>
    decreases s.len() - from,
{
    if 0 <= from < s.len() {
        if from <= line_end(s, from) < s.len() {
            seq![line_at(s, from)] + lines_from(s, line_end(s, from) + 1)
        } else {
            seq![line_at(s, from)]
        }
    } else {
        Seq::empty()
    }
}

pub open spec fn lines_of(s: Seq<char>) -> Seq<Seq<char>> {
    lines_from(s, 0)
}

/// The parts joined into one text, with `separator` between neighbours.
pub open spec fn joined(parts: Seq<Seq<char>>, separator: Seq<char>) -> Seq<char>
    decreases parts.len(),
{
    if parts.len() == 0 {
        Seq::empty()
    } else if parts.len() == 1 {
        parts[0]
    } else {
        joined(parts.drop_last(), separator) + separator + parts.last()
    }
}

/// The decimal digits of `n`, without leading zeros.
pub open spec fn decimal(n: nat) -> Seq<char>
    decreases n,
{
    if n < 10 {
        seq![digit_char(n)]
    } else {
        decimal(n / 10).push(digit_char(n % 10))
    }
}

pub open spec fn digit_char(d: nat) -> char {
    if d == 0 {
        '0'
    } else if d == 1 {
        '1'
    } else if d == 2 {
        '2'
    } else if d == 3 {
        '3'
    } else if d == 4 {
        '4'
    } else if d == 5 {
        '5'
    } else if d == 6 {
        '6'
    } else if d == 7 {
        '7'
    } else if d == 8 {
        '8'
    } else {
        '9'
    }
}

/// The views of a list of strings.
pub open spec fn texts(v: Seq<String>) -> Seq<Seq<char>> {
    Seq::new(v.len(), |i: int| v[i]@)
}

/// The views of a list of character vectors.
pub open spec fn rows(v: Seq<Vec<char>>) -> Seq<Seq<char>> {
    Seq::new(v.len(), |i: int| v[i]@)
}

/// The views of a list of string slices.
pub open spec fn slice_texts(v: Seq<&str>) -> Seq<Seq<char>> {
    Seq::new(v.len(), |i: int| v[i]@)
}

pub open spec fn option_text(s: Option<String>) -> Option<Seq<char>> {
    match s {
        Some(s) => Some(s@),
        None => None,
    }
}

pub proof fn lemma_leading_space_bounds(s: Seq<char>, from: int)
    requires
        0 <= from <= s.len(),
    ensures
        from <= leading_space(s, from) <= s.len(),
        leading_space(s, from) < s.len() ==> !is_white_space(s[leading_space(s, from)]),
        forall|i: int| from <= i < leading_space(s, from) ==> is_white_space(s[i]),
    decreases s.len() - from,
{
    if from < s.len() && is_white_space(s[from]) {
        lemma_leading_space_bounds(s, from + 1);
    }
}

pub proof fn lemma_trailing_space_bounds(s: Seq<char>, lo: int, hi: int)
    requires
        0 <= lo <= hi <= s.len(),
    ensures
        lo <= trailing_space(s, lo, hi) <= hi,
        lo < trailing_space(s, lo, hi) ==> !is_white_space(s[trailing_space(s, lo, hi) - 1]),
        forall|i: int| trailing_space(s, lo, hi) <= i < hi ==> is_white_space(s[i]),
    decreases hi - lo,
{
    if lo < hi && is_white_space(s[hi - 1]) {
        lemma_trailing_space_bounds(s, lo, hi - 1);
    }
}

/// White space at the end of a text does not show once the text is trimmed.
pub proof fn lemma_trim_ignores_trailing_space(s: Seq<char>, tail: Seq<char>)
    requires
        all_white_space(tail),
    ensures
        trimmed(s + tail) == trimmed(s),
{
    let t = s + tail;
    let lo = leading_space(s, 0);
    let lt = leading_space(t, 0);
    lemma_leading_space_bounds(s, 0);
    lemma_leading_space_bounds(t, 0);
    assert(forall|i: int| 0 <= i < s.len() ==> t[i] == s[i]);
    assert(forall|i: int| s.len() <= i < t.len() ==> t[i] == tail[i - s.len()]);
    if lo < s.len() {
        assert(!is_white_space(t[lo]));
        if lt < lo {
            assert(is_white_space(s[lt]));
        }
        assert(lt == lo);
        let hi = trailing_space(s, lo, s.len() as int);
        let ht = trailing_space(t, lo, t.len() as int);
        lemma_trailing_space_bounds(s, lo, s.len() as int);
        lemma_trailing_space_bounds(t, lo, t.len() as int);
        if hi <= lo {
            assert(is_white_space(s[lo]));
        }
        assert(!is_white_space(t[hi - 1]));
        if ht < hi {
            assert(is_white_space(t[hi - 1]));
        }
        if ht > hi {
            assert(!is_white_space(t[ht - 1]));
            if ht - 1 < s.len() {
                assert(is_white_space(s[ht - 1]));
            } else {
                assert(is_white_space(tail[ht - 1 - s.len()]));
            }
        }
        assert(ht == hi);
        assert(t.subrange(lo, hi) =~= s.subrange(lo, hi));
    } else {
        assert(forall|i: int| 0 <= i < t.len() ==> is_white_space(t[i])) by {
            assert forall|i: int| 0 <= i < t.len() implies is_white_space(t[i]) by {
                if i < s.len() {
                    assert(is_white_space(s[i]));
                } else {
                    assert(is_white_space(tail[i - s.len()]));
                }
            }
        }
        if lt < t.len() {
            assert(is_white_space(t[lt]));
        }
        lemma_trailing_space_bounds(s, lo, s.len() as int);
        lemma_trailing_space_bounds(t, lt, t.len() as int);
        assert(trimmed(s) =~= Seq::<char>::empty());
        assert(trimmed(t) =~= Seq::<char>::empty());
    }
}

/// The characters of a string, in order.
pub fn chars_of(s: &str) -> (v: Vec<char>)
    ensures
        v@ == s@,
{
    let mut v: Vec<char> = Vec::new();
    for c in iter: s.chars()
        invariant
            iter.seq() == s@,
            v@ == s@.take(iter.index() as int),
    {
        assert(s@.take(iter.index() + 1) =~= s@.take(iter.index() as int).push(c));
        v.push(c);
    }
    assert(s@.take(s@.len() as int) =~= s@);
    v
}

/// The string made of the given characters.
pub fn string_of(chars: &Vec<char>) -> (s: String)
    ensures
        s@ == chars@,
{
    let mut s = String::new();
    let mut i: usize = 0;
    while i < chars.len()
        invariant
            i <= chars.len(),
            s@ == chars@.take(i as int),
        decreases chars.len() - i,
    {
        assert(chars@.take(i + 1) =~= chars@.take(i as int).push(chars@[i as int]));
        s.push(chars[i]);
        i += 1;
    }
    assert(chars@.take(chars@.len() as int) =~= chars@);
    s
}

pub fn white_space(c: char) -> (r: bool)
    ensures
        r == is_white_space(c),
{
    let n: u32 = c as u32;
    (0x09 <= n && n <= 0x0D) || n == 0x20 || n == 0x85 || n == 0xA0 || n == 0x1680 || (0x2000 <= n
        && n <= 0x200A) || n == 0x2028 || n == 0x2029 || n == 0x202F || n == 0x205F || n == 0x3000
}

/// A copy of `s[lo..hi]`.
pub fn slice(s: &Vec<char>, lo: usize, hi: usize) -> (r: Vec<char>)
    requires
        lo <= hi <= s.len(),
    ensures
        r@ == s@.subrange(lo as int, hi as int),
{
    let mut r: Vec<char> = Vec::new();
    let mut i: usize = lo;
    while i < hi
        invariant
            lo <= i <= hi <= s.len(),
            r@ == s@.subrange(lo as int, i as int),
        decreases hi - i,
    {
        assert(s@.subrange(lo as int, i + 1) =~= s@.subrange(lo as int, i as int).push(s@[i as int]));
        r.push(s[i]);
        i += 1;
    }
    r
}

/// The bounds of `s` without the white space at its two ends.
pub fn trim_bounds(s: &Vec<char>) -> (r: (usize, usize))
    ensures
        r.0 <= r.1 <= s.len(),
        r.0 == leading_space(s@, 0),
        r.1 == trailing_space(s@, r.0 as int, s.len() as int),
        trimmed(s@) == s@.subrange(r.0 as int, r.1 as int),
{
    let mut lo: usize = 0;
    while lo < s.len() && white_space(s[lo])
        invariant
            lo <= s.len(),
            leading_space(s@, lo as int) == leading_space(s@, 0),
        decreases s.len() - lo,
    {
        lo += 1;
    }
    let mut hi: usize = s.len();
    while hi > lo && white_space(s[hi - 1])
        invariant
            lo <= hi <= s.len(),
            trailing_space(s@, lo as int, hi as int) == trailing_space(
                s@,
                lo as int,
                s.len() as int,
            ),
        decreases hi,
    {
        hi -= 1;
    }
    (lo, hi)
}

pub fn trim(s: &Vec<char>) -> (r: Vec<char>)
    ensures
        r@ == trimmed(s@),
{
    let (lo, hi) = trim_bounds(s);
    slice(s, lo, hi)
}

/// Whether `s` holds nothing but white space.
pub fn is_blank(s: &Vec<char>) -> (r: bool)
    ensures
        r == (trimmed(s@).len() == 0),
{
    let (lo, hi) = trim_bounds(s);
    lo == hi
}

pub fn occurs(hay: &Vec<char>, needle: &Vec<char>, at: usize) -> (r: bool)
    ensures
        r == occurs_at(hay@, needle@, at as int),
{
    if needle.len() > hay.len() || at > hay.len() - needle.len() {
        return false;
    }
    let mut i: usize = 0;
    while i < needle.len()
        invariant
            i <= needle.len(),
            at + needle.len() <= hay.len(),
            forall|j: int| 0 <= j < i ==> hay@[at + j] == needle@[j],
        decreases needle.len() - i,
    {
        if hay[at + i] != needle[i] {
            proof {
                let sub = hay@.subrange(at as int, at + needle@.len());
                assert(sub[i as int] == hay@[at + i]);
            }
            return false;
        }
        i += 1;
    }
    assert(hay@.subrange(at as int, at + needle@.len()) =~= needle@);
    true
}

pub fn contains(hay: &Vec<char>, needle: &Vec<char>) -> (r: bool)
    ensures
        r == contains_text(hay@, needle@),
{
    if needle.len() > hay.len() {
        return false;
    }
    let last: usize = hay.len() - needle.len();
    let mut at: usize = 0;
    while at < last
        invariant
            at <= last,
            last == hay.len() - needle.len(),
            forall|j: int| 0 <= j < at ==> !occurs_at(hay@, needle@, j),
        decreases last - at,
    {
        if occurs(hay, needle, at) {
            return true;
        }
        at += 1;
    }
    occurs(hay, needle, last)
}

pub fn has_prefix(s: &Vec<char>, prefix: &Vec<char>) -> (r: bool)
    ensures
        r == starts_with(s@, prefix@),
{
    occurs(s, prefix, 0)
}

pub fn has_suffix(s: &Vec<char>, suffix: &Vec<char>) -> (r: bool)
    ensures
        r == ends_with(s@, suffix@),
{
    if suffix.len() > s.len() {
        return false;
    }
    occurs(s, suffix, s.len() - suffix.len())
}

pub fn same(a: &Vec<char>, b: &Vec<char>) -> (r: bool)
    ensures
        r == (a@ == b@),
{
    if a.len() != b.len() {
        return false;
    }
    let r = occurs(a, b, 0);
    assert(a@.subrange(0, a@.len() as int) =~= a@);
    r
}

pub fn has_char(s: &Vec<char>, c: char) -> (r: bool)
    ensures
        r == s@.contains(c),
{
    let mut i: usize = 0;
    while i < s.len()
        invariant
            i <= s.len(),
            forall|j: int| 0 <= j < i ==> s@[j] != c,
        decreases s.len() - i,
    {
        if s[i] == c {
            return true;
        }
        i += 1;
    }
    false
}

/// The position of the last `c` in `s`, if there is one.
pub fn last_index(s: &Vec<char>, c: char) -> (r: Option<usize>)
    ensures
        match r {
            Some(i) => i < s.len() && s@[i as int] == c && i == last_position(
                s@,
                c,
                s@.len() as int,
            ),
            None => last_position(s@, c, s@.len() as int) == -1,
        },
{
    let mut end: usize = s.len();
    while end > 0
        invariant
            end <= s.len(),
            last_position(s@, c, end as int) == last_position(s@, c, s@.len() as int),
        decreases end,
    {
        if s[end - 1] == c {
            return Some(end - 1);
        }
        end -= 1;
    }
    None
}

/// The lines of `s`.
pub fn lines(s: &Vec<char>) -> (r: Vec<Vec<char>>)
    ensures
        rows(r@) == lines_of(s@),
{
    let mut r: Vec<Vec<char>> = Vec::new();
    let mut from: usize = 0;
    assert(rows(r@) + lines_from(s@, 0) =~= lines_from(s@, 0));
    while from < s.len()
        invariant
            from <= s.len(),
            lines_of(s@) == rows(r@) + lines_from(s@, from as int),
        decreases s.len() - from,
    {
        let mut end: usize = from;
        while end < s.len() && s[end] != '\n'
            invariant
                from <= end <= s.len(),
                line_end(s@, end as int) == line_end(s@, from as int),
            decreases s.len() - end,
        {
            end += 1;
        }
        let line = if from < end && end < s.len() && s[end - 1] == '\r' {
            slice(s, from, end - 1)
        } else {
            slice(s, from, end)
        };
        proof {
            assert(line@ == line_at(s@, from as int));
            let rest = if end < s.len() {
                lines_from(s@, end + 1)
            } else {
                lines_from(s@, end as int)
            };
            assert(rows(r@).push(line@) + rest =~= rows(r@) + (seq![line@] + rest));
            assert(end == s.len() ==> lines_from(s@, from as int) =~= seq![line@]
                + lines_from(s@, end as int));
        }
        let ghost before = rows(r@);
        r.push(line);
        assert(rows(r@) =~= before.push(line@));
        if end < s.len() {
            from = end + 1;
        } else {
            from = end;
        }
    }
    assert(rows(r@) + Seq::<Seq<char>>::empty() =~= rows(r@));
    r
}

/// `parts` joined into one text, with `separator` between neighbours.
pub fn join(parts: &Vec<Vec<char>>, separator: &Vec<char>) -> (r: Vec<char>)
    ensures
        r@ == joined(rows(parts@), separator@),
{
    let mut r: Vec<char> = Vec::new();
    let mut i: usize = 0;
    while i < parts.len()
        invariant
            i <= parts.len(),
            r@ == joined(rows(parts@).take(i as int), separator@),
        decreases parts.len() - i,
    {
        proof {
            let next = rows(parts@).take(i + 1);
            assert(next.drop_last() =~= rows(parts@).take(i as int));
            assert(next.last() == parts@[i as int]@);
        }
        if i > 0 {
            extend(&mut r, separator);
        }
        extend(&mut r, &parts[i]);
        assert(i == 0 ==> r@ =~= parts@[i as int]@);
        i += 1;
    }
    assert(rows(parts@).take(parts@.len() as int) =~= rows(parts@));
    r
}

/// Appends the characters of `more` to `s`.
pub fn extend(s: &mut Vec<char>, more: &Vec<char>)
    ensures
        final(s)@ == old(s)@ + more@,
{
    let mut i: usize = 0;
    while i < more.len()
        invariant
            i <= more.len(),
            s@ == old(s)@ + more@.take(i as int),
        decreases more.len() - i,
    {
        assert(old(s)@ + more@.take(i + 1) =~= (old(s)@ + more@.take(i as int)).push(
            more@[i as int],
        ));
        s.push(more[i]);
        i += 1;
    }
    assert(more@.take(more@.len() as int) =~= more@);
}

/// The characters of `a` followed by those of `b`.
pub fn glue(a: &str, b: &str) -> (r: String)
    ensures
        r@ == a@ + b@,
{
    let mut r = a.to_owned();
    r.append(b);
    r
}

/// The decimal digits of `n`.
pub fn decimal_digits(n: usize) -> (r: Vec<char>)
    ensures
        r@ == decimal(n as nat),
    decreases n,
{
    let d: usize = n % 10;
    let c: char = if d == 0 {
        '0'
    } else if d == 1 {
        '1'
    } else if d == 2 {
        '2'
    } else if d == 3 {
        '3'
    } else if d == 4 {
        '4'
    } else if d == 5 {
        '5'
    } else if d == 6 {
        '6'
    } else if d == 7 {
        '7'
    } else if d == 8 {
        '8'
    } else {
        '9'
    };
    if n < 10 {
        let mut r: Vec<char> = Vec::new();
        r.push(c);
        r
    } else {
        let mut r = decimal_digits(n / 10);
        r.push(c);
        r
    }
}

} // verus!
