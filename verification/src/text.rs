//! Text as sequences of characters: splitting, trimming, searching and
//! rendering, each stated over the `Seq<char>` that a string views as.
use vstd::prelude::*;

verus! {

/// `String::push` appends one character to the end of the string.
pub assume_specification[ String::push ](s: &mut String, c: char)
    ensures
        final(s)@ == old(s)@.push(c),
;

/// The views of a sequence of strings.
pub open spec fn views(strings: Seq<String>) -> Seq<Seq<char>> {
    strings.map_values(|s: String| s@)
}

/// The view of a sequence grows by the view of what is added.
pub proof fn lemma_views_push(v: Seq<String>, s: String)
    ensures
        views(v.push(s)) == views(v).push(s@),
{
    assert(views(v.push(s)) =~= views(v).push(s@));
}

/// The view of an optional string.
pub open spec fn opt_view(s: Option<String>) -> Option<Seq<char>> {
    match s {
        Some(t) => Some(t@),
        None => None,
    }
}

/// The view of an optional text.
pub open spec fn str_view(s: Option<&str>) -> Option<Seq<char>> {
    match s {
        Some(t) => Some(t@),
        None => None,
    }
}

/// The characters of `s`, in order.
pub fn to_chars(s: &str) -> (res: Vec<char>)
    ensures
        res@ == s@,
{
    let mut out: Vec<char> = Vec::new();
    for c in it: s.chars()
        invariant
            out@ == s@.take(it.index() as int),
            it.seq() == s@,
    {
        out.push(c);
    }
    out
}

/// Whether two strings hold the same characters.
pub fn equals(a: &str, b: &str) -> (res: bool)
    ensures
        res == (a@ == b@),
{
    let x = to_chars(a);
    let y = to_chars(b);
    if x.len() != y.len() {
        return false;
    }
    let mut i: usize = 0;
    while i < x.len()
        invariant
            i <= x.len(),
            x.len() == y.len(),
            x@ == a@,
            y@ == b@,
            forall|j: int| 0 <= j < i ==> x@[j] == y@[j],
        decreases x.len() - i,
    {
        if x[i] != y[i] {
            assert(a@[i as int] != b@[i as int]);
            return false;
        }
        i += 1;
    }
    assert(a@ =~= b@);
    true
}

/// Characters with the Unicode `White_Space` property.
pub open spec fn is_space(c: char) -> bool {
    let u = c as u32;
    ||| 0x09 <= u <= 0x0d
    ||| u == 0x20
    ||| u == 0x85
    ||| u == 0xa0
    ||| u == 0x1680
    ||| 0x2000 <= u <= 0x200a
    ||| u == 0x2028
    ||| u == 0x2029
    ||| u == 0x202f
    ||| u == 0x205f
    ||| u == 0x3000
}

/// Whether `c` has the Unicode `White_Space` property.
pub fn is_whitespace(c: char) -> (res: bool)
    ensures
        res == is_space(c),
{
    let u: u32 = c as u32;
    (0x09 <= u && u <= 0x0d) || u == 0x20 || u == 0x85 || u == 0xa0 || u == 0x1680 || (0x2000 <= u
        && u <= 0x200a) || u == 0x2028 || u == 0x2029 || u == 0x202f || u == 0x205f || u == 0x3000
}

/// `s` without its leading white space.
pub open spec fn trimmed_start(s: Seq<char>) -> Seq<char>
    decreases s.len(),
{
    if s.len() > 0 && is_space(s[0]) {
        trimmed_start(s.drop_first())
    } else {
        s
    }
}

/// `s` without its trailing white space.
pub open spec fn trimmed_end(s: Seq<char>) -> Seq<char>
    decreases s.len(),
{
    if s.len() > 0 && is_space(s.last()) {
        trimmed_end(s.drop_last())
    } else {
        s
    }
}

/// `s` without white space at either end.
pub open spec fn trimmed(s: Seq<char>) -> Seq<char> {
    trimmed_end(trimmed_start(s))
}

/// The position of the first `c` in `s`, or the length of `s` where there is none.
pub open spec fn first_index(s: Seq<char>, c: char) -> int
    decreases s.len(),
{
    if s.len() == 0 || s[0] == c {
        0
    } else {
        1 + first_index(s.drop_first(), c)
    }
}

/// What `first_index` is: the only position with `c` at it, or the end, and no `c` before it.
pub proof fn lemma_first_index(s: Seq<char>, c: char)
    ensures
        0 <= first_index(s, c) <= s.len(),
        first_index(s, c) < s.len() ==> s[first_index(s, c)] == c,
        forall|j: int| 0 <= j < first_index(s, c) ==> s[j] != c,
        s.contains(c) <==> first_index(s, c) < s.len(),
    decreases s.len(),
{
    if s.len() == 0 || s[0] == c {
    } else {
        lemma_first_index(s.drop_first(), c);
        assert forall|j: int| 0 <= j < first_index(s, c) implies s[j] != c by {
            if j > 0 {
                assert(s.drop_first()[j - 1] == s[j]);
            }
        }
    }
}

/// The text before the first `sep` and the text after it.
pub open spec fn cut_once(s: Seq<char>, sep: char) -> Option<(Seq<char>, Seq<char>)> {
    let i = first_index(s, sep);
    if s.contains(sep) {
        Some((s.take(i), s.skip(i + 1)))
    } else {
        None
    }
}

/// A text is cut at the first separator.
pub proof fn lemma_cut_at(before: Seq<char>, sep: char, after: Seq<char>)
    requires
        !before.contains(sep),
    ensures
        cut_once(before + seq![sep] + after, sep) == Some((before, after)),
{
    let s = before + seq![sep] + after;
    let i = before.len() as int;
    assert(s[i] == sep);
    lemma_first_index(s, sep);
    let first = first_index(s, sep);
    if first < i {
        assert(before[first] == s[first]);
    }
    assert(first == i);
    assert(s.take(i) =~= before);
    assert(s.skip(i + 1) =~= after);
}

/// The pieces of `s` between its separators, empty ones included.
pub open spec fn pieces(s: Seq<char>, sep: char) -> Seq<Seq<char>>
    decreases s.len(),
{
    let i = first_index(s, sep);
    if 0 <= i < s.len() {
        seq![s.take(i)] + pieces(s.skip(i + 1), sep)
    } else {
        seq![s]
    }
}

/// The pieces with `sep` between each two of them.
pub open spec fn joined(parts: Seq<Seq<char>>, sep: char) -> Seq<char>
    decreases parts.len(),
{
    if parts.len() == 0 {
        seq![]
    } else if parts.len() == 1 {
        parts[0]
    } else {
        parts[0] + seq![sep] + joined(parts.drop_first(), sep)
    }
}

/// Splitting loses nothing: the pieces joined by the separator are the text again, there is
/// at least one piece, and no piece holds the separator.
pub proof fn law_pieces_join(s: Seq<char>, sep: char)
    ensures
        joined(pieces(s, sep), sep) == s,
        pieces(s, sep).len() >= 1,
        forall|i: int|
            0 <= i < pieces(s, sep).len() ==> !(#[trigger] pieces(s, sep)[i]).contains(sep),
    decreases s.len(),
{
    lemma_first_index(s, sep);
    let i = first_index(s, sep);
    if i < s.len() {
        let rest = s.skip(i + 1);
        law_pieces_join(rest, sep);
        assert(pieces(s, sep).drop_first() =~= pieces(rest, sep));
        assert(s =~= s.take(i) + seq![sep] + rest);
        assert(!s.take(i).contains(sep));
        assert forall|k: int| 0 <= k < pieces(s, sep).len() implies !(
        #[trigger] pieces(s, sep)[k]).contains(sep) by {
            if k > 0 {
                assert(pieces(s, sep)[k] == pieces(rest, sep)[k - 1]);
            }
        }
    } else {
        assert(pieces(s, sep) =~= seq![s]);
    }
}

/// Whether `p` occurs somewhere in `s`.
pub open spec fn occurs(p: Seq<char>, s: Seq<char>) -> bool {
    exists|i: int| #[trigger] occurs_at(p, s, i)
}

/// Whether `p` stands in `s` from position `i` on.
pub open spec fn occurs_at(p: Seq<char>, s: Seq<char>, i: int) -> bool {
    0 <= i && i + p.len() <= s.len() && s.subrange(i, i + p.len()) == p
}

/// `s` with every occurrence of `p`, taken from the left and not overlapping, replaced by `to`.
pub open spec fn replaced(s: Seq<char>, p: Seq<char>, to: Seq<char>) -> Seq<char>
    decreases s.len(),
{
    if p.len() == 0 || s.len() < p.len() {
        s
    } else if occurs_at(p, s, 0) {
        to + replaced(s.skip(p.len() as int), p, to)
    } else {
        seq![s[0]] + replaced(s.drop_first(), p, to)
    }
}

/// The characters of `chars` from `lo` up to `hi`.
fn slice_text(chars: &Vec<char>, lo: usize, hi: usize) -> (res: String)
    requires
        lo <= hi <= chars.len(),
    ensures
        res@ == chars@.subrange(lo as int, hi as int),
{
    let mut out = String::new();
    let mut i: usize = lo;
    while i < hi
        invariant
            lo <= i <= hi <= chars.len(),
            out@ == chars@.subrange(lo as int, i as int),
        decreases hi - i,
    {
        out.push(chars[i]);
        i += 1;
    }
    out
}

/// `s` without its trailing white space.
pub fn trim_end(s: &str) -> (res: String)
    ensures
        res@ == trimmed_end(s@),
{
    let chars = to_chars(s);
    let mut hi: usize = chars.len();
    assert(s@.take(hi as int) =~= s@);
    while hi > 0 && is_whitespace(chars[hi - 1])
        invariant
            hi <= chars.len(),
            chars@ == s@,
            trimmed_end(s@) == trimmed_end(s@.take(hi as int)),
        decreases hi,
    {
        assert(s@.take(hi as int).drop_last() =~= s@.take(hi - 1));
        hi -= 1;
    }
    slice_text(&chars, 0, hi)
}

/// `s` without white space at either end.
pub fn trim(s: &str) -> (res: String)
    ensures
        res@ == trimmed(s@),
{
    let chars = to_chars(s);
    let mut lo: usize = 0;
    assert(s@.skip(0) =~= s@);
    while lo < chars.len() && is_whitespace(chars[lo])
        invariant
            lo <= chars.len(),
            chars@ == s@,
            trimmed_start(s@) == trimmed_start(s@.skip(lo as int)),
        decreases chars.len() - lo,
    {
        assert(s@.skip(lo as int).drop_first() =~= s@.skip(lo + 1));
        lo += 1;
    }
    let ghost t = s@.skip(lo as int);
    assert(trimmed_start(s@) == t);
    let mut hi: usize = chars.len();
    assert(t.take(hi - lo) =~= t);
    while hi > lo && is_whitespace(chars[hi - 1])
        invariant
            lo <= hi <= chars.len(),
            chars@ == s@,
            t == s@.skip(lo as int),
            trimmed_end(t) == trimmed_end(t.take(hi - lo)),
        decreases hi,
    {
        assert(t.take(hi - lo).drop_last() =~= t.take(hi - lo - 1));
        hi -= 1;
    }
    assert(t.take(hi - lo) =~= s@.subrange(lo as int, hi as int));
    slice_text(&chars, lo, hi)
}

/// The position of the first `c` at or after `from`, or the end.
fn find_from(chars: &Vec<char>, c: char, from: usize) -> (res: usize)
    requires
        from <= chars.len(),
    ensures
        from <= res <= chars.len(),
        res - from == first_index(chars@.skip(from as int), c),
{
    let mut i: usize = from;
    proof {
        lemma_first_index(chars@.skip(from as int), c);
    }
    let ghost target = from + first_index(chars@.skip(from as int), c);
    assert forall|j: int| from <= j < target implies chars@[j] != c by {
        assert(chars@.skip(from as int)[j - from] == chars@[j]);
    }
    while i < chars.len() && chars[i] != c
        invariant
            from <= i <= chars.len(),
            i <= target <= chars.len(),
            target < chars.len() ==> chars@[target] == c,
            forall|j: int| from <= j < target ==> chars@[j] != c,
        decreases chars.len() - i,
    {
        i += 1;
    }
    i
}

/// Cuts `s` at the first `sep`.
pub fn split_once(s: &str, sep: char) -> (res: Option<(String, String)>)
    ensures
        match res {
            Some((before, after)) => cut_once(s@, sep) == Some((before@, after@)),
            None => cut_once(s@, sep) is None,
        },
{
    let chars = to_chars(s);
    proof {
        lemma_first_index(s@, sep);
        assert(s@.skip(0) =~= s@);
    }
    let i: usize = find_from(&chars, sep, 0);
    if i < chars.len() {
        let before = slice_text(&chars, 0, i);
        let after = slice_text(&chars, i + 1, chars.len());
        assert(before@ =~= s@.take(i as int));
        assert(after@ =~= s@.skip(i + 1));
        Some((before, after))
    } else {
        None
    }
}

/// Splits `s` at every `sep`.
pub fn split(s: &str, sep: char) -> (res: Vec<String>)
    ensures
        views(res@) == pieces(s@, sep),
{
    let chars = to_chars(s);
    let mut out: Vec<String> = Vec::new();
    let mut start: usize = 0;
    assert(s@.skip(0) =~= s@);
    assert(views(out@) + pieces(s@, sep) =~= pieces(s@, sep));
    loop
        invariant
            start <= chars.len(),
            chars@ == s@,
            pieces(s@, sep) == views(out@) + pieces(s@.skip(start as int), sep),
        decreases chars.len() - start,
    {
        let end: usize = find_from(&chars, sep, start);
        let ghost rest = s@.skip(start as int);
        let piece = slice_text(&chars, start, end);
        let ghost before = out@;
        out.push(piece);
        assert(views(out@) =~= views(before).push(piece@));
        assert(piece@ =~= rest.take(end - start));
        if end == chars.len() {
            assert(rest.take(end - start) =~= rest);
            assert(views(out@) =~= views(before) + pieces(rest, sep));
            return out;
        }
        proof {
            assert(rest.skip(end - start + 1) =~= s@.skip(end + 1));
            assert(views(before) + pieces(rest, sep) =~= views(out@) + pieces(
                s@.skip(end + 1),
                sep,
            ));
        }
        start = end + 1;
    }
}

/// Whether `chars` holds `p` from position `i` on.
fn matches_at(chars: &Vec<char>, p: &Vec<char>, i: usize) -> (res: bool)
    requires
        i <= chars.len(),
    ensures
        res == occurs_at(p@, chars@, i as int),
{
    if p.len() > chars.len() - i {
        return false;
    }
    let mut j: usize = 0;
    while j < p.len()
        invariant
            j <= p.len(),
            i + p.len() <= chars.len(),
            forall|k: int| 0 <= k < j ==> chars@[i + k] == p@[k],
        decreases p.len() - j,
    {
        if chars[i + j] != p[j] {
            assert(chars@.subrange(i as int, i + p.len())[j as int] != p@[j as int]);
            return false;
        }
        j += 1;
    }
    assert(chars@.subrange(i as int, i + p.len()) =~= p@);
    true
}

/// Whether `s` begins with `p`.
pub fn starts_with(s: &str, p: &str) -> (res: bool)
    ensures
        res == p@.is_prefix_of(s@),
{
    let chars = to_chars(s);
    let prefix = to_chars(p);
    let res = matches_at(&chars, &prefix, 0);
    assert(res == p@.is_prefix_of(s@));
    res
}

/// Whether `p` occurs in `s`.
pub fn contains(s: &str, p: &str) -> (res: bool)
    ensures
        res == occurs(p@, s@),
{
    let chars = to_chars(s);
    let pattern = to_chars(p);
    let mut i: usize = 0;
    while i < chars.len()
        invariant
            i <= chars.len(),
            chars@ == s@,
            pattern@ == p@,
            forall|k: int| 0 <= k < i ==> !occurs_at(p@, s@, k),
        decreases chars.len() - i,
    {
        if matches_at(&chars, &pattern, i) {
            return true;
        }
        i += 1;
    }
    matches_at(&chars, &pattern, i)
}

/// Replaces every occurrence of `p` in `s` by `to`.
pub fn replace_all(s: &str, p: &str, to: &str) -> (res: String)
    requires
        p@.len() > 0,
    ensures
        res@ == replaced(s@, p@, to@),
{
    let chars = to_chars(s);
    let pattern = to_chars(p);
    let mut out = String::new();
    let mut i: usize = 0;
    assert(s@.skip(0) =~= s@);
    assert(out@ + replaced(s@, p@, to@) =~= replaced(s@, p@, to@));
    while i < chars.len()
        invariant
            i <= chars.len(),
            chars@ == s@,
            pattern@ == p@,
            p@.len() > 0,
            replaced(s@, p@, to@) == out@ + replaced(s@.skip(i as int), p@, to@),
        decreases chars.len() - i,
    {
        let ghost rest = s@.skip(i as int);
        let ghost before = out@;
        proof {
            if i + p@.len() <= s@.len() {
                assert(rest.subrange(0, p@.len() as int) =~= s@.subrange(
                    i as int,
                    i + p@.len(),
                ));
            }
            lemma_replaced_short(rest, p@, to@);
        }
        if matches_at(&chars, &pattern, i) {
            out.append(to);
            assert(rest.skip(p@.len() as int) =~= s@.skip(i + p@.len()));
            assert(before + (to@ + replaced(s@.skip(i + p@.len()), p@, to@)) =~= out@ + replaced(
                s@.skip(i + p@.len()),
                p@,
                to@,
            ));
            i += pattern.len();
        } else {
            out.push(chars[i]);
            assert(rest.drop_first() =~= s@.skip(i + 1));
            assert(before + (seq![rest[0]] + replaced(s@.skip(i + 1), p@, to@)) =~= out@
                + replaced(s@.skip(i + 1), p@, to@));
            i += 1;
        }
    }
    assert(s@.skip(i as int) =~= Seq::<char>::empty());
    assert(out@ + Seq::<char>::empty() =~= out@);
    out
}

/// A text too short to hold the pattern is left alone, one character at a time too.
proof fn lemma_replaced_short(s: Seq<char>, p: Seq<char>, to: Seq<char>)
    requires
        p.len() > 0,
    ensures
        0 < s.len() < p.len() ==> replaced(s, p, to) == seq![s[0]] + replaced(
            s.drop_first(),
            p,
            to,
        ),
{
    if 0 < s.len() < p.len() {
        assert(seq![s[0]] + s.drop_first() =~= s);
    }
}

/// The decimal digit `d`.
pub open spec fn digit(d: nat) -> char {
    (48 + d) as char
}

/// The decimal numeral of `n`, without leading zeros.
pub open spec fn decimal(n: nat) -> Seq<char>
    decreases n,
{
    if n < 10 {
        seq![digit(n)]
    } else {
        decimal(n / 10).push(digit(n % 10))
    }
}

/// The decimal numeral of `i`, with a leading minus where it is negative.
pub open spec fn signed_decimal(i: int) -> Seq<char> {
    if i < 0 {
        seq!['-'] + decimal((-i) as nat)
    } else {
        decimal(i as nat)
    }
}

/// Writes `n` in decimal.
pub fn decimal_text(n: u64) -> (res: String)
    ensures
        res@ == decimal(n as nat),
    decreases n,
{
    let d: u8 = (n % 10) as u8;
    let c: char = (48 + d) as char;
    if n < 10 {
        let mut out = String::new();
        out.push(c);
        out
    } else {
        let mut out = decimal_text(n / 10);
        out.push(c);
        out
    }
}

/// Writes `i` in decimal.
pub fn signed_decimal_text(i: i32) -> (res: String)
    ensures
        res@ == signed_decimal(i as int),
{
    if i < 0 {
        let mut out = String::new();
        out.push('-');
        let magnitude: u64 = (-(i as i64)) as u64;
        let digits = decimal_text(magnitude);
        out.append(digits.as_str());
        out
    } else {
        decimal_text(i as u64)
    }
}

/// `a` followed by `b`.
pub fn concat2(a: &str, b: &str) -> (res: String)
    ensures
        res@ == a@ + b@,
{
    let mut out = a.to_owned();
    out.append(b);
    out
}

/// `a`, `b` and `c` one after the other.
pub fn concat3(a: &str, b: &str, c: &str) -> (res: String)
    ensures
        res@ == a@ + b@ + c@,
{
    let mut out = concat2(a, b);
    out.append(c);
    out
}

} // verus!
