//! Laws of text.
use crate::text::{
    cut_once, decimal, digit, first_index, is_space, lemma_cut_at, lemma_first_index,
    occurs, occurs_at, replaced, signed_decimal, trimmed, trimmed_end, trimmed_start,
};
use vstd::prelude::*;

verus! {

/// The characters that count as white space: those with the Unicode property, and no others.
pub proof fn law_white_space(c: char)
    ensures
        is_space(c) <==> seq![
            0x09int,
            0x0a,
            0x0b,
            0x0c,
            0x0d,
            0x20,
            0x85,
            0xa0,
            0x1680,
            0x2000,
            0x2001,
            0x2002,
            0x2003,
            0x2004,
            0x2005,
            0x2006,
            0x2007,
            0x2008,
            0x2009,
            0x200a,
            0x2028,
            0x2029,
            0x202f,
            0x205f,
            0x3000,
        ].contains(c as int),
{
    let all = seq![
        0x09int,
        0x0a,
        0x0b,
        0x0c,
        0x0d,
        0x20,
        0x85,
        0xa0,
        0x1680,
        0x2000,
        0x2001,
        0x2002,
        0x2003,
        0x2004,
        0x2005,
        0x2006,
        0x2007,
        0x2008,
        0x2009,
        0x200a,
        0x2028,
        0x2029,
        0x202f,
        0x205f,
        0x3000,
    ];
    if is_space(c) {
        let u = c as int;
        let i = if u <= 0x0d {
            u - 9
        } else if u == 0x20 {
            5
        } else if u == 0x85 {
            6
        } else if u == 0xa0 {
            7
        } else if u == 0x1680 {
            8
        } else if u <= 0x200a {
            u - 0x2000 + 9
        } else if u == 0x2028 {
            20
        } else if u == 0x2029 {
            21
        } else if u == 0x202f {
            22
        } else if u == 0x205f {
            23
        } else {
            24
        };
        assert(all[i] == u);
    }
}

/// Trimming the end cuts off white space alone, and all of it.
pub proof fn law_trimmed_end(s: Seq<char>)
    ensures
        trimmed_end(s).is_prefix_of(s),
        forall|i: int| trimmed_end(s).len() <= i < s.len() ==> is_space(#[trigger] s[i]),
        trimmed_end(s).len() > 0 ==> !is_space(trimmed_end(s).last()),
    decreases s.len(),
{
    if s.len() > 0 && is_space(s.last()) {
        law_trimmed_end(s.drop_last());
        assert forall|i: int| trimmed_end(s).len() <= i < s.len() implies is_space(
            #[trigger] s[i],
        ) by {
            if i < s.len() - 1 {
                assert(s.drop_last()[i] == s[i]);
            }
        }
    }
}

proof fn lemma_trimmed_start(s: Seq<char>)
    ensures
        trimmed_start(s).len() <= s.len(),
        trimmed_start(s) == s.skip(s.len() - trimmed_start(s).len()),
        forall|i: int| 0 <= i < s.len() - trimmed_start(s).len() ==> is_space(#[trigger] s[i]),
        trimmed_start(s).len() > 0 ==> !is_space(trimmed_start(s)[0]),
    decreases s.len(),
{
    if s.len() > 0 && is_space(s[0]) {
        let rest = s.drop_first();
        lemma_trimmed_start(rest);
        assert(s.skip(s.len() - trimmed_start(s).len()) =~= rest.skip(
            rest.len() - trimmed_start(rest).len(),
        ));
        assert forall|i: int| 0 <= i < s.len() - trimmed_start(s).len() implies is_space(
            #[trigger] s[i],
        ) by {
            if i > 0 {
                assert(rest[i - 1] == s[i]);
            }
        }
    } else {
        assert(s.skip(0) =~= s);
    }
}

/// Trimming cuts off white space alone, at both ends, and all of it there: what is left stands
/// in the text with nothing but white space around it, and has none at its own ends.
pub proof fn law_trimmed(s: Seq<char>)
    ensures
        exists|lo: int, hi: int|
            {
                &&& 0 <= lo <= hi <= s.len()
                &&& trimmed(s) == #[trigger] s.subrange(lo, hi)
                &&& forall|i: int| 0 <= i < lo ==> is_space(#[trigger] s[i])
                &&& forall|i: int| hi <= i < s.len() ==> is_space(#[trigger] s[i])
            },
        trimmed(s).len() > 0 ==> !is_space(trimmed(s)[0]) && !is_space(trimmed(s).last()),
{
    lemma_trimmed_start(s);
    let rest = trimmed_start(s);
    law_trimmed_end(rest);
    let lo = s.len() - rest.len();
    let hi = lo + trimmed(s).len();
    assert(trimmed(s) =~= s.subrange(lo, hi));
    assert forall|i: int| hi <= i < s.len() implies is_space(#[trigger] s[i]) by {
        assert(rest[i - lo] == s[i]);
    }
}

/// A text without white space at its ends is left as it is.
pub proof fn law_trimmed_text_stays(s: Seq<char>)
    requires
        s.len() > 0 ==> !is_space(s[0]) && !is_space(s.last()),
    ensures
        trimmed(s) == s,
        trimmed_end(s) == s,
{
}

/// A text is cut at the first separator, and only where it has one: the parts and the separator
/// between them are the text again, and the first part holds no separator.
pub proof fn law_cut_once(s: Seq<char>, sep: char)
    ensures
        match cut_once(s, sep) {
            Some((before, after)) => s == before + seq![sep] + after && !before.contains(sep),
            None => !s.contains(sep),
        },
{
    lemma_first_index(s, sep);
    let i = first_index(s, sep);
    if s.contains(sep) {
        assert(s =~= s.take(i) + seq![sep] + s.skip(i + 1));
        if s.take(i).contains(sep) {
            let j = choose|j: int| 0 <= j < s.take(i).len() && s.take(i)[j] == sep;
            assert(s[j] == sep);
        }
    }
}

/// There is only one way to cut a text at its first separator.
pub proof fn law_cut_is_unique(before: Seq<char>, sep: char, after: Seq<char>)
    requires
        !before.contains(sep),
    ensures
        cut_once(before + seq![sep] + after, sep) == Some((before, after)),
{
    lemma_cut_at(before, sep, after);
}

/// A text occurs in another exactly where the other can be written around it.
pub proof fn law_occurs(p: Seq<char>, s: Seq<char>)
    ensures
        occurs(p, s) <==> exists|a: Seq<char>, b: Seq<char>| s == #[trigger] (a + p + b),
{
    if occurs(p, s) {
        let i = choose|i: int| #[trigger] occurs_at(p, s, i);
        let a = s.take(i);
        let b = s.skip(i + p.len());
        assert(s =~= a + p + b);
    }
    if exists|a: Seq<char>, b: Seq<char>| s == #[trigger] (a + p + b) {
        let (a, b) = choose|a: Seq<char>, b: Seq<char>| s == #[trigger] (a + p + b);
        assert(s.subrange(a.len() as int, (a.len() + p.len()) as int) =~= p);
        assert(occurs_at(p, s, a.len() as int));
    }
}

/// Where nothing occurs, nothing is replaced.
pub proof fn law_nothing_to_replace(s: Seq<char>, p: Seq<char>, to: Seq<char>)
    requires
        !occurs(p, s),
    ensures
        replaced(s, p, to) == s,
    decreases s.len(),
{
    if p.len() > 0 && s.len() >= p.len() {
        assert(!occurs_at(p, s, 0));
        let rest = s.drop_first();
        assert forall|i: int| !(#[trigger] occurs_at(p, rest, i)) by {
            if occurs_at(p, rest, i) {
                assert(rest.subrange(i, i + p.len()) =~= s.subrange(i + 1, i + 1 + p.len()));
                assert(occurs_at(p, s, i + 1));
            }
        }
        law_nothing_to_replace(rest, p, to);
        assert(seq![s[0]] + rest =~= s);
    }
}

/// The first occurrence is replaced, what stands before it stays, and so on behind it.
pub proof fn law_first_is_replaced(s: Seq<char>, p: Seq<char>, to: Seq<char>, i: int)
    requires
        p.len() > 0,
        occurs_at(p, s, i),
        forall|j: int| 0 <= j < i ==> !(#[trigger] occurs_at(p, s, j)),
    ensures
        replaced(s, p, to) == s.take(i) + to + replaced(s.skip(i + p.len()), p, to),
    decreases s.len(),
{
    if i == 0 {
        assert(s.take(0) + to =~= to);
        assert(s.skip(p.len() as int) =~= s.skip(i + p.len()));
    } else {
        let rest = s.drop_first();
        assert(!occurs_at(p, s, 0));
        assert(rest.subrange(i - 1, i - 1 + p.len()) =~= s.subrange(i, i + p.len()));
        assert forall|j: int| 0 <= j < i - 1 implies !(#[trigger] occurs_at(p, rest, j)) by {
            if occurs_at(p, rest, j) {
                assert(rest.subrange(j, j + p.len()) =~= s.subrange(j + 1, j + 1 + p.len()));
                assert(occurs_at(p, s, j + 1));
            }
        }
        law_first_is_replaced(rest, p, to, i - 1);
        assert(rest.skip(i - 1 + p.len()) =~= s.skip(i + p.len()));
        assert(seq![s[0]] + (rest.take(i - 1) + to + replaced(s.skip(i + p.len()), p, to))
            =~= s.take(i) + to + replaced(s.skip(i + p.len()), p, to));
    }
}

/// The number that a row of decimal digits stands for.
pub open spec fn number_of(digits: Seq<char>) -> int
    decreases digits.len(),
{
    if digits.len() == 0 {
        0
    } else {
        10 * number_of(digits.drop_last()) + (digits.last() as int - '0' as int)
    }
}

/// Whether the text is the numeral of a number: digits alone, without needless zeros in front.
pub open spec fn is_numeral(text: Seq<char>) -> bool {
    &&& text.len() > 0
    &&& forall|i: int| 0 <= i < text.len() ==> '0' <= #[trigger] text[i] <= '9'
    &&& text.len() > 1 ==> text[0] != '0'
}

/// A number is written so that it can be read back, in digits without needless zeros.
pub proof fn law_decimal_reads_back(n: nat)
    ensures
        number_of(decimal(n)) == n,
        is_numeral(decimal(n)),
        n > 0 ==> decimal(n)[0] != '0',
    decreases n,
{
    if n >= 10 {
        law_decimal_reads_back(n / 10);
        assert(decimal(n).drop_last() =~= decimal(n / 10));
        assert(digit(n % 10) as int == 48 + n % 10);
    } else {
        assert(decimal(n).drop_last() =~= seq![]);
        assert(digit(n) as int == 48 + n);
        assert(number_of(seq![]) == 0);
    }
}

/// A negative number is written with a minus in front of its magnitude, and no other number is.
pub proof fn law_signed_decimal_reads_back(i: int)
    ensures
        i < 0 ==> signed_decimal(i)[0] == '-' && number_of(signed_decimal(i).skip(1)) == -i
            && is_numeral(signed_decimal(i).skip(1)),
        i >= 0 ==> number_of(signed_decimal(i)) == i && is_numeral(signed_decimal(i)),
{
    if i < 0 {
        law_decimal_reads_back((-i) as nat);
        assert(signed_decimal(i).skip(1) =~= decimal((-i) as nat));
    } else {
        law_decimal_reads_back(i as nat);
    }
}

} // verus!
