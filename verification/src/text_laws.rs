//! What the text primitives mean, stated without their scanning definitions:
//! where trimming cuts, how words and pieces compose, where a character is
//! first found, what quote stripping keeps and what a numeral is worth.

use vstd::prelude::*;
use crate::text::{
    all_digits, decimal_value, first_index, is_digit, unsigned_digits, is_ws, parse_usize, sep_scan, split_on, split_ws, strip_quotes,
    trim, trim_end, trim_start, ws_scan,
};

verus! {

/// The whitespace characters are exactly those of Unicode's `White_Space`.
pub proof fn law_whitespace_set(c: char)
    ensures
        is_ws(c) <==> ({
            let u = c as u32;
            0x09 <= u <= 0x0d || u == 0x20 || u == 0x85 || u == 0xa0 || u == 0x1680 || (0x2000 <= u
                <= 0x200a) || u == 0x2028 || u == 0x2029 || u == 0x202f || u == 0x205f || u
                == 0x3000
        }),
{
}

proof fn lemma_trim_start_cut(s: Seq<char>) -> (a: int)
    ensures
        0 <= a <= s.len(),
        trim_start(s) == s.subrange(a, s.len() as int),
        forall|j: int| 0 <= j < a ==> is_ws(#[trigger] s[j]),
        a < s.len() ==> !is_ws(s[a]),
    decreases s.len(),
{
    if s.len() > 0 && is_ws(s[0]) {
        let a1 = lemma_trim_start_cut(s.drop_first());
        assert(s.drop_first().subrange(a1, s.len() - 1) =~= s.subrange(a1 + 1, s.len() as int));
        assert forall|j: int| 0 <= j < a1 + 1 implies is_ws(#[trigger] s[j]) by {
            if j > 0 {
                assert(s[j] == s.drop_first()[j - 1]);
            }
        }
        a1 + 1
    } else {
        assert(s.subrange(0, s.len() as int) =~= s);
        0
    }
}

proof fn lemma_trim_end_cut(s: Seq<char>) -> (b: int)
    ensures
        0 <= b <= s.len(),
        trim_end(s) == s.subrange(0, b),
        forall|j: int| b <= j < s.len() ==> is_ws(#[trigger] s[j]),
        b > 0 ==> !is_ws(s[b - 1]),
    decreases s.len(),
{
    if s.len() > 0 && is_ws(s.last()) {
        let b1 = lemma_trim_end_cut(s.drop_last());
        assert(s.drop_last().subrange(0, b1) =~= s.subrange(0, b1));
        assert forall|j: int| b1 <= j < s.len() implies is_ws(#[trigger] s[j]) by {
            if j < s.len() - 1 {
                assert(s[j] == s.drop_last()[j]);
            }
        }
        b1
    } else {
        assert(s.subrange(0, s.len() as int) =~= s);
        s.len() as int
    }
}

/// Trimming cuts off exactly the whitespace at both ends: it keeps a middle
/// part `s[a..b]`, everything before `a` and from `b` on is whitespace, and
/// the part kept, when not empty, starts and ends with non-whitespace.
pub proof fn law_trim_cuts_whitespace_ends(s: Seq<char>) -> (bounds: (int, int))
    ensures
        0 <= bounds.0 <= bounds.1 <= s.len(),
        trim(s) == s.subrange(bounds.0, bounds.1),
        forall|j: int| 0 <= j < bounds.0 ==> is_ws(#[trigger] s[j]),
        forall|j: int| bounds.1 <= j < s.len() ==> is_ws(#[trigger] s[j]),
        bounds.0 < bounds.1 ==> !is_ws(s[bounds.0]) && !is_ws(s[bounds.1 - 1]),
{
    let a = lemma_trim_start_cut(s);
    let x = s.subrange(a, s.len() as int);
    let b = lemma_trim_end_cut(x);
    assert(x.subrange(0, b) =~= s.subrange(a, a + b));
    assert forall|j: int| a + b <= j < s.len() implies is_ws(#[trigger] s[j]) by {
        assert(s[j] == x[j - a]);
    }
    if b > 0 {
        assert(s[a + b - 1] == x[b - 1]);
    }
    (a, a + b)
}

proof fn lemma_ws_scan_append(x: Seq<char>, y: Seq<char>)
    requires
        ws_scan(x).1.len() == 0,
    ensures
        ws_scan(x + y) == (ws_scan(x).0 + ws_scan(y).0, ws_scan(y).1),
    decreases y.len(),
{
    if y.len() == 0 {
        assert(x + y =~= x);
        assert(ws_scan(x).0 + ws_scan(y).0 =~= ws_scan(x).0);
    } else {
        lemma_ws_scan_append(x, y.drop_last());
        assert((x + y).drop_last() =~= x + y.drop_last());
        assert((x + y).last() == y.last());
        let (dy, cy) = ws_scan(y.drop_last());
        assert((ws_scan(x).0 + dy).push(cy) =~= ws_scan(x).0 + dy.push(cy));
    }
}

proof fn lemma_ws_scan_word(s: Seq<char>)
    requires
        forall|j: int| 0 <= j < s.len() ==> !is_ws(#[trigger] s[j]),
    ensures
        ws_scan(s) == (Seq::<Seq<char>>::empty(), s),
    decreases s.len(),
{
    if s.len() > 0 {
        lemma_ws_scan_word(s.drop_last());
        assert(!is_ws(s[s.len() - 1]));
        assert(s.drop_last().push(s.last()) =~= s);
    }
}

/// Words split at whitespace: an empty text has none, a text without
/// whitespace is one word, and a whitespace character separates the words
/// before it from those after it.
pub proof fn law_words(x: Seq<char>, w: char, y: Seq<char>)
    ensures
        split_ws(Seq::empty()) == Seq::<Seq<char>>::empty(),
        x.len() > 0 && (forall|j: int| 0 <= j < x.len() ==> !is_ws(#[trigger] x[j]))
            ==> split_ws(x) == seq![x],
        is_ws(w) ==> split_ws(x + seq![w] + y) == split_ws(x) + split_ws(y),
{
    if x.len() > 0 && (forall|j: int| 0 <= j < x.len() ==> !is_ws(#[trigger] x[j])) {
        lemma_ws_scan_word(x);
        assert(Seq::<Seq<char>>::empty().push(x) =~= seq![x]);
    }
    if is_ws(w) {
        let xw = x.push(w);
        assert(xw.drop_last() =~= x);
        assert(ws_scan(xw).1.len() == 0);
        assert(ws_scan(xw).0 == split_ws(x));
        assert(x + seq![w] + y =~= xw + y);
        lemma_ws_scan_append(xw, y);
        let (dy, cy) = ws_scan(y);
        if cy.len() > 0 {
            assert((split_ws(x) + dy).push(cy) =~= split_ws(x) + dy.push(cy));
        }
    }
}

proof fn lemma_sep_scan_append(x: Seq<char>, y: Seq<char>, sep: char)
    requires
        sep_scan(x, sep).1.len() == 0,
    ensures
        sep_scan(x + y, sep) == (sep_scan(x, sep).0 + sep_scan(y, sep).0, sep_scan(y, sep).1),
    decreases y.len(),
{
    if y.len() == 0 {
        assert(x + y =~= x);
        assert(sep_scan(x, sep).0 + sep_scan(y, sep).0 =~= sep_scan(x, sep).0);
    } else {
        lemma_sep_scan_append(x, y.drop_last(), sep);
        assert((x + y).drop_last() =~= x + y.drop_last());
        assert((x + y).last() == y.last());
        let (dy, cy) = sep_scan(y.drop_last(), sep);
        assert((sep_scan(x, sep).0 + dy).push(cy) =~= sep_scan(x, sep).0 + dy.push(cy));
    }
}

proof fn lemma_sep_scan_piece(s: Seq<char>, sep: char)
    requires
        forall|j: int| 0 <= j < s.len() ==> #[trigger] s[j] != sep,
    ensures
        sep_scan(s, sep) == (Seq::<Seq<char>>::empty(), s),
    decreases s.len(),
{
    if s.len() > 0 {
        lemma_sep_scan_piece(s.drop_last(), sep);
        assert(s[s.len() - 1] != sep);
        assert(s.drop_last().push(s.last()) =~= s);
    }
}

/// Pieces split at `sep`: a text without `sep` is one piece (the empty text
/// too), and each `sep` separates the pieces before it from those after it.
pub proof fn law_pieces(x: Seq<char>, sep: char, y: Seq<char>)
    ensures
        (forall|j: int| 0 <= j < x.len() ==> #[trigger] x[j] != sep) ==> split_on(x, sep)
            == seq![x],
        split_on(x + seq![sep] + y, sep) == split_on(x, sep) + split_on(y, sep),
{
    if forall|j: int| 0 <= j < x.len() ==> #[trigger] x[j] != sep {
        lemma_sep_scan_piece(x, sep);
        assert(Seq::<Seq<char>>::empty().push(x) =~= seq![x]);
    }
    let xs = x.push(sep);
    assert(xs.drop_last() =~= x);
    assert(sep_scan(xs, sep).0 == split_on(x, sep));
    assert(x + seq![sep] + y =~= xs + y);
    lemma_sep_scan_append(xs, y, sep);
    let (dy, cy) = sep_scan(y, sep);
    assert((split_on(x, sep) + dy).push(cy) =~= split_on(x, sep) + dy.push(cy));
}

/// `first_index` finds the first occurrence, or tells there is none.
pub proof fn law_first_index(s: Seq<char>, c: char)
    ensures
        match first_index(s, c) {
            Some(k) => 0 <= k < s.len() && s[k] == c && forall|j: int| 0 <= j < k ==> s[j] != c,
            None => forall|j: int| 0 <= j < s.len() ==> s[j] != c,
        },
    decreases s.len(),
{
    if s.len() > 0 {
        law_first_index(s.drop_last(), c);
        match first_index(s.drop_last(), c) {
            Some(k) => {
                assert(s[k] == s.drop_last()[k]);
                assert forall|j: int| 0 <= j < k implies s[j] != c by {
                    assert(s[j] == s.drop_last()[j]);
                }
            },
            None => {
                assert forall|j: int| 0 <= j < s.len() - 1 implies s[j] != c by {
                    assert(s[j] == s.drop_last()[j]);
                }
            },
        }
    }
}

proof fn lemma_strip_quotes_filter(s: Seq<char>, p: spec_fn(char) -> bool)
    requires
        forall|x: char| #[trigger] p(x) == (x != '"'),
    ensures
        strip_quotes(s) == s.filter(p),
    decreases s.len(),
{
    reveal_with_fuel(Seq::<_>::filter, 1);
    if s.len() > 0 {
        lemma_strip_quotes_filter(s.drop_last(), p);
        assert(p(s.last()) == (s.last() != '"'));
    }
}

/// Stripping quotes keeps every other character, in order.
pub proof fn law_strip_quotes_keeps_the_rest(s: Seq<char>)
    ensures
        strip_quotes(s) == s.filter(|x: char| x != '"'),
{
    lemma_strip_quotes_filter(s, |x: char| x != '"');
}

/// A numeral's value: nothing is worth 0, and a digit appended after a
/// numeral multiplies it by ten and adds the digit.
pub proof fn law_decimal_value(d: Seq<char>, c: char)
    ensures
        decimal_value(Seq::empty()) == 0,
        decimal_value(d.push(c)) == decimal_value(d) * 10 + ((c as u32) - 0x30),
{
    assert(d.push(c).drop_last() =~= d);
}

/// Reading a `usize`: a non-empty run of decimal digits, with or without
/// one `+` before it, reads as its value when that fits in a `usize`, and as
/// nothing when it does not.
pub proof fn law_parse_usize_reads_numerals(d: Seq<char>)
    requires
        d.len() > 0,
        forall|j: int| 0 <= j < d.len() ==> 0x30 <= (#[trigger] d[j] as u32) <= 0x39,
    ensures
        decimal_value(d) <= usize::MAX ==> parse_usize(d) == Some(decimal_value(d) as usize),
        decimal_value(d) <= usize::MAX ==> parse_usize(seq!['+'] + d) == Some(
            decimal_value(d) as usize,
        ),
        decimal_value(d) > usize::MAX ==> parse_usize(d) is None,
        decimal_value(d) > usize::MAX ==> parse_usize(seq!['+'] + d) is None,
{
    assert forall|j: int| 0 <= j < d.len() implies is_digit(#[trigger] d[j]) by {
        assert(0x30 <= (d[j] as u32) <= 0x39);
    }
    assert(all_digits(d));
    assert(d[0] != '+');
    assert(unsigned_digits(d) == d);
    assert((seq!['+'] + d).drop_first() =~= d);
    assert(unsigned_digits(seq!['+'] + d) == d);
}

/// Only numerals read: what reads is non-empty, is not a lone `+`, and every
/// character of it is a decimal digit, but for one leading `+`.
pub proof fn law_parse_usize_only_numerals(s: Seq<char>)
    ensures
        parse_usize(s) is Some ==> s.len() > 0 && !(s.len() == 1 && s[0] == '+') && forall|j: int|
            0 <= j < s.len() && !(j == 0 && s[0] == '+') ==> 0x30 <= (#[trigger] s[j] as u32)
                <= 0x39,
{
    if parse_usize(s) is Some {
        let d = unsigned_digits(s);
        assert forall|j: int| 0 <= j < s.len() && !(j == 0 && s[0] == '+') implies 0x30 <= (
        #[trigger] s[j] as u32) <= 0x39 by {
            if s[0] == '+' {
                assert(s[j] == d[j - 1]);
                assert(is_digit(d[j - 1]));
            } else {
                assert(is_digit(d[j]));
            }
        }
    }
}

} // verus!
