//! Character-level text handling: whitespace, trimming, quote stripping,
//! decimal parsing and splitting, all stated over `Seq<char>`.

use vstd::prelude::*;

verus! {

/// The Unicode `White_Space` property, as used by `char::is_whitespace`.
pub open spec fn is_ws(c: char) -> bool {
    let u = c as u32;
    ||| 0x09 <= u <= 0x0d
    ||| u == 0x20
    ||| u == 0x85
    ||| u == 0xa0
    ||| u == 0x1680
    ||| 0x2000 <= u <= 0x200a
    ||| u == 0x2028
    ||| u == 0x2029
    ||| u == 0x202f
    ||| u == 0x205f
    ||| u == 0x3000
}

/// Executable whitespace test.
pub fn is_whitespace(c: char) -> (b: bool)
    ensures
        b == is_ws(c),
{
    let u = c as u32;
    (0x09 <= u && u <= 0x0d) || u == 0x20 || u == 0x85 || u == 0xa0 || u == 0x1680 || (0x2000
        <= u && u <= 0x200a) || u == 0x2028 || u == 0x2029 || u == 0x202f || u == 0x205f || u
        == 0x3000
}

/// `s` without its leading whitespace.
pub open spec fn trim_start(s: Seq<char>) -> Seq<char>
    decreases s.len(),
{
    if s.len() > 0 && is_ws(s[0]) {
        trim_start(s.drop_first())
    } else {
        s
    }
}

/// `s` without its trailing whitespace.
pub open spec fn trim_end(s: Seq<char>) -> Seq<char>
    decreases s.len(),
{
    if s.len() > 0 && is_ws(s.last()) {
        trim_end(s.drop_last())
    } else {
        s
    }
}

/// `s` without leading and trailing whitespace (`str::trim`).
pub open spec fn trim(s: Seq<char>) -> Seq<char> {
    trim_end(trim_start(s))
}

/// The characters of `s`, one by one.
pub fn chars_of(s: &str) -> (v: Vec<char>)
    ensures
        v@ == s@,
{
    let n = s.unicode_len();
    let mut v: Vec<char> = Vec::new();
    let mut i: usize = 0;
    while i < n
        invariant
            i <= n,
            n == s@.len(),
            v@ == s@.take(i as int),
        decreases n - i,
    {
        let c = s.get_char(i);
        v.push(c);
        i = i + 1;
        assert(v@ =~= s@.take(i as int));
    }
    assert(v@ =~= s@);
    v
}

/// The bounds, inside `lo..hi`, of the trimmed part of `cs[lo..hi]`.
pub fn trim_range(cs: &Vec<char>, lo: usize, hi: usize) -> (r: (usize, usize))
    requires
        lo <= hi <= cs.len(),
    ensures
        lo <= r.0 <= r.1 <= hi,
        cs@.subrange(r.0 as int, r.1 as int) == trim(cs@.subrange(lo as int, hi as int)),
{
    let ghost s = cs@;
    let mut a = lo;
    while a < hi && is_whitespace(cs[a])
        invariant
            lo <= a <= hi <= cs.len(),
            s == cs@,
            trim_start(s.subrange(lo as int, hi as int)) == trim_start(s.subrange(a as int, hi as int)),
        decreases hi - a,
    {
        assert(s.subrange(a as int, hi as int).drop_first() =~= s.subrange(a + 1, hi as int));
        a = a + 1;
    }
    assert(trim_start(s.subrange(a as int, hi as int)) == s.subrange(a as int, hi as int));
    let mut b = hi;
    while b > a && is_whitespace(cs[b - 1])
        invariant
            lo <= a <= b <= hi <= cs.len(),
            s == cs@,
            trim_end(s.subrange(a as int, hi as int)) == trim_end(s.subrange(a as int, b as int)),
        decreases b - a,
    {
        assert(s.subrange(a as int, b as int).drop_last() =~= s.subrange(a as int, b - 1));
        b = b - 1;
    }
    assert(trim_end(s.subrange(a as int, b as int)) == s.subrange(a as int, b as int));
    (a, b)
}


/// `s` with every double quote removed (`str::replace("\"", "")`).
pub open spec fn strip_quotes(s: Seq<char>) -> Seq<char>
    decreases s.len(),
{
    if s.len() == 0 {
        s
    } else if s.last() == '"' {
        strip_quotes(s.drop_last())
    } else {
        strip_quotes(s.drop_last()).push(s.last())
    }
}

/// Text with the double quotes of `cs[lo..hi]` removed; `cs` holds the characters of `s`.
pub fn unquoted(s: &str, cs: &Vec<char>, lo: usize, hi: usize) -> (r: String)
    requires
        cs@ == s@,
        lo <= hi <= cs.len(),
    ensures
        r@ == strip_quotes(cs@.subrange(lo as int, hi as int)),
{
    let mut r = String::new();
    let mut i = lo;
    while i < hi
        invariant
            lo <= i <= hi <= cs.len(),
            cs@ == s@,
            r@ == strip_quotes(cs@.subrange(lo as int, i as int)),
        decreases hi - i,
    {
        assert(cs@.subrange(lo as int, i + 1).drop_last() =~= cs@.subrange(lo as int, i as int));
        if cs[i] != '"' {
            let piece = s.substring_char(i, i + 1);
            assert(piece@ =~= seq![cs@[i as int]]);
            r.append(piece);
        }
        i = i + 1;
    }
    r
}

/// The text `cs[lo..hi]` as a `String`; `cs` holds the characters of `s`.
pub fn slice_string(s: &str, cs: &Vec<char>, lo: usize, hi: usize) -> (r: String)
    requires
        cs@ == s@,
        lo <= hi <= cs.len(),
    ensures
        r@ == cs@.subrange(lo as int, hi as int),
{
    s.substring_char(lo, hi).to_owned()
}

/// An ASCII decimal digit.
pub open spec fn is_digit(c: char) -> bool {
    0x30 <= (c as u32) <= 0x39
}

/// Every character of `s` is a decimal digit.
pub open spec fn all_digits(s: Seq<char>) -> bool {
    forall|i: int| 0 <= i < s.len() ==> is_digit(#[trigger] s[i])
}

/// The value of a decimal numeral.
pub open spec fn decimal_value(s: Seq<char>) -> int
    decreases s.len(),
{
    if s.len() == 0 {
        0
    } else {
        decimal_value(s.drop_last()) * 10 + ((s.last() as u32) - 0x30)
    }
}

/// The digits of a numeral after an optional leading `+`.
pub open spec fn unsigned_digits(s: Seq<char>) -> Seq<char> {
    if s.len() > 0 && s[0] == '+' {
        s.drop_first()
    } else {
        s
    }
}

/// What `str::parse::<usize>` gives: `Some` exactly for a non-empty run of
/// decimal digits, optionally after one `+`, whose value fits in `usize`.
pub open spec fn parse_usize(s: Seq<char>) -> Option<usize> {
    let d = unsigned_digits(s);
    if d.len() > 0 && all_digits(d) && decimal_value(d) <= usize::MAX {
        Some(decimal_value(d) as usize)
    } else {
        None
    }
}

proof fn lemma_decimal_prefix(s: Seq<char>, i: int)
    requires
        all_digits(s),
        0 <= i <= s.len(),
    ensures
        decimal_value(s) >= decimal_value(s.take(i)) >= 0,
    decreases s.len(),
{
    if s.len() == 0 {
        assert(s.take(i) =~= s);
    } else if i == s.len() {
        assert(s.take(i) =~= s);
        lemma_decimal_prefix(s.drop_last(), i - 1);
        assert(s.drop_last().take(i - 1) =~= s.drop_last());
        assert(is_digit(s[s.len() - 1]));
    } else {
        assert(all_digits(s.drop_last()));
        lemma_decimal_prefix(s.drop_last(), i);
        assert(s.drop_last().take(i) =~= s.take(i));
        lemma_decimal_prefix(s.drop_last(), s.len() - 1);
        assert(s.drop_last().take(s.len() - 1) =~= s.drop_last());
        assert(is_digit(s[s.len() - 1]));
    }
}

/// `cs[lo..hi]` read as a `usize`, as `str::parse::<usize>` reads it.
pub fn parse_decimal(cs: &Vec<char>, lo: usize, hi: usize) -> (r: Option<usize>)
    requires
        lo <= hi <= cs.len(),
    ensures
        r == parse_usize(cs@.subrange(lo as int, hi as int)),
{
    let ghost s = cs@.subrange(lo as int, hi as int);
    let mut start = lo;
    if lo < hi && cs[lo] == '+' {
        start = lo + 1;
    }
    let ghost d = cs@.subrange(start as int, hi as int);
    assert(d =~= unsigned_digits(s));
    if start == hi {
        return None;
    }
    let mut value: usize = 0;
    let mut i = start;
    while i < hi
        invariant
            start <= i <= hi <= cs.len(),
            d == cs@.subrange(start as int, hi as int),
            d == unsigned_digits(cs@.subrange(lo as int, hi as int)),
            d.len() > 0,
            all_digits(d.take(i - start)),
            value == decimal_value(d.take(i - start)),
        decreases hi - i,
    {
        let c = cs[i];
        let k = i - start;
        assert(d[k as int] == c);
        if !(0x30 <= (c as u32) && (c as u32) <= 0x39) {
            assert(!is_digit(d[k as int]));
            assert(!all_digits(d));
            return None;
        }
        assert(d.take(k + 1).drop_last() =~= d.take(k as int));
        assert(all_digits(d.take(k + 1)));
        let digit = ((c as u32) - 0x30) as usize;
        assert(d.take(k + 1).last() == c);
        assert(decimal_value(d.take(k + 1)) == value * 10 + digit);
        match value.checked_mul(10) {
            None => {
                proof {
                    if all_digits(d) {
                        lemma_decimal_prefix(d, k + 1);
                    }
                }
                return None;
            },
            Some(v10) => match v10.checked_add(digit) {
                None => {
                    proof {
                        if all_digits(d) {
                            lemma_decimal_prefix(d, k + 1);
                        }
                    }
                    return None;
                },
                Some(v) => {
                    value = v;
                },
            },
        }
        i = i + 1;
    }
    assert(d.take(hi - start) =~= d);
    Some(value)
}

/// The index of the first `c` in `s`, if any.
pub open spec fn first_index(s: Seq<char>, c: char) -> Option<int>
    decreases s.len(),
{
    if s.len() == 0 {
        None
    } else {
        match first_index(s.drop_last(), c) {
            Some(k) => Some(k),
            None => if s.last() == c {
                Some(s.len() - 1)
            } else {
                None
            },
        }
    }
}

/// The position of the first `c` in `cs[lo..hi]`, counted from `lo`.
pub fn find_char(cs: &Vec<char>, lo: usize, hi: usize, c: char) -> (r: Option<usize>)
    requires
        lo <= hi <= cs.len(),
    ensures
        match r {
            Some(k) => first_index(cs@.subrange(lo as int, hi as int), c) == Some(k as int) && lo + k < hi,
            None => first_index(cs@.subrange(lo as int, hi as int), c) is None,
        },
{
    let mut i = lo;
    while i < hi
        invariant
            lo <= i <= hi <= cs.len(),
            first_index(cs@.subrange(lo as int, i as int), c) is None,
        decreases hi - i,
    {
        assert(cs@.subrange(lo as int, i + 1).drop_last() =~= cs@.subrange(lo as int, i as int));
        if cs[i] == c {
            let k = i - lo;
            proof {
                lemma_first_index_extend(cs@.subrange(lo as int, i + 1), cs@.subrange(lo as int, hi as int), c);
            }
            return Some(k);
        }
        i = i + 1;
    }
    None
}

proof fn lemma_first_index_extend(p: Seq<char>, s: Seq<char>, c: char)
    requires
        p.len() <= s.len(),
        p =~= s.take(p.len() as int),
        first_index(p, c) is Some,
    ensures
        first_index(s, c) == first_index(p, c),
    decreases s.len(),
{
    if s.len() > p.len() {
        assert(s.drop_last().take(p.len() as int) =~= p);
        lemma_first_index_extend(p, s.drop_last(), c);
    } else {
        assert(p =~= s);
    }
}

/// Scanning state of `str::split_whitespace` after reading `s`: the words
/// already closed and the word being read.
pub open spec fn ws_scan(s: Seq<char>) -> (Seq<Seq<char>>, Seq<char>)
    decreases s.len(),
{
    if s.len() == 0 {
        (Seq::empty(), Seq::empty())
    } else {
        let (done, cur) = ws_scan(s.drop_last());
        let c = s.last();
        if is_ws(c) {
            if cur.len() > 0 {
                (done.push(cur), Seq::empty())
            } else {
                (done, cur)
            }
        } else {
            (done, cur.push(c))
        }
    }
}

/// The words of `s`: its maximal runs of non-whitespace (`str::split_whitespace`).
pub open spec fn split_ws(s: Seq<char>) -> Seq<Seq<char>> {
    let (done, cur) = ws_scan(s);
    if cur.len() > 0 {
        done.push(cur)
    } else {
        done
    }
}

/// Scanning state of `str::split(sep)` after reading `s`: the pieces already
/// closed and the piece being read.
pub open spec fn sep_scan(s: Seq<char>, sep: char) -> (Seq<Seq<char>>, Seq<char>)
    decreases s.len(),
{
    if s.len() == 0 {
        (Seq::empty(), Seq::empty())
    } else {
        let (done, cur) = sep_scan(s.drop_last(), sep);
        let c = s.last();
        if c == sep {
            (done.push(cur), Seq::empty())
        } else {
            (done, cur.push(c))
        }
    }
}

/// The pieces of `s` between occurrences of `sep`, empty ones included (`str::split`).
pub open spec fn split_on(s: Seq<char>, sep: char) -> Seq<Seq<char>> {
    let (done, cur) = sep_scan(s, sep);
    done.push(cur)
}

/// The bounds of the words of `cs[lo..hi]`.
pub fn word_ranges(cs: &Vec<char>, lo: usize, hi: usize) -> (r: Vec<(usize, usize)>)
    requires
        lo <= hi <= cs.len(),
    ensures
        r@.len() == split_ws(cs@.subrange(lo as int, hi as int)).len(),
        forall|k: int|
            0 <= k < r@.len() ==> lo <= (#[trigger] r@[k]).0 <= r@[k].1 <= hi && cs@.subrange(
                r@[k].0 as int,
                r@[k].1 as int,
            ) == split_ws(cs@.subrange(lo as int, hi as int))[k],
{
    let mut r: Vec<(usize, usize)> = Vec::new();
    let mut cur_start = lo;
    let mut i = lo;
    while i < hi
        invariant
            lo <= cur_start <= i <= hi <= cs.len(),
            r@.len() == ws_scan(cs@.subrange(lo as int, i as int)).0.len(),
            forall|k: int|
                0 <= k < r@.len() ==> lo <= (#[trigger] r@[k]).0 <= r@[k].1 <= i && cs@.subrange(
                    r@[k].0 as int,
                    r@[k].1 as int,
                ) == ws_scan(cs@.subrange(lo as int, i as int)).0[k],
            cs@.subrange(cur_start as int, i as int) == ws_scan(cs@.subrange(lo as int, i as int)).1,
        decreases hi - i,
    {
        let ghost old_r = r@;
        assert(cs@.subrange(lo as int, i + 1).drop_last() =~= cs@.subrange(lo as int, i as int));
        assert(cs@.subrange(cur_start as int, i + 1) =~= cs@.subrange(cur_start as int, i as int).push(cs@[i as int]));
        if is_whitespace(cs[i]) {
            if cur_start < i {
                r.push((cur_start, i));
                assert(forall|k: int| 0 <= k < old_r.len() ==> r@[k] == old_r[k]);
            }
            cur_start = i + 1;
            assert(cs@.subrange(cur_start as int, i + 1) =~= Seq::<char>::empty());
        }
        i = i + 1;
    }
    if cur_start < hi {
        let ghost old_r = r@;
        r.push((cur_start, hi));
        assert(forall|k: int| 0 <= k < old_r.len() ==> r@[k] == old_r[k]);
    }
    r
}

/// The bounds of the `sep`-separated pieces of `cs[lo..hi]`.
pub fn piece_ranges(cs: &Vec<char>, lo: usize, hi: usize, sep: char) -> (r: Vec<(usize, usize)>)
    requires
        lo <= hi <= cs.len(),
    ensures
        r@.len() == split_on(cs@.subrange(lo as int, hi as int), sep).len(),
        forall|k: int|
            0 <= k < r@.len() ==> lo <= (#[trigger] r@[k]).0 <= r@[k].1 <= hi && cs@.subrange(
                r@[k].0 as int,
                r@[k].1 as int,
            ) == split_on(cs@.subrange(lo as int, hi as int), sep)[k],
{
    let mut r: Vec<(usize, usize)> = Vec::new();
    let mut cur_start = lo;
    let mut i = lo;
    while i < hi
        invariant
            lo <= cur_start <= i <= hi <= cs.len(),
            r@.len() == sep_scan(cs@.subrange(lo as int, i as int), sep).0.len(),
            forall|k: int|
                0 <= k < r@.len() ==> lo <= (#[trigger] r@[k]).0 <= r@[k].1 <= i && cs@.subrange(
                    r@[k].0 as int,
                    r@[k].1 as int,
                ) == sep_scan(cs@.subrange(lo as int, i as int), sep).0[k],
            cs@.subrange(cur_start as int, i as int) == sep_scan(cs@.subrange(lo as int, i as int), sep).1,
        decreases hi - i,
    {
        let ghost old_r = r@;
        assert(cs@.subrange(lo as int, i + 1).drop_last() =~= cs@.subrange(lo as int, i as int));
        assert(cs@.subrange(cur_start as int, i + 1) =~= cs@.subrange(cur_start as int, i as int).push(cs@[i as int]));
        if cs[i] == sep {
            r.push((cur_start, i));
            assert(forall|k: int| 0 <= k < old_r.len() ==> r@[k] == old_r[k]);
            cur_start = i + 1;
            assert(cs@.subrange(cur_start as int, i + 1) =~= Seq::<char>::empty());
        }
        i = i + 1;
    }
    let ghost old_r = r@;
    r.push((cur_start, hi));
    assert(forall|k: int| 0 <= k < old_r.len() ==> r@[k] == old_r[k]);
    r
}

} // verus!
