//! What each console command line is read as, stated over the words and
//! pieces of the trimmed line, with every keyword written out.

use vstd::prelude::*;
use crate::command::{equals_kw, folds_to, kelvin, parse_panics, spec_parse, starts_with_kw, CommandView};
use crate::text::{first_index, parse_usize, split_on, split_ws, strip_quotes, trim};

verus! {

proof fn lemma_first_chars_differ(t: Seq<char>, a: Seq<char>, b: Seq<char>, i: int)
    requires
        starts_with_kw(t, a),
        0 <= i < a.len(),
        i < b.len(),
        0x61 <= (a[i] as u32) <= 0x7a || a[i] == ' ',
        0x61 <= (b[i] as u32) <= 0x7a || b[i] == ' ',
        (a[i] as u32) != (b[i] as u32),
        (a[i] as u32) != 0x6b,
        (b[i] as u32) != 0x6b,
    ensures
        !starts_with_kw(t, b),
{
    assert(folds_to(t[i], a[i]));
    if starts_with_kw(t, b) {
        assert(folds_to(t[i], b[i]));
        assert(false);
    }
}

/// Lowercasing a letter of a keyword: the letter itself and its capital match
/// it, the Kelvin sign matches `k`, and nothing else matches.
pub proof fn law_keyword_letters_ignore_case(c: char, k: char)
    requires
        0x61 <= (k as u32) <= 0x7a,
    ensures
        folds_to(c, k) <==> (c == k || (c as u32) + 32 == (k as u32) || (k == 'k' && (c as u32)
            == 0x212A)),
{
    assert((kelvin() as u32) == 0x212A);
}

/// `ANIM <slot> <name> [loop]`: with a slot number and a name, the line asks
/// to play that animation on that slot, whatever number the slot is, looping
/// unless a fourth word other than `true` (in any case) follows; a line with
/// no number in the slot's place asks for nothing.
pub proof fn law_parse_anim(input: Seq<char>)
    requires
        starts_with_kw(trim(input), seq!['a', 'n', 'i', 'm', ' ']),
    ensures
        ({
            let p = split_ws(trim(input));
            &&& (p.len() >= 3 && parse_usize(p[1]) is Some) ==> spec_parse(input) == Some(
                CommandView::SetAnimation {
                    slot_idx: parse_usize(p[1])->0,
                    anim_name: p[2],
                    loop_anim: p.len() < 4 || equals_kw(p[3], seq!['t', 'r', 'u', 'e']),
                },
            )
            &&& (p.len() < 2 || parse_usize(p[1]) is None) ==> spec_parse(input) is None
        }),
{
    let t = trim(input);
    lemma_first_chars_differ(t, seq!['a', 'n', 'i', 'm', ' '], seq!['l', 'o', 'a', 'd', ' '], 0);
}

/// `TALK <name>|<affiliation>|<content>`: exactly three `|`-separated pieces
/// after the keyword give a line of dialogue with those pieces; any other
/// number of pieces gives nothing.
pub proof fn law_parse_talk(input: Seq<char>)
    requires
        starts_with_kw(trim(input), seq!['t', 'a', 'l', 'k', ' ']),
    ensures
        ({
            let p = split_on(trim(input).skip(5), '|');
            &&& p.len() == 3 ==> spec_parse(input) == Some(
                CommandView::Dialogue { name: p[0], affiliation: p[1], content: p[2] },
            )
            &&& p.len() != 3 ==> spec_parse(input) is None
        }),
{
    let t = trim(input);
    let kw = seq!['t', 'a', 'l', 'k', ' '];
    lemma_first_chars_differ(t, kw, seq!['l', 'o', 'a', 'd', ' '], 0);
    lemma_first_chars_differ(t, kw, seq!['a', 'n', 'i', 'm', ' '], 0);
    lemma_first_chars_differ(t, kw, seq!['b', 'g', 'm', ' '], 0);
    lemma_first_chars_differ(t, kw, seq!['s', 'e', ' '], 0);
    lemma_first_chars_differ(t, kw, seq!['s', 't', 'o', 'p'], 0);
}

/// `BGM <path>`: plays the trimmed path, quotes removed, as music.
pub proof fn law_parse_bgm(input: Seq<char>)
    requires
        starts_with_kw(trim(input), seq!['b', 'g', 'm', ' ']),
    ensures
        spec_parse(input) == Some(CommandView::PlayBgm(strip_quotes(trim(trim(input).skip(4))))),
{
    let t = trim(input);
    let kw = seq!['b', 'g', 'm', ' '];
    lemma_first_chars_differ(t, kw, seq!['l', 'o', 'a', 'd', ' '], 0);
    lemma_first_chars_differ(t, kw, seq!['a', 'n', 'i', 'm', ' '], 0);
}

/// `SE <path>`: plays the trimmed path, quotes removed, as a sound effect.
pub proof fn law_parse_se(input: Seq<char>)
    requires
        starts_with_kw(trim(input), seq!['s', 'e', ' ']),
    ensures
        spec_parse(input) == Some(CommandView::PlaySe(strip_quotes(trim(trim(input).skip(3))))),
{
    let t = trim(input);
    let kw = seq!['s', 'e', ' '];
    lemma_first_chars_differ(t, kw, seq!['l', 'o', 'a', 'd', ' '], 0);
    lemma_first_chars_differ(t, kw, seq!['a', 'n', 'i', 'm', ' '], 0);
    lemma_first_chars_differ(t, kw, seq!['b', 'g', 'm', ' '], 0);
}

/// `STOP`, alone on the line in any case, stops the music.
pub proof fn law_parse_stop(input: Seq<char>)
    requires
        equals_kw(trim(input), seq!['s', 't', 'o', 'p']),
    ensures
        spec_parse(input) == Some(CommandView::StopBgm),
{
    let t = trim(input);
    let kw = seq!['s', 't', 'o', 'p'];
    lemma_first_chars_differ(t, kw, seq!['l', 'o', 'a', 'd', ' '], 0);
    lemma_first_chars_differ(t, kw, seq!['a', 'n', 'i', 'm', ' '], 0);
    lemma_first_chars_differ(t, kw, seq!['b', 'g', 'm', ' '], 0);
    lemma_first_chars_differ(t, kw, seq!['s', 'e', ' '], 1);
}

/// `BG <path>` (and not `BGM`): shows the trimmed path, quotes removed, as
/// the background.
pub proof fn law_parse_bg(input: Seq<char>)
    requires
        starts_with_kw(trim(input), seq!['b', 'g', ' ']),
    ensures
        spec_parse(input) == Some(
            CommandView::LoadBackground(strip_quotes(trim(trim(input).skip(3)))),
        ),
{
    let t = trim(input);
    let kw = seq!['b', 'g', ' '];
    lemma_first_chars_differ(t, kw, seq!['l', 'o', 'a', 'd', ' '], 0);
    lemma_first_chars_differ(t, kw, seq!['a', 'n', 'i', 'm', ' '], 0);
    lemma_first_chars_differ(t, kw, seq!['b', 'g', 'm', ' '], 2);
    lemma_first_chars_differ(t, kw, seq!['s', 'e', ' '], 0);
    lemma_first_chars_differ(t, kw, seq!['s', 't', 'o', 'p'], 0);
    lemma_first_chars_differ(t, kw, seq!['t', 'a', 'l', 'k', ' '], 0);
}

/// `LOAD <slot> <path>`: the slot is the trimmed text up to the first space
/// after the keyword and must be a number; the path is the rest, quotes
/// removed. Anything else gives nothing.
pub proof fn law_parse_load(input: Seq<char>)
    requires
        starts_with_kw(trim(input), seq!['l', 'o', 'a', 'd', ' ']),
    ensures
        ({
            let rest = trim(input).skip(5);
            match first_index(rest, ' ') {
                None => spec_parse(input) is None,
                Some(k) => match parse_usize(trim(rest.take(k))) {
                    Some(i) => spec_parse(input) == Some(
                        CommandView::RequestLoad { slot_idx: i, path: strip_quotes(rest.skip(k + 1)) },
                    ),
                    None => spec_parse(input) is None,
                },
            }
        }),
{
}

/// A line that starts with none of the keywords names no command.
pub proof fn law_parse_unknown(input: Seq<char>)
    requires
        !starts_with_kw(trim(input), seq!['l', 'o', 'a', 'd', ' ']),
        !starts_with_kw(trim(input), seq!['a', 'n', 'i', 'm', ' ']),
        !starts_with_kw(trim(input), seq!['b', 'g', 'm', ' ']),
        !starts_with_kw(trim(input), seq!['s', 'e', ' ']),
        !equals_kw(trim(input), seq!['s', 't', 'o', 'p']),
        !starts_with_kw(trim(input), seq!['t', 'a', 'l', 'k', ' ']),
        !starts_with_kw(trim(input), seq!['b', 'g', ' ']),
    ensures
        spec_parse(input) is None,
{
    assert(seq!['l', 'o', 'a', 'd', ' '] =~= crate::command::kw_load());
}

/// The space of a keyword is matched by a space only.
pub proof fn law_keyword_space(c: char)
    ensures
        folds_to(c, ' ') <==> c == ' ',
{
}

/// The lines the command reader leaves out are exactly these: `ANIM` with a
/// slot number and no animation name, and `TALK` whose `k` is the Kelvin
/// sign; every other line is read.
pub proof fn law_unreadable_lines(input: Seq<char>)
    ensures
        !starts_with_kw(trim(input), seq!['a', 'n', 'i', 'm', ' ']) && !starts_with_kw(
            trim(input),
            seq!['t', 'a', 'l', 'k', ' '],
        ) ==> !parse_panics(input),
        starts_with_kw(trim(input), seq!['a', 'n', 'i', 'm', ' ']) ==> (parse_panics(input) <==> (
        split_ws(trim(input)).len() == 2 && parse_usize(split_ws(trim(input))[1]) is Some)),
        starts_with_kw(trim(input), seq!['t', 'a', 'l', 'k', ' ']) ==> (parse_panics(input) <==> (
        trim(input)[3] as u32) == 0x212A),
{
    let t = trim(input);
    let anim = seq!['a', 'n', 'i', 'm', ' '];
    let talk = seq!['t', 'a', 'l', 'k', ' '];
    assert(anim =~= crate::command::kw_anim());
    assert(talk =~= crate::command::kw_talk());
    assert((kelvin() as u32) == 0x212A);
    if starts_with_kw(t, anim) {
        lemma_first_chars_differ(t, anim, seq!['l', 'o', 'a', 'd', ' '], 0);
    }
    if starts_with_kw(t, talk) {
        lemma_first_chars_differ(t, talk, seq!['l', 'o', 'a', 'd', ' '], 0);
        lemma_first_chars_differ(t, talk, seq!['a', 'n', 'i', 'm', ' '], 0);
        lemma_first_chars_differ(t, talk, seq!['b', 'g', 'm', ' '], 0);
        lemma_first_chars_differ(t, talk, seq!['s', 'e', ' '], 0);
        lemma_first_chars_differ(t, talk, seq!['s', 't', 'o', 'p'], 0);
    }
}

/// A line starts with a keyword when each of the keyword's characters is
/// matched, in place, by the line's; it is the keyword when nothing follows.
pub proof fn law_keyword_prefix(s: Seq<char>, kw: Seq<char>)
    ensures
        starts_with_kw(s, kw) <==> (kw.len() <= s.len() && forall|i: int|
            0 <= i < kw.len() ==> folds_to(#[trigger] s[i], kw[i])),
        equals_kw(s, kw) <==> (kw.len() == s.len() && forall|i: int|
            0 <= i < kw.len() ==> folds_to(#[trigger] s[i], kw[i])),
{
}

} // verus!
