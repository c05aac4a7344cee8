//! Console commands: what they are, and how a line typed into the SHELL
//! console is read into one.

use vstd::prelude::*;
use crate::scenario::{Scenario, SceneView};
use crate::text::{
    chars_of, find_char, first_index, parse_decimal, parse_usize, piece_ranges, slice_string,
    split_on, split_ws, strip_quotes, trim, trim_range, unquoted, word_ranges,
};

verus! {

/// A request that the editor handles on its next frame.
#[derive(Debug)]
pub enum AppCommand {
    /// Put a line in the current scene: speaker, affiliation and text.
    Dialogue { name: String, affiliation: String, content: String },
    /// Load a Spine character from an atlas file into a slot.
    RequestLoad { slot_idx: usize, path: String },
    /// Empty a character slot.
    RemoveCharacter(usize),
    /// Show an image file as the background of the current scene.
    LoadBackground(String),
    /// Play an audio file as looping background music.
    PlayBgm(String),
    /// Play an audio file once as a sound effect.
    PlaySe(String),
    /// Stop the background music.
    StopBgm,
    /// Switch the animation of the character in a slot.
    SetAnimation { slot_idx: usize, anim_name: String, loop_anim: bool },
    /// Append a line to the console log.
    Log(String),
    /// Replace the whole scenario.
    ScenarioLoaded(Scenario),
}

/// A command with its texts taken by their characters.
pub enum CommandView {
    Dialogue { name: Seq<char>, affiliation: Seq<char>, content: Seq<char> },
    RequestLoad { slot_idx: usize, path: Seq<char> },
    RemoveCharacter(usize),
    LoadBackground(Seq<char>),
    PlayBgm(Seq<char>),
    PlaySe(Seq<char>),
    StopBgm,
    SetAnimation { slot_idx: usize, anim_name: Seq<char>, loop_anim: bool },
    Log(Seq<char>),
    ScenarioLoaded(Seq<SceneView>),
}

impl View for AppCommand {
    type V = CommandView;

    open spec fn view(&self) -> CommandView {
        match self {
            AppCommand::Dialogue { name, affiliation, content } => CommandView::Dialogue {
                name: name@,
                affiliation: affiliation@,
                content: content@,
            },
            AppCommand::RequestLoad { slot_idx, path } => CommandView::RequestLoad {
                slot_idx: *slot_idx,
                path: path@,
            },
            AppCommand::RemoveCharacter(i) => CommandView::RemoveCharacter(*i),
            AppCommand::LoadBackground(p) => CommandView::LoadBackground(p@),
            AppCommand::PlayBgm(p) => CommandView::PlayBgm(p@),
            AppCommand::PlaySe(p) => CommandView::PlaySe(p@),
            AppCommand::StopBgm => CommandView::StopBgm,
            AppCommand::SetAnimation { slot_idx, anim_name, loop_anim } => CommandView::SetAnimation {
                slot_idx: *slot_idx,
                anim_name: anim_name@,
                loop_anim: *loop_anim,
            },
            AppCommand::Log(m) => CommandView::Log(m@),
            AppCommand::ScenarioLoaded(s) => CommandView::ScenarioLoaded(s@),
        }
    }
}

/// An optional command, viewed.
pub open spec fn command_view(c: Option<AppCommand>) -> Option<CommandView> {
    match c {
        Some(c) => Some(c@),
        None => None,
    }
}

/// The Kelvin sign, the one character outside ASCII that lowercases to an
/// ASCII letter (`k`).
pub open spec fn kelvin() -> char {
    '\u{212A}'
}

/// Lowercasing `c` gives the lowercase ASCII keyword character `k`.
pub open spec fn folds_to(c: char, k: char) -> bool {
    ||| c == k
    ||| (0x61 <= (k as u32) <= 0x7a && (c as u32) == (k as u32) - 32)
    ||| (k == 'k' && c == kelvin())
}

/// The lowercase of `s` starts with the lowercase ASCII keyword `kw`.
pub open spec fn starts_with_kw(s: Seq<char>, kw: Seq<char>) -> bool {
    &&& kw.len() <= s.len()
    &&& forall|i: int| 0 <= i < kw.len() ==> folds_to(#[trigger] s[i], kw[i])
}

/// The lowercase of `s` is the lowercase ASCII keyword `kw`.
pub open spec fn equals_kw(s: Seq<char>, kw: Seq<char>) -> bool {
    s.len() == kw.len() && starts_with_kw(s, kw)
}

pub open spec fn kw_load() -> Seq<char> {
    seq!['l', 'o', 'a', 'd', ' ']
}

pub open spec fn kw_anim() -> Seq<char> {
    seq!['a', 'n', 'i', 'm', ' ']
}

pub open spec fn kw_bgm() -> Seq<char> {
    seq!['b', 'g', 'm', ' ']
}

pub open spec fn kw_se() -> Seq<char> {
    seq!['s', 'e', ' ']
}

pub open spec fn kw_stop() -> Seq<char> {
    seq!['s', 't', 'o', 'p']
}

pub open spec fn kw_talk() -> Seq<char> {
    seq!['t', 'a', 'l', 'k', ' ']
}

pub open spec fn kw_bg() -> Seq<char> {
    seq!['b', 'g', ' ']
}

pub open spec fn kw_true() -> Seq<char> {
    seq!['t', 'r', 'u', 'e']
}

/// `LOAD <slot> <path>`: the slot is the text up to the first space after
/// the keyword, the path is the rest with its quotes removed.
pub open spec fn spec_load(t: Seq<char>) -> Option<CommandView> {
    let rest = t.skip(5);
    match first_index(rest, ' ') {
        None => None,
        Some(k) => match parse_usize(trim(rest.take(k))) {
            Some(idx) => Some(
                CommandView::RequestLoad { slot_idx: idx, path: strip_quotes(rest.skip(k + 1)) },
            ),
            None => None,
        },
    }
}

/// `ANIM <slot> <name> [loop]`: looping unless a fourth word is given that is
/// not `true` in any case.
pub open spec fn spec_anim(t: Seq<char>) -> Option<CommandView> {
    let parts = split_ws(t);
    if parts.len() >= 2 {
        match parse_usize(parts[1]) {
            Some(idx) => Some(
                CommandView::SetAnimation {
                    slot_idx: idx,
                    anim_name: parts[2],
                    loop_anim: parts.len() < 4 || equals_kw(parts[3], kw_true()),
                },
            ),
            None => None,
        }
    } else {
        None
    }
}

/// `TALK <name>|<affiliation>|<content>`: exactly three pieces.
pub open spec fn spec_talk(t: Seq<char>) -> Option<CommandView> {
    let p = split_on(t.skip(5), '|');
    if p.len() == 3 {
        Some(CommandView::Dialogue { name: p[0], affiliation: p[1], content: p[2] })
    } else {
        None
    }
}

/// The command that a trimmed, non-empty console line stands for, keywords
/// compared without regard to case and tried in this order.
pub open spec fn spec_command(t: Seq<char>) -> Option<CommandView> {
    if starts_with_kw(t, kw_load()) {
        spec_load(t)
    } else if starts_with_kw(t, kw_anim()) {
        spec_anim(t)
    } else if starts_with_kw(t, kw_bgm()) {
        Some(CommandView::PlayBgm(strip_quotes(trim(t.skip(4)))))
    } else if starts_with_kw(t, kw_se()) {
        Some(CommandView::PlaySe(strip_quotes(trim(t.skip(3)))))
    } else if equals_kw(t, kw_stop()) {
        Some(CommandView::StopBgm)
    } else if starts_with_kw(t, kw_talk()) {
        spec_talk(t)
    } else if starts_with_kw(t, kw_bg()) {
        Some(CommandView::LoadBackground(strip_quotes(trim(t.skip(3)))))
    } else {
        None
    }
}

/// The command that the console line `input` stands for.
pub open spec fn spec_parse(input: Seq<char>) -> Option<CommandView> {
    spec_command(trim(input))
}

/// The lines on which reading a command fails: `ANIM` with a slot and no
/// animation name, and `TALK` whose `k` is a Kelvin sign (the keyword then
/// ends inside a multi-byte character).
pub open spec fn parse_panics(input: Seq<char>) -> bool {
    let t = trim(input);
    &&& !starts_with_kw(t, kw_load())
    &&& {
        ||| (starts_with_kw(t, kw_anim()) && split_ws(t).len() == 2 && parse_usize(
            split_ws(t)[1],
        ) is Some)
        ||| (!starts_with_kw(t, kw_anim()) && !starts_with_kw(t, kw_bgm()) && !starts_with_kw(
            t,
            kw_se(),
        ) && !equals_kw(t, kw_stop()) && starts_with_kw(t, kw_talk()) && t[3] == kelvin())
    }
}

fn folds_to_exec(c: char, k: char) -> (b: bool)
    ensures
        b == folds_to(c, k),
{
    let cu = c as u32;
    let ku = k as u32;
    c == k || (0x61 <= ku && ku <= 0x7a && cu == ku - 32) || (k == 'k' && c == '\u{212A}')
}

fn starts_with_keyword(cs: &Vec<char>, lo: usize, hi: usize, kw: &[char]) -> (b: bool)
    requires
        lo <= hi <= cs.len(),
    ensures
        b == starts_with_kw(cs@.subrange(lo as int, hi as int), kw@),
{
    if kw.len() > hi - lo {
        return false;
    }
    let mut i: usize = 0;
    while i < kw.len()
        invariant
            i <= kw.len() <= hi - lo,
            lo <= hi <= cs.len(),
            forall|j: int| 0 <= j < i ==> folds_to(cs@[lo + j], kw@[j]),
        decreases kw.len() - i,
    {
        if !folds_to_exec(cs[lo + i], kw[i]) {
            assert(cs@.subrange(lo as int, hi as int)[i as int] == cs@[lo + i]);
            return false;
        }
        i = i + 1;
    }
    assert forall|j: int| 0 <= j < kw@.len() implies folds_to(
        #[trigger] cs@.subrange(lo as int, hi as int)[j],
        kw@[j],
    ) by {
        assert(cs@.subrange(lo as int, hi as int)[j] == cs@[lo + j]);
    }
    true
}

fn equals_keyword(cs: &Vec<char>, lo: usize, hi: usize, kw: &[char]) -> (b: bool)
    requires
        lo <= hi <= cs.len(),
    ensures
        b == equals_kw(cs@.subrange(lo as int, hi as int), kw@),
{
    hi - lo == kw.len() && starts_with_keyword(cs, lo, hi, kw)
}

/// Reads the console line `input` as a command: `None` where it names none
/// or its arguments do not fit the keyword.
pub fn parse_command(input: &str) -> (r: Option<AppCommand>)
    requires
        !parse_panics(input@),
    ensures
        command_view(r) == spec_parse(input@),
{
    let cs = chars_of(input);
    let n = cs.len();
    let (lo, hi) = trim_range(&cs, 0, n);
    assert(cs@.subrange(0, n as int) =~= input@);
    let ghost t = cs@.subrange(lo as int, hi as int);
    let kw_load_a: [char; 5] = ['l', 'o', 'a', 'd', ' '];
    let kw_anim_a: [char; 5] = ['a', 'n', 'i', 'm', ' '];
    let kw_bgm_a: [char; 4] = ['b', 'g', 'm', ' '];
    let kw_se_a: [char; 3] = ['s', 'e', ' '];
    let kw_stop_a: [char; 4] = ['s', 't', 'o', 'p'];
    let kw_talk_a: [char; 5] = ['t', 'a', 'l', 'k', ' '];
    let kw_bg_a: [char; 3] = ['b', 'g', ' '];
    assert(kw_load_a@ =~= kw_load());
    assert(kw_anim_a@ =~= kw_anim());
    assert(kw_bgm_a@ =~= kw_bgm());
    assert(kw_se_a@ =~= kw_se());
    assert(kw_stop_a@ =~= kw_stop());
    assert(kw_talk_a@ =~= kw_talk());
    assert(kw_bg_a@ =~= kw_bg());
    if starts_with_keyword(&cs, lo, hi, &kw_load_a) {
        let rs = lo + 5;
        assert(cs@.subrange(rs as int, hi as int) =~= t.skip(5));
        match find_char(&cs, rs, hi, ' ') {
            None => None,
            Some(k) => {
                assert(cs@.subrange(rs as int, (rs + k) as int) =~= t.skip(5).take(k as int));
                assert(cs@.subrange((rs + k + 1) as int, hi as int) =~= t.skip(5).skip(k + 1));
                let (a, b) = trim_range(&cs, rs, rs + k);
                match parse_decimal(&cs, a, b) {
                    Some(idx) => {
                        let path = unquoted(input, &cs, rs + k + 1, hi);
                        Some(AppCommand::RequestLoad { slot_idx: idx, path })
                    },
                    None => None,
                }
            },
        }
    } else if starts_with_keyword(&cs, lo, hi, &kw_anim_a) {
        let parts = word_ranges(&cs, lo, hi);
        if parts.len() >= 2 {
            let (a1, b1) = parts[1];
            match parse_decimal(&cs, a1, b1) {
                Some(idx) => {
                    let (a2, b2) = parts[2];
                    let anim_name = slice_string(input, &cs, a2, b2);
                    let loop_anim = if parts.len() < 4 {
                        true
                    } else {
                        let (a3, b3) = parts[3];
                        let kw_true_a: [char; 4] = ['t', 'r', 'u', 'e'];
                        assert(kw_true_a@ =~= kw_true());
                        equals_keyword(&cs, a3, b3, &kw_true_a)
                    };
                    Some(AppCommand::SetAnimation { slot_idx: idx, anim_name, loop_anim })
                },
                None => None,
            }
        } else {
            None
        }
    } else if starts_with_keyword(&cs, lo, hi, &kw_bgm_a) {
        assert(cs@.subrange(lo + 4, hi as int) =~= t.skip(4));
        let (a, b) = trim_range(&cs, lo + 4, hi);
        Some(AppCommand::PlayBgm(unquoted(input, &cs, a, b)))
    } else if starts_with_keyword(&cs, lo, hi, &kw_se_a) {
        assert(cs@.subrange(lo + 3, hi as int) =~= t.skip(3));
        let (a, b) = trim_range(&cs, lo + 3, hi);
        Some(AppCommand::PlaySe(unquoted(input, &cs, a, b)))
    } else if equals_keyword(&cs, lo, hi, &kw_stop_a) {
        Some(AppCommand::StopBgm)
    } else if starts_with_keyword(&cs, lo, hi, &kw_talk_a) {
        assert(cs@.subrange(lo + 5, hi as int) =~= t.skip(5));
        let p = piece_ranges(&cs, lo + 5, hi, '|');
        if p.len() == 3 {
            let (a0, b0) = p[0];
            let (a1, b1) = p[1];
            let (a2, b2) = p[2];
            let name = slice_string(input, &cs, a0, b0);
            let affiliation = slice_string(input, &cs, a1, b1);
            let content = slice_string(input, &cs, a2, b2);
            Some(AppCommand::Dialogue { name, affiliation, content })
        } else {
            None
        }
    } else if starts_with_keyword(&cs, lo, hi, &kw_bg_a) {
        assert(cs@.subrange(lo + 3, hi as int) =~= t.skip(3));
        let (a, b) = trim_range(&cs, lo + 3, hi);
        Some(AppCommand::LoadBackground(unquoted(input, &cs, a, b)))
    } else {
        None
    }
}

} // verus!
