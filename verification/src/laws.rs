//! What holds of the editor across operations and across inputs.

use vstd::prelude::*;
use crate::command::{spec_parse, CommandView};
use crate::editor::{
    animation_effect, handle_post, EditorState, idx_after_delete, idx_after_next, idx_after_prev, preview_back,
    preview_forward, scenes_after_add, scenes_after_delete, typewriter_step, EffectView,
    TYPEWRITER_INTERVAL_MICROS,
};
use crate::scenario::{SceneView, SLOT_COUNT};
use crate::text::{first_index, is_ws, strip_quotes, trim, trim_end, trim_start};

verus! {

/// Deleting the scene that "add a scene" just made gives back the scenario
/// as it was; the scene shown is then the one after the original, or the
/// original itself when it was the last.
pub proof fn law_delete_undoes_add(scenes: Seq<SceneView>, idx: int)
    requires
        0 <= idx < scenes.len(),
    ensures
        scenes_after_delete(scenes_after_add(scenes, idx), idx + 1) == scenes,
        idx_after_delete(scenes.len() + 1int, idx + 1) == if idx + 1 < scenes.len() {
            idx + 1
        } else {
            idx
        },
{
    assert(scenes_after_add(scenes, idx).remove(idx + 1) =~= scenes);
}

/// "Previous scene" undoes "next scene" when there was a next one, and
/// "next scene" undoes "previous scene" when there was a previous one.
pub proof fn law_prev_undoes_next(len: int, idx: int)
    requires
        0 <= idx < len,
    ensures
        idx + 1 < len ==> idx_after_prev(idx_after_next(len, idx)) == idx,
        idx > 0 ==> idx_after_next(len, idx_after_prev(idx)) == idx,
{
}

/// In the animation preview, a step back undoes a step forward and a step
/// forward undoes a step back.
pub proof fn law_preview_steps_undo(i: int, n: int)
    requires
        0 <= i < n,
    ensures
        preview_back(preview_forward(i, n), n) == i,
        preview_forward(preview_back(i, n), n) == i,
{
    let f = preview_forward(i, n);
    let b = preview_back(i, n);
    vstd::arithmetic::div_mod::lemma_mod_bound(i + 1, n);
    vstd::arithmetic::div_mod::lemma_mod_bound(i + n - 1, n);
    if i + 1 == n {
        vstd::arithmetic::div_mod::lemma_mod_self_0(n);
        vstd::arithmetic::div_mod::lemma_small_mod((n - 1) as nat, n as nat);
    } else {
        vstd::arithmetic::div_mod::lemma_small_mod((i + 1) as nat, n as nat);
        vstd::arithmetic::div_mod::lemma_fundamental_div_mod_converse(i + 1 + n - 1, n, 1, i);
    }
    if i == 0 {
        vstd::arithmetic::div_mod::lemma_small_mod((n - 1) as nat, n as nat);
        vstd::arithmetic::div_mod::lemma_mod_self_0(n);
    } else {
        vstd::arithmetic::div_mod::lemma_fundamental_div_mod_converse(i + n - 1, n, 1, i - 1);
        vstd::arithmetic::div_mod::lemma_small_mod(i as nat, n as nat);
    }
}

/// Time given to the typewriter in two parts reveals as many characters,
/// and leaves as much time over, as the same time given at once.
pub proof fn law_typewriter_time_adds(timer: int, a: int, b: int)
    requires
        0 <= timer < TYPEWRITER_INTERVAL_MICROS,
        0 <= a,
        0 <= b,
    ensures
        typewriter_step(timer, a).0 + typewriter_step(typewriter_step(timer, a).1, b).0
            == typewriter_step(timer, a + b).0,
        typewriter_step(typewriter_step(timer, a).1, b).1 == typewriter_step(timer, a + b).1,
{
    let i = TYPEWRITER_INTERVAL_MICROS as int;
    let q1 = (timer + a) / i;
    let r1 = (timer + a) % i;
    let q2 = (r1 + b) / i;
    let r2 = (r1 + b) % i;
    vstd::arithmetic::div_mod::lemma_fundamental_div_mod(timer + a, i);
    vstd::arithmetic::div_mod::lemma_fundamental_div_mod(r1 + b, i);
    vstd::arithmetic::div_mod::lemma_mod_bound(r1 + b, i);
    vstd::arithmetic::div_mod::lemma_fundamental_div_mod_converse(timer + a + b, i, q1 + q2, r2);
}

/// A slot that has just been emptied is not animated; a slot that a
/// character has just been loaded into is.
pub proof fn law_slot_animation(
    occupied: Seq<bool>,
    slot: usize,
    anim_name: Seq<char>,
    loop_anim: bool,
)
    requires
        occupied.len() == SLOT_COUNT,
        slot < SLOT_COUNT,
    ensures
        animation_effect(occupied.update(slot as int, false), slot, anim_name, loop_anim)
            == EffectView::Nothing,
        animation_effect(occupied.update(slot as int, true), slot, anim_name, loop_anim)
            == (EffectView::ApplyAnimation { slot_idx: slot, anim_name, loop_anim }),
{
}

proof fn lemma_trim_start_idem(s: Seq<char>)
    ensures
        trim_start(trim_start(s)) == trim_start(s),
        trim_start(s).len() == 0 || !is_ws(trim_start(s)[0]),
    decreases s.len(),
{
    if s.len() > 0 && is_ws(s[0]) {
        lemma_trim_start_idem(s.drop_first());
    }
}

proof fn lemma_trim_end_keeps_clean_start(x: Seq<char>)
    requires
        x.len() == 0 || !is_ws(x[0]),
    ensures
        trim_start(trim_end(x)) == trim_end(x),
        trim_end(trim_end(x)) == trim_end(x),
    decreases x.len(),
{
    if x.len() > 0 && is_ws(x.last()) {
        lemma_trim_end_keeps_clean_start(x.drop_last());
    }
}

/// `trim` does nothing to a trimmed text.
pub proof fn lemma_trim_idem(s: Seq<char>)
    ensures
        trim(trim(s)) == trim(s),
{
    lemma_trim_start_idem(s);
    lemma_trim_end_keeps_clean_start(trim_start(s));
}

/// Whitespace around a console line does not change the command it names.
pub proof fn law_parse_ignores_surrounding_whitespace(input: Seq<char>)
    ensures
        spec_parse(trim(input)) == spec_parse(input),
{
    lemma_trim_idem(input);
}

proof fn lemma_strip_quotes_clean(s: Seq<char>)
    ensures
        !strip_quotes(s).contains('"'),
    decreases s.len(),
{
    if s.len() > 0 {
        lemma_strip_quotes_clean(s.drop_last());
        if s.last() != '"' {
            let p = strip_quotes(s.drop_last());
            assert forall|i: int| 0 <= i < p.push(s.last()).len() implies p.push(s.last())[i]
                != '"' by {
                if i < p.len() {
                    assert(p.push(s.last())[i] == p[i]);
                }
            }
        }
    }
}

/// The file paths that console commands carry hold no double quotes: a
/// path pasted with its quotes is read without them.
pub proof fn law_command_paths_unquoted(input: Seq<char>)
    ensures
        match spec_parse(input) {
            Some(CommandView::RequestLoad { path, .. }) => !path.contains('"'),
            Some(CommandView::PlayBgm(p)) => !p.contains('"'),
            Some(CommandView::PlaySe(p)) => !p.contains('"'),
            Some(CommandView::LoadBackground(p)) => !p.contains('"'),
            _ => true,
        },
{
    let t = trim(input);
    lemma_strip_quotes_clean(trim(t.skip(4)));
    lemma_strip_quotes_clean(trim(t.skip(3)));
    let rest = t.skip(5);
    match first_index(rest, ' ') {
        Some(k) => lemma_strip_quotes_clean(rest.skip(k + 1)),
        None => {},
    }
}

/// Log commands handled one after another append their lines to the console
/// log in the order they came, and change nothing else.
pub proof fn law_logs_append_in_order(
    states: Seq<EditorState>,
    msgs: Seq<Seq<char>>,
    effects: Seq<EffectView>,
)
    requires
        states.len() == msgs.len() + 1,
        effects.len() == msgs.len(),
        forall|i: int|
            0 <= i < msgs.len() ==> handle_post(
                #[trigger] states[i],
                states[i + 1],
                CommandView::Log(msgs[i]),
                effects[i],
            ),
    ensures
        states.last().logs() == states[0].logs() + msgs,
        states.last().same_story(&states[0]),
        states.last().is_auto_enabled == states[0].is_auto_enabled,
        states.last().show_dialogue == states[0].show_dialogue,
        states.last().console_open == states[0].console_open,
        states.last().selected_slot == states[0].selected_slot,
        states.last().show_anim_preview == states[0].show_anim_preview,
        states.last().preview_anim_idx == states[0].preview_anim_idx,
        states.last().occupied@ == states[0].occupied@,
        forall|i: int| 0 <= i < effects.len() ==> effects[i] == EffectView::Nothing,
    decreases msgs.len(),
{
    if msgs.len() == 0 {
        assert(states[0].logs() + msgs =~= states[0].logs());
    } else {
        let n = msgs.len() - 1;
        assert forall|i: int| 0 <= i < n implies handle_post(
            #[trigger] states.drop_last()[i],
            states.drop_last()[i + 1],
            CommandView::Log(msgs.drop_last()[i]),
            effects.drop_last()[i],
        ) by {
            assert(handle_post(states[i], states[i + 1], CommandView::Log(msgs[i]), effects[i]));
        }
        law_logs_append_in_order(states.drop_last(), msgs.drop_last(), effects.drop_last());
        assert(handle_post(states[n], states[n + 1], CommandView::Log(msgs[n]), effects[n]));
        assert(states.drop_last().last() == states[n]);
        assert(states[0].logs() + msgs =~= (states[0].logs() + msgs.drop_last()).push(msgs[n]));
        assert forall|i: int| 0 <= i < effects.len() implies effects[i] == EffectView::Nothing by {
            if i < n {
                assert(effects.drop_last()[i] == effects[i]);
            }
        }
    }
}

} // verus!
