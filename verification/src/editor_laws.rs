//! What each editor operation does to the scenario, the scene on screen, the
//! typewriter and the slots, stated field by field over its inputs.

use vstd::prelude::*;
use crate::command::{AppCommand, CommandView};
use crate::editor::{
    animation_effect, animations_line, command_accepted, echo_line, handle_post, join_names,
    loading_line, slot_text, texts, idx_after_delete, idx_after_next, idx_after_prev,
    preview_back, preview_forward, scenes_after_add, scenes_after_delete, typewriter_step,
    with_dialogue, Effect, EditorState, EffectView, TYPEWRITER_INTERVAL_MICROS,
};
use crate::scenario::{blank_scene, opt_text, Scenario, Scene, SceneView, SLOT_COUNT};

verus! {

/// The panel's flags, selection and slots are the same in `a` and `b`.
pub open spec fn flags_kept(a: EditorState, b: EditorState) -> bool {
    &&& a.is_auto_enabled == b.is_auto_enabled
    &&& a.show_dialogue == b.show_dialogue
    &&& a.console_open == b.console_open
    &&& a.selected_slot == b.selected_slot
    &&& a.show_anim_preview == b.show_anim_preview
    &&& a.preview_anim_idx == b.preview_anim_idx
    &&& a.occupied@ == b.occupied@
}

/// Two scenes agree on everything but their line.
pub open spec fn same_but_line(a: SceneView, b: SceneView) -> bool {
    &&& a.bg_path == b.bg_path
    &&& a.bgm_path == b.bgm_path
    &&& a.char_paths == b.char_paths
    &&& a.char_anims == b.char_anims
    &&& a.speaker_name == b.speaker_name
    &&& a.speaker_aff == b.speaker_aff
}

/// Adding a scene at `i` inserts one scene right after scene `i`: a copy of
/// it with an empty line; the scenes before and after keep their places
/// relative to it.
pub proof fn law_add_scene_copies(s: Seq<SceneView>, i: int)
    requires
        0 <= i < s.len(),
    ensures
        scenes_after_add(s, i).len() == s.len() + 1,
        forall|j: int| 0 <= j <= i ==> scenes_after_add(s, i)[j] == s[j],
        same_but_line(scenes_after_add(s, i)[i + 1], s[i]),
        scenes_after_add(s, i)[i + 1].dialogue_content == Seq::<char>::empty(),
        forall|j: int| i < j < s.len() ==> scenes_after_add(s, i)[j + 1] == s[j],
{
}

/// Deleting scene `i` of several removes exactly that scene: one fewer,
/// those before it in place, those after it moved up by one; the only scene
/// is never deleted. The scene shown next is the one that took its place, or
/// the new last one.
pub proof fn law_delete_scene_removes(s: Seq<SceneView>, i: int)
    requires
        0 <= i < s.len(),
    ensures
        s.len() > 1 ==> scenes_after_delete(s, i).len() == s.len() - 1,
        s.len() > 1 ==> forall|j: int| 0 <= j < i ==> scenes_after_delete(s, i)[j] == s[j],
        s.len() > 1 ==> forall|j: int|
            i <= j < s.len() - 1 ==> scenes_after_delete(s, i)[j] == s[j + 1],
        s.len() == 1 ==> scenes_after_delete(s, i) == s,
        s.len() > 1 ==> 0 <= idx_after_delete(s.len() as int, i) < s.len() - 1,
        s.len() > 1 && i < s.len() - 1 ==> idx_after_delete(s.len() as int, i) == i,
        s.len() > 1 && i == s.len() - 1 ==> idx_after_delete(s.len() as int, i) == i - 1,
        s.len() == 1 ==> idx_after_delete(s.len() as int, i) == i,
{
}

/// "Next" moves one scene on unless on the last; "previous" moves one back
/// unless on the first.
pub proof fn law_scene_steps(len: int, idx: int)
    requires
        0 <= idx < len,
    ensures
        idx + 1 < len ==> idx_after_next(len, idx) == idx + 1,
        idx + 1 == len ==> idx_after_next(len, idx) == idx,
        idx > 0 ==> idx_after_prev(idx) == idx - 1,
        idx == 0 ==> idx_after_prev(idx) == 0,
{
}

/// Stepping the preview forward goes to the next animation and from the
/// last back to the first; stepping back goes to the previous one and from
/// the first to the last.
pub proof fn law_preview_steps(i: int, n: int)
    requires
        0 <= i < n,
    ensures
        i + 1 < n ==> preview_forward(i, n) == i + 1,
        i + 1 == n ==> preview_forward(i, n) == 0,
        i > 0 ==> preview_back(i, n) == i - 1,
        i == 0 ==> preview_back(i, n) == n - 1,
{
    if i + 1 == n {
        vstd::arithmetic::div_mod::lemma_mod_self_0(n);
    } else {
        vstd::arithmetic::div_mod::lemma_small_mod((i + 1) as nat, n as nat);
    }
    if i == 0 {
        vstd::arithmetic::div_mod::lemma_small_mod((n - 1) as nat, n as nat);
    } else {
        vstd::arithmetic::div_mod::lemma_fundamental_div_mod_converse(i + n - 1, n, 1, i - 1);
    }
}

/// The typewriter reveals one character per whole interval of the time
/// gathered, and keeps less than one interval over.
pub proof fn law_typewriter_counts_intervals(timer: int, dt: int)
    requires
        0 <= timer,
        0 <= dt,
    ensures
        typewriter_step(timer, dt).0 * (TYPEWRITER_INTERVAL_MICROS as int) + typewriter_step(
            timer,
            dt,
        ).1 == timer + dt,
        0 <= typewriter_step(timer, dt).1 < TYPEWRITER_INTERVAL_MICROS,
        typewriter_step(timer, dt).0 >= 0,
{
    vstd::arithmetic::div_mod::lemma_fundamental_div_mod(timer + dt, TYPEWRITER_INTERVAL_MICROS as int);
    vstd::arithmetic::div_mod::lemma_mod_bound(timer + dt, TYPEWRITER_INTERVAL_MICROS as int);
}

/// Replacing a scene's line changes that and nothing else.
pub proof fn law_with_dialogue(s: SceneView, c: Seq<char>)
    ensures
        with_dialogue(s, c).dialogue_content == c,
        same_but_line(with_dialogue(s, c), s),
{
}

/// The typewriter restarting, or showing the whole line, on the scene on
/// screen.
pub proof fn law_typewriter_states(st: EditorState)
    ensures
        st.typing_restarted() <==> (st.target_text@ == st.scenario@[st.current_scene_idx as int].dialogue_content
            && st.visible_count == 0 && st.type_timer_micros == 0),
        st.line_revealed() <==> (st.target_text@ == st.scenario@[st.current_scene_idx as int].dialogue_content
            && st.visible_count == st.target_text@.len() && st.type_timer_micros == 0),
{
}

/// The panel and story parts that operations leave alone.
pub proof fn law_unchanged_parts(a: EditorState, b: EditorState)
    ensures
        a.same_panel(&b) ==> (a.is_auto_enabled == b.is_auto_enabled && a.show_dialogue
            == b.show_dialogue && a.console_open == b.console_open && a.selected_slot
            == b.selected_slot && a.console_logs@.len() == b.console_logs@.len() && (forall|j: int|
            0 <= j < a.console_logs@.len() ==> a.console_logs@[j]@ == b.console_logs@[j]@)
            && a.show_anim_preview == b.show_anim_preview && a.preview_anim_idx
            == b.preview_anim_idx && a.occupied@ == b.occupied@),
        a.same_story(&b) ==> (a.scenario@ == b.scenario@ && a.current_scene_idx
            == b.current_scene_idx && a.target_text@ == b.target_text@ && a.visible_count
            == b.visible_count && a.type_timer_micros == b.type_timer_micros),
{
    if a.same_panel(&b) {
        assert(a.logs().len() == a.console_logs@.len());
        assert(b.logs().len() == b.console_logs@.len());
        assert forall|j: int| 0 <= j < a.console_logs@.len() implies a.console_logs@[j]@
            == b.console_logs@[j]@ by {
            assert(a.logs()[j] == a.console_logs@[j]@);
            assert(b.logs()[j] == b.console_logs@[j]@);
        }
    }
}

/// A line of dialogue goes into the scene on screen, and only there: the
/// other scenes, the scene's background, music and characters stay, and the
/// typewriter starts over on the new line.
pub proof fn law_dialogue_fills_scene_on_screen(
    old: EditorState,
    new: EditorState,
    name: Seq<char>,
    affiliation: Seq<char>,
    content: Seq<char>,
    e: EffectView,
)
    requires
        old.wf(),
        handle_post(old, new, CommandView::Dialogue { name, affiliation, content }, e),
    ensures
        flags_kept(new, old),
        new.scenario@.len() == old.scenario@.len(),
        new.current_scene_idx == old.current_scene_idx,
        new.scenario@[old.current_scene_idx as int].speaker_name == name,
        new.scenario@[old.current_scene_idx as int].speaker_aff == affiliation,
        new.scenario@[old.current_scene_idx as int].dialogue_content == content,
        new.scenario@[old.current_scene_idx as int].bg_path == old.scenario@[old.current_scene_idx as int].bg_path,
        new.scenario@[old.current_scene_idx as int].bgm_path == old.scenario@[old.current_scene_idx as int].bgm_path,
        new.scenario@[old.current_scene_idx as int].char_paths == old.scenario@[old.current_scene_idx as int].char_paths,
        new.scenario@[old.current_scene_idx as int].char_anims == old.scenario@[old.current_scene_idx as int].char_anims,
        forall|j: int|
            0 <= j < old.scenario@.len() && j != old.current_scene_idx ==> new.scenario@[j]
                == old.scenario@[j],
        new.target_text@ == content,
        new.visible_count == 0,
        new.type_timer_micros == 0,
        new.console_logs@.len() == old.console_logs@.len(),
        new.occupied@ == old.occupied@,
        e == EffectView::Nothing,
{
    assert(new.logs().len() == old.logs().len());
}

/// A background goes into the scene on screen, and only there; everything
/// else about the scenes and the typewriter stays, and the image is loaded.
pub proof fn law_background_on_scene_on_screen(
    old: EditorState,
    new: EditorState,
    path: Seq<char>,
    e: EffectView,
)
    requires
        old.wf(),
        handle_post(old, new, CommandView::LoadBackground(path), e),
    ensures
        flags_kept(new, old),
        new.scenario@.len() == old.scenario@.len(),
        new.current_scene_idx == old.current_scene_idx,
        new.scenario@[old.current_scene_idx as int].bg_path == Some(path),
        new.scenario@[old.current_scene_idx as int].bgm_path == old.scenario@[old.current_scene_idx as int].bgm_path,
        new.scenario@[old.current_scene_idx as int].speaker_name == old.scenario@[old.current_scene_idx as int].speaker_name,
        new.scenario@[old.current_scene_idx as int].speaker_aff == old.scenario@[old.current_scene_idx as int].speaker_aff,
        new.scenario@[old.current_scene_idx as int].dialogue_content == old.scenario@[old.current_scene_idx as int].dialogue_content,
        new.scenario@[old.current_scene_idx as int].char_paths == old.scenario@[old.current_scene_idx as int].char_paths,
        new.scenario@[old.current_scene_idx as int].char_anims == old.scenario@[old.current_scene_idx as int].char_anims,
        forall|j: int|
            0 <= j < old.scenario@.len() && j != old.current_scene_idx ==> new.scenario@[j]
                == old.scenario@[j],
        new.target_text@ == old.target_text@,
        new.visible_count == old.visible_count,
        e == EffectView::SpawnBackgroundLoad(path),
{
}

/// Music goes into the scene on screen, and only there, and is read to be
/// played looping.
pub proof fn law_music_on_scene_on_screen(
    old: EditorState,
    new: EditorState,
    path: Seq<char>,
    e: EffectView,
)
    requires
        old.wf(),
        handle_post(old, new, CommandView::PlayBgm(path), e),
    ensures
        flags_kept(new, old),
        new.scenario@.len() == old.scenario@.len(),
        new.current_scene_idx == old.current_scene_idx,
        new.scenario@[old.current_scene_idx as int].bgm_path == Some(path),
        new.scenario@[old.current_scene_idx as int].bg_path == old.scenario@[old.current_scene_idx as int].bg_path,
        new.scenario@[old.current_scene_idx as int].speaker_name == old.scenario@[old.current_scene_idx as int].speaker_name,
        new.scenario@[old.current_scene_idx as int].speaker_aff == old.scenario@[old.current_scene_idx as int].speaker_aff,
        new.scenario@[old.current_scene_idx as int].dialogue_content == old.scenario@[old.current_scene_idx as int].dialogue_content,
        new.scenario@[old.current_scene_idx as int].char_paths == old.scenario@[old.current_scene_idx as int].char_paths,
        new.scenario@[old.current_scene_idx as int].char_anims == old.scenario@[old.current_scene_idx as int].char_anims,
        forall|j: int|
            0 <= j < old.scenario@.len() && j != old.current_scene_idx ==> new.scenario@[j]
                == old.scenario@[j],
        new.target_text@ == old.target_text@,
        new.visible_count == old.visible_count,
        e == (EffectView::ReadAudio { path, is_bgm: true }),
{
}

/// Sound effects and stopping the music leave the scenario, the scene on
/// screen and the typewriter as they were.
pub proof fn law_sound_leaves_scenario(
    old: EditorState,
    new: EditorState,
    cmd: CommandView,
    e: EffectView,
)
    requires
        old.wf(),
        cmd is PlaySe || cmd is StopBgm,
        handle_post(old, new, cmd, e),
    ensures
        flags_kept(new, old),
        new.scenario@ == old.scenario@,
        new.current_scene_idx == old.current_scene_idx,
        new.target_text@ == old.target_text@,
        new.visible_count == old.visible_count,
        new.occupied@ == old.occupied@,
        cmd is StopBgm ==> e == EffectView::StopBgm,
        cmd matches CommandView::PlaySe(p) ==> e == (EffectView::ReadAudio { path: p, is_bgm: false }),
{
}

/// A log message, or the notice that a character is loading, is appended to
/// the console log; the scenario stays.
pub proof fn law_log_lines_appended(
    old: EditorState,
    new: EditorState,
    cmd: CommandView,
    e: EffectView,
)
    requires
        old.wf(),
        cmd is Log || cmd is RequestLoad,
        handle_post(old, new, cmd, e),
    ensures
        flags_kept(new, old),
        new.console_logs@.len() == old.console_logs@.len() + 1,
        forall|j: int|
            0 <= j < old.console_logs@.len() ==> new.console_logs@[j]@ == old.console_logs@[j]@,
        cmd matches CommandView::Log(m) ==> new.console_logs@.last()@ == m && e
            == EffectView::Nothing,
        cmd matches CommandView::RequestLoad { slot_idx, path } ==> new.console_logs@.last()@
            == "[解析] "@ + path && e == (EffectView::SpawnSpineLoad { slot_idx, path }),
        new.scenario@ == old.scenario@,
        new.current_scene_idx == old.current_scene_idx,
        new.occupied@ == old.occupied@,
{
    assert(new.logs().len() == old.logs().len() + 1);
    assert forall|j: int| 0 <= j < old.console_logs@.len() implies new.console_logs@[j]@
        == old.console_logs@[j]@ by {
        assert(new.logs()[j] == old.logs()[j]);
    }
    assert(new.logs()[old.logs().len() as int] == new.console_logs@.last()@);
}

/// Removing the character of slot `i` empties that slot and no other.
pub proof fn law_remove_empties_slot(old: EditorState, new: EditorState, i: usize, e: EffectView)
    requires
        old.wf(),
        i < SLOT_COUNT,
        handle_post(old, new, CommandView::RemoveCharacter(i), e),
    ensures
        new.occupied@.len() == old.occupied@.len(),
        !new.occupied@[i as int],
        forall|j: int| 0 <= j < old.occupied@.len() && j != i ==> new.occupied@[j] == old.occupied@[j],
        new.scenario@ == old.scenario@,
        e == EffectView::ClearCharacter(i),
{
}

/// A request to animate a slot is passed on exactly when a character is
/// loaded there, with its name and looping as asked; nothing else changes.
pub proof fn law_animate_only_loaded(
    old: EditorState,
    new: EditorState,
    slot: usize,
    anim_name: Seq<char>,
    loop_anim: bool,
    e: EffectView,
)
    requires
        old.wf(),
        handle_post(old, new, CommandView::SetAnimation { slot_idx: slot, anim_name, loop_anim }, e),
    ensures
        (slot < SLOT_COUNT && old.occupied@[slot as int]) ==> e == (EffectView::ApplyAnimation {
            slot_idx: slot,
            anim_name,
            loop_anim,
        }),
        !(slot < SLOT_COUNT && old.occupied@[slot as int]) ==> e == EffectView::Nothing,
        new.scenario@ == old.scenario@,
        new.occupied@ == old.occupied@,
        new.current_scene_idx == old.current_scene_idx,
{
}

/// A loaded scenario replaces the old one and shows its first scene whole.
pub proof fn law_scenario_loaded(
    old: EditorState,
    new: EditorState,
    scenes: Seq<SceneView>,
    e: EffectView,
)
    requires
        old.wf(),
        handle_post(old, new, CommandView::ScenarioLoaded(scenes), e),
    ensures
        flags_kept(new, old),
        new.scenario@ == scenes,
        new.current_scene_idx == 0,
        new.target_text@ == new.scenario@[0].dialogue_content,
        new.visible_count == new.target_text@.len(),
        e == EffectView::Nothing,
{
}

/// The commands handled are all but the removal of a slot past the fifth and
/// the loading of a scenario without scenes.
pub proof fn law_accepted_commands(cmd: CommandView)
    ensures
        command_accepted(cmd) <==> match cmd {
            CommandView::RemoveCharacter(i) => i < 5,
            CommandView::ScenarioLoaded(scenes) => scenes.len() > 0,
            _ => true,
        },
{
}

/// The names in an animation list are separated by a comma and a space.
pub proof fn law_join_names(names: Seq<Seq<char>>, x: Seq<char>)
    ensures
        join_names(Seq::empty()) == Seq::<char>::empty(),
        join_names(seq![x]) == x,
        names.len() > 0 ==> join_names(names.push(x)) == join_names(names) + seq![',', ' '] + x,
{
    reveal_strlit(", ");
    assert(names.push(x).drop_last() =~= names);
}

/// The log lines: a console line is echoed after `> `, a load is announced
/// after `[解析] `, and a loaded character's list names its slot digit and then
/// its animations.
pub proof fn law_log_line_shapes(t: Seq<char>, slot: usize, names: Seq<Seq<char>>)
    requires
        slot < SLOT_COUNT,
    ensures
        echo_line(t) == seq!['>', ' '] + t,
        loading_line(t) == "[解析] "@ + t,
        slot_text(slot) == seq![((0x30 + slot) as u32) as char],
        animations_line(slot, names) == "[动作] 槽位 "@ + seq![((0x30 + slot) as u32) as char]
            + seq![':', ' '] + join_names(names),
{
    reveal_strlit("> ");
    reveal_strlit(": ");
    reveal_strlit("0");
    reveal_strlit("1");
    reveal_strlit("2");
    reveal_strlit("3");
    reveal_strlit("4");
    assert(slot_text(slot) =~= seq![((0x30 + slot) as u32) as char]);
    assert(seq!['>', ' '] =~= "> "@);
    assert(seq![':', ' '] =~= ": "@);
}

/// The typewriter is typing while dialogue is shown and part of the line is
/// still hidden.
pub proof fn law_typing_active(st: EditorState)
    ensures
        st.typing_active() <==> (st.show_dialogue && st.visible_count < st.target_text@.len()),
{
}

/// A new scene has no paths, no characters in its five slots, and empty texts.
pub proof fn law_blank_scene()
    ensures
        blank_scene().bg_path is None,
        blank_scene().bgm_path is None,
        blank_scene().char_paths.len() == 5,
        blank_scene().char_anims.len() == 5,
        forall|i: int| 0 <= i < 5 ==> (#[trigger] blank_scene().char_paths[i]) is None,
        forall|i: int| 0 <= i < 5 ==> (#[trigger] blank_scene().char_anims[i]) is None,
        blank_scene().speaker_name.len() == 0,
        blank_scene().speaker_aff.len() == 0,
        blank_scene().dialogue_content.len() == 0,
{
}

/// An optional text is seen by its characters.
pub proof fn law_opt_text(o: Option<String>)
    ensures
        o is None ==> opt_text(o) is None,
        o matches Some(s) ==> opt_text(o) == Some(s@),
{
}

/// A command is seen with each text by its characters and every other value
/// as it is.
pub proof fn law_command_view(c: AppCommand)
    ensures
        match c {
            AppCommand::Dialogue { name, affiliation, content } => c@ == (CommandView::Dialogue {
                name: name@,
                affiliation: affiliation@,
                content: content@,
            }),
            AppCommand::RequestLoad { slot_idx, path } => c@ == (CommandView::RequestLoad {
                slot_idx,
                path: path@,
            }),
            AppCommand::RemoveCharacter(i) => c@ == CommandView::RemoveCharacter(i),
            AppCommand::LoadBackground(p) => c@ == CommandView::LoadBackground(p@),
            AppCommand::PlayBgm(p) => c@ == CommandView::PlayBgm(p@),
            AppCommand::PlaySe(p) => c@ == CommandView::PlaySe(p@),
            AppCommand::StopBgm => c@ == CommandView::StopBgm,
            AppCommand::SetAnimation { slot_idx, anim_name, loop_anim } => c@
                == (CommandView::SetAnimation { slot_idx, anim_name: anim_name@, loop_anim }),
            AppCommand::Log(m) => c@ == CommandView::Log(m@),
            AppCommand::ScenarioLoaded(sc) => c@ == CommandView::ScenarioLoaded(sc@),
        },
{
}

/// An effect is seen with each text by its characters and every other value
/// as it is.
pub proof fn law_effect_view(e: Effect)
    ensures
        match e {
            Effect::Nothing => e@ == EffectView::Nothing,
            Effect::SpawnSpineLoad { slot_idx, path } => e@ == (EffectView::SpawnSpineLoad {
                slot_idx,
                path: path@,
            }),
            Effect::ClearCharacter(i) => e@ == EffectView::ClearCharacter(i),
            Effect::SpawnBackgroundLoad(p) => e@ == EffectView::SpawnBackgroundLoad(p@),
            Effect::ApplyAnimation { slot_idx, anim_name, loop_anim } => e@
                == (EffectView::ApplyAnimation { slot_idx, anim_name: anim_name@, loop_anim }),
            Effect::ReadAudio { path, is_bgm } => e@ == (EffectView::ReadAudio { path: path@, is_bgm }),
            Effect::StopBgm => e@ == EffectView::StopBgm,
        },
{
}

/// A scene is seen field by field, each text by its characters; a scenario
/// is seen scene by scene, in order.
pub proof fn law_scene_views(sc: Scene, story: Scenario)
    ensures
        sc@.bg_path == opt_text(sc.bg_path),
        sc@.bgm_path == opt_text(sc.bgm_path),
        sc@.char_paths.len() == 5,
        sc@.char_anims.len() == 5,
        forall|i: int| 0 <= i < 5 ==> #[trigger] sc@.char_paths[i] == opt_text(sc.char_paths@[i]),
        forall|i: int| 0 <= i < 5 ==> #[trigger] sc@.char_anims[i] == opt_text(sc.char_anims@[i]),
        sc@.speaker_name == sc.speaker_name@,
        sc@.speaker_aff == sc.speaker_aff@,
        sc@.dialogue_content == sc.dialogue_content@,
        story@.len() == story.scenes@.len(),
        forall|i: int| 0 <= i < story.scenes@.len() ==> #[trigger] story@[i] == story.scenes@[i]@,
{
}

/// A list of texts is seen text by text, in order.
pub proof fn law_texts(v: Seq<String>)
    ensures
        texts(v).len() == v.len(),
        forall|i: int| 0 <= i < v.len() ==> #[trigger] texts(v)[i] == v[i]@,
{
}

} // verus!
