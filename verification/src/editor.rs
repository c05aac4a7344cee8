//! The editor's state: the scenario being written, the scene on screen, the
//! typewriter that reveals its line, the console log and the character slots.

use vstd::prelude::*;
use crate::scenario::{blank_scene, Scenario, Scene, SceneView, SLOT_COUNT};
use crate::command::{command_view, parse_command, parse_panics, spec_parse, AppCommand, CommandView};
use crate::text::{chars_of, trim, trim_range};

verus! {

/// Time between two characters revealed by the typewriter, in microseconds.
pub const TYPEWRITER_INTERVAL_MICROS: u64 = 30000;

/// What the editor holds between two frames, apart from what only the
/// graphics, audio and animation engines can hold.
#[derive(Debug)]
pub struct EditorState {
    pub scenario: Scenario,
    pub current_scene_idx: usize,
    /// The line the typewriter is revealing, as text and as characters.
    pub target_text: String,
    pub target_chars: Vec<char>,
    /// How many characters of the line are revealed.
    pub visible_count: usize,
    /// Time gathered towards the next character, in microseconds.
    pub type_timer_micros: u64,
    pub is_auto_enabled: bool,
    pub show_dialogue: bool,
    pub console_open: bool,
    pub selected_slot: usize,
    pub console_logs: Vec<String>,
    pub show_anim_preview: bool,
    pub preview_anim_idx: usize,
    /// Which character slots hold a loaded character.
    pub occupied: Vec<bool>,
}

/// The scene view with its line replaced.
pub open spec fn with_dialogue(s: SceneView, content: Seq<char>) -> SceneView {
    SceneView { dialogue_content: content, ..s }
}

/// The scenes after "add a scene" at `idx`: a copy of scene `idx` with an
/// empty line, inserted right after it.
pub open spec fn scenes_after_add(scenes: Seq<SceneView>, idx: int) -> Seq<SceneView> {
    scenes.insert(idx + 1, with_dialogue(scenes[idx], Seq::empty()))
}

/// The scenes after "delete the scene" at `idx`: unchanged when it is the only one.
pub open spec fn scenes_after_delete(scenes: Seq<SceneView>, idx: int) -> Seq<SceneView> {
    if scenes.len() > 1 {
        scenes.remove(idx)
    } else {
        scenes
    }
}

/// The scene shown after "delete the scene" at `idx` of `len` scenes.
pub open spec fn idx_after_delete(len: int, idx: int) -> int {
    if len > 1 {
        if idx < len - 1 {
            idx
        } else {
            len - 2
        }
    } else {
        idx
    }
}

/// The scene shown after "previous scene".
pub open spec fn idx_after_prev(idx: int) -> int {
    if idx > 0 {
        idx - 1
    } else {
        idx
    }
}

/// The scene shown after "next scene" among `len` scenes.
pub open spec fn idx_after_next(len: int, idx: int) -> int {
    if idx < len - 1 {
        idx + 1
    } else {
        idx
    }
}


/// What the editor asks of the engines around it after a command.
#[derive(Debug)]
pub enum Effect {
    /// Nothing to do.
    Nothing,
    /// Load the Spine character at `path` in the background, for slot `slot_idx`.
    SpawnSpineLoad { slot_idx: usize, path: String },
    /// Drop the character in a slot.
    ClearCharacter(usize),
    /// Load the image at the path in the background, as the background.
    SpawnBackgroundLoad(String),
    /// Switch the animation of the character in a slot.
    ApplyAnimation { slot_idx: usize, anim_name: String, loop_anim: bool },
    /// Read the audio file at `path` in the background, then play it as
    /// music (`is_bgm`) or as a sound effect.
    ReadAudio { path: String, is_bgm: bool },
    /// Stop the background music.
    StopBgm,
}

/// An effect with its texts taken by their characters.
pub enum EffectView {
    Nothing,
    SpawnSpineLoad { slot_idx: usize, path: Seq<char> },
    ClearCharacter(usize),
    SpawnBackgroundLoad(Seq<char>),
    ApplyAnimation { slot_idx: usize, anim_name: Seq<char>, loop_anim: bool },
    ReadAudio { path: Seq<char>, is_bgm: bool },
    StopBgm,
}

impl View for Effect {
    type V = EffectView;

    open spec fn view(&self) -> EffectView {
        match self {
            Effect::Nothing => EffectView::Nothing,
            Effect::SpawnSpineLoad { slot_idx, path } => EffectView::SpawnSpineLoad {
                slot_idx: *slot_idx,
                path: path@,
            },
            Effect::ClearCharacter(i) => EffectView::ClearCharacter(*i),
            Effect::SpawnBackgroundLoad(p) => EffectView::SpawnBackgroundLoad(p@),
            Effect::ApplyAnimation { slot_idx, anim_name, loop_anim } => EffectView::ApplyAnimation {
                slot_idx: *slot_idx,
                anim_name: anim_name@,
                loop_anim: *loop_anim,
            },
            Effect::ReadAudio { path, is_bgm } => EffectView::ReadAudio {
                path: path@,
                is_bgm: *is_bgm,
            },
            Effect::StopBgm => EffectView::StopBgm,
        }
    }
}

/// The log line that echoes a console line.
pub open spec fn echo_line(t: Seq<char>) -> Seq<char> {
    "> "@ + t
}

/// The names of a list of texts, taken by their characters.
pub open spec fn texts(v: Seq<String>) -> Seq<Seq<char>> {
    v.map_values(|s: String| s@)
}

/// `names` separated by commas.
pub open spec fn join_names(names: Seq<Seq<char>>) -> Seq<char>
    decreases names.len(),
{
    if names.len() == 0 {
        Seq::empty()
    } else if names.len() == 1 {
        names[0]
    } else {
        join_names(names.drop_last()) + ", "@ + names.last()
    }
}

/// The number of a character slot, written out.
pub open spec fn slot_text(slot: usize) -> Seq<char> {
    if slot == 0 {
        "0"@
    } else if slot == 1 {
        "1"@
    } else if slot == 2 {
        "2"@
    } else if slot == 3 {
        "3"@
    } else {
        "4"@
    }
}

/// The log line written when a character has loaded into `slot`: every
/// animation it offers, in order.
pub open spec fn animations_line(slot: usize, names: Seq<Seq<char>>) -> Seq<char> {
    "[动作] 槽位 "@ + slot_text(slot) + ": "@ + join_names(names)
}

/// The log line written when a character starts loading.
pub open spec fn loading_line(path: Seq<char>) -> Seq<char> {
    "[解析] "@ + path
}

/// The effect of a request to animate slot `slot` when `occupied` tells
/// which slots hold a character: only a loaded slot is animated.
pub open spec fn animation_effect(
    occupied: Seq<bool>,
    slot: usize,
    anim_name: Seq<char>,
    loop_anim: bool,
) -> EffectView {
    if slot < occupied.len() && occupied[slot as int] {
        EffectView::ApplyAnimation { slot_idx: slot, anim_name, loop_anim }
    } else {
        EffectView::Nothing
    }
}

/// What handling command `cmd` does: `new` is the state after it and `e`
/// what it asks of the engines.
pub open spec fn handle_post(
    old: EditorState,
    new: EditorState,
    cmd: CommandView,
    e: EffectView,
) -> bool {
    let idx = old.current_scene_idx as int;
    let cur = old.current_view();
    match cmd {
        CommandView::Dialogue { name, affiliation, content } => {
            &&& new.scenario@ == old.scenario@.update(
                idx,
                SceneView {
                    speaker_name: name,
                    speaker_aff: affiliation,
                    dialogue_content: content,
                    ..cur
                },
            )
            &&& new.current_scene_idx == old.current_scene_idx
            &&& new.typing_restarted()
            &&& new.same_panel(&old)
            &&& e == EffectView::Nothing
        },
        CommandView::Log(m) => {
            &&& new.same_story(&old)
            &&& new.logs() == old.logs().push(m)
            &&& new.is_auto_enabled == old.is_auto_enabled
            &&& new.show_dialogue == old.show_dialogue
            &&& new.console_open == old.console_open
            &&& new.selected_slot == old.selected_slot
            &&& new.show_anim_preview == old.show_anim_preview
            &&& new.preview_anim_idx == old.preview_anim_idx
            &&& new.occupied@ == old.occupied@
            &&& e == EffectView::Nothing
        },
        CommandView::RequestLoad { slot_idx, path } => {
            &&& new.same_story(&old)
            &&& new.logs() == old.logs().push(loading_line(path))
            &&& new.is_auto_enabled == old.is_auto_enabled
            &&& new.show_dialogue == old.show_dialogue
            &&& new.console_open == old.console_open
            &&& new.selected_slot == old.selected_slot
            &&& new.show_anim_preview == old.show_anim_preview
            &&& new.preview_anim_idx == old.preview_anim_idx
            &&& new.occupied@ == old.occupied@
            &&& e == EffectView::SpawnSpineLoad { slot_idx, path }
        },
        CommandView::RemoveCharacter(i) => {
            &&& new.same_story(&old)
            &&& new.logs() == old.logs()
            &&& new.is_auto_enabled == old.is_auto_enabled
            &&& new.show_dialogue == old.show_dialogue
            &&& new.console_open == old.console_open
            &&& new.selected_slot == old.selected_slot
            &&& new.show_anim_preview == old.show_anim_preview
            &&& new.preview_anim_idx == old.preview_anim_idx
            &&& new.occupied@ == old.occupied@.update(i as int, false)
            &&& e == EffectView::ClearCharacter(i)
        },
        CommandView::LoadBackground(p) => {
            &&& new.scenario@ == old.scenario@.update(idx, SceneView { bg_path: Some(p), ..cur })
            &&& new.current_scene_idx == old.current_scene_idx
            &&& new.target_text@ == old.target_text@
            &&& new.visible_count == old.visible_count
            &&& new.type_timer_micros == old.type_timer_micros
            &&& new.same_panel(&old)
            &&& e == EffectView::SpawnBackgroundLoad(p)
        },
        CommandView::SetAnimation { slot_idx, anim_name, loop_anim } => {
            &&& new.same_story(&old)
            &&& new.same_panel(&old)
            &&& e == animation_effect(old.occupied@, slot_idx, anim_name, loop_anim)
        },
        CommandView::PlayBgm(p) => {
            &&& new.scenario@ == old.scenario@.update(idx, SceneView { bgm_path: Some(p), ..cur })
            &&& new.current_scene_idx == old.current_scene_idx
            &&& new.target_text@ == old.target_text@
            &&& new.visible_count == old.visible_count
            &&& new.type_timer_micros == old.type_timer_micros
            &&& new.same_panel(&old)
            &&& e == EffectView::ReadAudio { path: p, is_bgm: true }
        },
        CommandView::PlaySe(p) => {
            &&& new.same_story(&old)
            &&& new.same_panel(&old)
            &&& e == EffectView::ReadAudio { path: p, is_bgm: false }
        },
        CommandView::StopBgm => {
            &&& new.same_story(&old)
            &&& new.same_panel(&old)
            &&& e == EffectView::StopBgm
        },
        CommandView::ScenarioLoaded(scenes) => {
            &&& new.scenario@ == scenes
            &&& new.current_scene_idx == 0
            &&& new.line_revealed()
            &&& new.same_panel(&old)
            &&& e == EffectView::Nothing
        },
    }
}

/// The commands that can be handled: a slot to empty must exist, and a
/// loaded scenario must hold a scene.
pub open spec fn command_accepted(cmd: CommandView) -> bool {
    match cmd {
        CommandView::RemoveCharacter(i) => i < SLOT_COUNT,
        CommandView::ScenarioLoaded(scenes) => scenes.len() > 0,
        _ => true,
    }
}


/// How many characters the typewriter reveals, and the time left over, when
/// `dt` microseconds pass with `timer` already gathered.
pub open spec fn typewriter_step(timer: int, dt: int) -> (int, int) {
    ((timer + dt) / (TYPEWRITER_INTERVAL_MICROS as int), (timer + dt) % (TYPEWRITER_INTERVAL_MICROS as int))
}

/// The preview index after stepping forward through `n` animations.
pub open spec fn preview_forward(idx: int, n: int) -> int {
    (idx + 1) % n
}

/// The preview index after stepping back through `n` animations.
pub open spec fn preview_back(idx: int, n: int) -> int {
    (idx + n - 1) % n
}


proof fn lemma_cycle_steps(i: int, n: int)
    requires
        0 <= i < n,
    ensures
        preview_forward(i, n) == (if i + 1 == n { 0 } else { i + 1 }),
        preview_back(i, n) == (if i == 0 { n - 1 } else { i - 1 }),
{
    if i + 1 == n {
        vstd::arithmetic::div_mod::lemma_mod_self_0(n);
    } else {
        vstd::arithmetic::div_mod::lemma_small_mod((i + 1) as nat, n as nat);
    }
    if i == 0 {
        vstd::arithmetic::div_mod::lemma_small_mod((n - 1) as nat, n as nat);
    } else {
        vstd::arithmetic::div_mod::lemma_fundamental_div_mod_converse(i + n - 1, n, 1, i - 1);
    }
}

/// The log line that lists the animations of the character loaded into `slot`.
pub fn animations_text(slot: usize, anim_names: &Vec<String>) -> (r: String)
    requires
        slot < SLOT_COUNT,
    ensures
        r@ == animations_line(slot, texts(anim_names@)),
{
    let mut r = "[动作] 槽位 ".to_owned();
    if slot == 0 {
        r.append("0");
    } else if slot == 1 {
        r.append("1");
    } else if slot == 2 {
        r.append("2");
    } else if slot == 3 {
        r.append("3");
    } else {
        r.append("4");
    }
    r.append(": ");
    let ghost head = r@;
    assert(head == "[动作] 槽位 "@ + slot_text(slot) + ": "@);
    let ghost all = texts(anim_names@);
    let mut i: usize = 0;
    assert(all.take(0) =~= Seq::<Seq<char>>::empty());
    while i < anim_names.len()
        invariant
            i <= anim_names@.len(),
            all == texts(anim_names@),
            head == "[动作] 槽位 "@ + slot_text(slot) + ": "@,
            r@ == head + join_names(all.take(i as int)),
        decreases anim_names@.len() - i,
    {
        assert(all.take(i + 1).drop_last() =~= all.take(i as int));
        assert(all.take(i + 1).last() == anim_names@[i as int]@);
        if i > 0 {
            r.append(", ");
        } else {
            assert(all.take(1) =~= seq![anim_names@[0]@]);
        }
        r.append(anim_names[i].as_str());
        proof {
            if i > 0 {
                assert(r@ =~= head + (join_names(all.take(i as int)) + ", "@ + anim_names@[i as int]@));
            } else {
                assert(r@ =~= head + join_names(all.take(1)));
            }
        }
        i = i + 1;
    }
    assert(all.take(anim_names@.len() as int) =~= all);
    r
}

impl EditorState {
    /// The state's invariant.
    pub open spec fn wf(&self) -> bool {
        &&& self.scenario.scenes.len() > 0
        &&& self.current_scene_idx < self.scenario.scenes.len()
        &&& self.target_chars@ == self.target_text@
        &&& self.type_timer_micros < TYPEWRITER_INTERVAL_MICROS
        &&& self.selected_slot < SLOT_COUNT
        &&& self.occupied.len() == SLOT_COUNT
    }

    /// The console log, line by line.
    pub open spec fn logs(&self) -> Seq<Seq<char>> {
        self.console_logs@.map_values(|s: String| s@)
    }

    /// The scene on screen.
    pub open spec fn current_view(&self) -> SceneView {
        self.scenario@[self.current_scene_idx as int]
    }

    /// The typewriter starts over on the line of the scene on screen.
    pub open spec fn typing_restarted(&self) -> bool {
        &&& self.target_text@ == self.current_view().dialogue_content
        &&& self.visible_count == 0
        &&& self.type_timer_micros == 0
    }

    /// The typewriter shows the whole line of the scene on screen at once.
    pub open spec fn line_revealed(&self) -> bool {
        &&& self.target_text@ == self.current_view().dialogue_content
        &&& self.visible_count == self.target_text@.len()
        &&& self.type_timer_micros == 0
    }

    /// The panel's own state (flags, log, slots) is the same in `self` and `other`.
    pub open spec fn same_panel(&self, other: &EditorState) -> bool {
        &&& self.is_auto_enabled == other.is_auto_enabled
        &&& self.show_dialogue == other.show_dialogue
        &&& self.console_open == other.console_open
        &&& self.selected_slot == other.selected_slot
        &&& self.logs() == other.logs()
        &&& self.show_anim_preview == other.show_anim_preview
        &&& self.preview_anim_idx == other.preview_anim_idx
        &&& self.occupied@ == other.occupied@
    }

    /// The story side (scenario, scene on screen, typewriter) is the same in
    /// `self` and `other`.
    pub open spec fn same_story(&self, other: &EditorState) -> bool {
        &&& self.scenario@ == other.scenario@
        &&& self.current_scene_idx == other.current_scene_idx
        &&& self.target_text@ == other.target_text@
        &&& self.visible_count == other.visible_count
        &&& self.type_timer_micros == other.type_timer_micros
    }

    /// The editor as it starts: one scene holding the greeting, typing from
    /// its start, the console log greeting the user, every slot empty.
    pub fn new() -> (r: EditorState)
        ensures
            r.wf(),
            r.scenario@ == seq![
                SceneView {
                    speaker_name: "OxidizedSchale"@,
                    speaker_aff: "The Executive Committee of GNA:AEFR"@,
                    dialogue_content: "GNA:AEFR 已启动！\n正在等待指令......"@,
                    ..blank_scene()
                },
            ],
            r.current_scene_idx == 0,
            r.typing_restarted(),
            r.is_auto_enabled,
            r.show_dialogue,
            !r.console_open,
            r.selected_slot == 0,
            r.logs() == seq!["[系统] 编辑器就绪。"@],
            !r.show_anim_preview,
            r.preview_anim_idx == 0,
            r.occupied@ == seq![false, false, false, false, false],
    {
        let startup_text = "GNA:AEFR 已启动！\n正在等待指令......";
        let mut first_scene = Scene::default();
        first_scene.speaker_name = "OxidizedSchale".to_owned();
        first_scene.speaker_aff = "The Executive Committee of GNA:AEFR".to_owned();
        first_scene.dialogue_content = startup_text.to_owned();
        let mut scenes: Vec<Scene> = Vec::new();
        scenes.push(first_scene);
        let mut console_logs: Vec<String> = Vec::new();
        console_logs.push("[系统] 编辑器就绪。".to_owned());
        let target_text = startup_text.to_owned();
        let target_chars = chars_of(startup_text);
        let r = EditorState {
            scenario: Scenario { scenes },
            current_scene_idx: 0,
            target_text,
            target_chars,
            visible_count: 0,
            type_timer_micros: 0,
            is_auto_enabled: true,
            show_dialogue: true,
            console_open: false,
            selected_slot: 0,
            console_logs,
            show_anim_preview: false,
            preview_anim_idx: 0,
            occupied: vec![false, false, false, false, false],
        };
        assert(r.scenario@ =~= seq![r.scenario.scenes@[0]@]);
        assert(r.logs() =~= seq!["[系统] 编辑器就绪。"@]);
        r
    }

    /// Starts the typewriter over on the line of the scene on screen.
    pub fn sync_scene_to_ui(&mut self)
        requires
            old(self).wf(),
        ensures
            final(self).wf(),
            final(self).scenario@ == old(self).scenario@,
            final(self).current_scene_idx == old(self).current_scene_idx,
            final(self).typing_restarted(),
            final(self).same_panel(old(self)),
    {
        let content = self.scenario.scenes[self.current_scene_idx].dialogue_content.clone();
        self.target_chars = chars_of(content.as_str());
        self.target_text = content;
        self.visible_count = 0;
        self.type_timer_micros = 0;
    }

    /// Shows the line of the scene on screen whole.
    fn reveal_current_line(&mut self)
        requires
            old(self).wf(),
        ensures
            final(self).wf(),
            final(self).scenario@ == old(self).scenario@,
            final(self).current_scene_idx == old(self).current_scene_idx,
            final(self).line_revealed(),
            final(self).same_panel(old(self)),
    {
        self.sync_scene_to_ui();
        self.visible_count = self.target_chars.len();
    }

    /// Goes to the previous scene, if there is one, and shows its line whole.
    pub fn prev_scene(&mut self)
        requires
            old(self).wf(),
        ensures
            final(self).wf(),
            final(self).scenario@ == old(self).scenario@,
            final(self).current_scene_idx == idx_after_prev(old(self).current_scene_idx as int),
            old(self).current_scene_idx > 0 ==> final(self).line_revealed(),
            old(self).current_scene_idx == 0 ==> final(self).same_story(old(self)),
            final(self).same_panel(old(self)),
    {
        if self.current_scene_idx > 0 {
            self.current_scene_idx = self.current_scene_idx - 1;
            self.reveal_current_line();
        }
    }

    /// Goes to the next scene, if there is one, and shows its line whole.
    pub fn next_scene(&mut self)
        requires
            old(self).wf(),
        ensures
            final(self).wf(),
            final(self).scenario@ == old(self).scenario@,
            final(self).current_scene_idx == idx_after_next(
                old(self).scenario@.len() as int,
                old(self).current_scene_idx as int,
            ),
            old(self).current_scene_idx + 1 < old(self).scenario@.len() ==> final(self).line_revealed(),
            old(self).current_scene_idx + 1 >= old(self).scenario@.len() ==> final(self).same_story(
                old(self),
            ),
            final(self).same_panel(old(self)),
    {
        if self.current_scene_idx < self.scenario.scenes.len() - 1 {
            self.current_scene_idx = self.current_scene_idx + 1;
            self.reveal_current_line();
        }
    }

    /// Adds a scene after the one on screen: a copy of it with an empty line,
    /// and goes to it.
    pub fn add_scene(&mut self)
        requires
            old(self).wf(),
        ensures
            final(self).wf(),
            final(self).scenario@ == scenes_after_add(
                old(self).scenario@,
                old(self).current_scene_idx as int,
            ),
            final(self).current_scene_idx == old(self).current_scene_idx + 1,
            final(self).typing_restarted(),
            final(self).same_panel(old(self)),
    {
        let idx = self.current_scene_idx;
        let mut new_scene = self.scenario.scenes[idx].duplicate();
        new_scene.dialogue_content = String::new();
        let ghost old_scenes = self.scenario.scenes@;
        self.scenario.scenes.insert(idx + 1, new_scene);
        assert(self.scenario@ =~= scenes_after_add(
            old_scenes.map_values(|s: Scene| s@),
            idx as int,
        ));
        self.current_scene_idx = idx + 1;
        self.sync_scene_to_ui();
    }

    /// Deletes the scene on screen unless it is the only one, and starts the
    /// typewriter on the scene that takes its place.
    pub fn delete_scene(&mut self)
        requires
            old(self).wf(),
        ensures
            final(self).wf(),
            final(self).scenario@ == scenes_after_delete(
                old(self).scenario@,
                old(self).current_scene_idx as int,
            ),
            final(self).current_scene_idx == idx_after_delete(
                old(self).scenario@.len() as int,
                old(self).current_scene_idx as int,
            ),
            old(self).scenario@.len() > 1 ==> final(self).typing_restarted(),
            old(self).scenario@.len() == 1 ==> final(self).same_story(old(self)),
            final(self).same_panel(old(self)),
    {
        if self.scenario.scenes.len() > 1 {
            let idx = self.current_scene_idx;
            let ghost old_scenes = self.scenario.scenes@;
            let _removed = self.scenario.scenes.remove(idx);
            assert(self.scenario@ =~= old_scenes.map_values(|s: Scene| s@).remove(idx as int));
            let last = self.scenario.scenes.len() - 1;
            self.current_scene_idx = if idx < last {
                idx
            } else {
                last
            };
            self.sync_scene_to_ui();
        }
    }

    /// Goes to scene `number`, counted from 1, and shows its line whole.
    pub fn jump_to_scene(&mut self, number: usize)
        requires
            old(self).wf(),
            1 <= number <= old(self).scenario@.len(),
        ensures
            final(self).wf(),
            final(self).scenario@ == old(self).scenario@,
            final(self).current_scene_idx == number - 1,
            final(self).line_revealed(),
            final(self).same_panel(old(self)),
    {
        self.current_scene_idx = number - 1;
        self.reveal_current_line();
    }

    /// Sets the speaker of the scene on screen.
    pub fn set_speaker_name(&mut self, name: String)
        requires
            old(self).wf(),
        ensures
            final(self).wf(),
            final(self).scenario@ == old(self).scenario@.update(
                old(self).current_scene_idx as int,
                SceneView { speaker_name: name@, ..old(self).current_view() },
            ),
            final(self).current_scene_idx == old(self).current_scene_idx,
            final(self).target_text@ == old(self).target_text@,
            final(self).visible_count == old(self).visible_count,
            final(self).type_timer_micros == old(self).type_timer_micros,
            final(self).same_panel(old(self)),
    {
        let idx = self.current_scene_idx;
        let mut scene = self.scenario.scenes[idx].duplicate();
        scene.speaker_name = name;
        self.replace_scene(idx, scene);
    }

    /// Sets the affiliation of the speaker of the scene on screen.
    pub fn set_speaker_aff(&mut self, affiliation: String)
        requires
            old(self).wf(),
        ensures
            final(self).wf(),
            final(self).scenario@ == old(self).scenario@.update(
                old(self).current_scene_idx as int,
                SceneView { speaker_aff: affiliation@, ..old(self).current_view() },
            ),
            final(self).current_scene_idx == old(self).current_scene_idx,
            final(self).target_text@ == old(self).target_text@,
            final(self).visible_count == old(self).visible_count,
            final(self).type_timer_micros == old(self).type_timer_micros,
            final(self).same_panel(old(self)),
    {
        let idx = self.current_scene_idx;
        let mut scene = self.scenario.scenes[idx].duplicate();
        scene.speaker_aff = affiliation;
        self.replace_scene(idx, scene);
    }

    /// Sets the line of the scene on screen; the typewriter is not restarted.
    pub fn set_dialogue_content(&mut self, content: String)
        requires
            old(self).wf(),
        ensures
            final(self).wf(),
            final(self).scenario@ == old(self).scenario@.update(
                old(self).current_scene_idx as int,
                with_dialogue(old(self).current_view(), content@),
            ),
            final(self).current_scene_idx == old(self).current_scene_idx,
            final(self).target_text@ == old(self).target_text@,
            final(self).visible_count == old(self).visible_count,
            final(self).type_timer_micros == old(self).type_timer_micros,
            final(self).same_panel(old(self)),
    {
        let idx = self.current_scene_idx;
        let mut scene = self.scenario.scenes[idx].duplicate();
        scene.dialogue_content = content;
        self.replace_scene(idx, scene);
    }

    fn replace_scene(&mut self, idx: usize, scene: Scene)
        requires
            old(self).wf(),
            idx < old(self).scenario.scenes.len(),
        ensures
            final(self).wf(),
            final(self).scenario@ == old(self).scenario@.update(idx as int, scene@),
            final(self).current_scene_idx == old(self).current_scene_idx,
            final(self).target_text@ == old(self).target_text@,
            final(self).target_chars@ == old(self).target_chars@,
            final(self).visible_count == old(self).visible_count,
            final(self).type_timer_micros == old(self).type_timer_micros,
            final(self).same_panel(old(self)),
    {
        let ghost old_scenes = self.scenario.scenes@;
        let ghost v = scene@;
        self.scenario.scenes.set(idx, scene);
        assert(self.scenario@ =~= old_scenes.map_values(|s: Scene| s@).update(idx as int, v));
    }

    /// Echoes a console line in the log and reads the command it names; the
    /// command is returned for the caller to queue. A blank line does nothing.
    pub fn parse_and_send_command(&mut self, input: &str) -> (r: Option<AppCommand>)
        requires
            old(self).wf(),
            !parse_panics(input@),
        ensures
            final(self).wf(),
            final(self).same_story(old(self)),
            trim(input@).len() == 0 ==> final(self).logs() == old(self).logs() && r is None,
            trim(input@).len() > 0 ==> final(self).logs() == old(self).logs().push(
                echo_line(trim(input@)),
            ) && command_view(r) == spec_parse(input@),
            final(self).is_auto_enabled == old(self).is_auto_enabled,
            final(self).show_dialogue == old(self).show_dialogue,
            final(self).console_open == old(self).console_open,
            final(self).selected_slot == old(self).selected_slot,
            final(self).show_anim_preview == old(self).show_anim_preview,
            final(self).preview_anim_idx == old(self).preview_anim_idx,
            final(self).occupied@ == old(self).occupied@,
    {
        let cs = chars_of(input);
        let (lo, hi) = trim_range(&cs, 0, cs.len());
        assert(cs@.subrange(0, cs@.len() as int) =~= input@);
        if lo == hi {
            return None;
        }
        let trimmed = input.substring_char(lo, hi);
        let mut line = "> ".to_owned();
        line.append(trimmed);
        let ghost old_logs = self.console_logs@;
        self.console_logs.push(line);
        assert(self.logs() =~= old_logs.map_values(|s: String| s@).push(echo_line(trim(input@))));
        parse_command(input)
    }

    /// Handles one command: updates the state and says what the engines
    /// must do.
    pub fn handle_command(&mut self, cmd: AppCommand) -> (e: Effect)
        requires
            old(self).wf(),
            command_accepted(cmd@),
        ensures
            final(self).wf(),
            handle_post(*old(self), *final(self), cmd@, e@),
    {
        let ghost old_logs = self.console_logs@;
        match cmd {
            AppCommand::Dialogue { name, affiliation, content } => {
                let idx = self.current_scene_idx;
                let mut scene = self.scenario.scenes[idx].duplicate();
                scene.speaker_name = name;
                scene.speaker_aff = affiliation;
                scene.dialogue_content = content;
                self.replace_scene(idx, scene);
                self.sync_scene_to_ui();
                Effect::Nothing
            },
            AppCommand::Log(msg) => {
                self.console_logs.push(msg);
                assert(self.logs() =~= old_logs.map_values(|s: String| s@).push(msg@));
                Effect::Nothing
            },
            AppCommand::RequestLoad { slot_idx, path } => {
                let mut line = "[解析] ".to_owned();
                line.append(path.as_str());
                self.console_logs.push(line);
                assert(self.logs() =~= old_logs.map_values(|s: String| s@).push(loading_line(path@)));
                Effect::SpawnSpineLoad { slot_idx, path }
            },
            AppCommand::RemoveCharacter(i) => {
                self.occupied.set(i, false);
                Effect::ClearCharacter(i)
            },
            AppCommand::LoadBackground(path) => {
                let idx = self.current_scene_idx;
                let effect = Effect::SpawnBackgroundLoad(path.clone());
                let mut scene = self.scenario.scenes[idx].duplicate();
                scene.bg_path = Some(path);
                self.replace_scene(idx, scene);
                effect
            },
            AppCommand::SetAnimation { slot_idx, anim_name, loop_anim } => {
                if slot_idx < self.occupied.len() && self.occupied[slot_idx] {
                    Effect::ApplyAnimation { slot_idx, anim_name, loop_anim }
                } else {
                    Effect::Nothing
                }
            },
            AppCommand::PlayBgm(path) => {
                let idx = self.current_scene_idx;
                let effect = Effect::ReadAudio { path: path.clone(), is_bgm: true };
                let mut scene = self.scenario.scenes[idx].duplicate();
                scene.bgm_path = Some(path);
                self.replace_scene(idx, scene);
                effect
            },
            AppCommand::PlaySe(path) => Effect::ReadAudio { path, is_bgm: false },
            AppCommand::StopBgm => Effect::StopBgm,
            AppCommand::ScenarioLoaded(s) => {
                self.scenario = s;
                self.current_scene_idx = 0;
                self.reveal_current_line();
                Effect::Nothing
            },
        }
    }

    /// Records that a character finished loading into `slot` and lists the
    /// animations it offers in the console log; `false`, and nothing
    /// recorded, when there is no such slot.
    pub fn install_character(&mut self, slot: usize, anim_names: &Vec<String>) -> (r: bool)
        requires
            old(self).wf(),
        ensures
            final(self).wf(),
            r == (slot < SLOT_COUNT),
            r ==> final(self).occupied@ == old(self).occupied@.update(slot as int, true),
            r ==> final(self).logs() == old(self).logs().push(
                animations_line(slot, texts(anim_names@)),
            ),
            !r ==> final(self).occupied@ == old(self).occupied@,
            !r ==> final(self).logs() == old(self).logs(),
            final(self).same_story(old(self)),
            final(self).is_auto_enabled == old(self).is_auto_enabled,
            final(self).show_dialogue == old(self).show_dialogue,
            final(self).console_open == old(self).console_open,
            final(self).selected_slot == old(self).selected_slot,
            final(self).show_anim_preview == old(self).show_anim_preview,
            final(self).preview_anim_idx == old(self).preview_anim_idx,
    {
        if slot < self.occupied.len() {
            self.occupied.set(slot, true);
            let line = animations_text(slot, anim_names);
            let ghost old_logs = self.console_logs@;
            self.console_logs.push(line);
            assert(self.logs() =~= old_logs.map_values(|s: String| s@).push(
                animations_line(slot, texts(anim_names@)),
            ));
            true
        } else {
            false
        }
    }

    /// The typewriter is still revealing the line.
    pub open spec fn typing_active(&self) -> bool {
        self.show_dialogue && self.visible_count < self.target_text@.len()
    }

    /// Lets `dt_micros` microseconds pass: while the line is being typed,
    /// one more character shows for each whole interval gathered.
    pub fn advance_typewriter(&mut self, dt_micros: u64)
        requires
            old(self).wf(),
            old(self).typing_active() ==> old(self).visible_count + typewriter_step(
                old(self).type_timer_micros as int,
                dt_micros as int,
            ).0 <= usize::MAX,
        ensures
            final(self).wf(),
            old(self).typing_active() ==> final(self).visible_count == old(self).visible_count
                + typewriter_step(old(self).type_timer_micros as int, dt_micros as int).0
                && final(self).type_timer_micros == typewriter_step(
                old(self).type_timer_micros as int,
                dt_micros as int,
            ).1,
            !old(self).typing_active() ==> final(self).visible_count == old(self).visible_count
                && final(self).type_timer_micros == old(self).type_timer_micros,
            final(self).scenario@ == old(self).scenario@,
            final(self).current_scene_idx == old(self).current_scene_idx,
            final(self).target_text@ == old(self).target_text@,
            final(self).same_panel(old(self)),
    {
        if self.show_dialogue && self.visible_count < self.target_chars.len() {
            let q = dt_micros / TYPEWRITER_INTERVAL_MICROS;
            let rem = dt_micros % TYPEWRITER_INTERVAL_MICROS;
            let sum = self.type_timer_micros + rem;
            let (steps, left) = if sum >= TYPEWRITER_INTERVAL_MICROS {
                (q + 1, sum - TYPEWRITER_INTERVAL_MICROS)
            } else {
                (q, sum)
            };
            assert(steps == (self.type_timer_micros + dt_micros) / 30000 && left == (
            self.type_timer_micros + dt_micros) % 30000);
            self.visible_count = self.visible_count + steps as usize;
            self.type_timer_micros = left;
        }
    }

    /// Shows the whole line at once (a click on the dialogue box).
    pub fn skip_typing(&mut self)
        requires
            old(self).wf(),
        ensures
            final(self).wf(),
            final(self).visible_count == old(self).target_text@.len(),
            final(self).scenario@ == old(self).scenario@,
            final(self).current_scene_idx == old(self).current_scene_idx,
            final(self).target_text@ == old(self).target_text@,
            final(self).type_timer_micros == old(self).type_timer_micros,
            final(self).same_panel(old(self)),
    {
        self.visible_count = self.target_chars.len();
    }

    /// The whole line is shown.
    pub fn typing_finished(&self) -> (b: bool)
        requires
            self.wf(),
        ensures
            b == (self.visible_count >= self.target_text@.len()),
    {
        self.visible_count >= self.target_chars.len()
    }

    /// The part of the line shown so far.
    pub fn visible_text(&self) -> (r: String)
        requires
            self.wf(),
        ensures
            r@ == self.target_text@.take(
                if self.visible_count < self.target_text@.len() {
                    self.visible_count as int
                } else {
                    self.target_text@.len() as int
                },
            ),
    {
        let n = self.target_chars.len();
        let k = if self.visible_count < n {
            self.visible_count
        } else {
            n
        };
        self.target_text.as_str().substring_char(0, k).to_owned()
    }

    /// The dialogue box is drawn: dialogue is on and the line is not blank.
    pub fn dialogue_box_visible(&self) -> (b: bool)
        requires
            self.wf(),
        ensures
            b == (self.show_dialogue && trim(self.target_text@).len() > 0),
    {
        if !self.show_dialogue {
            return false;
        }
        let (lo, hi) = trim_range(&self.target_chars, 0, self.target_chars.len());
        assert(self.target_chars@.subrange(0, self.target_chars@.len() as int) =~= self.target_text@);
        lo < hi
    }

    /// Turns automatic play on or off.
    pub fn toggle_auto(&mut self)
        requires
            old(self).wf(),
        ensures
            final(self).wf(),
            final(self).is_auto_enabled == !old(self).is_auto_enabled,
            final(self).same_story(old(self)),
            final(self).show_dialogue == old(self).show_dialogue,
            final(self).console_open == old(self).console_open,
            final(self).selected_slot == old(self).selected_slot,
            final(self).logs() == old(self).logs(),
            final(self).show_anim_preview == old(self).show_anim_preview,
            final(self).preview_anim_idx == old(self).preview_anim_idx,
            final(self).occupied@ == old(self).occupied@,
    {
        self.is_auto_enabled = !self.is_auto_enabled;
    }

    /// Opens or closes the creator panel.
    pub fn toggle_console(&mut self)
        requires
            old(self).wf(),
        ensures
            final(self).wf(),
            final(self).console_open == !old(self).console_open,
            final(self).same_story(old(self)),
            final(self).is_auto_enabled == old(self).is_auto_enabled,
            final(self).show_dialogue == old(self).show_dialogue,
            final(self).selected_slot == old(self).selected_slot,
            final(self).logs() == old(self).logs(),
            final(self).show_anim_preview == old(self).show_anim_preview,
            final(self).preview_anim_idx == old(self).preview_anim_idx,
            final(self).occupied@ == old(self).occupied@,
    {
        self.console_open = !self.console_open;
    }

    /// Selects a character slot; the animation preview starts from the first.
    pub fn select_slot(&mut self, slot: usize)
        requires
            old(self).wf(),
            slot < SLOT_COUNT,
        ensures
            final(self).wf(),
            final(self).selected_slot == slot,
            final(self).preview_anim_idx == 0,
            final(self).same_story(old(self)),
            final(self).is_auto_enabled == old(self).is_auto_enabled,
            final(self).show_dialogue == old(self).show_dialogue,
            final(self).console_open == old(self).console_open,
            final(self).logs() == old(self).logs(),
            final(self).show_anim_preview == old(self).show_anim_preview,
            final(self).occupied@ == old(self).occupied@,
    {
        self.selected_slot = slot;
        self.preview_anim_idx = 0;
    }

    /// Opens or closes the animation preview window.
    pub fn set_anim_preview_open(&mut self, open: bool)
        requires
            old(self).wf(),
        ensures
            final(self).wf(),
            final(self).show_anim_preview == open,
            final(self).same_story(old(self)),
            final(self).is_auto_enabled == old(self).is_auto_enabled,
            final(self).show_dialogue == old(self).show_dialogue,
            final(self).console_open == old(self).console_open,
            final(self).selected_slot == old(self).selected_slot,
            final(self).logs() == old(self).logs(),
            final(self).preview_anim_idx == old(self).preview_anim_idx,
            final(self).occupied@ == old(self).occupied@,
    {
        self.show_anim_preview = open;
    }

    /// Brings the preview index back to the first animation when it is past
    /// the `n_anims` animations of the selected character.
    pub fn normalize_preview(&mut self, n_anims: usize)
        requires
            old(self).wf(),
        ensures
            final(self).wf(),
            final(self).preview_anim_idx == if old(self).preview_anim_idx >= n_anims {
                0
            } else {
                old(self).preview_anim_idx
            },
            final(self).same_story(old(self)),
            final(self).is_auto_enabled == old(self).is_auto_enabled,
            final(self).show_dialogue == old(self).show_dialogue,
            final(self).console_open == old(self).console_open,
            final(self).selected_slot == old(self).selected_slot,
            final(self).logs() == old(self).logs(),
            final(self).show_anim_preview == old(self).show_anim_preview,
            final(self).occupied@ == old(self).occupied@,
    {
        if self.preview_anim_idx >= n_anims {
            self.preview_anim_idx = 0;
        }
    }

    /// Steps the preview through the selected character's animations, one
    /// forward or one back, cyclically, and asks for the animation reached to
    /// loop on the selected slot.
    pub fn step_preview(&mut self, names: &Vec<String>, forward: bool) -> (cmd: AppCommand)
        requires
            old(self).wf(),
            old(self).preview_anim_idx < names.len(),
        ensures
            final(self).wf(),
            final(self).preview_anim_idx == if forward {
                preview_forward(old(self).preview_anim_idx as int, names.len() as int)
            } else {
                preview_back(old(self).preview_anim_idx as int, names.len() as int)
            },
            cmd@ == (CommandView::SetAnimation {
                slot_idx: old(self).selected_slot,
                anim_name: names@[final(self).preview_anim_idx as int]@,
                loop_anim: true,
            }),
            final(self).same_story(old(self)),
            final(self).is_auto_enabled == old(self).is_auto_enabled,
            final(self).show_dialogue == old(self).show_dialogue,
            final(self).console_open == old(self).console_open,
            final(self).selected_slot == old(self).selected_slot,
            final(self).logs() == old(self).logs(),
            final(self).show_anim_preview == old(self).show_anim_preview,
            final(self).occupied@ == old(self).occupied@,
    {
        let n = names.len();
        let i = self.preview_anim_idx;
        let next = if forward {
            if i + 1 == n {
                0
            } else {
                i + 1
            }
        } else {
            if i == 0 {
                n - 1
            } else {
                i - 1
            }
        };
        proof {
            lemma_cycle_steps(i as int, n as int);
        }
        self.preview_anim_idx = next;
        AppCommand::SetAnimation {
            slot_idx: self.selected_slot,
            anim_name: names[next].clone(),
            loop_anim: true,
        }
    }
}

} // verus!
