//! Scenes and scenarios: what a story is made of, and its view as plain text.

use vstd::prelude::*;

verus! {

/// Number of character slots on stage.
pub const SLOT_COUNT: usize = 5;

/// One scene of a scenario: background, music, the characters on stage and
/// the line spoken.
#[derive(Debug)]
pub struct Scene {
    pub bg_path: Option<String>,
    pub bgm_path: Option<String>,
    pub char_paths: [Option<String>; SLOT_COUNT],
    pub char_anims: [Option<String>; SLOT_COUNT],
    pub speaker_name: String,
    pub speaker_aff: String,
    pub dialogue_content: String,
}

/// A scene with every text taken by its characters.
pub struct SceneView {
    pub bg_path: Option<Seq<char>>,
    pub bgm_path: Option<Seq<char>>,
    pub char_paths: Seq<Option<Seq<char>>>,
    pub char_anims: Seq<Option<Seq<char>>>,
    pub speaker_name: Seq<char>,
    pub speaker_aff: Seq<char>,
    pub dialogue_content: Seq<char>,
}

/// An optional text, taken by its characters.
pub open spec fn opt_text(o: Option<String>) -> Option<Seq<char>> {
    match o {
        Some(s) => Some(s@),
        None => None,
    }
}

/// The characters of each optional text of an array of slots.
pub open spec fn slot_texts(a: [Option<String>; SLOT_COUNT]) -> Seq<Option<Seq<char>>> {
    a@.map_values(|o: Option<String>| opt_text(o))
}

impl View for Scene {
    type V = SceneView;

    open spec fn view(&self) -> SceneView {
        SceneView {
            bg_path: opt_text(self.bg_path),
            bgm_path: opt_text(self.bgm_path),
            char_paths: slot_texts(self.char_paths),
            char_anims: slot_texts(self.char_anims),
            speaker_name: self.speaker_name@,
            speaker_aff: self.speaker_aff@,
            dialogue_content: self.dialogue_content@,
        }
    }
}

/// The view of a scene with nothing set: no paths, no characters, empty texts.
pub open spec fn blank_scene() -> SceneView {
    SceneView {
        bg_path: None,
        bgm_path: None,
        char_paths: Seq::new(SLOT_COUNT as nat, |i: int| None),
        char_anims: Seq::new(SLOT_COUNT as nat, |i: int| None),
        speaker_name: Seq::empty(),
        speaker_aff: Seq::empty(),
        dialogue_content: Seq::empty(),
    }
}

/// A copy of an optional text.
pub fn copy_opt_text(o: &Option<String>) -> (r: Option<String>)
    ensures
        opt_text(r) == opt_text(*o),
{
    match o {
        Some(s) => Some(s.clone()),
        None => None,
    }
}

fn copy_slots(a: &[Option<String>; SLOT_COUNT]) -> (r: [Option<String>; SLOT_COUNT])
    ensures
        slot_texts(r) == slot_texts(*a),
{
    let r = [
        copy_opt_text(&a[0]),
        copy_opt_text(&a[1]),
        copy_opt_text(&a[2]),
        copy_opt_text(&a[3]),
        copy_opt_text(&a[4]),
    ];
    assert(slot_texts(r) =~= slot_texts(*a));
    r
}

impl Scene {
    /// A copy of this scene.
    pub fn duplicate(&self) -> (r: Scene)
        ensures
            r@ == self@,
    {
        Scene {
            bg_path: copy_opt_text(&self.bg_path),
            bgm_path: copy_opt_text(&self.bgm_path),
            char_paths: copy_slots(&self.char_paths),
            char_anims: copy_slots(&self.char_anims),
            speaker_name: self.speaker_name.clone(),
            speaker_aff: self.speaker_aff.clone(),
            dialogue_content: self.dialogue_content.clone(),
        }
    }
}

impl Default for Scene {
    fn default() -> (r: Scene)
        ensures
            r@ == blank_scene(),
    {
        let r = Scene {
            bg_path: None,
            bgm_path: None,
            char_paths: [None, None, None, None, None],
            char_anims: [None, None, None, None, None],
            speaker_name: String::new(),
            speaker_aff: String::new(),
            dialogue_content: String::new(),
        };
        assert(slot_texts(r.char_paths) =~= blank_scene().char_paths);
        assert(slot_texts(r.char_anims) =~= blank_scene().char_anims);
        r
    }
}

/// A story: its scenes in order.
#[derive(Debug)]
pub struct Scenario {
    pub scenes: Vec<Scene>,
}

impl View for Scenario {
    type V = Seq<SceneView>;

    open spec fn view(&self) -> Seq<SceneView> {
        self.scenes@.map_values(|s: Scene| s@)
    }
}

} // verus!
