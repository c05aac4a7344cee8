use aefr::command::AppCommand;
use aefr::editor::{Effect, EditorState, TYPEWRITER_INTERVAL_MICROS};
use aefr::scenario::{Scenario, Scene};

fn scene_with(text: &str) -> Scene {
    let mut s = Scene::default();
    s.dialogue_content = text.to_string();
    s
}

#[test]
fn new_state_greets() {
    let st = EditorState::new();
    assert_eq!(st.scenario.scenes.len(), 1);
    assert_eq!(st.current_scene_idx, 0);
    assert_eq!(st.scenario.scenes[0].speaker_name, "OxidizedSchale");
    assert_eq!(st.scenario.scenes[0].speaker_aff, "The Executive Committee of GNA:AEFR");
    assert_eq!(st.target_text, "GNA:AEFR 已启动！\n正在等待指令......");
    assert_eq!(st.visible_count, 0);
    assert_eq!(st.console_logs, vec!["[系统] 编辑器就绪。".to_string()]);
    assert!(st.is_auto_enabled && st.show_dialogue && !st.console_open);
    assert_eq!(st.occupied, vec![false; 5]);
}

#[test]
fn console_line_is_echoed_and_read() {
    let mut st = EditorState::new();
    let cmd = st.parse_and_send_command("  STOP ");
    assert!(matches!(cmd, Some(AppCommand::StopBgm)));
    assert_eq!(st.console_logs.last().unwrap(), "> STOP");
    let n = st.console_logs.len();
    assert!(st.parse_and_send_command("   ").is_none());
    assert_eq!(st.console_logs.len(), n);
    assert!(st.parse_and_send_command("nonsense").is_none());
    assert_eq!(st.console_logs.last().unwrap(), "> nonsense");
}

#[test]
fn dialogue_command_fills_scene_and_restarts_typing() {
    let mut st = EditorState::new();
    st.visible_count = 3;
    let cmd = st.parse_and_send_command("TALK Arona|Schale|Sensei!").unwrap();
    let e = st.handle_command(cmd);
    assert!(matches!(e, Effect::Nothing));
    let sc = &st.scenario.scenes[0];
    assert_eq!(sc.speaker_name, "Arona");
    assert_eq!(sc.speaker_aff, "Schale");
    assert_eq!(sc.dialogue_content, "Sensei!");
    assert_eq!(st.target_text, "Sensei!");
    assert_eq!(st.visible_count, 0);
}

#[test]
fn typewriter_reveals_one_char_per_interval() {
    let mut st = EditorState::new();
    st.handle_command(AppCommand::Dialogue {
        name: "a".to_string(),
        affiliation: "b".to_string(),
        content: "hello".to_string(),
    });
    st.advance_typewriter(TYPEWRITER_INTERVAL_MICROS - 1);
    assert_eq!(st.visible_count, 0);
    st.advance_typewriter(1);
    assert_eq!(st.visible_count, 1);
    assert_eq!(st.type_timer_micros, 0);
    st.advance_typewriter(2 * TYPEWRITER_INTERVAL_MICROS + 5);
    assert_eq!(st.visible_count, 3);
    assert_eq!(st.type_timer_micros, 5);
    assert_eq!(st.visible_text(), "hel");
    assert!(!st.typing_finished());
    st.advance_typewriter(10 * TYPEWRITER_INTERVAL_MICROS);
    assert_eq!(st.visible_count, 13);
    assert_eq!(st.visible_text(), "hello");
    assert!(st.typing_finished());
    st.advance_typewriter(10 * TYPEWRITER_INTERVAL_MICROS);
    assert_eq!(st.visible_count, 13);
}

#[test]
fn typewriter_time_in_parts_equals_time_at_once() {
    let mut a = EditorState::new();
    let mut b = EditorState::new();
    a.advance_typewriter(20000);
    a.advance_typewriter(25000);
    b.advance_typewriter(45000);
    assert_eq!(a.visible_count, b.visible_count);
    assert_eq!(a.type_timer_micros, b.type_timer_micros);
    assert_eq!(a.visible_count, 1);
    assert_eq!(a.type_timer_micros, 15000);
}

#[test]
fn typewriter_waits_when_dialogue_hidden() {
    let mut st = EditorState::new();
    st.show_dialogue = false;
    st.advance_typewriter(1_000_000);
    assert_eq!(st.visible_count, 0);
}

#[test]
fn skip_shows_whole_line() {
    let mut st = EditorState::new();
    st.skip_typing();
    assert!(st.typing_finished());
    assert_eq!(st.visible_text(), st.target_text);
}

#[test]
fn blank_line_hides_dialogue_box() {
    let mut st = EditorState::new();
    assert!(st.dialogue_box_visible());
    st.handle_command(AppCommand::Dialogue {
        name: String::new(),
        affiliation: String::new(),
        content: " \n\t\u{3000}".to_string(),
    });
    assert!(!st.dialogue_box_visible());
    st.show_dialogue = false;
    st.handle_command(AppCommand::Dialogue {
        name: String::new(),
        affiliation: String::new(),
        content: "x".to_string(),
    });
    assert!(!st.dialogue_box_visible());
}

#[test]
fn add_then_delete_restores_scenes() {
    let mut st = EditorState::new();
    st.set_speaker_name("N".to_string());
    st.add_scene();
    assert_eq!(st.scenario.scenes.len(), 2);
    assert_eq!(st.current_scene_idx, 1);
    assert_eq!(st.scenario.scenes[1].speaker_name, "N");
    assert_eq!(st.scenario.scenes[1].dialogue_content, "");
    assert_eq!(st.target_text, "");
    st.delete_scene();
    assert_eq!(st.scenario.scenes.len(), 1);
    assert_eq!(st.current_scene_idx, 0);
    assert_eq!(st.scenario.scenes[0].dialogue_content, "GNA:AEFR 已启动！\n正在等待指令......");
    st.delete_scene();
    assert_eq!(st.scenario.scenes.len(), 1);
}

#[test]
fn scene_navigation() {
    let mut st = EditorState::new();
    st.handle_command(AppCommand::ScenarioLoaded(Scenario {
        scenes: vec![scene_with("one"), scene_with("two"), scene_with("three")],
    }));
    assert_eq!(st.current_scene_idx, 0);
    assert_eq!(st.target_text, "one");
    assert!(st.typing_finished());
    st.prev_scene();
    assert_eq!(st.current_scene_idx, 0);
    st.next_scene();
    assert_eq!(st.current_scene_idx, 1);
    assert_eq!(st.target_text, "two");
    assert_eq!(st.visible_count, 3);
    st.next_scene();
    st.next_scene();
    assert_eq!(st.current_scene_idx, 2);
    st.prev_scene();
    assert_eq!(st.current_scene_idx, 1);
    st.jump_to_scene(3);
    assert_eq!(st.current_scene_idx, 2);
    assert_eq!(st.target_text, "three");
    st.delete_scene();
    assert_eq!(st.current_scene_idx, 1);
    assert_eq!(st.target_text, "two");
    assert_eq!(st.visible_count, 0);
}

#[test]
fn delete_in_middle_keeps_position() {
    let mut st = EditorState::new();
    st.handle_command(AppCommand::ScenarioLoaded(Scenario {
        scenes: vec![scene_with("a"), scene_with("b"), scene_with("c")],
    }));
    st.jump_to_scene(2);
    st.delete_scene();
    assert_eq!(st.current_scene_idx, 1);
    assert_eq!(st.target_text, "c");
}

#[test]
fn load_request_is_logged_and_spawned() {
    let mut st = EditorState::new();
    let e = st.handle_command(AppCommand::RequestLoad { slot_idx: 2, path: "a.atlas".to_string() });
    match e {
        Effect::SpawnSpineLoad { slot_idx, path } => {
            assert_eq!(slot_idx, 2);
            assert_eq!(path, "a.atlas");
        }
        other => panic!("unexpected {:?}", other),
    }
    assert_eq!(st.console_logs.last().unwrap(), "[解析] a.atlas");
}

#[test]
fn background_and_music_are_recorded_in_scene() {
    let mut st = EditorState::new();
    match st.handle_command(AppCommand::LoadBackground("bg.png".to_string())) {
        Effect::SpawnBackgroundLoad(p) => assert_eq!(p, "bg.png"),
        other => panic!("unexpected {:?}", other),
    }
    match st.handle_command(AppCommand::PlayBgm("m.mp3".to_string())) {
        Effect::ReadAudio { path, is_bgm } => {
            assert_eq!(path, "m.mp3");
            assert!(is_bgm);
        }
        other => panic!("unexpected {:?}", other),
    }
    match st.handle_command(AppCommand::PlaySe("s.wav".to_string())) {
        Effect::ReadAudio { path, is_bgm } => {
            assert_eq!(path, "s.wav");
            assert!(!is_bgm);
        }
        other => panic!("unexpected {:?}", other),
    }
    assert!(matches!(st.handle_command(AppCommand::StopBgm), Effect::StopBgm));
    assert_eq!(st.scenario.scenes[0].bg_path.as_deref(), Some("bg.png"));
    assert_eq!(st.scenario.scenes[0].bgm_path.as_deref(), Some("m.mp3"));
}

#[test]
fn log_command_appends() {
    let mut st = EditorState::new();
    st.handle_command(AppCommand::Log("hi".to_string()));
    assert_eq!(st.console_logs.last().unwrap(), "hi");
    assert_eq!(st.console_logs.len(), 2);
}

#[test]
fn only_loaded_slots_are_animated() {
    let mut st = EditorState::new();
    let anim = |slot: usize| AppCommand::SetAnimation {
        slot_idx: slot,
        anim_name: "Idle".to_string(),
        loop_anim: false,
    };
    assert!(matches!(st.handle_command(anim(1)), Effect::Nothing));
    let names = vec!["Idle".to_string()];
    assert!(st.install_character(1, &names));
    assert!(!st.install_character(5, &names));
    match st.handle_command(anim(1)) {
        Effect::ApplyAnimation { slot_idx, anim_name, loop_anim } => {
            assert_eq!(slot_idx, 1);
            assert_eq!(anim_name, "Idle");
            assert!(!loop_anim);
        }
        other => panic!("unexpected {:?}", other),
    }
    assert!(matches!(st.handle_command(anim(7)), Effect::Nothing));
    assert!(matches!(st.handle_command(AppCommand::RemoveCharacter(1)), Effect::ClearCharacter(1)));
    assert!(matches!(st.handle_command(anim(1)), Effect::Nothing));
}

#[test]
fn preview_cycles_through_animations() {
    let mut st = EditorState::new();
    st.select_slot(3);
    let names = vec!["a".to_string(), "b".to_string(), "c".to_string()];
    match st.step_preview(&names, false) {
        AppCommand::SetAnimation { slot_idx, anim_name, loop_anim } => {
            assert_eq!(slot_idx, 3);
            assert_eq!(anim_name, "c");
            assert!(loop_anim);
        }
        other => panic!("unexpected {:?}", other),
    }
    assert_eq!(st.preview_anim_idx, 2);
    st.step_preview(&names, true);
    assert_eq!(st.preview_anim_idx, 0);
    st.step_preview(&names, true);
    assert_eq!(st.preview_anim_idx, 1);
    st.normalize_preview(1);
    assert_eq!(st.preview_anim_idx, 0);
    st.preview_anim_idx = 2;
    st.select_slot(0);
    assert_eq!(st.preview_anim_idx, 0);
}

#[test]
fn toggles_and_setters() {
    let mut st = EditorState::new();
    st.toggle_auto();
    assert!(!st.is_auto_enabled);
    st.toggle_console();
    assert!(st.console_open);
    st.set_anim_preview_open(true);
    assert!(st.show_anim_preview);
    st.set_speaker_aff("Abydos".to_string());
    st.set_dialogue_content("new".to_string());
    assert_eq!(st.scenario.scenes[0].speaker_aff, "Abydos");
    assert_eq!(st.scenario.scenes[0].dialogue_content, "new");
    assert_eq!(st.target_text, "GNA:AEFR 已启动！\n正在等待指令......");
    st.sync_scene_to_ui();
    assert_eq!(st.target_text, "new");
}

#[test]
fn loaded_character_lists_its_animations() {
    let mut st = EditorState::new();
    let names = vec!["Start_Idle_01".to_string(), "Attack_Normal".to_string(), "Walk".to_string()];
    assert!(st.install_character(0, &names));
    assert_eq!(st.console_logs.last().unwrap(), "[动作] 槽位 0: Start_Idle_01, Attack_Normal, Walk");
    assert_eq!(st.occupied[0], true);
    assert!(st.install_character(4, &vec!["Only".to_string()]));
    assert_eq!(st.console_logs.last().unwrap(), "[动作] 槽位 4: Only");
    assert!(st.install_character(2, &Vec::new()));
    assert_eq!(st.console_logs.last().unwrap(), "[动作] 槽位 2: ");
    let n = st.console_logs.len();
    assert!(!st.install_character(5, &names));
    assert_eq!(st.console_logs.len(), n);
}

#[test]
fn log_commands_append_in_order() {
    let mut st = EditorState::new();
    for m in ["one", "two", "three"] {
        assert!(matches!(st.handle_command(AppCommand::Log(m.to_string())), Effect::Nothing));
    }
    assert_eq!(
        st.console_logs,
        vec!["[系统] 编辑器就绪。".to_string(), "one".to_string(), "two".to_string(), "three".to_string()]
    );
}
