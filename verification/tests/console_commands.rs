use aefr::command::{parse_command, AppCommand};

fn parse(s: &str) -> Option<AppCommand> {
    parse_command(s)
}

#[test]
fn talk_reads_three_pieces() {
    match parse("TALK Shiroko|Abydos|Sensei, are we going to rob a bank?") {
        Some(AppCommand::Dialogue { name, affiliation, content }) => {
            assert_eq!(name, "Shiroko");
            assert_eq!(affiliation, "Abydos");
            assert_eq!(content, "Sensei, are we going to rob a bank?");
        }
        other => panic!("unexpected {:?}", other),
    }
}

#[test]
fn talk_with_chinese_text() {
    match parse("TALK 砂狼白子|对策委员会|老师，我们要去抢银行吗？") {
        Some(AppCommand::Dialogue { name, affiliation, content }) => {
            assert_eq!(name, "砂狼白子");
            assert_eq!(affiliation, "对策委员会");
            assert_eq!(content, "老师，我们要去抢银行吗？");
        }
        other => panic!("unexpected {:?}", other),
    }
}

#[test]
fn talk_keeps_spaces_and_empty_pieces() {
    match parse("talk  a | |c ") {
        Some(AppCommand::Dialogue { name, affiliation, content }) => {
            assert_eq!(name, " a ");
            assert_eq!(affiliation, " ");
            assert_eq!(content, "c");
        }
        other => panic!("unexpected {:?}", other),
    }
}

#[test]
fn talk_with_wrong_piece_count_is_nothing() {
    assert!(parse("TALK a|b").is_none());
    assert!(parse("TALK a|b|c|d").is_none());
}

#[test]
fn stop_in_any_case_and_padding() {
    assert!(matches!(parse("STOP"), Some(AppCommand::StopBgm)));
    assert!(matches!(parse("  sToP \t"), Some(AppCommand::StopBgm)));
    assert!(parse("stop now").is_none());
    assert!(parse("stopp").is_none());
}

#[test]
fn bgm_strips_quotes_and_spaces() {
    match parse("BGM   \"D:\\Music\\Unwelcome School.mp3\"  ") {
        Some(AppCommand::PlayBgm(p)) => assert_eq!(p, "D:\\Music\\Unwelcome School.mp3"),
        other => panic!("unexpected {:?}", other),
    }
}

#[test]
fn se_and_bg_commands() {
    match parse("se /sdcard/hit.wav") {
        Some(AppCommand::PlaySe(p)) => assert_eq!(p, "/sdcard/hit.wav"),
        other => panic!("unexpected {:?}", other),
    }
    match parse("BG C:\\Assets\\BlueArchive\\BG_Classroom.png") {
        Some(AppCommand::LoadBackground(p)) => {
            assert_eq!(p, "C:\\Assets\\BlueArchive\\BG_Classroom.png")
        }
        other => panic!("unexpected {:?}", other),
    }
}

#[test]
fn bgm_is_tried_before_bg() {
    assert!(matches!(parse("bgm x.ogg"), Some(AppCommand::PlayBgm(_))));
    assert!(matches!(parse("bg x.png"), Some(AppCommand::LoadBackground(_))));
}

#[test]
fn load_reads_slot_and_path() {
    match parse("LOAD 0 D:\\Assets\\Shiroko\\Shiroko_Home.atlas") {
        Some(AppCommand::RequestLoad { slot_idx, path }) => {
            assert_eq!(slot_idx, 0);
            assert_eq!(path, "D:\\Assets\\Shiroko\\Shiroko_Home.atlas");
        }
        other => panic!("unexpected {:?}", other),
    }
    match parse("load +3 \"/sdcard/my chars/a.atlas\"") {
        Some(AppCommand::RequestLoad { slot_idx, path }) => {
            assert_eq!(slot_idx, 3);
            assert_eq!(path, "/sdcard/my chars/a.atlas");
        }
        other => panic!("unexpected {:?}", other),
    }
}

#[test]
fn load_without_path_or_number_is_nothing() {
    assert!(parse("load 3").is_none());
    assert!(parse("load x a.atlas").is_none());
    assert!(parse("load -1 a.atlas").is_none());
    assert!(parse("load 99999999999999999999999 a.atlas").is_none());
}

#[test]
fn anim_reads_slot_name_and_loop() {
    match parse("ANIM 0 Start_Idle_01 true") {
        Some(AppCommand::SetAnimation { slot_idx, anim_name, loop_anim }) => {
            assert_eq!(slot_idx, 0);
            assert_eq!(anim_name, "Start_Idle_01");
            assert!(loop_anim);
        }
        other => panic!("unexpected {:?}", other),
    }
    match parse("ANIM 1 Attack_Normal false") {
        Some(AppCommand::SetAnimation { slot_idx, anim_name, loop_anim }) => {
            assert_eq!(slot_idx, 1);
            assert_eq!(anim_name, "Attack_Normal");
            assert!(!loop_anim);
        }
        other => panic!("unexpected {:?}", other),
    }
    match parse("anim  2   Walk") {
        Some(AppCommand::SetAnimation { slot_idx, anim_name, loop_anim }) => {
            assert_eq!(slot_idx, 2);
            assert_eq!(anim_name, "Walk");
            assert!(loop_anim);
        }
        other => panic!("unexpected {:?}", other),
    }
    match parse("anim 2 Walk TRUE extra") {
        Some(AppCommand::SetAnimation { loop_anim, .. }) => assert!(loop_anim),
        other => panic!("unexpected {:?}", other),
    }
}

#[test]
fn anim_with_bad_slot_is_nothing() {
    assert!(parse("anim x Walk").is_none());
}

#[test]
fn blank_and_unknown_lines_are_nothing() {
    assert!(parse("").is_none());
    assert!(parse("   \t ").is_none());
    assert!(parse("hello world").is_none());
    assert!(parse("anim").is_none());
    assert!(parse("bgm").is_none());
}
