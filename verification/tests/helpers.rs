use aefr::animation::find_animation;
use aefr::scenario::Scene;
use aefr::scheduler::worker_threads;
use aefr::text::{chars_of, parse_decimal, trim_range, unquoted, word_ranges, piece_ranges};

#[test]
fn workers_leave_two_cores() {
    assert_eq!(worker_threads(8), 6);
    assert_eq!(worker_threads(3), 1);
    assert_eq!(worker_threads(2), 1);
    assert_eq!(worker_threads(1), 1);
    assert_eq!(worker_threads(0), 1);
    assert_eq!(worker_threads(4), 2);
}

#[test]
fn animation_lookup_finds_first() {
    let names = vec!["idle".to_string(), "walk".to_string(), "idle".to_string()];
    assert_eq!(find_animation(&names, "idle"), Some(0));
    assert_eq!(find_animation(&names, "walk"), Some(1));
    assert_eq!(find_animation(&names, "Walk"), None);
    assert_eq!(find_animation(&Vec::new(), "x"), None);
}

#[test]
fn decimal_parsing_like_std() {
    for s in ["0", "42", "+7", "-1", "", "+", "1a", "007", "18446744073709551615", "18446744073709551616", "4294967296"] {
        let cs = chars_of(s);
        assert_eq!(parse_decimal(&cs, 0, cs.len()), s.parse::<usize>().ok(), "{}", s);
    }
}

#[test]
fn trimming_like_std() {
    for s in ["  a b  ", "\u{3000}x\u{85}", "", "   ", "x"] {
        let cs = chars_of(s);
        let (a, b) = trim_range(&cs, 0, cs.len());
        let got: String = cs[a..b].iter().collect();
        assert_eq!(got, s.trim());
    }
}

#[test]
fn splitting_like_std() {
    for s in [" a  b\tc ", "", "abc", "  "] {
        let cs = chars_of(s);
        let got: Vec<String> =
            word_ranges(&cs, 0, cs.len()).iter().map(|&(a, b)| cs[a..b].iter().collect()).collect();
        let want: Vec<String> = s.split_whitespace().map(|w| w.to_string()).collect();
        assert_eq!(got, want);
    }
    for s in ["a|b|c", "|", "", "a||"] {
        let cs = chars_of(s);
        let got: Vec<String> = piece_ranges(&cs, 0, cs.len(), '|')
            .iter()
            .map(|&(a, b)| cs[a..b].iter().collect())
            .collect();
        let want: Vec<String> = s.split('|').map(|w| w.to_string()).collect();
        assert_eq!(got, want);
    }
}

#[test]
fn quotes_removed_like_std() {
    let s = "\"C:\\a b\\\"c\"";
    let cs = chars_of(s);
    assert_eq!(unquoted(s, &cs, 0, cs.len()), s.replace('"', ""));
}

#[test]
fn scene_copy_is_equal() {
    let mut s = Scene::default();
    s.bg_path = Some("bg".to_string());
    s.char_paths[2] = Some("c.atlas".to_string());
    s.speaker_name = "n".to_string();
    let d = s.duplicate();
    assert_eq!(d.bg_path, s.bg_path);
    assert_eq!(d.char_paths, s.char_paths);
    assert_eq!(d.speaker_name, s.speaker_name);
    assert_eq!(d.bgm_path, None);
}
