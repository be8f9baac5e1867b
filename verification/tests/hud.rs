use phira_vrenxz::crash::{board_draw_bound, crash_title, pick_board_index, DEFAULT_CRASH_TITLE};
use phira_vrenxz::hud::{combo_label, combo_number_text, combo_shown, score_text};
use phira_vrenxz::play_rules::preview_interrupted;
use phira_vrenxz::scene_stack::Transition;
use phira_vrenxz::song_events::after_delete;

#[test]
fn combo_display_rules() {
    assert!(!combo_shown(2, false, true));
    assert!(combo_shown(3, false, true));
    assert!(combo_shown(0, true, true));
    assert!(!combo_shown(50, true, false));
    assert_eq!(combo_label(false, ""), "COMBO");
    assert_eq!(combo_label(false, "连击"), "连击");
    assert_eq!(combo_label(true, "连击"), "");
    assert_eq!(combo_number_text(true, "Autoplay", 42), "Autoplay");
    assert_eq!(combo_number_text(false, "Autoplay", 42), "42");
    assert_eq!(combo_number_text(false, "Autoplay", 0), "0");
    assert_eq!(score_text(0), "0000000");
    assert_eq!(score_text(1000000), "1000000");
    assert_eq!(score_text(123), "0000123");
}

#[test]
fn board_draw_range() {
    assert_eq!(board_draw_bound(5, Some(2)), 4);
    assert_eq!(board_draw_bound(5, None), 5);
    let mut seen = [false; 3];
    for _ in 0..300 {
        seen[pick_board_index(3, None).unwrap()] = true;
    }
    assert_eq!(seen, [true, true, true]);
    let mut seen = [false; 3];
    for _ in 0..300 {
        seen[pick_board_index(3, Some(1)).unwrap()] = true;
    }
    assert_eq!(seen, [true, false, true]);
}

#[test]
fn crash_titles_and_small_decisions() {
    assert_eq!(crash_title(""), DEFAULT_CRASH_TITLE);
    assert_eq!(crash_title("自定义"), "自定义");
    assert!(preview_interrupted(true, true));
    assert!(!preview_interrupted(false, true));
    assert!(!preview_interrupted(true, false));
    assert!(matches!(after_delete::<u8>(), Transition::PopWithResult(true)));
}
