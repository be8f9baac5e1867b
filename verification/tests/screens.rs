use phira_vrenxz::achievement_order::{display_order, AchievementDef, AchievementFilter};
use phira_vrenxz::pause_view::{blur_size, disabled_buttons, flip_rows, pause_choice, rgb_to_rgba, PauseChoice};
use phira_vrenxz::play_rules::GameMode;
use phira_vrenxz::size_format::format_size;
use phira_vrenxz::song_events::{
    leaderboard_score_text, menu_action, own_rank, respack_path, review_result_key, stabilize_result_key,
    update_prompt, LeaderboardEntry, LocalStamps, MenuAction, RemoteStamps, UpdatePrompt,
};
use phira_vrenxz::song_menu::MenuOption;

/// The size text as floating-point formatting writes it.
fn float_size(bytes: u64) -> String {
    if bytes < 1024 {
        format!("{} B", bytes)
    } else if bytes < 1024 * 1024 {
        format!("{:.1} KB", bytes as f64 / 1024.0)
    } else if bytes < 1024 * 1024 * 1024 {
        format!("{:.1} MB", bytes as f64 / (1024.0 * 1024.0))
    } else {
        format!("{:.2} GB", bytes as f64 / (1024.0 * 1024.0 * 1024.0))
    }
}

#[test]
fn format_size_examples() {
    assert_eq!(format_size(0), "0 B");
    assert_eq!(format_size(1023), "1023 B");
    assert_eq!(format_size(1024), "1.0 KB");
    assert_eq!(format_size(1536), "1.5 KB");
    assert_eq!(format_size(1024 * 1024), "1.0 MB");
    assert_eq!(format_size(5 * 1024 * 1024 * 1024 / 2), "2.50 GB");
}

#[test]
fn format_size_matches_float_formatting_on_ties() {
    // Values whose tenth (or hundredth) lies exactly half way.
    for bytes in [1280u64, 1792, 2304, 2816, 1048576 + 262144, 1048576 + 786432, 1048576 * 5 / 4] {
        assert_eq!(format_size(bytes), float_size(bytes), "bytes = {bytes}");
    }
    assert_eq!(format_size(1280), "1.2 KB");
    assert_eq!(format_size(1792), "1.8 KB");
    let gib = 1024u64 * 1024 * 1024;
    for bytes in [gib + (1 << 27), gib + 3 * (1 << 27), 3 * gib + (1 << 27)] {
        assert_eq!(format_size(bytes), float_size(bytes), "bytes = {bytes}");
    }
}

#[test]
fn format_size_matches_float_formatting() {
    let mut x: u64 = 1;
    for _ in 0..4000 {
        x = x.wrapping_mul(6364136223846793005).wrapping_add(1442695040888963407);
        for shift in [54u32, 44, 34, 24, 1, 0] {
            let bytes = x >> shift;
            assert_eq!(format_size(bytes), float_size(bytes), "bytes = {bytes}");
        }
    }
    for bytes in [u64::MAX, u64::MAX - 1, 1 << 53, (1 << 53) + 1, (1 << 60) + 12345] {
        assert_eq!(format_size(bytes), float_size(bytes), "bytes = {bytes}");
    }
}

#[test]
fn menu_actions() {
    assert_eq!(menu_action(MenuOption::Delete), MenuAction::ConfirmDelete);
    assert_eq!(menu_action(MenuOption::Unlock), MenuAction::Launch { mode: GameMode::Normal, unlock: true });
    assert_eq!(menu_action(MenuOption::Offset), MenuAction::Launch { mode: GameMode::TweakOffset, unlock: false });
    assert_eq!(menu_action(MenuOption::Exercise), MenuAction::Launch { mode: GameMode::Exercise, unlock: false });
    assert_eq!(menu_action(MenuOption::StabilizeApproveRanked), MenuAction::ConfirmStabilizeApprove { ranked: true });
    assert_eq!(menu_action(MenuOption::ReviewDel), MenuAction::ConfirmServerDelete);
    assert_eq!(menu_action(MenuOption::Export), MenuAction::Export);
}

#[test]
fn update_prompts() {
    let remote = RemoteStamps { created: 100, updated: 200, chart_updated: 150 };
    let never = LocalStamps { updated: None, chart_updated: None };
    assert_eq!(update_prompt(never, remote, true), UpdatePrompt::ChartChanged);
    assert_eq!(update_prompt(never, remote, false), UpdatePrompt::NoPrompt);
    let synced = LocalStamps { updated: Some(200), chart_updated: Some(150) };
    assert_eq!(update_prompt(synced, remote, true), UpdatePrompt::NoPrompt);
    let info_only = LocalStamps { updated: Some(180), chart_updated: Some(150) };
    assert_eq!(update_prompt(info_only, remote, true), UpdatePrompt::InfoOnly);
    let untouched = RemoteStamps { created: 100, updated: 100, chart_updated: 100 };
    assert_eq!(update_prompt(never, untouched, true), UpdatePrompt::NoPrompt);
    let info_changed = RemoteStamps { created: 100, updated: 300, chart_updated: 100 };
    assert_eq!(update_prompt(never, info_changed, true), UpdatePrompt::InfoOnly);
}

#[test]
fn own_rank_first_match() {
    let rows = vec![
        LeaderboardEntry { player_id: 7, rank: 1, score: 1000000 },
        LeaderboardEntry { player_id: 3, rank: 2, score: 990000 },
        LeaderboardEntry { player_id: 3, rank: 9, score: 10 },
    ];
    assert_eq!(own_rank(&rows, Some(3)), Some(2));
    assert_eq!(own_rank(&rows, Some(7)), Some(1));
    assert_eq!(own_rank(&rows, Some(4)), None);
    assert_eq!(own_rank(&rows, None), None);
    assert_eq!(own_rank(&Vec::new(), Some(3)), None);
}

#[test]
fn leaderboard_scores_are_zero_padded() {
    for score in [0u32, 7, 123456, 1000000, 99999999, u32::MAX] {
        assert_eq!(leaderboard_score_text(score, false), format!("{:07}", score));
        assert_eq!(leaderboard_score_text(score, true), format!("{:08}", score));
    }
}

#[test]
fn result_keys() {
    assert_eq!(review_result_key(true), "review-passed");
    assert_eq!(review_result_key(false), "review-approved");
    assert_eq!(stabilize_result_key(0), "stabilize-approved");
    assert_eq!(stabilize_result_key(1), "stabilize-approved-passed");
    assert_eq!(stabilize_result_key(-1), "stabilize-approved-passed");
}

#[test]
fn respack_paths() {
    let packs = vec!["first".to_string(), "second".to_string()];
    assert_eq!(respack_path("/data/respack", &packs, 0), None);
    assert_eq!(respack_path("/data/respack", &packs, 1), Some("/data/respack/first".to_string()));
    assert_eq!(respack_path("/data/respack", &packs, 2), Some("/data/respack/second".to_string()));
}

#[test]
fn pause_choices() {
    assert_eq!(pause_choice(Some(-1), true, true), Some(PauseChoice::Back));
    assert_eq!(pause_choice(Some(0), false, false), Some(PauseChoice::Retry));
    assert_eq!(pause_choice(Some(0), true, false), None);
    assert_eq!(pause_choice(Some(1), false, false), Some(PauseChoice::Resume));
    assert_eq!(pause_choice(Some(1), false, true), None);
    assert_eq!(pause_choice(None, false, false), None);
    assert_eq!(pause_choice(Some(2), false, false), None);
    assert_eq!(disabled_buttons(true, false), [false, true, false]);
}

#[test]
fn blur_sizes() {
    assert_eq!(blur_size(1920, 1080), (240, 135));
    assert_eq!(blur_size(7, 0), (1, 1));
}

#[test]
fn rows_are_flipped() {
    let pixels: Vec<u8> = (0..12).collect();
    assert_eq!(flip_rows(&pixels, 3, 4), vec![9, 10, 11, 6, 7, 8, 3, 4, 5, 0, 1, 2]);
    assert_eq!(flip_rows(&Vec::new(), 3, 0), Vec::<u8>::new());
}

#[test]
fn rgb_expands_to_opaque_rgba() {
    let rgb = vec![[1u8, 2, 3], [4, 5, 6]];
    assert_eq!(rgb_to_rgba(&rgb), vec![1, 2, 3, 255, 4, 5, 6, 255]);
}

fn def(id: u32, category: u8, order: u32) -> AchievementDef {
    AchievementDef { id, category, order }
}

#[test]
fn achievements_in_display_order() {
    let defs = vec![def(10, 1, 5), def(11, 2, 1), def(12, 1, 3), def(13, 1, 5), def(14, 2, 0)];
    assert_eq!(display_order(&defs, AchievementFilter::All), vec![4, 1, 2, 0, 3]);
    assert_eq!(display_order(&defs, AchievementFilter::Category(1)), vec![2, 0, 3]);
    assert_eq!(display_order(&defs, AchievementFilter::Category(3)), Vec::<usize>::new());
}

#[test]
fn achievement_order_is_a_stable_sort() {
    let defs: Vec<AchievementDef> = (0..40u32).map(|i| def(i, (i % 3) as u8, (i * 7) % 5)).collect();
    let mut expected: Vec<usize> = (0..defs.len()).collect();
    expected.sort_by_key(|i| defs[*i].order);
    assert_eq!(display_order(&defs, AchievementFilter::All), expected);
}
