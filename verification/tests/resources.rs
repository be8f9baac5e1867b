use phira_vrenxz::chart_format::{chart_fallback_path, infer_chart_format, ChartFormat};
use phira_vrenxz::checksum::{chart_checksum, verify_checksum_path};
use phira_vrenxz::mentions::{charter_display, find_unresolved_mentions, parse_collaborators, parse_i32_chars};
use phira_vrenxz::res_pack::{
    default_good, default_perfect, default_tinted, downscaled_atlas, hold_body_pixels, parse_color_guess_alpha,
    verify_hold_atlas, ResPackError, ResPackInfo, Rgba8, StyleSet, DEFAULT_GOOD, DEFAULT_PERFECT,
};
use phira_vrenxz::song_menu::{menu_options, ChartEntityState, MenuContext, MenuOption, MenuPermissions};
use phira_vrenxz::texture::downscale_rgba;
use phira_vrenxz::xcsim::{
    bearer, chart_list_query, request_failure_message, trim_end_slashes, XCSimAccount, XCSimSettings,
    DEFAULT_XCSIM_API_URL, DEFAULT_XCSIM_DOWNLOAD_URL,
};
use phira_vrenxz::zip_paths::{common_top_dir, entry_target_path, is_dir_entry};

fn info() -> ResPackInfo {
    ResPackInfo {
        name: "Pack".to_string(),
        author: "me".to_string(),
        hit_fx: (4, 4),
        hit_fx_rotate: false,
        hide_particles: false,
        hit_fx_tinted: default_tinted(),
        hold_atlas: (10, 20),
        hold_atlas_mh: (10, 20),
        hold_keep_head: false,
        hold_repeat: false,
        hold_compact: false,
        color_perfect: default_perfect(),
        color_good: default_good(),
        description: String::new(),
    }
}

#[test]
fn res_pack_verify_errors() {
    assert_eq!(info().verify(), Ok(()));
    let mut i = info();
    i.name = String::new();
    assert_eq!(i.verify(), Err(ResPackError::EmptyName));
    i.name = "名".repeat(34);
    assert_eq!(i.verify(), Err(ResPackError::NameTooLong));
    i.name = "名".repeat(33);
    assert_eq!(i.verify(), Ok(()));
    i.description = "x".repeat(1001);
    assert_eq!(i.verify(), Err(ResPackError::DescriptionTooLong));
    i.description = "x".repeat(1000);
    i.hit_fx = (0, 5);
    assert_eq!(i.verify(), Err(ResPackError::InvalidHitFx));
    i.hit_fx = (101, 102);
    assert_eq!(i.verify(), Err(ResPackError::InvalidHitFx));
    i.hit_fx = (u32::MAX, 2);
    assert_eq!(i.verify(), Err(ResPackError::InvalidHitFx));
    i.hit_fx = (100, 102);
    assert_eq!(i.verify(), Ok(()));
    assert_eq!(ResPackError::InvalidHitFx.message(), "Invalid hit_fx");
    assert_eq!(ResPackError::EmptyName.message(), "empty name");
    assert_eq!(ResPackError::InvalidAtlas.message(), "Invalid atlas");
}

#[test]
fn res_pack_colors() {
    let i = info();
    assert_eq!(DEFAULT_PERFECT, 0xe1ffec9f);
    assert_eq!(DEFAULT_GOOD, 0xebb4e1ff);
    assert_eq!(i.color_perfect(), Rgba8 { a: 0xe1, r: 0xff, g: 0xec, b: 0x9f });
    assert_eq!(i.fx_good(), Rgba8 { a: 0xeb, r: 0xb4, g: 0xe1, b: 0xff });
    assert_eq!(parse_color_guess_alpha(0x123456), Rgba8 { a: 255, r: 0x12, g: 0x34, b: 0x56 });
    let mut plain = info();
    plain.hit_fx_tinted = false;
    assert_eq!(plain.fx_perfect(), Rgba8 { r: 255, g: 255, b: 255, a: 255 });
    assert_eq!(plain.color_good(), Rgba8 { a: 0xeb, r: 0xb4, g: 0xe1, b: 0xff });
}

#[test]
fn hold_atlas_rules() {
    assert_eq!(verify_hold_atlas((10, 20), 31), Ok(()));
    assert_eq!(verify_hold_atlas((10, 20), 30), Err(ResPackError::InvalidAtlas));
    assert_eq!(verify_hold_atlas((u16::MAX, 5), 70000), Ok(()));
    assert_eq!(verify_hold_atlas((u16::MAX, 5), 65535), Err(ResPackError::InvalidAtlas));
    assert_eq!(downscaled_atlas((10, 21), 2), (5, 10));
    assert_eq!(downscaled_atlas((10, 21), 0), (10, 21));
}

#[test]
fn hold_body_rows() {
    // A 2 x 4 texture whose bytes count up; cut one row at the top, one at the bottom.
    let pixels: Vec<u8> = (0..32).collect();
    let (h, body) = hold_body_pixels(&pixels, 2, 4, (1, 1));
    assert_eq!(h, 2);
    assert_eq!(body, (8..24).collect::<Vec<u8>>());
}

#[test]
fn style_choice() {
    let s = StyleSet { normal: 1, mh: 2, low: 3, mh_low: 4 };
    assert_eq!(*s.style_for(false, false), 1);
    assert_eq!(*s.style_for(true, false), 2);
    assert_eq!(*s.style_for(false, true), 3);
    assert_eq!(*s.style_for(true, true), 4);
}

/// The box filter written out directly.
fn naive_downscale(src: &[u8], w: usize, h: usize, factor: u32) -> Option<(usize, usize, Vec<u8>)> {
    let f = factor.max(1) as usize;
    if w <= f || h <= f {
        return None;
    }
    let (nw, nh) = (w / f, h / f);
    let mut dst = vec![0u8; nw * nh * 4];
    for y in 0..nh {
        for x in 0..nw {
            for c in 0..4 {
                let mut sum = 0u32;
                for sy in y * f..y * f + f {
                    for sx in x * f..x * f + f {
                        sum += src[(sy * w + sx) * 4 + c] as u32;
                    }
                }
                dst[(y * nw + x) * 4 + c] = (sum / (f * f) as u32) as u8;
            }
        }
    }
    Some((nw, nh, dst))
}

#[test]
fn downscale_box_filter() {
    let (w, h) = (7usize, 5usize);
    let src: Vec<u8> = (0..w * h * 4).map(|i| ((i * 37 + 11) % 256) as u8).collect();
    for factor in 0..7u32 {
        assert_eq!(downscale_rgba(&src, w, h, factor), naive_downscale(&src, w, h, factor), "factor {factor}");
    }
    let one = vec![1u8, 2, 3, 4, 5, 6, 7, 8, 9, 10, 11, 12, 13, 14, 15, 16, 0, 0, 0, 0, 0, 0, 0, 0, 0, 0, 0, 0, 0, 0, 0, 0, 0, 0, 0, 0];
    assert_eq!(downscale_rgba(&one, 3, 3, 3), None);
    assert_eq!(downscale_rgba(&one, 3, 3, 2).map(|t| (t.0, t.1)), Some((1, 1)));
    let four: Vec<u8> = vec![10, 20, 30, 40, 20, 30, 40, 50, 30, 40, 50, 60, 41, 51, 61, 71, 0, 0, 0, 0, 0, 0, 0, 0, 0, 0, 0, 0, 0, 0, 0, 0, 0, 0, 0, 0];
    assert_eq!(downscale_rgba(&four, 3, 3, 1), Some((3, 3, four.clone())));
}

fn settings(api: Option<&str>, dl: Option<&str>) -> XCSimSettings {
    XCSimSettings {
        xcsim_api_url: api.map(|s| s.to_string()),
        xcsim_download_url: dl.map(|s| s.to_string()),
        xcsim_account: XCSimAccount::default(),
    }
}

#[test]
fn xcsim_addresses() {
    let s = settings(None, None);
    assert_eq!(s.api_base_url(), DEFAULT_XCSIM_API_URL);
    assert_eq!(s.download_base_url(), DEFAULT_XCSIM_DOWNLOAD_URL);
    assert_eq!(s.api_url("/charts"), format!("{DEFAULT_XCSIM_API_URL}/charts"));
    let s = settings(Some("https://api.example//"), Some("https://dl.example/"));
    assert_eq!(s.api_base_url(), "https://api.example");
    assert_eq!(s.api_url("/me"), "https://api.example/me");
    assert_eq!(s.rehost_url("http://old:1/x/files/a/b.zip"), "https://dl.example/files/a/b.zip");
    assert_eq!(s.rehost_url("http://old:1/x/file/a.zip"), "http://old:1/x/file/a.zip");
    assert_eq!(trim_end_slashes("///"), "");
    assert_eq!(trim_end_slashes("a/b"), "a/b");
}

#[test]
fn xcsim_account_and_requests() {
    let mut s = settings(None, None);
    assert!(!s.is_logged_in());
    s.xcsim_account.access_token = Some("tok".to_string());
    s.xcsim_account.id = Some(5);
    assert!(s.is_logged_in());
    assert_eq!(s.account().id, Some(5));
    assert_eq!(bearer("tok"), "Bearer tok");
    assert_eq!(request_failure_message("404 Not Found", "body", None), "request failed (404 Not Found): body");
    assert_eq!(
        request_failure_message("400 Bad Request", "{\"error\":\"x\"}", Some("bad input".to_string())),
        "request failed (400 Bad Request): bad input"
    );
    assert_eq!(chart_list_query(0, 20, Some("")), (1, 20, None));
    assert_eq!(chart_list_query(4, 10, Some("song")), (5, 10, Some("song".to_string())));
    assert_eq!(chart_list_query(4, 10, None), (5, 10, None));
}

fn names(v: &[&str]) -> Vec<String> {
    v.iter().map(|s| s.to_string()).collect()
}

#[test]
fn zip_top_directory() {
    assert_eq!(common_top_dir(&names(&["pack/", "pack/a.png", "pack\\b.png", "", "/"])), Some("pack".to_string()));
    assert_eq!(common_top_dir(&names(&["pack/a.png", "other/b.png"])), None);
    assert_eq!(common_top_dir(&names(&["pack/a.png", "loose.txt"])), None);
    assert_eq!(common_top_dir(&names(&[])), None);
    assert_eq!(common_top_dir(&names(&["a\\b/c"])), Some("a\\b".to_string()));
}

#[test]
fn zip_entry_targets() {
    let top = Some("pack".to_string());
    assert_eq!(entry_target_path("pack/a/b.png", &top), Some("a/b.png".to_string()));
    assert_eq!(entry_target_path("pack\\a\\b.png", &top), Some("a/b.png".to_string()));
    assert_eq!(entry_target_path("pack/", &top), None);
    assert_eq!(entry_target_path("other/c.png", &top), Some("other/c.png".to_string()));
    assert_eq!(entry_target_path("pack/skel/x.json", &top), None);
    assert_eq!(entry_target_path("pack/voice_Line", &top), None);
    assert_eq!(entry_target_path("pack/skeleton/x", &top), Some("skeleton/x".to_string()));
    assert_eq!(entry_target_path("a/b", &None), Some("a/b".to_string()));
    assert!(is_dir_entry(true, "x"));
    assert!(is_dir_entry(false, "x/"));
    assert!(!is_dir_entry(false, "x"));
    assert!(!is_dir_entry(false, ""));
}

#[test]
fn collaborator_mentions() {
    let intro = "谱面 by @Alice#12 (charter) with @Bob#7（美工）, thanks @Carol and @Alice#12 again @Dan#x9 @Eve#99999999999";
    let map = parse_collaborators(intro);
    assert_eq!(map.len(), 2);
    assert_eq!(map.get(&12), Some(&Some("charter".to_string())));
    assert_eq!(map.get(&7), Some(&Some("美工".to_string())));
    let unresolved = find_unresolved_mentions(intro);
    let names: Vec<&str> = unresolved.iter().map(|t| t.2.as_str()).collect();
    // `@Eve#99999999999` has an id group, so it is not unresolved, but the id
    // does not fit an `i32`, so it is no collaborator either.
    assert_eq!(names, vec!["Carol", "Dan"]);
    let (s, e, _) = &unresolved[0];
    assert_eq!(&intro[*s..*e], "@Carol");
}

#[test]
fn collaborator_first_role_wins() {
    let map = parse_collaborators("@A#3 @A#3 (mix) @A#3 (art)");
    assert_eq!(map.get(&3), Some(&Some("mix".to_string())));
    let map = parse_collaborators("@A#3");
    assert_eq!(map.get(&3), Some(&None));
    assert!(parse_collaborators("no mentions").is_empty());
}

#[test]
fn integer_reading() {
    let chars = |s: &str| s.chars().collect::<Vec<char>>();
    for s in ["0", "42", "-17", "+8", "2147483647", "-2147483648", "2147483648", "", "-", "1a", "007"] {
        assert_eq!(parse_i32_chars(&chars(s)), s.parse::<i32>().ok(), "{s:?}");
    }
}

#[test]
fn chart_checksums() {
    assert_eq!(chart_checksum(b"abc"), "ba7816bf8f01cfea414140de5dae2223b00361a396177a9cb410ff61f20015ad");
    assert_eq!(chart_checksum(b""), "e3b0c44298fc1c149afbf4c8996fb92427ae41e4649b934ca495991b7852b855");
    assert_eq!(verify_checksum_path(-3, "ab"), "/chart/-3/verify-cksum?checksum=ab");
    assert_eq!(verify_checksum_path(120, "ff"), "/chart/120/verify-cksum?checksum=ff");
}

#[test]
fn chart_formats() {
    assert_eq!(infer_chart_format(Some(ChartFormat::Pec), b"{\"META\":1}"), ChartFormat::Pec);
    assert_eq!(infer_chart_format(None, b"{\"META\":{}}"), ChartFormat::Rpe);
    assert_eq!(infer_chart_format(None, b"{\"judgeLineList\":[]}"), ChartFormat::Pgr);
    assert_eq!(infer_chart_format(None, b"120\nbp 0 120"), ChartFormat::Pec);
    assert_eq!(infer_chart_format(None, b""), ChartFormat::Pec);
    assert_eq!(infer_chart_format(None, &[0x7b, 0xff, 0x00]), ChartFormat::Pbc);
    assert_eq!(chart_fallback_path("chart.pec"), Some("chart.json".to_string()));
    assert_eq!(chart_fallback_path(".pec"), Some(".json".to_string()));
    assert_eq!(chart_fallback_path("chart.json"), None);
    assert_eq!(chart_fallback_path("pec"), None);
}

fn ctx() -> MenuContext {
    MenuContext {
        local: true,
        builtin: false,
        has_id: false,
        xcsim: false,
        played_unlock: false,
        is_uploader: false,
        perms: MenuPermissions {
            review: false,
            review_pecjam: false,
            stabilize_chart: false,
            delete_stable: false,
            delete_unstable: false,
        },
        entity: None,
    }
}

#[test]
fn menus() {
    assert_eq!(
        menu_options(&ctx()),
        vec![MenuOption::Delete, MenuOption::Exercise, MenuOption::Offset, MenuOption::Export]
    );
    let mut c = ctx();
    c.builtin = true;
    c.played_unlock = true;
    assert_eq!(menu_options(&c), vec![MenuOption::Exercise, MenuOption::Offset, MenuOption::Unlock]);
    let mut c = ctx();
    c.local = false;
    c.has_id = true;
    c.is_uploader = true;
    c.perms.review = true;
    c.entity = Some(ChartEntityState { reviewed: false, stable: false, stable_request: false });
    assert_eq!(
        menu_options(&c),
        vec![
            MenuOption::Rate,
            MenuOption::ReviewApprove,
            MenuOption::ReviewDeny,
            MenuOption::ReviewEditTags,
            MenuOption::Stabilize,
            MenuOption::ReviewDel,
        ]
    );
    let mut c = ctx();
    c.local = false;
    c.has_id = true;
    c.xcsim = true;
    c.perms.stabilize_chart = true;
    c.perms.delete_stable = true;
    c.entity = Some(ChartEntityState { reviewed: true, stable: true, stable_request: true });
    assert_eq!(
        menu_options(&c),
        vec![
            MenuOption::StabilizeApprove,
            MenuOption::StabilizeApproveRanked,
            MenuOption::StabilizeComment,
            MenuOption::StabilizeDeny,
            MenuOption::ReviewDel,
        ]
    );
    assert_eq!(MenuOption::ReviewEditTags.key(), "review-edit-tags");
}

#[test]
fn charter_line_shows_names() {
    assert_eq!(charter_display("[!:123:Alice] & [!:4:Bob]"), "Alice & Bob");
    assert_eq!(charter_display("plain charter"), "plain charter");
    assert_eq!(charter_display("[!:x:Alice]"), "[!:x:Alice]");
    assert_eq!(charter_display("[!:1:]"), "");
}

#[test]
fn rehost_twice_is_once() {
    let s = settings(None, Some("https://dl.example/"));
    for url in ["http://old/files/a/files/x.zip", "http://old/x.zip", "/files/"] {
        let once = s.rehost_url(url);
        assert_eq!(s.rehost_url(&once), once, "{url}");
    }
    assert_eq!(s.rehost_url("http://h/files/a/files/x"), "https://dl.example/files/a/files/x");
    // A base ending in `/files` is where the law does not hold.
    let odd = settings(None, Some("https://dl.example/files"));
    let once = odd.rehost_url("http://h/files/a");
    assert_eq!(once, "https://dl.example/files/files/a");
    assert_ne!(odd.rehost_url(&once), once);
}
