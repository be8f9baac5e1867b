use phira_vrenxz::chart_order::{line_order, LineMeta, UIElement};
use phira_vrenxz::judge_cache::{JudgeLineCache, NoteKey};
use phira_vrenxz::note_buffer::{NoteBuffer, MAX_SIZE};
use phira_vrenxz::parallel::{chunk_ranges, plan_split, worker_count, Plan, ThreadPool};
use phira_vrenxz::text_edit::{is_control, InputDialog, InputMode, KeyFrame, KeyOutcome};
use phira_vrenxz::line_pass::{line_draw_order, line_visibility, LineVisibility};
use phira_vrenxz::judge_cache::{is_plain, NoteShape};

fn frame() -> KeyFrame {
    KeyFrame {
        ctrl: false,
        key_a: false,
        key_c: false,
        key_x: false,
        key_v: false,
        clipboard: None,
        chars: Vec::new(),
        backspace: false,
        delete: false,
        left: false,
        right: false,
        home: false,
        end: false,
        enter: false,
        escape: false,
    }
}

fn dialog(mode: InputMode, text: &str) -> InputDialog {
    InputDialog::new("id".to_string(), mode, text, None, None, None, None)
}

fn text(d: &InputDialog) -> String {
    d.text.iter().collect()
}

#[test]
fn input_dialog_defaults() {
    let d = dialog(InputMode::Password, "abc");
    assert_eq!(d.cursor, 3);
    assert!(d.password && !d.multiline);
    assert_eq!(d.ok_label, "OK");
    assert_eq!(d.cancel_label, "Cancel");
    assert_eq!(d.title, "");
    let d = InputDialog::new(
        "x".to_string(),
        InputMode::Multiline,
        "",
        Some("T".to_string()),
        Some("P".to_string()),
        Some("Yes".to_string()),
        Some("No".to_string()),
    );
    assert!(d.multiline);
    assert_eq!((d.title.as_str(), d.prompt.as_str(), d.ok_label.as_str()), ("T", "P", "Yes"));
}

#[test]
fn typing_inserts_reversed_batch_at_cursor() {
    let mut d = dialog(InputMode::Text, "ad");
    let mut f = frame();
    f.left = true;
    d.update_keyboard(&f);
    assert_eq!(d.cursor, 1);
    let mut f = frame();
    f.chars = vec!['c', 'b'];
    let r = d.update_keyboard(&f);
    assert_eq!(r.outcome, KeyOutcome::Continue);
    assert_eq!(text(&d), "abcd");
    assert_eq!(d.cursor, 3);
}

#[test]
fn newline_confirms_single_line_and_breaks_multiline() {
    let mut d = dialog(InputMode::Text, "a");
    let mut f = frame();
    f.chars = vec!['b', '\n'];
    assert_eq!(d.update_keyboard(&f).outcome, KeyOutcome::Confirm);
    assert_eq!(text(&d), "a");
    let mut m = dialog(InputMode::Multiline, "a");
    assert_eq!(m.update_keyboard(&f).outcome, KeyOutcome::Continue);
    assert_eq!(text(&m), "a\nb");
}

#[test]
fn editing_keys() {
    let mut d = dialog(InputMode::Text, "hello");
    let mut f = frame();
    f.backspace = true;
    d.update_keyboard(&f);
    assert_eq!(text(&d), "hell");
    let mut f = frame();
    f.home = true;
    d.update_keyboard(&f);
    assert_eq!(d.cursor, 0);
    let mut f = frame();
    f.delete = true;
    d.update_keyboard(&f);
    assert_eq!(text(&d), "ell");
    let mut f = frame();
    f.end = true;
    f.escape = true;
    assert_eq!(d.update_keyboard(&f).outcome, KeyOutcome::Cancel);
    assert_eq!(d.cursor, 3);
    let mut f = frame();
    f.enter = true;
    assert_eq!(d.update_keyboard(&f).outcome, KeyOutcome::Confirm);
    let mut f = frame();
    f.chars = vec!['\u{7}', '\u{7f}', 'x'];
    d.update_keyboard(&f);
    assert_eq!(text(&d), "ellx");
}

#[test]
fn law_cut_then_paste_restores_example() {
    let mut d = dialog(InputMode::Text, "abcdef");
    d.selection = Some((1, 4));
    d.cursor = 4;
    let mut cut = frame();
    cut.ctrl = true;
    cut.key_x = true;
    let r = d.update_keyboard(&cut);
    assert_eq!(r.outcome, KeyOutcome::Continue);
    assert_eq!(text(&d), "aef");
    let clip = r.clipboard.expect("cut text");
    assert_eq!(clip.iter().collect::<String>(), "bcd");
    let mut paste = frame();
    paste.ctrl = true;
    paste.key_v = true;
    paste.clipboard = Some(clip);
    d.update_keyboard(&paste);
    assert_eq!(text(&d), "abcdef");
}

#[test]
fn law_select_all_then_delete_empties_example() {
    let mut d = dialog(InputMode::Multiline, "some\ntext");
    let mut all = frame();
    all.ctrl = true;
    all.key_a = true;
    d.update_keyboard(&all);
    assert_eq!(d.selection, Some((0, 9)));
    let mut copy = frame();
    copy.ctrl = true;
    copy.key_c = true;
    let r = d.update_keyboard(&copy);
    assert_eq!(r.clipboard.map(|c| c.iter().collect::<String>()), Some("some\ntext".to_string()));
    let mut del = frame();
    del.delete = true;
    assert_eq!(d.update_keyboard(&del).outcome, KeyOutcome::Continue);
    assert!(d.text.is_empty());
    assert_eq!(d.cursor, 0);
}

#[test]
fn control_characters() {
    assert!(is_control('\u{0}'));
    assert!(is_control('\u{1f}'));
    assert!(is_control('\u{85}'));
    assert!(!is_control(' '));
    assert!(!is_control('中'));
}

fn key(plain: bool, above: bool, speed_class: u32) -> NoteKey {
    NoteKey { plain, above, speed_class }
}

#[test]
fn judge_cache_groups() {
    let notes = vec![
        key(false, true, 0),
        key(false, false, 1),
        key(true, true, 1),
        key(true, true, 1),
        key(true, true, 2),
        key(true, false, 2),
        key(true, false, 2),
        key(true, false, 3),
    ];
    let mut c = JudgeLineCache::empty();
    c.reset(&notes);
    assert_eq!(c.not_plain_count, 2);
    assert_eq!(c.above_indices, vec![2, 4]);
    assert_eq!(c.below_indices, vec![5, 7]);
    assert_eq!(*c.active_ids(), (0..8).collect::<Vec<u32>>());

    let judged = vec![false, false, true, false, true, true, true, false];
    c.advance_groups(&notes, &judged);
    assert_eq!(c.above_indices, vec![3]);
    assert_eq!(c.below_indices, vec![7]);

    let dead = vec![true, false, false, true, false, false, false, true];
    c.retain_alive(&dead);
    assert_eq!(*c.active_ids(), vec![1, 2, 4, 5, 6]);
}

#[test]
fn judge_cache_without_plain_notes() {
    let notes = vec![key(false, true, 0), key(false, false, 0)];
    let mut c = JudgeLineCache::empty();
    c.reset(&notes);
    assert_eq!(c.not_plain_count, 2);
    assert!(c.above_indices.is_empty() && c.below_indices.is_empty());
}

fn line(z_index: i32, attach_ui: Option<UIElement>) -> LineMeta {
    LineMeta { z_index, attach_ui }
}

#[test]
fn lines_in_draw_order() {
    let lines = vec![
        line(3, None),
        line(0, Some(UIElement::Score)),
        line(-1, None),
        line(3, None),
        line(0, None),
        line(9, Some(UIElement::Score)),
        line(1, Some(UIElement::Pause)),
    ];
    let (order, attach) = line_order(&lines);
    assert_eq!(order, vec![2, 4, 0, 3]);
    assert_eq!(attach[UIElement::Score.code() as usize - 1], Some(5));
    assert_eq!(attach[UIElement::Pause.code() as usize - 1], Some(6));
    assert_eq!(attach[UIElement::Level.code() as usize - 1], None);
}

#[test]
fn ui_element_codes() {
    for v in 1..=7u8 {
        assert_eq!(UIElement::from_u8(v).map(|e| e.code()), Some(v));
    }
    assert_eq!(UIElement::from_u8(0), None);
    assert_eq!(UIElement::from_u8(8), None);
    assert_eq!(UIElement::from_u8(4), Some(UIElement::Score));
}

#[test]
fn note_buffer_batches_quads() {
    let mut b: NoteBuffer<u8> = NoteBuffer::new();
    for q in 0..(MAX_SIZE + 1) {
        let v = q as u8;
        b.push((1, 7), [v, v, v, v]);
    }
    b.push((0, 2), [9, 9, 9, 9]);
    let all = b.take_all();
    assert!(b.meshes.is_empty());
    let meshes = &all[&(1, 7)];
    assert_eq!(meshes.len(), 2);
    assert_eq!(meshes[0].0.len(), MAX_SIZE * 4);
    assert_eq!(meshes[0].1.len(), MAX_SIZE * 6);
    assert_eq!(&meshes[0].1[6..12], &[4, 5, 6, 4, 6, 7]);
    assert_eq!(meshes[1].0, vec![64, 64, 64, 64]);
    assert_eq!(meshes[1].1, vec![0, 1, 2, 0, 2, 3]);
    assert_eq!(all[&(0, 2)].len(), 1);
}

#[test]
fn worker_counts() {
    assert_eq!(worker_count(Some(8)), 8);
    assert_eq!(worker_count(Some(0)), 1);
    assert_eq!(worker_count(None), 1);
    assert_eq!(ThreadPool::new(0).worker_count(), 1);
    assert_eq!(ThreadPool::new(6).worker_count(), 6);
}

#[test]
fn chunking() {
    assert_eq!(chunk_ranges(10, 3), vec![(0, 3), (3, 6), (6, 9), (9, 10)]);
    assert_eq!(chunk_ranges(0, 3), vec![]);
    assert!(matches!(plan_split(1, 100), Plan::Sequential));
    assert!(matches!(plan_split(4, 1), Plan::Sequential));
    match plan_split(4, 10) {
        Plan::Chunks(r) => assert_eq!(r, vec![(0, 3), (3, 6), (6, 9), (9, 10)]),
        Plan::Sequential => panic!("expected chunks"),
    }
    match ThreadPool::new(16).plan(3) {
        Plan::Chunks(r) => assert_eq!(r, vec![(0, 1), (1, 2), (2, 3)]),
        Plan::Sequential => panic!("expected chunks"),
    }
}

#[test]
fn law_chunks_cover_in_order_example() {
    for n in 2..60usize {
        for w in 2..9usize {
            if let Plan::Chunks(r) = plan_split(w, n) {
                assert!(r.len() <= w);
                assert_eq!(r[0].0, 0);
                assert_eq!(r[r.len() - 1].1, n);
                for i in 0..r.len() {
                    assert!(r[i].0 < r[i].1);
                    if i + 1 < r.len() {
                        assert_eq!(r[i].1, r[i + 1].0);
                    }
                }
            } else {
                panic!("expected chunks for n = {n}, w = {w}");
            }
        }
    }
}

#[test]
fn line_visibility_codes() {
    assert_eq!(line_visibility(false, false, 1), LineVisibility::Normal);
    assert_eq!(line_visibility(true, false, 150), LineVisibility::Hidden);
    assert_eq!(line_visibility(true, true, 1), LineVisibility::Hidden);
    assert_eq!(line_visibility(true, true, 2), LineVisibility::NoBelow);
    assert_eq!(line_visibility(true, true, 100), LineVisibility::AppearBefore(0));
    assert_eq!(line_visibility(true, true, 135), LineVisibility::AppearBefore(35));
    assert_eq!(line_visibility(true, true, 999), LineVisibility::AppearBefore(899));
    assert_eq!(line_visibility(true, true, 1000), LineVisibility::Normal);
    assert_eq!(line_visibility(true, true, 0), LineVisibility::Normal);
}

#[test]
fn line_notes_in_drawing_order() {
    let notes = vec![
        key(false, true, 0),
        key(false, false, 1),
        key(false, true, 2),
        key(true, true, 1),
        key(true, true, 1),
        key(true, true, 2),
        key(true, false, 2),
        key(true, false, 2),
        key(true, false, 3),
    ];
    let mut c = JudgeLineCache::empty();
    c.reset(&notes);
    assert_eq!(c.not_plain_count, 3);
    assert_eq!(c.above_indices, vec![3, 5]);
    assert_eq!(c.below_indices, vec![6, 8]);
    let off = vec![(false, false); notes.len()];
    let (above, below) = line_draw_order(&notes, &off, true, c.not_plain_count, &c.above_indices, &c.below_indices);
    assert_eq!(above, vec![0, 2, 3, 4, 5]);
    assert_eq!(below, vec![1, 6, 7, 8]);

    // Culled notes are skipped among the special notes and end a group's run.
    let mut off = off;
    off[2].0 = true;
    off[4].0 = true;
    off[6].1 = true;
    let (above, below) = line_draw_order(&notes, &off, true, c.not_plain_count, &c.above_indices, &c.below_indices);
    assert_eq!(above, vec![0, 3, 5]);
    assert_eq!(below, vec![1, 8]);
    let (above, below) = line_draw_order(&notes, &off, false, c.not_plain_count, &c.above_indices, &c.below_indices);
    assert_eq!(above, vec![0, 2, 3, 4, 5]);
    assert_eq!(below, vec![1, 6, 7, 8]);
}

#[test]
fn law_group_starts_stay_in_range_example() {
    let notes = vec![key(true, true, 1), key(true, true, 1), key(true, false, 1), key(true, false, 1)];
    let mut c = JudgeLineCache::empty();
    c.reset(&notes);
    assert_eq!(c.above_indices, vec![0]);
    assert_eq!(c.below_indices, vec![2]);
    for judged in [vec![true, false, true, false], vec![true, true, true, true]] {
        let mut d = JudgeLineCache::empty();
        d.reset(&notes);
        d.advance_groups(&notes, &judged);
        assert!(d.above_indices.iter().chain(d.below_indices.iter()).all(|i| *i < notes.len()));
    }
    let mut d = JudgeLineCache::empty();
    d.reset(&notes);
    d.advance_groups(&notes, &vec![true, true, true, true]);
    assert!(d.above_indices.is_empty() && d.below_indices.is_empty());
}

#[test]
fn note_kinds() {
    assert_eq!(NoteShape::Hold.order(), 0);
    assert_eq!(NoteShape::Drag.order(), 1);
    assert_eq!(NoteShape::Click.order(), 2);
    assert_eq!(NoteShape::Flick.order(), 3);
    assert!(is_plain(false, NoteShape::Click, 1));
    assert!(is_plain(false, NoteShape::Flick, 0));
    assert!(!is_plain(true, NoteShape::Click, 0));
    assert!(!is_plain(false, NoteShape::Hold, 0));
    assert!(!is_plain(false, NoteShape::Drag, 2));
}

#[test]
fn jitter_hash_bits() {
    let direct = |time: f64, height: f64| -> u32 {
        let mut z = time.to_bits() ^ height.to_bits() ^ 0x9E37_79B9_7F4A_7C15;
        z ^= z >> 30;
        z = z.wrapping_mul(0xBF58_476D_1CE4_E5B9);
        z ^= z >> 27;
        z = z.wrapping_mul(0x94D0_49BB_1331_11EB);
        z ^= z >> 31;
        (z >> 32) as u32
    };
    for (t, h) in [(0.0, 0.0), (1.5, 2.25), (123.456, -7.0), (1e9, 3.0)] {
        assert_eq!(phira_vrenxz::judge_cache::x_jitter_bits(f64::to_bits(t), f64::to_bits(h)), direct(t, h));
    }
}

#[test]
fn keyboard_keeps_labels_and_select_all_escape() {
    let mut d = InputDialog::new(
        "name".to_string(),
        InputMode::Password,
        "pw",
        Some("Title".to_string()),
        Some("Prompt".to_string()),
        None,
        None,
    );
    let mut f = frame();
    f.chars = vec!['x'];
    d.update_keyboard(&f);
    assert_eq!((d.id.as_str(), d.title.as_str(), d.prompt.as_str()), ("name", "Title", "Prompt"));
    assert!(d.password);
    assert_eq!((d.ok_label.as_str(), d.cancel_label.as_str()), ("OK", "Cancel"));
    let mut all = frame();
    all.ctrl = true;
    all.key_a = true;
    all.chars = vec!['q'];
    let r = d.update_keyboard(&all);
    assert_eq!(r.outcome, KeyOutcome::Continue);
    assert_eq!(d.selection, Some((0, 3)));
    assert_eq!(d.cursor, 3);
    assert_eq!(text(&d), "pwx");
    d.selection = None;
    let mut esc = frame();
    esc.escape = true;
    assert_eq!(d.update_keyboard(&esc).outcome, KeyOutcome::Cancel);
    assert_eq!(text(&d), "pwx");
    assert_eq!(d.cursor, 3);
}
