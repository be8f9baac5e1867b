use phira_vrenxz::crash::{pick_board_index, pick_tip, CrashCode};
use phira_vrenxz::dialog::{button_closes, error_button_copies, stays_open_after_touch, DialogContent};
use phira_vrenxz::gif::GifFrames;
use phira_vrenxz::scene_stack::{Effect, SceneStack, Transition};
use phira_vrenxz::setup_wizard::{LoginField, NextOutcome, SetupWizard, Step, STEP_COUNT};
use phira_vrenxz::crash::skip_last;

#[test]
fn scene_stack_overlay_then_pop() {
    let mut st: SceneStack<&str, u32> = SceneStack::new("home");
    let eff = st.apply(Transition::<&str, i32>::Overlay("song"), 10);
    assert!(matches!(eff, Effect::Overlay("song")));
    st.push_scene("song");
    assert_eq!(*st.top(), "song");
    assert_eq!(st.times, vec![10]);
    let eff = st.apply(Transition::<&str, i32>::Pop, 99);
    assert!(matches!(eff, Effect::Resume { seek: Some(10), result: None }));
    assert_eq!(st.scenes, vec!["home"]);
    assert!(st.times.is_empty());
}

#[test]
fn law_overlay_then_pop_restores_example() {
    let mut st: SceneStack<u8, u32> = SceneStack::new(1);
    st.apply(Transition::<u8, ()>::Overlay(2), 5);
    st.push_scene(2);
    let before_scenes = st.scenes.clone();
    let before_times = st.times.clone();
    st.apply(Transition::<u8, ()>::Overlay(3), 7);
    st.push_scene(3);
    let eff = st.apply(Transition::<u8, ()>::Pop, 100);
    assert!(matches!(eff, Effect::Resume { seek: Some(7), result: None }));
    assert_eq!(st.scenes, before_scenes);
    assert_eq!(st.times, before_times);
}

#[test]
fn scene_stack_pop_n_with_result() {
    let mut st: SceneStack<u8, u32> = SceneStack::new(0);
    for (s, t) in [(1u8, 10u32), (2, 20), (3, 30)] {
        st.apply(Transition::<u8, bool>::Overlay(s), t);
        st.push_scene(s);
    }
    let eff = st.apply(Transition::<u8, bool>::PopNWithResult(2, true), 0);
    assert!(matches!(eff, Effect::Resume { seek: Some(20), result: Some(true) }));
    assert_eq!(st.scenes, vec![0, 1]);
    assert_eq!(st.times, vec![10]);
    let eff = st.apply(Transition::<u8, bool>::PopN(0), 0);
    assert!(matches!(eff, Effect::Resume { seek: None, result: None }));
}

#[test]
fn scene_stack_replace_exit_pause() {
    let mut st: SceneStack<u8, u32> = SceneStack::new(1);
    let eff = st.apply(Transition::<u8, ()>::Replace(4), 0);
    assert!(matches!(eff, Effect::Replace(4)));
    st.replace_top(4);
    assert_eq!(st.scenes, vec![4]);
    assert!(matches!(st.apply(Transition::<u8, ()>::Stay, 0), Effect::Nothing));
    assert!(!st.should_exit());
    st.apply(Transition::<u8, ()>::Exit, 0);
    assert!(st.should_exit());
    st.pause();
    assert!(st.paused);
    st.resume();
    assert!(!st.paused);
}

#[test]
fn wizard_steps() {
    let mut w = SetupWizard::new();
    assert_eq!(w.step, Step::Language);
    assert!(w.step_prev().is_none());
    match w.step_next() {
        NextOutcome::Moved(e) => assert!(e.prepare_login && !e.hide_keyboard),
        NextOutcome::Finished => panic!("first step is not the last"),
    }
    assert_eq!(w.step, Step::Login);
    w.activate(LoginField::Email);
    match w.step_next() {
        NextOutcome::Moved(e) => assert!(e.hide_keyboard && !e.prepare_login),
        NextOutcome::Finished => panic!("login is not the last step"),
    }
    assert_eq!(w.step, Step::Volume);
    w.goto(Step::Finish);
    assert_eq!(w.step_next(), NextOutcome::Finished);
    assert_eq!(Step::at(STEP_COUNT - 1), Step::Finish);
    assert_eq!(Step::Login.rows(), 4);
    assert_eq!(Step::General.index(), 3);
}

#[test]
fn law_next_then_prev_returns_example() {
    for i in 0..STEP_COUNT - 1 {
        let mut w = SetupWizard::new();
        w.goto(Step::at(i));
        w.step_next();
        w.step_prev();
        assert_eq!(w.step, Step::at(i));
    }
}

#[test]
fn wizard_typing() {
    let mut w = SetupWizard::new();
    w.goto(Step::Login);
    assert!(!w.update_typing(&vec!['x'], false));
    assert_eq!(w.t_email, "");
    w.activate(LoginField::Pwd);
    assert!(!w.update_typing(&vec!['c', 'b', '\u{1}', 'a'], false));
    assert_eq!(w.t_pwd, "abc");
    assert_eq!(w.field_display(LoginField::Pwd), "***|");
    assert!(!w.update_typing(&vec![], true));
    assert_eq!(w.t_pwd, "ab");
    assert!(w.update_typing(&vec!['z', '\n', 'y'], false));
    assert_eq!(w.t_pwd, "ab");
    assert_eq!(w.active, None);
    assert_eq!(w.field_display(LoginField::Pwd), "**");
    w.activate(LoginField::Name);
    w.update_typing(&vec!['i', 'h'], false);
    assert_eq!(w.field_display(LoginField::Name), "hi|");
    assert_eq!(w.field_display(LoginField::Email), "");
    assert!(w.finish_editing());
    assert!(!w.finish_editing());
}

#[test]
fn crash_codes() {
    assert_eq!(CrashCode::ChartLoadTimeout.code(), 404);
    assert_eq!(CrashCode::ResPackLoadTimeout.code(), 501);
    assert_eq!(CrashCode::ManualCrash.code(), 951);
    let p = CrashCode::from_panic_message("boom");
    assert_eq!(p.code(), 500);
    assert_eq!(p.reason(), "boom");
    let c = CrashCode::Custom { code: 7, reason: "why".to_string() };
    assert_eq!(c.code(), 7);
    assert_eq!(c.reason(), "why");
    assert_eq!(CrashCode::ManualCrash.reason(), "玩家在设置中,点击崩溃按钮");
}

#[test]
fn crash_tips_and_board() {
    let fallback = "none".to_string();
    assert_eq!(pick_tip(&vec![], &fallback), "none");
    let tips = vec!["a".to_string(), "b".to_string()];
    for _ in 0..20 {
        let t = pick_tip(&tips, &fallback);
        assert!(tips.contains(&t));
    }
    assert_eq!(pick_board_index(0, None), None);
    assert_eq!(pick_board_index(1, Some(0)), None);
    assert_eq!(pick_board_index(1, None), Some(0));
    assert_eq!(pick_board_index(2, Some(0)), Some(1));
    for _ in 0..50 {
        let i = pick_board_index(5, Some(2)).unwrap();
        assert!(i < 5 && i != 2);
    }
}

#[test]
fn dialog_builders() {
    let d = DialogContent::simple("m".to_string(), "Notice".to_string(), "OK".to_string());
    assert_eq!((d.title.as_str(), d.message.as_str()), ("Notice", "m"));
    assert_eq!(d.buttons, vec!["OK".to_string()]);
    let d = DialogContent::error("Err".to_string(), "trace".to_string(), "Copy".to_string(), "OK".to_string());
    assert_eq!(d.buttons, vec!["Copy".to_string(), "OK".to_string()]);
    let mut d = d.title("T".to_string()).message("M".to_string()).buttons(vec!["x".to_string()]);
    assert_eq!((d.title.as_str(), d.message.as_str()), ("T", "M"));
    d.set_message("N".to_string());
    d.set_buttons(vec![]);
    assert_eq!(d.message, "N");
    assert!(d.buttons.is_empty());
    let p = DialogContent::plain("A".to_string(), "B".to_string(), "OK".to_string());
    assert_eq!(p.title, "A");
}

#[test]
fn dialog_close_rules() {
    assert!(button_closes(false, true));
    assert!(button_closes(true, false));
    assert!(!button_closes(true, true));
    assert!(stays_open_after_touch(true, false, false));
    assert!(!stays_open_after_touch(false, false, true));
    assert!(stays_open_after_touch(false, true, true));
    assert!(error_button_copies(0));
    assert!(!error_button_copies(1));
}

#[test]
fn gif_frames_loop() {
    let g = GifFrames::new(vec![(100u128, 'a'), (50, 'b'), (0, 'c'), (25, 'd')]);
    assert_eq!(g.total_time(), 175);
    assert_eq!(*g.get_time_frame(0), 'a');
    assert_eq!(*g.get_time_frame(99), 'a');
    assert_eq!(*g.get_time_frame(100), 'b');
    assert_eq!(*g.get_time_frame(150), 'd');
    assert_eq!(*g.get_time_frame(174), 'd');
    assert_eq!(*g.get_time_frame(175), 'a');
    assert_eq!(*g.get_time_frame(175 * 3 + 120), 'b');
}

#[test]
fn paused_stack_ignores_transitions() {
    let mut st: SceneStack<u8, u32> = SceneStack::new(1);
    st.apply(Transition::<u8, ()>::Overlay(2), 5);
    st.push_scene(2);
    st.pause();
    assert!(matches!(st.apply(Transition::<u8, ()>::Pop, 9), Effect::Nothing));
    assert!(matches!(st.apply(Transition::<u8, ()>::Exit, 9), Effect::Nothing));
    assert!(matches!(st.apply(Transition::<u8, ()>::PopN(7), 9), Effect::Nothing));
    assert_eq!(st.scenes, vec![1, 2]);
    assert_eq!(st.times, vec![5]);
    assert!(!st.should_exit());
    st.resume();
    assert!(matches!(st.apply(Transition::<u8, ()>::Pop, 9), Effect::Resume { seek: Some(5), result: None }));
}

#[test]
fn law_stack_shape_kept_example() {
    let mut st: SceneStack<u8, u32> = SceneStack::new(0);
    let steps: Vec<Transition<u8, ()>> = vec![
        Transition::Overlay(1),
        Transition::Overlay(2),
        Transition::Replace(7),
        Transition::Overlay(3),
        Transition::PopN(2),
        Transition::Stay,
        Transition::Pop,
    ];
    let mut now = 0u32;
    for t in steps {
        now += 1;
        let before = st.scenes.len();
        let expect = match &t {
            Transition::Overlay(_) => before + 1,
            Transition::Pop | Transition::PopWithResult(_) => before - 1,
            Transition::PopN(n) | Transition::PopNWithResult(n, _) => before - n,
            _ => before,
        };
        match st.apply(t, now) {
            Effect::Overlay(s) => st.push_scene(s),
            Effect::Replace(s) => {
                st.replace_top(s);
                assert_eq!(*st.top(), s);
            }
            _ => {}
        }
        assert_eq!(st.scenes.len(), expect);
        assert_eq!(st.scenes.len(), st.times.len() + 1);
    }
    assert_eq!(st.scenes, vec![0]);
}

#[test]
fn crash_details_and_skipping() {
    assert_eq!(CrashCode::ChartLoadTimeout.detail(), "加载超时 ( > 60秒 )");
    assert_eq!(CrashCode::ResPackLoadTimeout.detail(), "资源包加载超时");
    assert_eq!(CrashCode::ManualCrash.detail(), "手动触发");
    assert_eq!(CrashCode::from_panic_message("x").detail(), "意外崩溃");
    assert_eq!(CrashCode::Custom { code: 1, reason: String::new() }.detail(), "自定义崩溃");
    assert_eq!(skip_last(0, Some(0)), 1);
    assert_eq!(skip_last(3, Some(2)), 4);
    assert_eq!(skip_last(1, Some(2)), 1);
    assert_eq!(skip_last(5, None), 5);
}
