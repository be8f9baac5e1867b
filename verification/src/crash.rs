use vstd::prelude::*;
use vstd::string::*;

verus! {

/// Why the crash screen is shown.
#[derive(Clone, Debug)]
pub enum CrashCode {
    /// Loading a chart or the game took too long.
    ChartLoadTimeout,
    /// Loading the resource pack took too long.
    ResPackLoadTimeout,
    /// The player pressed the crash button in the settings.
    ManualCrash,
    /// A panic on the main thread was caught.
    UnexpectedPanic { message: String },
    /// A crash with a chosen code and reason.
    Custom { code: u32, reason: String },
}

impl CrashCode {
    /// The number shown for the crash.
    pub fn code(&self) -> (res: u32)
        ensures
            res == match self {
                CrashCode::ChartLoadTimeout => 404,
                CrashCode::ResPackLoadTimeout => 501,
                CrashCode::ManualCrash => 951,
                CrashCode::UnexpectedPanic { .. } => 500,
                CrashCode::Custom { code, .. } => *code,
            },
    {
        match self {
            CrashCode::ChartLoadTimeout => 404,
            CrashCode::ResPackLoadTimeout => 501,
            CrashCode::ManualCrash => 951,
            CrashCode::UnexpectedPanic { .. } => 500,
            CrashCode::Custom { code, .. } => *code,
        }
    }

    /// The explanation shown for the crash.
    pub fn reason(&self) -> (res: String)
        ensures
            match self {
                CrashCode::ChartLoadTimeout => res@ == "加载铺面或者加载游戏太慢(至少1分钟)而崩溃"@,
                CrashCode::ResPackLoadTimeout => res@ == "玩家加载资源包过久而崩溃"@,
                CrashCode::ManualCrash => res@ == "玩家在设置中,点击崩溃按钮"@,
                CrashCode::UnexpectedPanic { message } => res@ == message@,
                CrashCode::Custom { reason, .. } => res@ == reason@,
            },
    {
        match self {
            CrashCode::ChartLoadTimeout => String::from_str("加载铺面或者加载游戏太慢(至少1分钟)而崩溃"),
            CrashCode::ResPackLoadTimeout => String::from_str("玩家加载资源包过久而崩溃"),
            CrashCode::ManualCrash => String::from_str("玩家在设置中,点击崩溃按钮"),
            CrashCode::UnexpectedPanic { message } => message.clone(),
            CrashCode::Custom { reason, .. } => reason.clone(),
        }
    }

    /// The short description shown under the crash code.
    pub fn detail(&self) -> (res: &'static str)
        ensures
            res@ == match self {
                CrashCode::ChartLoadTimeout => "加载超时 ( > 60秒 )"@,
                CrashCode::ResPackLoadTimeout => "资源包加载超时"@,
                CrashCode::ManualCrash => "手动触发"@,
                CrashCode::UnexpectedPanic { .. } => "意外崩溃"@,
                CrashCode::Custom { .. } => "自定义崩溃"@,
            },
    {
        match self {
            CrashCode::ChartLoadTimeout => "加载超时 ( > 60秒 )",
            CrashCode::ResPackLoadTimeout => "资源包加载超时",
            CrashCode::ManualCrash => "手动触发",
            CrashCode::UnexpectedPanic { .. } => "意外崩溃",
            CrashCode::Custom { .. } => "自定义崩溃",
        }
    }

    /// The crash for a caught panic with the given message.
    pub fn from_panic_message(message: &str) -> (res: CrashCode)
        ensures
            res matches CrashCode::UnexpectedPanic { message: m } && m@ == message@,
    {
        CrashCode::UnexpectedPanic { message: message.to_owned() }
    }
}

/// The crash screen's title when no custom title is set.
pub const DEFAULT_CRASH_TITLE: &'static str = "哇!你的PhiLie崩溃啦!看来error先生愤怒了呢";

/// The crash screen's title: the custom title, or the default one when the
/// custom title is empty.
pub fn crash_title(custom: &str) -> (res: String)
    ensures
        res@ == (if custom@.len() == 0 { DEFAULT_CRASH_TITLE@ } else { custom@ }),
{
    if custom.unicode_len() == 0 {
        DEFAULT_CRASH_TITLE.to_owned()
    } else {
        custom.to_owned()
    }
}

/// A number drawn uniformly below `n` from the thread-local generator of the
/// `rand` crate (`Rng::gen_range` on `thread_rng`). The contract states only
/// the range: the draw depends on chance.
#[verifier::external_body]
fn random_below(n: usize) -> (res: usize)
    requires
        n > 0,
    ensures
        res < n,
{
    rand::Rng::gen_range(&mut rand::thread_rng(), 0..n)
}

/// A tip for the crash screen picked at random from `tips`, or `fallback`
/// when there is none.
pub fn pick_tip(tips: &Vec<String>, fallback: &String) -> (res: String)
    ensures
        tips@.len() == 0 ==> res@ == fallback@,
        tips@.len() > 0 ==> exists|i: int| 0 <= i < tips@.len() && res@ == #[trigger] tips@[i]@,
{
    if tips.len() == 0 {
        return fallback.clone();
    }
    let i = random_below(tips.len());
    let res = tips[i].clone();
    assert(res@ == tips@[i as int]@);
    res
}

/// A number drawn among the choices other than `last`, mapped onto all the
/// choices: values from `last` on move up by one, so `last` is skipped.
pub open spec fn skipped(drawn: int, last: Option<usize>) -> int {
    match last {
        Some(l) => if l <= drawn { drawn + 1 } else { drawn },
        None => drawn,
    }
}

/// Maps a number drawn among the choices other than `last` onto all the
/// choices: values from `last` on move up by one, so `last` is skipped.
pub fn skip_last(drawn: usize, last: Option<usize>) -> (res: usize)
    requires
        last matches Some(l) && l <= drawn ==> drawn < usize::MAX,
    ensures
        res == skipped(drawn as int, last),
{
    match last {
        Some(l) => if l <= drawn { drawn + 1 } else { drawn },
        None => drawn,
    }
}

/// How many charts the home board draws among: all `n`, or all but the one
/// shown last.
pub fn board_draw_bound(n: usize, last: Option<usize>) -> (res: usize)
    requires
        last is Some ==> n >= 1,
    ensures
        res == if last is Some { n - 1 } else { n as int },
{
    match last {
        Some(_) => n - 1,
        None => n,
    }
}

/// The chart to show next on the home board, picked at random among `n`
/// charts but never the one shown last: a number is drawn below
/// [`board_draw_bound`] and mapped past the last chart by [`skip_last`].
/// `None` when no other chart exists.
pub fn pick_board_index(n: usize, last: Option<usize>) -> (res: Option<usize>)
    requires
        last matches Some(l) ==> l < n,
    ensures
        res is None <==> (n == 0 || (n == 1 && last is Some)),
        res matches Some(i) ==> i < n && last != Some(i),
        res matches Some(i) ==> exists|d: int|
            0 <= d < (if last is Some { n - 1 } else { n as int }) && #[trigger] skipped(d, last) == i,
{
    if n == 0 || (n == 1 && last.is_some()) {
        return None;
    }
    let bound = board_draw_bound(n, last);
    let drawn = random_below(bound);
    Some(skip_last(drawn, last))
}

} // verus!
