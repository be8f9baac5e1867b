use vstd::prelude::*;
use vstd::string::*;
use crate::song_events::{zero_padded, leaderboard_score_text};
use crate::strings::{decimal, u128_to_decimal, string_from_chars};

verus! {

/// Whether the combo counter is shown: at a combo of three or more, or
/// always under autoplay, and only with the combo display switched on.
pub fn combo_shown(combo: u32, autoplay: bool, show_combo: bool) -> (res: bool)
    ensures
        res == ((combo >= 3 || autoplay) && show_combo),
{
    (combo >= 3 || autoplay) && show_combo
}

/// The label under the combo number: empty under autoplay, else the custom
/// combo text, or `COMBO` when that is empty.
pub fn combo_label(autoplay: bool, custom: &str) -> (res: String)
    ensures
        res@ == (if autoplay { Seq::<char>::empty() } else if custom@.len() == 0 { "COMBO"@ } else { custom@ }),
{
    if autoplay {
        String::new()
    } else if custom.unicode_len() == 0 {
        "COMBO".to_owned()
    } else {
        custom.to_owned()
    }
}

/// The text in the combo number's place: the autoplay label under autoplay,
/// else the combo in decimal.
pub fn combo_number_text(autoplay: bool, autoplay_text: &str, combo: u32) -> (res: String)
    ensures
        res@ == (if autoplay { autoplay_text@ } else { decimal(combo as nat) }),
{
    if autoplay {
        autoplay_text.to_owned()
    } else {
        let digits = u128_to_decimal(combo as u128);
        string_from_chars(&digits)
    }
}

/// The score as shown during play: seven digits, zero-padded.
pub fn score_text(score: u32) -> (res: String)
    ensures
        res@ == zero_padded(score as nat, 7),
{
    leaderboard_score_text(score, false)
}

} // verus!
