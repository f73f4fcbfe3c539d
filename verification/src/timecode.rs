use vstd::prelude::*;
use crate::text::{padded_integer, padded_integer_string};

verus! {

/// The beat within a four-beat bar, counted 1 to 4, of the beat numbered
/// `whole_beats` (counting from 0; earlier beats wrap around the same way).
pub open spec fn spec_beat_in_bar(whole_beats: int) -> int {
    whole_beats % 4 + 1
}

/// The beat within a four-beat bar (1 to 4) of beat number `whole_beats`.
pub fn beat_in_bar(whole_beats: i32) -> (b: i32)
    ensures
        b == spec_beat_in_bar(whole_beats as int),
        1 <= b <= 4,
        (b - 1 - whole_beats) % 4 == 0,
{
    match whole_beats.checked_rem_euclid(4) {
        Some(r) => r + 1,
        None => 1,
    }
}

/// The beat counter runs 1, 2, 3, 4 and starts over: beat 0 is the
/// first of its bar, each following beat counts one more until the
/// fourth, and the beat after a fourth is the first of the next bar.
/// Every bar is counted alike, whole bars earlier or later.
pub proof fn lemma_beat_counts_through_bar(whole_beats: int)
    ensures
        spec_beat_in_bar(0) == 1,
        1 <= spec_beat_in_bar(whole_beats) <= 4,
        spec_beat_in_bar(whole_beats) < 4 ==> spec_beat_in_bar(whole_beats + 1) == spec_beat_in_bar(whole_beats) + 1,
        spec_beat_in_bar(whole_beats) == 4 ==> spec_beat_in_bar(whole_beats + 1) == 1,
        spec_beat_in_bar(whole_beats + 4) == spec_beat_in_bar(whole_beats),
        0 <= whole_beats < 4 ==> spec_beat_in_bar(whole_beats) == whole_beats + 1,
{
}

/// The clock display `mm:ss:mmm`: minutes and seconds as two digits,
/// milliseconds as three, each zero-padded after any minus sign.
pub open spec fn spec_formatted_time(minutes: int, seconds: int, milliseconds: int) -> Seq<char> {
    padded_integer(minutes, 2) + ":"@ + padded_integer(seconds, 2) + ":"@ + padded_integer(milliseconds, 3)
}

/// The clock display `mm:ss:mmm` for the given whole minutes, seconds and
/// milliseconds.
pub fn formatted_time(minutes: i32, seconds: i32, milliseconds: i32) -> (s: String)
    ensures
        s@ == spec_formatted_time(minutes as int, seconds as int, milliseconds as int),
{
    let mut s = padded_integer_string(minutes as i64, 2);
    s.append(":");
    let sec = padded_integer_string(seconds as i64, 2);
    s.append(sec.as_str());
    s.append(":");
    let ms = padded_integer_string(milliseconds as i64, 3);
    s.append(ms.as_str());
    s
}

} // verus!
