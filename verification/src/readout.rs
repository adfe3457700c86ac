//! The debug readout: how the buffer gaps and the mode are put into words.

use vstd::prelude::*;
use vstd::string::StringExecFns;
use crate::geometry::clip_i32;
use crate::mode::ScrollMode;
use crate::text::{decimal_text, push_signed_decimal};

verus! {

/// The whole number nearest to `num / den`, for a positive `den`; a half is
/// rounded away from zero.
pub open spec fn round_half_away(num: int, den: int) -> int
    recommends
        den > 0,
{
    if num >= 0 {
        (2 * num + den) / (2 * den)
    } else {
        -((2 * (-num) + den) / (2 * den))
    }
}

/// A length in millipixels as whole pixels, rounded.
pub open spec fn rounded_pixels(length: i64) -> i32 {
    clip_i32(round_half_away(length as int, 1000))
}

/// How many percent of `trigger` the gap is, rounded. Of a trigger of
/// nothing, a positive gap is the greatest percentage, a negative gap the
/// least, and no gap is none.
pub open spec fn percent_of(gap: i64, trigger: i64) -> i32 {
    if trigger > 0 {
        clip_i32(round_half_away(100 * gap, trigger as int))
    } else if trigger < 0 {
        clip_i32(round_half_away(-100 * gap, -trigger))
    } else if gap > 0 {
        i32::MAX
    } else if gap < 0 {
        i32::MIN
    } else {
        0
    }
}

/// The readout of a buffer gap: its pixels, and in brackets its percentage
/// of the trigger.
pub open spec fn gap_readout(gap: i64, trigger: i64) -> Seq<char> {
    decimal_text(rounded_pixels(gap) as int) + "px ("@ + decimal_text(
        percent_of(gap, trigger) as int,
    ) + "%)"@
}

/// The whole number nearest to `num / den`, brought into the range of `i32`.
fn round_to_i32(num: i128, den: i128) -> (rounded: i32)
    requires
        den > 0,
        -0x4000_0000_0000_0000_0000 <= num <= 0x4000_0000_0000_0000_0000,
        den <= 0x4000_0000_0000_0000_0000,
    ensures
        rounded == clip_i32(round_half_away(num as int, den as int)),
{
    if num >= 0 {
        let q: i128 = (2 * num + den) / (2 * den);
        if q > i32::MAX as i128 {
            i32::MAX
        } else {
            q as i32
        }
    } else {
        let q: i128 = (2 * (-num) + den) / (2 * den);
        if q > 0x8000_0000 {
            i32::MIN
        } else {
            (-q) as i32
        }
    }
}

/// A length in millipixels as whole pixels, rounded.
pub fn to_rounded_pixels(length: i64) -> (px: i32)
    ensures
        px == rounded_pixels(length),
{
    round_to_i32(length as i128, 1000)
}

/// How many percent of `trigger` the gap is, rounded.
pub fn percent(gap: i64, trigger: i64) -> (pct: i32)
    ensures
        pct == percent_of(gap, trigger),
{
    if trigger > 0 {
        round_to_i32(100 * (gap as i128), trigger as i128)
    } else if trigger < 0 {
        round_to_i32(-(100 * (gap as i128)), -(trigger as i128))
    } else if gap > 0 {
        i32::MAX
    } else if gap < 0 {
        i32::MIN
    } else {
        0
    }
}

/// Whether a gap is under its trigger, so that a scroll would load a page.
pub fn will_trigger(gap: i64, trigger: i64) -> (under: bool)
    ensures
        under == (gap < trigger),
{
    gap < trigger
}

/// The readout of a buffer gap, both lengths in millipixels: the gap in
/// whole pixels, then in brackets its percentage of the trigger.
pub fn format_gap(gap: i64, trigger: i64) -> (text: String)
    ensures
        text@ == gap_readout(gap, trigger),
{
    let mut text = String::new();
    push_signed_decimal(&mut text, to_rounded_pixels(gap) as i64);
    text.append("px (");
    push_signed_decimal(&mut text, percent(gap, trigger) as i64);
    text.append("%)");
    text
}

/// The name of a mode.
pub open spec fn mode_name(mode: ScrollMode) -> Seq<char> {
    match mode {
        ScrollMode::Live => "Live"@,
        ScrollMode::Backward => "Backward"@,
        ScrollMode::Forward => "Forward"@,
    }
}

/// The style class of a mode's readout.
pub open spec fn mode_class(mode: ScrollMode) -> Seq<char> {
    match mode {
        ScrollMode::Live => "debugvalue mode-live"@,
        ScrollMode::Backward => "debugvalue mode-backward"@,
        ScrollMode::Forward => "debugvalue mode-forward"@,
    }
}

/// The name of a mode, as the readout shows it.
pub fn name_of(mode: ScrollMode) -> (name: &'static str)
    ensures
        name@ == mode_name(mode),
{
    match mode {
        ScrollMode::Live => "Live",
        ScrollMode::Backward => "Backward",
        ScrollMode::Forward => "Forward",
    }
}

/// The style class of a mode's readout: the mode's name in lower case
/// behind the common class.
pub fn class_of(mode: ScrollMode) -> (class: &'static str)
    ensures
        class@ == mode_class(mode),
{
    match mode {
        ScrollMode::Live => "debugvalue mode-live",
        ScrollMode::Backward => "debugvalue mode-backward",
        ScrollMode::Forward => "debugvalue mode-forward",
    }
}

} // verus!
