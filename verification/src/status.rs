//! Status-line texts: the refresh summary, play time and how long ago the
//! last update happened.

use crate::localization::{format_count, spec_format_count, spec_text, text};
use crate::storage::{DiffSummary, Language};
use crate::strings::push_str_to;
use vstd::prelude::*;

verus! {

/// "<save updated>: <n> bytes in <m> ranges changed".
pub open spec fn spec_diff_status(language: Language, changed_bytes: u64, changed_ranges: u64) -> Seq<
    char,
> {
    spec_text(language, "save_updated"@) + ": "@ + spec_format_count(language, changed_bytes)
        + " bytes in "@ + spec_format_count(language, changed_ranges) + " ranges changed"@
}

pub fn format_diff_status(language: Language, diff: &DiffSummary) -> (r: String)
    ensures
        r@ == spec_diff_status(language, diff.changed_bytes, diff.changed_ranges),
{
    let mut r = String::new();
    push_str_to(&mut r, text(language, "save_updated"));
    push_str_to(&mut r, ": ");
    let bytes = format_count(language, diff.changed_bytes);
    push_str_to(&mut r, bytes.as_str());
    push_str_to(&mut r, " bytes in ");
    let ranges = format_count(language, diff.changed_ranges);
    push_str_to(&mut r, ranges.as_str());
    push_str_to(&mut r, " ranges changed");
    assert(r@ =~= spec_diff_status(language, diff.changed_bytes, diff.changed_ranges));
    r
}

/// "<hours>h <minutes>min" of a play time in seconds.
pub open spec fn spec_playtime(language: Language, seconds: u32) -> Seq<char> {
    let hours = seconds / 3600;
    let minutes = (seconds % 3600) / 60;
    spec_format_count(language, hours as u64) + "h "@ + spec_format_count(language, minutes as u64)
        + "min"@
}

pub fn format_playtime(language: Language, seconds: u32) -> (r: String)
    ensures
        r@ == spec_playtime(language, seconds),
{
    let hours = seconds / 3_600;
    let minutes = (seconds % 3_600) / 60;
    let mut r = String::new();
    let h = format_count(language, hours as u64);
    push_str_to(&mut r, h.as_str());
    push_str_to(&mut r, "h ");
    let m = format_count(language, minutes as u64);
    push_str_to(&mut r, m.as_str());
    push_str_to(&mut r, "min");
    assert(r@ =~= spec_playtime(language, seconds));
    r
}

/// The text before the number in an elapsed-time text.
pub open spec fn elapsed_prefix(language: Language) -> Seq<char> {
    match language {
        Language::English => ""@,
        Language::German => "vor "@,
        Language::French => "il y a "@,
        Language::Spanish => "hace "@,
    }
}

/// The unit text after the number: unit 0 seconds, 1 minutes, 2 hours.
pub open spec fn elapsed_suffix(language: Language, unit: int) -> Seq<char> {
    match language {
        Language::English => if unit == 0 {
            "s ago"@
        } else if unit == 1 {
            "m ago"@
        } else {
            "h ago"@
        },
        _ => if unit == 0 {
            "s"@
        } else if unit == 1 {
            "min"@
        } else {
            "h"@
        },
    }
}

/// Seconds below a minute, whole minutes below an hour, else whole hours.
pub open spec fn spec_elapsed(language: Language, seconds: u64) -> Seq<char> {
    if seconds < 60 {
        elapsed_prefix(language) + spec_format_count(language, seconds) + elapsed_suffix(
            language,
            0,
        )
    } else if seconds / 60 < 60 {
        elapsed_prefix(language) + spec_format_count(language, seconds / 60) + elapsed_suffix(
            language,
            1,
        )
    } else {
        elapsed_prefix(language) + spec_format_count(language, seconds / 3600) + elapsed_suffix(
            language,
            2,
        )
    }
}

/// Elapsed times are shown in the largest unit that fits: below a minute in
/// seconds, from one minute to below one hour in whole minutes (1 to 59),
/// and from one hour on in whole hours (at least 1); so a number of zero
/// appears only for less than a second.
pub proof fn law_elapsed_time_uses_the_largest_unit(language: Language, seconds: u64)
    ensures
        seconds < 60 ==> spec_elapsed(language, seconds) == elapsed_prefix(language)
            + spec_format_count(language, seconds) + (if language is English {
            "s ago"@
        } else {
            "s"@
        }),
        60 <= seconds < 3600 ==> 1 <= seconds / 60 < 60 && spec_elapsed(language, seconds)
            == elapsed_prefix(language) + spec_format_count(language, seconds / 60) + (
        if language is English {
            "m ago"@
        } else {
            "min"@
        }),
        3600 <= seconds ==> seconds / 3600 >= 1 && spec_elapsed(language, seconds)
            == elapsed_prefix(language) + spec_format_count(language, seconds / 3600) + (
        if language is English {
            "h ago"@
        } else {
            "h"@
        }),
{
}

fn elapsed_prefix_text(language: Language) -> (r: &'static str)
    ensures
        r@ == elapsed_prefix(language),
{
    match language {
        Language::English => "",
        Language::German => "vor ",
        Language::French => "il y a ",
        Language::Spanish => "hace ",
    }
}

fn elapsed_suffix_text(language: Language, unit: u8) -> (r: &'static str)
    ensures
        r@ == elapsed_suffix(language, unit as int),
{
    match language {
        Language::English => if unit == 0 {
            "s ago"
        } else if unit == 1 {
            "m ago"
        } else {
            "h ago"
        },
        _ => if unit == 0 {
            "s"
        } else if unit == 1 {
            "min"
        } else {
            "h"
        },
    }
}

/// How long ago something happened, given the elapsed whole seconds.
pub fn format_time_ago(language: Language, seconds: u64) -> (r: String)
    ensures
        r@ == spec_elapsed(language, seconds),
{
    let (value, unit): (u64, u8) = if seconds < 60 {
        (seconds, 0)
    } else if seconds / 60 < 60 {
        (seconds / 60, 1)
    } else {
        (seconds / 60 / 60, 2)
    };
    assert(seconds / 60 / 60 == seconds / 3600);
    let mut r = String::new();
    push_str_to(&mut r, elapsed_prefix_text(language));
    let number = format_count(language, value);
    push_str_to(&mut r, number.as_str());
    push_str_to(&mut r, elapsed_suffix_text(language, unit));
    assert(r@ =~= spec_elapsed(language, seconds));
    r
}

} // verus!
