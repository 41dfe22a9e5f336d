//! The wall clock behind the per-request log line.
//!
//! Time is read and rendered by chrono; the value depends on the machine's
//! clock and time zone, so only the shape that the fixed layout gives
//! every outcome is stated: a second-precision timestamp whose tail is
//! always `-MM-DD HH:MM:SS` after an at-least-four-digit year.

use vstd::prelude::*;

verus! {

/// A decimal digit.
pub open spec fn is_dec_digit(c: char) -> bool {
    48 <= c as u32 && c as u32 <= 57
}

/// The shape every rendering of the `%Y-%m-%d %H:%M:%S` layout has: at
/// least 19 characters (the year takes four digits or more), and a fixed
/// 15-character tail of two-digit month, day, hour, minute and second
/// groups with their separators.
pub open spec fn timestamp_shaped(s: Seq<char>) -> bool {
    let n = s.len() as int;
    &&& s.len() >= 19
    &&& s[n - 15] == '-'
    &&& s[n - 12] == '-'
    &&& s[n - 9] == ' '
    &&& s[n - 6] == ':'
    &&& s[n - 3] == ':'
    &&& is_dec_digit(s[n - 14])
    &&& is_dec_digit(s[n - 13])
    &&& is_dec_digit(s[n - 11])
    &&& is_dec_digit(s[n - 10])
    &&& is_dec_digit(s[n - 8])
    &&& is_dec_digit(s[n - 7])
    &&& is_dec_digit(s[n - 5])
    &&& is_dec_digit(s[n - 4])
    &&& is_dec_digit(s[n - 2])
    &&& is_dec_digit(s[n - 1])
}

/// Relies on `chrono::Local::now` for the current date and time in the
/// local time zone and on `chrono::DateTime::format` with the
/// `%Y-%m-%d %H:%M:%S` layout to render it. The moment is the machine's,
/// so only what holds of every outcome is stated: `%Y` renders at least
/// four year digits, and `%m`, `%d`, `%H`, `%M`, `%S` always render
/// two-digit zero-padded groups behind fixed separators.
#[verifier::external_body]
fn now_local_timestamp() -> (r: String)
    ensures
        timestamp_shaped(r@),
{
    chrono::Local::now().format("%Y-%m-%d %H:%M:%S").to_string()
}

/// The current local time, rendered at second precision for the log line:
/// a four-or-more-digit year, then `-MM-DD HH:MM:SS`.
pub fn current_timestamp() -> (r: String)
    ensures
        timestamp_shaped(r@),
{
    now_local_timestamp()
}

} // verus!
