//! The local clock, as text.

use vstd::prelude::*;

verus! {

/// `chrono::Local::now` rendered with `DateTime::to_rfc3339`: the current
/// local date and time with its offset, such as `1996-12-19T16:39:57-08:00`.
/// Nothing is promised of the text: it is whatever the clock says. The call
/// does not return if the system clock stands before 1970.
#[verifier::external_body]
pub(crate) fn now_rfc3339() -> (stamp: String) {
    chrono::Local::now().to_rfc3339()
}

/// `chrono::Local::now` rendered with `DateTime::format` as the time of day
/// in brackets, followed by a space: `[%H:%M:%S] `. Nothing is promised of the
/// text. The call does not return if the system clock stands before 1970.
#[verifier::external_body]
pub(crate) fn now_log_stamp() -> (stamp: String) {
    chrono::Local::now().format("[%H:%M:%S] ").to_string()
}

} // verus!
