//! The wall clock, read as text.

use vstd::prelude::*;

verus! {

/// Whether `c` is one of the ten decimal digits.
pub open spec fn is_digit(c: char) -> bool {
    '0' <= c <= '9'
}

/// Whether `text` has the shape hour:minute:second, two digits each.
pub open spec fn is_clock_text(text: Seq<char>) -> bool {
    &&& text.len() == 8
    &&& is_digit(text[0])
    &&& is_digit(text[1])
    &&& text[2] == ':'
    &&& is_digit(text[3])
    &&& is_digit(text[4])
    &&& text[5] == ':'
    &&& is_digit(text[6])
    &&& is_digit(text[7])
}

/// The local time of day, from `chrono`: the system clock's instant as a
/// `DateTime<Local>`, formatted with `%H:%M:%S`.  Which time comes back is
/// the clock's business; the contract claims only the shape that the three
/// specifiers give, each of them two digits padded with a zero.  `chrono`
/// panics where it cannot represent the instant, which is further than about
/// 262,000 years from 1970, or where the machine's time zone data names no
/// offset for it.
#[verifier::external_body]
pub(crate) fn local_time_text() -> (text: String)
    ensures
        is_clock_text(text@),
{
    let now: chrono::DateTime<chrono::Local> = std::time::SystemTime::now().into();
    now.format("%H:%M:%S").to_string()
}

} // verus!
