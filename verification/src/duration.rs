use vstd::prelude::*;
use crate::text::{decimal, push_decimal, lemma_decimal_digits};

verus! {

/// The text of a remaining time of `seconds` seconds: empty for no time at all,
/// else whole hours and minutes (`2h 10m`), whole minutes below an hour (`45m`),
/// or seconds below a minute (`30s`).
pub open spec fn time_text(seconds: int) -> Seq<char> {
    if seconds <= 0 {
        Seq::empty()
    } else {
        let hours = seconds / 3600;
        let minutes = (seconds % 3600) / 60;
        if hours > 0 {
            decimal(hours as nat) + "h "@ + decimal(minutes as nat) + "m"@
        } else if minutes > 0 {
            decimal(minutes as nat) + "m"@
        } else {
            decimal(seconds as nat) + "s"@
        }
    }
}

/// Writes a remaining time given in seconds, as the panel and popup show it.
pub fn format_time(seconds: i64) -> (r: String)
    ensures
        r@ == time_text(seconds as int),
{
    if seconds <= 0 {
        return String::new();
    }
    let secs = seconds as u64;
    let hours = secs / 3600;
    let minutes = (secs % 3600) / 60;
    let mut s = String::new();
    if hours > 0 {
        push_decimal(&mut s, hours);
        s.append("h ");
        push_decimal(&mut s, minutes);
        s.append("m");
    } else if minutes > 0 {
        push_decimal(&mut s, minutes);
        s.append("m");
    } else {
        push_decimal(&mut s, secs);
        s.append("s");
    }
    s
}

/// A time is written as empty text exactly when there is no time left.
pub proof fn lemma_time_text_empty(seconds: int)
    ensures
        (time_text(seconds).len() == 0) <==> (seconds <= 0),
{
    if seconds > 0 {
        let hours = seconds / 3600;
        let minutes = (seconds % 3600) / 60;
        if hours > 0 {
            lemma_decimal_digits(hours as nat);
        } else if minutes > 0 {
            lemma_decimal_digits(minutes as nat);
        } else {
            lemma_decimal_digits(seconds as nat);
        }
    }
}

/// The time text by range: nothing for no time; whole seconds below a minute;
/// whole minutes below an hour; whole hours and the minutes past them from an
/// hour on.
pub proof fn law_time_text_ranges(seconds: int)
    ensures
        seconds <= 0 ==> time_text(seconds) == Seq::<char>::empty(),
        0 < seconds < 60 ==> time_text(seconds) == decimal(seconds as nat) + "s"@,
        60 <= seconds < 3600 ==> time_text(seconds) == decimal((seconds / 60) as nat) + "m"@,
        3600 <= seconds ==> time_text(seconds) == decimal((seconds / 3600) as nat) + "h "@ + decimal(
            ((seconds % 3600) / 60) as nat,
        ) + "m"@,
{
    if 0 < seconds < 3600 {
        assert(seconds / 3600 == 0);
        assert(seconds % 3600 == seconds);
    }
}

} // verus!
