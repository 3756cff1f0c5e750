//! `H:MM:SS` rendering of a number of seconds.

use vstd::prelude::*;
use crate::text::{
    decimal, digits_value, is_digit, lemma_decimal_base10, lemma_zero_pad2, push_decimal, zero_pad2,
};

verus! {

pub const SECONDS_IN_HOUR: u64 = 3600;
pub const SECONDS_IN_MINUTE: u64 = 60;

/// A duration split into hours, minutes and seconds.
pub struct FormatDuration {
    hours: u64,
    minutes: u8,
    seconds: u8,
}

impl View for FormatDuration {
    /// `(hours, minutes, seconds)`
    type V = (nat, nat, nat);

    closed spec fn view(&self) -> (nat, nat, nat) {
        (self.hours as nat, self.minutes as nat, self.seconds as nat)
    }
}

/// A number of seconds as whole hours, remaining whole minutes and
/// remaining seconds.
pub open spec fn duration_parts(seconds: nat) -> (nat, nat, nat) {
    (seconds / 3600, (seconds % 3600) / 60, seconds % 60)
}

/// The text of a duration: hours, then minutes and seconds on two digits.
pub open spec fn duration_text(d: (nat, nat, nat)) -> Seq<char> {
    decimal(d.0) + seq![':'] + zero_pad2(d.1) + seq![':'] + zero_pad2(d.2)
}

/// The text of a number of seconds reads back to it: hours in decimal, a
/// colon, exactly two digits of minutes below sixty, a colon, exactly two
/// digits of seconds below sixty.
pub proof fn lemma_duration_text_reads_back(seconds: nat)
    ensures
        ({
            let t = duration_text(duration_parts(seconds));
            let k = t.len() - 6;
            &&& k >= 1
            &&& t.subrange(0, k) == decimal(seconds / 3600)
            &&& t[k] == ':'
            &&& t[k + 3] == ':'
            &&& is_digit(t[k + 1]) && is_digit(t[k + 2])
            &&& is_digit(t[k + 4]) && is_digit(t[k + 5])
            &&& digits_value(t.subrange(k + 1, k + 3)) < 60
            &&& digits_value(t.subrange(k + 4, k + 6)) < 60
            &&& digits_value(t.subrange(0, k)) * 3600 + digits_value(t.subrange(k + 1, k + 3)) * 60
                + digits_value(t.subrange(k + 4, k + 6)) == seconds
        }),
{
    let d = duration_parts(seconds);
    lemma_decimal_base10(d.0);
    lemma_zero_pad2(d.1);
    lemma_zero_pad2(d.2);
    let t = duration_text(d);
    let h = decimal(d.0);
    let k = h.len() as int;
    assert(t.len() == k + 6);
    assert(t.subrange(0, k as int) =~= h);
    assert(t.subrange(k + 1, k + 3) =~= zero_pad2(d.1));
    assert(t.subrange(k + 4, k + 6) =~= zero_pad2(d.2));
    assert(t[k + 1] == zero_pad2(d.1)[0]);
    assert(t[k + 2] == zero_pad2(d.1)[1]);
    assert(t[k + 4] == zero_pad2(d.2)[0]);
    assert(t[k + 5] == zero_pad2(d.2)[1]);
    assert(seconds == (seconds / 3600) * 3600 + ((seconds % 3600) / 60) * 60 + seconds % 60)
        by (nonlinear_arith);
}

fn push_pad2(s: &mut String, n: u8)
    ensures
        final(s)@ == old(s)@ + zero_pad2(n as nat),
{
    if n < 10 {
        s.push('0');
        push_decimal(s, n as u64);
        assert(decimal(n as nat) =~= seq![crate::text::digit_char(n as int)]);
        assert(final(s)@ =~= old(s)@ + zero_pad2(n as nat));
    } else {
        push_decimal(s, n as u64);
    }
}

impl FormatDuration {
    /// Splits `seconds` into whole hours, the remaining whole minutes and
    /// the remaining seconds.
    pub fn new(seconds: u64) -> (r: Self)
        ensures
            r@ == duration_parts(seconds as nat),
            r@.0 * 3600 + r@.1 * 60 + r@.2 == seconds,
            r@.1 < 60,
            r@.2 < 60,
    {
        if seconds == 0 {
            return Self { hours: 0, minutes: 0, seconds: 0 };
        }
        let hours = seconds / SECONDS_IN_HOUR;
        assert(hours * 3600 <= seconds && seconds - hours * 3600 == seconds % 3600) by (nonlinear_arith)
            requires
                hours == seconds / 3600,
        ;
        let rest = seconds - hours * SECONDS_IN_HOUR;
        let minutes = rest / SECONDS_IN_MINUTE;
        assert(minutes * 60 <= rest && rest - minutes * 60 == seconds % 60 && minutes < 60) by (nonlinear_arith)
            requires
                minutes == rest / 60,
                rest == seconds % 3600,
        ;
        let secs = seconds - hours * SECONDS_IN_HOUR - minutes * SECONDS_IN_MINUTE;
        Self { hours, minutes: minutes as u8, seconds: secs as u8 }
    }

    /// The text `H:MM:SS` of this duration.
    pub fn to_string(&self) -> (s: String)
        ensures
            s@ == duration_text(self@),
    {
        let mut s = String::new();
        push_decimal(&mut s, self.hours);
        s.push(':');
        push_pad2(&mut s, self.minutes);
        s.push(':');
        push_pad2(&mut s, self.seconds);
        assert(s@ =~= duration_text(self@));
        s
    }
}

} // verus!
