//! ASCII-art digit glyphs and the decomposition of a remaining time into
//! the four clock digits (minutes and seconds, two digits each).
use vstd::prelude::*;
use crate::settings::{MINUTES_CEILING, SECS_PER_MINUTE};

verus! {

pub const ZERO: &'static str = " 0000
00  00
00  00
00  00
 0000";

pub const ONE: &'static str = "1111
  11
  11
  11
111111";

pub const TWO: &'static str = " 2222
22  22
   22
  22
222222";

pub const THREE: &'static str = " 3333
33  33
   333
33  33
 3333";

pub const FOUR: &'static str = "44  44
44  44
444444
    44
    44";

pub const FIVE: &'static str = "555555
55
55555
    55
55555";

pub const SIX: &'static str = " 6666
66
66666
66  66
 6666";

pub const SEVEN: &'static str = "777777
   77
  77
 77
77";

pub const EIGHT: &'static str = " 8888
88  88
 8888
88  88
 8888";

pub const NINE: &'static str = " 9999
99  99
 99999
    99
 9999";

/// The glyph for a single decimal digit.
pub open spec fn spec_digit_glyph(num: u64) -> Seq<char> {
    if num == 0 {
        ZERO@
    } else if num == 1 {
        ONE@
    } else if num == 2 {
        TWO@
    } else if num == 3 {
        THREE@
    } else if num == 4 {
        FOUR@
    } else if num == 5 {
        FIVE@
    } else if num == 6 {
        SIX@
    } else if num == 7 {
        SEVEN@
    } else if num == 8 {
        EIGHT@
    } else {
        NINE@
    }
}

pub fn get_digit(num: u64) -> (glyph: &'static str)
    requires
        num < 10,
    ensures
        glyph@ == spec_digit_glyph(num),
{
    match num {
        0 => ZERO,
        1 => ONE,
        2 => TWO,
        3 => THREE,
        4 => FOUR,
        5 => FIVE,
        6 => SIX,
        7 => SEVEN,
        8 => EIGHT,
        _ => NINE,
    }
}

/// Split a remaining time in seconds into the four clock-face glyphs:
/// tens and ones of the minutes, tens and ones of the seconds. The minute
/// ceiling on committed settings keeps the minutes to two digits.
pub fn time_convert(secs: u64) -> (glyphs: (
    &'static str,
    &'static str,
    &'static str,
    &'static str,
))
    requires
        secs < MINUTES_CEILING * SECS_PER_MINUTE,
    ensures
        glyphs.0@ == spec_digit_glyph((secs / SECS_PER_MINUTE) / 10),
        glyphs.1@ == spec_digit_glyph((secs / SECS_PER_MINUTE) % 10),
        glyphs.2@ == spec_digit_glyph((secs % SECS_PER_MINUTE) / 10),
        glyphs.3@ == spec_digit_glyph((secs % SECS_PER_MINUTE) % 10),
{
    let minutes = secs / SECS_PER_MINUTE;
    let seconds = secs % SECS_PER_MINUTE;
    assert(minutes < MINUTES_CEILING);
    let m0 = get_digit(minutes / 10);
    let m1 = get_digit(minutes % 10);
    let s0 = get_digit(seconds / 10);
    let s1 = get_digit(seconds % 10);
    (m0, m1, s0, s1)
}

} // verus!
