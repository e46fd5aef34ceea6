//! A moment of local time and the two texts that the library writes of it:
//! the timestamp drawn on an image and the stamp of a default file name.

use vstd::prelude::*;
use vstd::string::StringExecFns;

verus! {

/// A moment of local time, broken down into its calendar fields.
#[derive(Clone, Copy, Debug, PartialEq, Eq, Structural)]
pub struct Moment {
    pub year: i32,
    pub month: u32,
    pub day: u32,
    pub hour: u32,
    pub minute: u32,
    pub second: u32,
}

impl Moment {
    /// Each field lies in the range of its calendar unit.
    pub open spec fn well_formed(&self) -> bool {
        &&& 1 <= self.month <= 12
        &&& 1 <= self.day <= 31
        &&& self.hour <= 23
        &&& self.minute <= 59
        &&& self.second <= 59
    }

    /// Decides `well_formed`.
    pub fn is_well_formed(&self) -> (r: bool)
        ensures
            r == self.well_formed(),
    {
        1 <= self.month && self.month <= 12 && 1 <= self.day && self.day <= 31 && self.hour <= 23
            && self.minute <= 59 && self.second <= 59
    }
}

/// The decimal digit `d` as a text of one character.
pub open spec fn digit_of(d: int) -> Seq<char> {
    if d == 0 {
        "0"@
    } else if d == 1 {
        "1"@
    } else if d == 2 {
        "2"@
    } else if d == 3 {
        "3"@
    } else if d == 4 {
        "4"@
    } else if d == 5 {
        "5"@
    } else if d == 6 {
        "6"@
    } else if d == 7 {
        "7"@
    } else if d == 8 {
        "8"@
    } else {
        "9"@
    }
}

/// A number below 100 in two digits, with a leading zero where needed.
pub open spec fn two_digits(n: int) -> Seq<char> {
    digit_of(n / 10) + digit_of(n % 10)
}

/// A number below 10000 in four digits, with leading zeros where needed.
pub open spec fn four_digits(n: int) -> Seq<char> {
    two_digits(n / 100) + two_digits(n % 100)
}

/// A number in decimal digits, without leading zeros.
pub open spec fn decimal_of(n: nat) -> Seq<char>
    decreases n,
{
    if n < 10 {
        digit_of(n as int)
    } else {
        decimal_of(n / 10) + digit_of((n % 10) as int)
    }
}

/// The year number: four digits for the years 0 to 9999; beyond them a
/// sign, then the digits of the year, at least four of them.
pub open spec fn year_text_of(year: int) -> Seq<char> {
    if 0 <= year <= 9999 {
        four_digits(year)
    } else if year > 9999 {
        "+"@ + decimal_of(year as nat)
    } else if year >= -9999 {
        "-"@ + four_digits(-year)
    } else {
        "-"@ + decimal_of((-year) as nat)
    }
}

/// The timestamp of a moment: day, month and year between slashes, a
/// space, then hour, minute and second between colons.
pub open spec fn timestamp_text_of(m: Moment) -> Seq<char> {
    two_digits(m.day as int) + "/"@ + two_digits(m.month as int) + "/"@ + year_text_of(
        m.year as int,
    ) + " "@ + two_digits(m.hour as int) + ":"@ + two_digits(m.minute as int) + ":"@ + two_digits(
        m.second as int,
    )
}

/// The stamp of a moment in a file name: year, month and day between
/// hyphens, the letter T, then hour, minute and second between hyphens.
pub open spec fn file_stamp_of(m: Moment) -> Seq<char> {
    year_text_of(m.year as int) + "-"@ + two_digits(m.month as int) + "-"@ + two_digits(
        m.day as int,
    ) + "T"@ + two_digits(m.hour as int) + "-"@ + two_digits(m.minute as int) + "-"@ + two_digits(
        m.second as int,
    )
}

/// The decimal digit `d` as a text.
fn digit(d: u32) -> (r: &'static str)
    requires
        d <= 9,
    ensures
        r@ == digit_of(d as int),
{
    if d == 0 {
        "0"
    } else if d == 1 {
        "1"
    } else if d == 2 {
        "2"
    } else if d == 3 {
        "3"
    } else if d == 4 {
        "4"
    } else if d == 5 {
        "5"
    } else if d == 6 {
        "6"
    } else if d == 7 {
        "7"
    } else if d == 8 {
        "8"
    } else {
        "9"
    }
}

/// Appends a number below 100 in two digits.
fn push_two(out: &mut String, n: u32)
    requires
        n <= 99,
    ensures
        final(out)@ == old(out)@ + two_digits(n as int),
{
    out.append(digit(n / 10));
    out.append(digit(n % 10));
    assert(out@ =~= old(out)@ + two_digits(n as int));
}

/// Appends a number below 10000 in four digits.
fn push_four(out: &mut String, n: u32)
    requires
        n <= 9999,
    ensures
        final(out)@ == old(out)@ + four_digits(n as int),
{
    push_two(out, n / 100);
    push_two(out, n % 100);
    assert(out@ =~= old(out)@ + four_digits(n as int));
}

/// Appends a number in decimal digits.
fn push_decimal(out: &mut String, n: u32)
    ensures
        final(out)@ == old(out)@ + decimal_of(n as nat),
    decreases n,
{
    if n < 10 {
        out.append(digit(n));
    } else {
        push_decimal(out, n / 10);
        out.append(digit(n % 10));
        assert(out@ =~= old(out)@ + decimal_of(n as nat));
    }
}

/// Appends a year number.
fn push_year(out: &mut String, year: i32)
    ensures
        final(out)@ == old(out)@ + year_text_of(year as int),
{
    if 0 <= year && year <= 9999 {
        push_four(out, year as u32);
    } else if year > 9999 {
        out.append("+");
        push_decimal(out, year as u32);
        assert(out@ =~= old(out)@ + year_text_of(year as int));
    } else if year >= -9999 {
        out.append("-");
        push_four(out, (-year) as u32);
        assert(out@ =~= old(out)@ + year_text_of(year as int));
    } else {
        out.append("-");
        push_decimal(out, (-(year as i64)) as u32);
        assert(out@ =~= old(out)@ + year_text_of(year as int));
    }
}

/// Writes the timestamp of a moment, as `DD/MM/YYYY HH:MM:SS`.
pub fn timestamp_text(moment: &Moment) -> (r: String)
    requires
        moment.well_formed(),
    ensures
        r@ == timestamp_text_of(*moment),
{
    let mut out = String::new();
    push_two(&mut out, moment.day);
    out.append("/");
    push_two(&mut out, moment.month);
    out.append("/");
    push_year(&mut out, moment.year);
    out.append(" ");
    push_two(&mut out, moment.hour);
    out.append(":");
    push_two(&mut out, moment.minute);
    out.append(":");
    push_two(&mut out, moment.second);
    assert(out@ =~= timestamp_text_of(*moment));
    out
}

/// Writes the stamp of a moment for a file name, as `YYYY-MM-DDTHH-MM-SS`.
pub fn file_stamp(moment: &Moment) -> (r: String)
    requires
        moment.well_formed(),
    ensures
        r@ == file_stamp_of(*moment),
{
    let mut out = String::new();
    push_year(&mut out, moment.year);
    out.append("-");
    push_two(&mut out, moment.month);
    out.append("-");
    push_two(&mut out, moment.day);
    out.append("T");
    push_two(&mut out, moment.hour);
    out.append("-");
    push_two(&mut out, moment.minute);
    out.append("-");
    push_two(&mut out, moment.second);
    assert(out@ =~= file_stamp_of(*moment));
    out
}

} // verus!
