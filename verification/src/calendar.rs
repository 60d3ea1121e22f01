use vstd::prelude::*;

use crate::text::{decimal_text, push_char, push_radix};

verus! {

/// The earliest year a calendar date may have.
pub const MIN_YEAR: i32 = -262143;

/// The latest year a calendar date may have.
pub const MAX_YEAR: i32 = 262142;

/// Whether `year` is a leap year of the proleptic Gregorian calendar.
pub open spec fn is_leap_year(year: int) -> bool {
    (year % 4 == 0 && year % 100 != 0) || year % 400 == 0
}

/// The number of days in `month` of `year`.
pub open spec fn days_in_month(year: int, month: int) -> int {
    if month == 2 {
        if is_leap_year(year) {
            29
        } else {
            28
        }
    } else if month == 4 || month == 6 || month == 9 || month == 11 {
        30
    } else {
        31
    }
}

/// Whether `(year, month, day)` names a day of the proleptic Gregorian calendar in the supported
/// range of years.
pub open spec fn valid_ymd(year: int, month: int, day: int) -> bool {
    &&& MIN_YEAR <= year <= MAX_YEAR
    &&& 1 <= month <= 12
    &&& 1 <= day <= days_in_month(year, month)
}

/// `digits` preceded by as many `0` as make it at least `width` long.
pub open spec fn zero_padded(digits: Seq<char>, width: nat) -> Seq<char> {
    if digits.len() < width {
        Seq::new((width - digits.len()) as nat, |i: int| '0') + digits
    } else {
        digits
    }
}

/// The year as `%Y` writes it: four digits for years 0 to 9999, otherwise a sign and at least
/// four digits.
pub open spec fn year_text(year: int) -> Seq<char> {
    if 0 <= year <= 9999 {
        zero_padded(decimal_text(year as nat), 4)
    } else if year < 0 {
        seq!['-'] + zero_padded(decimal_text((-year) as nat), 4)
    } else {
        seq!['+'] + zero_padded(decimal_text(year as nat), 4)
    }
}

/// The date as `%Y-%m-%d` writes it.
pub open spec fn iso_date_text(year: int, month: int, day: int) -> Seq<char> {
    year_text(year) + seq!['-'] + zero_padded(decimal_text(month as nat), 2) + seq!['-']
        + zero_padded(decimal_text(day as nat), 2)
}

/// A day of the proleptic Gregorian calendar.
#[derive(Clone, Copy, Debug, PartialEq, Eq, Hash)]
pub struct CalendarDate {
    year: i32,
    month: u32,
    day: u32,
}

impl CalendarDate {
    #[verifier::type_invariant]
    spec fn valid(self) -> bool {
        valid_ymd(self.year as int, self.month as int, self.day as int)
    }

    /// The year.
    pub closed spec fn spec_year(self) -> int {
        self.year as int
    }

    /// The month, 1 to 12.
    pub closed spec fn spec_month(self) -> int {
        self.month as int
    }

    /// The day of the month, from 1.
    pub closed spec fn spec_day(self) -> int {
        self.day as int
    }

    /// The date as `%Y-%m-%d` writes it.
    pub open spec fn text(self) -> Seq<char> {
        iso_date_text(self.spec_year(), self.spec_month(), self.spec_day())
    }

    /// Chronological order: `self` is on or before `other`.
    pub open spec fn on_or_before(self, other: CalendarDate) -> bool {
        ||| self.spec_year() < other.spec_year()
        ||| self.spec_year() == other.spec_year() && self.spec_month() < other.spec_month()
        ||| self.spec_year() == other.spec_year() && self.spec_month() == other.spec_month()
            && self.spec_day() <= other.spec_day()
    }

    /// The date of `day` in `month` of `year`, or `None` when there is no such day in the
    /// supported range.
    pub fn from_ymd(year: i32, month: u32, day: u32) -> (r: Option<CalendarDate>)
        ensures
            r is Some <==> valid_ymd(year as int, month as int, day as int),
            r matches Some(d) ==> d.spec_year() == year && d.spec_month() == month
                && d.spec_day() == day,
    {
        if year < MIN_YEAR || year > MAX_YEAR || month < 1 || month > 12 || day < 1 {
            return None;
        }
        let leap = (year % 4 == 0 && year % 100 != 0) || year % 400 == 0;
        let last: u32 = if month == 2 {
            if leap {
                29
            } else {
                28
            }
        } else if month == 4 || month == 6 || month == 9 || month == 11 {
            30
        } else {
            31
        };
        if day > last {
            None
        } else {
            Some(CalendarDate { year, month, day })
        }
    }

    /// The year.
    pub fn year(&self) -> (y: i32)
        ensures
            y == self.spec_year(),
    {
        self.year
    }

    /// The month, 1 to 12.
    pub fn month(&self) -> (m: u32)
        ensures
            m == self.spec_month(),
            1 <= m <= 12,
    {
        proof {
            use_type_invariant(self);
        }
        self.month
    }

    /// The day of the month, from 1.
    pub fn day(&self) -> (d: u32)
        ensures
            d == self.spec_day(),
            1 <= d <= 31,
    {
        proof {
            use_type_invariant(self);
        }
        self.day
    }

    /// Whether `self` is on or before `other`.
    pub fn is_on_or_before(&self, other: &CalendarDate) -> (r: bool)
        ensures
            r == self.on_or_before(*other),
    {
        self.year < other.year || (self.year == other.year && self.month < other.month) || (
        self.year == other.year && self.month == other.month && self.day <= other.day)
    }

    /// The date as `%Y-%m-%d` writes it, such as `2026-06-01`.
    pub fn to_iso_string(&self) -> (s: String)
        ensures
            s@ == self.text(),
    {
        proof {
            use_type_invariant(self);
        }
        let mut s = String::new();
        let y = self.year;
        if y < 0 {
            push_char(&mut s, '-');
            push_padded(&mut s, (-(y as i64)) as u64, 4);
        } else if y > 9999 {
            push_char(&mut s, '+');
            push_padded(&mut s, y as u64, 4);
        } else {
            push_padded(&mut s, y as u64, 4);
        }
        push_char(&mut s, '-');
        push_padded(&mut s, self.month as u64, 2);
        push_char(&mut s, '-');
        push_padded(&mut s, self.day as u64, 2);
        proof {
            let yt = year_text(y as int);
            let mt = zero_padded(decimal_text(self.month as nat), 2);
            let dt = zero_padded(decimal_text(self.day as nat), 2);
            assert(s@ =~= yt + seq!['-'] + mt + seq!['-'] + dt);
        }
        s
    }
}

proof fn lemma_decimal_text_len(n: nat)
    ensures
        decimal_text(n).len() >= 1,
        n < 10 ==> decimal_text(n).len() == 1,
        10 <= n < 100 ==> decimal_text(n).len() == 2,
        100 <= n < 1000 ==> decimal_text(n).len() == 3,
        1000 <= n < 10000 ==> decimal_text(n).len() == 4,
        n >= 10000 ==> decimal_text(n).len() >= 5,
    decreases n,
{
    reveal_with_fuel(crate::text::radix_text, 2);
    if n >= 10 {
        lemma_decimal_text_len(n / 10);
    }
}

fn push_padded(out: &mut String, n: u64, width: u64)
    requires
        width == 2 || width == 4,
    ensures
        final(out)@ == old(out)@ + zero_padded(decimal_text(n as nat), width as nat),
{
    proof {
        lemma_decimal_text_len(n as nat);
    }
    let digits: u64 = if n < 10 {
        1
    } else if n < 100 {
        2
    } else if n < 1000 {
        3
    } else if n < 10000 {
        4
    } else {
        5
    };
    let ghost start = out@;
    let mut k: u64 = digits;
    while k < width
        invariant
            digits <= k <= width || k == digits,
            k >= digits,
            out@ == start + Seq::new((k - digits) as nat, |i: int| '0'),
        decreases width - k,
    {
        push_char(out, '0');
        assert(start + Seq::new((k + 1 - digits) as nat, |i: int| '0') =~= (start + Seq::new(
            (k - digits) as nat,
            |i: int| '0',
        )).push('0'));
        k += 1;
    }
    let ghost pad = out@;
    push_radix(out, n, 10);
    proof {
        let d = decimal_text(n as nat);
        if digits < width {
            assert(d.len() == digits);
            assert(out@ =~= start + (Seq::new((width - d.len()) as nat, |i: int| '0') + d));
        } else {
            assert(Seq::new((k - digits) as nat, |i: int| '0') =~= Seq::<char>::empty());
            assert(out@ =~= start + d);
        }
    }
}

} // verus!
