//! Date calculations for yield curve bootstrapping: business-day
//! adjustments, spot dates and settlement conventions.
//!
//! Dates are counted in days of the proleptic Gregorian calendar, with
//! January 1 of year 1 as day 1; `chrono` turns calendar dates into day
//! counts and tells the month a day count falls in.
use vstd::prelude::*;
use chrono::Datelike;

verus! {

/// The first day `chrono` represents (January 1, 262144 BCE).
pub const MIN_DAY: i32 = -95746129;

/// The last day `chrono` represents (December 31, 262142 CE).
pub const MAX_DAY: i32 = 95745399;

/// The first year `chrono` represents (262144 BCE).
pub const MIN_YEAR: i32 = -262143;

/// The last year `chrono` represents (262142 CE).
pub const MAX_YEAR: i32 = 262142;

/// Leap years of the proleptic Gregorian calendar (year 0 is 1 BCE).
pub open spec fn is_leap_year(y: int) -> bool {
    y % 4 == 0 && (y % 100 != 0 || y % 400 == 0)
}

/// The number of days of month `m` (1 to 12) of year `y`.
pub open spec fn days_in_month(y: int, m: int) -> int {
    if m == 2 {
        if is_leap_year(y) { 29 } else { 28 }
    } else if m == 4 || m == 6 || m == 9 || m == 11 {
        30
    } else {
        31
    }
}

/// The number of days of year `y` before the first of month `m` (1 to 12).
pub open spec fn days_before_month(y: int, m: int) -> int {
    let common = seq![0int, 31, 59, 90, 120, 151, 181, 212, 243, 273, 304, 334][m - 1];
    if m > 2 && is_leap_year(y) { common + 1 } else { common }
}

/// The number of days from January 1 of year 1 to January 1 of year `y`
/// (negative before year 1).
pub open spec fn days_before_year(y: int) -> int {
    let p = y - 1;
    365 * p + p / 4 - p / 100 + p / 400
}

/// The day count of the date `year`-`month`-`day` (January 1 of year 1 is
/// day 1), when that date exists and its year lies in the represented range.
pub open spec fn ymd_day_number(year: i32, month: u32, day: u32) -> Option<i32> {
    if MIN_YEAR <= year <= MAX_YEAR && 1 <= month <= 12 && 1 <= day <= days_in_month(year as int, month as int) {
        Some((days_before_year(year as int) + days_before_month(year as int, month as int) + day) as i32)
    } else {
        None
    }
}

/// The month (1 to 12) in which day number `days` falls.
pub uninterp spec fn month_of_day(days: i32) -> u32;

/// Day of the week of a day number, Monday being 0 and Sunday 6.
pub open spec fn weekday_index(days: int) -> int {
    (days - 1) % 7
}

/// Saturdays and Sundays are weekends.
pub open spec fn is_weekend_day(days: int) -> bool {
    weekday_index(days) >= 5
}

/// A business day is any day that is not a weekend (no holiday calendar).
pub open spec fn is_business_day_number(days: int) -> bool {
    !is_weekend_day(days)
}

/// The first business day on or after `d`.
pub open spec fn following_day(d: int) -> int
    decreases MAX_DAY - d,
{
    if d >= MAX_DAY || is_business_day_number(d) {
        d
    } else {
        following_day(d + 1)
    }
}

/// The last business day on or before `d`.
pub open spec fn preceding_day(d: int) -> int
    decreases d - MIN_DAY,
{
    if d <= MIN_DAY || is_business_day_number(d) {
        d
    } else {
        preceding_day(d - 1)
    }
}

/// Number of business days in the interval `(a, b]`.
pub open spec fn business_days_between(a: int, b: int) -> nat
    decreases b - a,
{
    if b <= a {
        0
    } else {
        business_days_between(a, b - 1) + if is_business_day_number(b) { 1nat } else { 0nat }
    }
}

/// `chrono`: builds the date with `NaiveDate::from_ymd_opt` and reads its
/// day count with `Datelike::num_days_from_ce`. The contract claims that
/// the date exists exactly when it is a valid date of the proleptic
/// Gregorian calendar in the years `chrono` represents, that its day count
/// is the Gregorian one with January 1 of year 1 as day 1, and that it lies
/// in the represented range (`NaiveDate::MIN` to `NaiveDate::MAX`).
#[verifier::external_body]
fn chrono_day_number(year: i32, month: u32, day: u32) -> (r: Option<i32>)
    ensures
        r == ymd_day_number(year, month, day),
        r matches Some(d) ==> MIN_DAY <= d <= MAX_DAY,
{
    match chrono::NaiveDate::from_ymd_opt(year, month, day) {
        Some(date) => Some(date.num_days_from_ce()),
        None => None,
    }
}

/// `chrono`: `NaiveDate::from_num_days_from_ce_opt(days)` then
/// `Datelike::month`. The contract claims a month number from 1 to 12 that
/// depends on the day count alone and is the month of every date whose
/// day count is `days`.
#[verifier::external_body]
fn chrono_month(days: i32) -> (r: u32)
    requires
        MIN_DAY <= days <= MAX_DAY,
    ensures
        r == month_of_day(days),
        1 <= r <= 12,
        forall|y: i32, m: u32, d: u32| #[trigger] ymd_day_number(y, m, d) == Some(days) ==> r == m,
{
    chrono::NaiveDate::from_num_days_from_ce_opt(days).unwrap().month()
}

/// The day of the week of day number `days`, Monday being 0: day 1
/// (January 1 of year 1) is a Monday and the week repeats every 7 days.
fn weekday_of_day_number(days: i32) -> (r: u32)
    requires
        MIN_DAY <= days <= MAX_DAY,
    ensures
        r as int == weekday_index(days as int),
{
    // Shift by a multiple of 7 so that the remainder is taken of a positive number.
    let shifted: u64 = (days as i64 + 95746132) as u64;
    let r = (shifted % 7) as u32;
    proof {
        assert(shifted as int == (days as int - 1) + 7 * 13678019);
        assert(((days as int - 1) + 7 * 13678019) % 7 == (days as int - 1) % 7) by (nonlinear_arith);
    }
    r
}

/// A calendar date, held as its day count from January 1 of year 1 (day 1).
#[derive(Debug, Clone, Copy, PartialEq, Eq, Structural)]
pub struct CalendarDate {
    days: i32,
}

impl CalendarDate {
    #[verifier::type_invariant]
    spec fn in_range(self) -> bool {
        MIN_DAY <= self.days <= MAX_DAY
    }

    /// The day count of this date.
    pub closed spec fn day_number(self) -> int {
        self.days as int
    }

    /// The date `year`-`month`-`day`, or `None` when it does not exist.
    pub fn from_ymd(year: i32, month: u32, day: u32) -> (r: Option<CalendarDate>)
        ensures
            match ymd_day_number(year, month, day) {
                Some(d) => r matches Some(date) && date.day_number() == d,
                None => r is None,
            },
    {
        match chrono_day_number(year, month, day) {
            Some(days) => Some(CalendarDate { days }),
            None => None,
        }
    }

    /// The date with day count `days`, or `None` outside the represented range.
    pub fn from_num_days_from_ce(days: i32) -> (r: Option<CalendarDate>)
        ensures
            MIN_DAY <= days <= MAX_DAY ==> (r matches Some(date) && date.day_number() == days),
            !(MIN_DAY <= days <= MAX_DAY) ==> r is None,
    {
        if MIN_DAY <= days && days <= MAX_DAY {
            Some(CalendarDate { days })
        } else {
            None
        }
    }

    /// The day count of this date (January 1 of year 1 is day 1).
    pub fn num_days_from_ce(&self) -> (r: i32)
        ensures
            r == self.day_number(),
    {
        self.days
    }

    /// The month of this date, from 1 to 12.
    pub fn month(&self) -> (r: u32)
        ensures
            r == month_of_day(self.day_number() as i32),
            1 <= r <= 12,
            forall|y: i32, m: u32, d: u32| #[trigger] ymd_day_number(y, m, d) == Some(self.day_number() as i32) ==> r == m,
    {
        proof {
            use_type_invariant(self);
        }
        chrono_month(self.days)
    }

    /// The day of the week, Monday being 0 and Sunday 6.
    pub fn weekday_from_monday(&self) -> (r: u32)
        ensures
            r as int == weekday_index(self.day_number()),
    {
        proof {
            use_type_invariant(self);
        }
        weekday_of_day_number(self.days)
    }

    /// The next day, or `None` on the last represented day.
    pub fn succ_opt(&self) -> (r: Option<CalendarDate>)
        ensures
            self.day_number() < MAX_DAY ==> (r matches Some(d) && d.day_number() == self.day_number() + 1),
            self.day_number() == MAX_DAY ==> r is None,
    {
        proof {
            use_type_invariant(self);
        }
        if self.days < MAX_DAY {
            Some(CalendarDate { days: self.days + 1 })
        } else {
            None
        }
    }

    /// The previous day, or `None` on the first represented day.
    pub fn pred_opt(&self) -> (r: Option<CalendarDate>)
        ensures
            self.day_number() > MIN_DAY ==> (r matches Some(d) && d.day_number() == self.day_number() - 1),
            self.day_number() == MIN_DAY ==> r is None,
    {
        proof {
            use_type_invariant(self);
        }
        if self.days > MIN_DAY {
            Some(CalendarDate { days: self.days - 1 })
        } else {
            None
        }
    }
}

// --- lemmas on business days ----------------------------------------------------

/// The last represented day is a Monday, the first a Thursday.
proof fn lemma_range_ends_are_business_days()
    ensures
        is_business_day_number(MAX_DAY as int),
        is_business_day_number(MIN_DAY as int),
{
    assert(weekday_index(MAX_DAY as int) == 0);
    assert(weekday_index(MIN_DAY as int) == 3);
}

/// After two weekend days comes a business day.
proof fn lemma_weekend_short(d: int)
    requires
        is_weekend_day(d),
        is_weekend_day(d + 1),
    ensures
        is_business_day_number(d + 2),
        is_business_day_number(d - 1),
{
}

/// The following business day is the first business day at or after `d`.
pub proof fn lemma_following_day(d: int)
    requires
        MIN_DAY <= d <= MAX_DAY,
    ensures
        d <= following_day(d) <= MAX_DAY,
        following_day(d) <= d + 2,
        is_business_day_number(following_day(d)),
        forall|x: int| d <= x < following_day(d) ==> !is_business_day_number(x),
    decreases MAX_DAY - d,
{
    lemma_range_ends_are_business_days();
    if d < MAX_DAY && !is_business_day_number(d) {
        lemma_following_day(d + 1);
        if following_day(d + 1) > d + 1 {
            lemma_weekend_short(d);
        }
    }
}

/// The preceding business day is the last business day at or before `d`.
pub proof fn lemma_preceding_day(d: int)
    requires
        MIN_DAY <= d <= MAX_DAY,
    ensures
        MIN_DAY <= preceding_day(d) <= d,
        preceding_day(d) >= d - 2,
        is_business_day_number(preceding_day(d)),
        forall|x: int| preceding_day(d) < x <= d ==> !is_business_day_number(x),
    decreases d - MIN_DAY,
{
    lemma_range_ends_are_business_days();
    if d > MIN_DAY && !is_business_day_number(d) {
        lemma_preceding_day(d - 1);
        if preceding_day(d - 1) < d - 1 {
            lemma_weekend_short(d - 1);
        }
    }
}

/// Counting business days is monotone in the end of the interval.
proof fn lemma_count_monotone(a: int, b: int, c: int)
    requires
        b <= c,
    ensures
        business_days_between(a, b) <= business_days_between(a, c),
    decreases c - b,
{
    if b < c {
        lemma_count_monotone(a, b, c - 1);
    }
}

/// Counting from one day earlier adds that day.
proof fn lemma_count_prepend(a: int, b: int)
    requires
        a <= b,
    ensures
        business_days_between(a - 1, b) == business_days_between(a, b)
            + if is_business_day_number(a) { 1nat } else { 0nat },
    decreases b - a,
{
    if a < b {
        lemma_count_prepend(a, b - 1);
    } else {
        reveal_with_fuel(business_days_between, 2);
    }
}

/// There are no more business days than days.
proof fn lemma_count_bounded(a: int, b: int)
    ensures
        business_days_between(a, b) <= if b > a { b - a } else { 0 },
    decreases b - a,
{
    if b > a {
        lemma_count_bounded(a, b - 1);
    }
}

/// Spot date convention for settlement: business days from trade date to settlement.
#[derive(Debug, Clone, Copy, PartialEq, Eq, Hash, Structural)]
pub enum SpotDateConvention {
    /// Same day settlement (T+0).
    T0,
    /// Next business day settlement (T+1).
    T1,
    /// Standard spot settlement (T+2, default).
    T2,
    /// T+3 settlement.
    T3,
}

/// Business days to settlement under a convention.
pub open spec fn spot_business_days(c: SpotDateConvention) -> i32 {
    match c {
        SpotDateConvention::T0 => 0,
        SpotDateConvention::T1 => 1,
        SpotDateConvention::T2 => 2,
        SpotDateConvention::T3 => 3,
    }
}

/// Name of a convention.
pub open spec fn spot_convention_name(c: SpotDateConvention) -> &'static str {
    match c {
        SpotDateConvention::T0 => "T+0",
        SpotDateConvention::T1 => "T+1",
        SpotDateConvention::T2 => "T+2",
        SpotDateConvention::T3 => "T+3",
    }
}

/// A settlement convention is named after its lag: `T+` and the number of
/// business days to settlement.
pub proof fn lemma_spot_convention_named_by_lag(c: SpotDateConvention)
    ensures
        0 <= spot_business_days(c) <= 3,
        spot_convention_name(c)@ == "T+"@ + crate::text::decimal(spot_business_days(c) as nat),
{
    reveal_strlit("T+");
    reveal_strlit("T+0");
    reveal_strlit("T+1");
    reveal_strlit("T+2");
    reveal_strlit("T+3");
    assert(crate::text::decimal_digit(0) == '0');
    assert(crate::text::decimal_digit(1) == '1');
    assert(crate::text::decimal_digit(2) == '2');
    assert(crate::text::decimal_digit(3) == '3');
    assert("T+"@ + crate::text::decimal(0) =~= "T+0"@);
    assert("T+"@ + crate::text::decimal(1) =~= "T+1"@);
    assert("T+"@ + crate::text::decimal(2) =~= "T+2"@);
    assert("T+"@ + crate::text::decimal(3) =~= "T+3"@);
}

impl Default for SpotDateConvention {
    fn default() -> (r: Self)
        ensures
            r == SpotDateConvention::T2,
    {
        SpotDateConvention::T2
    }
}

impl SpotDateConvention {
    /// The number of business days to settlement.
    pub fn business_days(&self) -> (r: i32)
        ensures
            r == spot_business_days(*self),
    {
        match self {
            SpotDateConvention::T0 => 0,
            SpotDateConvention::T1 => 1,
            SpotDateConvention::T2 => 2,
            SpotDateConvention::T3 => 3,
        }
    }

    /// The convention name.
    pub fn name(&self) -> (r: &'static str)
        ensures
            r@ == spot_convention_name(*self)@,
    {
        match self {
            SpotDateConvention::T0 => "T+0",
            SpotDateConvention::T1 => "T+1",
            SpotDateConvention::T2 => "T+2",
            SpotDateConvention::T3 => "T+3",
        }
    }

    /// The text that `{}` prints: the convention name.
    pub fn to_display_string(&self) -> (r: String)
        ensures
            r@ == spot_convention_name(*self)@,
    {
        self.name().to_owned()
    }
}

/// How a date that is not a business day is moved.
#[derive(Debug, Clone, Copy, PartialEq, Eq, Hash, Structural)]
pub enum BusinessDayConvention {
    /// Next business day.
    Following,
    /// Next business day, unless that is in the next month: then the previous one.
    ModifiedFollowing,
    /// Previous business day.
    Preceding,
    /// Previous business day, unless that is in the previous month: then the next one.
    ModifiedPreceding,
    /// No adjustment.
    Unadjusted,
}

/// Day count conventions for year fractions.
#[derive(Debug, Clone, Copy, PartialEq, Eq, Hash, Structural)]
pub enum DayCounter {
    /// Actual days / 365.
    Actual365Fixed,
    /// Actual days / 360.
    Actual360,
}

/// The modified following adjustment of day `d`.
pub open spec fn modified_following_day(d: int) -> int {
    if month_of_day(following_day(d) as i32) == month_of_day(d as i32) {
        following_day(d)
    } else {
        preceding_day(d)
    }
}

/// The modified preceding adjustment of day `d`.
pub open spec fn modified_preceding_day(d: int) -> int {
    if month_of_day(preceding_day(d) as i32) == month_of_day(d as i32) {
        preceding_day(d)
    } else {
        following_day(d)
    }
}

/// The adjustment of day `d` under a business day convention.
pub open spec fn adjusted_day(d: int, convention: BusinessDayConvention) -> int {
    match convention {
        BusinessDayConvention::Following => following_day(d),
        BusinessDayConvention::ModifiedFollowing => modified_following_day(d),
        BusinessDayConvention::Preceding => preceding_day(d),
        BusinessDayConvention::ModifiedPreceding => modified_preceding_day(d),
        BusinessDayConvention::Unadjusted => d,
    }
}

/// What each convention does to a day `d`:
/// - `Unadjusted` leaves it where it is;
/// - `Following` gives the first business day on or after `d`;
/// - `Preceding` gives the last business day on or before `d`;
/// - `ModifiedFollowing` gives the first business day on or after `d` when
///   that day is in the month of `d`, and otherwise the last business day
///   before `d`;
/// - `ModifiedPreceding` gives the last business day on or before `d` when
///   that day is in the month of `d`, and otherwise the first business day
///   after `d`.
pub proof fn lemma_adjustment_rules(d: int)
    requires
        MIN_DAY <= d <= MAX_DAY,
    ensures
        adjusted_day(d, BusinessDayConvention::Unadjusted) == d,
        ({
            let f = adjusted_day(d, BusinessDayConvention::Following);
            &&& d <= f
            &&& is_business_day_number(f)
            &&& forall|x: int| d <= x < f ==> !is_business_day_number(x)
        }),
        ({
            let p = adjusted_day(d, BusinessDayConvention::Preceding);
            &&& p <= d
            &&& is_business_day_number(p)
            &&& forall|x: int| p < x <= d ==> !is_business_day_number(x)
        }),
        ({
            let m = adjusted_day(d, BusinessDayConvention::ModifiedFollowing);
            &&& is_business_day_number(m)
            &&& d <= m ==> month_of_day(m as i32) == month_of_day(d as i32)
                && forall|x: int| d <= x < m ==> !is_business_day_number(x)
            &&& m < d ==> (forall|x: int| m < x <= d ==> !is_business_day_number(x))
                && exists|f: int| d <= f && is_business_day_number(f)
                    && month_of_day(f as i32) != month_of_day(d as i32)
                    && forall|x: int| d <= x < f ==> !is_business_day_number(x)
        }),
        ({
            let m = adjusted_day(d, BusinessDayConvention::ModifiedPreceding);
            &&& is_business_day_number(m)
            &&& m <= d ==> month_of_day(m as i32) == month_of_day(d as i32)
                && forall|x: int| m < x <= d ==> !is_business_day_number(x)
            &&& d < m ==> (forall|x: int| d <= x < m ==> !is_business_day_number(x))
                && exists|p: int| p <= d && is_business_day_number(p)
                    && month_of_day(p as i32) != month_of_day(d as i32)
                    && forall|x: int| p < x <= d ==> !is_business_day_number(x)
        }),
{
    lemma_following_day(d);
    lemma_preceding_day(d);
    let f = following_day(d);
    let p = preceding_day(d);
    if month_of_day(f as i32) != month_of_day(d as i32) {
        if p == d {
            // d is a business day, so it is its own following day
            assert(f == d);
        }
        assert(d <= f && is_business_day_number(f) && month_of_day(f as i32) != month_of_day(d as i32)
            && forall|x: int| d <= x < f ==> !is_business_day_number(x));
    }
    if month_of_day(p as i32) != month_of_day(d as i32) {
        if f == d {
            assert(p == d);
        }
        assert(p <= d && is_business_day_number(p) && month_of_day(p as i32) != month_of_day(d as i32)
            && forall|x: int| p < x <= d ==> !is_business_day_number(x));
    }
}

/// Every convention but `Unadjusted` lands on a business day, and a
/// business day is left where it is by every convention.
pub proof fn lemma_adjusted_day(d: int, convention: BusinessDayConvention)
    requires
        MIN_DAY <= d <= MAX_DAY,
    ensures
        convention != BusinessDayConvention::Unadjusted ==> is_business_day_number(adjusted_day(d, convention)),
        is_business_day_number(d) ==> adjusted_day(d, convention) == d,
{
    lemma_following_day(d);
    lemma_preceding_day(d);
}

/// The represented range holds at least `n` business days after `d` for
/// positive `n`, at least `-n` business days before `d` for negative `n`;
/// always true for zero. This is what moving `d` by `n` business days
/// ([`DateCalculator::add_business_days`]) needs.
pub open spec fn has_business_days_ahead(d: int, n: int) -> bool {
    if n > 0 {
        business_days_between(d, MAX_DAY as int) >= n
    } else if n < 0 {
        business_days_between(MIN_DAY - 1, d - 1) >= -n
    } else {
        true
    }
}

/// Date calculator for bootstrapping: business day adjustments and spot dates.
#[derive(Debug, Clone, Copy)]
pub struct DateCalculator {
    spot_convention: SpotDateConvention,
    business_day_convention: BusinessDayConvention,
    day_counter: DayCounter,
}

impl Default for DateCalculator {
    fn default() -> (r: Self)
        ensures
            r.spot_convention_spec() == SpotDateConvention::T2,
            r.business_day_convention_spec() == BusinessDayConvention::ModifiedFollowing,
            r.day_counter_spec() == DayCounter::Actual365Fixed,
    {
        DateCalculator {
            spot_convention: SpotDateConvention::T2,
            business_day_convention: BusinessDayConvention::ModifiedFollowing,
            day_counter: DayCounter::Actual365Fixed,
        }
    }
}

impl DateCalculator {
    /// The configured spot convention.
    pub closed spec fn spot_convention_spec(self) -> SpotDateConvention {
        self.spot_convention
    }

    /// The configured business day convention.
    pub closed spec fn business_day_convention_spec(self) -> BusinessDayConvention {
        self.business_day_convention
    }

    /// The configured day counter.
    pub closed spec fn day_counter_spec(self) -> DayCounter {
        self.day_counter
    }

    /// A calculator with the default settings (T+2, modified following, Act/365F).
    pub fn new() -> (r: Self)
        ensures
            r.spot_convention_spec() == SpotDateConvention::T2,
            r.business_day_convention_spec() == BusinessDayConvention::ModifiedFollowing,
            r.day_counter_spec() == DayCounter::Actual365Fixed,
    {
        Self::default()
    }

    /// A builder, starting from T+2, following, Act/365F.
    pub fn builder() -> (r: DateCalculatorBuilder)
        ensures
            r.spot_convention == SpotDateConvention::T2,
            r.business_day_convention == BusinessDayConvention::Following,
            r.day_counter == DayCounter::Actual365Fixed,
    {
        DateCalculatorBuilder::default()
    }

    /// True on Saturdays and Sundays.
    pub fn is_weekend(&self, date: CalendarDate) -> (r: bool)
        ensures
            r == is_weekend_day(date.day_number()),
    {
        date.weekday_from_monday() >= 5
    }

    /// True on days that are not weekends.
    pub fn is_business_day(&self, date: CalendarDate) -> (r: bool)
        ensures
            r == is_business_day_number(date.day_number()),
    {
        !self.is_weekend(date)
    }

    /// The next business day on or after `date`.
    pub fn following(&self, date: CalendarDate) -> (r: CalendarDate)
        ensures
            r.day_number() == following_day(date.day_number()),
            r.day_number() >= date.day_number(),
            is_business_day_number(r.day_number()),
            forall|x: int| date.day_number() <= x < r.day_number() ==> !is_business_day_number(x),
    {
        proof {
            use_type_invariant(&date);
            lemma_following_day(date.day_number());
        }
        let mut d = date;
        while !self.is_business_day(d)
            invariant
                date.day_number() <= d.day_number() <= following_day(date.day_number()),
                following_day(date.day_number()) <= MAX_DAY,
                is_business_day_number(following_day(date.day_number())),
                following_day(d.day_number()) == following_day(date.day_number()),
            decreases following_day(date.day_number()) - d.day_number(),
        {
            proof {
                use_type_invariant(&d);
                lemma_range_ends_are_business_days();
            }
            d = match d.succ_opt() {
                Some(next) => next,
                None => d,
            };
        }
        d
    }

    /// The previous business day on or before `date`.
    pub fn preceding(&self, date: CalendarDate) -> (r: CalendarDate)
        ensures
            r.day_number() == preceding_day(date.day_number()),
            r.day_number() <= date.day_number(),
            is_business_day_number(r.day_number()),
            forall|x: int| r.day_number() < x <= date.day_number() ==> !is_business_day_number(x),
    {
        proof {
            use_type_invariant(&date);
            lemma_preceding_day(date.day_number());
        }
        let mut d = date;
        while !self.is_business_day(d)
            invariant
                preceding_day(date.day_number()) <= d.day_number() <= date.day_number(),
                preceding_day(date.day_number()) >= MIN_DAY,
                is_business_day_number(preceding_day(date.day_number())),
                preceding_day(d.day_number()) == preceding_day(date.day_number()),
            decreases d.day_number() - preceding_day(date.day_number()),
        {
            proof {
                use_type_invariant(&d);
                lemma_range_ends_are_business_days();
            }
            d = match d.pred_opt() {
                Some(prev) => prev,
                None => d,
            };
        }
        d
    }

    /// Modified following: the next business day, unless it falls in another
    /// month; then the previous business day.
    pub fn modified_following(&self, date: CalendarDate) -> (r: CalendarDate)
        ensures
            r.day_number() == modified_following_day(date.day_number()),
    {
        let following = self.following(date);
        if following.month() == date.month() {
            following
        } else {
            self.preceding(date)
        }
    }

    /// Modified preceding: the previous business day, unless it falls in
    /// another month; then the next business day.
    pub fn modified_preceding(&self, date: CalendarDate) -> (r: CalendarDate)
        ensures
            r.day_number() == modified_preceding_day(date.day_number()),
    {
        let preceding = self.preceding(date);
        if preceding.month() == date.month() {
            preceding
        } else {
            self.following(date)
        }
    }

    /// Adjusts a date by a business day convention.
    pub fn adjust(&self, date: CalendarDate, convention: BusinessDayConvention) -> (r: CalendarDate)
        ensures
            r.day_number() == adjusted_day(date.day_number(), convention),
    {
        match convention {
            BusinessDayConvention::Following => self.following(date),
            BusinessDayConvention::ModifiedFollowing => self.modified_following(date),
            BusinessDayConvention::Preceding => self.preceding(date),
            BusinessDayConvention::ModifiedPreceding => self.modified_preceding(date),
            BusinessDayConvention::Unadjusted => date,
        }
    }

    /// Adjusts a date by the configured business day convention.
    pub fn adjust_default(&self, date: CalendarDate) -> (r: CalendarDate)
        ensures
            r.day_number() == adjusted_day(date.day_number(), self.business_day_convention_spec()),
    {
        self.adjust(date, self.business_day_convention)
    }

    /// Moves a date by `days` business days; zero days gives the following
    /// business day.
    pub fn add_business_days(&self, date: CalendarDate, days: i32) -> (r: CalendarDate)
        requires
            has_business_days_ahead(date.day_number(), days as int),
        ensures
            days == 0 ==> r.day_number() == following_day(date.day_number()),
            days > 0 ==> {
                &&& r.day_number() > date.day_number()
                &&& is_business_day_number(r.day_number())
                &&& business_days_between(date.day_number(), r.day_number()) == days
            },
            days < 0 ==> {
                &&& r.day_number() < date.day_number()
                &&& is_business_day_number(r.day_number())
                &&& business_days_between(r.day_number() - 1, date.day_number() - 1) == -days
            },
    {
        if days == 0 {
            return self.following(date);
        }
        if days > 0 {
            self.advance_business_days(date, days)
        } else {
            proof {
                use_type_invariant(&date);
                lemma_count_bounded(MIN_DAY - 1, date.day_number() - 1);
            }
            self.retreat_business_days(date, -days)
        }
    }

    fn advance_business_days(&self, date: CalendarDate, days: i32) -> (r: CalendarDate)
        requires
            days > 0,
            business_days_between(date.day_number(), MAX_DAY as int) >= days,
        ensures
            r.day_number() > date.day_number(),
            is_business_day_number(r.day_number()),
            business_days_between(date.day_number(), r.day_number()) == days,
    {
        let mut d = date;
        let mut remaining: i32 = days;
        while remaining > 0
            invariant
                0 <= remaining <= days,
                date.day_number() <= d.day_number(),
                business_days_between(date.day_number(), MAX_DAY as int) >= days,
                business_days_between(date.day_number(), d.day_number()) == days - remaining,
                remaining < days ==> d.day_number() > date.day_number(),
                remaining == 0 ==> is_business_day_number(d.day_number()),
            decreases MAX_DAY - d.day_number(),
        {
            proof {
                use_type_invariant(&d);
                if d.day_number() == MAX_DAY {
                    assert(false);
                }
            }
            d = match d.succ_opt() {
                Some(next) => next,
                None => d,
            };
            if self.is_business_day(d) {
                remaining = remaining - 1;
            }
        }
        d
    }

    fn retreat_business_days(&self, date: CalendarDate, days: i32) -> (r: CalendarDate)
        requires
            days > 0,
            business_days_between(MIN_DAY - 1, date.day_number() - 1) >= days,
        ensures
            r.day_number() < date.day_number(),
            is_business_day_number(r.day_number()),
            business_days_between(r.day_number() - 1, date.day_number() - 1) == days,
    {
        let mut d = date;
        let mut remaining: i32 = days;
        proof {
            use_type_invariant(&date);
        }
        while remaining > 0
            invariant
                0 <= remaining <= days,
                d.day_number() <= date.day_number(),
                MIN_DAY <= date.day_number() <= MAX_DAY,
                business_days_between(MIN_DAY - 1, date.day_number() - 1) >= days,
                business_days_between(d.day_number() - 1, date.day_number() - 1) == days - remaining,
                remaining < days ==> d.day_number() < date.day_number(),
                remaining == 0 ==> is_business_day_number(d.day_number()),
            decreases d.day_number() - MIN_DAY,
        {
            proof {
                use_type_invariant(&d);
                if d.day_number() == MIN_DAY {
                    assert(false);
                }
                lemma_count_prepend(d.day_number() - 1, date.day_number() - 1);
            }
            d = match d.pred_opt() {
                Some(prev) => prev,
                None => d,
            };
            if self.is_business_day(d) {
                remaining = remaining - 1;
            }
        }
        d
    }

    /// The spot date of a trade under a settlement convention.
    pub fn spot_date(&self, trade_date: CalendarDate, convention: SpotDateConvention) -> (r: CalendarDate)
        requires
            has_business_days_ahead(trade_date.day_number(), spot_business_days(convention) as int),
        ensures
            spot_business_days(convention) == 0 ==> r.day_number() == following_day(trade_date.day_number()),
            spot_business_days(convention) > 0 ==> {
                &&& r.day_number() > trade_date.day_number()
                &&& is_business_day_number(r.day_number())
                &&& business_days_between(trade_date.day_number(), r.day_number())
                    == spot_business_days(convention)
            },
    {
        self.add_business_days(trade_date, convention.business_days())
    }

    /// The spot date under the configured settlement convention.
    pub fn spot_date_default(&self, trade_date: CalendarDate) -> (r: CalendarDate)
        requires
            has_business_days_ahead(trade_date.day_number(), spot_business_days(self.spot_convention_spec()) as int),
        ensures
            spot_business_days(self.spot_convention_spec()) == 0
                ==> r.day_number() == following_day(trade_date.day_number()),
            spot_business_days(self.spot_convention_spec()) > 0 ==> {
                &&& r.day_number() > trade_date.day_number()
                &&& is_business_day_number(r.day_number())
                &&& business_days_between(trade_date.day_number(), r.day_number())
                    == spot_business_days(self.spot_convention_spec())
            },
    {
        self.spot_date(trade_date, self.spot_convention)
    }

    /// The configured spot date convention.
    pub fn spot_convention(&self) -> (r: SpotDateConvention)
        ensures
            r == self.spot_convention_spec(),
    {
        self.spot_convention
    }

    /// The configured business day convention.
    pub fn business_day_convention(&self) -> (r: BusinessDayConvention)
        ensures
            r == self.business_day_convention_spec(),
    {
        self.business_day_convention
    }

    /// The configured day counter.
    pub fn day_counter(&self) -> (r: DayCounter)
        ensures
            r == self.day_counter_spec(),
    {
        self.day_counter
    }
}

/// Builder for a [`DateCalculator`].
#[derive(Debug, Clone, Copy)]
pub struct DateCalculatorBuilder {
    /// Spot date convention.
    pub spot_convention: SpotDateConvention,
    /// Business day convention.
    pub business_day_convention: BusinessDayConvention,
    /// Day counter.
    pub day_counter: DayCounter,
}

impl Default for DateCalculatorBuilder {
    fn default() -> (r: Self)
        ensures
            r.spot_convention == SpotDateConvention::T2,
            r.business_day_convention == BusinessDayConvention::Following,
            r.day_counter == DayCounter::Actual365Fixed,
    {
        DateCalculatorBuilder {
            spot_convention: SpotDateConvention::T2,
            business_day_convention: BusinessDayConvention::Following,
            day_counter: DayCounter::Actual365Fixed,
        }
    }
}

impl DateCalculatorBuilder {
    /// Sets the spot date convention.
    pub fn spot_convention(self, convention: SpotDateConvention) -> (r: Self)
        ensures
            r == (DateCalculatorBuilder { spot_convention: convention, ..self }),
    {
        DateCalculatorBuilder { spot_convention: convention, ..self }
    }

    /// Sets the business day convention.
    pub fn business_day_convention(self, convention: BusinessDayConvention) -> (r: Self)
        ensures
            r == (DateCalculatorBuilder { business_day_convention: convention, ..self }),
    {
        DateCalculatorBuilder { business_day_convention: convention, ..self }
    }

    /// Sets the day counter.
    pub fn day_counter(self, day_counter: DayCounter) -> (r: Self)
        ensures
            r == (DateCalculatorBuilder { day_counter, ..self }),
    {
        DateCalculatorBuilder { day_counter, ..self }
    }

    /// Builds the calculator.
    pub fn build(self) -> (r: DateCalculator)
        ensures
            r.spot_convention_spec() == self.spot_convention,
            r.business_day_convention_spec() == self.business_day_convention,
            r.day_counter_spec() == self.day_counter,
    {
        DateCalculator {
            spot_convention: self.spot_convention,
            business_day_convention: self.business_day_convention,
            day_counter: self.day_counter,
        }
    }
}

} // verus!
