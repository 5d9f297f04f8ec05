use pricer_models::date_utils::{
    BusinessDayConvention, CalendarDate, DateCalculator, DayCounter, SpotDateConvention,
};

fn date(y: i32, m: u32, d: u32) -> CalendarDate {
    CalendarDate::from_ymd(y, m, d).unwrap()
}

fn calc() -> DateCalculator {
    DateCalculator::new()
}

#[test]
fn test_spot_convention_business_days() {
    assert_eq!(SpotDateConvention::T0.business_days(), 0);
    assert_eq!(SpotDateConvention::T1.business_days(), 1);
    assert_eq!(SpotDateConvention::T2.business_days(), 2);
    assert_eq!(SpotDateConvention::T3.business_days(), 3);
}

#[test]
fn test_spot_convention_name() {
    assert_eq!(SpotDateConvention::T0.name(), "T+0");
    assert_eq!(SpotDateConvention::T1.name(), "T+1");
    assert_eq!(SpotDateConvention::T2.name(), "T+2");
    assert_eq!(SpotDateConvention::T3.name(), "T+3");
}

#[test]
fn test_spot_convention_default() {
    let conv: SpotDateConvention = Default::default();
    assert_eq!(conv, SpotDateConvention::T2);
}

#[test]
fn test_spot_convention_display() {
    assert_eq!(SpotDateConvention::T2.to_display_string(), "T+2");
}

#[test]
fn test_is_weekend() {
    let calc = calc();
    // Saturday 2026-01-10
    assert!(calc.is_weekend(date(2026, 1, 10)));
    // Sunday 2026-01-11
    assert!(calc.is_weekend(date(2026, 1, 11)));
    // Monday 2026-01-12
    assert!(!calc.is_weekend(date(2026, 1, 12)));
}

#[test]
fn test_is_business_day() {
    let calc = calc();
    assert!(calc.is_business_day(date(2026, 1, 12)));
    assert!(!calc.is_business_day(date(2026, 1, 10)));
}

#[test]
fn test_following() {
    let calc = calc();
    let saturday = date(2026, 1, 10);
    let monday = date(2026, 1, 12);
    assert_eq!(calc.following(saturday), monday);
    assert_eq!(calc.following(monday), monday);
}

#[test]
fn test_preceding() {
    let calc = calc();
    let saturday = date(2026, 1, 10);
    let friday = date(2026, 1, 9);
    assert_eq!(calc.preceding(saturday), friday);
    assert_eq!(calc.preceding(friday), friday);
}

#[test]
fn test_modified_following_no_month_cross() {
    let calc = calc();
    assert_eq!(calc.modified_following(date(2026, 1, 10)), date(2026, 1, 12));
}

#[test]
fn test_modified_following_month_cross() {
    let calc = calc();
    // Saturday Jan 31, 2026: following would be Feb 2, so Friday Jan 30.
    assert_eq!(calc.modified_following(date(2026, 1, 31)), date(2026, 1, 30));
}

#[test]
fn test_modified_preceding_no_month_cross() {
    let calc = calc();
    assert_eq!(calc.modified_preceding(date(2026, 1, 11)), date(2026, 1, 9));
}

#[test]
fn test_modified_preceding_month_cross() {
    let calc = calc();
    // Sunday Feb 1, 2026: preceding would be Jan 30, so Monday Feb 2.
    assert_eq!(calc.modified_preceding(date(2026, 2, 1)), date(2026, 2, 2));
}

#[test]
fn test_adjust() {
    let calc = calc();
    let saturday = date(2026, 1, 10);
    let monday = date(2026, 1, 12);
    let friday = date(2026, 1, 9);
    assert_eq!(calc.adjust(saturday, BusinessDayConvention::Following), monday);
    assert_eq!(calc.adjust(saturday, BusinessDayConvention::Preceding), friday);
    assert_eq!(calc.adjust(saturday, BusinessDayConvention::Unadjusted), saturday);
}

#[test]
fn test_add_business_days() {
    let calc = calc();
    let friday = date(2026, 1, 9);
    let monday = date(2026, 1, 12);
    assert_eq!(calc.add_business_days(friday, 1), monday);
    let tuesday = date(2026, 1, 13);
    assert_eq!(calc.add_business_days(friday, 2), tuesday);
    assert_eq!(calc.add_business_days(monday, -1), friday);
}

#[test]
fn test_spot_date() {
    let calc = calc();
    let trade_date = date(2026, 1, 12);
    assert_eq!(calc.spot_date(trade_date, SpotDateConvention::T0), trade_date);
    assert_eq!(calc.spot_date(trade_date, SpotDateConvention::T1), date(2026, 1, 13));
    assert_eq!(calc.spot_date(trade_date, SpotDateConvention::T2), date(2026, 1, 14));
}

#[test]
fn test_spot_date_over_weekend() {
    let calc = calc();
    assert_eq!(calc.spot_date(date(2026, 1, 8), SpotDateConvention::T2), date(2026, 1, 12));
}

#[test]
fn test_builder_default() {
    let calc = DateCalculator::builder().build();
    assert_eq!(calc.spot_convention(), SpotDateConvention::T2);
    assert_eq!(calc.business_day_convention(), BusinessDayConvention::Following);
    assert_eq!(calc.day_counter(), DayCounter::Actual365Fixed);
}

#[test]
fn test_builder_custom() {
    let calc = DateCalculator::builder()
        .spot_convention(SpotDateConvention::T1)
        .business_day_convention(BusinessDayConvention::ModifiedFollowing)
        .day_counter(DayCounter::Actual360)
        .build();
    assert_eq!(calc.spot_convention(), SpotDateConvention::T1);
    assert_eq!(calc.business_day_convention(), BusinessDayConvention::ModifiedFollowing);
    assert_eq!(calc.day_counter(), DayCounter::Actual360);
}

#[test]
fn date_utils_test_clone() {
    let calc1 = DateCalculator::new();
    let calc2 = calc1.clone();
    assert_eq!(calc1.spot_convention(), calc2.spot_convention());
    assert_eq!(calc1.day_counter(), calc2.day_counter());
}

// --- own tests ---------------------------------------------------------------

#[test]
fn calendar_date_from_ymd_rejects_invalid_dates() {
    assert!(CalendarDate::from_ymd(2026, 2, 29).is_none());
    assert!(CalendarDate::from_ymd(2024, 2, 29).is_some());
    assert!(CalendarDate::from_ymd(2026, 13, 1).is_none());
    assert!(CalendarDate::from_ymd(2026, 4, 31).is_none());
}

#[test]
fn calendar_date_day_numbers_and_months() {
    // January 1 of year 1 is day 1, a Monday.
    let first = CalendarDate::from_num_days_from_ce(1).unwrap();
    assert_eq!(first, date(1, 1, 1));
    assert_eq!(first.weekday_from_monday(), 0);
    assert_eq!(date(2026, 1, 10).weekday_from_monday(), 5);
    assert_eq!(date(2026, 1, 31).month(), 1);
    assert_eq!(date(2026, 1, 31).succ_opt().unwrap().month(), 2);
    assert_eq!(date(2026, 2, 1).pred_opt().unwrap(), date(2026, 1, 31));
    assert_eq!(date(2026, 1, 12).num_days_from_ce() - date(2026, 1, 9).num_days_from_ce(), 3);
}

#[test]
fn default_calculator_adjusts_modified_following() {
    let calc = calc();
    assert_eq!(calc.business_day_convention(), BusinessDayConvention::ModifiedFollowing);
    assert_eq!(calc.adjust_default(date(2026, 1, 31)), date(2026, 1, 30));
    assert_eq!(calc.spot_date_default(date(2026, 1, 8)), date(2026, 1, 12));
}

#[test]
fn add_business_days_zero_rolls_forward_and_skips_weekends() {
    let calc = calc();
    assert_eq!(calc.add_business_days(date(2026, 1, 10), 0), date(2026, 1, 12));
    assert_eq!(calc.add_business_days(date(2026, 1, 12), 0), date(2026, 1, 12));
    // Ten business days are two calendar weeks.
    assert_eq!(calc.add_business_days(date(2026, 1, 12), 10), date(2026, 1, 26));
    assert_eq!(calc.add_business_days(date(2026, 1, 26), -10), date(2026, 1, 12));
    // From a Saturday, one business day back is the Friday.
    assert_eq!(calc.add_business_days(date(2026, 1, 10), -1), date(2026, 1, 9));
}

#[test]
fn modified_preceding_adjust_and_spot_t3() {
    let calc = calc();
    assert_eq!(calc.adjust(date(2026, 2, 1), BusinessDayConvention::ModifiedPreceding), date(2026, 2, 2));
    assert_eq!(calc.adjust(date(2026, 1, 31), BusinessDayConvention::ModifiedFollowing), date(2026, 1, 30));
    assert_eq!(calc.spot_date(date(2026, 1, 8), SpotDateConvention::T3), date(2026, 1, 13));
}

#[test]
fn gregorian_day_counts_months_and_weekdays() {
    assert_eq!(date(1, 1, 1).num_days_from_ce(), 1);
    assert_eq!(date(1970, 1, 1).num_days_from_ce(), 719163);
    assert_eq!(date(0, 12, 31).num_days_from_ce(), 0);
    assert_eq!(date(-262143, 1, 1).num_days_from_ce(), -95746129);
    assert_eq!(date(262142, 12, 31).num_days_from_ce(), 95745399);
    assert!(CalendarDate::from_ymd(262143, 1, 1).is_none());
    assert!(CalendarDate::from_ymd(2023, 2, 29).is_none());
    assert!(CalendarDate::from_ymd(-4, 2, 29).is_some());
    let d = date(2026, 1, 9);
    assert_eq!(d.weekday_from_monday(), 4);
    assert_eq!(d.month(), 1);
    assert_eq!(date(1, 1, 1).weekday_from_monday(), 0);
    assert_eq!(date(-262143, 1, 1).weekday_from_monday(), 3);
}
