use awskit::schedule::AtExpressionBuilder;
use awskit::schedule::CronExpressionBuilder;
use awskit::schedule::RateExpressionBuilder;
use awskit::schedule::RateUnit;
use awskit::schedule::UtcDateTime;

#[test]
fn test_at_expression_builder() {
    let datetime = UtcDateTime::new(2022, 11, 20, 13, 0, 0).unwrap();
    let expression = AtExpressionBuilder::new()
        .datetime(datetime)
        .build()
        .unwrap();

    assert_eq!(expression, "at(2022-11-20T13:00:00)");
}

#[test]
fn test_at_expression_builder_missing_datetime() {
    let result = AtExpressionBuilder::new().build();
    assert!(result.is_err());
}

#[test]
fn test_at_expression_builder_pads_fields() {
    let datetime = UtcDateTime::new(987, 1, 2, 3, 4, 5).unwrap();
    let expression = AtExpressionBuilder::new()
        .datetime(datetime)
        .build()
        .unwrap();

    assert_eq!(expression, "at(0987-01-02T03:04:05)");
}

#[test]
fn test_utc_date_time_rejects_out_of_range() {
    assert!(UtcDateTime::new(2022, 13, 1, 0, 0, 0).is_none());
    assert!(UtcDateTime::new(2022, 0, 1, 0, 0, 0).is_none());
    assert!(UtcDateTime::new(2022, 1, 32, 0, 0, 0).is_none());
    assert!(UtcDateTime::new(2022, 1, 1, 24, 0, 0).is_none());
    assert!(UtcDateTime::new(2022, 1, 1, 0, 60, 0).is_none());
    assert!(UtcDateTime::new(2022, 1, 1, 0, 0, 60).is_none());
    assert!(UtcDateTime::new(10000, 1, 1, 0, 0, 0).is_none());
}

#[test]
fn test_rate_expression_builder() {
    let expression = RateExpressionBuilder::new()
        .value(5)
        .unit(RateUnit::Minutes)
        .build()
        .unwrap();

    assert_eq!(expression, "rate(5 minutes)");
}

#[test]
fn test_rate_expression_builder_singular() {
    let expression = RateExpressionBuilder::new().hours(1).build().unwrap();

    assert_eq!(expression, "rate(1 hour)");
}

#[test]
fn test_rate_expression_builder_convenience_methods() {
    let expression = RateExpressionBuilder::new().days(7).build().unwrap();

    assert_eq!(expression, "rate(7 days)");
}

#[test]
fn test_rate_expression_builder_zero_value() {
    let result = RateExpressionBuilder::new()
        .value(0)
        .unit(RateUnit::Hours)
        .build();

    assert!(result.is_err());
}

#[test]
fn test_rate_expression_builder_missing_value() {
    assert!(RateExpressionBuilder::new().build().is_err());
    assert!(RateExpressionBuilder::new().value(3).build().is_err());
}

#[test]
fn test_cron_expression_builder() {
    let expression = CronExpressionBuilder::new()
        .minutes("15")
        .hours("10")
        .day_of_month("?")
        .month("*")
        .day_of_week("6L")
        .year("2022-2023")
        .build()
        .unwrap();

    assert_eq!(expression, "cron(15 10 ? * 6L 2022-2023)");
}

#[test]
fn test_cron_expression_builder_without_year() {
    let expression = CronExpressionBuilder::new()
        .minutes("0")
        .hours("12")
        .day_of_month("1")
        .month("*")
        .day_of_week("?")
        .build()
        .unwrap();

    assert_eq!(expression, "cron(0 12 1 * ?)");
}

#[test]
fn test_cron_expression_builder_with_names() {
    let expression = CronExpressionBuilder::new()
        .minutes("30")
        .hours("14")
        .day_of_month("?")
        .month("JAN,JUL")
        .day_of_week("MON-FRI")
        .build()
        .unwrap();

    assert_eq!(expression, "cron(30 14 ? JAN,JUL MON-FRI)");
}

#[test]
fn test_cron_expression_builder_invalid_both_day_fields() {
    let result = CronExpressionBuilder::new()
        .minutes("0")
        .hours("12")
        .day_of_month("15")
        .month("*")
        .day_of_week("MON")
        .build();

    assert!(result.is_err());
}

#[test]
fn test_cron_expression_builder_invalid_minute() {
    let result = CronExpressionBuilder::new()
        .minutes("60")
        .hours("12")
        .day_of_month("?")
        .month("*")
        .day_of_week("*")
        .build();

    assert!(result.is_err());
}

#[test]
fn test_cron_expression_builder_missing_field() {
    let result = CronExpressionBuilder::new()
        .minutes("0")
        .hours("12")
        .build();

    assert!(result.is_err());
}

#[test]
fn test_cron_expression_builder_year_out_of_range() {
    let result = CronExpressionBuilder::new()
        .minutes("0")
        .hours("12")
        .day_of_month("?")
        .month("*")
        .day_of_week("*")
        .year("2200")
        .build();

    assert!(result.is_err());
}

#[test]
fn test_cron_expression_builder_step_field_skips_range_check() {
    let expression = CronExpressionBuilder::new()
        .minutes("*/5")
        .hours("0-6")
        .day_of_month("?")
        .month("*")
        .day_of_week("*")
        .build()
        .unwrap();

    assert_eq!(expression, "cron(*/5 0-6 ? * *)");
}

#[test]
fn test_cron_expression_builder_overflowing_field_is_not_a_number() {
    // A field too large to parse as a number is left to the remote side,
    // exactly like any other non-numeric field.
    let expression = CronExpressionBuilder::new()
        .minutes("99999999999")
        .hours("12")
        .day_of_month("?")
        .month("*")
        .day_of_week("*")
        .build()
        .unwrap();

    assert_eq!(expression, "cron(99999999999 12 ? * *)");
}

#[test]
fn test_cron_expression_builder_signed_field_is_range_checked() {
    let result = CronExpressionBuilder::new()
        .minutes("+70")
        .hours("12")
        .day_of_month("?")
        .month("*")
        .day_of_week("*")
        .build();

    assert!(result.is_err());

    let expression = CronExpressionBuilder::new()
        .minutes("+5")
        .hours("12")
        .day_of_month("?")
        .month("*")
        .day_of_week("*")
        .build()
        .unwrap();

    assert_eq!(expression, "cron(+5 12 ? * *)");
}
