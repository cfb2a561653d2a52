use recurring_payments::error::RecurringPaymentsError;
use recurring_payments::schedule::calculate_next_payment_due;
use recurring_payments::state::PaymentFrequency;

const DAY: i64 = 86400;

#[test]
fn monthly_from_january_31_in_leap_year() {
    let due = 1706659200; // 2024-01-31
    assert_eq!(calculate_next_payment_due(due, &PaymentFrequency::Monthly, due), Ok(1709164800));
}

#[test]
fn monthly_from_january_31_in_common_year() {
    let due = 1675123200; // 2023-01-31
    assert_eq!(calculate_next_payment_due(due, &PaymentFrequency::Monthly, due), Ok(1677542400));
}

#[test]
fn daily_catches_up_past_now() {
    let t = 1704067200; // 2024-01-01
    let now = t + 10 * DAY;
    assert_eq!(calculate_next_payment_due(t, &PaymentFrequency::Daily, now), Ok(t + 11 * DAY));
}

#[test]
fn weekly_advances_one_week() {
    let t = 1704067200;
    assert_eq!(calculate_next_payment_due(t, &PaymentFrequency::Weekly, t), Ok(t + 7 * DAY));
    assert_eq!(
        calculate_next_payment_due(t, &PaymentFrequency::Weekly, t + 7 * DAY - 1),
        Ok(t + 7 * DAY)
    );
}

#[test]
fn future_due_date_is_kept() {
    let t = 1704067200;
    assert_eq!(calculate_next_payment_due(t, &PaymentFrequency::Monthly, t - 1), Ok(t));
    assert_eq!(calculate_next_payment_due(t, &PaymentFrequency::Custom(5), t - 1), Ok(t));
}

#[test]
fn monthly_catch_up_carries_the_clamped_day() {
    // 2024-01-31 -> 2024-02-29 -> 2024-03-29, first past 2024-03-15
    let due = 1706659200;
    let now = 1709164800 + 15 * DAY;
    assert_eq!(calculate_next_payment_due(due, &PaymentFrequency::Monthly, now), Ok(1711670400));
}

#[test]
fn quarterly_semiannual_and_annual_steps() {
    // 2024-11-30 + 3 months, 2024-08-31 + 6 months, 2024-02-29 + 12 months: 2025-02-28
    assert_eq!(
        calculate_next_payment_due(1732924800, &PaymentFrequency::Quarterly, 1732924800),
        Ok(1740700800)
    );
    assert_eq!(
        calculate_next_payment_due(1725062400, &PaymentFrequency::SemiAnnually, 1725062400),
        Ok(1740700800)
    );
    assert_eq!(
        calculate_next_payment_due(1709164800, &PaymentFrequency::Annually, 1709164800),
        Ok(1740700800)
    );
}

#[test]
fn custom_interval_in_seconds() {
    assert_eq!(calculate_next_payment_due(1000, &PaymentFrequency::Custom(90), 1000), Ok(1090));
    assert_eq!(calculate_next_payment_due(1000, &PaymentFrequency::Custom(90), 1270), Ok(1360));
}

#[test]
fn result_is_after_now_and_not_before_due() {
    let freqs = [
        PaymentFrequency::Daily,
        PaymentFrequency::Weekly,
        PaymentFrequency::Monthly,
        PaymentFrequency::Quarterly,
        PaymentFrequency::SemiAnnually,
        PaymentFrequency::Annually,
        PaymentFrequency::Custom(1),
        PaymentFrequency::Custom(3_000_000),
    ];
    let due = 1706659200;
    for f in freqs.iter() {
        for now in [due - 5, due, due + 1, due + 40 * DAY, due + 400 * DAY] {
            let next = calculate_next_payment_due(due, f, now).unwrap();
            assert!(next > now);
            assert!(next >= due);
        }
    }
}

#[test]
fn overflow_is_reported() {
    assert_eq!(
        calculate_next_payment_due(i64::MAX - 10, &PaymentFrequency::Weekly, i64::MAX),
        Err(RecurringPaymentsError::ArithmeticOverflow)
    );
    assert_eq!(
        calculate_next_payment_due(0, &PaymentFrequency::Custom(u64::MAX), 0),
        Err(RecurringPaymentsError::ArithmeticOverflow)
    );
    assert_eq!(
        calculate_next_payment_due(i64::MAX - 10, &PaymentFrequency::Monthly, i64::MAX),
        Err(RecurringPaymentsError::ArithmeticOverflow)
    );
}
