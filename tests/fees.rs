use recurring_payments::error::RecurringPaymentsError;
use recurring_payments::fees::{calculate_fees, FeeSplit};
use recurring_payments::state::{PaymentFrequency, PolicyType};

#[test]
fn split_by_basis_points() {
    assert_eq!(
        calculate_fees(1000, 100, 50),
        Ok(FeeSplit { recipient_amount: 985, gateway_fee: 10, protocol_fee: 5 })
    );
}

#[test]
fn fees_round_down() {
    assert_eq!(
        calculate_fees(199, 50, 50),
        Ok(FeeSplit { recipient_amount: 199, gateway_fee: 0, protocol_fee: 0 })
    );
    assert_eq!(
        calculate_fees(333, 3000, 3000),
        Ok(FeeSplit { recipient_amount: 135, gateway_fee: 99, protocol_fee: 99 })
    );
}

#[test]
fn split_adds_up_to_amount() {
    for amount in [0u64, 1, 7, 9999, 10000, 123456789, u64::MAX] {
        for (g, p) in [(0u16, 0u16), (10000, 0), (0, 10000), (5000, 5000), (123, 4567), (9999, 1)] {
            let s = calculate_fees(amount, g, p).unwrap();
            assert_eq!(s.recipient_amount + s.gateway_fee + s.protocol_fee, amount);
        }
    }
}

#[test]
fn largest_amount_does_not_overflow() {
    let s = calculate_fees(u64::MAX, 10000, 0).unwrap();
    assert_eq!(s, FeeSplit { recipient_amount: 0, gateway_fee: u64::MAX, protocol_fee: 0 });
}

#[test]
fn fees_above_the_amount_fail() {
    assert_eq!(calculate_fees(1000, 8000, 3000), Err(RecurringPaymentsError::ArithmeticOverflow));
    assert_eq!(calculate_fees(1000, 20000, 0), Err(RecurringPaymentsError::ArithmeticOverflow));
}

fn subscription(amount: u64, frequency: PaymentFrequency, max_renewals: Option<u32>) -> PolicyType {
    PolicyType::Subscription {
        amount,
        auto_renew: true,
        max_renewals,
        payment_frequency: frequency,
        next_payment_due: 0,
        padding: [0; 97],
    }
}

#[test]
fn policy_type_validation() {
    assert_eq!(subscription(10, PaymentFrequency::Daily, None).validate(), Ok(()));
    assert_eq!(subscription(10, PaymentFrequency::Custom(1), Some(1)).validate(), Ok(()));
    assert_eq!(
        subscription(0, PaymentFrequency::Custom(0), Some(0)).validate(),
        Err(RecurringPaymentsError::InvalidAmount)
    );
    assert_eq!(
        subscription(10, PaymentFrequency::Custom(0), Some(0)).validate(),
        Err(RecurringPaymentsError::InvalidFrequency)
    );
    assert_eq!(
        subscription(10, PaymentFrequency::Monthly, Some(0)).validate(),
        Err(RecurringPaymentsError::InvalidInterval)
    );
}

#[test]
fn frequency_validation() {
    assert_eq!(PaymentFrequency::Custom(0).validate(), Err(RecurringPaymentsError::InvalidFrequency));
    assert_eq!(PaymentFrequency::Custom(60).validate(), Ok(()));
    assert_eq!(PaymentFrequency::Annually.validate(), Ok(()));
}

#[test]
fn policy_type_layout_width() {
    assert_eq!(PolicyType::VARIANT_SIZE, 128);
    assert_eq!(PolicyType::TOTAL_SIZE, 1 + PolicyType::VARIANT_SIZE);
}
