use recurring_payments::encoding::{decode_policy_type, encode_policy_type};
use recurring_payments::state::{PaymentFrequency, PolicyType};

fn subscription(amount: u64, frequency: PaymentFrequency, max_renewals: Option<u32>) -> PolicyType {
    PolicyType::Subscription {
        amount,
        auto_renew: true,
        max_renewals,
        payment_frequency: frequency,
        next_payment_due: 0,
        padding: [0; 97],
    }
}

#[test]
fn policy_type_encoding_is_fixed_width() {
    let short = subscription(10, PaymentFrequency::Daily, None);
    let long = subscription(u64::MAX, PaymentFrequency::Custom(77), Some(u32::MAX));
    let a = encode_policy_type(&short);
    let b = encode_policy_type(&long);
    assert_eq!(a.len(), PolicyType::TOTAL_SIZE);
    assert_eq!(b.len(), PolicyType::TOTAL_SIZE);
    assert_eq!(a[0], 0);
    assert_eq!(&a[1..9], &10u64.to_le_bytes());
    assert_eq!(&a[10..15], &[0, 0, 0, 0, 0]);
    assert_eq!(&b[10..15], &[1, 255, 255, 255, 255]);
    assert_eq!(b[15], 6);
    assert_eq!(&b[16..24], &77u64.to_le_bytes());
    assert_eq!(decode_policy_type(&a), Some(short));
    assert_eq!(decode_policy_type(&b), Some(long));
}

#[test]
fn policy_type_decoding_rejects_other_bytes() {
    let mut due_now = subscription(5, PaymentFrequency::Monthly, Some(3));
    if let PolicyType::Subscription { next_payment_due, padding, .. } = &mut due_now {
        *next_payment_due = -12345;
        padding[96] = 7;
    }
    let bytes = encode_policy_type(&due_now);
    assert_eq!(decode_policy_type(&bytes), Some(due_now));
    assert_eq!(decode_policy_type(&bytes[..128]), None);
    let mut bad = bytes.clone();
    bad[0] = 1;
    assert_eq!(decode_policy_type(&bad), None);
    let mut bad = bytes.clone();
    bad[9] = 2;
    assert_eq!(decode_policy_type(&bad), None);
    let mut bad = bytes.clone();
    bad[15] = 7;
    assert_eq!(decode_policy_type(&bad), None);
    let mut bad = bytes.clone();
    bad[16] = 1;
    assert_eq!(decode_policy_type(&bad), None);
}
