use recurring_payments::error::RecurringPaymentsError;
use recurring_payments::gateway::{
    handler_change_gateway_fee_recipient, handler_change_gateway_signer,
    handler_create_payment_gateway, handler_delete_payment_gateway, ChangeGatewayFeeRecipient,
    ChangeGatewaySigner, CreatePaymentGateway, DeletePaymentGateway,
};
use recurring_payments::policy::{
    handler_change_payment_policy_status, handler_create_payment_policy,
    handler_delete_payment_policy, ChangePaymentPolicyStatus, CreatePaymentPolicy,
    DeletePaymentPolicy,
};
use recurring_payments::settlement::TokenAccountState;
use recurring_payments::setup::{
    handle_initialize, handler_create_user_payment, CreateUserPayment, Initialize,
};
use recurring_payments::state::{
    Address, PaymentFrequency, PaymentGateway, PaymentPolicy, PaymentStatus, PolicyType,
    ProgramConfig, UserPayment,
};

const NOW: i64 = 1704067200;

fn addr(b: u8) -> Address {
    Address { bytes: [b; 32] }
}

fn subscription(amount: u64, due: i64, max: Option<u32>) -> PolicyType {
    PolicyType::Subscription {
        amount,
        auto_renew: false,
        max_renewals: max,
        payment_frequency: PaymentFrequency::Monthly,
        next_payment_due: due,
        padding: [0; 97],
    }
}

fn config(max_policies_per_user: u32) -> ProgramConfig {
    ProgramConfig {
        admin: addr(1),
        fee_recipient: addr(2),
        protocol_fee_bps: 50,
        max_policies_per_user,
        emergency_pause: false,
        bump: 255,
    }
}

fn user_payment(count: u32) -> UserPayment {
    UserPayment {
        owner: addr(8),
        token_account: addr(9),
        token_mint: addr(10),
        active_policies_count: count,
        created_at: 1,
        updated_at: 1,
        is_active: true,
        bump: 250,
    }
}

fn gateway() -> PaymentGateway {
    PaymentGateway {
        authority: addr(3),
        fee_recipient: addr(4),
        gateway_fee_bps: 100,
        is_active: true,
        total_processed: 0,
        created_at: 1,
        bump: 249,
        name: [b'g'; 32],
        url: [b'u'; 64],
        signer: addr(5),
    }
}

fn blank_policy() -> PaymentPolicy {
    PaymentPolicy {
        user_payment: addr(0),
        recipient: addr(0),
        gateway: addr(0),
        policy_type: subscription(0, 0, None),
        status: PaymentStatus::Paused,
        memo: [0; 64],
        total_paid: 0,
        payment_count: 0,
        created_at: 0,
        updated_at: 0,
        policy_id: 0,
        bump: 0,
    }
}

fn create_ctx(count: u32, max: u32) -> CreatePaymentPolicy {
    CreatePaymentPolicy {
        user: addr(8),
        user_payment_key: addr(7),
        user_payment: user_payment(count),
        recipient: addr(11),
        token_mint: addr(10),
        gateway_key: addr(6),
        gateway: gateway(),
        config: config(max),
        payment_policy: blank_policy(),
    }
}

fn stored_policy(policy_id: u32) -> PaymentPolicy {
    PaymentPolicy {
        user_payment: addr(7),
        recipient: addr(11),
        gateway: addr(6),
        policy_type: subscription(500, NOW, None),
        status: PaymentStatus::Active,
        memo: [3; 64],
        total_paid: 0,
        payment_count: 0,
        created_at: 1,
        updated_at: 1,
        policy_id,
        bump: 248,
    }
}

fn delete_ctx(count: u32) -> DeletePaymentPolicy {
    DeletePaymentPolicy {
        owner: addr(8),
        user_payment_key: addr(7),
        user_payment: user_payment(count),
        token_mint: addr(10),
        payment_policy_key: addr(12),
        payment_policy: stored_policy(2),
        config: config(10),
    }
}

fn status_ctx() -> ChangePaymentPolicyStatus {
    ChangePaymentPolicyStatus {
        owner: addr(8),
        user_payment_key: addr(7),
        user_payment: user_payment(2),
        token_mint: addr(10),
        payment_policy_key: addr(12),
        payment_policy: stored_policy(2),
        config: config(10),
    }
}

#[test]
fn create_policy_in_the_past_is_due_now() {
    let mut ctx = create_ctx(2, 10);
    let event = handler_create_payment_policy(&mut ctx, subscription(500, NOW - 50, None), [4; 64], NOW, 7)
        .unwrap();
    let p = ctx.payment_policy;
    assert_eq!(p.policy_type, subscription(500, NOW, None));
    assert_eq!(p.policy_id, 3);
    assert_eq!(p.status, PaymentStatus::Active);
    assert_eq!(p.user_payment, addr(7));
    assert_eq!(p.recipient, addr(11));
    assert_eq!(p.gateway, addr(6));
    assert_eq!(p.memo, [4; 64]);
    assert_eq!((p.total_paid, p.payment_count), (0, 0));
    assert_eq!((p.created_at, p.updated_at, p.bump), (NOW, NOW, 7));
    assert_eq!(ctx.user_payment.active_policies_count, 3);
    assert_eq!(ctx.user_payment.updated_at, NOW);
    assert_eq!(event.policy_id, 3);
    assert_eq!(event.policy_type, subscription(500, NOW, None));
    assert_eq!(event.memo, [4; 64]);
}

#[test]
fn create_policy_in_the_future_keeps_due_date() {
    let mut ctx = create_ctx(0, 10);
    handler_create_payment_policy(&mut ctx, subscription(500, NOW + 99, Some(2)), [0; 64], NOW, 7)
        .unwrap();
    assert_eq!(ctx.payment_policy.policy_type, subscription(500, NOW + 99, Some(2)));
    assert_eq!(ctx.payment_policy.policy_id, 1);
}

fn assert_create_refused(mut ctx: CreatePaymentPolicy, policy_type: PolicyType, expected: RecurringPaymentsError) {
    let before = ctx;
    assert_eq!(handler_create_payment_policy(&mut ctx, policy_type, [0; 64], NOW, 7), Err(expected));
    assert_eq!(ctx, before);
}

#[test]
fn create_policy_refusals() {
    let mut ctx = create_ctx(0, 10);
    ctx.user = addr(99);
    assert_create_refused(ctx, subscription(500, NOW, None), RecurringPaymentsError::Unauthorized);
    let mut ctx = create_ctx(0, 10);
    ctx.gateway.is_active = false;
    assert_create_refused(ctx, subscription(500, NOW, None), RecurringPaymentsError::Unauthorized);
    let ctx = create_ctx(0, 10);
    assert_create_refused(ctx, subscription(0, NOW, None), RecurringPaymentsError::InvalidAmount);
    assert_create_refused(ctx, subscription(5, NOW, Some(0)), RecurringPaymentsError::InvalidInterval);
    let mut bad = subscription(5, NOW, None);
    if let PolicyType::Subscription { payment_frequency, .. } = &mut bad {
        *payment_frequency = PaymentFrequency::Custom(0);
    }
    assert_create_refused(ctx, bad, RecurringPaymentsError::InvalidFrequency);
}

#[test]
fn cap_refuses_then_delete_frees_a_slot() {
    let ctx = create_ctx(3, 3);
    assert_create_refused(ctx, subscription(500, NOW, None), RecurringPaymentsError::MaxPoliciesReached);

    let mut del = delete_ctx(3);
    let event = handler_delete_payment_policy(&mut del, 2, NOW).unwrap();
    assert_eq!(event.policy_id, 2);
    assert_eq!(event.owner, addr(8));
    assert_eq!(event.payment_policy, addr(12));
    assert_eq!(del.user_payment.active_policies_count, 2);
    assert_eq!(del.user_payment.updated_at, NOW);

    let mut ctx = create_ctx(3, 3);
    ctx.user_payment = del.user_payment;
    assert!(handler_create_payment_policy(&mut ctx, subscription(500, NOW, None), [0; 64], NOW, 7).is_ok());
    assert_eq!(ctx.user_payment.active_policies_count, 3);
}

#[test]
fn delete_never_goes_below_zero() {
    let mut del = delete_ctx(0);
    handler_delete_payment_policy(&mut del, 2, NOW).unwrap();
    assert_eq!(del.user_payment.active_policies_count, 0);
}

#[test]
fn delete_refusals() {
    let mut del = delete_ctx(2);
    del.config.emergency_pause = true;
    let before = del;
    assert_eq!(handler_delete_payment_policy(&mut del, 2, NOW), Err(RecurringPaymentsError::ProgramPaused));
    assert_eq!(del, before);
    let mut del = delete_ctx(2);
    del.owner = addr(99);
    assert_eq!(handler_delete_payment_policy(&mut del, 2, NOW), Err(RecurringPaymentsError::Unauthorized));
    let mut del = delete_ctx(2);
    assert_eq!(handler_delete_payment_policy(&mut del, 5, NOW), Err(RecurringPaymentsError::PolicyNotFound));
    assert_eq!(del.user_payment.active_policies_count, 2);
}

#[test]
fn pause_and_resume_policy() {
    let mut ctx = status_ctx();
    let event = handler_change_payment_policy_status(&mut ctx, 2, PaymentStatus::Paused, NOW).unwrap();
    assert_eq!(event.old_status, PaymentStatus::Active);
    assert_eq!(event.new_status, PaymentStatus::Paused);
    assert_eq!(event.payment_policy, addr(12));
    assert_eq!(ctx.payment_policy.status, PaymentStatus::Paused);
    assert_eq!(ctx.payment_policy.updated_at, NOW);
    assert_eq!(ctx.user_payment.updated_at, NOW);
    let event = handler_change_payment_policy_status(&mut ctx, 2, PaymentStatus::Active, NOW + 1).unwrap();
    assert_eq!(event.old_status, PaymentStatus::Paused);
    assert_eq!(ctx.payment_policy.status, PaymentStatus::Active);
    assert_eq!(ctx.payment_policy.updated_at, NOW + 1);
}

#[test]
fn status_change_refusals() {
    let mut ctx = status_ctx();
    ctx.config.emergency_pause = true;
    assert_eq!(
        handler_change_payment_policy_status(&mut ctx, 2, PaymentStatus::Paused, NOW),
        Err(RecurringPaymentsError::ProgramPaused)
    );
    let mut ctx = status_ctx();
    ctx.owner = addr(5);
    assert_eq!(
        handler_change_payment_policy_status(&mut ctx, 2, PaymentStatus::Paused, NOW),
        Err(RecurringPaymentsError::Unauthorized)
    );
    let mut ctx = status_ctx();
    ctx.payment_policy.user_payment = addr(70);
    let before = ctx;
    assert_eq!(
        handler_change_payment_policy_status(&mut ctx, 2, PaymentStatus::Paused, NOW),
        Err(RecurringPaymentsError::PolicyNotFound)
    );
    assert_eq!(ctx, before);
}

fn create_gateway_ctx() -> CreatePaymentGateway {
    CreatePaymentGateway {
        admin: addr(1),
        authority: addr(3),
        config: config(10),
        fee_recipient: addr(4),
        gateway: PaymentGateway { is_active: false, ..gateway() },
    }
}

#[test]
fn create_gateway() {
    let mut ctx = create_gateway_ctx();
    let event = handler_create_payment_gateway(&mut ctx, 250, [b'n'; 32], [b'w'; 64], NOW, 9).unwrap();
    assert_eq!(
        ctx.gateway,
        PaymentGateway {
            authority: addr(3),
            fee_recipient: addr(4),
            gateway_fee_bps: 250,
            is_active: true,
            total_processed: 0,
            created_at: NOW,
            bump: 9,
            name: [b'n'; 32],
            url: [b'w'; 64],
            signer: addr(3),
        }
    );
    assert_eq!(event.gateway_fee_bps, 250);
    assert_eq!(event.authority, addr(3));
    assert_eq!(event.fee_recipient, addr(4));
}

#[test]
fn create_gateway_refusals() {
    let mut ctx = create_gateway_ctx();
    let before = ctx;
    assert_eq!(
        handler_create_payment_gateway(&mut ctx, 10001, [0; 32], [0; 64], NOW, 9),
        Err(RecurringPaymentsError::InvalidFeeBps)
    );
    assert_eq!(ctx, before);
    assert!(handler_create_payment_gateway(&mut ctx, 10000, [0; 32], [0; 64], NOW, 9).is_ok());
    let mut ctx = create_gateway_ctx();
    ctx.admin = addr(3);
    assert_eq!(
        handler_create_payment_gateway(&mut ctx, 100, [0; 32], [0; 64], NOW, 9),
        Err(RecurringPaymentsError::Unauthorized)
    );
}

#[test]
fn delete_gateway_only_when_inactive() {
    let mut ctx = DeletePaymentGateway { admin: addr(1), gateway_key: addr(6), gateway: gateway(), config: config(10) };
    assert_eq!(handler_delete_payment_gateway(&ctx), Err(RecurringPaymentsError::Unauthorized));
    ctx.gateway.is_active = false;
    let event = handler_delete_payment_gateway(&ctx).unwrap();
    assert_eq!(event.gateway, addr(6));
    assert_eq!(event.authority, addr(3));
    assert_eq!(event.name, [b'g'; 32]);
    ctx.config.emergency_pause = true;
    assert_eq!(handler_delete_payment_gateway(&ctx), Err(RecurringPaymentsError::ProgramPaused));
    ctx.admin = addr(2);
    assert_eq!(handler_delete_payment_gateway(&ctx), Err(RecurringPaymentsError::Unauthorized));
}

#[test]
fn change_gateway_signer() {
    let mut ctx = ChangeGatewaySigner { authority: addr(3), gateway_key: addr(6), gateway: gateway(), new_signer: addr(20), config: config(10) };
    let event = handler_change_gateway_signer(&mut ctx).unwrap();
    assert_eq!(ctx.gateway.signer, addr(20));
    assert_eq!((event.gateway, event.old_signer, event.new_signer), (addr(6), addr(5), addr(20)));
    let mut ctx = ChangeGatewaySigner { authority: addr(5), gateway_key: addr(6), gateway: gateway(), new_signer: addr(20), config: config(10) };
    assert_eq!(handler_change_gateway_signer(&mut ctx), Err(RecurringPaymentsError::Unauthorized));
    assert_eq!(ctx.gateway.signer, addr(5));
    ctx.authority = addr(3);
    ctx.config.emergency_pause = true;
    assert_eq!(handler_change_gateway_signer(&mut ctx), Err(RecurringPaymentsError::ProgramPaused));
}

#[test]
fn change_gateway_fee_recipient() {
    let mut ctx = ChangeGatewayFeeRecipient { authority: addr(3), gateway_key: addr(6), gateway: gateway(), new_fee_recipient: addr(21), config: config(10) };
    let event = handler_change_gateway_fee_recipient(&mut ctx).unwrap();
    assert_eq!(ctx.gateway.fee_recipient, addr(21));
    assert_eq!((event.gateway, event.old_fee_recipient, event.new_fee_recipient), (addr(6), addr(4), addr(21)));
    let mut ctx = ChangeGatewayFeeRecipient { authority: addr(4), gateway_key: addr(6), gateway: gateway(), new_fee_recipient: addr(21), config: config(10) };
    assert_eq!(handler_change_gateway_fee_recipient(&mut ctx), Err(RecurringPaymentsError::Unauthorized));
    assert_eq!(ctx.gateway.fee_recipient, addr(4));
}

#[test]
fn initialize_config() {
    let mut ctx = Initialize { admin: addr(1), fee_recipient: addr(2), config: config(0) };
    let event = handle_initialize(&mut ctx, 50, 10, 255).unwrap();
    assert_eq!(ctx.config, config(10));
    assert_eq!((event.admin, event.fee_recipient, event.protocol_fee_bps, event.max_policies_per_user), (addr(1), addr(2), 50, 10));
    let before = ctx;
    assert_eq!(handle_initialize(&mut ctx, 10001, 10, 255), Err(RecurringPaymentsError::InvalidFeeBps));
    assert_eq!(ctx, before);
}

#[test]
fn create_user_payment_record() {
    let account = TokenAccountState { address: addr(9), mint: addr(10), owner: addr(8), amount: 0, delegate: None, delegated_amount: 0 };
    let mut ctx = CreateUserPayment { owner: addr(8), token_mint: addr(10), token_account: account, user_payment: user_payment(5) };
    let event = handler_create_user_payment(&mut ctx, NOW, 250).unwrap();
    assert_eq!(ctx.user_payment, UserPayment { active_policies_count: 0, created_at: NOW, updated_at: NOW, ..user_payment(0) });
    assert_eq!((event.owner, event.token_account, event.token_mint), (addr(8), addr(9), addr(10)));
    let mut ctx = CreateUserPayment { owner: addr(7), token_mint: addr(10), token_account: account, user_payment: user_payment(5) };
    assert_eq!(handler_create_user_payment(&mut ctx, NOW, 250), Err(RecurringPaymentsError::Unauthorized));
    assert_eq!(ctx.user_payment, user_payment(5));
}
