//! Creating, pausing, resuming and deleting payment policies.
use crate::error::RecurringPaymentsError;
use crate::state::{
    Address, PaymentGateway, PaymentPolicy, PaymentPolicyCreated, PaymentPolicyDeleted,
    PaymentPolicyStatusChanged, PaymentStatus, PolicyType, ProgramConfig, UserPayment,
};
use vstd::prelude::*;

verus! {

/// `policy_type` with a due date at or before `now` moved to `now`, so that the
/// first charge is due at once.
pub open spec fn snapped_policy_type(policy_type: PolicyType, now: i64) -> PolicyType {
    if policy_type.next_payment_due() <= now {
        policy_type.with_next_payment_due(now)
    } else {
        policy_type
    }
}

/// The records that creating a policy reads and writes.
#[derive(Clone, Copy, Debug, PartialEq, Eq)]
pub struct CreatePaymentPolicy {
    /// The owner creating the policy.
    pub user: Address,
    pub user_payment_key: Address,
    pub user_payment: UserPayment,
    pub recipient: Address,
    pub token_mint: Address,
    pub gateway_key: Address,
    pub gateway: PaymentGateway,
    pub config: ProgramConfig,
    /// The record being created; its earlier contents are overwritten.
    pub payment_policy: PaymentPolicy,
}

impl CreatePaymentPolicy {
    /// The first reason to refuse creating a policy of `policy_type`, if any.
    pub open spec fn rejection(self, policy_type: PolicyType) -> Option<RecurringPaymentsError> {
        if self.user_payment.owner != self.user || self.user_payment.token_mint != self.token_mint
            || !self.gateway.is_active {
            Some(RecurringPaymentsError::Unauthorized)
        } else if policy_type.amount() == 0 {
            Some(RecurringPaymentsError::InvalidAmount)
        } else if !policy_type.payment_frequency().is_valid() {
            Some(RecurringPaymentsError::InvalidFrequency)
        } else if policy_type.max_renewals() == Some(0u32) {
            Some(RecurringPaymentsError::InvalidInterval)
        } else if self.user_payment.active_policies_count >= self.config.max_policies_per_user {
            Some(RecurringPaymentsError::MaxPoliciesReached)
        } else {
            None
        }
    }

    /// The new policy: active, nothing paid yet, numbered one past the owner's
    /// count of active policies.
    pub open spec fn new_policy(
        self,
        policy_type: PolicyType,
        memo: [u8; 64],
        now: i64,
        bump: u8,
    ) -> PaymentPolicy {
        PaymentPolicy {
            user_payment: self.user_payment_key,
            recipient: self.recipient,
            gateway: self.gateway_key,
            policy_type: snapped_policy_type(policy_type, now),
            status: PaymentStatus::Active,
            memo,
            total_paid: 0,
            payment_count: 0,
            created_at: now,
            updated_at: now,
            policy_id: (self.user_payment.active_policies_count + 1) as u32,
            bump,
        }
    }

    /// All records after creating the policy.
    pub open spec fn created(
        self,
        policy_type: PolicyType,
        memo: [u8; 64],
        now: i64,
        bump: u8,
    ) -> CreatePaymentPolicy {
        CreatePaymentPolicy {
            payment_policy: self.new_policy(policy_type, memo, now, bump),
            user_payment: UserPayment {
                active_policies_count: (self.user_payment.active_policies_count + 1) as u32,
                updated_at: now,
                ..self.user_payment
            },
            ..self
        }
    }
}

/// Creates a policy of `policy_type` for the owner of `ctx.user_payment`.
///
/// Refused (see `rejection`) unless the caller owns the user payment record
/// and the gateway is active, the parameters are valid, and the owner is below
/// the per-user cap; a refusal changes nothing. A due date at or before `now`
/// becomes `now`. The policy is numbered one past the owner's count of active
/// policies, and the count grows by one.
pub fn handler_create_payment_policy(
    ctx: &mut CreatePaymentPolicy,
    policy_type: PolicyType,
    memo: [u8; 64],
    now: i64,
    bump: u8,
) -> (r: Result<PaymentPolicyCreated, RecurringPaymentsError>)
    ensures
        old(ctx).rejection(policy_type) matches Some(e) ==> r == Err::<PaymentPolicyCreated, _>(e)
            && *final(ctx) == *old(ctx),
        old(ctx).rejection(policy_type) is None ==> {
            let p = old(ctx).new_policy(policy_type, memo, now, bump);
            &&& *final(ctx) == old(ctx).created(policy_type, memo, now, bump)
            &&& r == Ok::<_, RecurringPaymentsError>(
                PaymentPolicyCreated {
                    user_payment: p.user_payment,
                    recipient: p.recipient,
                    gateway: p.gateway,
                    policy_id: p.policy_id,
                    policy_type: p.policy_type,
                    memo,
                },
            )
        },
{
    if !(ctx.user_payment.owner == ctx.user) || !(ctx.user_payment.token_mint == ctx.token_mint)
        || !ctx.gateway.is_active {
        return Err(RecurringPaymentsError::Unauthorized);
    }
    match policy_type.validate() {
        Ok(()) => {},
        Err(e) => return Err(e),
    }
    if ctx.user_payment.active_policies_count >= ctx.config.max_policies_per_user {
        return Err(RecurringPaymentsError::MaxPoliciesReached);
    }
    let mut adjusted = policy_type;
    if adjusted.get_next_payment_due() <= now {
        adjusted.set_next_payment_due(now);
    }
    let policy_id: u32 = ctx.user_payment.active_policies_count + 1;
    ctx.payment_policy = PaymentPolicy {
        user_payment: ctx.user_payment_key,
        recipient: ctx.recipient,
        gateway: ctx.gateway_key,
        policy_type: adjusted,
        status: PaymentStatus::Active,
        memo,
        total_paid: 0,
        payment_count: 0,
        created_at: now,
        updated_at: now,
        policy_id,
        bump,
    };
    ctx.user_payment.active_policies_count = policy_id;
    ctx.user_payment.updated_at = now;
    Ok(
        PaymentPolicyCreated {
            user_payment: ctx.payment_policy.user_payment,
            recipient: ctx.payment_policy.recipient,
            gateway: ctx.payment_policy.gateway,
            policy_id,
            policy_type: adjusted,
            memo,
        },
    )
}

/// Why an owner's request on policy `policy_id` is refused, if it is: the
/// program is paused, the caller does not own the user payment record of that
/// mint, or the policy is not that record's policy `policy_id`.
pub open spec fn owner_request_rejection(
    config: ProgramConfig,
    owner: Address,
    user_payment_key: Address,
    user_payment: UserPayment,
    token_mint: Address,
    payment_policy: PaymentPolicy,
    policy_id: u32,
) -> Option<RecurringPaymentsError> {
    if config.emergency_pause {
        Some(RecurringPaymentsError::ProgramPaused)
    } else if user_payment.owner != owner || user_payment.token_mint != token_mint {
        Some(RecurringPaymentsError::Unauthorized)
    } else if payment_policy.user_payment != user_payment_key || payment_policy.policy_id
        != policy_id {
        Some(RecurringPaymentsError::PolicyNotFound)
    } else {
        None
    }
}

fn check_owner_request(
    config: &ProgramConfig,
    owner: &Address,
    user_payment_key: &Address,
    user_payment: &UserPayment,
    token_mint: &Address,
    payment_policy: &PaymentPolicy,
    policy_id: u32,
) -> (r: Result<(), RecurringPaymentsError>)
    ensures
        match owner_request_rejection(
            *config,
            *owner,
            *user_payment_key,
            *user_payment,
            *token_mint,
            *payment_policy,
            policy_id,
        ) {
            Some(e) => r == Err::<(), _>(e),
            None => r is Ok,
        },
{
    if config.emergency_pause {
        return Err(RecurringPaymentsError::ProgramPaused);
    }
    if !(user_payment.owner == *owner) || !(user_payment.token_mint == *token_mint) {
        return Err(RecurringPaymentsError::Unauthorized);
    }
    if !(payment_policy.user_payment == *user_payment_key) || payment_policy.policy_id
        != policy_id {
        return Err(RecurringPaymentsError::PolicyNotFound);
    }
    Ok(())
}

/// The records that changing a policy's status reads and writes.
#[derive(Clone, Copy, Debug, PartialEq, Eq)]
pub struct ChangePaymentPolicyStatus {
    pub owner: Address,
    pub user_payment_key: Address,
    pub user_payment: UserPayment,
    pub token_mint: Address,
    pub payment_policy_key: Address,
    pub payment_policy: PaymentPolicy,
    pub config: ProgramConfig,
}

impl ChangePaymentPolicyStatus {
    pub open spec fn rejection(self, policy_id: u32) -> Option<RecurringPaymentsError> {
        owner_request_rejection(
            self.config,
            self.owner,
            self.user_payment_key,
            self.user_payment,
            self.token_mint,
            self.payment_policy,
            policy_id,
        )
    }
}

/// Sets the status of policy `policy_id` at the owner's request, whatever its
/// schedule: pausing stops charges, resuming allows them again. Refused (see
/// `owner_request_rejection`) without any change when the program is paused or
/// the request does not come from the policy's owner.
pub fn handler_change_payment_policy_status(
    ctx: &mut ChangePaymentPolicyStatus,
    policy_id: u32,
    new_status: PaymentStatus,
    now: i64,
) -> (r: Result<PaymentPolicyStatusChanged, RecurringPaymentsError>)
    ensures
        old(ctx).rejection(policy_id) matches Some(e) ==> r == Err::<
            PaymentPolicyStatusChanged,
            _,
        >(e) && *final(ctx) == *old(ctx),
        old(ctx).rejection(policy_id) is None ==> {
            &&& *final(ctx) == ChangePaymentPolicyStatus {
                payment_policy: PaymentPolicy {
                    status: new_status,
                    updated_at: now,
                    ..old(ctx).payment_policy
                },
                user_payment: UserPayment { updated_at: now, ..old(ctx).user_payment },
                ..*old(ctx)
            }
            &&& r == Ok::<_, RecurringPaymentsError>(
                PaymentPolicyStatusChanged {
                    payment_policy: old(ctx).payment_policy_key,
                    old_status: old(ctx).payment_policy.status,
                    new_status,
                },
            )
        },
{
    match check_owner_request(
        &ctx.config,
        &ctx.owner,
        &ctx.user_payment_key,
        &ctx.user_payment,
        &ctx.token_mint,
        &ctx.payment_policy,
        policy_id,
    ) {
        Ok(()) => {},
        Err(e) => return Err(e),
    }
    let old_status = ctx.payment_policy.status;
    ctx.payment_policy.status = new_status;
    ctx.payment_policy.updated_at = now;
    ctx.user_payment.updated_at = now;
    Ok(
        PaymentPolicyStatusChanged {
            payment_policy: ctx.payment_policy_key,
            old_status,
            new_status,
        },
    )
}

/// The records that deleting a policy reads and writes.
#[derive(Clone, Copy, Debug, PartialEq, Eq)]
pub struct DeletePaymentPolicy {
    pub owner: Address,
    pub user_payment_key: Address,
    pub user_payment: UserPayment,
    pub token_mint: Address,
    pub payment_policy_key: Address,
    pub payment_policy: PaymentPolicy,
    pub config: ProgramConfig,
}

impl DeletePaymentPolicy {
    pub open spec fn rejection(self, policy_id: u32) -> Option<RecurringPaymentsError> {
        owner_request_rejection(
            self.config,
            self.owner,
            self.user_payment_key,
            self.user_payment,
            self.token_mint,
            self.payment_policy,
            policy_id,
        )
    }

    /// The owner's record after the deletion: one active policy fewer, never
    /// below zero.
    pub open spec fn user_payment_after(self, now: i64) -> UserPayment {
        UserPayment {
            active_policies_count: if self.user_payment.active_policies_count > 0 {
                (self.user_payment.active_policies_count - 1) as u32
            } else {
                0
            },
            updated_at: now,
            ..self.user_payment
        }
    }
}

/// Deletes policy `policy_id` at its owner's request: the owner's count of
/// active policies drops by one (never below zero). Refused without any change
/// as `owner_request_rejection` says. Removing the record itself is left to
/// the record store.
pub fn handler_delete_payment_policy(ctx: &mut DeletePaymentPolicy, policy_id: u32, now: i64) -> (r:
    Result<PaymentPolicyDeleted, RecurringPaymentsError>)
    ensures
        old(ctx).rejection(policy_id) matches Some(e) ==> r == Err::<PaymentPolicyDeleted, _>(e)
            && *final(ctx) == *old(ctx),
        old(ctx).rejection(policy_id) is None ==> {
            &&& *final(ctx) == DeletePaymentPolicy {
                user_payment: old(ctx).user_payment_after(now),
                ..*old(ctx)
            }
            &&& r == Ok::<_, RecurringPaymentsError>(
                PaymentPolicyDeleted {
                    payment_policy: old(ctx).payment_policy_key,
                    owner: old(ctx).user_payment.owner,
                    policy_id: old(ctx).payment_policy.policy_id,
                },
            )
        },
{
    match check_owner_request(
        &ctx.config,
        &ctx.owner,
        &ctx.user_payment_key,
        &ctx.user_payment,
        &ctx.token_mint,
        &ctx.payment_policy,
        policy_id,
    ) {
        Ok(()) => {},
        Err(e) => return Err(e),
    }
    let event = PaymentPolicyDeleted {
        payment_policy: ctx.payment_policy_key,
        owner: ctx.user_payment.owner,
        policy_id: ctx.payment_policy.policy_id,
    };
    ctx.user_payment.active_policies_count = if ctx.user_payment.active_policies_count > 0 {
        ctx.user_payment.active_policies_count - 1
    } else {
        0
    };
    ctx.user_payment.updated_at = now;
    Ok(event)
}

/// At the per-user cap, creating a policy is refused with `MaxPoliciesReached`;
/// once the owner has deleted one of their policies, the same creation is
/// accepted.
pub proof fn lemma_cap_released_by_delete(
    create: CreatePaymentPolicy,
    delete: DeletePaymentPolicy,
    policy_type: PolicyType,
    policy_id: u32,
    now: i64,
)
    requires
        create.user_payment.active_policies_count == create.config.max_policies_per_user,
        create.user_payment.active_policies_count > 0,
        create.user_payment.owner == create.user,
        create.user_payment.token_mint == create.token_mint,
        create.gateway.is_active,
        policy_type.is_valid(),
        delete.user_payment == create.user_payment,
        delete.rejection(policy_id) is None,
    ensures
        create.rejection(policy_type) == Some(RecurringPaymentsError::MaxPoliciesReached),
        (CreatePaymentPolicy { user_payment: delete.user_payment_after(now), ..create }).rejection(
            policy_type,
        ) is None,
{
}

} // verus!
