//! The settlement engine: one atomic charge of a payment policy.
use crate::error::RecurringPaymentsError;
use crate::fees::{bps_share, calculate_fees, fees_fit, FeeSplit};
use crate::schedule::{calculate_next_payment_due, is_next_due, schedule_overflows};
use crate::state::{
    Address, PaymentGateway, PaymentPolicy, PaymentRecord, PaymentStatus, ProgramConfig,
    UserPayment,
};
use vstd::prelude::*;

verus! {

/// The payer's token account, as the ledger reports it.
#[derive(Clone, Copy, Debug, PartialEq, Eq)]
pub struct TokenAccountState {
    pub address: Address,
    pub mint: Address,
    pub owner: Address,
    /// Spendable balance.
    pub amount: u64,
    /// The authority allowed to move funds without the owner's signature.
    pub delegate: Option<Address>,
    /// What is left of the delegate's allowance.
    pub delegated_amount: u64,
}

/// Whether `expected_delegate` holds the allowance on `token_account`.
pub fn token_account_has_delegate(token_account: &TokenAccountState, expected_delegate: &Address) -> (r:
    bool)
    ensures
        r == (token_account.delegate == Some(*expected_delegate)),
{
    match token_account.delegate {
        Some(delegate) => delegate == *expected_delegate,
        None => false,
    }
}

/// Where one transfer of a settlement goes.
#[derive(Clone, Copy, Debug, PartialEq, Eq, Structural)]
pub enum TransferTarget {
    /// The policy's recipient.
    Recipient,
    /// The gateway's fee recipient.
    GatewayFeeRecipient,
    /// The protocol's fee recipient.
    ProtocolFeeRecipient,
}

/// One movement of funds out of the payer's account under the allowance.
#[derive(Clone, Copy, Debug, PartialEq, Eq, Structural)]
pub struct Transfer {
    pub target: TransferTarget,
    pub amount: u64,
}

/// The transfers of a split, in order recipient, gateway, protocol, leaving
/// out those of amount zero.
pub open spec fn nonzero_transfers(fees: FeeSplit) -> Seq<Transfer> {
    (if fees.recipient_amount > 0 {
        seq![Transfer { target: TransferTarget::Recipient, amount: fees.recipient_amount }]
    } else {
        seq![]
    }) + (if fees.gateway_fee > 0 {
        seq![Transfer { target: TransferTarget::GatewayFeeRecipient, amount: fees.gateway_fee }]
    } else {
        seq![]
    }) + (if fees.protocol_fee > 0 {
        seq![Transfer { target: TransferTarget::ProtocolFeeRecipient, amount: fees.protocol_fee }]
    } else {
        seq![]
    })
}

/// The transfers that carry out `fees`, skipping those of amount zero.
pub fn planned_transfers(fees: &FeeSplit) -> (r: Vec<Transfer>)
    ensures
        r@ == nonzero_transfers(*fees),
{
    let mut transfers: Vec<Transfer> = Vec::new();
    if fees.recipient_amount > 0 {
        transfers.push(Transfer { target: TransferTarget::Recipient, amount: fees.recipient_amount });
    }
    if fees.gateway_fee > 0 {
        transfers.push(
            Transfer { target: TransferTarget::GatewayFeeRecipient, amount: fees.gateway_fee },
        );
    }
    if fees.protocol_fee > 0 {
        transfers.push(
            Transfer { target: TransferTarget::ProtocolFeeRecipient, amount: fees.protocol_fee },
        );
    }
    assert(transfers@ =~= nonzero_transfers(*fees));
    transfers
}

/// What a successful charge hands to the ledger and to the event log.
#[derive(Clone, Debug, PartialEq, Eq)]
pub struct Settlement {
    pub fees: FeeSplit,
    /// To be made in order, all drawn from the payer's account under the allowance.
    pub transfers: Vec<Transfer>,
    pub record: PaymentRecord,
}

/// The records one charge reads and writes.
#[derive(Clone, Copy, Debug, PartialEq, Eq)]
pub struct ExecutePayment {
    /// Who triggers the charge.
    pub fee_payer: Address,
    /// The authority the payer granted the allowance to.
    pub payments_delegate: Address,
    pub payment_policy_key: Address,
    pub payment_policy: PaymentPolicy,
    pub user_payment_key: Address,
    pub user_payment: UserPayment,
    pub gateway_key: Address,
    pub gateway: PaymentGateway,
    pub config: ProgramConfig,
    pub user_token_account: TokenAccountState,
}

impl ExecutePayment {
    pub open spec fn amount(self) -> u64 {
        self.payment_policy.policy_type.amount()
    }

    pub open spec fn due(self) -> i64 {
        self.payment_policy.policy_type.next_payment_due()
    }

    /// The gateway is active and is the policy's, and the caller is its signer
    /// or the policy's owner.
    pub open spec fn caller_authorized(self) -> bool {
        &&& self.gateway.is_active
        &&& self.gateway_key == self.payment_policy.gateway
        &&& (self.gateway.signer == self.fee_payer || self.user_payment.owner == self.fee_payer)
    }

    /// The user payment record is active, is the policy's parent, and names the
    /// token account given.
    pub open spec fn payer_matches(self) -> bool {
        &&& self.user_payment.is_active
        &&& self.payment_policy.user_payment == self.user_payment_key
        &&& self.user_token_account.address == self.user_payment.token_account
        &&& self.user_token_account.mint == self.user_payment.token_mint
    }

    /// The first precondition of a charge at `now` that fails, if any.
    pub open spec fn rejection(self, now: i64) -> Option<RecurringPaymentsError> {
        if self.config.emergency_pause {
            Some(RecurringPaymentsError::ProgramPaused)
        } else if !self.caller_authorized() || !self.payer_matches() {
            Some(RecurringPaymentsError::Unauthorized)
        } else if self.payment_policy.status != PaymentStatus::Active {
            Some(RecurringPaymentsError::PolicyPaused)
        } else if self.user_token_account.delegate != Some(self.payments_delegate) {
            Some(RecurringPaymentsError::NoDelegateSet)
        } else if self.user_token_account.delegated_amount < self.amount() {
            Some(RecurringPaymentsError::InsufficientDelegatedAmount)
        } else if now < self.due() {
            Some(RecurringPaymentsError::PaymentNotDue)
        } else if self.user_token_account.amount < self.amount() {
            Some(RecurringPaymentsError::InsufficientBalance)
        } else if !self.payment_policy.policy_type.payment_frequency().is_valid() {
            Some(RecurringPaymentsError::InvalidFrequency)
        } else {
            None
        }
    }

    /// Some number computed by a charge at `now` would not fit its type.
    pub open spec fn settlement_overflows(self, now: i64) -> bool {
        ||| !fees_fit(
            self.amount() as int,
            self.gateway.gateway_fee_bps as int,
            self.config.protocol_fee_bps as int,
        )
        ||| schedule_overflows(
            self.due() as int,
            self.payment_policy.policy_type.payment_frequency(),
            now as int,
        )
        ||| self.payment_policy.total_paid + self.amount() > u64::MAX
        ||| self.payment_policy.payment_count + 1 > u32::MAX
        ||| self.gateway.total_processed + self.amount() > u64::MAX
    }

    /// The policy's renewal cap is reached at `count` charges.
    pub open spec fn renewals_exhausted(self, count: int) -> bool {
        match self.payment_policy.policy_type.max_renewals() {
            Some(max) => count >= max,
            None => false,
        }
    }

    /// The policy after a charge at `now` that moves its due date to `due`.
    pub open spec fn charged_policy(self, now: i64, due: i64) -> PaymentPolicy {
        let count = self.payment_policy.payment_count + 1;
        PaymentPolicy {
            policy_type: self.payment_policy.policy_type.with_next_payment_due(due),
            status: if self.renewals_exhausted(count) {
                PaymentStatus::Paused
            } else {
                self.payment_policy.status
            },
            total_paid: (self.payment_policy.total_paid + self.amount()) as u64,
            payment_count: count as u32,
            updated_at: now,
            ..self.payment_policy
        }
    }

    /// All records after a charge at `now` that moves the policy's due date to `due`.
    pub open spec fn charged(self, now: i64, due: i64) -> ExecutePayment {
        ExecutePayment {
            payment_policy: self.charged_policy(now, due),
            gateway: PaymentGateway {
                total_processed: (self.gateway.total_processed + self.amount()) as u64,
                ..self.gateway
            },
            user_payment: UserPayment { updated_at: now, ..self.user_payment },
            ..self
        }
    }
}

/// Charges a policy at time `now`, all or nothing.
///
/// The preconditions are checked in order (see `rejection`); the first that
/// fails is the error. Then the amount is split by basis points, the due date
/// is advanced from the previous due date past `now`, and the counters grow;
/// a result that does not fit its type fails with `ArithmeticOverflow`. On any
/// failure no record changes. On success the policy's count and total grow,
/// it pauses when its renewal cap is reached, the gateway's total grows, and
/// the transfers to make and the payment record are returned.
pub fn handler_execute_payment(ctx: &mut ExecutePayment, now: i64) -> (r: Result<
    Settlement,
    RecurringPaymentsError,
>)
    ensures
        old(ctx).rejection(now) matches Some(e) ==> r == Err::<Settlement, _>(e),
        old(ctx).rejection(now) is None ==> (r is Err <==> old(ctx).settlement_overflows(now)),
        old(ctx).rejection(now) is None && r is Err ==> r == Err::<Settlement, _>(
            RecurringPaymentsError::ArithmeticOverflow,
        ),
        r is Err ==> *final(ctx) == *old(ctx),
        r matches Ok(s) ==> {
            let o = *old(ctx);
            let due = final(ctx).payment_policy.policy_type.next_payment_due();
            &&& is_next_due(
                o.due() as int,
                o.payment_policy.policy_type.payment_frequency(),
                now as int,
                due as int,
            )
            &&& *final(ctx) == o.charged(now, due)
            &&& s.fees.gateway_fee == bps_share(o.amount() as int, o.gateway.gateway_fee_bps as int)
            &&& s.fees.protocol_fee == bps_share(
                o.amount() as int,
                o.config.protocol_fee_bps as int,
            )
            &&& s.fees.recipient_amount == o.amount() - s.fees.gateway_fee - s.fees.protocol_fee
            &&& s.transfers@ == nonzero_transfers(s.fees)
            &&& s.record == PaymentRecord {
                payment_policy: o.payment_policy_key,
                gateway: o.gateway_key,
                amount: o.amount(),
                timestamp: now,
                memo: o.payment_policy.memo,
                record_id: (o.payment_policy.payment_count + 1) as u32,
            }
        },
{
    let amount = ctx.payment_policy.policy_type.get_amount();
    let due = ctx.payment_policy.policy_type.get_next_payment_due();
    let frequency = ctx.payment_policy.policy_type.get_payment_frequency();
    if ctx.config.emergency_pause {
        return Err(RecurringPaymentsError::ProgramPaused);
    }
    let caller_is_signer = ctx.gateway.signer == ctx.fee_payer;
    let caller_is_owner = ctx.user_payment.owner == ctx.fee_payer;
    if !ctx.gateway.is_active || !(ctx.gateway_key == ctx.payment_policy.gateway) || !(
    caller_is_signer || caller_is_owner) {
        return Err(RecurringPaymentsError::Unauthorized);
    }
    if !ctx.user_payment.is_active || !(ctx.payment_policy.user_payment == ctx.user_payment_key)
        || !(ctx.user_token_account.address == ctx.user_payment.token_account) || !(
    ctx.user_token_account.mint == ctx.user_payment.token_mint) {
        return Err(RecurringPaymentsError::Unauthorized);
    }
    if ctx.payment_policy.status != PaymentStatus::Active {
        return Err(RecurringPaymentsError::PolicyPaused);
    }
    if !token_account_has_delegate(&ctx.user_token_account, &ctx.payments_delegate) {
        return Err(RecurringPaymentsError::NoDelegateSet);
    }
    if ctx.user_token_account.delegated_amount < amount {
        return Err(RecurringPaymentsError::InsufficientDelegatedAmount);
    }
    if now < due {
        return Err(RecurringPaymentsError::PaymentNotDue);
    }
    if ctx.user_token_account.amount < amount {
        return Err(RecurringPaymentsError::InsufficientBalance);
    }
    match frequency.validate() {
        Ok(()) => {},
        Err(e) => return Err(e),
    }
    let fees = match calculate_fees(amount, ctx.gateway.gateway_fee_bps, ctx.config.protocol_fee_bps) {
        Ok(fees) => fees,
        Err(e) => return Err(e),
    };
    let new_due = match calculate_next_payment_due(due, &frequency, now) {
        Ok(d) => d,
        Err(e) => return Err(e),
    };
    let total_paid = match ctx.payment_policy.total_paid.checked_add(amount) {
        Some(t) => t,
        None => return Err(RecurringPaymentsError::ArithmeticOverflow),
    };
    let count = match ctx.payment_policy.payment_count.checked_add(1) {
        Some(c) => c,
        None => return Err(RecurringPaymentsError::ArithmeticOverflow),
    };
    let processed = match ctx.gateway.total_processed.checked_add(amount) {
        Some(t) => t,
        None => return Err(RecurringPaymentsError::ArithmeticOverflow),
    };
    let ghost o = *ctx;
    // Every check has passed: commit.

    ctx.payment_policy.policy_type.set_next_payment_due(new_due);
    ctx.payment_policy.total_paid = total_paid;
    ctx.payment_policy.payment_count = count;
    ctx.payment_policy.updated_at = now;
    match ctx.payment_policy.policy_type.get_max_renewals() {
        Some(max) => {
            if count >= max {
                ctx.payment_policy.status = PaymentStatus::Paused;
            }
        },
        None => {},
    }
    ctx.gateway.total_processed = processed;
    ctx.user_payment.updated_at = now;
    let transfers = planned_transfers(&fees);
    let record = PaymentRecord {
        payment_policy: ctx.payment_policy_key,
        gateway: ctx.gateway_key,
        amount,
        timestamp: now,
        memo: ctx.payment_policy.memo,
        record_id: count,
    };
    assert(*ctx == o.charged(now, new_due));
    Ok(Settlement { fees, transfers, record })
}

} // verus!
