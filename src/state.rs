//! The records and events of the payment system, as plain values.
use crate::error::RecurringPaymentsError;
use vstd::prelude::*;

verus! {

/// A 32-byte account address.
#[derive(Clone, Copy, Debug)]
pub struct Address {
    pub bytes: [u8; 32],
}

impl PartialEq for Address {
    fn eq(&self, other: &Address) -> (r: bool) {
        let mut i: usize = 0;
        while i < 32
            invariant
                0 <= i <= 32,
                forall|j: int| 0 <= j < i ==> self.bytes[j] == other.bytes[j],
            decreases 32 - i,
        {
            if self.bytes[i] != other.bytes[i] {
                return false;
            }
            i = i + 1;
        }
        proof {
            broadcast use vstd::array::group_array_axioms;

            assert(self.bytes =~= other.bytes);
        }
        true
    }
}

impl vstd::std_specs::cmp::PartialEqSpecImpl for Address {
    open spec fn obeys_eq_spec() -> bool {
        true
    }

    open spec fn eq_spec(&self, other: &Address) -> bool {
        self.bytes == other.bytes
    }
}

impl Eq for Address {

}

/// How often a subscription is charged; `Custom` gives the period in seconds.
#[derive(Clone, Copy, Debug, PartialEq, Eq, Structural)]
pub enum PaymentFrequency {
    Daily,
    Weekly,
    Monthly,
    Quarterly,
    SemiAnnually,
    Annually,
    Custom(u64),
}

impl PaymentFrequency {
    /// A custom period must be positive; every named frequency is valid.
    pub open spec fn is_valid(self) -> bool {
        match self {
            PaymentFrequency::Custom(interval) => interval > 0,
            _ => true,
        }
    }

    /// Checks the frequency: a custom period of zero seconds is rejected.
    pub fn validate(&self) -> (r: Result<(), RecurringPaymentsError>)
        ensures
            r is Ok <==> self.is_valid(),
            r matches Err(e) ==> e == RecurringPaymentsError::InvalidFrequency,
    {
        match self {
            PaymentFrequency::Custom(interval) => {
                if *interval == 0 {
                    return Err(RecurringPaymentsError::InvalidFrequency);
                }
            },
            _ => {},
        }
        Ok(())
    }
}

/// Whether a policy may currently be charged.
#[derive(Clone, Copy, Debug, PartialEq, Eq, Structural)]
pub enum PaymentStatus {
    Active,
    Paused,
}

/// The payment scheme of a policy. Every variant occupies the same encoded
/// width, padded with reserved bytes, so that adding a variant never changes the
/// layout of stored policies.
#[derive(Clone, Copy, Debug, PartialEq, Eq)]
pub enum PolicyType {
    Subscription {
        amount: u64,
        auto_renew: bool,
        max_renewals: Option<u32>,
        payment_frequency: PaymentFrequency,
        next_payment_due: i64,
        padding: [u8; 97],
    },
}

impl PolicyType {
    /// Encoded width of every variant, without its discriminant byte.
    pub const VARIANT_SIZE: usize = 128;

    /// Encoded width including the discriminant byte.
    pub const TOTAL_SIZE: usize = 129;

    pub open spec fn amount(self) -> u64 {
        match self {
            PolicyType::Subscription { amount, .. } => amount,
        }
    }

    pub open spec fn max_renewals(self) -> Option<u32> {
        match self {
            PolicyType::Subscription { max_renewals, .. } => max_renewals,
        }
    }

    pub open spec fn payment_frequency(self) -> PaymentFrequency {
        match self {
            PolicyType::Subscription { payment_frequency, .. } => payment_frequency,
        }
    }

    pub open spec fn next_payment_due(self) -> i64 {
        match self {
            PolicyType::Subscription { next_payment_due, .. } => next_payment_due,
        }
    }

    /// The same policy type with another next due date.
    pub open spec fn with_next_payment_due(self, due: i64) -> PolicyType {
        match self {
            PolicyType::Subscription {
                amount,
                auto_renew,
                max_renewals,
                payment_frequency,
                padding,
                ..
            } => PolicyType::Subscription {
                amount,
                auto_renew,
                max_renewals,
                payment_frequency,
                next_payment_due: due,
                padding,
            },
        }
    }

    /// A positive amount, a valid frequency, and a positive renewal cap if any.
    pub open spec fn is_valid(self) -> bool {
        self.amount() > 0 && self.payment_frequency().is_valid() && self.max_renewals() != Some(
            0u32,
        )
    }

    /// Checks the parameters, in this order: the amount must be positive
    /// (`InvalidAmount`), the frequency valid (`InvalidFrequency`), and a renewal
    /// cap, when set, positive (`InvalidInterval`).
    pub fn validate(&self) -> (r: Result<(), RecurringPaymentsError>)
        ensures
            r is Ok <==> self.is_valid(),
            self.amount() == 0 ==> r == Err::<(), _>(RecurringPaymentsError::InvalidAmount),
            self.amount() > 0 && !self.payment_frequency().is_valid() ==> r == Err::<(), _>(
                RecurringPaymentsError::InvalidFrequency,
            ),
            self.amount() > 0 && self.payment_frequency().is_valid() && self.max_renewals() == Some(
                0u32,
            ) ==> r == Err::<(), _>(RecurringPaymentsError::InvalidInterval),
    {
        match self {
            PolicyType::Subscription { amount, payment_frequency, max_renewals, .. } => {
                if *amount == 0 {
                    return Err(RecurringPaymentsError::InvalidAmount);
                }
                match payment_frequency.validate() {
                    Ok(()) => {},
                    Err(e) => return Err(e),
                }
                if let Some(renewals) = max_renewals {
                    if *renewals == 0 {
                        return Err(RecurringPaymentsError::InvalidInterval);
                    }
                }
            },
        }
        Ok(())
    }

    /// The per-charge amount.
    pub fn get_amount(&self) -> (r: u64)
        ensures
            r == self.amount(),
    {
        match self {
            PolicyType::Subscription { amount, .. } => *amount,
        }
    }

    /// The cap on the number of charges, if any.
    pub fn get_max_renewals(&self) -> (r: Option<u32>)
        ensures
            r == self.max_renewals(),
    {
        match self {
            PolicyType::Subscription { max_renewals, .. } => *max_renewals,
        }
    }

    /// The charging frequency.
    pub fn get_payment_frequency(&self) -> (r: PaymentFrequency)
        ensures
            r == self.payment_frequency(),
    {
        match self {
            PolicyType::Subscription { payment_frequency, .. } => *payment_frequency,
        }
    }

    /// The timestamp from which the next charge may be made.
    pub fn get_next_payment_due(&self) -> (r: i64)
        ensures
            r == self.next_payment_due(),
    {
        match self {
            PolicyType::Subscription { next_payment_due, .. } => *next_payment_due,
        }
    }

    /// Sets the timestamp from which the next charge may be made.
    pub fn set_next_payment_due(&mut self, due: i64)
        ensures
            *final(self) == old(self).with_next_payment_due(due),
    {
        match self {
            PolicyType::Subscription { next_payment_due, .. } => {
                *next_payment_due = due;
            },
        }
    }
}

/// The aggregate record of one owner and one token mint, shared by all of the
/// owner's policies in that mint.
#[derive(Clone, Copy, Debug, PartialEq, Eq)]
pub struct UserPayment {
    pub owner: Address,
    pub token_account: Address,
    pub token_mint: Address,
    pub active_policies_count: u32,
    pub created_at: i64,
    pub updated_at: i64,
    pub is_active: bool,
    pub bump: u8,
}

/// An operator that triggers due payments and takes a fee on each.
#[derive(Clone, Copy, Debug, PartialEq, Eq)]
pub struct PaymentGateway {
    /// The owner of the gateway; never changes.
    pub authority: Address,
    /// Receives the gateway's fees.
    pub fee_recipient: Address,
    pub gateway_fee_bps: u16,
    pub is_active: bool,
    pub total_processed: u64,
    pub created_at: i64,
    pub bump: u8,
    pub name: [u8; 32],
    pub url: [u8; 64],
    /// May trigger payments on the gateway's behalf.
    pub signer: Address,
}

/// One recurring charge from a payer to a recipient, routed through a gateway.
#[derive(Clone, Copy, Debug, PartialEq, Eq)]
pub struct PaymentPolicy {
    pub user_payment: Address,
    pub recipient: Address,
    pub gateway: Address,
    pub policy_type: PolicyType,
    pub status: PaymentStatus,
    pub memo: [u8; 64],
    pub total_paid: u64,
    pub payment_count: u32,
    pub created_at: i64,
    pub updated_at: i64,
    pub policy_id: u32,
    pub bump: u8,
}

/// The protocol-wide parameters, owned by an admin.
#[derive(Clone, Copy, Debug, PartialEq, Eq)]
pub struct ProgramConfig {
    pub admin: Address,
    pub fee_recipient: Address,
    pub protocol_fee_bps: u16,
    pub max_policies_per_user: u32,
    pub emergency_pause: bool,
    pub bump: u8,
}

/// Emitted for each successful charge.
#[derive(Clone, Copy, Debug, PartialEq, Eq)]
pub struct PaymentRecord {
    pub payment_policy: Address,
    pub gateway: Address,
    pub amount: u64,
    pub timestamp: i64,
    pub memo: [u8; 64],
    pub record_id: u32,
}

/// Emitted when the program configuration is created.
#[derive(Clone, Copy, Debug, PartialEq, Eq)]
pub struct ProgramConfigCreated {
    pub admin: Address,
    pub fee_recipient: Address,
    pub protocol_fee_bps: u16,
    pub max_policies_per_user: u32,
}

/// Emitted when a user payment record is created.
#[derive(Clone, Copy, Debug, PartialEq, Eq)]
pub struct UserPaymentCreated {
    pub owner: Address,
    pub token_account: Address,
    pub token_mint: Address,
}

/// Emitted when a gateway is created.
#[derive(Clone, Copy, Debug, PartialEq, Eq)]
pub struct PaymentGatewayCreated {
    pub authority: Address,
    pub fee_recipient: Address,
    pub gateway_fee_bps: u16,
    pub name: [u8; 32],
    pub url: [u8; 64],
}

/// Emitted when a policy is created.
#[derive(Clone, Copy, Debug, PartialEq, Eq)]
pub struct PaymentPolicyCreated {
    pub user_payment: Address,
    pub recipient: Address,
    pub gateway: Address,
    pub policy_id: u32,
    pub policy_type: PolicyType,
    pub memo: [u8; 64],
}

/// Emitted when a gateway's signer changes.
#[derive(Clone, Copy, Debug, PartialEq, Eq)]
pub struct GatewaySignerChanged {
    pub gateway: Address,
    pub old_signer: Address,
    pub new_signer: Address,
}

/// Emitted when a gateway's fee recipient changes.
#[derive(Clone, Copy, Debug, PartialEq, Eq)]
pub struct GatewayFeeRecipientChanged {
    pub gateway: Address,
    pub old_fee_recipient: Address,
    pub new_fee_recipient: Address,
}

/// Emitted when a policy's status is set.
#[derive(Clone, Copy, Debug, PartialEq, Eq)]
pub struct PaymentPolicyStatusChanged {
    pub payment_policy: Address,
    pub old_status: PaymentStatus,
    pub new_status: PaymentStatus,
}

/// Emitted when a policy is deleted.
#[derive(Clone, Copy, Debug, PartialEq, Eq)]
pub struct PaymentPolicyDeleted {
    pub payment_policy: Address,
    pub owner: Address,
    pub policy_id: u32,
}

/// Emitted when a gateway is deleted.
#[derive(Clone, Copy, Debug, PartialEq, Eq)]
pub struct PaymentGatewayDeleted {
    pub gateway: Address,
    pub authority: Address,
    pub name: [u8; 32],
}

} // verus!
