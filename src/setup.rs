//! Creating the program configuration and the per-owner payment records.
use crate::error::RecurringPaymentsError;
use crate::settlement::TokenAccountState;
use crate::state::{Address, ProgramConfig, ProgramConfigCreated, UserPayment, UserPaymentCreated};
use vstd::prelude::*;

verus! {

/// The records that creating the program configuration writes.
#[derive(Clone, Copy, Debug, PartialEq, Eq)]
pub struct Initialize {
    pub admin: Address,
    pub fee_recipient: Address,
    /// The record being created; its earlier contents are overwritten.
    pub config: ProgramConfig,
}

/// Creates the program configuration, administered by `ctx.admin`, with the
/// protocol's fee rate and the cap on policies per owner; the program starts
/// unpaused. Refused without any change (`InvalidFeeBps`) when the fee exceeds
/// 10000 basis points.
pub fn handle_initialize(
    ctx: &mut Initialize,
    protocol_fee_bps: u16,
    max_policies_per_user: u32,
    bump: u8,
) -> (r: Result<ProgramConfigCreated, RecurringPaymentsError>)
    ensures
        protocol_fee_bps > 10000 ==> r == Err::<ProgramConfigCreated, _>(
            RecurringPaymentsError::InvalidFeeBps,
        ) && *final(ctx) == *old(ctx),
        protocol_fee_bps <= 10000 ==> {
            &&& *final(ctx) == Initialize {
                config: ProgramConfig {
                    admin: old(ctx).admin,
                    fee_recipient: old(ctx).fee_recipient,
                    protocol_fee_bps,
                    max_policies_per_user,
                    emergency_pause: false,
                    bump,
                },
                ..*old(ctx)
            }
            &&& r == Ok::<_, RecurringPaymentsError>(
                ProgramConfigCreated {
                    admin: old(ctx).admin,
                    fee_recipient: old(ctx).fee_recipient,
                    protocol_fee_bps,
                    max_policies_per_user,
                },
            )
        },
{
    if protocol_fee_bps > 10000 {
        return Err(RecurringPaymentsError::InvalidFeeBps);
    }
    ctx.config = ProgramConfig {
        admin: ctx.admin,
        fee_recipient: ctx.fee_recipient,
        protocol_fee_bps,
        max_policies_per_user,
        emergency_pause: false,
        bump,
    };
    Ok(
        ProgramConfigCreated {
            admin: ctx.admin,
            fee_recipient: ctx.fee_recipient,
            protocol_fee_bps,
            max_policies_per_user,
        },
    )
}

/// The records that creating an owner's payment record reads and writes.
#[derive(Clone, Copy, Debug, PartialEq, Eq)]
pub struct CreateUserPayment {
    pub owner: Address,
    pub token_mint: Address,
    /// The owner's token account of that mint, which charges will draw from.
    pub token_account: TokenAccountState,
    /// The record being created; its earlier contents are overwritten.
    pub user_payment: UserPayment,
}

impl CreateUserPayment {
    pub open spec fn rejection(self) -> Option<RecurringPaymentsError> {
        if self.token_account.owner != self.owner || self.token_account.mint != self.token_mint {
            Some(RecurringPaymentsError::Unauthorized)
        } else {
            None
        }
    }
}

/// Creates the active payment record of `ctx.owner` for `ctx.token_mint`, with
/// no policies yet. Refused without any change (`Unauthorized`) unless the
/// token account belongs to the owner and holds that mint.
pub fn handler_create_user_payment(ctx: &mut CreateUserPayment, now: i64, bump: u8) -> (r: Result<
    UserPaymentCreated,
    RecurringPaymentsError,
>)
    ensures
        old(ctx).rejection() matches Some(e) ==> r == Err::<UserPaymentCreated, _>(e)
            && *final(ctx) == *old(ctx),
        old(ctx).rejection() is None ==> {
            &&& *final(ctx) == CreateUserPayment {
                user_payment: UserPayment {
                    owner: old(ctx).owner,
                    token_account: old(ctx).token_account.address,
                    token_mint: old(ctx).token_mint,
                    active_policies_count: 0,
                    created_at: now,
                    updated_at: now,
                    is_active: true,
                    bump,
                },
                ..*old(ctx)
            }
            &&& r == Ok::<_, RecurringPaymentsError>(
                UserPaymentCreated {
                    owner: old(ctx).owner,
                    token_account: old(ctx).token_account.address,
                    token_mint: old(ctx).token_mint,
                },
            )
        },
{
    if !(ctx.token_account.owner == ctx.owner) || !(ctx.token_account.mint == ctx.token_mint) {
        return Err(RecurringPaymentsError::Unauthorized);
    }
    ctx.user_payment = UserPayment {
        owner: ctx.owner,
        token_account: ctx.token_account.address,
        token_mint: ctx.token_mint,
        active_policies_count: 0,
        created_at: now,
        updated_at: now,
        is_active: true,
        bump,
    };
    Ok(
        UserPaymentCreated {
            owner: ctx.owner,
            token_account: ctx.token_account.address,
            token_mint: ctx.token_mint,
        },
    )
}

} // verus!
