//! Creating, deleting and reconfiguring payment gateways.
use crate::error::RecurringPaymentsError;
use crate::state::{
    Address, GatewayFeeRecipientChanged, GatewaySignerChanged, PaymentGateway,
    PaymentGatewayCreated, PaymentGatewayDeleted, ProgramConfig,
};
use vstd::prelude::*;

verus! {

/// The records that creating a gateway reads and writes.
#[derive(Clone, Copy, Debug, PartialEq, Eq)]
pub struct CreatePaymentGateway {
    pub admin: Address,
    /// The gateway's owner; it also becomes the gateway's signer.
    pub authority: Address,
    pub config: ProgramConfig,
    pub fee_recipient: Address,
    /// The record being created; its earlier contents are overwritten.
    pub gateway: PaymentGateway,
}

impl CreatePaymentGateway {
    pub open spec fn rejection(self, gateway_fee_bps: u16) -> Option<RecurringPaymentsError> {
        if self.config.admin != self.admin {
            Some(RecurringPaymentsError::Unauthorized)
        } else if gateway_fee_bps > 10000 {
            Some(RecurringPaymentsError::InvalidFeeBps)
        } else {
            None
        }
    }
}

/// Creates an active gateway owned and signed for by `ctx.authority`, at the
/// admin's request. Refused without any change when the caller is not the
/// admin (`Unauthorized`) or the fee exceeds 10000 basis points (`InvalidFeeBps`).
/// The fee is not checked against the protocol's rate: when the two add up to
/// more than 10000 basis points, charges through the gateway fail with
/// `ArithmeticOverflow` instead of paying the recipient a negative share.
pub fn handler_create_payment_gateway(
    ctx: &mut CreatePaymentGateway,
    gateway_fee_bps: u16,
    name: [u8; 32],
    url: [u8; 64],
    now: i64,
    bump: u8,
) -> (r: Result<PaymentGatewayCreated, RecurringPaymentsError>)
    ensures
        old(ctx).rejection(gateway_fee_bps) matches Some(e) ==> r == Err::<
            PaymentGatewayCreated,
            _,
        >(e) && *final(ctx) == *old(ctx),
        old(ctx).rejection(gateway_fee_bps) is None ==> {
            &&& *final(ctx) == CreatePaymentGateway {
                gateway: PaymentGateway {
                    authority: old(ctx).authority,
                    fee_recipient: old(ctx).fee_recipient,
                    gateway_fee_bps,
                    is_active: true,
                    total_processed: 0,
                    created_at: now,
                    bump,
                    name,
                    url,
                    signer: old(ctx).authority,
                },
                ..*old(ctx)
            }
            &&& r == Ok::<_, RecurringPaymentsError>(
                PaymentGatewayCreated {
                    authority: old(ctx).authority,
                    fee_recipient: old(ctx).fee_recipient,
                    gateway_fee_bps,
                    name,
                    url,
                },
            )
        },
{
    if !(ctx.config.admin == ctx.admin) {
        return Err(RecurringPaymentsError::Unauthorized);
    }
    if gateway_fee_bps > 10000 {
        return Err(RecurringPaymentsError::InvalidFeeBps);
    }
    ctx.gateway = PaymentGateway {
        authority: ctx.authority,
        fee_recipient: ctx.fee_recipient,
        gateway_fee_bps,
        is_active: true,
        total_processed: 0,
        created_at: now,
        bump,
        name,
        url,
        signer: ctx.authority,
    };
    Ok(
        PaymentGatewayCreated {
            authority: ctx.authority,
            fee_recipient: ctx.fee_recipient,
            gateway_fee_bps,
            name,
            url,
        },
    )
}

/// The records that deleting a gateway reads.
#[derive(Clone, Copy, Debug, PartialEq, Eq)]
pub struct DeletePaymentGateway {
    pub admin: Address,
    pub gateway_key: Address,
    pub gateway: PaymentGateway,
    pub config: ProgramConfig,
}

impl DeletePaymentGateway {
    pub open spec fn rejection(self) -> Option<RecurringPaymentsError> {
        if self.config.admin != self.admin {
            Some(RecurringPaymentsError::Unauthorized)
        } else if self.config.emergency_pause {
            Some(RecurringPaymentsError::ProgramPaused)
        } else if self.gateway.is_active {
            Some(RecurringPaymentsError::Unauthorized)
        } else {
            None
        }
    }
}

/// Approves the admin's deletion of an inactive gateway. Refused when the
/// caller is not the admin or the gateway is still active (`Unauthorized`), or
/// the program is paused (`ProgramPaused`). Removing the record itself is left
/// to the record store.
pub fn handler_delete_payment_gateway(ctx: &DeletePaymentGateway) -> (r: Result<
    PaymentGatewayDeleted,
    RecurringPaymentsError,
>)
    ensures
        ctx.rejection() matches Some(e) ==> r == Err::<PaymentGatewayDeleted, _>(e),
        ctx.rejection() is None ==> r == Ok::<_, RecurringPaymentsError>(
            PaymentGatewayDeleted {
                gateway: ctx.gateway_key,
                authority: ctx.gateway.authority,
                name: ctx.gateway.name,
            },
        ),
{
    if !(ctx.config.admin == ctx.admin) {
        return Err(RecurringPaymentsError::Unauthorized);
    }
    if ctx.config.emergency_pause {
        return Err(RecurringPaymentsError::ProgramPaused);
    }
    if ctx.gateway.is_active {
        return Err(RecurringPaymentsError::Unauthorized);
    }
    Ok(
        PaymentGatewayDeleted {
            gateway: ctx.gateway_key,
            authority: ctx.gateway.authority,
            name: ctx.gateway.name,
        },
    )
}

/// Why the gateway owner's request is refused, if it is.
pub open spec fn authority_request_rejection(
    config: ProgramConfig,
    authority: Address,
    gateway: PaymentGateway,
) -> Option<RecurringPaymentsError> {
    if gateway.authority != authority {
        Some(RecurringPaymentsError::Unauthorized)
    } else if config.emergency_pause {
        Some(RecurringPaymentsError::ProgramPaused)
    } else {
        None
    }
}

fn check_authority_request(
    config: &ProgramConfig,
    authority: &Address,
    gateway: &PaymentGateway,
) -> (r: Result<(), RecurringPaymentsError>)
    ensures
        match authority_request_rejection(*config, *authority, *gateway) {
            Some(e) => r == Err::<(), _>(e),
            None => r is Ok,
        },
{
    if !(gateway.authority == *authority) {
        return Err(RecurringPaymentsError::Unauthorized);
    }
    if config.emergency_pause {
        return Err(RecurringPaymentsError::ProgramPaused);
    }
    Ok(())
}

/// The records that changing a gateway's signer reads and writes.
#[derive(Clone, Copy, Debug, PartialEq, Eq)]
pub struct ChangeGatewaySigner {
    pub authority: Address,
    pub gateway_key: Address,
    pub gateway: PaymentGateway,
    pub new_signer: Address,
    pub config: ProgramConfig,
}

/// Makes `ctx.new_signer` the key that triggers payments for the gateway, at
/// the gateway owner's request. Refused without any change when the caller is
/// not the owner (`Unauthorized`) or the program is paused (`ProgramPaused`).
pub fn handler_change_gateway_signer(ctx: &mut ChangeGatewaySigner) -> (r: Result<
    GatewaySignerChanged,
    RecurringPaymentsError,
>)
    ensures
        authority_request_rejection(old(ctx).config, old(ctx).authority, old(ctx).gateway) matches Some(
            e,
        ) ==> r == Err::<GatewaySignerChanged, _>(e) && *final(ctx) == *old(ctx),
        authority_request_rejection(old(ctx).config, old(ctx).authority, old(ctx).gateway) is None
            ==> {
            &&& *final(ctx) == ChangeGatewaySigner {
                gateway: PaymentGateway { signer: old(ctx).new_signer, ..old(ctx).gateway },
                ..*old(ctx)
            }
            &&& r == Ok::<_, RecurringPaymentsError>(
                GatewaySignerChanged {
                    gateway: old(ctx).gateway_key,
                    old_signer: old(ctx).gateway.signer,
                    new_signer: old(ctx).new_signer,
                },
            )
        },
{
    match check_authority_request(&ctx.config, &ctx.authority, &ctx.gateway) {
        Ok(()) => {},
        Err(e) => return Err(e),
    }
    let old_signer = ctx.gateway.signer;
    ctx.gateway.signer = ctx.new_signer;
    Ok(GatewaySignerChanged { gateway: ctx.gateway_key, old_signer, new_signer: ctx.new_signer })
}

/// The records that changing a gateway's fee recipient reads and writes.
#[derive(Clone, Copy, Debug, PartialEq, Eq)]
pub struct ChangeGatewayFeeRecipient {
    pub authority: Address,
    pub gateway_key: Address,
    pub gateway: PaymentGateway,
    pub new_fee_recipient: Address,
    pub config: ProgramConfig,
}

/// Makes `ctx.new_fee_recipient` the receiver of the gateway's fees, at the
/// gateway owner's request. Refused without any change when the caller is not
/// the owner (`Unauthorized`) or the program is paused (`ProgramPaused`).
pub fn handler_change_gateway_fee_recipient(ctx: &mut ChangeGatewayFeeRecipient) -> (r: Result<
    GatewayFeeRecipientChanged,
    RecurringPaymentsError,
>)
    ensures
        authority_request_rejection(old(ctx).config, old(ctx).authority, old(ctx).gateway) matches Some(
            e,
        ) ==> r == Err::<GatewayFeeRecipientChanged, _>(e) && *final(ctx) == *old(ctx),
        authority_request_rejection(old(ctx).config, old(ctx).authority, old(ctx).gateway) is None
            ==> {
            &&& *final(ctx) == ChangeGatewayFeeRecipient {
                gateway: PaymentGateway {
                    fee_recipient: old(ctx).new_fee_recipient,
                    ..old(ctx).gateway
                },
                ..*old(ctx)
            }
            &&& r == Ok::<_, RecurringPaymentsError>(
                GatewayFeeRecipientChanged {
                    gateway: old(ctx).gateway_key,
                    old_fee_recipient: old(ctx).gateway.fee_recipient,
                    new_fee_recipient: old(ctx).new_fee_recipient,
                },
            )
        },
{
    match check_authority_request(&ctx.config, &ctx.authority, &ctx.gateway) {
        Ok(()) => {},
        Err(e) => return Err(e),
    }
    let old_fee_recipient = ctx.gateway.fee_recipient;
    ctx.gateway.fee_recipient = ctx.new_fee_recipient;
    Ok(
        GatewayFeeRecipientChanged {
            gateway: ctx.gateway_key,
            old_fee_recipient,
            new_fee_recipient: ctx.new_fee_recipient,
        },
    )
}

} // verus!
