//! The three-way split of a charge between recipient, gateway and protocol.
use crate::error::RecurringPaymentsError;
use vstd::prelude::*;

verus! {

/// Basis points in a whole.
pub const BPS_DENOMINATOR: u64 = 10000;

/// `bps` basis points of `amount`, rounded down.
pub open spec fn bps_share(amount: int, bps: int) -> int {
    amount * bps / 10000
}

/// How one charge is divided.
#[derive(Clone, Copy, Debug, PartialEq, Eq, Structural)]
pub struct FeeSplit {
    pub recipient_amount: u64,
    pub gateway_fee: u64,
    pub protocol_fee: u64,
}

/// Both fees fit in the amount, leaving a non-negative share for the recipient.
pub open spec fn fees_fit(amount: int, gateway_fee_bps: int, protocol_fee_bps: int) -> bool {
    bps_share(amount, gateway_fee_bps) + bps_share(amount, protocol_fee_bps) <= amount
}

/// Splits `amount`: the gateway and the protocol each take their basis points of
/// it, rounded down, and the recipient gets the rest. Fails with
/// `ArithmeticOverflow` when the two fees together exceed the amount.
pub fn calculate_fees(amount: u64, gateway_fee_bps: u16, protocol_fee_bps: u16) -> (r: Result<
    FeeSplit,
    RecurringPaymentsError,
>)
    ensures
        r is Ok <==> fees_fit(amount as int, gateway_fee_bps as int, protocol_fee_bps as int),
        r matches Ok(s) ==> {
            &&& s.gateway_fee == bps_share(amount as int, gateway_fee_bps as int)
            &&& s.protocol_fee == bps_share(amount as int, protocol_fee_bps as int)
            &&& s.recipient_amount == amount - s.gateway_fee - s.protocol_fee
            &&& s.recipient_amount + s.gateway_fee + s.protocol_fee == amount
        },
        r matches Err(e) ==> e == RecurringPaymentsError::ArithmeticOverflow,
{
    proof {
        lemma_share_at_most(amount as int, gateway_fee_bps as int);
        lemma_share_at_most(amount as int, protocol_fee_bps as int);
    }
    let gateway_wide: u128 = (amount as u128) * (gateway_fee_bps as u128) / (BPS_DENOMINATOR as u128);
    let protocol_wide: u128 = (amount as u128) * (protocol_fee_bps as u128) / (
    BPS_DENOMINATOR as u128);
    if gateway_wide > amount as u128 || protocol_wide > amount as u128 - gateway_wide {
        return Err(RecurringPaymentsError::ArithmeticOverflow);
    }
    let gateway_fee: u64 = gateway_wide as u64;
    let protocol_fee: u64 = protocol_wide as u64;
    Ok(FeeSplit { recipient_amount: amount - gateway_fee - protocol_fee, gateway_fee, protocol_fee })
}

proof fn lemma_share_at_most(amount: int, bps: int)
    requires
        0 <= amount <= u64::MAX,
        0 <= bps <= u16::MAX,
    ensures
        0 <= bps_share(amount, bps),
        10000 * bps_share(amount, bps) <= amount * bps,
        bps_share(amount, bps) <= u64::MAX * 7,
{
    let x = amount * bps;
    assert(0 <= x <= u64::MAX * u16::MAX) by (nonlinear_arith)
        requires
            0 <= amount <= u64::MAX,
            0 <= bps <= u16::MAX,
            x == amount * bps,
    ;
    vstd::arithmetic::div_mod::lemma_fundamental_div_mod(x, 10000);
    vstd::arithmetic::div_mod::lemma_mod_pos_bound(x, 10000);
    vstd::arithmetic::div_mod::lemma_div_pos_is_pos(x, 10000);
}

/// When the two fee rates add up to at most the whole, a charge of any amount
/// splits without loss: the fees fit, and the three shares are non-negative and
/// add up to the amount.
pub proof fn lemma_fee_split_exact(amount: u64, gateway_fee_bps: u16, protocol_fee_bps: u16)
    requires
        gateway_fee_bps <= 10000,
        protocol_fee_bps <= 10000,
        gateway_fee_bps + protocol_fee_bps <= 10000,
    ensures
        fees_fit(amount as int, gateway_fee_bps as int, protocol_fee_bps as int),
        0 <= bps_share(amount as int, gateway_fee_bps as int),
        0 <= bps_share(amount as int, protocol_fee_bps as int),
        0 <= amount - bps_share(amount as int, gateway_fee_bps as int) - bps_share(
            amount as int,
            protocol_fee_bps as int,
        ),
{
    let a = amount as int;
    let g = gateway_fee_bps as int;
    let p = protocol_fee_bps as int;
    lemma_share_at_most(a, g);
    lemma_share_at_most(a, p);
    let qg = bps_share(a, g);
    let qp = bps_share(a, p);
    assert(qg + qp <= a) by (nonlinear_arith)
        requires
            10000 * qg <= a * g,
            10000 * qp <= a * p,
            g + p <= 10000,
            a >= 0,
    ;
}

} // verus!
