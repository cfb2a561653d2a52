//! The fixed-width byte layout of a policy type: every variant takes exactly
//! `PolicyType::TOTAL_SIZE` bytes, so stored policies keep their layout when
//! variants are added. Integers are little-endian; an absent renewal cap and a
//! frequency without an interval still fill their slots, with zeros.
use crate::state::{PaymentFrequency, PolicyType};
use vstd::prelude::*;

verus! {

/// The eight little-endian bytes of `x`.
pub open spec fn u64_le(x: u64) -> Seq<u8> {
    seq![
        (x & 0xff) as u8,
        ((x >> 8u64) & 0xff) as u8,
        ((x >> 16u64) & 0xff) as u8,
        ((x >> 24u64) & 0xff) as u8,
        ((x >> 32u64) & 0xff) as u8,
        ((x >> 40u64) & 0xff) as u8,
        ((x >> 48u64) & 0xff) as u8,
        ((x >> 56u64) & 0xff) as u8,
    ]
}

/// The tag of a frequency followed by its interval, zero when it has none.
pub open spec fn frequency_bytes(f: PaymentFrequency) -> Seq<u8> {
    match f {
        PaymentFrequency::Daily => seq![0u8] + u64_le(0),
        PaymentFrequency::Weekly => seq![1u8] + u64_le(0),
        PaymentFrequency::Monthly => seq![2u8] + u64_le(0),
        PaymentFrequency::Quarterly => seq![3u8] + u64_le(0),
        PaymentFrequency::SemiAnnually => seq![4u8] + u64_le(0),
        PaymentFrequency::Annually => seq![5u8] + u64_le(0),
        PaymentFrequency::Custom(n) => seq![6u8] + u64_le(n),
    }
}

/// A presence byte followed by the cap, zero when there is none.
pub open spec fn renewals_bytes(m: Option<u32>) -> Seq<u8> {
    match m {
        None => seq![0u8, 0u8, 0u8, 0u8, 0u8],
        Some(n) => seq![1u8] + u64_le(n as u64).subrange(0, 4),
    }
}

/// The encoding of a policy type: a variant tag, then the variant's fields in
/// fixed slots, then its reserved padding.
pub open spec fn policy_type_bytes(p: PolicyType) -> Seq<u8> {
    match p {
        PolicyType::Subscription {
            amount,
            auto_renew,
            max_renewals,
            payment_frequency,
            next_payment_due,
            padding,
        } => seq![0u8] + u64_le(amount) + seq![
            if auto_renew {
                1u8
            } else {
                0u8
            },
        ] + renewals_bytes(max_renewals) + frequency_bytes(payment_frequency) + u64_le(
            next_payment_due as u64,
        ) + padding@,
    }
}

fn push_u64_le(out: &mut Vec<u8>, x: u64)
    ensures
        final(out)@ == old(out)@ + u64_le(x),
{
    out.push((x & 0xff) as u8);
    out.push(((x >> 8) & 0xff) as u8);
    out.push(((x >> 16) & 0xff) as u8);
    out.push(((x >> 24) & 0xff) as u8);
    out.push(((x >> 32) & 0xff) as u8);
    out.push(((x >> 40) & 0xff) as u8);
    out.push(((x >> 48) & 0xff) as u8);
    out.push(((x >> 56) & 0xff) as u8);
    assert(final(out)@ =~= old(out)@ + u64_le(x));
}

/// Encodes a policy type into its fixed-width layout.
pub fn encode_policy_type(p: &PolicyType) -> (r: Vec<u8>)
    ensures
        r@ == policy_type_bytes(*p),
        r@.len() == PolicyType::TOTAL_SIZE,
{
    let mut out: Vec<u8> = Vec::new();
    match p {
        PolicyType::Subscription {
            amount,
            auto_renew,
            max_renewals,
            payment_frequency,
            next_payment_due,
            padding,
        } => {
            out.push(0u8);
            push_u64_le(&mut out, *amount);
            out.push(if *auto_renew { 1u8 } else { 0u8 });
            let ghost before_renewals = out@;
            match max_renewals {
                None => {
                    out.push(0u8);
                    out.push(0u8);
                    out.push(0u8);
                    out.push(0u8);
                    out.push(0u8);
                },
                Some(n) => {
                    out.push(1u8);
                    let mut wide: Vec<u8> = Vec::new();
                    push_u64_le(&mut wide, *n as u64);
                    out.push(wide[0]);
                    out.push(wide[1]);
                    out.push(wide[2]);
                    out.push(wide[3]);
                },
            }
            assert(out@ =~= before_renewals + renewals_bytes(*max_renewals));
            let (tag, interval): (u8, u64) = match payment_frequency {
                PaymentFrequency::Daily => (0, 0),
                PaymentFrequency::Weekly => (1, 0),
                PaymentFrequency::Monthly => (2, 0),
                PaymentFrequency::Quarterly => (3, 0),
                PaymentFrequency::SemiAnnually => (4, 0),
                PaymentFrequency::Annually => (5, 0),
                PaymentFrequency::Custom(n) => (6, *n),
            };
            let ghost before_frequency = out@;
            out.push(tag);
            push_u64_le(&mut out, interval);
            assert(out@ =~= before_frequency + frequency_bytes(*payment_frequency));
            push_u64_le(&mut out, *next_payment_due as u64);
            let ghost before_padding = out@;
            let mut i: usize = 0;
            while i < 97
                invariant
                    0 <= i <= 97,
                    out@ =~= before_padding + padding@.subrange(0, i as int),
                decreases 97 - i,
            {
                out.push(padding[i]);
                i = i + 1;
            }
            assert(padding@.subrange(0, 97) =~= padding@);
        },
    }
    out
}

proof fn lemma_u64_le_injective(x: u64, y: u64)
    requires
        u64_le(x) == u64_le(y),
    ensures
        x == y,
{
    assert(u64_le(x)[0] == u64_le(y)[0] && u64_le(x)[1] == u64_le(y)[1] && u64_le(x)[2] == u64_le(
        y,
    )[2] && u64_le(x)[3] == u64_le(y)[3] && u64_le(x)[4] == u64_le(y)[4] && u64_le(x)[5] == u64_le(
        y,
    )[5] && u64_le(x)[6] == u64_le(y)[6] && u64_le(x)[7] == u64_le(y)[7]);
    assert(x == y) by (bit_vector)
        requires
            (x & 0xff) as u8 == (y & 0xff) as u8,
            ((x >> 8u64) & 0xff) as u8 == ((y >> 8u64) & 0xff) as u8,
            ((x >> 16u64) & 0xff) as u8 == ((y >> 16u64) & 0xff) as u8,
            ((x >> 24u64) & 0xff) as u8 == ((y >> 24u64) & 0xff) as u8,
            ((x >> 32u64) & 0xff) as u8 == ((y >> 32u64) & 0xff) as u8,
            ((x >> 40u64) & 0xff) as u8 == ((y >> 40u64) & 0xff) as u8,
            ((x >> 48u64) & 0xff) as u8 == ((y >> 48u64) & 0xff) as u8,
            ((x >> 56u64) & 0xff) as u8 == ((y >> 56u64) & 0xff) as u8,
    ;
}

proof fn lemma_u32_le_injective(x: u32, y: u32)
    requires
        u64_le(x as u64).subrange(0, 4) == u64_le(y as u64).subrange(0, 4),
    ensures
        x == y,
{
    let a = x as u64;
    let b = y as u64;
    assert(u64_le(a)[0] == u64_le(b)[0] && u64_le(a)[1] == u64_le(b)[1] && u64_le(a)[2] == u64_le(
        b,
    )[2] && u64_le(a)[3] == u64_le(b)[3]) by {
        assert(u64_le(a).subrange(0, 4)[0] == u64_le(b).subrange(0, 4)[0]);
        assert(u64_le(a).subrange(0, 4)[1] == u64_le(b).subrange(0, 4)[1]);
        assert(u64_le(a).subrange(0, 4)[2] == u64_le(b).subrange(0, 4)[2]);
        assert(u64_le(a).subrange(0, 4)[3] == u64_le(b).subrange(0, 4)[3]);
    }
    assert(a == b) by (bit_vector)
        requires
            a <= 0xffff_ffff,
            b <= 0xffff_ffff,
            (a & 0xff) as u8 == (b & 0xff) as u8,
            ((a >> 8u64) & 0xff) as u8 == ((b >> 8u64) & 0xff) as u8,
            ((a >> 16u64) & 0xff) as u8 == ((b >> 16u64) & 0xff) as u8,
            ((a >> 24u64) & 0xff) as u8 == ((b >> 24u64) & 0xff) as u8,
    ;
}

proof fn lemma_u64_le_zero()
    ensures
        u64_le(0) == seq![0u8, 0u8, 0u8, 0u8, 0u8, 0u8, 0u8, 0u8],
{
    assert(((0u64 & 0xff) as u8) == 0u8 && (((0u64 >> 8u64) & 0xff) as u8) == 0u8 && (((0u64
        >> 16u64) & 0xff) as u8) == 0u8 && (((0u64 >> 24u64) & 0xff) as u8) == 0u8 && (((0u64
        >> 32u64) & 0xff) as u8) == 0u8 && (((0u64 >> 40u64) & 0xff) as u8) == 0u8 && (((0u64
        >> 48u64) & 0xff) as u8) == 0u8 && (((0u64 >> 56u64) & 0xff) as u8) == 0u8)
        by (bit_vector);
    assert(u64_le(0) =~= seq![0u8, 0u8, 0u8, 0u8, 0u8, 0u8, 0u8, 0u8]);
}

fn read_u64_le(bytes: &[u8], off: usize) -> (r: u64)
    requires
        off + 8 <= bytes@.len(),
    ensures
        u64_le(r) == bytes@.subrange(off as int, off + 8),
{
    let b0 = bytes[off] as u64;
    let b1 = bytes[off + 1] as u64;
    let b2 = bytes[off + 2] as u64;
    let b3 = bytes[off + 3] as u64;
    let b4 = bytes[off + 4] as u64;
    let b5 = bytes[off + 5] as u64;
    let b6 = bytes[off + 6] as u64;
    let b7 = bytes[off + 7] as u64;
    let r: u64 = b0 | (b1 << 8) | (b2 << 16) | (b3 << 24) | (b4 << 32) | (b5 << 40) | (b6 << 48) | (
    b7 << 56);
    assert((r & 0xff) == b0 && ((r >> 8u64) & 0xff) == b1 && ((r >> 16u64) & 0xff) == b2 && ((r
        >> 24u64) & 0xff) == b3 && ((r >> 32u64) & 0xff) == b4 && ((r >> 40u64) & 0xff) == b5 && ((r
        >> 48u64) & 0xff) == b6 && ((r >> 56u64) & 0xff) == b7) by (bit_vector)
        requires
            b0 <= 255,
            b1 <= 255,
            b2 <= 255,
            b3 <= 255,
            b4 <= 255,
            b5 <= 255,
            b6 <= 255,
            b7 <= 255,
            r == b0 | (b1 << 8u64) | (b2 << 16u64) | (b3 << 24u64) | (b4 << 32u64) | (b5 << 40u64)
                | (b6 << 48u64) | (b7 << 56u64),
    ;
    assert(u64_le(r) =~= bytes@.subrange(off as int, off + 8));
    r
}

fn read_u32_le(bytes: &[u8], off: usize) -> (r: u32)
    requires
        off + 4 <= bytes@.len(),
    ensures
        u64_le(r as u64).subrange(0, 4) == bytes@.subrange(off as int, off + 4),
{
    let b0 = bytes[off] as u32;
    let b1 = bytes[off + 1] as u32;
    let b2 = bytes[off + 2] as u32;
    let b3 = bytes[off + 3] as u32;
    let r: u32 = b0 | (b1 << 8) | (b2 << 16) | (b3 << 24);
    let w = r as u64;
    assert((w & 0xff) == b0 as u64 && ((w >> 8u64) & 0xff) == b1 as u64 && ((w >> 16u64) & 0xff)
        == b2 as u64 && ((w >> 24u64) & 0xff) == b3 as u64) by (bit_vector)
        requires
            b0 <= 255,
            b1 <= 255,
            b2 <= 255,
            b3 <= 255,
            r == b0 | (b1 << 8u32) | (b2 << 16u32) | (b3 << 24u32),
            w == r as u64,
    ;
    assert(u64_le(w).subrange(0, 4) =~= bytes@.subrange(off as int, off + 4));
    r
}

/// Where each field of a policy type lies in its encoding.
proof fn lemma_layout(p: PolicyType)
    ensures
        policy_type_bytes(p).len() == 129,
        policy_type_bytes(p)[0] == 0,
        policy_type_bytes(p).subrange(1, 9) == u64_le(p.amount()),
        policy_type_bytes(p).subrange(10, 15) == renewals_bytes(p.max_renewals()),
        policy_type_bytes(p).subrange(15, 24) == frequency_bytes(p.payment_frequency()),
        policy_type_bytes(p).subrange(24, 32) == u64_le(p.next_payment_due() as u64),
        match p {
            PolicyType::Subscription { auto_renew, padding, .. } => {
                &&& policy_type_bytes(p)[9] == (if auto_renew {
                    1u8
                } else {
                    0u8
                })
                &&& policy_type_bytes(p).subrange(32, 129) == padding@
            },
        },
{
    let b = policy_type_bytes(p);
    match p {
        PolicyType::Subscription {
            amount,
            auto_renew,
            max_renewals,
            payment_frequency,
            next_payment_due,
            padding,
        } => {
            assert(b.subrange(1, 9) =~= u64_le(amount));
            assert(b.subrange(10, 15) =~= renewals_bytes(max_renewals));
            assert(b.subrange(15, 24) =~= frequency_bytes(payment_frequency));
            assert(b.subrange(24, 32) =~= u64_le(next_payment_due as u64));
            assert(b.subrange(32, 129) =~= padding@);
        },
    }
}

/// Decodes the fixed-width layout of a policy type. Exactly the encodings of
/// policy types are accepted, and each decodes to the policy type it encodes.
pub fn decode_policy_type(bytes: &[u8]) -> (r: Option<PolicyType>)
    ensures
        r matches Some(p) ==> policy_type_bytes(p) == bytes@,
        forall|p: PolicyType| #[trigger] policy_type_bytes(p) == bytes@ ==> r == Some(p),
{
    proof {
        lemma_u64_le_zero();
    }
    if bytes.len() != 129 || bytes[0] != 0 {
        proof {
            assert forall|p: PolicyType| #[trigger] policy_type_bytes(p) != bytes@ by {
                lemma_layout(p);
            }
        }
        return None;
    }
    let amount = read_u64_le(bytes, 1);
    let auto_renew = if bytes[9] == 0 {
        false
    } else if bytes[9] == 1 {
        true
    } else {
        proof {
            assert forall|p: PolicyType| #[trigger] policy_type_bytes(p) != bytes@ by {
                lemma_layout(p);
            }
        }
        return None;
    };
    let max_renewals: Option<u32> = if bytes[10] == 0 && bytes[11] == 0 && bytes[12] == 0
        && bytes[13] == 0 && bytes[14] == 0 {
        assert(bytes@.subrange(10, 15) =~= renewals_bytes(None));
        None
    } else if bytes[10] == 1 {
        let n = read_u32_le(bytes, 11);
        assert(bytes@.subrange(10, 15) =~= renewals_bytes(Some(n)));
        Some(n)
    } else {
        proof {
            assert forall|p: PolicyType| #[trigger] policy_type_bytes(p) != bytes@ by {
                lemma_layout(p);
                if policy_type_bytes(p) == bytes@ {
                    let s = bytes@.subrange(10, 15);
                    assert(s[0] == bytes@[10] && s[1] == bytes@[11] && s[2] == bytes@[12] && s[3]
                        == bytes@[13] && s[4] == bytes@[14]);
                }
            }
        }
        return None;
    };
    let tag = bytes[15];
    let interval = read_u64_le(bytes, 16);
    let payment_frequency = if tag == 6 {
        PaymentFrequency::Custom(interval)
    } else if tag < 6 && interval == 0 {
        if tag == 0 {
            PaymentFrequency::Daily
        } else if tag == 1 {
            PaymentFrequency::Weekly
        } else if tag == 2 {
            PaymentFrequency::Monthly
        } else if tag == 3 {
            PaymentFrequency::Quarterly
        } else if tag == 4 {
            PaymentFrequency::SemiAnnually
        } else {
            PaymentFrequency::Annually
        }
    } else {
        proof {
            assert forall|p: PolicyType| #[trigger] policy_type_bytes(p) != bytes@ by {
                lemma_layout(p);
                if policy_type_bytes(p) == bytes@ {
                    let s = bytes@.subrange(15, 24);
                    assert(s[0] == tag);
                    assert(s.subrange(1, 9) =~= bytes@.subrange(16, 24));
                    if tag < 6 {
                        assert(frequency_bytes(p.payment_frequency()).subrange(1, 9) =~= u64_le(0));
                        lemma_u64_le_injective(interval, 0);
                    }
                }
            }
        }
        return None;
    };
    assert(bytes@.subrange(15, 24) =~= frequency_bytes(payment_frequency));
    let due_bits = read_u64_le(bytes, 24);
    let next_payment_due = due_bits as i64;
    assert(next_payment_due as u64 == due_bits) by (bit_vector)
        requires
            next_payment_due == due_bits as i64,
    ;
    let mut padding = [0u8; 97];
    let mut i: usize = 0;
    while i < 97
        invariant
            0 <= i <= 97,
            bytes@.len() == 129,
            forall|j: int| 0 <= j < i ==> padding@[j] == bytes@[32 + j],
        decreases 97 - i,
    {
        padding[i] = bytes[32 + i];
        i = i + 1;
    }
    assert(padding@ =~= bytes@.subrange(32, 129));
    let p = PolicyType::Subscription {
        amount,
        auto_renew,
        max_renewals,
        payment_frequency,
        next_payment_due,
        padding,
    };
    proof {
        lemma_layout(p);
        let e = policy_type_bytes(p);
        assert forall|k: int| 0 <= k < 129 implies e[k] == bytes@[k] by {
            if 1 <= k < 9 {
                assert(e.subrange(1, 9)[k - 1] == bytes@.subrange(1, 9)[k - 1]);
            } else if 10 <= k < 15 {
                assert(e.subrange(10, 15)[k - 10] == bytes@.subrange(10, 15)[k - 10]);
            } else if 15 <= k < 24 {
                assert(e.subrange(15, 24)[k - 15] == bytes@.subrange(15, 24)[k - 15]);
            } else if 24 <= k < 32 {
                assert(e.subrange(24, 32)[k - 24] == bytes@.subrange(24, 32)[k - 24]);
            } else if 32 <= k {
                assert(e.subrange(32, 129)[k - 32] == bytes@.subrange(32, 129)[k - 32]);
            }
        }
        assert(e =~= bytes@);
        assert forall|q: PolicyType| #[trigger] policy_type_bytes(q) == bytes@ implies q == p by {
            lemma_policy_type_bytes_injective(q, p);
        }
    }
    Some(p)
}

/// Distinct policy types have distinct encodings.
pub proof fn lemma_policy_type_bytes_injective(p: PolicyType, q: PolicyType)
    requires
        policy_type_bytes(p) == policy_type_bytes(q),
    ensures
        p == q,
{
    broadcast use vstd::array::group_array_axioms;

    lemma_layout(p);
    lemma_layout(q);
    lemma_u64_le_injective(p.amount(), q.amount());
    let dp = p.next_payment_due();
    let dq = q.next_payment_due();
    lemma_u64_le_injective(dp as u64, dq as u64);
    assert(dp == dq) by (bit_vector)
        requires
            dp as u64 == dq as u64,
    ;
    let rp = renewals_bytes(p.max_renewals());
    let rq = renewals_bytes(q.max_renewals());
    assert(rp[0] == rq[0]);
    match (p.max_renewals(), q.max_renewals()) {
        (Some(a), Some(b)) => {
            assert(rp.subrange(1, 5) =~= u64_le(a as u64).subrange(0, 4));
            assert(rq.subrange(1, 5) =~= u64_le(b as u64).subrange(0, 4));
            lemma_u32_le_injective(a, b);
        },
        _ => {},
    }
    let fp = frequency_bytes(p.payment_frequency());
    let fq = frequency_bytes(q.payment_frequency());
    assert(fp[0] == fq[0]);
    match (p.payment_frequency(), q.payment_frequency()) {
        (PaymentFrequency::Custom(a), PaymentFrequency::Custom(b)) => {
            assert(fp.subrange(1, 9) =~= u64_le(a));
            assert(fq.subrange(1, 9) =~= u64_le(b));
            lemma_u64_le_injective(a, b);
        },
        _ => {},
    }
    match (p, q) {
        (
            PolicyType::Subscription { padding: pa, auto_renew: ra, .. },
            PolicyType::Subscription { padding: qa, auto_renew: rb, .. },
        ) => {
            assert(pa =~= qa);
        },
    }
}

} // verus!
