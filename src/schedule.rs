//! The due-date advancement of a payment schedule.
use crate::calendar::{add_months, add_months_spec, months_addable};
use crate::error::RecurringPaymentsError;
use crate::state::PaymentFrequency;
use vstd::prelude::*;

verus! {

/// Calendar months in one period of `f`; 0 for the fixed-duration frequencies.
pub open spec fn months_per_period(f: PaymentFrequency) -> int {
    match f {
        PaymentFrequency::Monthly => 1,
        PaymentFrequency::Quarterly => 3,
        PaymentFrequency::SemiAnnually => 6,
        PaymentFrequency::Annually => 12,
        _ => 0,
    }
}

/// Seconds in one period of a fixed-duration frequency; 0 for the calendar ones.
pub open spec fn seconds_per_period(f: PaymentFrequency) -> int {
    match f {
        PaymentFrequency::Daily => 86400,
        PaymentFrequency::Weekly => 604800,
        PaymentFrequency::Custom(n) => n as int,
        _ => 0,
    }
}

/// The timestamp one period of `f` after `ts`.
pub open spec fn advance(ts: int, f: PaymentFrequency) -> int {
    if months_per_period(f) > 0 {
        add_months_spec(ts, months_per_period(f))
    } else {
        ts + seconds_per_period(f)
    }
}

/// Advancing `ts` by one period of `f` stays within the range of timestamps.
pub open spec fn can_advance(ts: int, f: PaymentFrequency) -> bool {
    if months_per_period(f) > 0 {
        months_addable(ts)
    } else {
        ts + seconds_per_period(f) <= i64::MAX
    }
}

/// `ts` advanced by `k` periods of `f`.
pub open spec fn advanced(ts: int, f: PaymentFrequency, k: nat) -> int
    decreases k,
{
    if k == 0 {
        ts
    } else {
        advance(advanced(ts, f, (k - 1) as nat), f)
    }
}

/// `v` is the first of `due`, `due` + 1 period, `due` + 2 periods, ... that lies
/// after `now`, and every step up to it stays in range.
pub open spec fn is_next_due(due: int, f: PaymentFrequency, now: int, v: int) -> bool {
    exists|k: nat|
        #![trigger advanced(due, f, k)]
        advanced(due, f, k) == v && v > now && forall|j: nat|
            j < k ==> advanced(due, f, j) <= now && can_advance(#[trigger] advanced(due, f, j), f)
}

/// Advancing `due` period by period, some step taken while not yet past `now`
/// leaves the range of timestamps.
pub open spec fn schedule_overflows(due: int, f: PaymentFrequency, now: int) -> bool {
    exists|j: nat|
        #![trigger advanced(due, f, j)]
        (forall|i: nat| i <= j ==> #[trigger] advanced(due, f, i) <= now) && !can_advance(
            advanced(due, f, j),
            f,
        )
}

/// The next due date is unique: it is the first step past `now`.
pub proof fn lemma_next_due_unique(due: int, f: PaymentFrequency, now: int, v: int, w: int)
    requires
        is_next_due(due, f, now, v),
        is_next_due(due, f, now, w),
    ensures
        v == w,
{
    let k1 = choose|k: nat|
        #![trigger advanced(due, f, k)]
        advanced(due, f, k) == v && v > now && forall|j: nat|
            j < k ==> advanced(due, f, j) <= now && can_advance(#[trigger] advanced(due, f, j), f);
    let k2 = choose|k: nat|
        #![trigger advanced(due, f, k)]
        advanced(due, f, k) == w && w > now && forall|j: nat|
            j < k ==> advanced(due, f, j) <= now && can_advance(#[trigger] advanced(due, f, j), f);
    if k1 < k2 {
        assert(advanced(due, f, k1) <= now);
    } else if k2 < k1 {
        assert(advanced(due, f, k2) <= now);
    }
}

proof fn lemma_next_due_no_overflow(due: int, f: PaymentFrequency, now: int, v: int)
    requires
        is_next_due(due, f, now, v),
    ensures
        !schedule_overflows(due, f, now),
{
    let k = choose|k: nat|
        #![trigger advanced(due, f, k)]
        advanced(due, f, k) == v && v > now && forall|j: nat|
            j < k ==> advanced(due, f, j) <= now && can_advance(#[trigger] advanced(due, f, j), f);
    assert forall|j: nat|
        (forall|i: nat| i <= j ==> #[trigger] advanced(due, f, i) <= now) implies can_advance(
        advanced(due, f, j),
        f,
    ) by {
        if j >= k {
            assert(advanced(due, f, k) <= now);
        }
    }
}

proof fn lemma_advanced_by_seconds(due: int, f: PaymentFrequency, k: nat)
    requires
        months_per_period(f) == 0,
    ensures
        advanced(due, f, k) == due + k * seconds_per_period(f),
    decreases k,
{
    if k > 0 {
        let km = (k - 1) as nat;
        let s = seconds_per_period(f);
        lemma_advanced_by_seconds(due, f, km);
        assert(advanced(due, f, k) == advanced(due, f, km) + s);
        assert(due + km * s + s == due + k * s) by (nonlinear_arith)
            requires
                km + 1 == k,
        ;
    } else {
        assert(k * seconds_per_period(f) == 0) by (nonlinear_arith)
            requires
                k == 0,
        ;
    }
}

fn next_due_by_seconds(current_due: i64, frequency: &PaymentFrequency, now: i64) -> (r: Result<
    i64,
    RecurringPaymentsError,
>)
    requires
        frequency.is_valid(),
        months_per_period(*frequency) == 0,
    ensures
        r is Err <==> schedule_overflows(current_due as int, *frequency, now as int),
        r matches Ok(v) ==> is_next_due(current_due as int, *frequency, now as int, v as int),
        r matches Err(e) ==> e == RecurringPaymentsError::ArithmeticOverflow,
{
    let ghost f = *frequency;
    let period: u64 = match frequency {
        PaymentFrequency::Daily => 86400,
        PaymentFrequency::Weekly => 604800,
        PaymentFrequency::Custom(n) => *n,
        _ => 86400,
    };
    assert(period == seconds_per_period(f) && period > 0);
    if current_due > now {
        assert(advanced(current_due as int, f, 0) == current_due);
        assert(is_next_due(current_due as int, f, now as int, current_due as int));
        proof {
            lemma_next_due_no_overflow(current_due as int, f, now as int, current_due as int);
        }
        return Ok(current_due);
    }
    let diff: u64 = (now as i128 - current_due as i128) as u64;
    let q: u64 = diff / period;
    let ghost k: nat = (q + 1) as nat;
    let ghost due = current_due as int;
    let ghost p = period as int;
    proof {
        vstd::arithmetic::div_mod::lemma_fundamental_div_mod(diff as int, p);
        vstd::arithmetic::div_mod::lemma_mod_pos_bound(diff as int, p);
        assert(q * p <= diff) by (nonlinear_arith)
            requires
                diff == p * q + (diff as int) % p,
                (diff as int) % p >= 0,
        ;
        assert((q + 1) * p == q * p + p) by (nonlinear_arith);
    }
    let step: u128 = (q as u128 + 1) * (period as u128);
    let next: i128 = current_due as i128 + step as i128;
    proof {
        lemma_advanced_by_seconds(due, f, k);
        assert forall|j: nat| j < k implies advanced(due, f, j) <= now && advanced(due, f, j) + p
            <= next by {
            lemma_advanced_by_seconds(due, f, j);
            assert(j * p <= q * p) by (nonlinear_arith)
                requires
                    j <= q,
                    p > 0,
            ;
        }
    }
    if next > i64::MAX as i128 {
        proof {
            let j = q as nat;
            lemma_advanced_by_seconds(due, f, j);
            assert(forall|i: nat| i <= j ==> #[trigger] advanced(due, f, i) <= now);
            assert(!can_advance(advanced(due, f, j), f));
        }
        return Err(RecurringPaymentsError::ArithmeticOverflow);
    }
    proof {
        assert(advanced(due, f, k) == next);
        assert(forall|j: nat| j < k ==> can_advance(#[trigger] advanced(due, f, j), f));
        assert(is_next_due(due, f, now as int, next as int));
        lemma_next_due_no_overflow(due, f, now as int, next as int);
    }
    Ok(next as i64)
}

fn next_due_by_months(current_due: i64, frequency: &PaymentFrequency, now: i64) -> (r: Result<
    i64,
    RecurringPaymentsError,
>)
    requires
        months_per_period(*frequency) > 0,
    ensures
        r is Err <==> schedule_overflows(current_due as int, *frequency, now as int),
        r matches Ok(v) ==> is_next_due(current_due as int, *frequency, now as int, v as int),
        r matches Err(e) ==> e == RecurringPaymentsError::ArithmeticOverflow,
{
    let ghost f = *frequency;
    let ghost due = current_due as int;
    let months: i64 = match frequency {
        PaymentFrequency::Monthly => 1,
        PaymentFrequency::Quarterly => 3,
        PaymentFrequency::SemiAnnually => 6,
        _ => 12,
    };
    assert(months == months_per_period(f));
    let mut next: i64 = current_due;
    let ghost mut k: nat = 0;
    while next <= now
        invariant
            f == *frequency,
            due == current_due as int,
            months == months_per_period(f),
            1 <= months <= 12,
            next == advanced(due, f, k),
            forall|j: nat|
                j < k ==> advanced(due, f, j) <= now && can_advance(
                    #[trigger] advanced(due, f, j),
                    f,
                ),
        decreases i64::MAX - next,
    {
        match add_months(next, months) {
            Ok(v) => {
                proof {
                    assert(advanced(due, f, k + 1) == advance(advanced(due, f, k), f));
                    assert(advanced(due, f, k) <= now && can_advance(advanced(due, f, k), f));
                    assert(v > next);
                }
                next = v;
                proof {
                    k = k + 1;
                }
            },
            Err(e) => {
                proof {
                    assert(!can_advance(advanced(due, f, k), f));
                    assert(forall|i: nat| i <= k ==> #[trigger] advanced(due, f, i) <= now);
                    assert(schedule_overflows(due, f, now as int));
                }
                return Err(e);
            },
        }
    }
    proof {
        assert(is_next_due(due, f, now as int, next as int));
        lemma_next_due_no_overflow(due, f, now as int, next as int);
    }
    Ok(next)
}

/// The next due date after `current_timestamp`: `current_due` advanced by whole
/// periods of `frequency` until it lies after `current_timestamp`, so periods
/// missed while the policy was not charged are skipped, not owed. Fails with
/// `ArithmeticOverflow` when a step leaves the range of timestamps.
pub fn calculate_next_payment_due(
    current_due: i64,
    frequency: &PaymentFrequency,
    current_timestamp: i64,
) -> (r: Result<i64, RecurringPaymentsError>)
    requires
        frequency.is_valid(),
    ensures
        r is Err <==> schedule_overflows(current_due as int, *frequency, current_timestamp as int),
        r matches Ok(v) ==> is_next_due(
            current_due as int,
            *frequency,
            current_timestamp as int,
            v as int,
        ),
        r matches Ok(v) ==> v > current_timestamp && v >= current_due,
        r matches Err(e) ==> e == RecurringPaymentsError::ArithmeticOverflow,
{
    let r = if months_per_period_of(frequency) > 0 {
        next_due_by_months(current_due, frequency, current_timestamp)
    } else {
        next_due_by_seconds(current_due, frequency, current_timestamp)
    };
    proof {
        if let Ok(v) = r {
            lemma_next_due_bounds(current_due as int, *frequency, current_timestamp as int, v as int);
        }
    }
    r
}

fn months_per_period_of(f: &PaymentFrequency) -> (r: i64)
    ensures
        r == months_per_period(*f),
{
    match f {
        PaymentFrequency::Monthly => 1,
        PaymentFrequency::Quarterly => 3,
        PaymentFrequency::SemiAnnually => 6,
        PaymentFrequency::Annually => 12,
        _ => 0,
    }
}

/// The next due date lies after `now` and is never before the current one.
pub proof fn lemma_next_due_bounds(due: int, f: PaymentFrequency, now: int, v: int)
    requires
        is_next_due(due, f, now, v),
    ensures
        v > now,
        v >= due,
{
    let k = choose|k: nat|
        #![trigger advanced(due, f, k)]
        advanced(due, f, k) == v && v > now && forall|j: nat|
            j < k ==> advanced(due, f, j) <= now && can_advance(#[trigger] advanced(due, f, j), f);
    if k > 0 {
        assert(advanced(due, f, 0) <= now);
    }
}

} // verus!
