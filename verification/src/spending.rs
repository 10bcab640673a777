//! The spending tracker: rolling daily and monthly spend counters per
//! wallet and asset class, and the decision whether an amount fits
//! within the configured limits.
//!
//! A limit value of zero means "no limit configured for this period",
//! which is always satisfied; a wallet pair with no limit record at all
//! behaves like a record with both limits zero.

use vstd::prelude::*;

verus! {

/// Seconds in one day.
pub const SECONDS_PER_DAY: i64 = 86400;

/// Seconds in one thirty-day month.
pub const SECONDS_PER_MONTH: i64 = 86400 * 30;

/// Per wallet and asset class: the configured caps and the rolling
/// counters. The pairing of a record with its wallet and asset class
/// is the host's storage key and is not repeated here.
#[derive(Clone, Copy, PartialEq, Eq, Structural, Debug)]
pub struct SpendingLimit {
    pub daily_limit: u64,
    pub monthly_limit: u64,
    pub daily_spent: u64,
    pub monthly_spent: u64,
    pub last_reset_day: i64,
    pub last_reset_month: i64,
}

/// The day index of a timestamp: whole days since the epoch.
pub open spec fn day_of(t: i64) -> int {
    t as int / (SECONDS_PER_DAY as int)
}

/// The month index of a timestamp: whole thirty-day months since the
/// epoch.
pub open spec fn month_of(t: i64) -> int {
    t as int / (SECONDS_PER_MONTH as int)
}

impl SpendingLimit {
    /// A well-formed record: period markers are day and month indices
    /// of some non-negative time, and each counter respects its cap
    /// whenever one is configured.
    pub open spec fn wf(self) -> bool {
        &&& self.last_reset_day >= 0
        &&& self.last_reset_month >= 0
        &&& self.daily_limit > 0 ==> self.daily_spent <= self.daily_limit
        &&& self.monthly_limit > 0 ==> self.monthly_spent <= self.monthly_limit
    }
}

/// `lim` with any elapsed period rolled over at time `now`: a counter
/// is zeroed, and its marker advanced, exactly when its period index
/// has moved past the stored marker; a counter whose period has not
/// advanced is left as it stands.
pub open spec fn rolled(lim: SpendingLimit, now: i64) -> SpendingLimit {
    SpendingLimit {
        daily_spent: if day_of(now) > lim.last_reset_day { 0 } else { lim.daily_spent },
        last_reset_day: if day_of(now) > lim.last_reset_day {
            day_of(now) as i64
        } else {
            lim.last_reset_day
        },
        monthly_spent: if month_of(now) > lim.last_reset_month { 0 } else { lim.monthly_spent },
        last_reset_month: if month_of(now) > lim.last_reset_month {
            month_of(now) as i64
        } else {
            lim.last_reset_month
        },
        ..lim
    }
}

/// Whether `amount` fits within both caps of `lim` at time `now`,
/// counting from the rolled-over counters. A zero cap is "not
/// configured" and always fits.
pub open spec fn within_limits(lim: SpendingLimit, amount: u64, now: i64) -> bool {
    &&& lim.daily_limit == 0 || rolled(lim, now).daily_spent + amount <= lim.daily_limit
    &&& lim.monthly_limit == 0 || rolled(lim, now).monthly_spent + amount <= lim.monthly_limit
}

/// `lim` after `amount` has been reserved: both counters grow by
/// `amount`, an unconfigured counter saturating at the largest
/// representable value.
pub open spec fn spent_after(lim: SpendingLimit, amount: u64) -> SpendingLimit {
    SpendingLimit {
        daily_spent: if lim.daily_spent + amount > u64::MAX {
            u64::MAX
        } else {
            (lim.daily_spent + amount) as u64
        },
        monthly_spent: if lim.monthly_spent + amount > u64::MAX {
            u64::MAX
        } else {
            (lim.monthly_spent + amount) as u64
        },
        ..lim
    }
}

/// The day index of `now` as a machine integer.
fn day_index(now: i64) -> (d: i64)
    requires
        now >= 0,
    ensures
        d == day_of(now),
        d >= 0,
{
    now / SECONDS_PER_DAY
}

/// The month index of `now` as a machine integer.
fn month_index(now: i64) -> (m: i64)
    requires
        now >= 0,
    ensures
        m == month_of(now),
        m >= 0,
{
    now / SECONDS_PER_MONTH
}

/// A fresh limit record: caps as given, both counters zero, both
/// period markers at the current period.
pub fn set_spending_limit(daily_limit: u64, monthly_limit: u64, now: i64) -> (r: SpendingLimit)
    requires
        now >= 0,
    ensures
        r == (SpendingLimit {
            daily_limit,
            monthly_limit,
            daily_spent: 0,
            monthly_spent: 0,
            last_reset_day: day_of(now) as i64,
            last_reset_month: month_of(now) as i64,
        }),
        r.wf(),
{
    SpendingLimit {
        daily_limit,
        monthly_limit,
        daily_spent: 0,
        monthly_spent: 0,
        last_reset_day: day_index(now),
        last_reset_month: month_index(now),
    }
}

/// The advisory check: whether `amount` would fit within `limit` at
/// time `now`. Reads the counters as they would stand after a
/// rollover, but changes nothing.
pub fn is_within_spending_limit(limit: &SpendingLimit, amount: u64, now: i64) -> (r: bool)
    requires
        limit.wf(),
        now >= 0,
    ensures
        r == within_limits(*limit, amount, now),
{
    let day: i64 = day_index(now);
    let month: i64 = month_index(now);
    let daily_spent: u64 = if day > limit.last_reset_day {
        0
    } else {
        limit.daily_spent
    };
    let monthly_spent: u64 = if month > limit.last_reset_month {
        0
    } else {
        limit.monthly_spent
    };
    let daily_ok: bool = limit.daily_limit == 0 || (daily_spent <= limit.daily_limit && amount
        <= limit.daily_limit - daily_spent);
    let monthly_ok: bool = limit.monthly_limit == 0 || (monthly_spent <= limit.monthly_limit
        && amount <= limit.monthly_limit - monthly_spent);
    daily_ok && monthly_ok
}

/// The reservation: roll any elapsed period over, then reserve
/// `amount` if it fits within both caps. On success both counters
/// grow by `amount`; on failure the counters are left as the rollover
/// put them and the result is `false`.
pub fn update_spending_limit(limit: &mut SpendingLimit, amount: u64, now: i64) -> (r: bool)
    requires
        old(limit).wf(),
        now >= 0,
    ensures
        r == within_limits(*old(limit), amount, now),
        r ==> *final(limit) == spent_after(rolled(*old(limit), now), amount),
        !r ==> *final(limit) == rolled(*old(limit), now),
        final(limit).wf(),
{
    let day: i64 = day_index(now);
    let month: i64 = month_index(now);
    if day > limit.last_reset_day {
        limit.daily_spent = 0;
        limit.last_reset_day = day;
    }
    if month > limit.last_reset_month {
        limit.monthly_spent = 0;
        limit.last_reset_month = month;
    }
    let daily_ok: bool = limit.daily_limit == 0 || (limit.daily_spent <= limit.daily_limit
        && amount <= limit.daily_limit - limit.daily_spent);
    let monthly_ok: bool = limit.monthly_limit == 0 || (limit.monthly_spent
        <= limit.monthly_limit && amount <= limit.monthly_limit - limit.monthly_spent);
    if daily_ok && monthly_ok {
        if amount > u64::MAX - limit.daily_spent {
            limit.daily_spent = u64::MAX;
        } else {
            limit.daily_spent = limit.daily_spent + amount;
        }
        if amount > u64::MAX - limit.monthly_spent {
            limit.monthly_spent = u64::MAX;
        } else {
            limit.monthly_spent = limit.monthly_spent + amount;
        }
        true
    } else {
        false
    }
}

/// A period rollover zeroes exactly the elapsed counters: the daily
/// counter is zeroed when and only when the day index advanced, the
/// monthly counter when and only when the month index advanced, and
/// the caps are never touched.
pub proof fn lemma_rollover_zeroes_only_elapsed(lim: SpendingLimit, now: i64)
    ensures
        rolled(lim, now).daily_spent == if day_of(now) > lim.last_reset_day {
            0
        } else {
            lim.daily_spent
        },
        rolled(lim, now).monthly_spent == if month_of(now) > lim.last_reset_month {
            0
        } else {
            lim.monthly_spent
        },
        rolled(lim, now).daily_limit == lim.daily_limit,
        rolled(lim, now).monthly_limit == lim.monthly_limit,
{
}

/// Spend counters never exceed their configured caps after a
/// successful reservation: if `amount` fit at time `now`, then in the
/// updated record each counter with a configured cap is at most that
/// cap.
pub proof fn lemma_reserve_respects_limits(lim: SpendingLimit, amount: u64, now: i64)
    requires
        lim.wf(),
        within_limits(lim, amount, now),
    ensures
        spent_after(rolled(lim, now), amount).wf(),
        lim.daily_limit > 0 ==> spent_after(rolled(lim, now), amount).daily_spent
            <= lim.daily_limit,
        lim.monthly_limit > 0 ==> spent_after(rolled(lim, now), amount).monthly_spent
            <= lim.monthly_limit,
{
}

} // verus!
