use vstd::prelude::*;

use crate::types::{ReputationEvent, ReputationTier};

verus! {

/// Length of one decay period: 30 days, in seconds.
pub const SECONDS_PER_PERIOD: u64 = 2592000;

/// The most decay, in percent, that any stretch of inactivity can cost.
pub const MAX_DECAY_PERCENT: u64 = 50;

// ============ Scoring rules, stated ============

/// The tier that a score earns.
pub open spec fn tier_of(score: int) -> ReputationTier {
    if score >= 5000 {
        ReputationTier::Diamond
    } else if score >= 1500 {
        ReputationTier::Platinum
    } else if score >= 500 {
        ReputationTier::Gold
    } else if score >= 100 {
        ReputationTier::Silver
    } else {
        ReputationTier::Bronze
    }
}

/// The incentive multiplier of a tier, in basis points (100 = 1.0x).
pub open spec fn multiplier_of(tier: ReputationTier) -> int {
    match tier {
        ReputationTier::Bronze => 100,
        ReputationTier::Silver => 110,
        ReputationTier::Gold => 125,
        ReputationTier::Platinum => 150,
        ReputationTier::Diamond => 200,
    }
}

/// A complexity or significance level: values outside 1..=5 count as 1.
pub open spec fn level_of(value: int) -> int {
    if 1 <= value <= 5 {
        value
    } else {
        1
    }
}

/// The points that an event with a given value is worth.
pub open spec fn score_delta(event: ReputationEvent, value: int) -> int {
    match event {
        ReputationEvent::TaskCompleted => 10 * level_of(value),
        ReputationEvent::MilestoneAchieved => 20 * level_of(value),
        ReputationEvent::DisputeWon => 5,
        ReputationEvent::DisputeLost => -20,
        ReputationEvent::TaskFailed => -10,
        ReputationEvent::TimeDecay => -(if value > 50 { 50 } else { value }),
        ReputationEvent::SuccessRateBonus => if value >= 95 { 50 } else { 0 },
    }
}

/// Completed tasks as a whole percentage of all tasks, 100 when there are none.
pub open spec fn success_rate_of(completed: int, failed: int) -> int {
    if completed + failed == 0 {
        100
    } else {
        (completed * 100) / (completed + failed)
    }
}

/// A score moved by `change`: never below zero, saturating at `u32::MAX`.
pub open spec fn bounded_score(score: int, change: int) -> int {
    if score + change < 0 {
        0
    } else if score + change > u32::MAX {
        u32::MAX as int
    } else {
        score + change
    }
}

/// Whole decay periods from `last_activity` to `now` (none if `now` is earlier).
pub open spec fn idle_periods(now: int, last_activity: int) -> int {
    if now > last_activity {
        (now - last_activity) / (SECONDS_PER_PERIOD as int)
    } else {
        0
    }
}

/// One percent per idle period, at most `MAX_DECAY_PERCENT`.
pub open spec fn decay_percent(now: int, last_activity: int) -> int {
    let p = idle_periods(now, last_activity);
    if p > MAX_DECAY_PERCENT {
        MAX_DECAY_PERCENT as int
    } else {
        p
    }
}

/// The points that inactivity takes from a score.
pub open spec fn decay_amount(now: int, last_activity: int, score: int) -> int {
    (score * decay_percent(now, last_activity)) / 100
}

// ============ Scoring rules, computed ============

/// Calculate the score change of an event with the given value.
///
/// - Task completion: +10 to +50 (by complexity)
/// - Milestone completion: +20 to +100 (by significance)
/// - Dispute won: +5
/// - Dispute lost: -20
/// - Task failed or cancelled: -10
/// - Time decay: -1 per idle period, at most -50
/// - Success rate bonus: +50 at a rate of 95 or more
pub fn calculate_score_change(event: ReputationEvent, value: u32, _current_score: u32) -> (r: i32)
    ensures
        r == score_delta(event, value as int),
{
    match event {
        ReputationEvent::TaskCompleted => {
            let level: u32 = if value > 0 && value <= 5 { value } else { 1 };
            (10 * level) as i32
        },
        ReputationEvent::MilestoneAchieved => {
            let level: u32 = if value > 0 && value <= 5 { value } else { 1 };
            (20 * level) as i32
        },
        ReputationEvent::DisputeWon => 5,
        ReputationEvent::DisputeLost => -20,
        ReputationEvent::TaskFailed => -10,
        ReputationEvent::TimeDecay => {
            let percent: u32 = if value > 50 { 50 } else { value };
            -(percent as i32)
        },
        ReputationEvent::SuccessRateBonus => {
            if value >= 95 {
                50
            } else {
                0
            }
        },
    }
}

/// Calculate the reputation tier of a score.
///
/// Bronze 0-99, Silver 100-499, Gold 500-1499, Platinum 1500-4999, Diamond 5000+.
pub fn calculate_tier(score: u32) -> (r: ReputationTier)
    ensures
        r == tier_of(score as int),
{
    if score >= 5000 {
        ReputationTier::Diamond
    } else if score >= 1500 {
        ReputationTier::Platinum
    } else if score >= 500 {
        ReputationTier::Gold
    } else if score >= 100 {
        ReputationTier::Silver
    } else {
        ReputationTier::Bronze
    }
}

/// Calculate the incentive multiplier of a tier, in basis points (100 = 1.0x).
pub fn calculate_incentive_multiplier(tier: ReputationTier) -> (r: u32)
    ensures
        r == multiplier_of(tier),
{
    match tier {
        ReputationTier::Bronze => 100,
        ReputationTier::Silver => 110,
        ReputationTier::Gold => 125,
        ReputationTier::Platinum => 150,
        ReputationTier::Diamond => 200,
    }
}

/// Calculate the success rate as a whole percentage (100 for no tasks).
pub fn calculate_success_rate(tasks_completed: u32, tasks_failed: u32) -> (r: u32)
    ensures
        r == success_rate_of(tasks_completed as int, tasks_failed as int),
        r <= 100,
{
    let total: u64 = tasks_completed as u64 + tasks_failed as u64;
    if total == 0 {
        100
    } else {
        let scaled: u64 = tasks_completed as u64 * 100;
        proof {
            assert(scaled <= 100 * total) by (nonlinear_arith)
                requires
                    scaled == tasks_completed as u64 * 100,
                    total == tasks_completed as u64 + tasks_failed as u64,
            ;
            assert(scaled / total <= 100) by (nonlinear_arith)
                requires
                    scaled <= 100 * total,
                    total > 0,
            ;
        }
        (scaled / total) as u32
    }
}

/// Calculate the points that inactivity from `last_activity` to `now` takes
/// from `current_score`: 1% per whole 30-day period, at most 50%.
pub fn calculate_time_decay(now: u64, last_activity: u64, current_score: u32) -> (r: u32)
    ensures
        r == decay_amount(now as int, last_activity as int, current_score as int),
        r <= current_score / 2,
{
    let seconds_inactive: u64 = if now > last_activity {
        now - last_activity
    } else {
        0
    };
    let periods: u64 = seconds_inactive / SECONDS_PER_PERIOD;
    let percent: u64 = if periods > MAX_DECAY_PERCENT {
        MAX_DECAY_PERCENT
    } else {
        periods
    };
    proof {
        assert(current_score as u64 * percent <= current_score as u64 * 50) by (nonlinear_arith)
            requires
                percent <= 50,
        ;
        assert((current_score as u64 * percent) / 100 <= current_score / 2) by (nonlinear_arith)
            requires
                percent <= 50,
        ;
    }
    ((current_score as u64 * percent) / 100) as u32
}

/// Apply a score change: the score never goes below zero and saturates at
/// `u32::MAX`.
pub fn apply_score_change(current_score: u32, change: i32) -> (r: u32)
    ensures
        r == bounded_score(current_score as int, change as int),
{
    if change < 0 {
        let decrease: u64 = (-(change as i64)) as u64;
        if decrease > current_score as u64 {
            0
        } else {
            current_score - decrease as u32
        }
    } else {
        current_score.saturating_add(change as u32)
    }
}

} // verus!
