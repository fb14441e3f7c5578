use vstd::prelude::*;

use crate::scoring::{
    apply_score_change, bounded_score, calculate_score_change, calculate_success_rate,
    calculate_tier, calculate_time_decay, decay_amount, idle_periods, score_delta,
    success_rate_of, tier_of,
};
use crate::types::{ContributorId, ProfileView, ReputationEvent, ReputationProfile, ReputationTier};

verus! {

/// A counter moved up by one, staying at `u32::MAX` once there.
pub open spec fn bumped(n: u32) -> u32 {
    if n == u32::MAX {
        n
    } else {
        (n + 1) as u32
    }
}

/// A profile's invariant: the tier and the success rate agree with the score
/// and the counters, and no achievement is held twice.
pub open spec fn profile_wf(p: ProfileView) -> bool {
    &&& p.tier == tier_of(p.score as int)
    &&& p.success_rate == success_rate_of(p.tasks_completed as int, p.tasks_failed as int)
    &&& p.achievements.no_duplicates()
}

/// A profile with a new score, and the tier of that score.
pub open spec fn with_score(p: ProfileView, score: u32) -> ProfileView {
    ProfileView { score: score, tier: tier_of(score as int), ..p }
}

/// The profile after the decay pass at time `now`: when at least one whole
/// period has passed since the last activity, the score loses its decay and
/// the last activity becomes `now`; otherwise nothing changes.
pub open spec fn decayed(p: ProfileView, now: u64) -> ProfileView {
    if idle_periods(now as int, p.last_activity as int) >= 1 {
        ProfileView {
            last_activity: now,
            ..with_score(
                p,
                (p.score - decay_amount(now as int, p.last_activity as int, p.score as int)) as u32,
            )
        }
    } else {
        p
    }
}

/// The counters of a profile after one event of the given kind.
pub open spec fn counted(p: ProfileView, event: ReputationEvent) -> ProfileView {
    match event {
        ReputationEvent::TaskCompleted => ProfileView {
            tasks_completed: bumped(p.tasks_completed),
            ..p
        },
        ReputationEvent::TaskFailed => ProfileView { tasks_failed: bumped(p.tasks_failed), ..p },
        ReputationEvent::DisputeWon => ProfileView { disputes_won: bumped(p.disputes_won), ..p },
        ReputationEvent::DisputeLost => ProfileView {
            disputes_lost: bumped(p.disputes_lost),
            ..p
        },
        ReputationEvent::MilestoneAchieved => ProfileView {
            milestones_completed: bumped(p.milestones_completed),
            ..p
        },
        _ => p,
    }
}

/// The profile after an event at time `now`: the decay pass, then the
/// counters and the success rate, then the event's points (bounded), the tier
/// of the new score, and `now` as the last activity.
pub open spec fn after_event(
    p: ProfileView,
    event: ReputationEvent,
    value: u32,
    now: u64,
) -> ProfileView {
    let c = counted(decayed(p, now), event);
    let score = bounded_score(c.score as int, score_delta(event, value as int)) as u32;
    ProfileView {
        success_rate: success_rate_of(c.tasks_completed as int, c.tasks_failed as int) as u32,
        last_activity: now,
        ..with_score(c, score)
    }
}

/// A fresh profile: no score, Bronze, no tasks, a success rate of 100, no
/// achievements, created and last active at `now`.
pub open spec fn fresh_view(address: ContributorId, now: u64) -> ProfileView {
    ProfileView {
        address: address,
        score: 0,
        tier: ReputationTier::Bronze,
        tasks_completed: 0,
        tasks_failed: 0,
        success_rate: 100,
        achievements: Seq::empty(),
        last_activity: now,
        created_at: now,
        disputes_won: 0,
        disputes_lost: 0,
        milestones_completed: 0,
    }
}

/// Create the profile of a contributor who has none yet.
pub fn new_profile(address: ContributorId, now: u64) -> (p: ReputationProfile)
    ensures
        p@ == fresh_view(address, now),
        profile_wf(p@),
{
    let p = ReputationProfile {
        address,
        score: 0,
        tier: ReputationTier::Bronze,
        tasks_completed: 0,
        tasks_failed: 0,
        success_rate: 100,
        achievements: Vec::new(),
        last_activity: now,
        created_at: now,
        disputes_won: 0,
        disputes_lost: 0,
        milestones_completed: 0,
    };
    proof {
        assert(p@.achievements =~= Seq::<u64>::empty());
    }
    p
}

/// A copy of a profile, equal to it.
pub fn copy_profile(p: &ReputationProfile) -> (r: ReputationProfile)
    ensures
        r@ == p@,
{
    let achievements = p.achievements.clone();
    proof {
        assert(achievements@ =~= p.achievements@);
    }
    ReputationProfile {
        address: p.address,
        score: p.score,
        tier: p.tier,
        tasks_completed: p.tasks_completed,
        tasks_failed: p.tasks_failed,
        success_rate: p.success_rate,
        achievements,
        last_activity: p.last_activity,
        created_at: p.created_at,
        disputes_won: p.disputes_won,
        disputes_lost: p.disputes_lost,
        milestones_completed: p.milestones_completed,
    }
}

/// Check a profile's invariant: its tier and success rate agree with its
/// score and counters, and no achievement is listed twice.
pub fn is_well_formed(p: &ReputationProfile) -> (r: bool)
    ensures
        r == profile_wf(p@),
{
    if p.tier != calculate_tier(p.score) {
        return false;
    }
    if p.success_rate != calculate_success_rate(p.tasks_completed, p.tasks_failed) {
        return false;
    }
    let ids = &p.achievements;
    let n = ids.len();
    let mut i: usize = 0;
    while i < n
        invariant
            n == ids@.len(),
            ids@ == p.achievements@,
            i <= n,
            forall|a: int, b: int| 0 <= a < i && 0 <= b < n && a != b ==> ids@[a] != ids@[b],
        decreases n - i,
    {
        let mut j: usize = 0;
        while j < n
            invariant
                n == ids@.len(),
                ids@ == p.achievements@,
                i < n,
                j <= n,
                forall|b: int| 0 <= b < j && b != i ==> ids@[i as int] != ids@[b],
            decreases n - j,
        {
            if j != i && ids[i] == ids[j] {
                proof {
                    assert(!ids@.no_duplicates()) by {
                        assert(ids@[i as int] == ids@[j as int]);
                    }
                }
                return false;
            }
            j = j + 1;
        }
        i = i + 1;
    }
    true
}

/// Run the decay pass at time `now`; returns the points taken.
pub fn apply_decay(profile: &mut ReputationProfile, now: u64) -> (taken: u32)
    ensures
        final(profile)@ == decayed(old(profile)@, now),
        taken == old(profile).score - final(profile).score,
        profile_wf(old(profile)@) ==> profile_wf(final(profile)@),
{
    let seconds_inactive: u64 = if now > profile.last_activity {
        now - profile.last_activity
    } else {
        0
    };
    if seconds_inactive >= crate::scoring::SECONDS_PER_PERIOD {
        let taken = calculate_time_decay(now, profile.last_activity, profile.score);
        profile.score = profile.score - taken;
        profile.tier = calculate_tier(profile.score);
        profile.last_activity = now;
        taken
    } else {
        0
    }
}

/// Bump the counter that an event of this kind counts.
fn count_event(profile: &mut ReputationProfile, event: ReputationEvent)
    ensures
        final(profile)@ == counted(old(profile)@, event),
{
    match event {
        ReputationEvent::TaskCompleted => {
            profile.tasks_completed = profile.tasks_completed.saturating_add(1);
        },
        ReputationEvent::TaskFailed => {
            profile.tasks_failed = profile.tasks_failed.saturating_add(1);
        },
        ReputationEvent::DisputeWon => {
            profile.disputes_won = profile.disputes_won.saturating_add(1);
        },
        ReputationEvent::DisputeLost => {
            profile.disputes_lost = profile.disputes_lost.saturating_add(1);
        },
        ReputationEvent::MilestoneAchieved => {
            profile.milestones_completed = profile.milestones_completed.saturating_add(1);
        },
        _ => {},
    }
}

/// Apply one event with its value at time `now`: the decay pass, the counters
/// and success rate, the event's points (never below zero, saturating), the
/// tier of the new score, and `now` as the last activity.
pub fn apply_event(profile: &mut ReputationProfile, event: ReputationEvent, value: u32, now: u64)
    ensures
        final(profile)@ == after_event(old(profile)@, event, value, now),
        profile_wf(old(profile)@) ==> profile_wf(final(profile)@),
{
    apply_decay(profile, now);
    count_event(profile, event);
    profile.success_rate = calculate_success_rate(profile.tasks_completed, profile.tasks_failed);
    let change = calculate_score_change(event, value, profile.score);
    profile.score = apply_score_change(profile.score, change);
    profile.tier = calculate_tier(profile.score);
    profile.last_activity = now;
}

/// A profile after a sequence of events, each with its value and its time,
/// applied in order.
pub open spec fn replay(p: ProfileView, events: Seq<(ReputationEvent, u32, u64)>) -> ProfileView
    decreases events.len(),
{
    if events.len() == 0 {
        p
    } else {
        let q = replay(p, events.drop_last());
        let (event, value, now) = events.last();
        after_event(q, event, value, now)
    }
}

/// A success rate is a percentage: between 0 and 100.
pub proof fn lemma_success_rate_is_percentage(completed: int, failed: int)
    requires
        completed >= 0,
        failed >= 0,
    ensures
        0 <= success_rate_of(completed, failed) <= 100,
{
    if completed + failed > 0 {
        assert(0 <= (completed * 100) / (completed + failed) <= 100) by (nonlinear_arith)
            requires
                completed >= 0,
                failed >= 0,
                completed + failed > 0,
        ;
    }
}

/// One event keeps a profile well formed: its tier is the tier of its new
/// score and its success rate is the whole percentage of completed tasks
/// (100 with no tasks).
pub proof fn lemma_event_keeps_profile_wf(
    p: ProfileView,
    event: ReputationEvent,
    value: u32,
    now: u64,
)
    requires
        profile_wf(p),
    ensures
        profile_wf(after_event(p, event, value, now)),
        after_event(p, event, value, now).tier == tier_of(after_event(p, event, value, now).score as int),
        after_event(p, event, value, now).success_rate == success_rate_of(
            after_event(p, event, value, now).tasks_completed as int,
            after_event(p, event, value, now).tasks_failed as int,
        ),
{
    let c = counted(decayed(p, now), event);
    lemma_success_rate_is_percentage(c.tasks_completed as int, c.tasks_failed as int);
}

/// An event never lowers a counter, never changes the creation time and
/// never drops an achievement.
pub proof fn lemma_event_keeps_history(p: ProfileView, event: ReputationEvent, value: u32, now: u64)
    ensures
        after_event(p, event, value, now).tasks_completed >= p.tasks_completed,
        after_event(p, event, value, now).tasks_failed >= p.tasks_failed,
        after_event(p, event, value, now).disputes_won >= p.disputes_won,
        after_event(p, event, value, now).disputes_lost >= p.disputes_lost,
        after_event(p, event, value, now).milestones_completed >= p.milestones_completed,
        after_event(p, event, value, now).created_at == p.created_at,
        after_event(p, event, value, now).achievements == p.achievements,
{
}

/// After any sequence of events, starting from a well-formed profile (a
/// fresh one among them), the score is never negative, the tier is the tier
/// of the score and the success rate agrees with the task counters.
pub proof fn lemma_replay_keeps_profile_wf(p: ProfileView, events: Seq<(ReputationEvent, u32, u64)>)
    requires
        profile_wf(p),
    ensures
        profile_wf(replay(p, events)),
        replay(p, events).score >= 0,
        replay(p, events).tier == tier_of(replay(p, events).score as int),
        replay(p, events).success_rate == success_rate_of(
            replay(p, events).tasks_completed as int,
            replay(p, events).tasks_failed as int,
        ),
    decreases events.len(),
{
    if events.len() > 0 {
        lemma_replay_keeps_profile_wf(p, events.drop_last());
        let (event, value, now) = events.last();
        lemma_event_keeps_profile_wf(replay(p, events.drop_last()), event, value, now);
    }
}

/// A fresh profile is well formed, so the above holds of every event
/// sequence that starts from one.
pub proof fn lemma_fresh_profile_wf(address: ContributorId, now: u64)
    ensures
        profile_wf(fresh_view(address, now)),
{
}

} // verus!
