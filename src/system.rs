//! The reputation operations over a store: each one runs the decay pass on
//! the contributor's profile first (reads included, and the result is kept),
//! then acts, and publishes its notices.
//!
//! Policies:
//! - A profile is created by `initialize_profile`, which refuses a second
//!   one, or by the contributor's first recorded event.
//! - A query never creates a profile: `get_reputation` fails with
//!   `ProfileNotFound`; the tier and multiplier of an unknown contributor are
//!   those of a zero score; awards and eligibility checks answer `false`.
//! - The success-rate bonus is an event like the others: when recorded, its
//!   points are added to the stored score, and the tier always follows that
//!   score alone.

use vstd::prelude::*;

use crate::achievements::{
    awarded, catalog_entries, copy_achievement, eligible, holds, get_contributor_achievements,
    grant_achievement, initialize_default_achievements, is_eligible, DEFAULT_CATALOG_SIZE,
};
use crate::leaderboard::upserted;
use crate::profile::{
    after_event, apply_decay, apply_event, copy_profile, decayed, fresh_view, new_profile,
};
use crate::scoring::{bounded_score, calculate_incentive_multiplier, multiplier_of};
use crate::storage::{
    board_of, catalog_entry, get_achievement, get_profile, get_top_contributors, in_catalog,
    initialize_reputation_storage, is_top_ids, publish, set_profile, store_wf, update_leaderboard,
    ReputationStore, ReputationState,
};
use crate::types::{
    AchievementAwardedEvent, ContributorId, Notice, ProfileInitializedEvent, ProfileView,
    ReputationError, ReputationEvent, ReputationProfile, ReputationTier, ReputationUpdatedEvent,
    TierUpgradedEvent,
};

verus! {

// ============ What each operation publishes ============

/// The notice of a new profile.
pub open spec fn init_notice(address: ContributorId, now: u64) -> Notice {
    Notice::ProfileInitialized(
        ProfileInitializedEvent {
            address,
            initial_score: 0,
            tier: ReputationTier::Bronze,
            timestamp: now,
        },
    )
}

/// The notice of a tier change from profile `p` to profile `q`, if any.
pub open spec fn tier_notices(p: ProfileView, q: ProfileView, now: u64) -> Seq<Notice> {
    if p.tier != q.tier {
        seq![
            Notice::TierChanged(
                TierUpgradedEvent {
                    address: q.address,
                    old_tier: p.tier,
                    new_tier: q.tier,
                    current_score: q.score,
                    timestamp: now,
                },
            ),
        ]
    } else {
        Seq::empty()
    }
}

/// The notices of a score update from profile `p` to profile `q`: the update
/// itself, then the tier change if there is one.
pub open spec fn update_notices(
    p: ProfileView,
    q: ProfileView,
    event: ReputationEvent,
    now: u64,
) -> Seq<Notice> {
    seq![
        Notice::ReputationUpdated(
            ReputationUpdatedEvent {
                address: q.address,
                event_type: event,
                old_score: p.score,
                new_score: q.score,
                old_tier: p.tier,
                new_tier: q.tier,
                timestamp: now,
            },
        ),
    ] + tier_notices(p, q, now)
}

/// The notices of a decay pass on `p` at `now`: an update of kind
/// `TimeDecay` when it took points, none otherwise.
pub open spec fn decay_notices(p: ProfileView, now: u64) -> Seq<Notice> {
    let q = decayed(p, now);
    if q.score != p.score {
        update_notices(p, q, ReputationEvent::TimeDecay, now)
    } else {
        Seq::empty()
    }
}

// ============ What each operation does to the store ============

/// The store after the decay pass on a contributor's profile at `now`
/// (unchanged when the contributor has none).
pub open spec fn refreshed(v: ReputationState, address: ContributorId, now: u64) -> ReputationState {
    if v.profiles.contains_key(address) {
        let p = v.profiles[address];
        ReputationState {
            profiles: v.profiles.insert(address, decayed(p, now)),
            notices: v.notices + decay_notices(p, now),
            ..v
        }
    } else {
        v
    }
}

/// The profile on which an event for `address` acts: the stored one, or a
/// fresh one created at `now`.
pub open spec fn profile_for_event(v: ReputationState, address: ContributorId, now: u64) -> ProfileView {
    if v.profiles.contains_key(address) {
        v.profiles[address]
    } else {
        fresh_view(address, now)
    }
}

/// The store after recording an event for `address` at `now`.
pub open spec fn after_update(
    v: ReputationState,
    address: ContributorId,
    event: ReputationEvent,
    value: u32,
    now: u64,
) -> ReputationState {
    let p = profile_for_event(v, address, now);
    let q = after_event(p, event, value, now);
    let created = if v.profiles.contains_key(address) {
        Seq::empty()
    } else {
        seq![init_notice(address, now)]
    };
    ReputationState {
        profiles: v.profiles.insert(address, q),
        notices: v.notices + created + update_notices(p, q, event, now),
        ..v
    }
}

/// Whether an award of `achievement_id` to `address` goes through on store
/// `v` (already refreshed): the profile exists, the catalog holds the
/// achievement, and the profile may be awarded it.
pub open spec fn award_allowed(v: ReputationState, address: ContributorId, achievement_id: u64) -> bool {
    v.profiles.contains_key(address) && in_catalog(v, achievement_id) && eligible(
        v.profiles[address],
        catalog_entry(v, achievement_id),
    )
}

/// The store `v` (already refreshed) after a successful award.
pub open spec fn after_award(
    v: ReputationState,
    address: ContributorId,
    achievement_id: u64,
    now: u64,
) -> ReputationState {
    let p = v.profiles[address];
    let a = catalog_entry(v, achievement_id);
    let q = awarded(p, a);
    ReputationState {
        profiles: v.profiles.insert(address, q),
        notices: v.notices + seq![
            Notice::AchievementAwarded(
                AchievementAwardedEvent {
                    address,
                    achievement_id,
                    achievement_name: a.name,
                    points_awarded: a.points,
                    timestamp: now,
                },
            ),
        ] + tier_notices(p, q, now),
        ..v
    }
}

// ============ Operations ============

/// Publish the notices of a score update from `p` to `q`.
fn publish_update(
    store: &mut ReputationStore,
    p_score: u32,
    p_tier: ReputationTier,
    q: &ReputationProfile,
    event: ReputationEvent,
    now: u64,
    Ghost(p): Ghost<ProfileView>,
)
    requires
        old(store).wf(),
        p.score == p_score,
        p.tier == p_tier,
    ensures
        final(store).wf(),
        final(store)@ == (ReputationState {
            notices: old(store)@.notices + update_notices(p, q@, event, now),
            ..old(store)@
        }),
{
    publish(
        store,
        Notice::ReputationUpdated(
            ReputationUpdatedEvent {
                address: q.address,
                event_type: event,
                old_score: p_score,
                new_score: q.score,
                old_tier: p_tier,
                new_tier: q.tier,
                timestamp: now,
            },
        ),
    );
    publish_tier_change(store, p_tier, q, now, Ghost(p));
    proof {
        assert(store@.notices =~= old(store)@.notices + update_notices(p, q@, event, now));
    }
}

/// Publish the notice of a tier change from `p` to `q`, if there is one.
fn publish_tier_change(
    store: &mut ReputationStore,
    p_tier: ReputationTier,
    q: &ReputationProfile,
    now: u64,
    Ghost(p): Ghost<ProfileView>,
)
    requires
        old(store).wf(),
        p.tier == p_tier,
    ensures
        final(store).wf(),
        final(store)@ == (ReputationState {
            notices: old(store)@.notices + tier_notices(p, q@, now),
            ..old(store)@
        }),
{
    if p_tier != q.tier {
        publish(
            store,
            Notice::TierChanged(
                TierUpgradedEvent {
                    address: q.address,
                    old_tier: p_tier,
                    new_tier: q.tier,
                    current_score: q.score,
                    timestamp: now,
                },
            ),
        );
    }
    proof {
        assert(store@.notices =~= old(store)@.notices + tier_notices(p, q@, now));
    }
}

/// Run the decay pass on a contributor's stored profile and return a copy of
/// the result, or `None` when the contributor has no profile.
fn refresh(store: &mut ReputationStore, address: ContributorId, now: u64) -> (r: Option<
    ReputationProfile,
>)
    requires
        old(store).wf(),
    ensures
        final(store).wf(),
        final(store)@ == refreshed(old(store)@, address, now),
        match r {
            Some(p) => old(store)@.profiles.contains_key(address) && final(store)@.profiles.contains_key(address) && p@ == final(store)@.profiles[address],
            None => !old(store)@.profiles.contains_key(address),
        },
{
    match get_profile(store, address) {
        None => None,
        Some(profile) => {
            let ghost p = profile@;
            let mut profile = profile;
            let old_score = profile.score;
            let old_tier = profile.tier;
            apply_decay(&mut profile, now);
            let copy = copy_profile(&profile);
            set_profile(store, profile);
            if copy.score != old_score {
                publish_update(
                    store,
                    old_score,
                    old_tier,
                    &copy,
                    ReputationEvent::TimeDecay,
                    now,
                    Ghost(p),
                );
            }
            proof {
                let v = old(store)@;
                assert(store@.notices =~= v.notices + decay_notices(p, now));
            }
            Some(copy)
        },
    }
}

/// Create the profile of a contributor and publish the notice; fails with
/// `ProfileAlreadyExists` when the contributor already has one.
pub fn initialize_profile(store: &mut ReputationStore, address: ContributorId, now: u64) -> (r:
    Result<ReputationProfile, ReputationError>)
    requires
        old(store).wf(),
    ensures
        final(store).wf(),
        old(store)@.profiles.contains_key(address) ==> r == Err::<
            ReputationProfile,
            ReputationError,
        >(ReputationError::ProfileAlreadyExists) && final(store)@ == old(store)@,
        !old(store)@.profiles.contains_key(address) ==> r is Ok && r->Ok_0@ == fresh_view(
            address,
            now,
        ) && final(store)@ == (ReputationState {
            profiles: old(store)@.profiles.insert(address, fresh_view(address, now)),
            notices: old(store)@.notices.push(init_notice(address, now)),
            ..old(store)@
        }),
{
    if crate::storage::has_profile(store, address) {
        return Err(ReputationError::ProfileAlreadyExists);
    }
    let profile = new_profile(address, now);
    let copy = copy_profile(&profile);
    set_profile(store, profile);
    publish(
        store,
        Notice::ProfileInitialized(
            ProfileInitializedEvent {
                address,
                initial_score: 0,
                tier: ReputationTier::Bronze,
                timestamp: now,
            },
        ),
    );
    Ok(copy)
}

/// Record an event with its value for a contributor at time `now`, creating
/// the profile first if there is none; returns the new score.
///
/// The profile goes through the decay pass, then the event: its counter and
/// the success rate, its points (never below zero, saturating), the tier of
/// the new score, and `now` as the last activity. The notices of the update,
/// and of a tier change, are published.
pub fn update_reputation(
    store: &mut ReputationStore,
    address: ContributorId,
    event: ReputationEvent,
    value: u32,
    now: u64,
) -> (score: u32)
    requires
        old(store).wf(),
    ensures
        final(store).wf(),
        final(store)@ == after_update(old(store)@, address, event, value, now),
        score == final(store)@.profiles[address].score,
{
    let ghost v = store@;
    let mut profile = match get_profile(store, address) {
        Some(p) => p,
        None => {
            let p = new_profile(address, now);
            publish(
                store,
                Notice::ProfileInitialized(
                    ProfileInitializedEvent {
                        address,
                        initial_score: 0,
                        tier: ReputationTier::Bronze,
                        timestamp: now,
                    },
                ),
            );
            p
        },
    };
    let ghost p = profile@;
    let ghost mid = store@;
    proof {
        assert(p == profile_for_event(v, address, now));
    }
    let old_score = profile.score;
    let old_tier = profile.tier;
    apply_event(&mut profile, event, value, now);
    let copy = copy_profile(&profile);
    set_profile(store, profile);
    publish_update(store, old_score, old_tier, &copy, event, now, Ghost(p));
    proof {
        let created = if v.profiles.contains_key(address) {
            Seq::empty()
        } else {
            seq![init_notice(address, now)]
        };
        assert(mid.notices =~= v.notices + created);
        assert(store@.notices =~= v.notices + created + update_notices(p, copy@, event, now));
        assert(store@.profiles == v.profiles.insert(address, copy@));
    }
    copy.score
}

/// Award an achievement to a contributor at time `now`. After the decay pass,
/// the award goes through when the contributor has a profile, the catalog
/// holds the achievement and the profile may be awarded it (it does not hold
/// it yet and meets its criteria); then its id is recorded, its points are
/// added and the notices are published. Returns whether it went through.
pub fn award_achievement(
    store: &mut ReputationStore,
    address: ContributorId,
    achievement_id: u64,
    now: u64,
) -> (r: bool)
    requires
        old(store).wf(),
    ensures
        final(store).wf(),
        r == award_allowed(refreshed(old(store)@, address, now), address, achievement_id),
        r ==> final(store)@ == after_award(
            refreshed(old(store)@, address, now),
            address,
            achievement_id,
            now,
        ),
        !r ==> final(store)@ == refreshed(old(store)@, address, now),
{
    let mut profile = match refresh(store, address, now) {
        Some(p) => p,
        None => return false,
    };
    let ghost v = store@;
    let ghost p = profile@;
    let achievement = match get_achievement(store, achievement_id) {
        Some(a) => copy_achievement(a),
        None => return false,
    };
    if !is_eligible(&profile, &achievement) {
        return false;
    }
    let old_tier = profile.tier;
    grant_achievement(&mut profile, &achievement);
    let copy = copy_profile(&profile);
    set_profile(store, profile);
    publish(
        store,
        Notice::AchievementAwarded(
            AchievementAwardedEvent {
                address,
                achievement_id,
                achievement_name: achievement.name,
                points_awarded: achievement.points,
                timestamp: now,
            },
        ),
    );
    publish_tier_change(store, old_tier, &copy, now, Ghost(p));
    proof {
        assert(store@.profiles == v.profiles.insert(address, awarded(p, catalog_entry(v, achievement_id))));
        assert(store@.notices =~= after_award(v, address, achievement_id, now).notices);
    }
    true
}

/// The profile of a contributor after the decay pass at `now`; fails with
/// `ProfileNotFound` when there is none.
pub fn get_reputation(store: &mut ReputationStore, address: ContributorId, now: u64) -> (r: Result<
    ReputationProfile,
    ReputationError,
>)
    requires
        old(store).wf(),
    ensures
        final(store).wf(),
        final(store)@ == refreshed(old(store)@, address, now),
        match r {
            Ok(p) => old(store)@.profiles.contains_key(address) && p@ == final(store)@.profiles[address],
            Err(e) => !old(store)@.profiles.contains_key(address) && e
                == ReputationError::ProfileNotFound,
        },
{
    match refresh(store, address, now) {
        Some(p) => Ok(p),
        None => Err(ReputationError::ProfileNotFound),
    }
}

/// The tier of a contributor after the decay pass at `now`; Bronze, the tier
/// of a zero score, when the contributor has no profile.
pub fn get_tier(store: &mut ReputationStore, address: ContributorId, now: u64) -> (r: ReputationTier)
    requires
        old(store).wf(),
    ensures
        final(store).wf(),
        final(store)@ == refreshed(old(store)@, address, now),
        r == if old(store)@.profiles.contains_key(address) {
            final(store)@.profiles[address].tier
        } else {
            ReputationTier::Bronze
        },
{
    match refresh(store, address, now) {
        Some(p) => p.tier,
        None => ReputationTier::Bronze,
    }
}

/// The incentive multiplier of a contributor's tier at `now`, in basis points.
pub fn calculate_multiplier(store: &mut ReputationStore, address: ContributorId, now: u64) -> (r:
    u32)
    requires
        old(store).wf(),
    ensures
        final(store).wf(),
        final(store)@ == refreshed(old(store)@, address, now),
        r == multiplier_of(
            if old(store)@.profiles.contains_key(address) {
                final(store)@.profiles[address].tier
            } else {
                ReputationTier::Bronze
            },
        ),
{
    let tier = get_tier(store, address, now);
    calculate_incentive_multiplier(tier)
}

/// The contributors of a group's leaderboard, best first, at most `limit`.
pub fn get_top_contributors_for_guild(store: &ReputationStore, guild_id: u64, limit: u32) -> (r: Vec<
    ContributorId,
>)
    requires
        store.wf(),
    ensures
        is_top_ids(board_of(store@, guild_id), limit as int, r@),
{
    get_top_contributors(store, guild_id, limit)
}

/// Whether a contributor may be awarded an achievement at `now`, after the
/// decay pass; false when the contributor has no profile.
pub fn check_achievement_eligibility(
    store: &mut ReputationStore,
    address: ContributorId,
    achievement_id: u64,
    now: u64,
) -> (r: bool)
    requires
        old(store).wf(),
    ensures
        final(store).wf(),
        final(store)@ == refreshed(old(store)@, address, now),
        r == award_allowed(final(store)@, address, achievement_id),
{
    match refresh(store, address, now) {
        Some(p) => crate::achievements::check_eligibility(store, &p, achievement_id),
        None => false,
    }
}

/// The achievements that a contributor holds, in the order earned, after the
/// decay pass at `now`; none when the contributor has no profile.
pub fn get_achievements(store: &mut ReputationStore, address: ContributorId, now: u64) -> (r: Vec<
    crate::types::Achievement,
>)
    requires
        old(store).wf(),
    ensures
        final(store).wf(),
        final(store)@ == refreshed(old(store)@, address, now),
        r@ == if old(store)@.profiles.contains_key(address) {
            catalog_entries(final(store)@, final(store)@.profiles[address].achievements)
        } else {
            Seq::empty()
        },
{
    match refresh(store, address, now) {
        Some(p) => get_contributor_achievements(store, &p),
        None => Vec::new(),
    }
}

/// Record a contributor's current score (after the decay pass at `now`) in a
/// group's leaderboard; nothing is recorded for a contributor without a
/// profile.
pub fn update_guild_leaderboard(
    store: &mut ReputationStore,
    guild_id: u64,
    address: ContributorId,
    now: u64,
)
    requires
        old(store).wf(),
    ensures
        final(store).wf(),
        ({
            let v = refreshed(old(store)@, address, now);
            if v.profiles.contains_key(address) {
                &&& final(store)@.boards.contains_key(guild_id)
                &&& upserted(
                    board_of(v, guild_id),
                    final(store)@.boards[guild_id],
                    address,
                    v.profiles[address].score,
                )
                &&& final(store)@ == (ReputationState {
                    boards: v.boards.insert(guild_id, final(store)@.boards[guild_id]),
                    ..v
                })
            } else {
                final(store)@ == v
            }
        }),
{
    match refresh(store, address, now) {
        Some(p) => update_leaderboard(store, guild_id, address, p.score),
        None => {},
    }
}

/// Run the decay pass on a contributor's profile at `now` and return the
/// score after it; 0 when the contributor has no profile.
pub fn apply_time_decay(store: &mut ReputationStore, address: ContributorId, now: u64) -> (r: u32)
    requires
        old(store).wf(),
    ensures
        final(store).wf(),
        final(store)@ == refreshed(old(store)@, address, now),
        r == if old(store)@.profiles.contains_key(address) {
            decayed(old(store)@.profiles[address], now).score
        } else {
            0
        },
{
    match refresh(store, address, now) {
        Some(p) => p.score,
        None => 0,
    }
}

/// A new reputation system: no profiles, no leaderboards, and the default
/// achievement catalog under ids 1 to 8.
pub fn initialize_reputation_system() -> (store: ReputationStore)
    ensures
        store.wf(),
        store@.profiles == Map::<ContributorId, ProfileView>::empty(),
        store@.boards == Map::<u64, Seq<crate::leaderboard::LeaderboardEntry>>::empty(),
        store@.notices == Seq::<Notice>::empty(),
        store@.achievements.len() == DEFAULT_CATALOG_SIZE,
        forall|k: int|
            0 <= k < DEFAULT_CATALOG_SIZE ==> {
                let a = #[trigger] store@.achievements[k];
                (a.name@, a.points, a.min_tasks, a.min_success_rate)
                    == crate::achievements::default_terms(k)
            },
{
    let mut store = initialize_reputation_storage();
    initialize_default_achievements(&mut store);
    proof {
        assert forall|k: int| 0 <= k < DEFAULT_CATALOG_SIZE implies {
            let a = #[trigger] store@.achievements[k];
            (a.name@, a.points, a.min_tasks, a.min_success_rate)
                == crate::achievements::default_terms(k)
        } by {
            assert(store@.achievements[0 + k] == store@.achievements[k]);
        }
    }
    store
}

/// Awarding the same achievement twice at the same time: the first award
/// goes through and adds the achievement's points to the score (saturating);
/// the second does not go through and leaves the store, and so the score,
/// as the first left it.
pub proof fn lemma_award_twice(v: ReputationState, address: ContributorId, achievement_id: u64, now: u64)
    requires
        store_wf(v),
        award_allowed(refreshed(v, address, now), address, achievement_id),
    ensures
        ({
            let before = refreshed(v, address, now).profiles[address];
            let v1 = after_award(refreshed(v, address, now), address, achievement_id, now);
            &&& v1.profiles[address].score == bounded_score(
                before.score as int,
                catalog_entry(v, achievement_id).points as int,
            )
            &&& !award_allowed(refreshed(v1, address, now), address, achievement_id)
            &&& refreshed(v1, address, now) == v1
        }),
{
    let p = v.profiles[address];
    let d = decayed(p, now);
    let r = refreshed(v, address, now);
    let a = catalog_entry(v, achievement_id);
    let v1 = after_award(r, address, achievement_id, now);
    let q = v1.profiles[address];
    assert(r.achievements == v.achievements);
    assert(q == awarded(d, a));
    assert(decayed(q, now) == q);
    assert(decay_notices(q, now) =~= Seq::<Notice>::empty());
    assert(v1.profiles.insert(address, q) =~= v1.profiles);
    assert(v1.notices + Seq::<Notice>::empty() =~= v1.notices);
    assert(refreshed(v1, address, now) =~= v1);
    assert(a.id == achievement_id);
    assert(q.achievements[q.achievements.len() - 1] == achievement_id);
    assert(holds(q, achievement_id));
}

} // verus!
