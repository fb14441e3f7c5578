use vstd::prelude::*;

use crate::profile::{profile_wf, with_score};
use crate::scoring::{bounded_score, calculate_tier};
use crate::storage::{
    catalog_entry, get_achievement, get_all_achievements, get_next_achievement_id, in_catalog,
    set_achievement, ReputationStore, ReputationState,
};
use crate::types::{Achievement, ProfileView, ReputationProfile};

verus! {

/// Whether the profile already holds the achievement with this id.
pub open spec fn holds(p: ProfileView, achievement_id: u64) -> bool {
    p.achievements.contains(achievement_id)
}

/// Whether the profile meets an achievement's criteria.
pub open spec fn meets_criteria(p: ProfileView, a: Achievement) -> bool {
    p.tasks_completed >= a.min_tasks && p.success_rate >= a.min_success_rate
}

/// Whether the profile may be awarded the achievement: it does not hold it
/// yet and meets its criteria.
pub open spec fn eligible(p: ProfileView, a: Achievement) -> bool {
    !holds(p, a.id) && meets_criteria(p, a)
}

/// The profile after an award: the id is appended, the points are added
/// (saturating) and the tier follows the score. No counter changes.
pub open spec fn awarded(p: ProfileView, a: Achievement) -> ProfileView {
    with_score(
        ProfileView { achievements: p.achievements.push(a.id), ..p },
        bounded_score(p.score as int, a.points as int) as u32,
    )
}

/// Check whether a profile already holds an achievement.
pub fn has_achievement(profile: &ReputationProfile, achievement_id: u64) -> (r: bool)
    ensures
        r == holds(profile@, achievement_id),
{
    let n = profile.achievements.len();
    let mut i: usize = 0;
    while i < n
        invariant
            n == profile.achievements@.len(),
            i <= n,
            forall|j: int| 0 <= j < i ==> profile.achievements@[j] != achievement_id,
        decreases n - i,
    {
        if profile.achievements[i] == achievement_id {
            return true;
        }
        i = i + 1;
    }
    false
}

/// Check an achievement's criteria against a profile, ignoring whether it is
/// already held.
pub fn meets_achievement_criteria(profile: &ReputationProfile, achievement: &Achievement) -> (r:
    bool)
    ensures
        r == meets_criteria(profile@, *achievement),
{
    profile.tasks_completed >= achievement.min_tasks && profile.success_rate
        >= achievement.min_success_rate
}

/// Check whether a profile may be awarded an achievement.
pub fn is_eligible(profile: &ReputationProfile, achievement: &Achievement) -> (r: bool)
    ensures
        r == eligible(profile@, *achievement),
{
    !has_achievement(profile, achievement.id) && meets_achievement_criteria(profile, achievement)
}

/// Record an achievement on a profile that may receive it: append its id and
/// add its points to the score, saturating, then re-derive the tier.
pub fn grant_achievement(profile: &mut ReputationProfile, achievement: &Achievement)
    requires
        eligible(old(profile)@, *achievement),
    ensures
        final(profile)@ == awarded(old(profile)@, *achievement),
        profile_wf(old(profile)@) ==> profile_wf(final(profile)@),
{
    profile.achievements.push(achievement.id);
    profile.score = profile.score.saturating_add(achievement.points);
    profile.tier = calculate_tier(profile.score);
    proof {
        let p = old(profile)@;
        if profile_wf(p) {
            assert(p.achievements.push(achievement.id).no_duplicates()) by {
                let s = p.achievements.push(achievement.id);
                assert forall|i: int, j: int|
                    0 <= i < s.len() && 0 <= j < s.len() && i != j implies s[i] != s[j] by {
                    if i < p.achievements.len() && j < p.achievements.len() {
                    } else if i < p.achievements.len() {
                        assert(p.achievements.contains(s[i]));
                    } else {
                        assert(p.achievements.contains(s[j]));
                    }
                }
            }
        }
    }
}

/// The catalog entries of the given ids, in the ids' order, skipping ids
/// that the catalog does not hold.
pub open spec fn catalog_entries(v: ReputationState, ids: Seq<u64>) -> Seq<Achievement>
    decreases ids.len(),
{
    if ids.len() == 0 {
        Seq::empty()
    } else {
        let rest = catalog_entries(v, ids.drop_last());
        if in_catalog(v, ids.last()) {
            rest.push(catalog_entry(v, ids.last()))
        } else {
            rest
        }
    }
}

/// The achievements among `catalog` that the profile may be awarded, in
/// catalog order.
pub open spec fn eligible_entries(p: ProfileView, catalog: Seq<Achievement>) -> Seq<Achievement>
    decreases catalog.len(),
{
    if catalog.len() == 0 {
        Seq::empty()
    } else {
        let rest = eligible_entries(p, catalog.drop_last());
        if eligible(p, catalog.last()) {
            rest.push(catalog.last())
        } else {
            rest
        }
    }
}

/// A copy of an achievement, equal to it.
pub fn copy_achievement(a: &Achievement) -> (r: Achievement)
    ensures
        r == *a,
{
    Achievement {
        id: a.id,
        name: a.name.clone(),
        description: a.description.clone(),
        points: a.points,
        criteria: a.criteria.clone(),
        min_tasks: a.min_tasks,
        min_success_rate: a.min_success_rate,
    }
}

/// Add a new achievement to the catalog under the next id, and return that id.
pub fn create_achievement(
    store: &mut ReputationStore,
    name: String,
    description: String,
    points: u32,
    criteria: String,
    min_tasks: u32,
    min_success_rate: u32,
) -> (id: u64)
    requires
        old(store).wf(),
        old(store)@.achievements.len() + 1 < u64::MAX,
    ensures
        final(store).wf(),
        id == old(store)@.achievements.len() + 1,
        final(store)@ == (ReputationState {
            achievements: old(store)@.achievements.push(
                Achievement {
                    id,
                    name,
                    description,
                    points,
                    criteria,
                    min_tasks,
                    min_success_rate,
                },
            ),
            ..old(store)@
        }),
{
    let id = get_next_achievement_id(store);
    let achievement = Achievement {
        id,
        name,
        description,
        points,
        criteria,
        min_tasks,
        min_success_rate,
    };
    set_achievement(store, achievement);
    id
}

/// Check whether a profile may be awarded the achievement with this id: the
/// catalog holds it, the profile does not, and its criteria are met.
pub fn check_eligibility(store: &ReputationStore, profile: &ReputationProfile, achievement_id: u64) -> (r:
    bool)
    requires
        store.wf(),
    ensures
        r == (in_catalog(store@, achievement_id) && eligible(
            profile@,
            catalog_entry(store@, achievement_id),
        )),
{
    if has_achievement(profile, achievement_id) {
        return false;
    }
    match get_achievement(store, achievement_id) {
        Some(achievement) => meets_achievement_criteria(profile, achievement),
        None => false,
    }
}

/// The achievements that a profile holds, in the order they were earned.
pub fn get_contributor_achievements(store: &ReputationStore, profile: &ReputationProfile) -> (r: Vec<
    Achievement,
>)
    ensures
        r@ == catalog_entries(store@, profile@.achievements),
{
    let ids = &profile.achievements;
    let mut held: Vec<Achievement> = Vec::new();
    let mut i: usize = 0;
    while i < ids.len()
        invariant
            i <= ids@.len(),
            held@ == catalog_entries(store@, ids@.subrange(0, i as int)),
        decreases ids@.len() - i,
    {
        proof {
            assert(ids@.subrange(0, i + 1).drop_last() =~= ids@.subrange(0, i as int));
        }
        match get_achievement(store, ids[i]) {
            Some(achievement) => {
                held.push(copy_achievement(achievement));
            },
            None => {},
        }
        i = i + 1;
    }
    proof {
        assert(ids@.subrange(0, ids@.len() as int) =~= ids@);
    }
    held
}

/// The catalog's achievements that a profile may be awarded, in id order.
pub fn get_eligible_achievements(store: &ReputationStore, profile: &ReputationProfile) -> (r: Vec<
    Achievement,
>)
    ensures
        r@ == eligible_entries(profile@, store@.achievements),
{
    let all = get_all_achievements(store);
    let mut found: Vec<Achievement> = Vec::new();
    let mut i: usize = 0;
    while i < all.len()
        invariant
            i <= all@.len(),
            all@ == store@.achievements,
            found@ == eligible_entries(profile@, all@.subrange(0, i as int)),
        decreases all@.len() - i,
    {
        proof {
            assert(all@.subrange(0, i + 1).drop_last() =~= all@.subrange(0, i as int));
        }
        let achievement = &all[i];
        if is_eligible(profile, achievement) {
            found.push(copy_achievement(achievement));
        }
        i = i + 1;
    }
    proof {
        assert(all@.subrange(0, all@.len() as int) =~= all@);
    }
    found
}

/// The terms of the default catalog's `k`-th entry (from 0): its name, its
/// points, its minimum tasks and its minimum success rate.
pub open spec fn default_terms(k: int) -> (Seq<char>, u32, u32, u32) {
    if k == 0 {
        ("First Steps"@, 10, 1, 0)
    } else if k == 1 {
        ("Task Veteran"@, 50, 10, 0)
    } else if k == 2 {
        ("Task Master"@, 200, 50, 0)
    } else if k == 3 {
        ("Perfect Record"@, 100, 10, 100)
    } else if k == 4 {
        ("Reliable Contributor"@, 150, 20, 95)
    } else if k == 5 {
        ("Century Club"@, 500, 100, 0)
    } else if k == 6 {
        ("Dispute Resolver"@, 75, 5, 80)
    } else {
        ("Elite Contributor"@, 1000, 50, 90)
    }
}

/// Number of entries in the default catalog.
pub const DEFAULT_CATALOG_SIZE: u64 = 8;

/// An owned copy of a text.
fn text(s: &str) -> (r: String)
    ensures
        r@ == s@,
{
    s.to_string()
}

/// Add the default achievements to the catalog, in order, under the next ids.
pub fn initialize_default_achievements(store: &mut ReputationStore)
    requires
        old(store).wf(),
        old(store)@.achievements.len() + DEFAULT_CATALOG_SIZE < u64::MAX,
    ensures
        final(store).wf(),
        final(store)@ == (ReputationState { achievements: final(store)@.achievements, ..old(store)@ }),
        final(store)@.achievements.len() == old(store)@.achievements.len() + DEFAULT_CATALOG_SIZE,
        final(store)@.achievements.subrange(0, old(store)@.achievements.len() as int)
            == old(store)@.achievements,
        forall|k: int|
            0 <= k < DEFAULT_CATALOG_SIZE ==> {
                let a = #[trigger] final(store)@.achievements[old(store)@.achievements.len() + k];
                (a.name@, a.points, a.min_tasks, a.min_success_rate) == default_terms(k)
            },
{
    let ghost before = store@.achievements;
    create_achievement(
        store,
        text("First Steps"),
        text("Complete your first task"),
        10,
        text("Complete 1 task"),
        1,
        0,
    );
    create_achievement(
        store,
        text("Task Veteran"),
        text("Complete 10 tasks"),
        50,
        text("Complete 10 tasks"),
        10,
        0,
    );
    create_achievement(
        store,
        text("Task Master"),
        text("Complete 50 tasks"),
        200,
        text("Complete 50 tasks"),
        50,
        0,
    );
    create_achievement(
        store,
        text("Perfect Record"),
        text("Maintain 100% success rate with 10+ tasks"),
        100,
        text("Complete 10 tasks with 100% success rate"),
        10,
        100,
    );
    create_achievement(
        store,
        text("Reliable Contributor"),
        text("Maintain 95%+ success rate with 20+ tasks"),
        150,
        text("Complete 20 tasks with 95%+ success rate"),
        20,
        95,
    );
    create_achievement(
        store,
        text("Century Club"),
        text("Complete 100 tasks"),
        500,
        text("Complete 100 tasks"),
        100,
        0,
    );
    create_achievement(
        store,
        text("Dispute Resolver"),
        text("Win 5 disputes"),
        75,
        text("Win 5 disputes with 80%+ success"),
        5,
        80,
    );
    create_achievement(
        store,
        text("Elite Contributor"),
        text("Reach Diamond tier"),
        1000,
        text("Reach 5000+ reputation points"),
        50,
        90,
    );
    proof {
        let n = before.len();
        let after = store@.achievements;
        assert(after.subrange(0, n as int) =~= before);
        assert forall|k: int| 0 <= k < DEFAULT_CATALOG_SIZE implies {
            let a = #[trigger] after[n + k];
            (a.name@, a.points, a.min_tasks, a.min_success_rate) == default_terms(k)
        } by {}
    }
}

} // verus!
