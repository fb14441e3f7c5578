use vstd::prelude::*;

use std::collections::HashMap;

use crate::leaderboard::{is_top, top_entries, unique_members, upsert_entry, upserted, LeaderboardEntry};
use crate::profile::{copy_profile, profile_wf};
use crate::scoring::{success_rate_of, tier_of};
use crate::types::{Achievement, ContributorId, Notice, ProfileView, ReputationProfile};

verus! {

broadcast use vstd::std_specs::hash::group_hash_axioms;

/// What the store holds: each contributor's profile, the achievement catalog
/// in id order, each group's leaderboard members, and the notices published
/// and not yet taken.
pub struct ReputationState {
    pub profiles: Map<ContributorId, ProfileView>,
    pub achievements: Seq<Achievement>,
    pub boards: Map<u64, Seq<LeaderboardEntry>>,
    pub notices: Seq<Notice>,
}

/// The store's invariant: each profile sits under its own contributor id and
/// is well formed; the catalog's ids run 1, 2, 3, ... in order; no group
/// lists a contributor twice.
pub open spec fn store_wf(v: ReputationState) -> bool {
    &&& forall|a: ContributorId|
        #[trigger] v.profiles.contains_key(a) ==> v.profiles[a].address == a && profile_wf(
            v.profiles[a],
        )
    &&& forall|i: int| 0 <= i < v.achievements.len() ==> #[trigger] v.achievements[i].id == i + 1
    &&& v.achievements.len() < u64::MAX
    &&& forall|g: u64| #[trigger] v.boards.contains_key(g) ==> unique_members(v.boards[g])
}

/// Whether the catalog holds an achievement with this id.
pub open spec fn in_catalog(v: ReputationState, id: u64) -> bool {
    1 <= id <= v.achievements.len()
}

/// The achievement with this id, when `in_catalog` holds.
pub open spec fn catalog_entry(v: ReputationState, id: u64) -> Achievement {
    v.achievements[id - 1]
}

/// The members of a group's leaderboard (none for a group never recorded).
pub open spec fn board_of(v: ReputationState, group: u64) -> Seq<LeaderboardEntry> {
    if v.boards.contains_key(group) {
        v.boards[group]
    } else {
        Seq::empty()
    }
}

/// `ids` lists, in order, the contributors of some leaderboard of `members`
/// cut at `limit` (see `is_top`).
pub open spec fn is_top_ids(members: Seq<LeaderboardEntry>, limit: int, ids: Seq<ContributorId>) -> bool {
    exists|top: Seq<LeaderboardEntry>|
        is_top(members, limit, top) && ids == top.map_values(|e: LeaderboardEntry| e.address)
}

/// Profiles, achievements and leaderboards of the reputation system, with
/// the notices that its operations publish.
pub struct ReputationStore {
    profiles: HashMap<ContributorId, ReputationProfile>,
    achievements: Vec<Achievement>,
    boards: HashMap<u64, Vec<LeaderboardEntry>>,
    notices: Vec<Notice>,
}

impl View for ReputationStore {
    type V = ReputationState;

    closed spec fn view(&self) -> ReputationState {
        ReputationState {
            profiles: self.profiles@.map_values(|p: ReputationProfile| p@),
            achievements: self.achievements@,
            boards: self.boards@.map_values(|b: Vec<LeaderboardEntry>| b@),
            notices: self.notices@,
        }
    }
}

impl ReputationStore {
    /// The store's invariant.
    pub open spec fn wf(&self) -> bool {
        store_wf(self@)
    }
}

/// Create an empty store.
pub fn initialize_reputation_storage() -> (store: ReputationStore)
    ensures
        store.wf(),
        store@.profiles == Map::<ContributorId, ProfileView>::empty(),
        store@.achievements == Seq::<Achievement>::empty(),
        store@.boards == Map::<u64, Seq<LeaderboardEntry>>::empty(),
        store@.notices == Seq::<Notice>::empty(),
{
    let store = ReputationStore {
        profiles: HashMap::new(),
        achievements: Vec::new(),
        boards: HashMap::new(),
        notices: Vec::new(),
    };
    proof {
        assert(store@.profiles =~= Map::<ContributorId, ProfileView>::empty());
        assert(store@.achievements =~= Seq::<Achievement>::empty());
        assert(store@.boards =~= Map::<u64, Seq<LeaderboardEntry>>::empty());
        assert(store@.notices =~= Seq::<Notice>::empty());
    }
    store
}

/// A copy of the profile of a contributor, if there is one.
pub fn get_profile(store: &ReputationStore, address: ContributorId) -> (r: Option<
    ReputationProfile,
>)
    ensures
        match r {
            Some(p) => store@.profiles.contains_key(address) && p@ == store@.profiles[address],
            None => !store@.profiles.contains_key(address),
        },
{
    match store.profiles.get(&address) {
        Some(p) => Some(copy_profile(p)),
        None => None,
    }
}

/// Save a profile under its contributor id.
pub fn set_profile(store: &mut ReputationStore, profile: ReputationProfile)
    requires
        old(store).wf(),
        profile_wf(profile@),
    ensures
        final(store).wf(),
        final(store)@ == (ReputationState {
            profiles: old(store)@.profiles.insert(profile.address, profile@),
            ..old(store)@
        }),
{
    let ghost pv = profile@;
    let address = profile.address;
    store.profiles.insert(address, profile);
    proof {
        assert(store@.profiles =~= old(store)@.profiles.insert(address, pv));
        assert(store@.boards =~= old(store)@.boards);
    }
}

/// Whether a contributor has a profile.
pub fn has_profile(store: &ReputationStore, address: ContributorId) -> (r: bool)
    ensures
        r == store@.profiles.contains_key(address),
{
    store.profiles.contains_key(&address)
}

/// The achievement with this id, if the catalog holds it.
pub fn get_achievement(store: &ReputationStore, achievement_id: u64) -> (r: Option<&Achievement>)
    ensures
        match r {
            Some(a) => in_catalog(store@, achievement_id) && *a == catalog_entry(
                store@,
                achievement_id,
            ),
            None => !in_catalog(store@, achievement_id),
        },
{
    if achievement_id >= 1 && achievement_id <= store.achievements.len() as u64 {
        Some(&store.achievements[(achievement_id - 1) as usize])
    } else {
        None
    }
}

/// Add an achievement to the catalog under the next id.
pub fn set_achievement(store: &mut ReputationStore, achievement: Achievement)
    requires
        old(store).wf(),
        achievement.id == old(store)@.achievements.len() + 1,
        old(store)@.achievements.len() + 1 < u64::MAX,
    ensures
        final(store).wf(),
        final(store)@ == (ReputationState {
            achievements: old(store)@.achievements.push(achievement),
            ..old(store)@
        }),
{
    store.achievements.push(achievement);
    proof {
        assert(store@.profiles =~= old(store)@.profiles);
        assert(store@.boards =~= old(store)@.boards);
    }
}

/// The id that the next achievement of the catalog will get.
pub fn get_next_achievement_id(store: &ReputationStore) -> (r: u64)
    requires
        store.wf(),
    ensures
        r == store@.achievements.len() + 1,
{
    store.achievements.len() as u64 + 1
}

/// The whole achievement catalog, in id order.
pub fn get_all_achievements(store: &ReputationStore) -> (r: &Vec<Achievement>)
    ensures
        r@ == store@.achievements,
{
    &store.achievements
}

/// Record `score` as the latest score of `address` in a group's leaderboard.
pub fn update_leaderboard(
    store: &mut ReputationStore,
    guild_id: u64,
    address: ContributorId,
    score: u32,
)
    requires
        old(store).wf(),
    ensures
        final(store).wf(),
        final(store)@.boards.contains_key(guild_id),
        upserted(board_of(old(store)@, guild_id), final(store)@.boards[guild_id], address, score),
        final(store)@ == (ReputationState {
            boards: old(store)@.boards.insert(guild_id, final(store)@.boards[guild_id]),
            ..old(store)@
        }),
{
    let mut members = match store.boards.remove(&guild_id) {
        Some(m) => m,
        None => Vec::new(),
    };
    proof {
        assert(members@ == board_of(old(store)@, guild_id));
        assert(unique_members(members@));
    }
    upsert_entry(&mut members, address, score);
    let ghost mv = members@;
    store.boards.insert(guild_id, members);
    proof {
        assert(store@.boards =~= old(store)@.boards.insert(guild_id, mv));
        assert(store@.profiles =~= old(store)@.profiles);
    }
}

/// The contributors of a group's leaderboard, best first, at most `limit`.
pub fn get_top_contributors(store: &ReputationStore, guild_id: u64, limit: u32) -> (r: Vec<
    ContributorId,
>)
    requires
        store.wf(),
    ensures
        is_top_ids(board_of(store@, guild_id), limit as int, r@),
{
    let empty: Vec<LeaderboardEntry> = Vec::new();
    let members = match store.boards.get(&guild_id) {
        Some(m) => m,
        None => &empty,
    };
    proof {
        assert(members@ =~= board_of(store@, guild_id));
    }
    let top = top_entries(members, limit);
    let mut ids: Vec<ContributorId> = Vec::new();
    let mut i: usize = 0;
    while i < top.len()
        invariant
            i <= top@.len(),
            ids@ == top@.subrange(0, i as int).map_values(|e: LeaderboardEntry| e.address),
        decreases top@.len() - i,
    {
        ids.push(top[i].address);
        proof {
            assert(top@.subrange(0, i + 1).map_values(|e: LeaderboardEntry| e.address) =~= top@.subrange(
                0,
                i as int,
            ).map_values(|e: LeaderboardEntry| e.address).push(top@[i as int].address));
        }
        i = i + 1;
    }
    proof {
        assert(top@.subrange(0, top@.len() as int) =~= top@);
    }
    ids
}

/// The members of a group's leaderboard with their last recorded scores.
pub fn get_board(store: &ReputationStore, guild_id: u64) -> (r: Vec<LeaderboardEntry>)
    ensures
        r@ == board_of(store@, guild_id),
{
    let mut copy: Vec<LeaderboardEntry> = Vec::new();
    match store.boards.get(&guild_id) {
        Some(members) => {
            let mut i: usize = 0;
            while i < members.len()
                invariant
                    i <= members@.len(),
                    copy@ == members@.subrange(0, i as int),
                decreases members@.len() - i,
            {
                copy.push(members[i]);
                proof {
                    assert(members@.subrange(0, i + 1) =~= members@.subrange(0, i as int).push(
                        members@[i as int],
                    ));
                }
                i = i + 1;
            }
            proof {
                assert(members@.subrange(0, members@.len() as int) =~= members@);
            }
        },
        None => {
            proof {
                assert(copy@ =~= Seq::<LeaderboardEntry>::empty());
            }
        },
    }
    copy
}

/// Publish a notice.
pub fn publish(store: &mut ReputationStore, notice: Notice)
    requires
        old(store).wf(),
    ensures
        final(store).wf(),
        final(store)@ == (ReputationState { notices: old(store)@.notices.push(notice), ..old(store)@ }),
{
    store.notices.push(notice);
    proof {
        assert(store@.profiles =~= old(store)@.profiles);
        assert(store@.boards =~= old(store)@.boards);
    }
}

/// Take the notices published so far, oldest first, leaving none.
pub fn take_notices(store: &mut ReputationStore) -> (r: Vec<Notice>)
    requires
        old(store).wf(),
    ensures
        final(store).wf(),
        r@ == old(store)@.notices,
        final(store)@ == (ReputationState { notices: Seq::<Notice>::empty(), ..old(store)@ }),
{
    let mut taken: Vec<Notice> = Vec::new();
    std::mem::swap(&mut taken, &mut store.notices);
    proof {
        assert(store@.notices =~= Seq::<Notice>::empty());
        assert(store@.profiles =~= old(store)@.profiles);
        assert(store@.boards =~= old(store)@.boards);
    }
    taken
}

/// In a well-formed store, which every operation that changes the store
/// leaves behind, each profile's score is never negative, its tier is the
/// tier of its score and its success rate agrees with its task counters.
pub proof fn lemma_stored_profiles_consistent(v: ReputationState, address: ContributorId)
    requires
        store_wf(v),
        v.profiles.contains_key(address),
    ensures
        v.profiles[address].score >= 0,
        v.profiles[address].tier == tier_of(v.profiles[address].score as int),
        v.profiles[address].success_rate == success_rate_of(
            v.profiles[address].tasks_completed as int,
            v.profiles[address].tasks_failed as int,
        ),
{
}

/// Whether a contributor is among the members of a leaderboard.
pub open spec fn is_member(members: Seq<LeaderboardEntry>, id: ContributorId) -> bool {
    exists|e: LeaderboardEntry| members.contains(e) && e.address == id
}

/// A group's top list never holds more than `limit` contributors, and holds
/// only contributors recorded in that group.
pub proof fn lemma_top_within_limit_and_group(
    members: Seq<LeaderboardEntry>,
    limit: int,
    ids: Seq<ContributorId>,
)
    requires
        is_top_ids(members, limit, ids),
    ensures
        ids.len() <= limit,
        forall|i: int| 0 <= i < ids.len() ==> is_member(members, #[trigger] ids[i]),
{
    let top = choose|top: Seq<LeaderboardEntry>|
        is_top(members, limit, top) && ids == top.map_values(|e: LeaderboardEntry| e.address);
    assert forall|i: int| 0 <= i < ids.len() implies is_member(members, #[trigger] ids[i]) by {
        assert(members.contains(top[i]));
        assert(ids[i] == top[i].address);
    }
}

} // verus!
