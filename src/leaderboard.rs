use vstd::prelude::*;

use crate::types::ContributorId;

verus! {

/// One member of a group's leaderboard and the score last recorded for it.
#[derive(Clone, Copy, Debug, PartialEq, Eq, Structural)]
pub struct LeaderboardEntry {
    pub address: ContributorId,
    pub score: u32,
}

/// Leaderboard order: the higher score first, and among equal scores the
/// lower contributor id first.
pub open spec fn ranks_before(a: LeaderboardEntry, b: LeaderboardEntry) -> bool {
    a.score > b.score || (a.score == b.score && a.address < b.address)
}

/// No contributor appears twice among the members.
pub open spec fn unique_members(s: Seq<LeaderboardEntry>) -> bool {
    forall|i: int, j: int|
        0 <= i < s.len() && 0 <= j < s.len() && i != j ==> s[i].address != s[j].address
}

/// The members after recording `score` for `address`: that entry, and every
/// other member's entry as it was.
pub open spec fn upserted(
    old_members: Seq<LeaderboardEntry>,
    new_members: Seq<LeaderboardEntry>,
    address: ContributorId,
    score: u32,
) -> bool {
    forall|e: LeaderboardEntry|
        new_members.contains(e) <==> (e == LeaderboardEntry { address, score } || (
        old_members.contains(e) && e.address != address))
}

/// `top` is the leaderboard of `members` cut at `limit`: at most `limit`
/// members, in leaderboard order, and any member left out ranks below every
/// one listed and was left out only because the list is full.
pub open spec fn is_top(members: Seq<LeaderboardEntry>, limit: int, top: Seq<LeaderboardEntry>) -> bool {
    &&& top.len() <= limit
    &&& forall|i: int| 0 <= i < top.len() ==> members.contains(#[trigger] top[i])
    &&& forall|i: int, j: int| 0 <= i < j < top.len() ==> ranks_before(top[i], top[j])
    &&& forall|e: LeaderboardEntry|
        #![trigger members.contains(e)]
        members.contains(e) && !top.contains(e) ==> top.len() == limit && forall|i: int|
            0 <= i < top.len() ==> ranks_before(#[trigger] top[i], e)
}

/// Record `score` as the latest score of `address` among the members.
pub fn upsert_entry(members: &mut Vec<LeaderboardEntry>, address: ContributorId, score: u32)
    requires
        unique_members(old(members)@),
    ensures
        unique_members(final(members)@),
        upserted(old(members)@, final(members)@, address, score),
{
    let entry = LeaderboardEntry { address, score };
    let n = members.len();
    let mut i: usize = 0;
    while i < n
        invariant
            n == members@.len(),
            members@ == old(members)@,
            unique_members(old(members)@),
            entry == (LeaderboardEntry { address, score }),
            i <= n,
            forall|j: int| 0 <= j < i ==> members@[j].address != address,
        decreases n - i,
    {
        if members[i].address == address {
            proof {
                assert(old(members)@[i as int].address == address);
            }
            members.set(i, entry);
            proof {
                let s = old(members)@;
                let t = members@;
                assert(t == s.update(i as int, entry));
                assert forall|a: int, b: int|
                    0 <= a < t.len() && 0 <= b < t.len() && a != b implies t[a].address
                    != t[b].address by {
                    assert(s[a].address != s[b].address);
                    assert(s[i as int].address == address);
                    if a == i {
                        assert(t[a].address == address);
                        assert(t[b] == s[b]);
                    } else if b == i {
                        assert(t[b].address == address);
                        assert(t[a] == s[a]);
                    } else {
                        assert(t[a] == s[a]);
                        assert(t[b] == s[b]);
                    }
                }
                assert forall|e: LeaderboardEntry|
                    t.contains(e) <==> (e == entry || (s.contains(e) && e.address != address)) by {
                    if t.contains(e) {
                        let k = choose|k: int| 0 <= k < t.len() && t[k] == e;
                        if k != i {
                            assert(s[k] == e);
                            assert(s[k].address != s[i as int].address);
                        }
                    }
                    if e == entry {
                        assert(t[i as int] == e);
                    }
                    if s.contains(e) && e.address != address {
                        let k = choose|k: int| 0 <= k < s.len() && s[k] == e;
                        assert(k != i);
                        assert(t[k] == e);
                    }
                }
            }
            return;
        }
        i = i + 1;
    }
    members.push(entry);
    proof {
        let s = old(members)@;
        let t = members@;
        assert(t == s.push(entry));
        assert forall|e: LeaderboardEntry|
            t.contains(e) <==> (e == entry || (s.contains(e) && e.address != address)) by {
            if t.contains(e) {
                let k = choose|k: int| 0 <= k < t.len() && t[k] == e;
                if k < s.len() {
                    assert(s[k] == e);
                }
            }
            if e == entry {
                assert(t[s.len() as int] == e);
            }
            if s.contains(e) && e.address != address {
                let k = choose|k: int| 0 <= k < s.len() && s[k] == e;
                assert(t[k] == e);
            }
        }
    }
}

/// Whether `a` comes before `b` in leaderboard order.
fn entry_ranks_before(a: &LeaderboardEntry, b: &LeaderboardEntry) -> (r: bool)
    ensures
        r == ranks_before(*a, *b),
{
    a.score > b.score || (a.score == b.score && a.address < b.address)
}

/// The best `limit` members in leaderboard order.
pub fn top_entries(members: &Vec<LeaderboardEntry>, limit: u32) -> (top: Vec<LeaderboardEntry>)
    requires
        unique_members(members@),
    ensures
        is_top(members@, limit as int, top@),
{
    let s = members;
    let n = s.len();
    let mut top: Vec<LeaderboardEntry> = Vec::new();
    while top.len() < limit as usize
        invariant
            n == s@.len(),
            s == members,
            unique_members(s@),
            top@.len() <= limit,
            forall|i: int| 0 <= i < top@.len() ==> s@.contains(#[trigger] top@[i]),
            forall|i: int, j: int| 0 <= i < j < top@.len() ==> ranks_before(top@[i], top@[j]),
            forall|e: LeaderboardEntry|
                #![trigger s@.contains(e)]
                s@.contains(e) && !top@.contains(e) ==> forall|i: int|
                    0 <= i < top@.len() ==> ranks_before(#[trigger] top@[i], e),
        decreases limit - top@.len(),
    {
        let k = top.len();
        let mut found = false;
        let mut best = LeaderboardEntry { address: 0, score: 0 };
        let mut j: usize = 0;
        while j < n
            invariant
                n == s@.len(),
                unique_members(s@),
                k == top@.len(),
                forall|i: int| 0 <= i < top@.len() ==> s@.contains(#[trigger] top@[i]),
                forall|i: int, j: int| 0 <= i < j < top@.len() ==> ranks_before(top@[i], top@[j]),
                forall|e: LeaderboardEntry|
                    #![trigger s@.contains(e)]
                    s@.contains(e) && !top@.contains(e) ==> forall|i: int|
                        0 <= i < top@.len() ==> ranks_before(#[trigger] top@[i], e),
                j <= n,
                found ==> s@.contains(best),
                found ==> (k == 0 || ranks_before(top@[k - 1], best)),
                forall|jj: int|
                    0 <= jj < j && (k == 0 || ranks_before(top@[k - 1], s@[jj])) ==> found && (
                    best == s@[jj] || ranks_before(best, s@[jj])),
            decreases n - j,
        {
            let e = s[j];
            let below_last = k == 0 || entry_ranks_before(&top[k - 1], &e);
            if below_last && (!found || entry_ranks_before(&e, &best)) {
                proof {
                    assert(s@.contains(e)) by {
                        assert(s@[j as int] == e);
                    }
                    assert forall|jj: int|
                        0 <= jj < j + 1 && (k == 0 || ranks_before(top@[k - 1], s@[jj])) implies (
                    e == s@[jj] || ranks_before(e, s@[jj])) by {
                        if jj < j {
                            if best != s@[jj] {
                                assert(ranks_before(best, s@[jj]));
                            }
                        }
                    }
                }
                best = e;
                found = true;
            } else {
                proof {
                    if below_last && found && best != e {
                        let jb = choose|jb: int| 0 <= jb < s@.len() && s@[jb] == best;
                        assert(s@[j as int] == e);
                        if jb != j {
                            assert(s@[jb].address != s@[j as int].address);
                        }
                    }
                }
            }
            j = j + 1;
        }
        if !found {
            proof {
                assert forall|e: LeaderboardEntry|
                    #![trigger s@.contains(e)]
                    s@.contains(e) implies top@.contains(e) by {
                    if !top@.contains(e) {
                        let jj = choose|jj: int| 0 <= jj < s@.len() && s@[jj] == e;
                        if k > 0 {
                            assert(ranks_before(top@[k - 1], e));
                        }
                        assert(j == n);
                        assert(0 <= jj < j && (k == 0 || ranks_before(top@[k - 1], s@[jj])));
                        assert(found);
                    }
                }
            }
            return top;
        }
        let ghost old_top = top@;
        top.push(best);
        proof {
            assert forall|i: int| 0 <= i < k implies ranks_before(#[trigger] old_top[i], best) by {
                if i < k - 1 {
                    assert(ranks_before(old_top[i], old_top[k - 1]));
                }
            }
            assert(!old_top.contains(best)) by {
                if old_top.contains(best) {
                    let i = choose|i: int| 0 <= i < old_top.len() && old_top[i] == best;
                    assert(ranks_before(old_top[i], best));
                }
            }
            assert forall|e: LeaderboardEntry|
                #![trigger s@.contains(e)]
                s@.contains(e) && !top@.contains(e) implies forall|i: int|
                    0 <= i < top@.len() ==> ranks_before(#[trigger] top@[i], e) by {
                assert(top@ == old_top.push(best));
                assert(e != best) by {
                    assert(top@[k as int] == best);
                }
                assert(!old_top.contains(e)) by {
                    if old_top.contains(e) {
                        let i = choose|i: int| 0 <= i < old_top.len() && old_top[i] == e;
                        assert(top@[i] == e);
                    }
                }
                let jj = choose|jj: int| 0 <= jj < s@.len() && s@[jj] == e;
                if k > 0 {
                    assert(ranks_before(old_top[k - 1], e));
                }
                assert(ranks_before(best, e));
                assert forall|i: int| 0 <= i < top@.len() implies ranks_before(
                    #[trigger] top@[i],
                    e,
                ) by {
                    if i < k {
                        assert(top@[i] == old_top[i]);
                    }
                }
            }
            assert forall|i: int| 0 <= i < top@.len() implies s@.contains(#[trigger] top@[i]) by {
                if i < k {
                    assert(top@[i] == old_top[i]);
                }
            }
        }
    }
    proof {
        assert forall|e: LeaderboardEntry|
            #![trigger s@.contains(e)]
            s@.contains(e) && !top@.contains(e) implies top@.len() == limit by {}
    }
    top
}

} // verus!
