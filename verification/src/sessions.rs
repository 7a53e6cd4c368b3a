//! Session storage with a snapshot index: sessions are kept in insertion
//! order, and a per-snapshot index lists the positions of the sessions that
//! belong to each snapshot, so listing needs no scan over all sessions.

use vstd::prelude::*;
use crate::text::str_eq;

verus! {

/// One stored session.
pub struct SessionData {
    pub id: String,
    pub snapshot_id: String,
    pub data: Vec<u8>,
}

/// Positions in `s` whose session belongs to snapshot `sid`, in increasing
/// order.
pub open spec fn positions_matching(s: Seq<SessionData>, sid: Seq<char>) -> Seq<int>
    decreases s.len(),
{
    if s.len() == 0 {
        Seq::empty()
    } else if s.last().snapshot_id@ == sid {
        positions_matching(s.drop_last(), sid).push(s.len() - 1)
    } else {
        positions_matching(s.drop_last(), sid)
    }
}

/// Every listed position is a real position of a session of that snapshot.
pub proof fn lemma_positions_matching_valid(s: Seq<SessionData>, sid: Seq<char>)
    ensures
        forall|k: int|
            0 <= k < positions_matching(s, sid).len() ==> 0 <= #[trigger] positions_matching(
                s,
                sid,
            )[k] < s.len() && s[positions_matching(s, sid)[k]].snapshot_id@ == sid,
    decreases s.len(),
{
    if s.len() > 0 {
        lemma_positions_matching_valid(s.drop_last(), sid);
        let p = positions_matching(s.drop_last(), sid);
        let q = positions_matching(s, sid);
        assert forall|k: int|
            0 <= k < q.len() implies 0 <= q[k] < s.len() && s[q[k]].snapshot_id@ == sid by {
            if k < p.len() {
                assert(q[k] == p[k]);
                assert(s.drop_last()[p[k]] == s[p[k]]);
            } else {
                assert(q[k] == s.len() - 1);
            }
        }
    }
}

/// A snapshot with no session has no listed position.
pub proof fn lemma_positions_matching_empty(s: Seq<SessionData>, sid: Seq<char>)
    requires
        forall|p: int| 0 <= p < s.len() ==> s[p].snapshot_id@ != sid,
    ensures
        positions_matching(s, sid).len() == 0,
    decreases s.len(),
{
    if s.len() > 0 {
        lemma_positions_matching_empty(s.drop_last(), sid);
    }
}

/// `r` copies, field for field and in order, the sessions of `s` at the
/// positions `ps`.
pub open spec fn copies_match(r: Seq<SessionData>, s: Seq<SessionData>, ps: Seq<int>) -> bool {
    &&& r.len() == ps.len()
    &&& forall|k: int|
        0 <= k < r.len() ==> (#[trigger] r[k].id@) == s[ps[k]].id@ && r[k].snapshot_id@
            == s[ps[k]].snapshot_id@ && r[k].data@ == s[ps[k]].data@
}

/// Session storage with an index from snapshot id to session positions.
pub struct SessionStorage {
    sessions: Vec<SessionData>,
    snapshot_index: Vec<(String, Vec<usize>)>,
}

impl SessionStorage {
    /// All sessions in insertion order.
    pub closed spec fn sessions_view(&self) -> Seq<SessionData> {
        self.sessions@
    }

    /// The index is exact: distinct keys, each key's entry holds exactly the
    /// positions of its sessions, and every stored snapshot id has an entry.
    pub closed spec fn wf(&self) -> bool {
        &&& forall|a: int, b: int|
            0 <= a < b < self.snapshot_index@.len() ==> self.snapshot_index@[a].0@
                != self.snapshot_index@[b].0@
        &&& forall|e: int|
            0 <= e < self.snapshot_index@.len() ==> (#[trigger] self.snapshot_index@[e]).1@.map_values(
                |u: usize| u as int,
            ) == positions_matching(self.sessions@, self.snapshot_index@[e].0@)
        &&& forall|p: int|
            0 <= p < self.sessions@.len() ==> exists|e: int|
                0 <= e < self.snapshot_index@.len() && self.snapshot_index@[e].0@
                    == #[trigger] self.sessions@[p].snapshot_id@
    }

    /// Empty storage.
    pub fn new() -> (r: Self)
        ensures
            r.wf(),
            r.sessions_view().len() == 0,
    {
        SessionStorage { sessions: Vec::new(), snapshot_index: Vec::new() }
    }

    /// Store a session and record its position under its snapshot id.
    pub fn add_session(&mut self, session: SessionData)
        requires
            old(self).wf(),
            old(self).sessions_view().len() < usize::MAX,
        ensures
            final(self).wf(),
            final(self).sessions_view() == old(self).sessions_view().push(session),
    {
        let n = self.sessions.len();
        let ghost old_sessions = self.sessions@;
        let ghost old_index = self.snapshot_index@;
        let sid = session.snapshot_id.clone();
        self.sessions.push(session);
        proof {
            assert(self.sessions@.drop_last() =~= old_sessions);
            assert(self.sessions@.last() == session);
            assert(forall|key: Seq<char>|
                key != sid@ ==> positions_matching(self.sessions@, key) == positions_matching(
                    old_sessions,
                    key,
                ));
            assert(positions_matching(self.sessions@, sid@) == positions_matching(
                old_sessions,
                sid@,
            ).push(n as int));
        }
        let m = self.snapshot_index.len();
        let mut e: usize = 0;
        while e < m
            invariant
                m == self.snapshot_index@.len(),
                e <= m,
                n < usize::MAX,
                n == old_sessions.len(),
                old_sessions == old(self).sessions_view(),
                self.snapshot_index@ == old_index,
                self.sessions@ == old_sessions.push(session),
                self.sessions@.len() == n + 1,
                sid@ == self.sessions@[n as int].snapshot_id@,
                forall|key: Seq<char>|
                    key != sid@ ==> positions_matching(self.sessions@, key) == positions_matching(
                        old_sessions,
                        key,
                    ),
                positions_matching(self.sessions@, sid@) == positions_matching(
                    old_sessions,
                    sid@,
                ).push(n as int),
                forall|a: int, b: int|
                    0 <= a < b < old_index.len() ==> old_index[a].0@ != old_index[b].0@,
                forall|ei: int|
                    0 <= ei < old_index.len() ==> (#[trigger] old_index[ei]).1@.map_values(
                        |u: usize| u as int,
                    ) == positions_matching(old_sessions, old_index[ei].0@),
                forall|p: int|
                    0 <= p < old_sessions.len() ==> exists|ei: int|
                        0 <= ei < old_index.len() && old_index[ei].0@
                            == #[trigger] old_sessions[p].snapshot_id@,
                forall|k: int| 0 <= k < e ==> self.snapshot_index@[k].0@ != sid@,
            decreases m - e,
        {
            if str_eq(self.snapshot_index[e].0.as_str(), sid.as_str()) {
                self.snapshot_index[e].1.push(n);
                proof {
                    let ni = self.snapshot_index@;
                    assert(ni[e as int].0 == old_index[e as int].0);
                    assert(ni[e as int].1@ == old_index[e as int].1@.push(n));
                    let oe = old_index[e as int];
                    assert(ni[e as int].1@.map_values(|u: usize| u as int) =~= oe.1@.map_values(
                        |u: usize| u as int,
                    ).push(n as int));
                    assert(forall|k: int| 0 <= k < ni.len() ==> ni[k].0 == old_index[k].0);
                    assert(forall|ei: int|
                        0 <= ei < ni.len() && ei != e ==> (#[trigger] ni[ei]).1@.map_values(
                            |u: usize| u as int,
                        ) == positions_matching(self.sessions@, ni[ei].0@));
                    assert((#[trigger] ni[e as int]).1@.map_values(|u: usize| u as int)
                        == positions_matching(self.sessions@, sid@));
                    assert forall|p: int| 0 <= p < self.sessions@.len() implies exists|ei: int|
                        0 <= ei < ni.len() && ni[ei].0@ == #[trigger] self.sessions@[p].snapshot_id@ by {
                        if p < n {
                            assert(self.sessions@[p] == old_sessions[p]);
                            let w = choose|ei: int|
                                0 <= ei < old_index.len() && old_index[ei].0@
                                    == old_sessions[p].snapshot_id@;
                            assert(ni[w].0@ == self.sessions@[p].snapshot_id@);
                        } else {
                            assert(ni[e as int].0@ == self.sessions@[p].snapshot_id@);
                        }
                    }
                }
                return;
            }
            e = e + 1;
        }
        let mut fresh: Vec<usize> = Vec::new();
        fresh.push(n);
        proof {
            assert(forall|p: int|
                0 <= p < old_sessions.len() ==> old_sessions[p].snapshot_id@ != sid@) by {
                if exists|p: int| 0 <= p < old_sessions.len() && old_sessions[p].snapshot_id@
                    == sid@ {
                    let p = choose|p: int|
                        0 <= p < old_sessions.len() && old_sessions[p].snapshot_id@ == sid@;
                    let w = choose|ei: int|
                        0 <= ei < old_index.len() && old_index[ei].0@ == old_sessions[p].snapshot_id@;
                }
            }
            lemma_positions_matching_empty(old_sessions, sid@);
            assert(fresh@.map_values(|u: usize| u as int) =~= seq![n as int]);
            assert(positions_matching(self.sessions@, sid@) =~= seq![n as int]);
        }
        let ghost pre_push = self.snapshot_index@;
        self.snapshot_index.push((sid, fresh));
        proof {
            let ni = self.snapshot_index@;
            assert(ni.len() == old_index.len() + 1);
            assert(forall|k: int| 0 <= k < old_index.len() ==> ni[k] == old_index[k]);
            assert forall|p: int| 0 <= p < self.sessions@.len() implies exists|ei: int|
                0 <= ei < ni.len() && ni[ei].0@ == #[trigger] self.sessions@[p].snapshot_id@ by {
                if p < n {
                    assert(self.sessions@[p] == old_sessions[p]);
                    let w = choose|ei: int|
                        0 <= ei < old_index.len() && old_index[ei].0@
                            == old_sessions[p].snapshot_id@;
                    assert(ni[w].0@ == self.sessions@[p].snapshot_id@);
                } else {
                    assert(ni[old_index.len() as int].0@ == self.sessions@[p].snapshot_id@);
                }
            }
        }
    }

    /// Copies of the sessions of one snapshot, in insertion order, found
    /// through the index.
    pub fn list_session_snapshots(&self, snapshot_id: &str) -> (r: Vec<SessionData>)
        requires
            self.wf(),
        ensures
            copies_match(
                r@,
                self.sessions_view(),
                positions_matching(self.sessions_view(), snapshot_id@),
            ),
    {
        let m = self.snapshot_index.len();
        let mut e: usize = 0;
        while e < m
            invariant
                self.wf(),
                m == self.snapshot_index@.len(),
                e <= m,
                forall|k: int| 0 <= k < e ==> self.snapshot_index@[k].0@ != snapshot_id@,
            decreases m - e,
        {
            if str_eq(self.snapshot_index[e].0.as_str(), snapshot_id) {
                let ghost positions = positions_matching(self.sessions@, snapshot_id@);
                proof {
                    lemma_positions_matching_valid(self.sessions@, snapshot_id@);
                    assert(self.snapshot_index@[e as int].0@ == snapshot_id@);
                    assert((#[trigger] self.snapshot_index@[e as int]).1@.map_values(
                        |u: usize| u as int,
                    ) == positions);
                }
                let idxs = &self.snapshot_index[e].1;
                let mut r: Vec<SessionData> = Vec::new();
                let cnt = idxs.len();
                let mut k: usize = 0;
                while k < cnt
                    invariant
                        cnt == idxs@.len(),
                        k <= cnt,
                        positions == positions_matching(self.sessions@, snapshot_id@),
                        positions.len() == cnt,
                        idxs@.map_values(|u: usize| u as int) == positions,
                        forall|q: int|
                            0 <= q < positions.len() ==> 0 <= #[trigger] positions[q]
                                < self.sessions@.len(),
                        r@.len() == k,
                        forall|q: int|
                            0 <= q < k ==> {
                                let p = positions[q];
                                &&& #[trigger] r@[q].id@ == self.sessions@[p].id@
                                &&& r@[q].snapshot_id@ == self.sessions@[p].snapshot_id@
                                &&& r@[q].data@ == self.sessions@[p].data@
                            },
                    decreases cnt - k,
                {
                    proof {
                        let ki = k as int;
                        assert(idxs@.map_values(|u: usize| u as int)[ki] == positions[ki]);
                    }
                    let p = idxs[k];
                    let s = &self.sessions[p];
                    let copied = SessionData {
                        id: s.id.clone(),
                        snapshot_id: s.snapshot_id.clone(),
                        data: copy_bytes(&s.data),
                    };
                    r.push(copied);
                    k = k + 1;
                }
                proof {
                    assert(copies_match(r@, self.sessions_view(), positions));
                }
                return r;
            }
            e = e + 1;
        }
        proof {
            assert(forall|p: int|
                0 <= p < self.sessions@.len() ==> self.sessions@[p].snapshot_id@ != snapshot_id@);
            lemma_positions_matching_empty(self.sessions@, snapshot_id@);
        }
        Vec::new()
    }
}

/// Byte-for-byte copy of a vector.
fn copy_bytes(v: &Vec<u8>) -> (r: Vec<u8>)
    ensures
        r@ == v@,
{
    let mut r: Vec<u8> = Vec::new();
    let n = v.len();
    let mut i: usize = 0;
    while i < n
        invariant
            n == v@.len(),
            i <= n,
            r@ == v@.subrange(0, i as int),
        decreases n - i,
    {
        r.push(v[i]);
        i = i + 1;
        proof {
            assert(r@ =~= v@.subrange(0, i as int));
        }
    }
    proof {
        assert(r@ =~= v@);
    }
    r
}

} // verus!
