//! Session store model: the durable, TTL-bound mapping from an identity to
//! its single active refresh token.
//!
//! The deployed system keeps this mapping in an external key-value store
//! under one key per identity; this module is the verified model of that
//! contract. Every successful login overwrites the identity's record, so the
//! prior refresh token stops resolving (last-login-wins rotation), and a
//! record past its expiry never resolves.

use vstd::prelude::*;
use vstd::pervasive::VecAdditionalExecFns;
use vstd::string::StringExecFns;

verus! {

/// One identity's refresh-token record.
#[derive(Debug, Clone)]
pub struct SessionRecord {
    pub user_id: String,
    pub token: String,
    pub expires_at: i64,
}

/// The mathematical content of a record: the token and its absolute expiry.
pub ghost struct SessionView {
    pub token: Seq<char>,
    pub expires_at: int,
}

/// The session store: at most one refresh-token record per identity.
#[derive(Debug, Clone)]
pub struct SessionStore {
    records: Vec<SessionRecord>,
}

impl SessionStore {
    /// No two records belong to the same identity.
    pub closed spec fn wf(&self) -> bool {
        forall|i: int, j: int|
            0 <= i < j < self.records@.len() ==> self.records@[i].user_id@
                != self.records@[j].user_id@
    }

    /// The store as a mapping from identity to its active record.
    pub closed spec fn as_map(&self) -> Map<Seq<char>, SessionView> {
        Map::new(
            |k: Seq<char>|
                exists|i: int| 0 <= i < self.records@.len() && self.records@[i].user_id@ == k,
            |k: Seq<char>|
                {
                    let i = choose|i: int|
                        0 <= i < self.records@.len() && self.records@[i].user_id@ == k;
                    SessionView {
                        token: self.records@[i].token@,
                        expires_at: self.records@[i].expires_at as int,
                    }
                },
        )
    }

    /// A token resolves for an identity when it is that identity's current
    /// record and the record has not expired at `now`.
    pub open spec fn spec_resolves(&self, user_id: Seq<char>, token: Seq<char>, now: int) -> bool {
        &&& self.as_map().contains_key(user_id)
        &&& self.as_map()[user_id].token == token
        &&& now < self.as_map()[user_id].expires_at
    }

    /// Membership in the map is the existence of a record.
    proof fn lemma_map_domain(&self, k: Seq<char>)
        ensures
            self.as_map().contains_key(k) <==> exists|i: int|
                0 <= i < self.records@.len() && self.records@[i].user_id@ == k,
    {
    }

    /// The record of each identity matches the map entry of that identity.
    proof fn lemma_record_matches_map(&self, i: int)
        requires
            self.wf(),
            0 <= i < self.records@.len(),
        ensures
            self.as_map().contains_key(self.records@[i].user_id@),
            self.as_map()[self.records@[i].user_id@] == (SessionView {
                token: self.records@[i].token@,
                expires_at: self.records@[i].expires_at as int,
            }),
    {
        let k = self.records@[i].user_id@;
        let j = choose|j: int| 0 <= j < self.records@.len() && self.records@[j].user_id@ == k;
        assert(0 <= j < self.records@.len() && self.records@[j].user_id@ == k);
        if i < j {
            assert(self.records@[i].user_id@ != self.records@[j].user_id@);
        } else if j < i {
            assert(self.records@[j].user_id@ != self.records@[i].user_id@);
        }
    }

    pub fn new() -> (r: Self)
        ensures
            r.wf(),
            r.as_map() == Map::<Seq<char>, SessionView>::empty(),
    {
        let r = Self { records: Vec::new() };
        proof {
            assert(r.as_map() =~= Map::<Seq<char>, SessionView>::empty());
        }
        r
    }

    /// Stores the identity's refresh token with its absolute expiry,
    /// overwriting any record the identity had: the prior token stops
    /// resolving for this identity.
    pub fn put(&mut self, user_id: String, token: String, expires_at: i64)
        requires
            old(self).wf(),
        ensures
            final(self).wf(),
            final(self).as_map() == old(self).as_map().insert(
                user_id@,
                SessionView { token: token@, expires_at: expires_at as int },
            ),
    {
        let ghost uid = user_id@;
        let ghost v1 = SessionView { token: token@, expires_at: expires_at as int };
        let ghost m0 = self.as_map();
        let ghost m1 = m0.insert(uid, v1);
        let n = self.records.len();
        let mut i: usize = 0;
        while i < n
            invariant
                *self == *old(self),
                old(self).wf(),
                uid == user_id@,
                v1 == (SessionView { token: token@, expires_at: expires_at as int }),
                m0 == old(self).as_map(),
                m1 == m0.insert(uid, v1),
                n == self.records@.len(),
                0 <= i <= n,
                forall|j: int| 0 <= j < i ==> self.records@[j].user_id@ != uid,
            decreases n - i,
        {
            if self.records[i].user_id == user_id {
                let ghost idx = i as int;
                let updated = SessionRecord { user_id, token, expires_at };
                self.records.set(i, updated);
                proof {
                    let rold = old(self).records@;
                    let rnew = self.records@;
                    assert(forall|a: int|
                        0 <= a < rnew.len() ==> rnew[a].user_id@ == rold[a].user_id@);
                    assert forall|a: int, b: int|
                        0 <= a < b < rnew.len() implies rnew[a].user_id@ != rnew[b].user_id@ by {
                        assert(rold[a].user_id@ != rold[b].user_id@);
                    }
                    assert(self.wf());
                    assert forall|k: Seq<char>|
                        #[trigger] self.as_map().contains_key(k) == m1.contains_key(k) by {
                        self.lemma_map_domain(k);
                        old(self).lemma_map_domain(k);
                        if m1.contains_key(k) {
                            if k == uid {
                                assert(rnew[idx].user_id@ == k);
                            } else {
                                assert(m0.contains_key(k));
                                let a = choose|a: int|
                                    0 <= a < rold.len() && rold[a].user_id@ == k;
                                assert(0 <= a < rold.len() && rold[a].user_id@ == k);
                                assert(rnew[a].user_id@ == k);
                            }
                        } else {
                            if self.as_map().contains_key(k) {
                                let a = choose|a: int|
                                    0 <= a < rnew.len() && rnew[a].user_id@ == k;
                                assert(0 <= a < rnew.len() && rnew[a].user_id@ == k);
                                assert(rold[a].user_id@ == k);
                                assert(m0.contains_key(k));
                            }
                        }
                    }
                    assert forall|k: Seq<char>|
                        #[trigger] self.as_map().contains_key(k) implies self.as_map()[k]
                        == m1[k] by {
                        self.lemma_map_domain(k);
                        let a = choose|a: int| 0 <= a < rnew.len() && rnew[a].user_id@ == k;
                        assert(0 <= a < rnew.len() && rnew[a].user_id@ == k);
                        self.lemma_record_matches_map(a);
                        if k == uid {
                            if a != idx {
                                assert(rnew[a].user_id@ != rnew[idx].user_id@);
                            }
                        } else {
                            assert(a != idx);
                            assert(rnew[a] == rold[a]);
                            old(self).lemma_record_matches_map(a);
                        }
                    }
                    assert(self.as_map() =~= m1);
                }
                return ;
            }
            i = i + 1;
        }
        let ghost idx = self.records@.len() as int;
        let fresh = SessionRecord { user_id, token, expires_at };
        self.records.push(fresh);
        proof {
            let rold = old(self).records@;
            let rnew = self.records@;
            assert(rnew.len() == rold.len() + 1);
            assert(rnew[idx].user_id@ == uid);
            assert(forall|a: int| 0 <= a < idx ==> rnew[a] == rold[a]);
            assert(forall|a: int| 0 <= a < idx ==> rold[a].user_id@ != uid);
            assert forall|a: int, b: int|
                0 <= a < b < rnew.len() implies rnew[a].user_id@ != rnew[b].user_id@ by {
                if b == idx {
                    assert(rold[a].user_id@ != uid);
                } else {
                    assert(rold[a].user_id@ != rold[b].user_id@);
                }
            }
            assert(self.wf());
            assert forall|k: Seq<char>|
                #[trigger] self.as_map().contains_key(k) == m1.contains_key(k) by {
                self.lemma_map_domain(k);
                old(self).lemma_map_domain(k);
                if m1.contains_key(k) {
                    if k == uid {
                        assert(rnew[idx].user_id@ == k);
                    } else {
                        assert(m0.contains_key(k));
                        let a = choose|a: int| 0 <= a < rold.len() && rold[a].user_id@ == k;
                        assert(0 <= a < rold.len() && rold[a].user_id@ == k);
                        assert(rnew[a].user_id@ == k);
                    }
                } else {
                    if self.as_map().contains_key(k) {
                        let a = choose|a: int| 0 <= a < rnew.len() && rnew[a].user_id@ == k;
                        assert(0 <= a < rnew.len() && rnew[a].user_id@ == k);
                        assert(a != idx);
                        assert(rold[a].user_id@ == k);
                        assert(m0.contains_key(k));
                    }
                }
            }
            assert forall|k: Seq<char>|
                #[trigger] self.as_map().contains_key(k) implies self.as_map()[k] == m1[k] by {
                self.lemma_map_domain(k);
                let a = choose|a: int| 0 <= a < rnew.len() && rnew[a].user_id@ == k;
                assert(0 <= a < rnew.len() && rnew[a].user_id@ == k);
                self.lemma_record_matches_map(a);
                if k == uid {
                    if a != idx {
                        assert(rnew[a].user_id@ != rnew[idx].user_id@);
                    }
                } else {
                    assert(a != idx);
                    assert(rnew[a] == rold[a]);
                    old(self).lemma_record_matches_map(a);
                }
            }
            assert(self.as_map() =~= m1);
        }
    }

    /// Finds the identity whose current, unexpired refresh token equals the
    /// presented one. `None` when no identity's live record carries it.
    pub fn owner_of(&self, token: &str, now: i64) -> (r: Option<&SessionRecord>)
        requires
            self.wf(),
        ensures
            match r {
                Some(rec) => self.spec_resolves(rec.user_id@, token@, now as int) && rec.token@
                    == token@ && (now as int) < (rec.expires_at as int),
                None => forall|u: Seq<char>| !self.spec_resolves(u, token@, now as int),
            },
    {
        let token_owned = String::from_str(token);
        let n = self.records.len();
        let mut i: usize = 0;
        while i < n
            invariant
                self.wf(),
                token_owned@ == token@,
                n == self.records@.len(),
                0 <= i <= n,
                forall|j: int|
                    0 <= j < i ==> !(self.records@[j].token@ == token@ && (now as int)
                        < (self.records@[j].expires_at as int)),
            decreases n - i,
        {
            let rec = &self.records[i];
            if now < rec.expires_at && rec.token == token_owned {
                proof {
                    self.lemma_record_matches_map(i as int);
                }
                return Some(&self.records[i]);
            }
            i = i + 1;
        }
        proof {
            assert forall|u: Seq<char>| !self.spec_resolves(u, token@, now as int) by {
                if self.as_map().contains_key(u) {
                    let j = choose|j: int|
                        0 <= j < self.records@.len() && self.records@[j].user_id@ == u;
                }
            }
        }
        None
    }

    /// How many identities hold a record.
    pub closed spec fn spec_len(&self) -> int {
        self.records@.len() as int
    }

    /// How many identities hold a record.
    pub fn len(&self) -> (r: usize)
        ensures
            r as int == self.spec_len(),
    {
        self.records.len()
    }
}

/// Rotation: once an identity's refresh token is overwritten, the store maps
/// the identity to the new token alone, and a differing prior token no
/// longer resolves for it.
pub proof fn lemma_refresh_rotation(
    before: Map<Seq<char>, SessionView>,
    user_id: Seq<char>,
    old_token: Seq<char>,
    new_token: Seq<char>,
    expires_at: int,
    now: int,
)
    requires
        old_token != new_token,
    ensures
        ({
            let after = before.insert(
                user_id,
                SessionView { token: new_token, expires_at: expires_at },
            );
            after[user_id].token != old_token
        }),
{
}

} // verus!
