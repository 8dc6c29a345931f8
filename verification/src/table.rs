//! The correlation table: pending entries keyed by correlation token, each
//! holding the waiting caller's completion slot and a creation timestamp.
//!
//! Its mathematical model is a map from token to slot and timestamp; at
//! most one entry per token exists at any time.

use vstd::prelude::*;

verus! {

/// One pending request: its token, the completion slot of the waiting
/// caller, and when it was registered (seconds).
pub struct PendingEntry {
    pub token: String,
    pub slot: u64,
    pub created_at: u64,
}

/// The map a sequence of entries stands for.
pub open spec fn table_map(s: Seq<PendingEntry>) -> Map<Seq<char>, (u64, u64)>
    decreases s.len(),
{
    if s.len() == 0 {
        Map::empty()
    } else {
        table_map(s.drop_last()).insert(s.last().token@, (s.last().slot, s.last().created_at))
    }
}

/// No two entries share a token.
pub open spec fn unique_tokens(s: Seq<PendingEntry>) -> bool {
    forall|i: int, j: int|
        0 <= i < s.len() && 0 <= j < s.len() && i != j ==> s[i].token@ != s[j].token@
}

/// A key is in the map exactly when some entry carries it.
pub proof fn lemma_table_map_contains(s: Seq<PendingEntry>, k: Seq<char>)
    ensures
        table_map(s).contains_key(k) <==> exists|i: int| 0 <= i < s.len() && s[i].token@ == k,
    decreases s.len(),
{
    if s.len() > 0 {
        lemma_table_map_contains(s.drop_last(), k);
        if table_map(s).contains_key(k) {
            if s.last().token@ == k {
                assert(s[s.len() - 1].token@ == k);
            } else {
                let i = choose|i: int| 0 <= i < s.drop_last().len() && s.drop_last()[i].token@ == k;
                assert(s[i].token@ == k);
            }
        }
        if exists|i: int| 0 <= i < s.len() && s[i].token@ == k {
            let i = choose|i: int| 0 <= i < s.len() && s[i].token@ == k;
            if i < s.len() - 1 {
                assert(s.drop_last()[i].token@ == k);
            }
        }
    }
}

/// Under unique tokens, the map holds each entry's slot and timestamp.
pub proof fn lemma_table_map_index(s: Seq<PendingEntry>, i: int)
    requires
        unique_tokens(s),
        0 <= i < s.len(),
    ensures
        table_map(s).contains_key(s[i].token@),
        table_map(s)[s[i].token@] == (s[i].slot, s[i].created_at),
    decreases s.len(),
{
    lemma_table_map_contains(s, s[i].token@);
    if i < s.len() - 1 {
        assert(s.last().token@ != s[i].token@);
        assert(s.drop_last()[i] == s[i]);
        lemma_table_map_index(s.drop_last(), i);
    }
}

/// Removing the entry at `i` removes exactly its key from the map.
pub proof fn lemma_table_map_remove(s: Seq<PendingEntry>, i: int)
    requires
        unique_tokens(s),
        0 <= i < s.len(),
    ensures
        table_map(s.remove(i)) == table_map(s).remove(s[i].token@),
    decreases s.len(),
{
    let k = s[i].token@;
    if i == s.len() - 1 {
        assert(s.remove(i) =~= s.drop_last());
        lemma_table_map_contains(s.drop_last(), k);
        assert(!table_map(s.drop_last()).contains_key(k));
        assert(table_map(s.remove(i)) =~= table_map(s).remove(k));
    } else {
        assert(s.remove(i).drop_last() =~= s.drop_last().remove(i));
        assert(s.remove(i).last() == s.last());
        lemma_table_map_remove(s.drop_last(), i);
        assert(s.drop_last()[i] == s[i]);
        assert(table_map(s.remove(i)) == table_map(s.drop_last().remove(i)).insert(
            s.last().token@,
            (s.last().slot, s.last().created_at),
        ));
        assert(s.last().token@ != k);
        assert(table_map(s.remove(i)) =~= table_map(s).remove(k));
    }
}

/// Appending an entry inserts its key into the map.
pub proof fn lemma_table_map_push(s: Seq<PendingEntry>, e: PendingEntry)
    ensures
        table_map(s.push(e)) == table_map(s).insert(e.token@, (e.slot, e.created_at)),
{
    assert(s.push(e).drop_last() =~= s);
    assert(s.push(e).last() == e);
}

/// Whether an entry registered at `created_at` has aged past `threshold`
/// by `now` (all in seconds).
pub open spec fn expired_at(created_at: u64, now: u64, threshold: u64) -> bool {
    now - created_at > threshold
}

/// Some entry before `bound` carries `tok` and has expired.
pub open spec fn expired_entry_has_token(
    s: Seq<PendingEntry>,
    bound: int,
    tok: Seq<char>,
    now: u64,
    threshold: u64,
) -> bool {
    exists|b: int|
        0 <= b < bound && (#[trigger] s[b]).token@ == tok && expired_at(
            s[b].created_at,
            now,
            threshold,
        )
}

/// Some string of `rs` reads `tok`.
pub open spec fn has_token_str(rs: Seq<String>, tok: Seq<char>) -> bool {
    exists|a: int| 0 <= a < rs.len() && (#[trigger] rs[a])@ == tok
}

/// The correlation table.
pub struct CorrelationTable {
    entries: Vec<PendingEntry>,
}

impl CorrelationTable {
    /// The map this table holds: token to (slot, created-at).
    pub closed spec fn view_map(self) -> Map<Seq<char>, (u64, u64)> {
        table_map(self.entries@)
    }

    /// Well-formed: at most one entry per token.
    pub closed spec fn wf(self) -> bool {
        unique_tokens(self.entries@)
    }

    /// The number of pending entries.
    pub closed spec fn spec_len(self) -> nat {
        self.entries@.len()
    }

    /// An empty table.
    pub fn new() -> (t: CorrelationTable)
        ensures
            t.wf(),
            t.view_map() == Map::<Seq<char>, (u64, u64)>::empty(),
            t.spec_len() == 0,
    {
        CorrelationTable { entries: Vec::new() }
    }

    /// The number of pending entries.
    pub fn len(&self) -> (n: usize)
        ensures
            n == self.spec_len(),
    {
        self.entries.len()
    }

    /// The index of the entry carrying `token`, if one exists.
    fn find(&self, token: &String) -> (r: Option<usize>)
        ensures
            match r {
                Some(i) => i < self.entries@.len() && self.entries@[i as int].token@ == token@,
                None => forall|j: int|
                    0 <= j < self.entries@.len() ==> self.entries@[j].token@ != token@,
            },
    {
        let n = self.entries.len();
        let mut i: usize = 0;
        while i < n
            invariant
                n == self.entries@.len(),
                i <= n,
                forall|j: int| 0 <= j < i ==> self.entries@[j].token@ != token@,
            decreases n - i,
        {
            if self.entries[i].token == *token {
                return Some(i);
            }
            i = i + 1;
        }
        None
    }

    /// Registers `token` for the caller at `slot`: afterwards the table
    /// maps the token to exactly this slot and timestamp. A token already
    /// present is replaced, as an insert into a map.
    pub fn register(&mut self, token: String, slot: u64, created_at: u64)
        requires
            old(self).wf(),
        ensures
            final(self).wf(),
            final(self).view_map() == old(self).view_map().insert(token@, (slot, created_at)),
            final(self).spec_len() <= old(self).spec_len() + 1,
    {
        match self.find(&token) {
            Some(i) => {
                proof {
                    lemma_table_map_remove(self.entries@, i as int);
                }
                self.entries.remove(i);
                proof {
                    assert forall|a: int, b: int|
                        0 <= a < self.entries@.len() && 0 <= b < self.entries@.len() && a
                            != b implies self.entries@[a].token@ != self.entries@[b].token@ by {
                        let pre = old(self).entries@;
                        let ai = if a < i { a } else { a + 1 };
                        let bi = if b < i { b } else { b + 1 };
                        assert(self.entries@[a] == pre[ai]);
                        assert(self.entries@[b] == pre[bi]);
                    }
                }
            },
            None => {},
        }
        let ghost mid = self.entries@;
        let ghost midmap = table_map(mid);
        proof {
            lemma_table_map_push(mid, PendingEntry { token, slot, created_at });
            lemma_table_map_contains(mid, token@);
        }
        self.entries.push(PendingEntry { token, slot, created_at });
        proof {
            assert(final(self).view_map() =~= old(self).view_map().insert(
                token@,
                (slot, created_at),
            ));
        }
    }

    /// Removes and yields the entry carrying `token`, if one exists: the
    /// match is delivered at most once, for afterwards the token is gone.
    /// On a miss the table is unchanged.
    pub fn resolve(&mut self, token: &String) -> (r: Option<PendingEntry>)
        requires
            old(self).wf(),
        ensures
            final(self).wf(),
            match r {
                Some(e) => {
                    &&& old(self).view_map().contains_key(token@)
                    &&& e.token@ == token@
                    &&& (e.slot, e.created_at) == old(self).view_map()[token@]
                    &&& final(self).view_map() == old(self).view_map().remove(token@)
                },
                None => {
                    &&& !old(self).view_map().contains_key(token@)
                    &&& *final(self) == *old(self)
                },
            },
    {
        proof {
            lemma_table_map_contains(self.entries@, token@);
        }
        match self.find(token) {
            Some(i) => {
                proof {
                    lemma_table_map_index(self.entries@, i as int);
                    lemma_table_map_remove(self.entries@, i as int);
                }
                let e = self.entries.remove(i);
                proof {
                    assert forall|a: int, b: int|
                        0 <= a < self.entries@.len() && 0 <= b < self.entries@.len() && a
                            != b implies self.entries@[a].token@ != self.entries@[b].token@ by {
                        let pre = old(self).entries@;
                        let ai = if a < i { a } else { a + 1 };
                        let bi = if b < i { b } else { b + 1 };
                        assert(self.entries@[a] == pre[ai]);
                        assert(self.entries@[b] == pre[bi]);
                    }
                }
                Some(e)
            },
            None => None,
        }
    }

    /// The tokens of all entries that have aged past `threshold`.
    fn expired_tokens(&self, now: u64, threshold: u64) -> (r: Vec<String>)
        requires
            self.wf(),
        ensures
            forall|i: int|
                0 <= i < r@.len() ==> #[trigger] self.view_map().contains_key(r@[i]@)
                    && expired_at(self.view_map()[r@[i]@].1, now, threshold),
            forall|k: Seq<char>|
                self.view_map().contains_key(k) && expired_at(
                    self.view_map()[k].1,
                    now,
                    threshold,
                ) ==> has_token_str(r@, k),
            forall|i: int, j: int|
                0 <= i < r@.len() && 0 <= j < r@.len() && i != j ==> (#[trigger] r@[i])@ != (
                #[trigger] r@[j])@,
    {
        let n = self.entries.len();
        let mut r: Vec<String> = Vec::new();
        let mut i: usize = 0;
        while i < n
            invariant
                self.wf(),
                n == self.entries@.len(),
                i <= n,
                forall|a: int|
                    0 <= a < r@.len() ==> expired_entry_has_token(
                        self.entries@,
                        i as int,
                        (#[trigger] r@[a])@,
                        now,
                        threshold,
                    ),
                forall|b: int|
                    0 <= b < i && expired_at(
                        (#[trigger] self.entries@[b]).created_at,
                        now,
                        threshold,
                    ) ==> has_token_str(r@, self.entries@[b].token@),
                forall|a1: int, a2: int|
                    0 <= a1 < r@.len() && 0 <= a2 < r@.len() && a1 != a2 ==> (#[trigger] r@[a1])@
                        != (#[trigger] r@[a2])@,
            decreases n - i,
        {
            let ghost r_old = r@;
            let e = &self.entries[i];
            if now >= e.created_at && now - e.created_at > threshold {
                r.push(e.token.clone());
            }
            proof {
                let s = self.entries@;
                assert forall|a: int| 0 <= a < r@.len() implies expired_entry_has_token(
                    s,
                    i + 1,
                    (#[trigger] r@[a])@,
                    now,
                    threshold,
                ) by {
                    if a < r_old.len() {
                        assert(r@[a] == r_old[a]);
                        assert(expired_entry_has_token(s, i as int, r_old[a]@, now, threshold));
                        let b = choose|b: int|
                            0 <= b < i && (#[trigger] s[b]).token@ == r_old[a]@ && expired_at(
                                s[b].created_at,
                                now,
                                threshold,
                            );
                        assert((#[trigger] s[b]).token@ == r@[a]@ && expired_at(
                            s[b].created_at,
                            now,
                            threshold,
                        ));
                    } else {
                        assert((#[trigger] s[i as int]).token@ == r@[a]@ && expired_at(
                            s[i as int].created_at,
                            now,
                            threshold,
                        ));
                    }
                }
                assert forall|b: int|
                    0 <= b < i + 1 && expired_at(
                        (#[trigger] s[b]).created_at,
                        now,
                        threshold,
                    ) implies has_token_str(r@, s[b].token@) by {
                    if b < i {
                        assert(has_token_str(r_old, s[b].token@));
                        let a = choose|a: int| 0 <= a < r_old.len() && (#[trigger] r_old[a])@
                            == s[b].token@;
                        assert(r@[a] == r_old[a]);
                        assert((#[trigger] r@[a])@ == s[b].token@);
                    } else {
                        let a = r@.len() - 1;
                        assert((#[trigger] r@[a])@ == s[b].token@);
                    }
                }
                assert forall|a1: int, a2: int|
                    0 <= a1 < r@.len() && 0 <= a2 < r@.len() && a1 != a2 implies (
                #[trigger] r@[a1])@ != (#[trigger] r@[a2])@ by {
                    if a1 < r_old.len() && a2 < r_old.len() {
                        assert(r@[a1] == r_old[a1]);
                        assert(r@[a2] == r_old[a2]);
                    } else {
                        let (ao, an) = if a1 < r_old.len() {
                            (a1, a2)
                        } else {
                            (a2, a1)
                        };
                        assert(r@[an]@ == s[i as int].token@);
                        assert(r@[ao] == r_old[ao]);
                        assert(expired_entry_has_token(s, i as int, r_old[ao]@, now, threshold));
                        let b = choose|b: int|
                            0 <= b < i && (#[trigger] s[b]).token@ == r_old[ao]@ && expired_at(
                                s[b].created_at,
                                now,
                                threshold,
                            );
                        assert(s[b].token@ != s[i as int].token@);
                    }
                }
            }
            i = i + 1;
        }
        proof {
            assert forall|a: int| 0 <= a < r@.len() implies #[trigger] self.view_map().contains_key(
                r@[a]@,
            ) && expired_at(self.view_map()[r@[a]@].1, now, threshold) by {
                let s = self.entries@;
                let b = choose|b: int|
                    0 <= b < n && (#[trigger] s[b]).token@ == r@[a]@ && expired_at(
                        s[b].created_at,
                        now,
                        threshold,
                    );
                lemma_table_map_index(s, b);
            }
            assert forall|k: Seq<char>|
                self.view_map().contains_key(k) && expired_at(
                    self.view_map()[k].1,
                    now,
                    threshold,
                ) implies has_token_str(r@, k) by {
                let s = self.entries@;
                lemma_table_map_contains(s, k);
                let b = choose|b: int| 0 <= b < s.len() && s[b].token@ == k;
                lemma_table_map_index(s, b);
                assert(expired_at((#[trigger] s[b]).created_at, now, threshold));
            }
        }
        r
    }

    /// Removes every entry that has aged past `threshold` and yields the
    /// removed entries, one per expired token. What stays is exactly the
    /// rest of the map.
    pub fn sweep(&mut self, now: u64, threshold: u64) -> (r: Vec<PendingEntry>)
        requires
            old(self).wf(),
        ensures
            final(self).wf(),
            final(self).view_map() == old(self).view_map().restrict(
                Set::new(
                    |k: Seq<char>|
                        old(self).view_map().contains_key(k) && !expired_at(
                            old(self).view_map()[k].1,
                            now,
                            threshold,
                        ),
                ),
            ),
            forall|i: int|
                0 <= i < r@.len() ==> #[trigger] old(self).view_map().contains_key(r@[i].token@)
                    && (r@[i].slot, r@[i].created_at) == old(self).view_map()[r@[i].token@]
                    && expired_at(r@[i].created_at, now, threshold),
            forall|k: Seq<char>|
                old(self).view_map().contains_key(k) && expired_at(
                    old(self).view_map()[k].1,
                    now,
                    threshold,
                ) ==> exists|i: int| 0 <= i < r@.len() && #[trigger] r@[i].token@ == k,
            forall|i: int, j: int|
                0 <= i < r@.len() && 0 <= j < r@.len() && i != j ==> r@[i].token@ != r@[j].token@,
    {
        let tokens = self.expired_tokens(now, threshold);
        let mut removed: Vec<PendingEntry> = Vec::new();
        let n = tokens.len();
        let mut i: usize = 0;
        proof {
            assert(self.view_map() =~= old(self).view_map().remove_keys(
                Set::new(|k: Seq<char>| exists|a: int| 0 <= a < 0 && (#[trigger] tokens@[a])@ == k),
            ));
        }
        while i < n
            invariant
                self.wf(),
                n == tokens@.len(),
                i <= n,
                removed@.len() == i,
                forall|a: int|
                    0 <= a < n ==> #[trigger] old(self).view_map().contains_key(tokens@[a]@)
                        && expired_at(old(self).view_map()[tokens@[a]@].1, now, threshold),
                forall|k: Seq<char>|
                    old(self).view_map().contains_key(k) && expired_at(
                        old(self).view_map()[k].1,
                        now,
                        threshold,
                    ) ==> has_token_str(tokens@, k),
                forall|a: int, b: int| 0 <= a < n && 0 <= b < n && a != b ==> tokens@[a]@
                    != tokens@[b]@,
                self.view_map() == old(self).view_map().remove_keys(
                    Set::new(
                        |k: Seq<char>| exists|a: int| 0 <= a < i && (#[trigger] tokens@[a])@ == k,
                    ),
                ),
                forall|a: int|
                    0 <= a < i ==> #[trigger] removed@[a].token@ == tokens@[a]@ && (
                    removed@[a].slot,
                    removed@[a].created_at,
                    ) == old(self).view_map()[tokens@[a]@],
            decreases n - i,
        {
            let ghost pre = self.view_map();
            let ghost t = tokens@[i as int]@;
            proof {
                let si = Set::new(
                    |k: Seq<char>| exists|a: int| 0 <= a < i && (#[trigger] tokens@[a])@ == k,
                );
                if si.contains(t) {
                    let a = choose|a: int| 0 <= a < i && (#[trigger] tokens@[a])@ == t;
                    assert(false);
                }
                assert(pre.contains_key(t));
                assert(pre[t] == old(self).view_map()[t]);
            }
            match self.resolve(&tokens[i]) {
                Some(e) => {
                    removed.push(e);
                },
                None => {
                    proof {
                        assert(false);
                    }
                },
            }
            proof {
                assert(self.view_map() =~= old(self).view_map().remove_keys(
                    Set::new(
                        |k: Seq<char>|
                            exists|a: int| 0 <= a < i + 1 && (#[trigger] tokens@[a])@ == k,
                    ),
                ));
            }
            i = i + 1;
        }
        proof {
            assert forall|k: Seq<char>|
                old(self).view_map().contains_key(k) && expired_at(
                    old(self).view_map()[k].1,
                    now,
                    threshold,
                ) implies exists|a: int| 0 <= a < removed@.len() && #[trigger] removed@[a].token@
                == k by {
                assert(has_token_str(tokens@, k));
                let a = choose|a: int| 0 <= a < tokens@.len() && (#[trigger] tokens@[a])@ == k;
                assert(removed@[a].token@ == k);
            }
            assert forall|a: int, b: int|
                0 <= a < removed@.len() && 0 <= b < removed@.len() && a != b implies removed@[a].token@
                != removed@[b].token@ by {
                assert(removed@[a].token@ == tokens@[a]@);
                assert(removed@[b].token@ == tokens@[b]@);
            }
            assert(self.view_map() =~= old(self).view_map().restrict(
                Set::new(
                    |k: Seq<char>|
                        old(self).view_map().contains_key(k) && !expired_at(
                            old(self).view_map()[k].1,
                            now,
                            threshold,
                        ),
                ),
            ));
        }
        removed
    }
}

} // verus!
