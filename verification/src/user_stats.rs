//! Per-login statistics of failed authentication and password-change
//! attempts, kept as a map from login to statistics.

use vstd::prelude::*;

verus! {

/// What authentication remembers of one login.
#[derive(PartialEq, Eq, Structural, Clone, Copy, Debug)]
pub struct UserStat {
    pub wrong_count_login: i32,
    pub last_wrong_login_date: i64,
    pub attempt_change_pass: i32,
    pub last_attempt_change_pass_date: i64,
}

/// The statistics of a login that has not been seen yet.
pub open spec fn fresh_stat() -> UserStat {
    UserStat {
        wrong_count_login: 0,
        last_wrong_login_date: 0,
        attempt_change_pass: 0,
        last_attempt_change_pass_date: 0,
    }
}

impl Default for UserStat {
    fn default() -> (s: Self)
        ensures
            s == fresh_stat(),
    {
        UserStat {
            wrong_count_login: 0,
            last_wrong_login_date: 0,
            attempt_change_pass: 0,
            last_attempt_change_pass_date: 0,
        }
    }
}

/// Statistics of the logins that tried to authenticate, keyed by login.
pub struct SuspiciousUsers {
    entries: Vec<(String, UserStat)>,
}

/// Entry `i` of `es` holds login `k`.
spec fn key_at(es: Seq<(String, UserStat)>, k: Seq<char>, i: int) -> bool {
    0 <= i < es.len() && es[i].0@ == k
}

/// No login occurs twice in `es`.
spec fn unique_keys(es: Seq<(String, UserStat)>) -> bool {
    forall|i: int, j: int| 0 <= i < es.len() && 0 <= j < es.len() && i != j ==> #[trigger] es[i].0@ != #[trigger] es[j].0@
}

/// The map that the entries `es` stand for.
spec fn entries_map(es: Seq<(String, UserStat)>) -> Map<Seq<char>, UserStat> {
    Map::new(
        |k: Seq<char>| exists|i: int| key_at(es, k, i),
        |k: Seq<char>| es[choose|i: int| key_at(es, k, i)].1,
    )
}

proof fn lemma_lookup(es: Seq<(String, UserStat)>, i: int)
    requires
        unique_keys(es),
        0 <= i < es.len(),
    ensures
        entries_map(es).contains_key(es[i].0@),
        entries_map(es)[es[i].0@] == es[i].1,
{
    let k = es[i].0@;
    assert(key_at(es, k, i));
    let j = choose|j: int| key_at(es, k, j);
    assert(key_at(es, k, j));
    assert(i == j);
}

proof fn lemma_absent(es: Seq<(String, UserStat)>, k: Seq<char>)
    requires
        forall|i: int| 0 <= i < es.len() ==> es[i].0@ != k,
    ensures
        !entries_map(es).contains_key(k),
{
    if entries_map(es).contains_key(k) {
        let j = choose|j: int| key_at(es, k, j);
        assert(key_at(es, k, j));
    }
}

proof fn lemma_update(es: Seq<(String, UserStat)>, i: int, e: (String, UserStat))
    requires
        unique_keys(es),
        0 <= i < es.len(),
        es[i].0@ == e.0@,
    ensures
        unique_keys(es.update(i, e)),
        entries_map(es.update(i, e)) == entries_map(es).insert(e.0@, e.1),
{
    let ns = es.update(i, e);
    assert forall|a: int, b: int| 0 <= a < ns.len() && 0 <= b < ns.len() && a != b implies #[trigger] ns[a].0@ != #[trigger] ns[b].0@ by {
        assert(es[a].0@ != es[b].0@);
    }
    let m = entries_map(es).insert(e.0@, e.1);
    assert forall|k: Seq<char>| #[trigger] entries_map(ns).contains_key(k) <==> m.contains_key(k) by {
        if entries_map(ns).contains_key(k) {
            let j = choose|j: int| key_at(ns, k, j);
            assert(key_at(ns, k, j));
            if j != i {
                assert(key_at(es, k, j));
            }
        }
        if entries_map(es).contains_key(k) {
            let j = choose|j: int| key_at(es, k, j);
            assert(key_at(es, k, j));
            assert(key_at(ns, k, j));
        }
        if k == e.0@ {
            assert(key_at(ns, k, i));
        }
    }
    assert forall|k: Seq<char>| #[trigger] entries_map(ns).contains_key(k) implies entries_map(ns)[k] == m[k] by {
        let j = choose|j: int| key_at(ns, k, j);
        assert(key_at(ns, k, j));
        lemma_lookup(ns, j);
        if j != i {
            lemma_lookup(es, j);
        }
    }
    assert(entries_map(ns) =~= m);
}

proof fn lemma_push(es: Seq<(String, UserStat)>, e: (String, UserStat))
    requires
        unique_keys(es),
        !entries_map(es).contains_key(e.0@),
    ensures
        unique_keys(es.push(e)),
        entries_map(es.push(e)) == entries_map(es).insert(e.0@, e.1),
{
    let ns = es.push(e);
    let n = es.len() as int;
    assert forall|a: int, b: int| 0 <= a < ns.len() && 0 <= b < ns.len() && a != b implies #[trigger] ns[a].0@ != #[trigger] ns[b].0@ by {
        if a == n {
            if ns[b].0@ == e.0@ {
                assert(key_at(es, e.0@, b));
            }
        } else if b == n {
            if ns[a].0@ == e.0@ {
                assert(key_at(es, e.0@, a));
            }
        } else {
            assert(es[a].0@ != es[b].0@);
        }
    }
    let m = entries_map(es).insert(e.0@, e.1);
    assert forall|k: Seq<char>| #[trigger] entries_map(ns).contains_key(k) <==> m.contains_key(k) by {
        if entries_map(ns).contains_key(k) {
            let j = choose|j: int| key_at(ns, k, j);
            assert(key_at(ns, k, j));
            if j != n {
                assert(key_at(es, k, j));
            }
        }
        if entries_map(es).contains_key(k) {
            let j = choose|j: int| key_at(es, k, j);
            assert(key_at(es, k, j));
            assert(key_at(ns, k, j));
        }
        if k == e.0@ {
            assert(key_at(ns, k, n));
        }
    }
    assert forall|k: Seq<char>| #[trigger] entries_map(ns).contains_key(k) implies entries_map(ns)[k] == m[k] by {
        let j = choose|j: int| key_at(ns, k, j);
        assert(key_at(ns, k, j));
        lemma_lookup(ns, j);
        if j != n {
            lemma_lookup(es, j);
        }
    }
    assert(entries_map(ns) =~= m);
}

impl SuspiciousUsers {
    /// No login occurs twice.
    pub closed spec fn wf(&self) -> bool {
        unique_keys(self.entries@)
    }

    /// The statistics of each login.
    pub closed spec fn view(&self) -> Map<Seq<char>, UserStat> {
        entries_map(self.entries@)
    }

    /// The table holds finitely many logins.
    pub proof fn lemma_finite(&self)
        ensures
            self@.dom().finite(),
    {
        let es = self.entries@;
        let keys = es.map_values(|e: (String, UserStat)| e.0@).to_set();
        assert forall|k: Seq<char>| self@.dom().contains(k) implies keys.contains(k) by {
            let i = choose|i: int| key_at(es, k, i);
            assert(es.map_values(|e: (String, UserStat)| e.0@)[i] == k);
        }
        vstd::seq_lib::seq_to_set_is_finite(es.map_values(|e: (String, UserStat)| e.0@));
        vstd::set_lib::lemma_set_subset_finite(keys, self@.dom());
    }

    /// An empty map.
    pub fn new() -> (s: Self)
        ensures
            s.wf(),
            s@ == Map::<Seq<char>, UserStat>::empty(),
    {
        let s = SuspiciousUsers { entries: Vec::new() };
        assert(s@ =~= Map::<Seq<char>, UserStat>::empty());
        s
    }

    /// The position of `login`, if it is there.
    fn find(&self, login: &str) -> (r: Option<usize>)
        requires
            self.wf(),
        ensures
            r matches Some(i) ==> i < self.entries@.len() && self.entries@[i as int].0@ == login@,
            r is None ==> !self@.contains_key(login@),
    {
        let key = login.to_owned();
        let mut i: usize = 0;
        while i < self.entries.len()
            invariant
                i <= self.entries@.len(),
                key@ == login@,
                forall|j: int| 0 <= j < i ==> self.entries@[j].0@ != login@,
            decreases self.entries@.len() - i,
        {
            if self.entries[i].0 == key {
                return Some(i);
            }
            i = i + 1;
        }
        proof {
            lemma_absent(self.entries@, login@);
        }
        None
    }

    /// The statistics of `login`, if any were kept.
    pub fn get(&self, login: &str) -> (r: Option<UserStat>)
        requires
            self.wf(),
        ensures
            r == (if self@.contains_key(login@) { Some(self@[login@]) } else { None::<UserStat> }),
    {
        match self.find(login) {
            Some(i) => {
                proof {
                    lemma_lookup(self.entries@, i as int);
                }
                Some(self.entries[i].1)
            },
            None => None,
        }
    }

    /// Keeps `stat` as the statistics of `login`.
    pub fn set(&mut self, login: &str, stat: UserStat)
        requires
            old(self).wf(),
        ensures
            final(self).wf(),
            final(self)@ == old(self)@.insert(login@, stat),
    {
        let key = login.to_owned();
        match self.find(login) {
            Some(i) => {
                proof {
                    lemma_update(self.entries@, i as int, (key, stat));
                }
                self.entries.set(i, (key, stat));
            },
            None => {
                proof {
                    lemma_push(self.entries@, (key, stat));
                }
                self.entries.push((key, stat));
            },
        }
    }

    /// The statistics of `login`, starting it from zero when it is new.
    pub fn entry_or_default(&mut self, login: &str) -> (s: UserStat)
        requires
            old(self).wf(),
        ensures
            final(self).wf(),
            old(self)@.contains_key(login@) ==> final(self)@ == old(self)@ && s == old(self)@[login@],
            !old(self)@.contains_key(login@) ==> final(self)@ == old(self)@.insert(login@, fresh_stat())
                && s == fresh_stat(),
    {
        match self.get(login) {
            Some(s) => s,
            None => {
                let s = UserStat::default();
                self.set(login, s);
                s
            },
        }
    }
}

/// What is kept for a login is what is read back for it, and keeping it
/// changes no other login.
pub proof fn law_read_back(
    before: SuspiciousUsers,
    after: SuspiciousUsers,
    login: Seq<char>,
    other: Seq<char>,
    stat: UserStat,
)
    requires
        after@ == before@.insert(login, stat),
        other != login,
    ensures
        after@.contains_key(login),
        after@[login] == stat,
        after@.contains_key(other) == before@.contains_key(other),
        before@.contains_key(other) ==> after@[other] == before@[other],
{
}

} // verus!
