use vstd::prelude::*;
use crate::errors::AppError;
use crate::models::MockPatch;
use crate::models::MockRoute;
use crate::models::MockRouteView;
use crate::models::patched;
use crate::normalize::lemma_normalize_idempotent;
use crate::normalize::norm_method;
use crate::normalize::norm_path;
use crate::normalize::normalize_method;
use crate::normalize::normalize_path;
use crate::text::str_eq;

verus! {

/// The route key a record is stored under.
pub open spec fn route_key_of(r: MockRouteView) -> (Seq<char>, Seq<char>) {
    (r.method, r.path)
}

/// The record as the store keeps it: the route key in canonical form, the
/// rest untouched.
pub open spec fn normalized_record(m: MockRouteView) -> MockRouteView {
    MockRouteView { method: norm_method(m.method), path: norm_path(m.path), ..m }
}

/// The map a sequence of records stands for: later records shadow earlier
/// ones with the same key.
pub open spec fn map_of(s: Seq<MockRouteView>) -> Map<(Seq<char>, Seq<char>), MockRouteView>
    decreases s.len(),
{
    if s.len() == 0 {
        Map::<(Seq<char>, Seq<char>), MockRouteView>::empty()
    } else {
        map_of(s.drop_last()).insert(route_key_of(s.last()), s.last())
    }
}

pub open spec fn keys_unique(s: Seq<MockRouteView>) -> bool {
    forall|i: int, j: int|
        0 <= i < j < s.len() ==> route_key_of(s[i]) != route_key_of(s[j])
}

proof fn lemma_map_of_index(s: Seq<MockRouteView>, i: int)
    requires
        keys_unique(s),
        0 <= i < s.len(),
    ensures
        map_of(s).contains_key(route_key_of(s[i])),
        map_of(s)[route_key_of(s[i])] == s[i],
    decreases s.len(),
{
    if i < s.len() - 1 {
        assert(keys_unique(s.drop_last()));
        lemma_map_of_index(s.drop_last(), i);
        assert(s.drop_last()[i] == s[i]);
        assert(route_key_of(s[i]) != route_key_of(s.last()));
    }
}

proof fn lemma_map_of_absent(s: Seq<MockRouteView>, k: (Seq<char>, Seq<char>))
    requires
        forall|i: int| 0 <= i < s.len() ==> route_key_of(s[i]) != k,
    ensures
        !map_of(s).contains_key(k),
    decreases s.len(),
{
    if s.len() > 0 {
        assert(forall|i: int|
            0 <= i < s.drop_last().len() ==> route_key_of(s.drop_last()[i]) != k);
        lemma_map_of_absent(s.drop_last(), k);
    }
}

proof fn lemma_map_of_update(s: Seq<MockRouteView>, i: int, v: MockRouteView)
    requires
        keys_unique(s),
        0 <= i < s.len(),
        route_key_of(v) == route_key_of(s[i]),
    ensures
        map_of(s.update(i, v)) == map_of(s).insert(route_key_of(v), v),
    decreases s.len(),
{
    let t = s.update(i, v);
    if i == s.len() - 1 {
        assert(t.drop_last() =~= s.drop_last());
        assert(t.last() == v);
        assert(map_of(t) =~= map_of(s).insert(route_key_of(v), v));
    } else {
        assert(t.drop_last() =~= s.drop_last().update(i, v));
        assert(t.last() == s.last());
        assert(keys_unique(s.drop_last()));
        assert(s.drop_last()[i] == s[i]);
        lemma_map_of_update(s.drop_last(), i, v);
        assert(route_key_of(v) != route_key_of(s.last()));
        assert(map_of(t) =~= map_of(s).insert(route_key_of(v), v));
    }
}

/// The definition store: at most one record per normalized route key, and
/// every stored record already carries its key in canonical form. A full
/// write replaces the record wholesale; a partial write touches only the
/// supplied fields; neither ever leaves a half-written record visible.
pub struct MockStore {
    records: Vec<MockRoute>,
}

impl View for MockStore {
    type V = Map<(Seq<char>, Seq<char>), MockRouteView>;

    closed spec fn view(&self) -> Map<(Seq<char>, Seq<char>), MockRouteView> {
        map_of(self.rec_views())
    }
}

impl MockStore {
    pub closed spec fn rec_views(self) -> Seq<MockRouteView> {
        self.records@.map_values(|r: MockRoute| r@)
    }

    pub closed spec fn wf(self) -> bool {
        &&& keys_unique(self.rec_views())
        &&& forall|i: int|
            0 <= i < self.rec_views().len()
                ==> #[trigger] self.rec_views()[i] == normalized_record(self.rec_views()[i])
    }

    pub fn new() -> (s: MockStore)
        ensures
            s.wf(),
            s@ == Map::<(Seq<char>, Seq<char>), MockRouteView>::empty(),
    {
        MockStore { records: Vec::new() }
    }

    /// The index of the record stored under exactly `(method, path)`;
    /// the caller passes the key already normalized.
    fn find_index(&self, method: &str, path: &str) -> (r: Option<usize>)
        ensures
            match r {
                Some(i) => {
                    &&& i < self.rec_views().len()
                    &&& self.rec_views()[i as int].method == method@
                    &&& self.rec_views()[i as int].path == path@
                },
                None => forall|i: int|
                    0 <= i < self.rec_views().len()
                        ==> !(self.rec_views()[i].method == method@
                            && self.rec_views()[i].path == path@),
            },
    {
        let n = self.records.len();
        let mut i: usize = 0;
        while i < n
            invariant
                n == self.records@.len(),
                i <= n,
                self.rec_views().len() == n,
                forall|j: int|
                    0 <= j < i
                        ==> !(self.rec_views()[j].method == method@
                            && self.rec_views()[j].path == path@),
            decreases n - i,
        {
            let same_method = str_eq(self.records[i].method.as_str(), method);
            let same_path = str_eq(self.records[i].path.as_str(), path);
            if same_method && same_path {
                return Some(i);
            }
            i += 1;
        }
        None
    }

    /// Full upsert: the definition, its route key normalized, replaces
    /// whatever was stored under that key, or is created.
    pub fn define(&mut self, mock: MockRoute)
        requires
            old(self).wf(),
        ensures
            final(self).wf(),
            final(self)@ == old(self)@.insert(
                route_key_of(normalized_record(mock@)),
                normalized_record(mock@),
            ),
    {
        let MockRoute {
            id,
            method: raw_method,
            path: raw_path,
            http_status_code,
            response_type,
            response_data,
        } = mock;
        let method = normalize_method(raw_method.as_str());
        let path = normalize_path(raw_path.as_str());
        let rec = MockRoute { id, method, path, http_status_code, response_type, response_data };
        let ghost recv = rec@;
        proof {
            lemma_normalize_idempotent(raw_method@, raw_path@);
            assert(recv =~= normalized_record(mock@));
            assert(normalized_record(recv) =~= recv);
        }
        match self.find_index(rec.method.as_str(), rec.path.as_str()) {
            Some(i) => {
                proof {
                    assert(route_key_of(self.rec_views()[i as int]) == route_key_of(recv));
                    lemma_map_of_update(self.rec_views(), i as int, recv);
                }
                let ghost pre = self.rec_views();
                self.records.set(i, rec);
                proof {
                    assert(self.rec_views() =~= pre.update(i as int, recv));
                    assert(final(self)@ == old(self)@.insert(route_key_of(recv), recv));
                    assert forall|a: int, b: int|
                        0 <= a < b < self.rec_views().len() implies route_key_of(
                        self.rec_views()[a],
                    ) != route_key_of(self.rec_views()[b]) by {
                        assert(route_key_of(pre[a]) != route_key_of(pre[b]));
                    }
                }
            },
            None => {
                let ghost pre = self.rec_views();
                self.records.push(rec);
                proof {
                    assert(self.rec_views() =~= pre.push(recv));
                    assert(self.rec_views().drop_last() =~= pre);
                    assert(self@ == old(self)@.insert(route_key_of(recv), recv));
                    assert forall|a: int, b: int|
                        0 <= a < b < self.rec_views().len() implies route_key_of(
                        self.rec_views()[a],
                    ) != route_key_of(self.rec_views()[b]) by {
                        if b < pre.len() {
                            assert(route_key_of(pre[a]) != route_key_of(pre[b]));
                        } else {
                            assert(!(pre[a].method == recv.method && pre[a].path == recv.path));
                        }
                    }
                }
            },
        }
    }

    /// Exact-match lookup under the normalized key; no wildcard or prefix
    /// matching of any kind.
    pub fn lookup(&self, method: &str, path: &str) -> (r: Option<&MockRoute>)
        requires
            self.wf(),
        ensures
            match r {
                Some(rec) => {
                    &&& self@.contains_key((norm_method(method@), norm_path(path@)))
                    &&& rec@ == self@[(norm_method(method@), norm_path(path@))]
                },
                None => !self@.contains_key((norm_method(method@), norm_path(path@))),
            },
    {
        let m = normalize_method(method);
        let p = normalize_path(path);
        match self.find_index(m.as_str(), p.as_str()) {
            Some(i) => {
                proof {
                    lemma_map_of_index(self.rec_views(), i as int);
                }
                Some(&self.records[i])
            },
            None => {
                proof {
                    assert forall|i: int| 0 <= i < self.rec_views().len() implies route_key_of(
                        self.rec_views()[i],
                    ) != (m@, p@) by {
                        assert(!(self.rec_views()[i].method == m@ && self.rec_views()[i].path
                            == p@));
                    }
                    lemma_map_of_absent(self.rec_views(), (m@, p@));
                }
                None
            },
        }
    }

    /// Partial update under the normalized key: only the supplied fields
    /// change, and a patch never creates a record. A patch that supplies
    /// nothing is rejected outright; one whose target is absent fails and
    /// leaves the store as it was.
    pub fn patch(&mut self, method: &str, path: &str, p: MockPatch) -> (r: Result<(), AppError>)
        requires
            old(self).wf(),
        ensures
            final(self).wf(),
            match r {
                Ok(()) => {
                    &&& !p@.is_empty()
                    &&& old(self)@.contains_key((norm_method(method@), norm_path(path@)))
                    &&& final(self)@ == old(self)@.insert(
                        (norm_method(method@), norm_path(path@)),
                        patched(old(self)@[(norm_method(method@), norm_path(path@))], p@),
                    )
                },
                Err(e) => {
                    &&& final(self)@ == old(self)@
                    &&& if p@.is_empty() {
                        e == AppError::EmptyPatch
                    } else {
                        &&& e == AppError::MockNotFound
                        &&& !old(self)@.contains_key((norm_method(method@), norm_path(path@)))
                    }
                },
            },
    {
        let ghost pv = p@;
        if p.is_empty() {
            return Err(AppError::EmptyPatch);
        }
        let m = normalize_method(method);
        let pa = normalize_path(path);
        match self.find_index(m.as_str(), pa.as_str()) {
            None => {
                proof {
                    assert forall|i: int| 0 <= i < self.rec_views().len() implies route_key_of(
                        self.rec_views()[i],
                    ) != (m@, pa@) by {
                        assert(!(self.rec_views()[i].method == m@ && self.rec_views()[i].path
                            == pa@));
                    }
                    lemma_map_of_absent(self.rec_views(), (m@, pa@));
                }
                Err(AppError::MockNotFound)
            },
            Some(i) => {
                proof {
                    lemma_map_of_index(self.rec_views(), i as int);
                }
                let ghost pre = self.rec_views();
                let mut rec = self.records.remove(i);
                let MockPatch { http_status_code, response_type, response_data } = p;
                if let Some(c) = http_status_code {
                    rec.http_status_code = c;
                }
                if let Some(t) = response_type {
                    rec.response_type = t;
                }
                if let Some(d) = response_data {
                    rec.response_data = d;
                }
                let ghost recv = rec@;
                proof {
                    assert(recv =~= patched(pre[i as int], pv));
                    lemma_map_of_update(pre, i as int, recv);
                }
                self.records.insert(i, rec);
                proof {
                    assert(self.rec_views() =~= pre.update(i as int, recv));
                    assert(normalized_record(recv) =~= recv);
                    assert forall|a: int, b: int|
                        0 <= a < b < self.rec_views().len() implies route_key_of(
                        self.rec_views()[a],
                    ) != route_key_of(self.rec_views()[b]) by {
                        assert(route_key_of(pre[a]) != route_key_of(pre[b]));
                    }
                }
                Ok(())
            },
        }
    }
}

/// Law: two full writes under one route key land in last-writer-wins
/// order whichever way they interleave. The record then stored under the
/// key is the later write entire — always one of the two submitted
/// records, never a blend of both.
pub proof fn lemma_define_last_writer_wins(
    m: Map<(Seq<char>, Seq<char>), MockRouteView>,
    a: MockRouteView,
    b: MockRouteView,
)
    requires
        route_key_of(normalized_record(a)) == route_key_of(normalized_record(b)),
    ensures
        m.insert(route_key_of(normalized_record(a)), normalized_record(a)).insert(
            route_key_of(normalized_record(b)),
            normalized_record(b),
        )[route_key_of(normalized_record(b))] == normalized_record(b),
        m.insert(route_key_of(normalized_record(b)), normalized_record(b)).insert(
            route_key_of(normalized_record(a)),
            normalized_record(a),
        )[route_key_of(normalized_record(a))] == normalized_record(a),
{
}

/// Law: after a full write, a lookup under the raw key the definition was
/// written with finds exactly the record just stored.
pub proof fn lemma_define_then_lookup(
    m: Map<(Seq<char>, Seq<char>), MockRouteView>,
    mock: MockRouteView,
)
    ensures
        m.insert(route_key_of(normalized_record(mock)), normalized_record(mock)).contains_key(
            (norm_method(mock.method), norm_path(mock.path)),
        ),
        m.insert(route_key_of(normalized_record(mock)), normalized_record(mock))[(
            norm_method(mock.method),
            norm_path(mock.path),
        )] == normalized_record(mock),
{
}

} // verus!
