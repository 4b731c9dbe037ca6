//! The service registry: the single source of truth for which services are
//! running. A name is present in the registry exactly while its service is
//! considered running.
//!
//! The registry is modelled as a `Map` from service name to runtime record.
//! The backing store is a vector with pairwise distinct names; the shell
//! wraps the whole structure in one mutual-exclusion lock and holds that
//! lock only for the duration of a single method call, never across a
//! suspension point.

use vstd::prelude::*;

use crate::strutil::str_eq;
use crate::types::{LifecycleError, ServiceInfo, ServiceRecordModel};

verus! {

/// The models of a sequence of records.
pub open spec fn record_models(s: Seq<ServiceInfo>) -> Seq<ServiceRecordModel> {
    s.map_values(|e: ServiceInfo| e@)
}

/// All names in `s` are pairwise distinct.
pub open spec fn names_unique(s: Seq<ServiceRecordModel>) -> bool {
    forall|i: int, j: int| 0 <= i < j < s.len() ==> s[i].name != s[j].name
}

/// The map that a sequence of records denotes: later records would win,
/// but under `names_unique` every record is visible.
pub open spec fn records_as_map(s: Seq<ServiceRecordModel>) -> Map<
    Seq<char>,
    ServiceRecordModel,
>
    decreases s.len(),
{
    if s.len() == 0 {
        Map::empty()
    } else {
        records_as_map(s.drop_last()).insert(s.last().name, s.last())
    }
}

/// Under unique names, membership and lookup in `records_as_map` are exactly
/// membership and lookup in the sequence.
pub proof fn lemma_records_as_map_props(s: Seq<ServiceRecordModel>)
    requires
        names_unique(s),
    ensures
        forall|k: Seq<char>|
            #[trigger] records_as_map(s).contains_key(k) <==> exists|i: int|
                0 <= i < s.len() && s[i].name == k,
        forall|i: int| 0 <= i < s.len() ==> records_as_map(s)[#[trigger] s[i].name] == s[i],
    decreases s.len(),
{
    if s.len() > 0 {
        let dl = s.drop_last();
        assert(names_unique(dl));
        lemma_records_as_map_props(dl);
        assert forall|i: int| 0 <= i < s.len() implies records_as_map(s)[#[trigger] s[i].name]
            == s[i] by {
            if i < s.len() - 1 {
                assert(s[i].name != s.last().name);
                assert(dl[i] == s[i]);
            }
        }
        assert forall|k: Seq<char>| #[trigger] records_as_map(s).contains_key(k) implies exists|
            i: int,
        | 0 <= i < s.len() && s[i].name == k by {
            if k == s.last().name {
                assert(s[s.len() - 1].name == k);
            } else {
                assert(records_as_map(dl).contains_key(k));
                let i = choose|i: int| 0 <= i < dl.len() && dl[i].name == k;
                assert(dl[i] == s[i]);
                assert(s[i].name == k);
            }
        }
        assert forall|k: Seq<char>| (exists|i: int| 0 <= i < s.len() && s[i].name == k)
            implies #[trigger] records_as_map(s).contains_key(k) by {
            let i = choose|i: int| 0 <= i < s.len() && s[i].name == k;
            if i < s.len() - 1 {
                assert(dl[i].name == k);
            }
        }
    }
}

/// Removing the record at index `i` removes exactly its name from the map.
pub proof fn lemma_records_as_map_remove(s: Seq<ServiceRecordModel>, i: int)
    requires
        names_unique(s),
        0 <= i < s.len(),
    ensures
        records_as_map(s.remove(i)) == records_as_map(s).remove(s[i].name),
    decreases s.len(),
{
    let dl = s.drop_last();
    assert(names_unique(dl));
    lemma_records_as_map_props(s);
    if i == s.len() - 1 {
        lemma_records_as_map_props(dl);
        assert(s.remove(i) =~= dl);
        assert(!records_as_map(dl).contains_key(s[i].name));
        assert(records_as_map(dl) =~= records_as_map(dl).insert(s.last().name, s.last()).remove(
            s[i].name,
        ));
    } else {
        lemma_records_as_map_remove(dl, i);
        assert(s.remove(i).drop_last() =~= dl.remove(i));
        assert(s.remove(i).last() == s.last());
        assert(s[i].name != s.last().name);
        assert(records_as_map(s.remove(i)) == records_as_map(dl.remove(i)).insert(
            s.last().name,
            s.last(),
        ));
        assert(records_as_map(dl).remove(s[i].name).insert(s.last().name, s.last())
            =~= records_as_map(dl).insert(s.last().name, s.last()).remove(s[i].name));
    }
}

/// Concurrent map from service name to runtime process record.
pub struct ServiceRegistry {
    entries: Vec<ServiceInfo>,
}

impl View for ServiceRegistry {
    type V = Map<Seq<char>, ServiceRecordModel>;

    /// The registry denotes the map from names to records.
    closed spec fn view(&self) -> Map<Seq<char>, ServiceRecordModel> {
        records_as_map(record_models(self.entries@))
    }
}

impl ServiceRegistry {
    /// The backing store holds each name at most once.
    pub closed spec fn wf(&self) -> bool {
        names_unique(record_models(self.entries@))
    }

    /// A fresh registry holds nothing.
    pub fn new() -> (r: ServiceRegistry)
        ensures
            r.wf(),
            r@ == Map::<Seq<char>, ServiceRecordModel>::empty(),
    {
        let r = ServiceRegistry { entries: Vec::new() };
        proof {
            assert(record_models(r.entries@) =~= Seq::<ServiceRecordModel>::empty());
        }
        r
    }

    /// Index of the entry named `name`, if any.
    fn find_index(&self, name: &str) -> (r: Option<usize>)
        requires
            self.wf(),
        ensures
            r matches Some(i) ==> i < self.entries@.len() && self.entries@[i as int]@.name
                == name@,
            r is None ==> forall|i: int|
                0 <= i < self.entries@.len() ==> record_models(self.entries@)[i].name != name@,
    {
        let mut i: usize = 0;
        while i < self.entries.len()
            invariant
                i <= self.entries@.len(),
                forall|j: int|
                    0 <= j < i ==> record_models(self.entries@)[j].name != name@,
            decreases self.entries@.len() - i,
        {
            if str_eq(self.entries[i].name.as_str(), name) {
                return Some(i);
            }
            i += 1;
        }
        None
    }

    /// Whether `name` is currently registered, which is the definition of
    /// "running" for the lifecycle protocol.
    pub fn contains(&self, name: &str) -> (r: bool)
        requires
            self.wf(),
        ensures
            r == self@.contains_key(name@),
    {
        proof {
            lemma_records_as_map_props(record_models(self.entries@));
        }
        match self.find_index(name) {
            Some(i) => {
                proof {
                    assert(record_models(self.entries@)[i as int].name == name@);
                }
                true
            },
            None => false,
        }
    }

    /// Check-and-insert as one atomic step: fails without change when the
    /// name is present, otherwise records the service as running.
    pub fn insert(&mut self, info: ServiceInfo) -> (r: Result<(), LifecycleError>)
        requires
            old(self).wf(),
        ensures
            final(self).wf(),
            r is Ok <==> !old(self)@.contains_key(info@.name),
            r is Ok ==> final(self)@ == old(self)@.insert(info@.name, info@),
            r is Err ==> r == Err::<(), LifecycleError>(LifecycleError::AlreadyRunning)
                && final(self)@ == old(self)@ && *final(self) == *old(self),
    {
        proof {
            lemma_records_as_map_props(record_models(self.entries@));
        }
        match self.find_index(info.name.as_str()) {
            Some(i) => {
                proof {
                    assert(record_models(self.entries@)[i as int].name == info@.name);
                    assert(self@.contains_key(info@.name));
                }
                Err(LifecycleError::AlreadyRunning)
            },
            None => {
                let ghost before = record_models(self.entries@);
                let ghost info_model = info@;
                self.entries.push(info);
                proof {
                    let after = record_models(self.entries@);
                    assert(after =~= before.push(info_model));
                    assert(names_unique(after)) by {
                        assert forall|a: int, b: int| 0 <= a < b < after.len() implies after[a].name
                            != after[b].name by {
                            if b < after.len() - 1 {
                                assert(after[a] == before[a] && after[b] == before[b]);
                            } else {
                                assert(after[a] == before[a] && after[b] == info_model);
                            }
                        }
                    }
                    assert(after.drop_last() =~= before);
                    assert(after.last() == info_model);
                }
                Ok(())
            },
        }
    }

    /// Removes the record for `name` and returns it; `None` when absent.
    pub fn remove(&mut self, name: &str) -> (r: Option<ServiceInfo>)
        requires
            old(self).wf(),
        ensures
            final(self).wf(),
            r is Some <==> old(self)@.contains_key(name@),
            r matches Some(info) ==> info@ == old(self)@[name@] && final(self)@ == old(
                self,
            )@.remove(name@),
            r is None ==> final(self)@ == old(self)@ && *final(self) == *old(self),
    {
        proof {
            lemma_records_as_map_props(record_models(self.entries@));
        }
        match self.find_index(name) {
            Some(i) => {
                let ghost before = record_models(self.entries@);
                let info = self.entries.remove(i);
                proof {
                    lemma_records_as_map_remove(before, i as int);
                    assert(record_models(self.entries@) =~= before.remove(i as int));
                    assert(names_unique(before.remove(i as int)));
                    assert(before[i as int].name == name@);
                }
                Some(info)
            },
            None => None,
        }
    }

    /// A snapshot copy of every record, so that liveness checks can run
    /// without holding the registry lock during external process queries.
    pub fn get_all(&self) -> (r: Vec<ServiceInfo>)
        requires
            self.wf(),
        ensures
            names_unique(record_models(r@)),
            forall|i: int|
                0 <= i < r@.len() ==> self@.contains_key(#[trigger] r@[i]@.name) && self@[r@[i]@.name]
                    == r@[i]@,
            forall|k: Seq<char>|
                #[trigger] self@.contains_key(k) ==> exists|i: int|
                    0 <= i < r@.len() && r@[i]@.name == k,
    {
        let mut out: Vec<ServiceInfo> = Vec::new();
        let mut i: usize = 0;
        while i < self.entries.len()
            invariant
                i <= self.entries@.len(),
                out@.len() == i,
                forall|j: int| 0 <= j < i ==> #[trigger] out@[j]@ == self.entries@[j]@,
            decreases self.entries@.len() - i,
        {
            out.push(self.entries[i].duplicate());
            i += 1;
        }
        proof {
            assert(record_models(out@) =~= record_models(self.entries@)) by {
                assert forall|j: int| 0 <= j < out@.len() implies record_models(out@)[j]
                    == record_models(self.entries@)[j] by {
                    assert(record_models(out@)[j] == out@[j]@);
                    assert(record_models(self.entries@)[j] == self.entries@[j]@);
                }
            }
            let s = record_models(self.entries@);
            lemma_records_as_map_props(s);
            assert forall|i: int| 0 <= i < out@.len() implies self@.contains_key(
                #[trigger] out@[i]@.name,
            ) && self@[out@[i]@.name] == out@[i]@ by {
                assert(record_models(out@)[i] == out@[i]@);
                assert(out@[i]@ == s[i]);
                assert(records_as_map(s).contains_key(s[i].name));
            }
            assert forall|k: Seq<char>| #[trigger] self@.contains_key(k) implies exists|i: int|
                0 <= i < out@.len() && out@[i]@.name == k by {
                let j = choose|j: int| 0 <= j < s.len() && s[j].name == k;
                assert(record_models(out@)[j] == out@[j]@);
                assert(out@[j]@.name == k);
            }
        }
        out
    }

    /// Removes every record at once and hands the records back; used by the
    /// global stop that precedes a rebuild.
    pub fn remove_all(&mut self) -> (r: Vec<ServiceInfo>)
        requires
            old(self).wf(),
        ensures
            final(self).wf(),
            final(self)@ == Map::<Seq<char>, ServiceRecordModel>::empty(),
            names_unique(record_models(r@)),
            forall|i: int|
                0 <= i < r@.len() ==> old(self)@.contains_key(#[trigger] r@[i]@.name) && old(
                    self,
                )@[r@[i]@.name] == r@[i]@,
            forall|k: Seq<char>|
                #[trigger] old(self)@.contains_key(k) ==> exists|i: int|
                    0 <= i < r@.len() && r@[i]@.name == k,
    {
        let snapshot = self.get_all();
        self.entries.clear();
        proof {
            assert(record_models(self.entries@) =~= Seq::<ServiceRecordModel>::empty());
        }
        snapshot
    }
}

} // verus!
