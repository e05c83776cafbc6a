//! An event store with version history and UID identity, written one event
//! at a time, all or nothing.
use vstd::prelude::*;
use crate::props::{Property, named_value};
use crate::datetime::DateTimeError;
use crate::models::{Event, EventVersion, EventUid};
use crate::record::{VersionRecord, opt_view, named_instant, record_error, extract_record};
use crate::serialize::event_text;
use crate::ics::{parsed_events, parse_events};

verus! {

/// Rows of each table are limited so that every id fits in an `i64`.
pub const MAX_ROWS: u64 = 0x7fff_ffff_ffff_fffe;

/// Why an import failed.
#[derive(Clone, Copy, Debug, PartialEq, Eq, Structural)]
pub enum ImportError {
    /// A start or end of the event could not be read.
    DateTime(DateTimeError),
    /// The text is not well-formed iCalendar.
    Syntax,
    /// A table, or an event's version numbers, have no room left.
    StorageFull,
}

/// The version number after `latest`: 1 for a new event.
pub fn next_version(latest: Option<i32>) -> (r: Option<i32>)
    ensures
        latest is None ==> r == Some(1i32),
        latest matches Some(n) ==> (n < i32::MAX ==> r == Some((n + 1) as i32)) && (n == i32::MAX ==> r is None),
{
    match latest {
        None => Some(1),
        Some(n) => if n < i32::MAX { Some(n + 1) } else { None },
    }
}

/// Which event a new version goes to.
#[derive(Clone, Copy, Debug, PartialEq, Eq, Structural)]
pub enum EventTarget {
    /// The event with this id, already bound to the version's UID.
    Existing(i64),
    /// A new event.
    New,
}

/// Where a new version goes, its number, and whether its UID is to be bound.
#[derive(Clone, Copy, Debug, PartialEq, Eq, Structural)]
pub struct VersionPlan {
    pub target: EventTarget,
    pub version: i32,
    pub bind_uid: bool,
}

/// Lookup or create: given whether the event has a UID and, where that UID is
/// already bound in the sync domain, the bound event's id and latest version
/// number, decides where the new version goes. `None` where the event has no
/// version number left.
pub fn plan_version(has_uid: bool, known: Option<(i64, i32)>) -> (r: Option<VersionPlan>)
    ensures
        known is None ==> r == Some(VersionPlan { target: EventTarget::New, version: 1, bind_uid: has_uid }),
        known matches Some((id, v)) ==> (v < i32::MAX ==> r == Some(
            VersionPlan { target: EventTarget::Existing(id), version: (v + 1) as i32, bind_uid: false },
        )) && (v == i32::MAX ==> r is None),
{
    match known {
        None => Some(VersionPlan { target: EventTarget::New, version: 1, bind_uid: has_uid }),
        Some((id, v)) => match next_version(Some(v)) {
            Some(n) => Some(VersionPlan { target: EventTarget::Existing(id), version: n, bind_uid: false }),
            None => None,
        },
    }
}

/// The events, their versions and their UIDs. Row `i` of each table has id `i + 1`.
pub struct Store {
    pub events: Vec<Event>,
    pub versions: Vec<EventVersion>,
    pub uids: Vec<EventUid>,
}

/// A version written from `props` at `now`.
pub open spec fn version_from(v: EventVersion, props: Seq<Property>, now: i64) -> bool {
    &&& opt_view(v.summary) == named_value(props, "SUMMARY"@)
    &&& opt_view(v.description) == named_value(props, "DESCRIPTION"@)
    &&& named_instant(props, "DTSTART"@) == Ok::<Option<i64>, DateTimeError>(v.dtstart)
    &&& named_instant(props, "DTEND"@) == Ok::<Option<i64>, DateTimeError>(v.dtend)
    &&& v.raw_data@ == event_text(props)
    &&& v.created_at == now
    &&& v.last_retrieved_at == now
}

impl Store {
    /// Whether UID row `k` binds `uid` in `domain`.
    pub open spec fn uid_at(self, k: int, uid: Seq<char>, domain: Seq<char>) -> bool {
        &&& 0 <= k < self.uids@.len()
        &&& self.uids@[k].uid@ == uid
        &&& self.uids@[k].sync_domain@ == domain
    }

    pub open spec fn knows(self, uid: Seq<char>, domain: Seq<char>) -> bool {
        exists|k: int| self.uid_at(k, uid, domain)
    }

    /// The number of the latest version of the event with id `eid`.
    pub open spec fn latest_version(self, eid: int) -> i32 {
        self.versions@[self.events@[eid - 1].current_version_id.unwrap() - 1].version
    }

    /// Ids are positions; every event points at a version of its own; every
    /// version and UID belongs to an event; a UID is bound once per domain.
    pub open spec fn wf(self) -> bool {
        &&& forall|i: int| 0 <= i < self.events@.len() ==> {
            let e = #[trigger] self.events@[i];
            &&& e.id == i + 1
            &&& e.current_version_id matches Some(v) && 1 <= v <= self.versions@.len()
                && self.versions@[v - 1].event_id == i + 1
        }
        &&& forall|i: int| 0 <= i < self.versions@.len() ==> {
            let v = #[trigger] self.versions@[i];
            v.id == i + 1 && 1 <= v.event_id <= self.events@.len()
        }
        &&& forall|i: int| 0 <= i < self.uids@.len() ==> {
            let u = #[trigger] self.uids@[i];
            u.id == i + 1 && 1 <= u.event_id <= self.events@.len()
        }
        &&& forall|i: int, j: int| #![trigger self.uids@[i], self.uids@[j]]
            0 <= i < self.uids@.len() && 0 <= j < self.uids@.len()
                && self.uids@[i].uid@ == self.uids@[j].uid@
                && self.uids@[i].sync_domain@ == self.uids@[j].sync_domain@ ==> i == j
    }

    /// The event bound to `uid` in `domain` has reached the last version number.
    pub open spec fn numbers_exhausted(self, uid: Option<Seq<char>>, domain: Seq<char>) -> bool {
        uid matches Some(u) && exists|k: int| #[trigger] self.uid_at(k, u, domain)
            && self.latest_version(self.uids@[k].event_id as int) == i32::MAX
    }

    pub open spec fn is_full(self) -> bool {
        self.events@.len() >= MAX_ROWS || self.versions@.len() >= MAX_ROWS || self.uids@.len() >= MAX_ROWS
    }

    /// An empty store.
    pub fn new() -> (r: Store)
        ensures
            r.wf(),
            r.events@.len() == 0,
            r.versions@.len() == 0,
            r.uids@.len() == 0,
    {
        Store { events: Vec::new(), versions: Vec::new(), uids: Vec::new() }
    }

    /// Writes one event's version, all or nothing. Where the event's UID is
    /// already bound in `sync_domain`, the version is appended to that event
    /// with the next number; else a new event is created at version 1, and its
    /// UID, if it has one, is bound to it. Returns the new version's id.
    pub fn import_event(&mut self, props: &Vec<Property>, sync_domain: &str, now: i64) -> (r: Result<i64, ImportError>)
        requires
            old(self).wf(),
        ensures
            final(self).wf(),
            r is Err ==> *final(self) == *old(self),
            record_error(props@) matches Some(d) ==> r == Err::<i64, ImportError>(ImportError::DateTime(d)),
            r matches Err(ImportError::DateTime(d)) ==> record_error(props@) == Some(d),
            r != Err::<i64, ImportError>(ImportError::Syntax),
            r == Err::<i64, ImportError>(ImportError::StorageFull) ==> old(self).is_full()
                || old(self).numbers_exhausted(named_value(props@, "UID"@), sync_domain@),
            r matches Ok(vid) ==> imported(*old(self), *final(self), props@, sync_domain@, now, vid),
    {
        let rec = match extract_record(props) {
            Ok(rec) => rec,
            Err(e) => return Err(ImportError::DateTime(e)),
        };
        if self.events.len() as u64 >= MAX_ROWS || self.versions.len() as u64 >= MAX_ROWS
            || self.uids.len() as u64 >= MAX_ROWS {
            return Err(ImportError::StorageFull);
        }
        let VersionRecord { summary, description, dtstart, dtend, raw_data, uid } = rec;
        let domain = String::from_str(sync_domain);
        let known = match &uid {
            Some(u) => self.find_uid(u, &domain),
            None => None,
        };
        let vid: i64 = self.versions.len() as i64 + 1;
        let ghost pre = *self;
        match known {
            Some(k) => {
                let eid = self.uids[k].event_id;
                let ev = self.events[(eid - 1) as usize];
                let cur = ev.current_version_id.unwrap();
                let number = match plan_version(true, Some((eid, self.versions[(cur - 1) as usize].version))) {
                    Some(plan) => plan.version,
                    None => {
                        assert(pre.uid_at(k as int, uid.unwrap()@, sync_domain@));
                        assert(pre.events@[eid - 1] == ev);
                        assert(pre.latest_version(pre.uids@[k as int].event_id as int) == i32::MAX);
                        assert(named_value(props@, "UID"@) == Some(uid.unwrap()@));
                        let ghost u = named_value(props@, "UID"@)->Some_0;
                        assert(pre.uid_at(k as int, u, sync_domain@)
                            && pre.latest_version(pre.uids@[k as int].event_id as int) == i32::MAX);
                        assert(pre.numbers_exhausted(named_value(props@, "UID"@), sync_domain@));
                        return Err(ImportError::StorageFull);
                    },
                };
                self.versions.push(new_version(vid, eid, number, summary, description, dtstart, dtend, raw_data, now));
                self.events.set((eid - 1) as usize, Event {
                    id: eid,
                    current_version_id: Some(vid),
                    created_at: ev.created_at,
                    updated_at: now,
                });
                proof {
                    assert(self.versions@.drop_last() =~= pre.versions@);
                    assert forall|k2: int| #[trigger] pre.uid_at(k2, uid.unwrap()@, domain@) implies k2 == k by {}
                    assert(self.uid_at(k as int, uid.unwrap()@, sync_domain@));
                    assert forall|i: int| 0 <= i < self.events@.len() implies {
                        let e = #[trigger] self.events@[i];
                        &&& e.id == i + 1
                        &&& e.current_version_id matches Some(v) && 1 <= v <= self.versions@.len()
                            && self.versions@[v - 1].event_id == i + 1
                    } by {
                        if i != eid - 1 {
                            assert(self.events@[i] == pre.events@[i]);
                        }
                    }
                    assert forall|i: int| 0 <= i < self.versions@.len() implies {
                        let v = #[trigger] self.versions@[i];
                        v.id == i + 1 && 1 <= v.event_id <= self.events@.len()
                    } by {
                        if i < pre.versions@.len() {
                            assert(self.versions@[i] == pre.versions@[i]);
                        }
                    }
                    assert forall|i: int| 0 <= i < self.uids@.len() implies {
                        let u = #[trigger] self.uids@[i];
                        u.id == i + 1 && 1 <= u.event_id <= self.events@.len()
                    } by {
                        assert(self.uids@[i] == pre.uids@[i]);
                    }
                }
            },
            None => {
                let plan = match plan_version(uid.is_some(), None) {
                    Some(plan) => plan,
                    None => return Err(ImportError::StorageFull),
                };
                let eid: i64 = self.events.len() as i64 + 1;
                self.events.push(Event { id: eid, current_version_id: Some(vid), created_at: now, updated_at: now });
                self.versions.push(new_version(vid, eid, plan.version, summary, description, dtstart, dtend, raw_data, now));
                proof {
                    assert(self.versions@.drop_last() =~= pre.versions@);
                    assert(self.events@.drop_last() =~= pre.events@);
                    assert forall|i: int| 0 <= i < self.events@.len() implies {
                        let e = #[trigger] self.events@[i];
                        &&& e.id == i + 1
                        &&& e.current_version_id matches Some(v) && 1 <= v <= self.versions@.len()
                            && self.versions@[v - 1].event_id == i + 1
                    } by {
                        if i < pre.events@.len() {
                            assert(self.events@[i] == pre.events@[i]);
                        }
                    }
                    assert forall|i: int| 0 <= i < self.versions@.len() implies {
                        let v = #[trigger] self.versions@[i];
                        v.id == i + 1 && 1 <= v.event_id <= self.events@.len()
                    } by {
                        if i < pre.versions@.len() {
                            assert(self.versions@[i] == pre.versions@[i]);
                        }
                    }
                    assert forall|i: int| 0 <= i < self.uids@.len() implies {
                        let u = #[trigger] self.uids@[i];
                        u.id == i + 1 && 1 <= u.event_id <= self.events@.len()
                    } by {
                        assert(self.uids@[i] == pre.uids@[i]);
                    }
                }
                if plan.bind_uid {
                    match uid {
                        Some(u) => {
                            let row = EventUid {
                                id: self.uids.len() as i64 + 1,
                                event_id: eid,
                                uid: u,
                                sync_domain: domain,
                                created_at: now,
                            };
                            let ghost mid = *self;
                            self.uids.push(row);
                            proof {
                                assert(self.uids@.drop_last() =~= pre.uids@);
                                assert(self.uid_at(mid.uids@.len() as int, uid.unwrap()@, sync_domain@));
                                assert forall|i: int| 0 <= i < self.uids@.len() implies {
                                    let u = #[trigger] self.uids@[i];
                                    u.id == i + 1 && 1 <= u.event_id <= self.events@.len()
                                } by {
                                    if i < mid.uids@.len() {
                                        assert(self.uids@[i] == mid.uids@[i]);
                                    }
                                }
                                assert forall|i: int, j: int| #![trigger self.uids@[i], self.uids@[j]]
                                    0 <= i < self.uids@.len() && 0 <= j < self.uids@.len()
                                        && self.uids@[i].uid@ == self.uids@[j].uid@
                                        && self.uids@[i].sync_domain@ == self.uids@[j].sync_domain@ implies i == j by {
                                    let n = mid.uids@.len() as int;
                                    if i < n && j < n {
                                        assert(self.uids@[i] == mid.uids@[i]);
                                        assert(self.uids@[j] == mid.uids@[j]);
                                    } else if i < n {
                                        assert(self.uids@[i] == mid.uids@[i]);
                                        assert(pre.uid_at(i, self.uids@[j].uid@, domain@));
                                    } else if j < n {
                                        assert(self.uids@[j] == mid.uids@[j]);
                                        assert(pre.uid_at(j, self.uids@[i].uid@, domain@));
                                    }
                                }
                            }
                        },
                        None => {},
                    }
                }
            },
        }
        Ok(vid)
    }

    /// The UID row binding `uid` in `domain`, if any.
    pub fn find_uid(&self, uid: &String, domain: &String) -> (r: Option<usize>)
        ensures
            r matches Some(k) ==> self.uid_at(k as int, uid@, domain@),
            r is None ==> !self.knows(uid@, domain@),
    {
        let mut k: usize = 0;
        while k < self.uids.len()
            invariant
                k <= self.uids@.len(),
                forall|j: int| 0 <= j < k ==> !#[trigger] self.uid_at(j, uid@, domain@),
            decreases self.uids@.len() - k,
        {
            if self.uids[k].uid.eq(uid) && self.uids[k].sync_domain.eq(domain) {
                return Some(k);
            }
            k = k + 1;
        }
        None
    }
}

/// What a successful import of `props` at `now` does to the store `old`,
/// giving `new`, the new version's id being `vid`.
pub open spec fn imported(old: Store, new: Store, props: Seq<Property>, domain: Seq<char>, now: i64, vid: i64) -> bool {
    &&& vid == new.versions@.len()
    &&& new.versions@.last().id == vid
    &&& new.versions@.len() == old.versions@.len() + 1
    &&& new.versions@.drop_last() == old.versions@
    &&& version_from(new.versions@.last(), props, now)
    &&& (named_value(props, "UID"@) matches Some(u) ==> new.knows(u, domain))
    &&& (named_value(props, "UID"@) matches Some(u) && old.knows(u, domain)) ==> {
        &&& new.events@.len() == old.events@.len()
        &&& new.uids@ == old.uids@
        &&& forall|k: int| #[trigger] old.uid_at(k, named_value(props, "UID"@).unwrap(), domain) ==> {
            let eid = old.uids@[k].event_id;
            &&& new.versions@.last().event_id == eid
            &&& new.versions@.last().version == old.latest_version(eid as int) + 1
            &&& new.events@ == old.events@.update(eid - 1, Event {
                id: eid,
                current_version_id: Some(new.versions@.len() as i64),
                created_at: old.events@[eid - 1].created_at,
                updated_at: now,
            })
        }
    }
    &&& !(named_value(props, "UID"@) matches Some(u) && old.knows(u, domain)) ==> {
        &&& new.events@.len() == old.events@.len() + 1
        &&& new.events@.drop_last() == old.events@
        &&& new.events@.last() == (Event {
            id: new.events@.len() as i64,
            current_version_id: Some(new.versions@.len() as i64),
            created_at: now,
            updated_at: now,
        })
        &&& new.versions@.last().event_id == new.events@.len()
        &&& new.versions@.last().version == 1
        &&& named_value(props, "UID"@) is None ==> new.uids@ == old.uids@
        &&& named_value(props, "UID"@) matches Some(u) ==> {
            &&& new.uids@.len() == old.uids@.len() + 1
            &&& new.uids@.drop_last() == old.uids@
            &&& new.uids@.last().uid@ == u
            &&& new.uids@.last().sync_domain@ == domain
            &&& new.uids@.last().event_id == new.events@.len()
        }
    }
}

/// Importing the same event, one with a UID, twice in a row into one sync
/// domain creates one event only: the second import adds a version to it.
pub proof fn lemma_reimport_creates_no_event(
    s0: Store,
    s1: Store,
    s2: Store,
    props: Seq<Property>,
    domain: Seq<char>,
    t1: i64,
    t2: i64,
    v1: i64,
    v2: i64,
)
    requires
        s1.wf(),
        named_value(props, "UID"@) is Some,
        imported(s0, s1, props, domain, t1, v1),
        imported(s1, s2, props, domain, t2, v2),
    ensures
        s2.events@.len() == s1.events@.len(),
        s2.events@.len() <= s0.events@.len() + 1,
        s2.uids@ == s1.uids@,
        s2.versions@.last().event_id == s1.versions@.last().event_id,
{
    let u = named_value(props, "UID"@).unwrap();
    assert(s1.knows(u, domain));
    let k = choose|k: int| s1.uid_at(k, u, domain);
    assert(s1.uid_at(k, u, domain));
    if s0.knows(u, domain) {
        assert(s0.uid_at(k, u, domain));
    } else {
        let last = s1.uids@.len() - 1;
        assert(s1.uid_at(last, u, domain));
        assert(s1.uids@[k] == s1.uids@[last]);
    }
}

/// A store binds each UID at most once per sync domain, so importing the same
/// events again finds the same event rather than creating another.
pub proof fn lemma_one_event_per_uid(s: Store, uid: Seq<char>, domain: Seq<char>, i: int, j: int)
    requires
        s.wf(),
        s.uid_at(i, uid, domain),
        s.uid_at(j, uid, domain),
    ensures
        i == j,
        s.uids@[i].event_id == s.uids@[j].event_id,
{
    assert(s.uids@[i].uid@ == s.uids@[j].uid@);
}

/// `chain` runs from store to store through a successful import of each of
/// `events` in turn.
pub open spec fn import_chain(chain: Seq<Store>, events: Seq<Vec<Property>>, domain: Seq<char>, now: i64) -> bool {
    &&& chain.len() == events.len() + 1
    &&& forall|i: int| 0 <= i < events.len() ==> imported(
        chain[i],
        chain[i + 1],
        (#[trigger] events[i])@,
        domain,
        now,
        chain[i + 1].versions@.len() as i64,
    )
}

/// `chain` runs from `old` to `new`, and `ids` are the ids of the versions
/// its steps add.
pub open spec fn chain_ids(chain: Seq<Store>, old: Store, new: Store, ids: Seq<i64>) -> bool {
    &&& chain[0] == old
    &&& chain.last() == new
    &&& ids.len() == chain.len() - 1
    &&& forall|i: int| 0 <= i < ids.len() ==> #[trigger] ids[i] == chain[i + 1].versions@.len()
}

/// Why importing `props` into `s` failed with `e`, leaving `s` as it was.
pub open spec fn failed_on(s: Store, props: Seq<Property>, domain: Seq<char>, e: ImportError) -> bool {
    match e {
        ImportError::DateTime(d) => record_error(props) == Some(d),
        ImportError::StorageFull => record_error(props) is None && (s.is_full()
            || s.numbers_exhausted(named_value(props, "UID"@), domain)),
        ImportError::Syntax => false,
    }
}

/// What importing `events` in order from `old` does: on success every event
/// is imported in turn, the ids being those of the new versions; on failure
/// the events before the failing one are imported in turn, and the failing
/// event and those after it leave nothing behind.
pub open spec fn events_imported(
    old: Store,
    new: Store,
    events: Seq<Vec<Property>>,
    domain: Seq<char>,
    now: i64,
    r: Result<Vec<i64>, ImportError>,
) -> bool {
    match r {
        Ok(ids) => exists|chain: Seq<Store>| #[trigger] import_chain(chain, events, domain, now)
            && chain_ids(chain, old, new, ids@),
        Err(e) => exists|k: int, chain: Seq<Store>| {
            &&& 0 <= k < events.len()
            &&& #[trigger] import_chain(chain, events.take(k), domain, now)
            &&& chain[0] == old
            &&& chain.last() == new
            &&& failed_on(new, events[k]@, domain, e)
        },
    }
}

/// Imports `events` in order into `store`, binding UIDs in `sync_domain`.
/// Each event is written all or nothing, and the first event that fails stops
/// the import, the events before it staying written. Returns the new
/// versions' ids.
pub fn import_events(store: &mut Store, sync_domain: &str, events: &Vec<Vec<Property>>, now: i64) -> (r: Result<Vec<i64>, ImportError>)
    requires
        old(store).wf(),
    ensures
        final(store).wf(),
        events_imported(*old(store), *final(store), events@, sync_domain@, now, r),
{
    let ghost start = *store;
    let ghost mut chain: Seq<Store> = seq![*store];
    let mut ids: Vec<i64> = Vec::new();
    let mut i: usize = 0;
    assert(events@.take(0) =~= Seq::<Vec<Property>>::empty());
    while i < events.len()
        invariant
            i <= events@.len(),
            start == *old(store),
            store.wf(),
            ids@.len() == i,
            import_chain(chain, events@.take(i as int), sync_domain@, now),
            chain[0] == start,
            chain.last() == *store,
            forall|j: int| 0 <= j < i ==> #[trigger] ids@[j] == chain[j + 1].versions@.len(),
        decreases events@.len() - i,
    {
        let ghost before = *store;
        match store.import_event(&events[i], sync_domain, now) {
            Ok(vid) => {
                ids.push(vid);
                proof {
                    let next = chain.push(*store);
                    let taken = events@.take(i as int + 1);
                    assert forall|j: int| 0 <= j < taken.len() implies imported(
                        next[j],
                        next[j + 1],
                        (#[trigger] taken[j])@,
                        sync_domain@,
                        now,
                        next[j + 1].versions@.len() as i64,
                    ) by {
                        if j < i {
                            assert(events@.take(i as int)[j] == taken[j]);
                            assert(imported(chain[j], chain[j + 1], events@.take(i as int)[j]@, sync_domain@, now,
                                chain[j + 1].versions@.len() as i64));
                        } else {
                            assert(taken[j] == events@[i as int]);
                        }
                    }
                    chain = next;
                }
            },
            Err(e) => {
                proof {
                    assert(*store == before);
                    assert(events@[i as int]@ == events[i as int]@);
                    assert(failed_on(*store, events@[i as int]@, sync_domain@, e));
                    assert(import_chain(chain, events@.take(i as int), sync_domain@, now));
                }
                return Err(e);
            },
        }
        i = i + 1;
    }
    assert(events@.take(events@.len() as int) =~= events@);
    Ok(ids)
}

/// Parses `text` and imports its events in order into `store`, as
/// `import_events` does. Malformed text changes nothing.
pub fn import_ics(store: &mut Store, sync_domain: &str, text: &str, now: i64) -> (r: Result<Vec<i64>, ImportError>)
    requires
        old(store).wf(),
    ensures
        final(store).wf(),
        (r == Err::<Vec<i64>, ImportError>(ImportError::Syntax)) <==> parsed_events(text@) is None,
        parsed_events(text@) is None ==> *final(store) == *old(store),
        parsed_events(text@) matches Some(evs) ==> events_imported(*old(store), *final(store), evs, sync_domain@, now, r),
{
    match parse_events(text) {
        Some(events) => import_events(store, sync_domain, &events, now),
        None => Err(ImportError::Syntax),
    }
}

/// A version with the given fields, the rest empty.
fn new_version(
    id: i64,
    event_id: i64,
    version: i32,
    summary: Option<String>,
    description: Option<String>,
    dtstart: Option<i64>,
    dtend: Option<i64>,
    raw_data: String,
    now: i64,
) -> (v: EventVersion)
    ensures
        v == (EventVersion {
            id, event_id, version, summary, description, dtstart, dtend,
            duration: None, rrule: None, rdate: None, exdate: None, status: None,
            organizer: None, location: None, url: None, class: None, priority: None,
            transp: None, sequence: None, raw_data, created_at: now, last_retrieved_at: now,
        }),
{
    EventVersion {
        id, event_id, version, summary, description, dtstart, dtend,
        duration: None, rrule: None, rdate: None, exdate: None, status: None,
        organizer: None, location: None, url: None, class: None, priority: None,
        transp: None, sequence: None, raw_data, created_at: now, last_retrieved_at: now,
    }
}

} // verus!
