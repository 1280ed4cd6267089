//! The record store: a mapping from site name to owner, address and expiry.
//!
//! A record is created by the first successful write for its name. Later
//! writes change its address and expiry, and only when they come from its
//! owner. The owner of a name never changes, and no record is ever removed:
//! expiry is judged when a record is read.

use crate::clock::{expired, is_expired};
use crate::encoding::text_of;
use crate::error::RegistryError;
use crate::request::{GetSiteResponse, Site};
use crate::table::{lemma_table_push, lemma_table_row, lemma_table_update, table};
use vstd::prelude::*;

verus! {

/// A site name with its owner, its address and its expiry.
#[derive(Debug, Clone, PartialEq, Eq)]
pub struct Record {
    pub name: String,
    /// The name of the identity that owns the site.
    pub owner: String,
    pub address: String,
    /// Expiry in seconds since the Unix epoch.
    pub expires: i64,
}

/// What the store holds under a site name.
pub struct RecordView {
    pub owner: Seq<char>,
    pub address: Seq<char>,
    pub expires: i64,
}

impl View for Record {
    type V = RecordView;

    open spec fn view(&self) -> RecordView {
        RecordView { owner: self.owner@, address: self.address@, expires: self.expires }
    }
}

/// The site names of a sequence of records, in order.
pub open spec fn record_names(entries: Seq<Record>) -> Seq<Seq<char>> {
    Seq::new(entries.len(), |i: int| entries[i].name@)
}

/// What a sequence of records holds under each of its names, in order.
pub open spec fn record_values(entries: Seq<Record>) -> Seq<RecordView> {
    Seq::new(entries.len(), |i: int| entries[i]@)
}

/// What a write to the store has to do.
#[derive(Debug, Clone, Copy, PartialEq, Eq, Structural)]
pub enum WritePlan {
    /// The name is new: create its record.
    Insert,
    /// The name belongs to the writer: replace address and expiry.
    Update,
}

/// The rule of ownership: a new name may be created by anyone, an existing
/// one may be written by its owner only.
pub open spec fn write_plan(current_owner: Option<Seq<char>>, owner: Seq<char>) -> Result<
    WritePlan,
    RegistryError,
> {
    match current_owner {
        None => Ok(WritePlan::Insert),
        Some(current) => if current == owner {
            Ok(WritePlan::Update)
        } else {
            Err(RegistryError::Forbidden)
        },
    }
}

/// The records and the outcome after `owner` writes `address` and `expires`
/// under `site`.
pub open spec fn upsert_outcome(
    records: Map<Seq<char>, RecordView>,
    site: Seq<char>,
    owner: Seq<char>,
    address: Seq<char>,
    expires: i64,
) -> (Map<Seq<char>, RecordView>, Result<(), RegistryError>) {
    if records.contains_key(site) && records[site].owner != owner {
        (records, Err(RegistryError::Forbidden))
    } else {
        (records.insert(site, RecordView { owner, address, expires }), Ok(()))
    }
}

/// What resolving gives for what the store holds under a name, at time `now`.
pub open spec fn resolution(site: Option<(Seq<char>, i64)>, now: i64) -> Result<
    Seq<char>,
    RegistryError,
> {
    match site {
        None => Err(RegistryError::NotFound),
        Some((address, expires)) => if expired(expires, now) {
            Err(RegistryError::Gone)
        } else {
            Ok(address)
        },
    }
}

/// The address and expiry of a site, as plain values.
pub open spec fn site_view(site: Option<Site>) -> Option<(Seq<char>, i64)> {
    match site {
        Some(s) => Some((s.address@, s.expires)),
        None => None,
    }
}

/// The address that a response carries, as a plain value.
pub open spec fn response_view(response: Result<GetSiteResponse, RegistryError>) -> Result<
    Seq<char>,
    RegistryError,
> {
    match response {
        Ok(r) => Ok(r.address@),
        Err(e) => Err(e),
    }
}

/// Decides what a write by `owner` has to do, given the current owner of the
/// name, if it has one.
pub fn plan_upsert(current_owner: Option<&String>, owner: &String) -> (plan: Result<
    WritePlan,
    RegistryError,
>)
    ensures
        plan == write_plan(text_of(current_owner), owner@),
{
    match current_owner {
        None => Ok(WritePlan::Insert),
        Some(current) => {
            if *current == *owner {
                Ok(WritePlan::Update)
            } else {
                Err(RegistryError::Forbidden)
            }
        },
    }
}

/// Decides what resolving a name gives, from what the store holds under it
/// and the server time `now`.
pub fn resolve(site: Option<Site>, now: i64) -> (response: Result<GetSiteResponse, RegistryError>)
    ensures
        response_view(response) == resolution(site_view(site), now),
{
    match site {
        None => Err(RegistryError::NotFound),
        Some(site) => {
            if is_expired(site.expires, now) {
                Err(RegistryError::Gone)
            } else {
                Ok(GetSiteResponse { address: site.address })
            }
        },
    }
}

/// The records written so far.
pub struct RecordStore {
    entries: Vec<Record>,
}

impl View for RecordStore {
    type V = Map<Seq<char>, RecordView>;

    /// What the store holds under each site name.
    closed spec fn view(&self) -> Map<Seq<char>, RecordView> {
        table(record_names(self.entries@), record_values(self.entries@))
    }
}

impl RecordStore {
    /// No site name has two records.
    pub closed spec fn wf(&self) -> bool {
        record_names(self.entries@).no_duplicates()
    }

    /// A store with no record in it.
    pub fn new() -> (store: RecordStore)
        ensures
            store.wf(),
            store@ == Map::<Seq<char>, RecordView>::empty(),
    {
        let store = RecordStore { entries: Vec::new() };
        assert(store@ =~= Map::<Seq<char>, RecordView>::empty());
        store
    }

    /// The position of `site` among the entries, if it has a record.
    fn find(&self, site: &String) -> (found: Option<usize>)
        requires
            self.wf(),
        ensures
            match found {
                Some(i) => i < self.entries@.len() && self.entries@[i as int].name@ == site@
                    && self@.contains_key(site@) && self@[site@] == self.entries@[i as int]@,
                None => !self@.contains_key(site@),
            },
    {
        let mut i: usize = 0;
        while i < self.entries.len()
            invariant
                self.wf(),
                i <= self.entries@.len(),
                forall|j: int| 0 <= j < i ==> self.entries@[j].name@ != site@,
            decreases self.entries@.len() - i,
        {
            if self.entries[i].name == *site {
                proof {
                    lemma_table_row(
                        record_names(self.entries@),
                        record_values(self.entries@),
                        i as int,
                    );
                }
                return Some(i);
            }
            i += 1;
        }
        assert forall|j: int| 0 <= j < record_names(self.entries@).len() implies record_names(
            self.entries@,
        )[j] != site@ by {
            assert(self.entries@[j].name@ != site@);
        }
        None
    }

    /// The owner of `site`, if it has a record.
    pub fn get_owner(&self, site: &String) -> (owner: Option<&String>)
        requires
            self.wf(),
        ensures
            match owner {
                Some(o) => self@.contains_key(site@) && self@[site@].owner == o@,
                None => !self@.contains_key(site@),
            },
    {
        match self.find(site) {
            Some(i) => Some(&self.entries[i].owner),
            None => None,
        }
    }

    /// The address and expiry of `site`, if it has a record. An expired
    /// record is still handed out.
    pub fn get_record(&self, site: &String) -> (found: Option<Site>)
        requires
            self.wf(),
        ensures
            match found {
                Some(s) => self@.contains_key(site@) && self@[site@].address == s.address@
                    && self@[site@].expires == s.expires,
                None => !self@.contains_key(site@),
            },
    {
        match self.find(site) {
            Some(i) => Some(
                Site { address: self.entries[i].address.clone(), expires: self.entries[i].expires },
            ),
            None => None,
        }
    }

    /// Creates the record of `site` for `owner`, or replaces its address and
    /// expiry if `owner` owns it. If the record belongs to another identity
    /// nothing changes and `Forbidden` is returned.
    pub fn upsert(&mut self, site: String, owner: String, address: String, expires: i64) -> (done:
        Result<(), RegistryError>)
        requires
            old(self).wf(),
        ensures
            final(self).wf(),
            (final(self)@, done) == upsert_outcome(old(self)@, site@, owner@, address@, expires),
    {
        let ghost before = self.entries@;
        let found = self.find(&site);
        let plan = match found {
            Some(i) => plan_upsert(Some(&self.entries[i].owner), &owner),
            None => plan_upsert(None, &owner),
        };
        let record = Record { name: site, owner, address, expires };
        match (plan, found) {
            (Err(e), _) => Err(e),
            (Ok(_), None) => {
                proof {
                    lemma_table_push(
                        record_names(before),
                        record_values(before),
                        record.name@,
                        record@,
                    );
                }
                self.entries.push(record);
                assert(record_names(self.entries@) =~= record_names(before).push(record.name@));
                assert(record_values(self.entries@) =~= record_values(before).push(record@));
                Ok(())
            },
            (Ok(_), Some(i)) => {
                proof {
                    lemma_table_update(
                        record_names(before),
                        record_values(before),
                        i as int,
                        record@,
                    );
                }
                self.entries.set(i, record);
                assert(record_names(self.entries@) =~= record_names(before));
                assert(record_values(self.entries@) =~= record_values(before).update(
                    i as int,
                    record@,
                ));
                Ok(())
            },
        }
    }
}

} // verus!
