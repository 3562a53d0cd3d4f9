use vstd::prelude::*;

use crate::entry::{refreshed, CredentialEntry};
use crate::error::CredentialError;

verus! {

/// The format tag written with every database.
pub const CURRENT_VERSION: &'static str = "1.0";

/// The entries of `entries` whose service is not `service`, in their order.
pub open spec fn without_service(entries: Seq<CredentialEntry>, service: Seq<char>) -> Seq<
    CredentialEntry,
>
    decreases entries.len(),
{
    if entries.len() == 0 {
        entries
    } else {
        let rest = without_service(entries.drop_last(), service);
        if entries.last().service@ == service {
            rest
        } else {
            rest.push(entries.last())
        }
    }
}

/// Some entry has the service `service`.
pub open spec fn has_service(entries: Seq<CredentialEntry>, service: Seq<char>) -> bool {
    exists|i: int| 0 <= i < entries.len() && (#[trigger] entries[i]).service@ == service
}

/// `i` is the position of the first entry with the service `service`.
pub open spec fn is_first_match(entries: Seq<CredentialEntry>, service: Seq<char>, i: int) -> bool {
    &&& 0 <= i < entries.len()
    &&& entries[i].service@ == service
    &&& forall|k: int| 0 <= k < i ==> (#[trigger] entries[k]).service@ != service
}

/// How many entries have the service `service`.
pub open spec fn service_count(entries: Seq<CredentialEntry>, service: Seq<char>) -> nat
    decreases entries.len(),
{
    if entries.len() == 0 {
        0
    } else {
        service_count(entries.drop_last(), service) + if entries.last().service@ == service {
            1nat
        } else {
            0nat
        }
    }
}

/// No two entries share a service.
pub open spec fn services_unique(entries: Seq<CredentialEntry>) -> bool {
    forall|service: Seq<char>| #[trigger] service_count(entries, service) <= 1
}

/// The service names of `entries`, in their order.
pub open spec fn services_of(entries: Seq<CredentialEntry>) -> Seq<Seq<char>> {
    entries.map_values(|e: CredentialEntry| e.service@)
}

/// `e` after an edit at time `now`: each field that differs from the new
/// value is set, and each change refreshes `updated_at`.
pub open spec fn edited(
    e: CredentialEntry,
    new_service: String,
    new_account: String,
    new_secret: Option<String>,
    now: u64,
) -> CredentialEntry {
    let e1 = if e.service@ != new_service@ {
        CredentialEntry { service: new_service, updated_at: refreshed(e, now), ..e }
    } else {
        e
    };
    let e2 = if e1.account@ != new_account@ {
        CredentialEntry { account: new_account, updated_at: refreshed(e1, now), ..e1 }
    } else {
        e1
    };
    match new_secret {
        Some(secret) => CredentialEntry { secret, updated_at: refreshed(e2, now), ..e2 },
        None => e2,
    }
}

/// The collection of stored credentials, in the order they were added, with
/// the format tag it is stored under.
#[derive(Debug)]
pub struct CredentialDatabase {
    pub entries: Vec<CredentialEntry>,
    pub version: String,
}

impl CredentialDatabase {
    /// An empty database under the current format tag.
    pub fn new() -> (r: Self)
        ensures
            r.entries@ == Seq::<CredentialEntry>::empty(),
            r.version@ == CURRENT_VERSION@,
    {
        CredentialDatabase { entries: Vec::new(), version: CURRENT_VERSION.to_owned() }
    }

    /// Appends `entry` after the existing ones; an entry with the same
    /// service is not looked for.
    pub fn add_entry(&mut self, entry: CredentialEntry)
        ensures
            final(self).entries@ == old(self).entries@.push(entry),
            final(self).version == old(self).version,
    {
        self.entries.push(entry);
    }

    /// Removes every entry with the service `service`, keeping the order of
    /// the others; tells whether anything was removed.
    pub fn remove_entry(&mut self, service: &str) -> (r: bool)
        ensures
            final(self).entries@ == without_service(old(self).entries@, service@),
            final(self).version == old(self).version,
            r == has_service(old(self).entries@, service@),
    {
        let ghost orig = self.entries@;
        let key = service.to_owned();
        let mut i: usize = 0;
        let mut removed = false;
        let ghost mut j: int = 0;
        while i < self.entries.len()
            invariant
                0 <= i <= j <= orig.len(),
                self.entries@.len() == i + (orig.len() - j),
                self.entries@.subrange(0, i as int) == without_service(orig.subrange(0, j), key@),
                self.entries@.subrange(i as int, self.entries@.len() as int) == orig.subrange(
                    j,
                    orig.len() as int,
                ),
                self.version == old(self).version,
                key@ == service@,
                removed == has_service(orig.subrange(0, j), key@),
            decreases orig.len() - j,
        {
            let ghost before = self.entries@;
            assert(orig.subrange(0, j + 1).drop_last() =~= orig.subrange(0, j));
            assert(before.subrange(i as int, before.len() as int)[0] == before[i as int]);
            assert(orig.subrange(j, orig.len() as int)[0] == orig[j]);
            assert(before[i as int] == orig[j]);
            if self.entries[i].service == key {
                self.entries.remove(i);
                removed = true;
                assert(self.entries@.subrange(0, i as int) =~= before.subrange(0, i as int));
                let ghost after = self.entries@;
                assert(after.len() == orig.len() - j - 1 + i);
                assert forall|k: int| 0 <= k < after.len() - i implies #[trigger] after.subrange(
                    i as int,
                    after.len() as int,
                )[k] == orig.subrange(j + 1, orig.len() as int)[k] by {
                    assert(after[i + k] == before[i + 1 + k]);
                    assert(before.subrange(i as int, before.len() as int)[1 + k]
                        == before[i + 1 + k]);
                    assert(orig.subrange(j, orig.len() as int)[1 + k] == orig[j + 1 + k]);
                }
                assert(after.subrange(i as int, after.len() as int)
                    =~= orig.subrange(j + 1, orig.len() as int));
                assert(orig.subrange(0, j + 1)[j] == orig[j]);
            } else {
                assert(self.entries@.subrange(0, i + 1) =~= before.subrange(0, i as int).push(
                    before[i as int],
                ));
                assert forall|k: int| 0 <= k < before.len() - i - 1 implies #[trigger] before.subrange(
                    i + 1,
                    before.len() as int,
                )[k] == orig.subrange(j + 1, orig.len() as int)[k] by {
                    assert(before.subrange(i as int, before.len() as int)[1 + k]
                        == before[i + 1 + k]);
                    assert(orig.subrange(j, orig.len() as int)[1 + k] == orig[j + 1 + k]);
                }
                assert(before.subrange(i + 1, before.len() as int)
                    =~= orig.subrange(j + 1, orig.len() as int));
                i = i + 1;
                proof {
                    if has_service(orig.subrange(0, j + 1), key@) && !removed {
                        let w = choose|w: int|
                            0 <= w < j + 1 && (#[trigger] orig.subrange(0, j + 1)[w]).service@
                                == key@;
                        assert(orig.subrange(0, j)[w] == orig.subrange(0, j + 1)[w]);
                    }
                }
            }
            proof {
                if removed && !has_service(orig.subrange(0, j), key@) {
                    assert(orig.subrange(0, j + 1)[j] == orig[j]);
                }
                if has_service(orig.subrange(0, j), key@) {
                    let w = choose|w: int|
                        0 <= w < j && (#[trigger] orig.subrange(0, j)[w]).service@ == key@;
                    assert(orig.subrange(0, j + 1)[w] == orig.subrange(0, j)[w]);
                }
                j = j + 1;
            }
        }
        assert(orig.subrange(0, j) =~= orig);
        assert(self.entries@.subrange(0, i as int) =~= self.entries@);
        removed
    }

    /// The first entry with the service `service`, if there is one.
    pub fn find_entry(&self, service: &str) -> (r: Option<&CredentialEntry>)
        ensures
            r is None <==> !has_service(self.entries@, service@),
            r matches Some(e) ==> exists|i: int|
                is_first_match(self.entries@, service@, i) && #[trigger] self.entries@[i] == *e,
    {
        match self.position_of(service) {
            Some(i) => Some(&self.entries[i]),
            None => None,
        }
    }

    /// The position of the first entry with the service `service`, if any.
    pub fn position_of(&self, service: &str) -> (r: Option<usize>)
        ensures
            r is None <==> !has_service(self.entries@, service@),
            r matches Some(i) ==> is_first_match(self.entries@, service@, i as int),
    {
        let key = service.to_owned();
        let mut i: usize = 0;
        while i < self.entries.len()
            invariant
                i <= self.entries@.len(),
                key@ == service@,
                forall|k: int| 0 <= k < i ==> (#[trigger] self.entries@[k]).service@ != key@,
            decreases self.entries@.len() - i,
        {
            if self.entries[i].service == key {
                return Some(i);
            }
            i = i + 1;
        }
        None
    }

    /// A handle on the first entry with the service `service`, through which
    /// it is changed in place.
    pub fn edit_entry(&mut self, service: &str) -> (r: Option<&mut CredentialEntry>)
        ensures
            r is None <==> !has_service(old(self).entries@, service@),
            r is None ==> *final(self) == *old(self),
            r matches Some(e) ==> exists|i: int|
                is_first_match(old(self).entries@, service@, i) && *e == #[trigger] old(
                    self,
                ).entries@[i] && final(self).entries@ == old(self).entries@.update(i, *final(e))
                    && final(self).version == old(self).version,
    {
        match self.position_of(service) {
            Some(i) => Some(&mut self.entries[i]),
            None => None,
        }
    }

    /// The service names, in the order of the entries.
    pub fn list_services(&self) -> (r: Vec<&str>)
        ensures
            r@.len() == self.entries@.len(),
            forall|i: int| 0 <= i < r@.len() ==> (#[trigger] r@[i])@ == self.entries@[i].service@,
    {
        let mut r: Vec<&str> = Vec::new();
        let mut i: usize = 0;
        while i < self.entries.len()
            invariant
                i <= self.entries@.len(),
                r@.len() == i,
                forall|k: int| 0 <= k < i ==> (#[trigger] r@[k])@ == self.entries@[k].service@,
            decreases self.entries@.len() - i,
        {
            r.push(self.entries[i].service.as_str());
            i = i + 1;
        }
        assert(r@.map_values(|s: &str| s@) =~= services_of(self.entries@));
        r
    }

    /// The number of entries.
    pub fn len(&self) -> (r: usize)
        ensures
            r == self.entries@.len(),
    {
        self.entries.len()
    }

    /// Puts `entry` in place of every entry with its service, at the end;
    /// tells whether an entry was replaced.
    pub fn upsert_entry(&mut self, entry: CredentialEntry) -> (r: bool)
        ensures
            final(self).entries@ == without_service(old(self).entries@, entry.service@).push(entry),
            final(self).version == old(self).version,
            r == has_service(old(self).entries@, entry.service@),
    {
        let replaced = self.remove_entry(entry.service.as_str());
        self.add_entry(entry);
        replaced
    }

    /// The first entry with the service `service`, or `CredentialNotFound`
    /// naming it.
    pub fn lookup(&self, service: &str) -> (r: Result<&CredentialEntry, CredentialError>)
        ensures
            r is Err <==> !has_service(self.entries@, service@),
            r matches Err(e) ==> e matches CredentialError::CredentialNotFound(s) && s@ == service@,
            r matches Ok(e) ==> exists|i: int|
                is_first_match(self.entries@, service@, i) && #[trigger] self.entries@[i] == *e,
    {
        match self.find_entry(service) {
            Some(e) => Ok(e),
            None => Err(CredentialError::credential_not_found(service)),
        }
    }

    /// The service names in order, or `CredentialNotStored` when there are none.
    pub fn listing(&self) -> (r: Result<Vec<&str>, CredentialError>)
        ensures
            r is Err <==> self.entries@.len() == 0,
            r matches Err(e) ==> e == CredentialError::CredentialNotStored,
            r matches Ok(v) ==> v@.len() == self.entries@.len() && forall|i: int|
                0 <= i < v@.len() ==> (#[trigger] v@[i])@ == self.entries@[i].service@,
    {
        if self.entries.len() == 0 {
            Err(CredentialError::credentials_not_stored())
        } else {
            Ok(self.list_services())
        }
    }

    /// Edits the first entry with the service `service` at time `now`: the
    /// service and account are set where they differ from the stored ones,
    /// and the secret where a new one is given. An unchanged entry keeps its
    /// timestamps. Fails with `CredentialNotFound` when no entry matches.
    pub fn apply_edit(
        &mut self,
        service: &str,
        new_service: String,
        new_account: String,
        new_secret: Option<String>,
        now: u64,
    ) -> (r: Result<(), CredentialError>)
        ensures
            r is Err <==> !has_service(old(self).entries@, service@),
            r matches Err(e) ==> e matches CredentialError::CredentialNotFound(s) && s@ == service@,
            r is Err ==> *final(self) == *old(self),
            r is Ok ==> exists|i: int|
                is_first_match(old(self).entries@, service@, i) && final(self).entries@
                    == old(self).entries@.update(
                    i,
                    #[trigger] edited(old(self).entries@[i], new_service, new_account, new_secret, now),
                )
                    && final(self).version == old(self).version,
    {
        match self.position_of(service) {
            None => Err(CredentialError::credential_not_found(service)),
            Some(i) => {
                let ghost e0 = self.entries@[i as int];
                let ghost ns = new_service;
                let ghost na = new_account;
                let ghost nsec = new_secret;
                let entry = &mut self.entries[i];
                if entry.service != new_service {
                    entry.update_service_at(new_service, now);
                }
                if entry.account != new_account {
                    entry.update_account_at(new_account, now);
                }
                match new_secret {
                    Some(secret) => entry.update_secret_at(secret, now),
                    None => {},
                }
                assert(*entry == edited(e0, ns, na, nsec, now));
                Ok(())
            },
        }
    }
}

/// Removing a service leaves no entry for it, and takes out exactly as many
/// entries as had it; the others keep their order.
pub proof fn lemma_remove_counts(entries: Seq<CredentialEntry>, service: Seq<char>)
    ensures
        !has_service(without_service(entries, service), service),
        service_count(without_service(entries, service), service) == 0,
        without_service(entries, service).len() + service_count(entries, service) == entries.len(),
        has_service(entries, service) <==> service_count(entries, service) > 0,
    decreases entries.len(),
{
    if entries.len() > 0 {
        let init = entries.drop_last();
        lemma_remove_counts(init, service);
        let w = without_service(entries, service);
        let wi = without_service(init, service);
        if entries.last().service@ != service {
            assert(w.drop_last() =~= wi);
            if has_service(w, service) {
                let k = choose|k: int| 0 <= k < w.len() && (#[trigger] w[k]).service@ == service;
                assert(k < wi.len() ==> w[k] == wi[k]);
            }
        }
        if has_service(entries, service) && entries.last().service@ != service {
            let k = choose|k: int| 0 <= k < entries.len() && (#[trigger] entries[k]).service@ == service;
            assert(init[k] == entries[k]);
        }
        if has_service(init, service) {
            let k = choose|k: int| 0 <= k < init.len() && (#[trigger] init[k]).service@ == service;
            assert(init[k] == entries[k]);
        }
    }
}

/// Removing an absent service changes nothing.
pub proof fn lemma_remove_absent(entries: Seq<CredentialEntry>, service: Seq<char>)
    requires
        !has_service(entries, service),
    ensures
        without_service(entries, service) == entries,
    decreases entries.len(),
{
    if entries.len() > 0 {
        let init = entries.drop_last();
        assert forall|k: int| 0 <= k < init.len() implies (#[trigger] init[k]).service@ != service by {
            assert(init[k] == entries[k]);
        }
        lemma_remove_absent(init, service);
        assert(entries.last() == entries[entries.len() - 1]);
        assert(init.push(entries.last()) =~= entries);
    }
}

/// Removing a present service from a database whose services are unique
/// shortens it by exactly one entry; removing an absent one leaves it as it was.
pub proof fn lemma_remove_semantics(db: CredentialDatabase, service: Seq<char>)
    ensures
        !has_service(db.entries@, service) ==> without_service(db.entries@, service)
            == db.entries@,
        services_unique(db.entries@) && has_service(db.entries@, service) ==> without_service(
            db.entries@,
            service,
        ).len() == db.entries@.len() - 1,
{
    lemma_remove_counts(db.entries@, service);
    if services_unique(db.entries@) {
        assert(service_count(db.entries@, service) <= 1);
    }
    if !has_service(db.entries@, service) {
        lemma_remove_absent(db.entries@, service);
    }
}

/// Removing the entries of a service and then adding a new entry for it
/// leaves exactly one entry for that service: the new one, found first.
pub proof fn lemma_replace_leaves_one(db: CredentialDatabase, entry: CredentialEntry)
    ensures
        ({
            let after = without_service(db.entries@, entry.service@).push(entry);
            &&& service_count(after, entry.service@) == 1
            &&& is_first_match(after, entry.service@, after.len() - 1)
            &&& after.last() == entry
        }),
{
    let w = without_service(db.entries@, entry.service@);
    let after = w.push(entry);
    lemma_remove_counts(db.entries@, entry.service@);
    assert(after.drop_last() =~= w);
    assert forall|k: int| 0 <= k < after.len() - 1 implies (#[trigger] after[k]).service@
        != entry.service@ by {
        assert(after[k] == w[k]);
    }
}

/// Removing one service leaves the count of every other service as it was.
pub proof fn lemma_remove_keeps_others(
    entries: Seq<CredentialEntry>,
    removed: Seq<char>,
    service: Seq<char>,
)
    requires
        removed != service,
    ensures
        service_count(without_service(entries, removed), service) == service_count(entries, service),
    decreases entries.len(),
{
    if entries.len() > 0 {
        let init = entries.drop_last();
        lemma_remove_keeps_others(init, removed, service);
        if entries.last().service@ != removed {
            assert(without_service(entries, removed).drop_last() =~= without_service(init, removed));
        }
    }
}

/// Putting an entry in place of its service keeps the services unique.
pub proof fn lemma_upsert_keeps_unique(entries: Seq<CredentialEntry>, entry: CredentialEntry)
    requires
        services_unique(entries),
    ensures
        services_unique(without_service(entries, entry.service@).push(entry)),
{
    let w = without_service(entries, entry.service@);
    let after = w.push(entry);
    assert(after.drop_last() =~= w);
    assert forall|service: Seq<char>| #[trigger] service_count(after, service) <= 1 by {
        if service == entry.service@ {
            lemma_remove_counts(entries, service);
        } else {
            lemma_remove_keeps_others(entries, entry.service@, service);
            assert(service_count(entries, service) <= 1);
        }
    }
}

} // verus!
