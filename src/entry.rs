use vstd::prelude::*;

use crate::clock::now_seconds;

verus! {

/// One stored credential and the times it was created and last changed.
#[derive(Debug, Clone)]
pub struct CredentialEntry {
    pub service: String,
    pub account: String,
    pub secret: String,
    pub created_at: u64,
    pub updated_at: u64,
}

/// The value `updated_at` takes when an entry changes at time `now`: the
/// clock reading, but never earlier than either stored timestamp.
pub open spec fn refreshed(e: CredentialEntry, now: u64) -> u64 {
    let a = if now >= e.updated_at { now } else { e.updated_at };
    if a >= e.created_at { a } else { e.created_at }
}

impl CredentialEntry {
    /// The timestamps are in order: the entry was not changed before it was made.
    pub open spec fn wf(&self) -> bool {
        self.created_at <= self.updated_at
    }

    /// An entry made now, with both timestamps at the current time.
    pub fn new(service: String, account: String, secret: String) -> (r: Self)
        ensures
            r.service == service,
            r.account == account,
            r.secret == secret,
            r.created_at == r.updated_at,
            r.wf(),
    {
        let now = now_seconds();
        Self::new_at(service, account, secret, now)
    }

    /// An entry made at time `now`.
    pub fn new_at(service: String, account: String, secret: String, now: u64) -> (r: Self)
        ensures
            r == (CredentialEntry { service, account, secret, created_at: now, updated_at: now }),
            r.wf(),
    {
        CredentialEntry { service, account, secret, created_at: now, updated_at: now }
    }

    fn touch_at(&mut self, now: u64)
        ensures
            *final(self) == (CredentialEntry { updated_at: refreshed(*old(self), now), ..*old(self) }),
    {
        if now > self.updated_at {
            self.updated_at = now;
        }
        if self.created_at > self.updated_at {
            self.updated_at = self.created_at;
        }
    }

    /// Sets the service name, with the change recorded at time `now`.
    pub fn update_service_at(&mut self, new_service: String, now: u64)
        ensures
            *final(self) == (CredentialEntry {
                service: new_service,
                updated_at: refreshed(*old(self), now),
                ..*old(self)
            }),
    {
        self.service = new_service;
        self.touch_at(now);
    }

    /// Sets the account, with the change recorded at time `now`.
    pub fn update_account_at(&mut self, new_account: String, now: u64)
        ensures
            *final(self) == (CredentialEntry {
                account: new_account,
                updated_at: refreshed(*old(self), now),
                ..*old(self)
            }),
    {
        self.account = new_account;
        self.touch_at(now);
    }

    /// Sets the secret, with the change recorded at time `now`.
    pub fn update_secret_at(&mut self, new_secret: String, now: u64)
        ensures
            *final(self) == (CredentialEntry {
                secret: new_secret,
                updated_at: refreshed(*old(self), now),
                ..*old(self)
            }),
    {
        self.secret = new_secret;
        self.touch_at(now);
    }

    /// Sets the service name and refreshes `updated_at` from the clock.
    pub fn update_service(&mut self, new_service: String)
        ensures
            exists|now: u64| *final(self) == (CredentialEntry {
                service: new_service,
                updated_at: #[trigger] refreshed(*old(self), now),
                ..*old(self)
            }),
    {
        let now = now_seconds();
        self.update_service_at(new_service, now);
    }

    /// Sets the account and refreshes `updated_at` from the clock.
    pub fn update_account(&mut self, new_account: String)
        ensures
            exists|now: u64| *final(self) == (CredentialEntry {
                account: new_account,
                updated_at: #[trigger] refreshed(*old(self), now),
                ..*old(self)
            }),
    {
        let now = now_seconds();
        self.update_account_at(new_account, now);
    }

    /// Sets the secret and refreshes `updated_at` from the clock.
    pub fn update_secret(&mut self, new_secret: String)
        ensures
            exists|now: u64| *final(self) == (CredentialEntry {
                secret: new_secret,
                updated_at: #[trigger] refreshed(*old(self), now),
                ..*old(self)
            }),
    {
        let now = now_seconds();
        self.update_secret_at(new_secret, now);
    }
}

/// After a change at any time, `updated_at` is no earlier than `created_at`
/// and no earlier than it was before: the timestamps only move forward.
pub proof fn lemma_refresh_monotonic(e: CredentialEntry, now: u64)
    ensures
        refreshed(e, now) >= e.created_at,
        refreshed(e, now) >= e.updated_at,
        refreshed(e, now) >= now,
{
}

} // verus!
