//! Account, installation and session operations.
//!
//! Accounts are created once at registration and read at every start.
//! Installations are immutable once observed; re-observing one is a no-op.
//! Sessions are upserted: one logical session per `session_id`, mutated only
//! in place, preserving `created_at`.

use vstd::prelude::*;
use crate::errors::StorageError;
use crate::models::{
    StoredAccount, NewStoredAccount, StoredInstallation, StoredSession, StoredSessionV,
    clone_bytes,
};
use crate::store::MessageStore;
use vstd::string::StringExecFns;

verus! {

/// The stored form of a new account row once the store has assigned it an
/// identifier.
pub open spec fn account_from_new(a: NewStoredAccount, id: i32) -> StoredAccount {
    StoredAccount { id, created_at: a.created_at, serialized_key: a.serialized_key }
}

impl MessageStore {
    /// Everything but the account table and its identifier counter is
    /// unchanged.
    pub open spec fn only_accounts_changed(pre: MessageStore, post: MessageStore) -> bool {
        &&& post.users@ == pre.users@
        &&& post.conversations@ == pre.conversations@
        &&& post.messages@ == pre.messages@
        &&& post.installations@ == pre.installations@
        &&& post.sessions@ == pre.sessions@
        &&& post.outbound_payloads@ == pre.outbound_payloads@
        &&& post.inbound_invites@ == pre.inbound_invites@
        &&& post.inbound_messages@ == pre.inbound_messages@
        &&& post.refresh_jobs@ == pre.refresh_jobs@
        &&& post.next_message_id == pre.next_message_id
    }

    /// Everything but the installation table is unchanged.
    pub open spec fn only_installations_changed(pre: MessageStore, post: MessageStore) -> bool {
        &&& post.users@ == pre.users@
        &&& post.conversations@ == pre.conversations@
        &&& post.messages@ == pre.messages@
        &&& post.accounts@ == pre.accounts@
        &&& post.sessions@ == pre.sessions@
        &&& post.outbound_payloads@ == pre.outbound_payloads@
        &&& post.inbound_invites@ == pre.inbound_invites@
        &&& post.inbound_messages@ == pre.inbound_messages@
        &&& post.refresh_jobs@ == pre.refresh_jobs@
        &&& post.next_message_id == pre.next_message_id
        &&& post.next_account_id == pre.next_account_id
    }

    /// Everything but the session table is unchanged.
    pub open spec fn only_sessions_changed(pre: MessageStore, post: MessageStore) -> bool {
        &&& post.users@ == pre.users@
        &&& post.conversations@ == pre.conversations@
        &&& post.messages@ == pre.messages@
        &&& post.accounts@ == pre.accounts@
        &&& post.installations@ == pre.installations@
        &&& post.outbound_payloads@ == pre.outbound_payloads@
        &&& post.inbound_invites@ == pre.inbound_invites@
        &&& post.inbound_messages@ == pre.inbound_messages@
        &&& post.refresh_jobs@ == pre.refresh_jobs@
        &&& post.next_message_id == pre.next_message_id
        &&& post.next_account_id == pre.next_account_id
    }

    /// Insert the account row, assigning the next store identifier. Fails
    /// only when the identifier space is exhausted, leaving the store
    /// unchanged.
    pub fn insert_account(&mut self, account: NewStoredAccount) -> (r: Result<i32, StorageError>)
        requires
            old(self).wf(),
        ensures
            final(self).wf(),
            old(self).next_account_id == i32::MAX ==> (r matches Err(e) && (e
                matches StorageError::Store(_)) && *final(self) == *old(self)),
            old(self).next_account_id < i32::MAX ==> (r matches Ok(id) && id == old(self).next_account_id && final(self).accounts@ == old(self).accounts@.push(
                account_from_new(account, old(self).next_account_id),
            ) && final(self).next_account_id == old(self).next_account_id + 1
                && Self::only_accounts_changed(*old(self), *final(self))),
    {
        if self.next_account_id == i32::MAX {
            return Err(StorageError::Store(String::from_str("accounts: id space exhausted")));
        }
        let id = self.next_account_id;
        let row = StoredAccount {
            id,
            created_at: account.created_at,
            serialized_key: account.serialized_key,
        };
        self.accounts.push(row);
        self.next_account_id = id + 1;
        proof {
            crate::store::lemma_user_lookup_preserved(*old(self), *self);
            crate::store::lemma_conversation_lookup_preserved(*old(self), *self);
        }
        Ok(id)
    }

    /// Read back the first account row, the one registration created;
    /// `None` exactly when no account was ever stored.
    pub fn get_account(&self) -> (r: Option<StoredAccount>)
        ensures
            match r {
                Some(a) => self.accounts@.len() > 0 && a@ == self.accounts@[0]@,
                None => self.accounts@.len() == 0,
            },
    {
        if self.accounts.len() > 0 {
            Some(self.accounts[0].clone())
        } else {
            None
        }
    }

    /// The index of the installation row with this identifier.
    fn find_installation(&self, installation_id: &String) -> (r: Option<usize>)
        ensures
            match r {
                Some(i) => i < self.installations@.len() && self.installations@[i as int].installation_id@
                    == installation_id@,
                None => !self.has_installation(installation_id@),
            },
    {
        let mut i: usize = 0;
        while i < self.installations.len()
            invariant
                i <= self.installations@.len(),
                forall|j: int|
                    0 <= j < i ==> (#[trigger] self.installations@[j]).installation_id@
                        != installation_id@,
            decreases self.installations@.len() - i,
        {
            if self.installations[i].installation_id == *installation_id {
                return Some(i);
            }
            i = i + 1;
        }
        None
    }

    /// Record a newly observed installation. Re-observing a known
    /// installation is a no-op (the row is immutable after first sight), and
    /// an installation of an unknown user is an integrity failure that
    /// leaves the store unchanged.
    ///
    /// Returns whether a row was added.
    pub fn insert_installation(&mut self, installation: StoredInstallation) -> (r: Result<
        bool,
        StorageError,
    >)
        requires
            old(self).wf(),
        ensures
            final(self).wf(),
            !old(self).has_user(installation.user_address@) ==> (r matches Err(e) && (e
                matches StorageError::DieselResultError(_)) && *final(self) == *old(self)),
            old(self).has_user(installation.user_address@) && old(self).has_installation(
                installation.installation_id@,
            ) ==> (r matches Ok(fresh) && fresh == false && *final(self) == *old(self)),
            old(self).has_user(installation.user_address@) && !old(self).has_installation(
                installation.installation_id@,
            ) ==> (r matches Ok(fresh) && fresh == true && final(self).installations@ == old(self).installations@.push(installation) && Self::only_installations_changed(
                *old(self),
                *final(self),
            )),
    {
        if self.find_user(&installation.user_address).is_none() {
            return Err(
                StorageError::DieselResultError(
                    String::from_str("installations: user_address references no user"),
                ),
            );
        }
        if self.find_installation(&installation.installation_id).is_some() {
            return Ok(false);
        }
        self.installations.push(installation);
        proof {
            crate::store::lemma_user_lookup_preserved(*old(self), *self);
            crate::store::lemma_conversation_lookup_preserved(*old(self), *self);
        }
        Ok(true)
    }

    /// The installations of one user, in insertion order.
    pub open spec fn installations_for(s: Seq<StoredInstallation>, addr: Seq<char>) -> Seq<
        StoredInstallation,
    >
        decreases s.len(),
    {
        if s.len() == 0 {
            Seq::<StoredInstallation>::empty()
        } else {
            let rest = Self::installations_for(s.drop_last(), addr);
            if s.last().user_address@ == addr {
                rest.push(s.last())
            } else {
                rest
            }
        }
    }

    /// Read back the installations recorded for one user, in insertion
    /// order.
    pub fn get_installations(&self, user_address: &str) -> (r: Vec<StoredInstallation>)
        ensures
            r@.len() == Self::installations_for(self.installations@, user_address@).len(),
            forall|j: int|
                0 <= j < r@.len() ==> (#[trigger] r@[j])@ == Self::installations_for(
                    self.installations@,
                    user_address@,
                )[j]@,
    {
        let key = user_address.to_owned();
        let mut r: Vec<StoredInstallation> = Vec::new();
        let mut i: usize = 0;
        while i < self.installations.len()
            invariant
                i <= self.installations@.len(),
                key@ == user_address@,
                r@.len() == Self::installations_for(
                    self.installations@.take(i as int),
                    user_address@,
                ).len(),
                forall|j: int|
                    0 <= j < r@.len() ==> (#[trigger] r@[j])@ == Self::installations_for(
                        self.installations@.take(i as int),
                        user_address@,
                    )[j]@,
            decreases self.installations@.len() - i,
        {
            proof {
                assert(self.installations@.take(i + 1).drop_last() =~= self.installations@.take(
                    i as int,
                ));
                assert(self.installations@.take(i + 1).last() == self.installations@[i as int]);
            }
            if self.installations[i].user_address == key {
                r.push(self.installations[i].clone());
            }
            i = i + 1;
        }
        proof {
            assert(self.installations@.take(self.installations@.len() as int)
                =~= self.installations@);
        }
        r
    }

    /// The index of the session row with this identifier.
    fn find_session(&self, session_id: &String) -> (r: Option<usize>)
        ensures
            match r {
                Some(i) => i < self.sessions@.len() && self.sessions@[i as int].session_id@
                    == session_id@,
                None => !self.has_session(session_id@),
            },
    {
        let mut i: usize = 0;
        while i < self.sessions.len()
            invariant
                i <= self.sessions@.len(),
                forall|j: int|
                    0 <= j < i ==> (#[trigger] self.sessions@[j]).session_id@ != session_id@,
            decreases self.sessions@.len() - i,
        {
            if self.sessions[i].session_id == *session_id {
                return Some(i);
            }
            i = i + 1;
        }
        None
    }

    /// Read back the session row with this identifier; `None` exactly when
    /// no such row exists.
    pub fn get_session(&self, session_id: &str) -> (r: Option<StoredSession>)
        ensures
            match r {
                Some(s) => exists|i: int|
                    0 <= i < self.sessions@.len() && (#[trigger] self.sessions@[i]).session_id@
                        == session_id@ && s@ == self.sessions@[i]@,
                None => !self.has_session(session_id@),
            },
    {
        let key = session_id.to_owned();
        match self.find_session(&key) {
            Some(i) => Some(self.sessions[i].clone()),
            None => None,
        }
    }

    /// Upsert a session. An existing row with the same `session_id` is
    /// mutated in place — the ratchet state and peer installation are
    /// replaced and `updated_at` is set to the save time, while `created_at`,
    /// `session_id` and `user_address` are preserved and no second row ever
    /// appears. A session for an unknown user is an integrity failure that
    /// leaves the store unchanged; otherwise a fresh row is inserted exactly
    /// as given.
    pub fn save_session(&mut self, session: &StoredSession, now_ns: i64) -> (r: Result<
        (),
        StorageError,
    >)
        requires
            old(self).wf(),
        ensures
            final(self).wf(),
            old(self).has_session(session.session_id@) ==> (r is Ok && final(self).sessions@.len()
                == old(self).sessions@.len() && Self::only_sessions_changed(
                *old(self),
                *final(self),
            ) && exists|i: int|
                0 <= i < old(self).sessions@.len() && (
                #[trigger] old(self).sessions@[i]).session_id@ == session.session_id@ && final(self).sessions@[i]@ == (StoredSessionV {
                    vmac_session_data: session.vmac_session_data@,
                    peer_installation_id: session.peer_installation_id@,
                    updated_at: now_ns,
                    ..old(self).sessions@[i]@
                }) && forall|j: int|
                    0 <= j < old(self).sessions@.len() && j != i ==> final(self).sessions@[j]
                        == old(self).sessions@[j]),
            !old(self).has_session(session.session_id@) && !old(self).has_user(
                session.user_address@,
            ) ==> (r matches Err(e) && (e matches StorageError::DieselResultError(_)) && *final(self) == *old(self)),
            !old(self).has_session(session.session_id@) && old(self).has_user(
                session.user_address@,
            ) ==> (r is Ok && final(self).sessions@.len() == old(self).sessions@.len() + 1
                && final(self).sessions@.last()@ == session@ && forall|j: int|
                0 <= j < old(self).sessions@.len() ==> final(self).sessions@[j] == old(self).sessions@[j]) && Self::only_sessions_changed(*old(self), *final(self)),
    {
        match self.find_session(&session.session_id) {
            Some(i) => {
                self.sessions[i].vmac_session_data = clone_bytes(&session.vmac_session_data);
                self.sessions[i].peer_installation_id = session.peer_installation_id.clone();
                self.sessions[i].updated_at = now_ns;
                proof {
                    crate::store::lemma_user_lookup_preserved(*old(self), *self);
                    crate::store::lemma_conversation_lookup_preserved(*old(self), *self);
                }
                Ok(())
            },
            None => {
                if self.find_user(&session.user_address).is_none() {
                    return Err(
                        StorageError::DieselResultError(
                            String::from_str("sessions: user_address references no user"),
                        ),
                    );
                }
                self.sessions.push(session.clone());
                proof {
                    crate::store::lemma_user_lookup_preserved(*old(self), *self);
                    crate::store::lemma_conversation_lookup_preserved(*old(self), *self);
                }
                Ok(())
            },
        }
    }
}

/// In a well-formed store there is never a second row for a session
/// identifier: any two distinct session rows carry distinct identifiers.
pub proof fn lemma_session_rows_unique(store: MessageStore, i: int, j: int)
    requires
        store.wf(),
        0 <= i < store.sessions@.len(),
        0 <= j < store.sessions@.len(),
        i != j,
    ensures
        store.sessions@[i].session_id@ != store.sessions@[j].session_id@,
{
}

} // verus!
