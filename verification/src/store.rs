//! The relational model at the heart of the encrypted store: one table per
//! entity, a well-formedness invariant (unique primary keys, no orphaned
//! rows), and the mutating operations with their transition rules.
//!
//! Every operation preserves well-formedness, and its contract says exactly
//! which rows change and how. Clock readings are always taken as explicit
//! `now_ns` arguments so that every statement about time is a statement
//! about a value the caller chose.

use vstd::prelude::*;
use crate::errors::StorageError;
use crate::models::{
    StoredUser, StoredConversation, StoredMessage, NewStoredMessage, StoredAccount,
    NewStoredAccount, StoredInstallation, StoredSession, StoredOutboundPayload, InboundInvite,
    InboundMessage, RefreshJob, ConversationState, MessageState,
};
use vstd::string::StringExecFns;

verus! {

/// No two user rows share an address.
pub open spec fn users_unique(s: Seq<StoredUser>) -> bool {
    forall|i: int, j: int| #![trigger s[i], s[j]]
        0 <= i < j < s.len() ==> s[i].user_address@ != s[j].user_address@
}

/// No two conversation rows share an identifier.
pub open spec fn conversations_unique(s: Seq<StoredConversation>) -> bool {
    forall|i: int, j: int| #![trigger s[i], s[j]]
        0 <= i < j < s.len() ==> s[i].convo_id@ != s[j].convo_id@
}

/// No two message rows share a store-assigned identifier.
pub open spec fn messages_unique(s: Seq<StoredMessage>) -> bool {
    forall|i: int, j: int| #![trigger s[i], s[j]] 0 <= i < j < s.len() ==> s[i].id != s[j].id
}

/// No two account rows share a store-assigned identifier.
pub open spec fn accounts_unique(s: Seq<StoredAccount>) -> bool {
    forall|i: int, j: int| #![trigger s[i], s[j]] 0 <= i < j < s.len() ==> s[i].id != s[j].id
}

/// No two installation rows share an installation identifier.
pub open spec fn installations_unique(s: Seq<StoredInstallation>) -> bool {
    forall|i: int, j: int| #![trigger s[i], s[j]]
        0 <= i < j < s.len() ==> s[i].installation_id@ != s[j].installation_id@
}

/// No two session rows share a session identifier.
pub open spec fn sessions_unique(s: Seq<StoredSession>) -> bool {
    forall|i: int, j: int| #![trigger s[i], s[j]]
        0 <= i < j < s.len() ==> s[i].session_id@ != s[j].session_id@
}

/// No two outbound payload rows share a derived payload identifier.
pub open spec fn outbound_unique(s: Seq<StoredOutboundPayload>) -> bool {
    forall|i: int, j: int| #![trigger s[i], s[j]]
        0 <= i < j < s.len() ==> s[i].payload_id@ != s[j].payload_id@
}

/// No two inbound invite rows share a content-derived identifier.
pub open spec fn invites_unique(s: Seq<InboundInvite>) -> bool {
    forall|i: int, j: int| #![trigger s[i], s[j]]
        0 <= i < j < s.len() ==> s[i].id@ != s[j].id@
}

/// No two inbound message rows share a content-derived identifier.
pub open spec fn inbound_messages_unique(s: Seq<InboundMessage>) -> bool {
    forall|i: int, j: int| #![trigger s[i], s[j]]
        0 <= i < j < s.len() ==> s[i].id@ != s[j].id@
}

/// No two refresh job rows share a job kind key.
pub open spec fn refresh_jobs_unique(s: Seq<RefreshJob>) -> bool {
    forall|i: int, j: int| #![trigger s[i], s[j]] 0 <= i < j < s.len() ==> s[i].id@ != s[j].id@
}

/// The conversation row with a changed lifecycle state code.
pub open spec fn convo_with_state(c: StoredConversation, state: i32) -> StoredConversation {
    StoredConversation { convo_state: state, ..c }
}

/// The message row with a changed lifecycle state code.
pub open spec fn msg_with_state(m: StoredMessage, state: i32) -> StoredMessage {
    StoredMessage { state, ..m }
}

/// The stored form of a new message row once the store has assigned it an
/// identifier.
pub open spec fn stored_from_new(m: NewStoredMessage, id: i32) -> StoredMessage {
    StoredMessage {
        id,
        created_at: m.created_at,
        sent_at_ns: m.sent_at_ns,
        convo_id: m.convo_id,
        addr_from: m.addr_from,
        content: m.content,
        state: m.state,
    }
}

/// The only conversation transitions the store applies: out of
/// `Uninitialized`, into one of the two stable invited states.
pub open spec fn convo_transition_allowed(from: ConversationState, to: ConversationState) -> bool {
    from == ConversationState::Uninitialized && (to == ConversationState::Invited || to
        == ConversationState::InviteReceived)
}

/// User lookup survives any change that keeps the existing rows' addresses
/// in place (appending rows, or updating a row without changing its key).
pub(crate) proof fn lemma_user_lookup_preserved(pre: MessageStore, post: MessageStore)
    requires
        pre.users@.len() <= post.users@.len(),
        forall|i: int|
            0 <= i < pre.users@.len() ==> (#[trigger] post.users@[i]).user_address@
                == pre.users@[i].user_address@,
    ensures
        forall|k: Seq<char>| pre.has_user(k) ==> post.has_user(k),
{
    assert forall|k: Seq<char>| pre.has_user(k) implies post.has_user(k) by {
        let w = choose|w: int|
            0 <= w < pre.users@.len() && (#[trigger] pre.users@[w]).user_address@ == k;
        assert(post.users@[w].user_address@ == k);
    }
}

/// Conversation lookup survives any change that keeps the existing rows'
/// identifiers in place.
pub(crate) proof fn lemma_conversation_lookup_preserved(pre: MessageStore, post: MessageStore)
    requires
        pre.conversations@.len() <= post.conversations@.len(),
        forall|i: int|
            0 <= i < pre.conversations@.len() ==> (#[trigger] post.conversations@[i]).convo_id@
                == pre.conversations@[i].convo_id@,
    ensures
        forall|k: Seq<char>| pre.has_conversation(k) ==> post.has_conversation(k),
{
    assert forall|k: Seq<char>| pre.has_conversation(k) implies post.has_conversation(k) by {
        let w = choose|w: int|
            0 <= w < pre.conversations@.len() && (#[trigger] pre.conversations@[w]).convo_id@
                == k;
        assert(post.conversations@[w].convo_id@ == k);
    }
}

/// The in-memory relational model of the encrypted store: one vector per
/// table, plus the counters for store-assigned row identifiers.
///
/// The fields are exposed for specification purposes; mutation goes through
/// the operations below, which require and preserve [`MessageStore::wf`].
pub struct MessageStore {
    pub users: Vec<StoredUser>,
    pub conversations: Vec<StoredConversation>,
    pub messages: Vec<StoredMessage>,
    pub accounts: Vec<StoredAccount>,
    pub installations: Vec<StoredInstallation>,
    pub sessions: Vec<StoredSession>,
    pub outbound_payloads: Vec<StoredOutboundPayload>,
    pub inbound_invites: Vec<InboundInvite>,
    pub inbound_messages: Vec<InboundMessage>,
    pub refresh_jobs: Vec<RefreshJob>,
    pub next_message_id: i32,
    pub next_account_id: i32,
}

impl MessageStore {
    /// A user row with this address exists.
    pub open spec fn has_user(self, addr: Seq<char>) -> bool {
        exists|i: int|
            0 <= i < self.users@.len() && (#[trigger] self.users@[i]).user_address@ == addr
    }

    /// A conversation row with this identifier exists.
    pub open spec fn has_conversation(self, convo_id: Seq<char>) -> bool {
        exists|i: int|
            0 <= i < self.conversations@.len() && (#[trigger] self.conversations@[i]).convo_id@
                == convo_id
    }

    /// A message row with this store-assigned identifier exists.
    pub open spec fn has_message(self, id: i32) -> bool {
        exists|i: int| 0 <= i < self.messages@.len() && (#[trigger] self.messages@[i]).id == id
    }

    /// An installation row with this identifier exists.
    pub open spec fn has_installation(self, installation_id: Seq<char>) -> bool {
        exists|i: int|
            0 <= i < self.installations@.len() && (
            #[trigger] self.installations@[i]).installation_id@ == installation_id
    }

    /// A session row with this identifier exists.
    pub open spec fn has_session(self, session_id: Seq<char>) -> bool {
        exists|i: int|
            0 <= i < self.sessions@.len() && (#[trigger] self.sessions@[i]).session_id@
                == session_id
    }

    /// An outbound payload row with this derived identifier exists.
    pub open spec fn has_outbound(self, payload_id: Seq<char>) -> bool {
        exists|i: int|
            0 <= i < self.outbound_payloads@.len() && (
            #[trigger] self.outbound_payloads@[i]).payload_id@ == payload_id
    }

    /// An inbound invite row with this content-derived identifier exists.
    pub open spec fn has_invite(self, id: Seq<char>) -> bool {
        exists|i: int|
            0 <= i < self.inbound_invites@.len() && (#[trigger] self.inbound_invites@[i]).id@ == id
    }

    /// An inbound message row with this content-derived identifier exists.
    pub open spec fn has_inbound_message(self, id: Seq<char>) -> bool {
        exists|i: int|
            0 <= i < self.inbound_messages@.len() && (#[trigger] self.inbound_messages@[i]).id@
                == id
    }

    /// A refresh job row with this kind key exists.
    pub open spec fn has_refresh_job(self, id: Seq<char>) -> bool {
        exists|i: int|
            0 <= i < self.refresh_jobs@.len() && (#[trigger] self.refresh_jobs@[i]).id@ == id
    }

    /// Store integrity: every table keyed by a primary key holds it uniquely,
    /// store-assigned identifiers stay below their counters, and every row
    /// that references another table finds its referent — orphaned rows are
    /// an integrity bug, not a recoverable state.
    pub open spec fn wf(self) -> bool {
        &&& users_unique(self.users@)
        &&& conversations_unique(self.conversations@)
        &&& messages_unique(self.messages@)
        &&& accounts_unique(self.accounts@)
        &&& installations_unique(self.installations@)
        &&& sessions_unique(self.sessions@)
        &&& outbound_unique(self.outbound_payloads@)
        &&& invites_unique(self.inbound_invites@)
        &&& inbound_messages_unique(self.inbound_messages@)
        &&& refresh_jobs_unique(self.refresh_jobs@)
        &&& forall|i: int|
            0 <= i < self.messages@.len() ==> (#[trigger] self.messages@[i]).id
                < self.next_message_id
        &&& forall|i: int|
            0 <= i < self.accounts@.len() ==> (#[trigger] self.accounts@[i]).id
                < self.next_account_id
        &&& forall|i: int|
            0 <= i < self.conversations@.len() ==> self.has_user(
                (#[trigger] self.conversations@[i]).peer_address@,
            )
        &&& forall|i: int|
            0 <= i < self.messages@.len() ==> self.has_conversation(
                (#[trigger] self.messages@[i]).convo_id@,
            )
        &&& forall|i: int|
            0 <= i < self.sessions@.len() ==> self.has_user(
                (#[trigger] self.sessions@[i]).user_address@,
            )
        &&& forall|i: int|
            0 <= i < self.installations@.len() ==> self.has_user(
                (#[trigger] self.installations@[i]).user_address@,
            )
    }

    /// Everything but the user table is unchanged.
    pub open spec fn only_users_changed(pre: MessageStore, post: MessageStore) -> bool {
        &&& post.conversations@ == pre.conversations@
        &&& post.messages@ == pre.messages@
        &&& post.accounts@ == pre.accounts@
        &&& post.installations@ == pre.installations@
        &&& post.sessions@ == pre.sessions@
        &&& post.outbound_payloads@ == pre.outbound_payloads@
        &&& post.inbound_invites@ == pre.inbound_invites@
        &&& post.inbound_messages@ == pre.inbound_messages@
        &&& post.refresh_jobs@ == pre.refresh_jobs@
        &&& post.next_message_id == pre.next_message_id
        &&& post.next_account_id == pre.next_account_id
    }

    /// Everything but the conversation table is unchanged.
    pub open spec fn only_conversations_changed(pre: MessageStore, post: MessageStore) -> bool {
        &&& post.users@ == pre.users@
        &&& post.messages@ == pre.messages@
        &&& post.accounts@ == pre.accounts@
        &&& post.installations@ == pre.installations@
        &&& post.sessions@ == pre.sessions@
        &&& post.outbound_payloads@ == pre.outbound_payloads@
        &&& post.inbound_invites@ == pre.inbound_invites@
        &&& post.inbound_messages@ == pre.inbound_messages@
        &&& post.refresh_jobs@ == pre.refresh_jobs@
        &&& post.next_message_id == pre.next_message_id
        &&& post.next_account_id == pre.next_account_id
    }

    /// Everything but the message table and its identifier counter is
    /// unchanged.
    pub open spec fn only_messages_changed(pre: MessageStore, post: MessageStore) -> bool {
        &&& post.users@ == pre.users@
        &&& post.conversations@ == pre.conversations@
        &&& post.accounts@ == pre.accounts@
        &&& post.installations@ == pre.installations@
        &&& post.sessions@ == pre.sessions@
        &&& post.outbound_payloads@ == pre.outbound_payloads@
        &&& post.inbound_invites@ == pre.inbound_invites@
        &&& post.inbound_messages@ == pre.inbound_messages@
        &&& post.refresh_jobs@ == pre.refresh_jobs@
        &&& post.next_account_id == pre.next_account_id
    }

    /// An empty store: no rows in any table.
    pub fn new() -> (r: MessageStore)
        ensures
            r.wf(),
            r.users@.len() == 0,
            r.conversations@.len() == 0,
            r.messages@.len() == 0,
            r.accounts@.len() == 0,
            r.installations@.len() == 0,
            r.sessions@.len() == 0,
            r.outbound_payloads@.len() == 0,
            r.inbound_invites@.len() == 0,
            r.inbound_messages@.len() == 0,
            r.refresh_jobs@.len() == 0,
            r.next_message_id == 1,
            r.next_account_id == 1,
    {
        MessageStore {
            users: Vec::new(),
            conversations: Vec::new(),
            messages: Vec::new(),
            accounts: Vec::new(),
            installations: Vec::new(),
            sessions: Vec::new(),
            outbound_payloads: Vec::new(),
            inbound_messages: Vec::new(),
            inbound_invites: Vec::new(),
            refresh_jobs: Vec::new(),
            next_message_id: 1,
            next_account_id: 1,
        }
    }

    /// The index of the user row with this address.
    pub(crate) fn find_user(&self, addr: &String) -> (r: Option<usize>)
        ensures
            match r {
                Some(i) => i < self.users@.len() && self.users@[i as int].user_address@ == addr@,
                None => !self.has_user(addr@),
            },
    {
        let mut i: usize = 0;
        while i < self.users.len()
            invariant
                i <= self.users@.len(),
                forall|j: int| 0 <= j < i ==> (#[trigger] self.users@[j]).user_address@ != addr@,
            decreases self.users@.len() - i,
        {
            if self.users[i].user_address == *addr {
                return Some(i);
            }
            i = i + 1;
        }
        None
    }

    /// The index of the conversation row with this identifier.
    pub(crate) fn find_conversation(&self, convo_id: &String) -> (r: Option<usize>)
        ensures
            match r {
                Some(i) => i < self.conversations@.len() && self.conversations@[i as int].convo_id@
                    == convo_id@,
                None => !self.has_conversation(convo_id@),
            },
    {
        let mut i: usize = 0;
        while i < self.conversations.len()
            invariant
                i <= self.conversations@.len(),
                forall|j: int|
                    0 <= j < i ==> (#[trigger] self.conversations@[j]).convo_id@ != convo_id@,
            decreases self.conversations@.len() - i,
        {
            if self.conversations[i].convo_id == *convo_id {
                return Some(i);
            }
            i = i + 1;
        }
        None
    }

    /// The index of the message row with this store-assigned identifier.
    pub(crate) fn find_message(&self, id: i32) -> (r: Option<usize>)
        ensures
            match r {
                Some(i) => i < self.messages@.len() && self.messages@[i as int].id == id,
                None => !self.has_message(id),
            },
    {
        let mut i: usize = 0;
        while i < self.messages.len()
            invariant
                i <= self.messages@.len(),
                forall|j: int| 0 <= j < i ==> (#[trigger] self.messages@[j]).id != id,
            decreases self.messages@.len() - i,
        {
            if self.messages[i].id == id {
                return Some(i);
            }
            i = i + 1;
        }
        None
    }

    /// Insert a user row. Fails on a duplicate address, leaving the store
    /// unchanged; the address is the table's primary key.
    pub fn insert_user(&mut self, user: StoredUser) -> (r: Result<(), StorageError>)
        requires
            old(self).wf(),
        ensures
            final(self).wf(),
            old(self).has_user(user.user_address@) ==> (r matches Err(e) && (e
                matches StorageError::DieselResultError(_)) && *final(self) == *old(self)),
            !old(self).has_user(user.user_address@) ==> (r is Ok && final(self).users@ == old(self).users@.push(user) && Self::only_users_changed(*old(self), *final(self))),
    {
        if self.find_user(&user.user_address).is_some() {
            return Err(
                StorageError::DieselResultError(
                    String::from_str("users: duplicate primary key user_address"),
                ),
            );
        }
        self.users.push(user);
        proof {
            lemma_user_lookup_preserved(*old(self), *self);
            lemma_conversation_lookup_preserved(*old(self), *self);
        }
        Ok(())
    }

    /// Read back the user row with this address; `None` exactly when no such
    /// row exists.
    pub fn get_user(&self, address: &str) -> (r: Option<StoredUser>)
        ensures
            match r {
                Some(u) => exists|i: int|
                    0 <= i < self.users@.len() && (#[trigger] self.users@[i]).user_address@
                        == address@ && u@ == self.users@[i]@,
                None => !self.has_user(address@),
            },
    {
        let addr = address.to_owned();
        match self.find_user(&addr) {
            Some(i) => Some(self.users[i].clone()),
            None => None,
        }
    }

    /// Insert a conversation row. Fails on a duplicate identifier or when
    /// the peer address references no user row, leaving the store unchanged.
    pub fn insert_conversation(&mut self, convo: StoredConversation) -> (r: Result<
        (),
        StorageError,
    >)
        requires
            old(self).wf(),
        ensures
            final(self).wf(),
            old(self).has_conversation(convo.convo_id@) ==> (r matches Err(e) && (e
                matches StorageError::DieselResultError(_)) && *final(self) == *old(self)),
            !old(self).has_conversation(convo.convo_id@) && !old(self).has_user(
                convo.peer_address@,
            ) ==> (r matches Err(e) && (e matches StorageError::DieselResultError(_))
                && *final(self) == *old(self)),
            !old(self).has_conversation(convo.convo_id@) && old(self).has_user(convo.peer_address@)
                ==> (r is Ok && final(self).conversations@ == old(self).conversations@.push(convo)
                && Self::only_conversations_changed(*old(self), *final(self))),
    {
        if self.find_conversation(&convo.convo_id).is_some() {
            return Err(
                StorageError::DieselResultError(
                    String::from_str("conversations: duplicate primary key convo_id"),
                ),
            );
        }
        if self.find_user(&convo.peer_address).is_none() {
            return Err(
                StorageError::DieselResultError(
                    String::from_str("conversations: peer_address references no user"),
                ),
            );
        }
        self.conversations.push(convo);
        proof {
            lemma_user_lookup_preserved(*old(self), *self);
            lemma_conversation_lookup_preserved(*old(self), *self);
        }
        Ok(())
    }

    /// Read back the conversation row with this identifier; `None` exactly
    /// when no such row exists.
    pub fn get_conversation(&self, convo_id: &str) -> (r: Option<StoredConversation>)
        ensures
            match r {
                Some(c) => exists|i: int|
                    0 <= i < self.conversations@.len() && (
                    #[trigger] self.conversations@[i]).convo_id@ == convo_id@ && c@
                        == self.conversations@[i]@,
                None => !self.has_conversation(convo_id@),
            },
    {
        let key = convo_id.to_owned();
        match self.find_conversation(&key) {
            Some(i) => Some(self.conversations[i].clone()),
            None => None,
        }
    }

    /// Apply a conversation lifecycle transition as a conditional update:
    /// the row changes only if it currently holds the expected prior state,
    /// so a racing worker's late update is a no-op, and only the transitions
    /// out of `Uninitialized` are ever applied.
    ///
    /// Returns whether a row changed.
    pub fn set_conversation_state(
        &mut self,
        convo_id: &str,
        from: ConversationState,
        to: ConversationState,
    ) -> (r: bool)
        requires
            old(self).wf(),
        ensures
            final(self).wf(),
            r == (convo_transition_allowed(from, to) && exists|i: int|
                0 <= i < old(self).conversations@.len() && (
                #[trigger] old(self).conversations@[i]).convo_id@ == convo_id@ && old(self).conversations@[i].convo_state == from.code_spec()),
            r ==> exists|i: int|
                0 <= i < old(self).conversations@.len() && (
                #[trigger] old(self).conversations@[i]).convo_id@ == convo_id@ && final(self).conversations@ == old(self).conversations@.update(
                    i,
                    convo_with_state(old(self).conversations@[i], to.code_spec()),
                ),
            r ==> Self::only_conversations_changed(*old(self), *final(self)),
            !r ==> *final(self) == *old(self),
    {
        if !(matches!(from, ConversationState::Uninitialized) && (matches!(
            to,
            ConversationState::Invited,
        ) || matches!(to, ConversationState::InviteReceived))) {
            return false;
        }
        let key = convo_id.to_owned();
        match self.find_conversation(&key) {
            Some(i) => {
                if self.conversations[i].convo_state == from.to_code() {
                    let new_code = to.to_code();
                    self.conversations[i].convo_state = new_code;
                    proof {
                        lemma_user_lookup_preserved(*old(self), *self);
                        lemma_conversation_lookup_preserved(*old(self), *self);
                    }
                    true
                } else {
                    false
                }
            },
            None => false,
        }
    }

    /// Insert a message row, assigning the next store identifier. Fails when
    /// the conversation does not exist, or when the identifier space is
    /// exhausted; either failure leaves the store unchanged.
    pub fn insert_message(&mut self, message: NewStoredMessage) -> (r: Result<i32, StorageError>)
        requires
            old(self).wf(),
        ensures
            final(self).wf(),
            !old(self).has_conversation(message.convo_id@) ==> (r matches Err(e) && (e
                matches StorageError::DieselResultError(_)) && *final(self) == *old(self)),
            old(self).has_conversation(message.convo_id@) && old(self).next_message_id == i32::MAX
                ==> (r matches Err(e) && (e matches StorageError::Store(_)) && *final(self) == *old(self)),
            old(self).has_conversation(message.convo_id@) && old(self).next_message_id < i32::MAX
                ==> (r matches Ok(id) && id == old(self).next_message_id && final(self).messages@
                == old(self).messages@.push(stored_from_new(message, old(self).next_message_id))
                && final(self).next_message_id == old(self).next_message_id + 1
                && Self::only_messages_changed(*old(self), *final(self))),
    {
        if self.find_conversation(&message.convo_id).is_none() {
            return Err(
                StorageError::DieselResultError(
                    String::from_str("messages: convo_id references no conversation"),
                ),
            );
        }
        if self.next_message_id == i32::MAX {
            return Err(StorageError::Store(String::from_str("messages: id space exhausted")));
        }
        let id = self.next_message_id;
        let row = StoredMessage {
            id,
            created_at: message.created_at,
            sent_at_ns: message.sent_at_ns,
            convo_id: message.convo_id,
            addr_from: message.addr_from,
            content: message.content,
            state: message.state,
        };
        self.messages.push(row);
        self.next_message_id = id + 1;
        proof {
            lemma_user_lookup_preserved(*old(self), *self);
            lemma_conversation_lookup_preserved(*old(self), *self);
        }
        Ok(id)
    }

    /// The messages of one conversation, in insertion order.
    pub open spec fn messages_for(msgs: Seq<StoredMessage>, convo_id: Seq<char>) -> Seq<
        StoredMessage,
    >
        decreases msgs.len(),
    {
        if msgs.len() == 0 {
            Seq::<StoredMessage>::empty()
        } else {
            let rest = Self::messages_for(msgs.drop_last(), convo_id);
            if msgs.last().convo_id@ == convo_id {
                rest.push(msgs.last())
            } else {
                rest
            }
        }
    }

    /// Read back the messages of one conversation, in insertion order (the
    /// order of their store-assigned identifiers).
    pub fn get_messages(&self, convo_id: &str) -> (r: Vec<StoredMessage>)
        ensures
            r@.len() == Self::messages_for(self.messages@, convo_id@).len(),
            forall|j: int|
                0 <= j < r@.len() ==> (#[trigger] r@[j])@ == Self::messages_for(
                    self.messages@,
                    convo_id@,
                )[j]@,
    {
        let key = convo_id.to_owned();
        let mut r: Vec<StoredMessage> = Vec::new();
        let mut i: usize = 0;
        while i < self.messages.len()
            invariant
                i <= self.messages@.len(),
                key@ == convo_id@,
                r@.len() == Self::messages_for(self.messages@.take(i as int), convo_id@).len(),
                forall|j: int|
                    0 <= j < r@.len() ==> (#[trigger] r@[j])@ == Self::messages_for(
                        self.messages@.take(i as int),
                        convo_id@,
                    )[j]@,
            decreases self.messages@.len() - i,
        {
            proof {
                assert(self.messages@.take(i + 1).drop_last() =~= self.messages@.take(i as int));
                assert(self.messages@.take(i + 1).last() == self.messages@[i as int]);
            }
            if self.messages[i].convo_id == key {
                r.push(self.messages[i].clone());
            }
            i = i + 1;
        }
        proof {
            assert(self.messages@.take(self.messages@.len() as int) =~= self.messages@);
        }
        r
    }

    /// Advance a message's lifecycle state as a conditional update: the row
    /// changes only if it currently holds the expected prior state and the
    /// new state lies strictly later in the lifecycle. A message that has
    /// reached `Received` is never moved back; a racing worker's late update
    /// is a no-op.
    ///
    /// Returns whether a row changed.
    pub fn update_message_state(&mut self, id: i32, from: MessageState, to: MessageState) -> (r:
        bool)
        requires
            old(self).wf(),
        ensures
            final(self).wf(),
            r == (from.code_spec() < to.code_spec() && exists|i: int|
                0 <= i < old(self).messages@.len() && (#[trigger] old(self).messages@[i]).id == id
                    && old(self).messages@[i].state == from.code_spec()),
            r ==> exists|i: int|
                0 <= i < old(self).messages@.len() && (#[trigger] old(self).messages@[i]).id == id
                    && final(self).messages@ == old(self).messages@.update(
                    i,
                    msg_with_state(old(self).messages@[i], to.code_spec()),
                ),
            r ==> Self::only_messages_changed(*old(self), *final(self)) && final(self).next_message_id == old(self).next_message_id,
            !r ==> *final(self) == *old(self),
            final(self).messages@.len() == old(self).messages@.len(),
            forall|i: int|
                0 <= i < old(self).messages@.len() ==> (#[trigger] final(self).messages@[i]).state
                    >= old(self).messages@[i].state,
            forall|i: int|
                0 <= i < old(self).messages@.len() && (#[trigger] old(self).messages@[i]).state
                    == MessageState::Received.code_spec() ==> final(self).messages@[i] == old(self).messages@[i],
    {
        if !(from.to_code() < to.to_code()) {
            return false;
        }
        match self.find_message(id) {
            Some(i) => {
                if self.messages[i].state == from.to_code() {
                    let new_code = to.to_code();
                    self.messages[i].state = new_code;
                    proof {
                        lemma_user_lookup_preserved(*old(self), *self);
                        lemma_conversation_lookup_preserved(*old(self), *self);
                    }
                    true
                } else {
                    false
                }
            },
            None => false,
        }
    }
}

} // verus!
