//! The inbound intake pipeline: raw envelopes are staged ahead of
//! decryption, keyed by a content digest, so that network redelivery is a
//! no-op rather than a duplicate row.
//!
//! Rows start `Pending`. The decrypting collaborator reports back
//! `Processed`, `DecryptionFailure` (transient, may be retried) or `Invalid`
//! (permanent); the store records the report and never resurrects a
//! terminal status.

use vstd::prelude::*;
use crate::models::{InboundInvite, InboundMessage, InboundInviteStatus, InboundMessageStatus};
use crate::store::MessageStore;
use vstd::string::StringExecFns;

verus! {

/// The invite row with a changed status code.
pub open spec fn invite_with_status(v: InboundInvite, status: i16) -> InboundInvite {
    InboundInvite { status, ..v }
}

/// The inbound message row with a changed status code.
pub open spec fn inbound_message_with_status(v: InboundMessage, status: i16) -> InboundMessage {
    InboundMessage { status, ..v }
}

/// A stored invite status code that a collaborator's report may still
/// replace: `Pending` or the transient `DecryptionFailure`.
pub open spec fn invite_status_updatable(code: i16) -> bool {
    code == InboundInviteStatus::Pending.code_spec() || code
        == InboundInviteStatus::DecryptionFailure.code_spec()
}

/// A stored message status code that a collaborator's report may still
/// replace: `Pending` or the transient `DecryptionFailure`.
pub open spec fn message_status_updatable(code: i16) -> bool {
    code == InboundMessageStatus::Pending.code_spec() || code
        == InboundMessageStatus::DecryptionFailure.code_spec()
}

/// Intake of an invite as a transition on the table: a row whose
/// content-derived identifier is already present is ignored, and a fresh
/// row is appended.
pub open spec fn spec_save_invite(s: Seq<InboundInvite>, v: InboundInvite) -> Seq<InboundInvite> {
    if exists|i: int| 0 <= i < s.len() && (#[trigger] s[i]).id@ == v.id@ {
        s
    } else {
        s.push(v)
    }
}

/// Intake of an inbound message as a transition on the table, with the same
/// dedup rule as invites.
pub open spec fn spec_save_inbound_message(s: Seq<InboundMessage>, v: InboundMessage) -> Seq<
    InboundMessage,
> {
    if exists|i: int| 0 <= i < s.len() && (#[trigger] s[i]).id@ == v.id@ {
        s
    } else {
        s.push(v)
    }
}

impl MessageStore {
    /// Everything but the inbound invite table is unchanged.
    pub open spec fn only_invites_changed(pre: MessageStore, post: MessageStore) -> bool {
        &&& post.users@ == pre.users@
        &&& post.conversations@ == pre.conversations@
        &&& post.messages@ == pre.messages@
        &&& post.accounts@ == pre.accounts@
        &&& post.installations@ == pre.installations@
        &&& post.sessions@ == pre.sessions@
        &&& post.outbound_payloads@ == pre.outbound_payloads@
        &&& post.inbound_messages@ == pre.inbound_messages@
        &&& post.refresh_jobs@ == pre.refresh_jobs@
        &&& post.next_message_id == pre.next_message_id
        &&& post.next_account_id == pre.next_account_id
    }

    /// Everything but the inbound message table is unchanged.
    pub open spec fn only_inbound_messages_changed(pre: MessageStore, post: MessageStore) -> bool {
        &&& post.users@ == pre.users@
        &&& post.conversations@ == pre.conversations@
        &&& post.messages@ == pre.messages@
        &&& post.accounts@ == pre.accounts@
        &&& post.installations@ == pre.installations@
        &&& post.sessions@ == pre.sessions@
        &&& post.outbound_payloads@ == pre.outbound_payloads@
        &&& post.inbound_invites@ == pre.inbound_invites@
        &&& post.refresh_jobs@ == pre.refresh_jobs@
        &&& post.next_message_id == pre.next_message_id
        &&& post.next_account_id == pre.next_account_id
    }

    /// The index of the inbound invite row with this identifier.
    fn find_invite(&self, id: &String) -> (r: Option<usize>)
        ensures
            match r {
                Some(i) => i < self.inbound_invites@.len() && self.inbound_invites@[i as int].id@
                    == id@,
                None => !self.has_invite(id@),
            },
    {
        let mut i: usize = 0;
        while i < self.inbound_invites.len()
            invariant
                i <= self.inbound_invites@.len(),
                forall|j: int| 0 <= j < i ==> (#[trigger] self.inbound_invites@[j]).id@ != id@,
            decreases self.inbound_invites@.len() - i,
        {
            if self.inbound_invites[i].id == *id {
                return Some(i);
            }
            i = i + 1;
        }
        None
    }

    /// The index of the inbound message row with this identifier.
    fn find_inbound_message(&self, id: &String) -> (r: Option<usize>)
        ensures
            match r {
                Some(i) => i < self.inbound_messages@.len() && self.inbound_messages@[i as int].id@
                    == id@,
                None => !self.has_inbound_message(id@),
            },
    {
        let mut i: usize = 0;
        while i < self.inbound_messages.len()
            invariant
                i <= self.inbound_messages@.len(),
                forall|j: int| 0 <= j < i ==> (#[trigger] self.inbound_messages@[j]).id@ != id@,
            decreases self.inbound_messages@.len() - i,
        {
            if self.inbound_messages[i].id == *id {
                return Some(i);
            }
            i = i + 1;
        }
        None
    }

    /// Stage an inbound invite. Redelivery of an envelope whose
    /// content-derived identifier is already present is a no-op, not an
    /// error and not a duplicate row.
    ///
    /// Returns whether a row was added.
    pub fn save_inbound_invite(&mut self, invite: InboundInvite) -> (fresh: bool)
        requires
            old(self).wf(),
        ensures
            final(self).wf(),
            fresh == !old(self).has_invite(invite.id@),
            final(self).inbound_invites@ == spec_save_invite(
                old(self).inbound_invites@,
                invite,
            ),
            Self::only_invites_changed(*old(self), *final(self)),
    {
        if self.find_invite(&invite.id).is_some() {
            return false;
        }
        self.inbound_invites.push(invite);
        proof {
            crate::store::lemma_user_lookup_preserved(*old(self), *self);
            crate::store::lemma_conversation_lookup_preserved(*old(self), *self);
        }
        true
    }

    /// Stage an inbound message, with the same dedup rule as invites.
    ///
    /// Returns whether a row was added.
    pub fn save_inbound_message(&mut self, message: InboundMessage) -> (fresh: bool)
        requires
            old(self).wf(),
        ensures
            final(self).wf(),
            fresh == !old(self).has_inbound_message(message.id@),
            final(self).inbound_messages@ == spec_save_inbound_message(
                old(self).inbound_messages@,
                message,
            ),
            Self::only_inbound_messages_changed(*old(self), *final(self)),
    {
        if self.find_inbound_message(&message.id).is_some() {
            return false;
        }
        self.inbound_messages.push(message);
        proof {
            crate::store::lemma_user_lookup_preserved(*old(self), *self);
            crate::store::lemma_conversation_lookup_preserved(*old(self), *self);
        }
        true
    }

    /// Record the collaborator's report on an invite as a conditional
    /// update: the row changes only if it exists, its current status is
    /// still replaceable (`Pending` or `DecryptionFailure`), and the report
    /// is an outcome rather than `Pending`. `Processed` and `Invalid` are
    /// never overwritten.
    ///
    /// Returns whether a row changed.
    pub fn set_inbound_invite_status(&mut self, id: &str, status: InboundInviteStatus) -> (r: bool)
        requires
            old(self).wf(),
        ensures
            final(self).wf(),
            r == (status != InboundInviteStatus::Pending && exists|i: int|
                0 <= i < old(self).inbound_invites@.len() && (
                #[trigger] old(self).inbound_invites@[i]).id@ == id@ && invite_status_updatable(
                    old(self).inbound_invites@[i].status,
                )),
            r ==> exists|i: int|
                0 <= i < old(self).inbound_invites@.len() && (
                #[trigger] old(self).inbound_invites@[i]).id@ == id@ && final(self).inbound_invites@ == old(self).inbound_invites@.update(
                    i,
                    invite_with_status(old(self).inbound_invites@[i], status.code_spec()),
                ),
            r ==> Self::only_invites_changed(*old(self), *final(self)),
            !r ==> *final(self) == *old(self),
            final(self).inbound_invites@.len() == old(self).inbound_invites@.len(),
            forall|i: int|
                0 <= i < old(self).inbound_invites@.len() && !invite_status_updatable(
                    (#[trigger] old(self).inbound_invites@[i]).status,
                ) ==> final(self).inbound_invites@[i] == old(self).inbound_invites@[i],
    {
        if matches!(status, InboundInviteStatus::Pending) {
            return false;
        }
        let key = id.to_owned();
        match self.find_invite(&key) {
            Some(i) => {
                let cur = self.inbound_invites[i].status;
                if cur == InboundInviteStatus::Pending.to_code() || cur
                    == InboundInviteStatus::DecryptionFailure.to_code() {
                    let new_code = status.to_code();
                    self.inbound_invites[i].status = new_code;
                    proof {
                        crate::store::lemma_user_lookup_preserved(*old(self), *self);
                        crate::store::lemma_conversation_lookup_preserved(*old(self), *self);
                    }
                    true
                } else {
                    false
                }
            },
            None => false,
        }
    }

    /// Record the collaborator's report on an inbound message, with the same
    /// discipline as invites: terminal statuses are never overwritten.
    ///
    /// Returns whether a row changed.
    pub fn set_inbound_message_status(&mut self, id: &str, status: InboundMessageStatus) -> (r:
        bool)
        requires
            old(self).wf(),
        ensures
            final(self).wf(),
            r == (status != InboundMessageStatus::Pending && exists|i: int|
                0 <= i < old(self).inbound_messages@.len() && (
                #[trigger] old(self).inbound_messages@[i]).id@ == id@ && message_status_updatable(
                    old(self).inbound_messages@[i].status,
                )),
            r ==> exists|i: int|
                0 <= i < old(self).inbound_messages@.len() && (
                #[trigger] old(self).inbound_messages@[i]).id@ == id@ && final(self).inbound_messages@ == old(self).inbound_messages@.update(
                    i,
                    inbound_message_with_status(
                        old(self).inbound_messages@[i],
                        status.code_spec(),
                    ),
                ),
            r ==> Self::only_inbound_messages_changed(*old(self), *final(self)),
            !r ==> *final(self) == *old(self),
            final(self).inbound_messages@.len() == old(self).inbound_messages@.len(),
            forall|i: int|
                0 <= i < old(self).inbound_messages@.len() && !message_status_updatable(
                    (#[trigger] old(self).inbound_messages@[i]).status,
                ) ==> final(self).inbound_messages@[i] == old(self).inbound_messages@[i],
    {
        if matches!(status, InboundMessageStatus::Pending) {
            return false;
        }
        let key = id.to_owned();
        match self.find_inbound_message(&key) {
            Some(i) => {
                let cur = self.inbound_messages[i].status;
                if cur == InboundMessageStatus::Pending.to_code() || cur
                    == InboundMessageStatus::DecryptionFailure.to_code() {
                    let new_code = status.to_code();
                    self.inbound_messages[i].status = new_code;
                    proof {
                        crate::store::lemma_user_lookup_preserved(*old(self), *self);
                        crate::store::lemma_conversation_lookup_preserved(*old(self), *self);
                    }
                    true
                } else {
                    false
                }
            },
            None => false,
        }
    }

    /// The inbound invites still awaiting the collaborator, in arrival
    /// order.
    pub open spec fn pending_invites_of(s: Seq<InboundInvite>) -> Seq<InboundInvite>
        decreases s.len(),
    {
        if s.len() == 0 {
            Seq::<InboundInvite>::empty()
        } else {
            let rest = Self::pending_invites_of(s.drop_last());
            if s.last().status == InboundInviteStatus::Pending.code_spec() {
                rest.push(s.last())
            } else {
                rest
            }
        }
    }

    /// Read back the invites still awaiting the collaborator, in arrival
    /// order.
    pub fn get_pending_invites(&self) -> (r: Vec<InboundInvite>)
        ensures
            r@.len() == Self::pending_invites_of(self.inbound_invites@).len(),
            forall|j: int|
                0 <= j < r@.len() ==> (#[trigger] r@[j])@ == Self::pending_invites_of(
                    self.inbound_invites@,
                )[j]@,
    {
        let mut r: Vec<InboundInvite> = Vec::new();
        let mut i: usize = 0;
        while i < self.inbound_invites.len()
            invariant
                i <= self.inbound_invites@.len(),
                r@.len() == Self::pending_invites_of(self.inbound_invites@.take(i as int)).len(),
                forall|j: int|
                    0 <= j < r@.len() ==> (#[trigger] r@[j])@ == Self::pending_invites_of(
                        self.inbound_invites@.take(i as int),
                    )[j]@,
            decreases self.inbound_invites@.len() - i,
        {
            proof {
                assert(self.inbound_invites@.take(i + 1).drop_last() =~= self.inbound_invites@.take(
                    i as int,
                ));
                assert(self.inbound_invites@.take(i + 1).last() == self.inbound_invites@[i as int]);
            }
            if self.inbound_invites[i].status == InboundInviteStatus::Pending.to_code() {
                r.push(self.inbound_invites[i].clone());
            }
            i = i + 1;
        }
        proof {
            assert(self.inbound_invites@.take(self.inbound_invites@.len() as int)
                =~= self.inbound_invites@);
        }
        r
    }

    /// The inbound messages still awaiting the collaborator, in arrival
    /// order.
    pub open spec fn pending_inbound_messages_of(s: Seq<InboundMessage>) -> Seq<InboundMessage>
        decreases s.len(),
    {
        if s.len() == 0 {
            Seq::<InboundMessage>::empty()
        } else {
            let rest = Self::pending_inbound_messages_of(s.drop_last());
            if s.last().status == InboundMessageStatus::Pending.code_spec() {
                rest.push(s.last())
            } else {
                rest
            }
        }
    }

    /// Read back the inbound messages still awaiting the collaborator, in
    /// arrival order.
    pub fn get_pending_inbound_messages(&self) -> (r: Vec<InboundMessage>)
        ensures
            r@.len() == Self::pending_inbound_messages_of(self.inbound_messages@).len(),
            forall|j: int|
                0 <= j < r@.len() ==> (#[trigger] r@[j])@ == Self::pending_inbound_messages_of(
                    self.inbound_messages@,
                )[j]@,
    {
        let mut r: Vec<InboundMessage> = Vec::new();
        let mut i: usize = 0;
        while i < self.inbound_messages.len()
            invariant
                i <= self.inbound_messages@.len(),
                r@.len() == Self::pending_inbound_messages_of(
                    self.inbound_messages@.take(i as int),
                ).len(),
                forall|j: int|
                    0 <= j < r@.len() ==> (#[trigger] r@[j])@ == Self::pending_inbound_messages_of(
                        self.inbound_messages@.take(i as int),
                    )[j]@,
            decreases self.inbound_messages@.len() - i,
        {
            proof {
                assert(self.inbound_messages@.take(i + 1).drop_last()
                    =~= self.inbound_messages@.take(i as int));
                assert(self.inbound_messages@.take(i + 1).last()
                    == self.inbound_messages@[i as int]);
            }
            if self.inbound_messages[i].status == InboundMessageStatus::Pending.to_code() {
                r.push(self.inbound_messages[i].clone());
            }
            i = i + 1;
        }
        proof {
            assert(self.inbound_messages@.take(self.inbound_messages@.len() as int)
                =~= self.inbound_messages@);
        }
        r
    }
}

/// In a well-formed store there is never a second row for a content-derived
/// intake identifier: any two distinct inbound invite rows carry distinct
/// identifiers.
pub proof fn lemma_invite_rows_unique(store: crate::store::MessageStore, i: int, j: int)
    requires
        store.wf(),
        0 <= i < store.inbound_invites@.len(),
        0 <= j < store.inbound_invites@.len(),
        i != j,
    ensures
        store.inbound_invites@[i].id@ != store.inbound_invites@[j].id@,
{
}

/// Redelivering an envelope whose content-derived identifier is already in
/// the intake table changes nothing: staging the same invite twice leaves
/// exactly the one row the first delivery created.
pub proof fn lemma_invite_redelivery_ignored(
    s: Seq<InboundInvite>,
    v1: InboundInvite,
    v2: InboundInvite,
)
    requires
        v2.id@ == v1.id@,
    ensures
        spec_save_invite(spec_save_invite(s, v1), v2) == spec_save_invite(s, v1),
{
    let s1 = spec_save_invite(s, v1);
    if exists|i: int| 0 <= i < s.len() && (#[trigger] s[i]).id@ == v1.id@ {
        assert(s1 == s);
    } else {
        assert(s1 == s.push(v1));
        assert(s1[s.len() as int].id@ == v2.id@);
    }
}

/// The same dedup holds for the inbound message table.
pub proof fn lemma_inbound_message_redelivery_ignored(
    s: Seq<InboundMessage>,
    v1: InboundMessage,
    v2: InboundMessage,
)
    requires
        v2.id@ == v1.id@,
    ensures
        spec_save_inbound_message(spec_save_inbound_message(s, v1), v2) == spec_save_inbound_message(
            s,
            v1,
        ),
{
    let s1 = spec_save_inbound_message(s, v1);
    if exists|i: int| 0 <= i < s.len() && (#[trigger] s[i]).id@ == v1.id@ {
        assert(s1 == s);
    } else {
        assert(s1 == s.push(v1));
        assert(s1[s.len() as int].id@ == v2.id@);
    }
}

} // verus!
