//! The outbound delivery queue: accepted payloads are eventually attempted,
//! and at most one delivery attempt per payload is in flight at a time, even
//! across restarts.
//!
//! A payload enters `Pending` with no lease. A sender claims the rows whose
//! lease has elapsed and atomically advances `locked_until_ns` — a lease,
//! not a hard lock, so a crashed sender merely lets the lease expire and the
//! row become claimable again. Acknowledgment is the terminal state.
//! Submission is idempotent: the derived `payload_id` deduplicates, and a
//! colliding resubmission is ignored, keeping the first row.

use vstd::prelude::*;
use crate::models::{StoredOutboundPayload, OutboundPayloadState};
use crate::store::MessageStore;
use vstd::string::StringExecFns;

verus! {

/// Whether a sender may claim this row now: it awaits delivery and any
/// earlier lease has elapsed.
pub open spec fn outbound_claimable(p: StoredOutboundPayload, now_ns: i64) -> bool {
    p.outbound_payload_state == OutboundPayloadState::Pending.code_spec() && p.locked_until_ns
        <= now_ns
}

/// The row with its lease advanced to `locked_until_ns`.
pub open spec fn lock_row(p: StoredOutboundPayload, locked_until_ns: i64) -> StoredOutboundPayload {
    StoredOutboundPayload { locked_until_ns, ..p }
}

/// The row with a changed delivery state code.
pub open spec fn outbound_with_state(p: StoredOutboundPayload, state: i32) -> StoredOutboundPayload {
    StoredOutboundPayload { outbound_payload_state: state, ..p }
}

/// Submission as a transition on the table: a row whose derived identifier
/// is already present is ignored — the first row is kept — and a fresh row
/// is appended.
pub open spec fn spec_submit_outbound(
    s: Seq<StoredOutboundPayload>,
    p: StoredOutboundPayload,
) -> Seq<StoredOutboundPayload> {
    if exists|i: int| 0 <= i < s.len() && (#[trigger] s[i]).payload_id@ == p.payload_id@ {
        s
    } else {
        s.push(p)
    }
}

/// The rows a claim at `now_ns` takes, in table order.
pub open spec fn claimable_rows(s: Seq<StoredOutboundPayload>, now_ns: i64) -> Seq<
    StoredOutboundPayload,
>
    decreases s.len(),
{
    if s.len() == 0 {
        Seq::<StoredOutboundPayload>::empty()
    } else {
        let rest = claimable_rows(s.drop_last(), now_ns);
        if outbound_claimable(s.last(), now_ns) {
            rest.push(s.last())
        } else {
            rest
        }
    }
}

impl MessageStore {
    /// Everything but the outbound payload table is unchanged.
    pub open spec fn only_outbound_changed(pre: MessageStore, post: MessageStore) -> bool {
        &&& post.users@ == pre.users@
        &&& post.conversations@ == pre.conversations@
        &&& post.messages@ == pre.messages@
        &&& post.accounts@ == pre.accounts@
        &&& post.installations@ == pre.installations@
        &&& post.sessions@ == pre.sessions@
        &&& post.inbound_invites@ == pre.inbound_invites@
        &&& post.inbound_messages@ == pre.inbound_messages@
        &&& post.refresh_jobs@ == pre.refresh_jobs@
        &&& post.next_message_id == pre.next_message_id
        &&& post.next_account_id == pre.next_account_id
    }

    /// The index of the outbound payload row with this derived identifier.
    fn find_outbound(&self, payload_id: &String) -> (r: Option<usize>)
        ensures
            match r {
                Some(i) => i < self.outbound_payloads@.len()
                    && self.outbound_payloads@[i as int].payload_id@ == payload_id@,
                None => !self.has_outbound(payload_id@),
            },
    {
        let mut i: usize = 0;
        while i < self.outbound_payloads.len()
            invariant
                i <= self.outbound_payloads@.len(),
                forall|j: int|
                    0 <= j < i ==> (#[trigger] self.outbound_payloads@[j]).payload_id@
                        != payload_id@,
            decreases self.outbound_payloads@.len() - i,
        {
            if self.outbound_payloads[i].payload_id == *payload_id {
                return Some(i);
            }
            i = i + 1;
        }
        None
    }

    /// Accept a payload for delivery. Submission is idempotent at the
    /// storage layer: a row whose derived identifier is already present is
    /// left exactly as first inserted and the resubmission is ignored.
    ///
    /// Returns whether a row was added.
    pub fn save_outbound_payload(&mut self, payload: StoredOutboundPayload) -> (fresh: bool)
        requires
            old(self).wf(),
        ensures
            final(self).wf(),
            fresh == !old(self).has_outbound(payload.payload_id@),
            final(self).outbound_payloads@ == spec_submit_outbound(
                old(self).outbound_payloads@,
                payload,
            ),
            Self::only_outbound_changed(*old(self), *final(self)),
    {
        if self.find_outbound(&payload.payload_id).is_some() {
            return false;
        }
        self.outbound_payloads.push(payload);
        proof {
            crate::store::lemma_user_lookup_preserved(*old(self), *self);
            crate::store::lemma_conversation_lookup_preserved(*old(self), *self);
        }
        true
    }

    /// Claim every payload whose delivery is due: each row that is `Pending`
    /// with an elapsed lease has its lease advanced to `now_ns + lease_ns`
    /// in the same step that hands it out, so a concurrent claim before the
    /// new lease elapses takes nothing. Rows under lease or already
    /// acknowledged are untouched.
    ///
    /// Returns the claimed rows, in table order, with their new lease.
    pub fn fetch_and_lock_outbound_payloads(&mut self, now_ns: i64, lease_ns: i64) -> (r: Vec<
        StoredOutboundPayload,
    >)
        requires
            old(self).wf(),
            0 <= lease_ns,
            now_ns + lease_ns <= i64::MAX,
        ensures
            final(self).wf(),
            Self::only_outbound_changed(*old(self), *final(self)),
            final(self).outbound_payloads@.len() == old(self).outbound_payloads@.len(),
            forall|i: int|
                0 <= i < old(self).outbound_payloads@.len() && outbound_claimable(
                    (#[trigger] old(self).outbound_payloads@[i]),
                    now_ns,
                ) ==> final(self).outbound_payloads@[i] == lock_row(
                    old(self).outbound_payloads@[i],
                    (now_ns + lease_ns) as i64,
                ),
            forall|i: int|
                0 <= i < old(self).outbound_payloads@.len() && !outbound_claimable(
                    (#[trigger] old(self).outbound_payloads@[i]),
                    now_ns,
                ) ==> final(self).outbound_payloads@[i] == old(self).outbound_payloads@[i],
            r@.len() == claimable_rows(old(self).outbound_payloads@, now_ns).len(),
            forall|j: int|
                0 <= j < r@.len() ==> (#[trigger] r@[j])@ == lock_row(
                    claimable_rows(old(self).outbound_payloads@, now_ns)[j],
                    (now_ns + lease_ns) as i64,
                )@,
    {
        let new_lease: i64 = now_ns + lease_ns;
        let mut r: Vec<StoredOutboundPayload> = Vec::new();
        let mut i: usize = 0;
        while i < self.outbound_payloads.len()
            invariant
                i <= self.outbound_payloads@.len(),
                self.outbound_payloads@.len() == old(self).outbound_payloads@.len(),
                new_lease == now_ns + lease_ns,
                Self::only_outbound_changed(*old(self), *self),
                forall|k: int|
                    i <= k < old(self).outbound_payloads@.len() ==> (
                    #[trigger] self.outbound_payloads@[k]) == old(self).outbound_payloads@[k],
                forall|k: int|
                    0 <= k < i && outbound_claimable(
                        (#[trigger] old(self).outbound_payloads@[k]),
                        now_ns,
                    ) ==> self.outbound_payloads@[k] == lock_row(
                        old(self).outbound_payloads@[k],
                        new_lease,
                    ),
                forall|k: int|
                    0 <= k < i && !outbound_claimable(
                        (#[trigger] old(self).outbound_payloads@[k]),
                        now_ns,
                    ) ==> self.outbound_payloads@[k] == old(self).outbound_payloads@[k],
                r@.len() == claimable_rows(
                    old(self).outbound_payloads@.take(i as int),
                    now_ns,
                ).len(),
                forall|j: int|
                    0 <= j < r@.len() ==> (#[trigger] r@[j])@ == lock_row(
                        claimable_rows(old(self).outbound_payloads@.take(i as int), now_ns)[j],
                        new_lease,
                    )@,
            decreases self.outbound_payloads@.len() - i,
        {
            proof {
                assert(old(self).outbound_payloads@.take(i + 1).drop_last() =~= old(self).outbound_payloads@.take(i as int));
                assert(old(self).outbound_payloads@.take(i + 1).last() == old(self).outbound_payloads@[i as int]);
            }
            let claimable = self.outbound_payloads[i].outbound_payload_state
                == OutboundPayloadState::Pending.to_code() && self.outbound_payloads[i].locked_until_ns
                <= now_ns;
            if claimable {
                self.outbound_payloads[i].locked_until_ns = new_lease;
                r.push(self.outbound_payloads[i].clone());
            }
            i = i + 1;
        }
        proof {
            assert(old(self).outbound_payloads@.take(old(self).outbound_payloads@.len() as int)
                =~= old(self).outbound_payloads@);
            crate::store::lemma_user_lookup_preserved(*old(self), *self);
            crate::store::lemma_conversation_lookup_preserved(*old(self), *self);
            assert forall|i2: int, j2: int|
                0 <= i2 < j2 < self.outbound_payloads@.len() implies (
            #[trigger] self.outbound_payloads@[i2]).payload_id@ != (
            #[trigger] self.outbound_payloads@[j2]).payload_id@ by {
                assert(self.outbound_payloads@[i2].payload_id@ == old(self).outbound_payloads@[i2].payload_id@);
                assert(self.outbound_payloads@[j2].payload_id@ == old(self).outbound_payloads@[j2].payload_id@);
            }
        }
        r
    }

    /// Record the outcome of a delivery attempt as a conditional update: the
    /// row changes only if it exists and the new state lies strictly later
    /// in the delivery lifecycle, so an acknowledged payload is never moved
    /// back to `Pending` and a racing worker's late update is a no-op.
    ///
    /// Returns whether a row changed.
    pub fn update_outbound_payload_state(
        &mut self,
        payload_id: &str,
        to: OutboundPayloadState,
    ) -> (r: bool)
        requires
            old(self).wf(),
        ensures
            final(self).wf(),
            r == exists|i: int|
                0 <= i < old(self).outbound_payloads@.len() && (
                #[trigger] old(self).outbound_payloads@[i]).payload_id@ == payload_id@ && old(self).outbound_payloads@[i].outbound_payload_state < to.code_spec(),
            r ==> exists|i: int|
                0 <= i < old(self).outbound_payloads@.len() && (
                #[trigger] old(self).outbound_payloads@[i]).payload_id@ == payload_id@ && final(self).outbound_payloads@ == old(self).outbound_payloads@.update(
                    i,
                    outbound_with_state(old(self).outbound_payloads@[i], to.code_spec()),
                ),
            r ==> Self::only_outbound_changed(*old(self), *final(self)),
            !r ==> *final(self) == *old(self),
            final(self).outbound_payloads@.len() == old(self).outbound_payloads@.len(),
            forall|i: int|
                0 <= i < old(self).outbound_payloads@.len() ==> (#[trigger] final(self).outbound_payloads@[i]).outbound_payload_state >= old(self).outbound_payloads@[i].outbound_payload_state,
            forall|i: int|
                0 <= i < old(self).outbound_payloads@.len() && (
                #[trigger] old(self).outbound_payloads@[i]).outbound_payload_state
                    == OutboundPayloadState::ServerAcknowledged.code_spec() ==> final(self).outbound_payloads@[i] == old(self).outbound_payloads@[i],
    {
        let key = payload_id.to_owned();
        match self.find_outbound(&key) {
            Some(i) => {
                if self.outbound_payloads[i].outbound_payload_state < to.to_code() {
                    let new_code = to.to_code();
                    self.outbound_payloads[i].outbound_payload_state = new_code;
                    proof {
                        crate::store::lemma_user_lookup_preserved(*old(self), *self);
                        crate::store::lemma_conversation_lookup_preserved(*old(self), *self);
                    }
                    true
                } else {
                    false
                }
            },
            None => false,
        }
    }
}

/// Resubmitting a payload whose derived identifier is already in the table
/// changes nothing: submission is idempotent, and the row keeps the content
/// of the first insert.
pub proof fn lemma_resubmission_ignored(
    s: Seq<StoredOutboundPayload>,
    p1: StoredOutboundPayload,
    p2: StoredOutboundPayload,
)
    requires
        p2.payload_id@ == p1.payload_id@,
    ensures
        spec_submit_outbound(spec_submit_outbound(s, p1), p2) == spec_submit_outbound(s, p1),
{
    let s1 = spec_submit_outbound(s, p1);
    if exists|i: int| 0 <= i < s.len() && (#[trigger] s[i]).payload_id@ == p1.payload_id@ {
        assert(s1 == s);
    } else {
        assert(s1 == s.push(p1));
        assert(s1[s.len() as int].payload_id@ == p2.payload_id@);
    }
}

/// In a well-formed store there is never a second row for a derived
/// payload identifier: any two distinct outbound rows carry distinct
/// identifiers, so an idempotent resubmission can only ever land on the one
/// existing row.
pub proof fn lemma_outbound_rows_unique(store: crate::store::MessageStore, i: int, j: int)
    requires
        store.wf(),
        0 <= i < store.outbound_payloads@.len(),
        0 <= j < store.outbound_payloads@.len(),
        i != j,
    ensures
        store.outbound_payloads@[i].payload_id@ != store.outbound_payloads@[j].payload_id@,
{
}

/// A fresh lease excludes every earlier claimant: a row claimed at time
/// `claim_ns` with lease `lease_ns` cannot be claimed again before the lease
/// elapses, and without an acknowledgment it becomes claimable again as soon
/// as the lease has elapsed.
pub proof fn lemma_lease_excludes_and_expires(
    p: StoredOutboundPayload,
    claim_ns: i64,
    lease_ns: i64,
    now_ns: i64,
)
    requires
        outbound_claimable(p, claim_ns),
        0 <= lease_ns,
        claim_ns + lease_ns <= i64::MAX,
    ensures
        now_ns < claim_ns + lease_ns ==> !outbound_claimable(
            lock_row(p, (claim_ns + lease_ns) as i64),
            now_ns,
        ),
        now_ns >= claim_ns + lease_ns ==> outbound_claimable(
            lock_row(p, (claim_ns + lease_ns) as i64),
            now_ns,
        ),
{
}

} // verus!
