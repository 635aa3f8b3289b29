//! Refresh job bookkeeping: one watermark row per job kind, updated in
//! place, never moving backwards. The watermark is where polling resumes
//! after a restart, so advancing it early would silently skip undelivered
//! envelopes; the store refuses to move it back.

use vstd::prelude::*;
use crate::models::RefreshJob;
use crate::store::MessageStore;
use vstd::string::StringExecFns;

verus! {

/// The job row with a changed watermark.
pub open spec fn job_with_last_run(j: RefreshJob, last_run: i64) -> RefreshJob {
    RefreshJob { last_run, ..j }
}

impl MessageStore {
    /// Everything but the refresh job table is unchanged.
    pub open spec fn only_refresh_jobs_changed(pre: MessageStore, post: MessageStore) -> bool {
        &&& post.users@ == pre.users@
        &&& post.conversations@ == pre.conversations@
        &&& post.messages@ == pre.messages@
        &&& post.accounts@ == pre.accounts@
        &&& post.installations@ == pre.installations@
        &&& post.sessions@ == pre.sessions@
        &&& post.outbound_payloads@ == pre.outbound_payloads@
        &&& post.inbound_invites@ == pre.inbound_invites@
        &&& post.inbound_messages@ == pre.inbound_messages@
        &&& post.next_message_id == pre.next_message_id
        &&& post.next_account_id == pre.next_account_id
    }

    /// The index of the refresh job row with this kind key.
    fn find_refresh_job(&self, id: &String) -> (r: Option<usize>)
        ensures
            match r {
                Some(i) => i < self.refresh_jobs@.len() && self.refresh_jobs@[i as int].id@ == id@,
                None => !self.has_refresh_job(id@),
            },
    {
        let mut i: usize = 0;
        while i < self.refresh_jobs.len()
            invariant
                i <= self.refresh_jobs@.len(),
                forall|j: int| 0 <= j < i ==> (#[trigger] self.refresh_jobs@[j]).id@ != id@,
            decreases self.refresh_jobs@.len() - i,
        {
            if self.refresh_jobs[i].id == *id {
                return Some(i);
            }
            i = i + 1;
        }
        None
    }

    /// Upsert a job's watermark. A missing row is created as given; an
    /// existing row is updated in place, and only forward — a save that
    /// would move the watermark back is a no-op.
    ///
    /// Returns whether the watermark was stored.
    pub fn save_refresh_job(&mut self, job: RefreshJob) -> (r: bool)
        requires
            old(self).wf(),
        ensures
            final(self).wf(),
            Self::only_refresh_jobs_changed(*old(self), *final(self)),
            !old(self).has_refresh_job(job.id@) ==> (r && final(self).refresh_jobs@ == old(self).refresh_jobs@.push(job)),
            old(self).has_refresh_job(job.id@) ==> exists|i: int|
                0 <= i < old(self).refresh_jobs@.len() && (
                #[trigger] old(self).refresh_jobs@[i]).id@ == job.id@ && (r == (job.last_run
                    >= old(self).refresh_jobs@[i].last_run)) && (r ==> final(self).refresh_jobs@
                    == old(self).refresh_jobs@.update(
                    i,
                    job_with_last_run(old(self).refresh_jobs@[i], job.last_run),
                )) && (!r ==> *final(self) == *old(self)),
            forall|i: int|
                0 <= i < old(self).refresh_jobs@.len() ==> (#[trigger] final(self).refresh_jobs@[i]).last_run >= old(self).refresh_jobs@[i].last_run && final(self).refresh_jobs@[i].id@ == old(self).refresh_jobs@[i].id@,
    {
        match self.find_refresh_job(&job.id) {
            Some(i) => {
                if job.last_run >= self.refresh_jobs[i].last_run {
                    self.refresh_jobs[i].last_run = job.last_run;
                    proof {
                        crate::store::lemma_user_lookup_preserved(*old(self), *self);
                        crate::store::lemma_conversation_lookup_preserved(*old(self), *self);
                    }
                    true
                } else {
                    false
                }
            },
            None => {
                self.refresh_jobs.push(job);
                proof {
                    crate::store::lemma_user_lookup_preserved(*old(self), *self);
                    crate::store::lemma_conversation_lookup_preserved(*old(self), *self);
                }
                true
            },
        }
    }

    /// Read back the watermark row for a job kind; `None` exactly when the
    /// kind never ran.
    pub fn get_refresh_job(&self, id: &str) -> (r: Option<RefreshJob>)
        ensures
            match r {
                Some(j) => exists|i: int|
                    0 <= i < self.refresh_jobs@.len() && (#[trigger] self.refresh_jobs@[i]).id@
                        == id@ && j@ == self.refresh_jobs@[i]@,
                None => !self.has_refresh_job(id@),
            },
    {
        let key = id.to_owned();
        match self.find_refresh_job(&key) {
            Some(i) => Some(self.refresh_jobs[i].clone()),
            None => None,
        }
    }
}

} // verus!
