//! Coalesces "a clip was viewed" events into batched counter updates.
//!
//! The counter owns the table of hits not yet written. Whoever drives it
//! feeds it messages and timer ticks, writes the batches it hands out, and
//! reports for each entry of a batch whether the write succeeded. Counts
//! whose write failed go back into the table and leave with the next batch.

use crate::data::{after_batch, batch_outcomes, ClipStore};
use crate::domain::clip::field::ShortCode;
use crate::lifecycle::Phase;
use vstd::prelude::*;

verus! {

/// What the counter's inbox carries.
pub enum HitCountMsg {
    /// Write out everything that is pending, now.
    Commit,
    /// The clip was viewed this many times.
    Hit(ShortCode, u32),
}

/// The hits counted for one short code and not yet written.
#[derive(Debug, Clone)]
pub struct PendingHit {
    pub shortcode: ShortCode,
    pub count: u64,
}

/// The final write of some entries failed when no further attempt was left.
#[derive(Debug, Clone, Copy, PartialEq, Eq, Structural)]
pub struct FlushError {
    /// How many entries of the batch were not written.
    pub failed: usize,
}

/// The hits that `entries` hold for `code`.
pub open spec fn tally(entries: Seq<PendingHit>, code: Seq<char>) -> nat
    decreases entries.len(),
{
    if entries.len() == 0 {
        0
    } else {
        tally(entries.drop_last(), code) + if entries.last().shortcode@ == code {
            entries.last().count as nat
        } else {
            0
        }
    }
}

/// The hits that `entries` hold for all codes together.
pub open spec fn total(entries: Seq<PendingHit>) -> nat
    decreases entries.len(),
{
    if entries.len() == 0 {
        0
    } else {
        total(entries.drop_last()) + entries.last().count as nat
    }
}

/// Whether the write of the batch's entry `i` was reported as done.
/// An entry without a report counts as not written.
pub open spec fn acked(outcomes: Seq<bool>, i: int) -> bool {
    0 <= i < outcomes.len() && outcomes[i]
}

/// The hits for `code` in those entries of a batch whose write failed.
pub open spec fn failed_tally(entries: Seq<PendingHit>, outcomes: Seq<bool>, code: Seq<char>) -> nat
    decreases entries.len(),
{
    if entries.len() == 0 {
        0
    } else {
        failed_tally(entries.drop_last(), outcomes, code) + if entries.last().shortcode@ == code
            && !acked(outcomes, entries.len() - 1) {
            entries.last().count as nat
        } else {
            0
        }
    }
}

/// The hits for `code` in those entries of a batch that were written.
pub open spec fn delivered_tally(entries: Seq<PendingHit>, outcomes: Seq<bool>, code: Seq<char>) -> nat
    decreases entries.len(),
{
    if entries.len() == 0 {
        0
    } else {
        delivered_tally(entries.drop_last(), outcomes, code) + if entries.last().shortcode@ == code
            && acked(outcomes, entries.len() - 1) {
            entries.last().count as nat
        } else {
            0
        }
    }
}

/// How many of the first `n` entries of a batch were not written.
pub open spec fn unacked(n: nat, outcomes: Seq<bool>) -> nat
    decreases n,
{
    if n == 0 {
        0
    } else {
        unacked((n - 1) as nat, outcomes) + if acked(outcomes, n - 1) {
            0nat
        } else {
            1nat
        }
    }
}

/// No short code has two entries.
pub open spec fn distinct_codes(entries: Seq<PendingHit>) -> bool {
    forall|i: int, j: int|
        0 <= i < j < entries.len() ==> entries[i].shortcode@ != entries[j].shortcode@
}

proof fn lemma_count_le_total(entries: Seq<PendingHit>, i: int)
    requires
        0 <= i < entries.len(),
    ensures
        entries[i].count <= total(entries),
    decreases entries.len(),
{
    if i < entries.len() - 1 {
        lemma_count_le_total(entries.drop_last(), i);
    }
}

proof fn lemma_replace_entry(entries: Seq<PendingHit>, i: int, entry: PendingHit, code: Seq<char>)
    requires
        0 <= i < entries.len(),
        entry.shortcode@ == entries[i].shortcode@,
    ensures
        total(entries.update(i, entry)) + entries[i].count == total(entries) + entry.count,
        entry.shortcode@ == code ==> tally(entries.update(i, entry), code) + entries[i].count
            == tally(entries, code) + entry.count,
        entry.shortcode@ != code ==> tally(entries.update(i, entry), code) == tally(entries, code),
    decreases entries.len(),
{
    if i == entries.len() - 1 {
        assert(entries.update(i, entry).drop_last() =~= entries.drop_last());
    } else {
        lemma_replace_entry(entries.drop_last(), i, entry, code);
        assert(entries.update(i, entry).drop_last() =~= entries.drop_last().update(i, entry));
    }
}

/// Adds `count` hits for `code` to `entries`: to the code's entry where it
/// has one, else as a new entry at the end.
fn merge_entry(entries: &mut Vec<PendingHit>, code: ShortCode, count: u64)
    requires
        distinct_codes(old(entries)@),
        total(old(entries)@) + count <= u64::MAX,
    ensures
        distinct_codes(final(entries)@),
        total(final(entries)@) == total(old(entries)@) + count,
        forall|c: Seq<char>|
            tally(final(entries)@, c) == #[trigger] tally(old(entries)@, c) + if c == code@ {
                count as nat
            } else {
                0
            },
{
    let mut i: usize = 0;
    while i < entries.len()
        invariant
            i <= entries.len(),
            *entries == *old(entries),
            distinct_codes(entries@),
            total(entries@) + count <= u64::MAX,
            forall|j: int| 0 <= j < i ==> entries[j].shortcode@ != code@,
        decreases entries.len() - i,
    {
        if entries[i].shortcode.same_as(&code) {
            let current: u64 = entries[i].count;
            let ghost before = entries@;
            proof {
                lemma_count_le_total(before, i as int);
            }
            let merged = PendingHit { shortcode: code, count: current + count };
            entries.set(i, merged);
            proof {
                assert forall|c: Seq<char>|
                    tally(entries@, c) == #[trigger] tally(before, c) + if c == code@ {
                        count as nat
                    } else {
                        0
                    } by {
                    lemma_replace_entry(before, i as int, merged, c);
                }
                lemma_replace_entry(before, i as int, merged, code@);
            }
            return ;
        }
        i += 1;
    }
    let ghost before = entries@;
    entries.push(PendingHit { shortcode: code, count });
    proof {
        assert(entries@.drop_last() =~= before);
    }
}

/// An independent copy of a batch.
fn copy_entries(entries: &Vec<PendingHit>) -> (copy: Vec<PendingHit>)
    ensures
        copy@ == entries@,
{
    let mut copy: Vec<PendingHit> = Vec::new();
    let mut i: usize = 0;
    while i < entries.len()
        invariant
            i <= entries.len(),
            copy@ == entries@.take(i as int),
        decreases entries.len() - i,
    {
        copy.push(PendingHit { shortcode: entries[i].shortcode.duplicate(), count: entries[i].count });
        proof {
            assert(copy@ =~= entries@.take(i + 1));
        }
        i += 1;
    }
    proof {
        assert(entries@.take(entries@.len() as int) =~= entries@);
    }
    copy
}

/// The table of hits that are counted and not yet written, with the batch
/// that is being written.
pub struct HitCounter {
    phase: Phase,
    pending: Vec<PendingHit>,
    in_flight: Vec<PendingHit>,
    outstanding: u64,
}

/// `post` is `pre` with `count` more hits pending for `code`, and nothing else changed.
pub open spec fn hit_recorded(pre: HitCounter, post: HitCounter, code: Seq<char>, count: nat) -> bool {
    &&& post.phase() == pre.phase()
    &&& post.in_flight() == pre.in_flight()
    &&& forall|c: Seq<char>|
        #![trigger post.pending_count(c)]
        #![trigger pre.pending_count(c)]
        post.pending_count(c) == pre.pending_count(c) + if c == code {
            count
        } else {
            0
        }
}

/// `post` is `pre` after everything not yet written was put into `batch`:
/// nothing is pending, `batch` is being written, and it holds for each code
/// what was pending for it together with what an unfinished batch still held.
pub open spec fn batch_taken(pre: HitCounter, post: HitCounter, batch: Seq<PendingHit>) -> bool {
    &&& post.pending().len() == 0
    &&& post.in_flight() == batch
    &&& distinct_codes(batch)
    &&& forall|c: Seq<char>| #[trigger]
        tally(batch, c) == pre.pending_count(c) + pre.in_flight_count(c)
}

/// `post` is `pre` after the batch's writes were reported: no batch is being
/// written, and for each code the hits whose write failed are pending again,
/// on top of what was pending.
pub open spec fn flush_settled(pre: HitCounter, post: HitCounter, outcomes: Seq<bool>) -> bool {
    &&& post.in_flight().len() == 0
    &&& forall|c: Seq<char>| #[trigger]
        post.pending_count(c) == pre.pending_count(c) + failed_tally(pre.in_flight(), outcomes, c)
}

/// What counting `count` hits for `code` does: while the counter runs and
/// can still tell how many hits it holds, they are added; otherwise they
/// are dropped and nothing changes.
pub open spec fn hit_handled(
    pre: HitCounter,
    post: HitCounter,
    code: Seq<char>,
    count: nat,
    accepted: bool,
) -> bool {
    &&& accepted == (pre.phase() == Phase::Running && pre.outstanding() + count <= u64::MAX)
    &&& accepted ==> hit_recorded(pre, post, code, count)
    &&& accepted ==> post.outstanding() == pre.outstanding() + count
    &&& !accepted ==> post == pre
}

/// What asking for a batch does: a running counter hands out everything
/// not yet written; any other counter hands out nothing and stays as it is.
pub open spec fn flush_begun(pre: HitCounter, post: HitCounter, batch: Seq<PendingHit>) -> bool {
    &&& post.phase() == pre.phase()
    &&& pre.phase() == Phase::Running ==> batch_taken(pre, post, batch)
    &&& pre.phase() != Phase::Running ==> post == pre && batch.len() == 0
}

impl HitCounter {
    pub closed spec fn phase(&self) -> Phase {
        self.phase
    }

    /// The entries that wait for the next batch.
    pub closed spec fn pending(&self) -> Seq<PendingHit> {
        self.pending@
    }

    /// The entries of the batch that is being written.
    pub closed spec fn in_flight(&self) -> Seq<PendingHit> {
        self.in_flight@
    }

    pub closed spec fn outstanding(&self) -> nat {
        self.outstanding as nat
    }

    /// The hits for `code` that wait for the next batch.
    pub open spec fn pending_count(&self, code: Seq<char>) -> nat {
        tally(self.pending(), code)
    }

    /// The hits for `code` in the batch that is being written.
    pub open spec fn in_flight_count(&self, code: Seq<char>) -> nat {
        tally(self.in_flight(), code)
    }

    /// Each code has at most one entry waiting and one being written, and
    /// the counter knows how many hits it holds in all.
    pub open spec fn wf(&self) -> bool {
        &&& distinct_codes(self.pending())
        &&& distinct_codes(self.in_flight())
        &&& self.outstanding() == total(self.pending()) + total(self.in_flight())
    }

    /// A counter that has not been started and holds nothing.
    pub fn new() -> (counter: HitCounter)
        ensures
            counter.wf(),
            counter.phase() == Phase::Created,
            counter.pending().len() == 0,
            counter.in_flight().len() == 0,
    {
        HitCounter { phase: Phase::Created, pending: Vec::new(), in_flight: Vec::new(), outstanding: 0 }
    }

    /// Starts a counter that was just made. Any other counter stays as it is.
    pub fn start(&mut self) -> (started: bool)
        requires
            old(self).wf(),
        ensures
            final(self).wf(),
            started == (old(self).phase() == Phase::Created),
            old(self).phase().leads_to(final(self).phase()),
            final(self).phase() == if started {
                Phase::Running
            } else {
                old(self).phase()
            },
            final(self).pending() == old(self).pending(),
            final(self).in_flight() == old(self).in_flight(),
    {
        if self.phase == Phase::Created {
            self.phase = Phase::Running;
            true
        } else {
            false
        }
    }

    pub fn current_phase(&self) -> (phase: Phase)
        ensures
            phase == self.phase(),
    {
        self.phase
    }

    /// How many codes have hits waiting for the next batch.
    pub fn pending_len(&self) -> (len: usize)
        ensures
            len == self.pending().len(),
    {
        self.pending.len()
    }

    /// The hits for `code` that wait for the next batch.
    pub fn pending_hits(&self, code: &ShortCode) -> (hits: u64)
        requires
            self.wf(),
        ensures
            hits == self.pending_count(code@),
    {
        let mut hits: u64 = 0;
        let mut i: usize = 0;
        proof {
            assert(self.pending@.take(0) =~= Seq::<PendingHit>::empty());
        }
        while i < self.pending.len()
            invariant
                i <= self.pending.len(),
                hits == tally(self.pending@.take(i as int), code@),
                hits <= total(self.pending@.take(i as int)),
                total(self.pending@) <= u64::MAX,
                total(self.pending@.take(i as int)) <= total(self.pending@),
            decreases self.pending.len() - i,
        {
            proof {
                assert(self.pending@.take(i + 1).drop_last() =~= self.pending@.take(i as int));
                lemma_total_prefix(self.pending@, i + 1);
            }
            if self.pending[i].shortcode.same_as(code) {
                hits = hits + self.pending[i].count;
            }
            i += 1;
        }
        proof {
            assert(self.pending@.take(self.pending@.len() as int) =~= self.pending@);
        }
        hits
    }

    /// Counts `count` views of the clip `shortcode`.
    ///
    /// The hits are taken while the counter runs and can still tell how many
    /// hits it holds; otherwise they are dropped and nothing changes.
    pub fn add_hits(&mut self, shortcode: &ShortCode, count: u32) -> (accepted: bool)
        requires
            old(self).wf(),
        ensures
            final(self).wf(),
            hit_handled(*old(self), *final(self), shortcode@, count as nat, accepted),
    {
        if self.phase != Phase::Running {
            return false;
        }
        let count: u64 = count as u64;
        if count > u64::MAX - self.outstanding {
            return false;
        }
        merge_entry(&mut self.pending, shortcode.duplicate(), count);
        self.outstanding = self.outstanding + count;
        true
    }

    /// Counts one view of the clip `shortcode`; see [`HitCounter::add_hits`].
    pub fn record_hit(&mut self, shortcode: &ShortCode) -> (accepted: bool)
        requires
            old(self).wf(),
        ensures
            final(self).wf(),
            hit_handled(*old(self), *final(self), shortcode@, 1, accepted),
    {
        self.add_hits(shortcode, 1)
    }

    /// Hands out the next batch to write; called when the flush timer fires
    /// or a `Commit` arrives.
    ///
    /// The batch holds, once per code, everything counted and not yet
    /// written. It is being written from now on, and nothing is pending.
    pub fn begin_flush(&mut self) -> (batch: Vec<PendingHit>)
        requires
            old(self).wf(),
        ensures
            final(self).wf(),
            flush_begun(*old(self), *final(self), batch@),
    {
        if self.phase != Phase::Running {
            return Vec::new();
        }
        self.take_batch()
    }

    /// Takes in the reports on the batch that is being written; `outcomes[i]`
    /// says whether the write of the batch's entry `i` succeeded.
    ///
    /// Hits whose write failed are pending again, added to what was counted
    /// since. A counter that was stopping is stopped afterwards. The error
    /// tells how many entries were not written.
    pub fn complete_flush(&mut self, outcomes: &Vec<bool>) -> (res: Result<(), FlushError>)
        requires
            old(self).wf(),
        ensures
            final(self).wf(),
            flush_settled(*old(self), *final(self), outcomes@),
            old(self).phase().leads_to(final(self).phase()),
            final(self).phase() == if old(self).phase() == Phase::Stopping {
                Phase::Stopped
            } else {
                old(self).phase()
            },
            match res {
                Ok(_) => unacked(old(self).in_flight().len(), outcomes@) == 0,
                Err(err) => err.failed > 0 && err.failed == unacked(
                    old(self).in_flight().len(),
                    outcomes@,
                ),
            },
    {
        let failed = self.settle(outcomes);
        let ghost settled = *self;
        if self.phase == Phase::Stopping {
            self.phase = Phase::Stopped;
        }
        proof {
            assert(self.pending() == settled.pending());
            assert forall|c: Seq<char>| #[trigger]
                self.pending_count(c) == old(self).pending_count(c) + failed_tally(
                    old(self).in_flight(),
                    outcomes@,
                    c,
                ) by {
                assert(settled.pending_count(c) == old(self).pending_count(c) + failed_tally(
                    old(self).in_flight(),
                    outcomes@,
                    c,
                ));
            }
        }
        if failed == 0 {
            Ok(())
        } else {
            Err(FlushError { failed })
        }
    }

    /// One whole flush against `store`: takes the batch, writes it entry by
    /// entry, and takes in the outcome of each write.
    ///
    /// Afterwards no batch is being written, and what is pending are the hits
    /// whose write the store refused. A counter that does not run does nothing.
    pub fn flush_to(&mut self, store: &mut ClipStore) -> (res: Result<(), FlushError>)
        requires
            old(self).wf(),
        ensures
            final(self).wf(),
            final(self).phase() == old(self).phase(),
            old(self).phase() != Phase::Running ==> *final(self) == *old(self) && final(store)@
                == old(store)@ && res is Ok,
            old(self).phase() == Phase::Running ==> exists|batch: Seq<PendingHit>, taken: HitCounter|
                {
                    &&& #[trigger] batch_taken(*old(self), taken, batch)
                    &&& final(store)@ == after_batch(old(store)@, batch)
                    &&& flush_settled(taken, *final(self), batch_outcomes(old(store)@, batch))
                    &&& match res {
                        Ok(_) => unacked(batch.len(), batch_outcomes(old(store)@, batch)) == 0,
                        Err(err) => err.failed > 0 && err.failed == unacked(
                            batch.len(),
                            batch_outcomes(old(store)@, batch),
                        ),
                    }
                },
    {
        if self.phase != Phase::Running {
            return Ok(());
        }
        let batch = self.begin_flush();
        let ghost taken = *self;
        let outcomes = store.apply_batch(&batch);
        let res = self.complete_flush(&outcomes);
        proof {
            assert(batch_taken(*old(self), taken, batch@));
            assert(flush_settled(taken, *self, batch_outcomes(old(store)@, batch@)));
        }
        res
    }

    /// Takes one message from the inbox: a `Hit` is counted and gives no
    /// batch, a `Commit` gives the batch to write.
    pub fn handle(&mut self, msg: HitCountMsg) -> (batch: Option<Vec<PendingHit>>)
        requires
            old(self).wf(),
        ensures
            final(self).wf(),
            match msg {
                HitCountMsg::Commit => batch matches Some(entries) && flush_begun(
                    *old(self),
                    *final(self),
                    entries@,
                ),
                HitCountMsg::Hit(code, count) => batch is None && exists|accepted: bool|
                    hit_handled(*old(self), *final(self), code@, count as nat, accepted),
            },
    {
        match msg {
            HitCountMsg::Commit => Some(self.begin_flush()),
            HitCountMsg::Hit(code, count) => {
                let accepted = self.add_hits(&code, count);
                proof {
                    assert(hit_handled(*old(self), *self, code@, count as nat, accepted));
                }
                None
            },
        }
    }

    /// Stops the counter and hands out the final batch.
    ///
    /// A running counter hands out everything not yet written and is
    /// stopping until the reports on that batch come in. A counter that
    /// never ran is stopped at once. Hits that arrive later are dropped.
    pub fn shutdown(&mut self) -> (batch: Vec<PendingHit>)
        requires
            old(self).wf(),
        ensures
            final(self).wf(),
            old(self).phase().leads_to(final(self).phase()),
            old(self).phase() == Phase::Running ==> final(self).phase() == Phase::Stopping
                && batch_taken(*old(self), *final(self), batch@),
            old(self).phase() == Phase::Created ==> final(self).phase() == Phase::Stopped
                && final(self).pending() == old(self).pending()
                && final(self).in_flight() == old(self).in_flight()
                && batch@.len() == 0,
            old(self).phase() == Phase::Stopping || old(self).phase() == Phase::Stopped
                ==> *final(self) == *old(self) && batch@.len() == 0,
    {
        match self.phase {
            Phase::Running => {
                let batch = self.take_batch();
                self.phase = Phase::Stopping;
                batch
            },
            Phase::Created => {
                self.phase = Phase::Stopped;
                Vec::new()
            },
            _ => Vec::new(),
        }
    }

    /// Puts back what an unfinished batch holds, then makes everything that
    /// is pending the batch that is being written.
    fn take_batch(&mut self) -> (batch: Vec<PendingHit>)
        requires
            old(self).wf(),
        ensures
            final(self).wf(),
            final(self).phase() == old(self).phase(),
            final(self).outstanding() == old(self).outstanding(),
            batch_taken(*old(self), *final(self), batch@),
    {
        let none: Vec<bool> = Vec::new();
        let ghost start = *self;
        let ghost phase = self.phase;
        let _ = self.settle(&none);
        let ghost merged = self.pending@;
        proof {
            assert forall|c: Seq<char>| #[trigger]
                tally(merged, c) == start.pending_count(c) + start.in_flight_count(c) by {
                lemma_failure_keeps_all(start.in_flight(), none@, c);
                assert(self.pending_count(c) == start.pending_count(c) + failed_tally(
                    start.in_flight(),
                    none@,
                    c,
                ));
            }
            lemma_nothing_acked_total(start.in_flight(), none@);
        }
        let batch = copy_entries(&self.pending);
        self.in_flight = copy_entries(&self.pending);
        self.pending = Vec::new();
        batch
    }

    /// Takes in the reports on the batch that is being written: entry by
    /// entry, what was written is done with, what was not is pending again.
    fn settle(&mut self, outcomes: &Vec<bool>) -> (failed: usize)
        requires
            old(self).wf(),
        ensures
            final(self).wf(),
            final(self).phase() == old(self).phase(),
            flush_settled(*old(self), *final(self), outcomes@),
            failed == unacked(old(self).in_flight().len(), outcomes@),
            final(self).outstanding() + delivered_total(old(self).in_flight(), outcomes@)
                == old(self).outstanding(),
    {
        let mut failed: usize = 0;
        let ghost batch = self.in_flight@;
        let batch_len: usize = self.in_flight.len();
        while self.in_flight.len() > 0
            invariant
                self.wf(),
                self.phase == old(self).phase,
                self.in_flight@.len() <= batch.len(),
                failed + unacked(self.in_flight@.len(), outcomes@) == unacked(batch.len(), outcomes@),
                failed + self.in_flight@.len() <= batch.len(),
                batch.len() == batch_len,
                self.outstanding + delivered_total(batch, outcomes@) == old(self).outstanding
                    + delivered_total(self.in_flight@, outcomes@),
                batch == old(self).in_flight@,
                forall|c: Seq<char>| #[trigger]
                    tally(self.pending@, c) + failed_tally(self.in_flight@, outcomes@, c) == tally(
                        old(self).pending@,
                        c,
                    ) + failed_tally(batch, outcomes@, c),
            decreases self.in_flight.len(),
        {
            let ghost before = self.in_flight@;
            let ghost pending_before = self.pending@;
            let entry = self.in_flight.pop().unwrap();
            let i = self.in_flight.len();
            proof {
                assert(self.in_flight@ =~= before.drop_last());
                assert(entry == before.last());
            }
            let written = i < outcomes.len() && outcomes[i];
            if written {
                self.outstanding = self.outstanding - entry.count;
            } else {
                let ghost code = entry.shortcode@;
                let ghost count = entry.count as nat;
                merge_entry(&mut self.pending, entry.shortcode, entry.count);
                failed = failed + 1;
                proof {
                    assert forall|c: Seq<char>| #[trigger]
                        tally(self.pending@, c) + failed_tally(self.in_flight@, outcomes@, c) == tally(
                            old(self).pending@,
                            c,
                        ) + failed_tally(batch, outcomes@, c) by {
                        assert(tally(self.pending@, c) == tally(pending_before, c) + if c == code {
                            count
                        } else {
                            0
                        });
                        assert(tally(pending_before, c) + failed_tally(before, outcomes@, c) == tally(
                            old(self).pending@,
                            c,
                        ) + failed_tally(batch, outcomes@, c));
                    }
                }
            }
        }
        failed
    }
}

/// The hits, for all codes together, in those entries of a batch that were written.
pub open spec fn delivered_total(entries: Seq<PendingHit>, outcomes: Seq<bool>) -> nat
    decreases entries.len(),
{
    if entries.len() == 0 {
        0
    } else {
        delivered_total(entries.drop_last(), outcomes) + if acked(outcomes, entries.len() - 1) {
            entries.last().count as nat
        } else {
            0
        }
    }
}

proof fn lemma_total_prefix(entries: Seq<PendingHit>, n: int)
    requires
        0 <= n <= entries.len(),
    ensures
        total(entries.take(n)) <= total(entries),
    decreases entries.len(),
{
    if n < entries.len() {
        lemma_total_prefix(entries.drop_last(), n);
        assert(entries.drop_last().take(n) =~= entries.take(n));
    } else {
        assert(entries.take(n) =~= entries);
    }
}

/// When no write of a batch succeeds, each code's hits are pending again
/// in full and none was written.
pub proof fn lemma_failure_keeps_all(entries: Seq<PendingHit>, outcomes: Seq<bool>, code: Seq<char>)
    requires
        forall|i: int| 0 <= i < entries.len() ==> !acked(outcomes, i),
    ensures
        failed_tally(entries, outcomes, code) == tally(entries, code),
        delivered_tally(entries, outcomes, code) == 0,
    decreases entries.len(),
{
    if entries.len() > 0 {
        lemma_failure_keeps_all(entries.drop_last(), outcomes, code);
    }
}

proof fn lemma_nothing_acked_total(entries: Seq<PendingHit>, outcomes: Seq<bool>)
    requires
        outcomes.len() == 0,
    ensures
        delivered_total(entries, outcomes) == 0,
    decreases entries.len(),
{
    if entries.len() > 0 {
        lemma_nothing_acked_total(entries.drop_last(), outcomes);
    }
}

/// The sum of the numbers in `counts`.
pub open spec fn sum(counts: Seq<nat>) -> nat
    decreases counts.len(),
{
    if counts.len() == 0 {
        0
    } else {
        sum(counts.drop_last()) + counts.last()
    }
}

/// Every hit of a batch is either written or pending again: for each code,
/// what was written and what failed add up to what the batch held.
pub proof fn lemma_written_or_retried(entries: Seq<PendingHit>, outcomes: Seq<bool>, code: Seq<char>)
    ensures
        delivered_tally(entries, outcomes, code) + failed_tally(entries, outcomes, code) == tally(
            entries,
            code,
        ),
    decreases entries.len(),
{
    if entries.len() > 0 {
        lemma_written_or_retried(entries.drop_last(), outcomes, code);
    }
}

/// When every write of a batch succeeds, each code's hits are written in
/// full and none is pending again.
pub proof fn lemma_success_writes_all(entries: Seq<PendingHit>, outcomes: Seq<bool>, code: Seq<char>)
    requires
        forall|i: int| 0 <= i < entries.len() ==> acked(outcomes, i),
    ensures
        delivered_tally(entries, outcomes, code) == tally(entries, code),
        failed_tally(entries, outcomes, code) == 0,
        unacked(entries.len(), outcomes) == 0,
    decreases entries.len(),
{
    if entries.len() > 0 {
        lemma_success_writes_all(entries.drop_last(), outcomes, code);
    }
}

/// Hits counted one call after the other add up: after the calls that took
/// the counter from `states[i]` to `states[i + 1]` with `counts[i]` hits for
/// `code`, the code has the sum of `counts` more hits pending than at first.
pub proof fn lemma_hits_accumulate(states: Seq<HitCounter>, code: Seq<char>, counts: Seq<nat>)
    requires
        states.len() == counts.len() + 1,
        forall|i: int|
            0 <= i < counts.len() ==> hit_recorded(states[i], #[trigger] states[i + 1], code, counts[i]),
    ensures
        states.last().pending_count(code) == states[0].pending_count(code) + sum(counts),
        states.last().in_flight() == states[0].in_flight(),
        states.last().phase() == states[0].phase(),
    decreases counts.len(),
{
    if counts.len() > 0 {
        let n = counts.len() as int;
        assert(hit_recorded(states[n - 1], states[n - 1 + 1], code, counts[n - 1]));
        assert forall|i: int| 0 <= i < counts.drop_last().len() implies hit_recorded(
            states.drop_last()[i],
            #[trigger] states.drop_last()[i + 1],
            code,
            counts.drop_last()[i],
        ) by {
            assert(hit_recorded(states[i], states[i + 1], code, counts[i]));
        }
        lemma_hits_accumulate(states.drop_last(), code, counts.drop_last());
        assert(states.last().pending_count(code) == states[n - 1].pending_count(code) + counts[n
            - 1]);
    }
}

/// `n` calls that each count one hit for `code` leave exactly `n` more hits
/// pending for it, whoever made the calls and in whatever order.
pub proof fn lemma_single_hits_count(states: Seq<HitCounter>, code: Seq<char>)
    requires
        states.len() >= 1,
        forall|i: int|
            0 <= i < states.len() - 1 ==> hit_recorded(states[i], #[trigger] states[i + 1], code, 1),
    ensures
        states.last().pending_count(code) == states[0].pending_count(code) + (states.len() - 1),
{
    let counts = Seq::new((states.len() - 1) as nat, |i: int| 1nat);
    lemma_hits_accumulate(states, code, counts);
    lemma_sum_of_ones(counts);
}

proof fn lemma_sum_of_ones(counts: Seq<nat>)
    requires
        forall|i: int| 0 <= i < counts.len() ==> counts[i] == 1,
    ensures
        sum(counts) == counts.len(),
    decreases counts.len(),
{
    if counts.len() > 0 {
        lemma_sum_of_ones(counts.drop_last());
    }
}

/// No hit is lost on the way to the store: the hits counted for `code`
/// before a batch is taken are in that batch, and when its writes succeed
/// they are written, all of them and no more.
///
/// `states` are the counter's values around the calls that counted
/// `counts[i]` hits each; `flushed` is its value after the batch was taken.
pub proof fn lemma_counted_hits_are_written(
    states: Seq<HitCounter>,
    code: Seq<char>,
    counts: Seq<nat>,
    flushed: HitCounter,
    batch: Seq<PendingHit>,
    outcomes: Seq<bool>,
)
    requires
        states.len() == counts.len() + 1,
        forall|i: int|
            0 <= i < counts.len() ==> hit_recorded(states[i], #[trigger] states[i + 1], code, counts[i]),
        batch_taken(states.last(), flushed, batch),
        forall|i: int| 0 <= i < batch.len() ==> acked(outcomes, i),
    ensures
        delivered_tally(batch, outcomes, code) == states[0].pending_count(code)
            + states[0].in_flight_count(code) + sum(counts),
        failed_tally(batch, outcomes, code) == 0,
{
    lemma_hits_accumulate(states, code, counts);
    lemma_success_writes_all(batch, outcomes, code);
    assert(tally(batch, code) == states.last().pending_count(code) + states.last().in_flight_count(
        code,
    ));
}

/// Hits whose write failed are not lost: they are pending again, are joined
/// by the hits counted afterwards, and leave undiminished with the next batch.
///
/// `settled` is the counter after the reports `outcomes` on the batch that
/// `pre` was writing, `counted` after `count` later hits for `later`, and
/// `flushed` after the next batch was taken.
pub proof fn lemma_failed_hits_leave_with_next_batch(
    pre: HitCounter,
    settled: HitCounter,
    counted: HitCounter,
    flushed: HitCounter,
    outcomes: Seq<bool>,
    later: Seq<char>,
    count: nat,
    batch: Seq<PendingHit>,
    code: Seq<char>,
)
    requires
        flush_settled(pre, settled, outcomes),
        hit_recorded(settled, counted, later, count),
        batch_taken(counted, flushed, batch),
    ensures
        settled.pending_count(code) == pre.pending_count(code) + failed_tally(
            pre.in_flight(),
            outcomes,
            code,
        ),
        tally(batch, code) == pre.pending_count(code) + failed_tally(pre.in_flight(), outcomes, code)
            + if code == later {
            count
        } else {
            0
        },
        tally(batch, code) >= failed_tally(pre.in_flight(), outcomes, code),
{
    assert(settled.pending_count(code) == pre.pending_count(code) + failed_tally(
        pre.in_flight(),
        outcomes,
        code,
    ));
    assert(counted.pending_count(code) == settled.pending_count(code) + if code == later {
        count
    } else {
        0
    });
    assert(tally(batch, code) == counted.pending_count(code) + counted.in_flight_count(code));
    assert(counted.in_flight() == settled.in_flight());
    assert(settled.in_flight().len() == 0);
}

/// Shutting down takes everything counted so far into the final batch, and
/// a hit that arrives afterwards is dropped: it is in no batch.
///
/// `stopping` is the running counter `pre` after the shutdown that handed
/// out `batch`; `after` is the counter once `count` more hits for `code` came.
pub proof fn lemma_shutdown_takes_all_and_no_more(
    pre: HitCounter,
    stopping: HitCounter,
    batch: Seq<PendingHit>,
    after: HitCounter,
    code: Seq<char>,
    count: nat,
    accepted: bool,
)
    requires
        stopping.phase() == Phase::Stopping,
        batch_taken(pre, stopping, batch),
        hit_handled(stopping, after, code, count, accepted),
    ensures
        tally(batch, code) == pre.pending_count(code) + pre.in_flight_count(code),
        stopping.pending_count(code) == 0,
        !accepted,
        after == stopping,
{
    assert(tally(batch, code) == pre.pending_count(code) + pre.in_flight_count(code));
}

} // verus!
