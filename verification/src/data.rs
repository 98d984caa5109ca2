//! The table of what the background tasks need of each stored clip: its
//! short code, how often it was viewed, and when it expires.

use crate::domain::clip::field::ShortCode;
use crate::domain::time::Time;
use crate::web::hitcounter::PendingHit;
use vstd::prelude::*;

verus! {

/// One clip as the background tasks see it.
#[derive(Debug, Clone)]
pub struct ClipRecord {
    pub shortcode: ShortCode,
    pub hits: u64,
    pub expires: Option<Time>,
}

/// Why the store refused an operation.
#[derive(Debug, Clone, Copy, PartialEq, Eq, Structural)]
pub enum StoreError {
    /// No clip has the short code.
    NotFound,
    /// A clip with the short code is stored already.
    AlreadyExists,
    /// The clip's counter cannot hold that many hits.
    CounterFull,
}

/// A clip is due for removal at `now` when it has an expiry at or before `now`.
pub open spec fn is_due(record: ClipRecord, now: int) -> bool {
    record.expires matches Some(at) && at@ <= now
}

/// Where the clip `code` stands in `records`.
pub open spec fn find(records: Seq<ClipRecord>, code: Seq<char>) -> Option<int>
    decreases records.len(),
{
    if records.len() == 0 {
        None
    } else if records.last().shortcode@ == code {
        Some(records.len() - 1)
    } else {
        find(records.drop_last(), code)
    }
}

/// The records once `delta` hits were added to the clip `code`.
pub open spec fn incremented(records: Seq<ClipRecord>, code: Seq<char>, delta: nat) -> Result<
    Seq<ClipRecord>,
    StoreError,
> {
    match find(records, code) {
        None => Err(StoreError::NotFound),
        Some(i) => if records[i].hits + delta > u64::MAX {
            Err(StoreError::CounterFull)
        } else {
            Ok(
                records.update(
                    i,
                    ClipRecord {
                        shortcode: records[i].shortcode,
                        hits: (records[i].hits + delta) as u64,
                        expires: records[i].expires,
                    },
                ),
            )
        },
    }
}

/// The records that a sweep at `now` leaves: those not due, in their order.
pub open spec fn surviving(records: Seq<ClipRecord>, now: int) -> Seq<ClipRecord>
    decreases records.len(),
{
    if records.len() == 0 {
        Seq::empty()
    } else if is_due(records.last(), now) {
        surviving(records.drop_last(), now)
    } else {
        surviving(records.drop_last(), now).push(records.last())
    }
}

/// The records once each entry of `batch` was written in turn; an entry
/// whose write is refused changes nothing.
pub open spec fn after_batch(records: Seq<ClipRecord>, batch: Seq<PendingHit>) -> Seq<ClipRecord>
    decreases batch.len(),
{
    if batch.len() == 0 {
        records
    } else {
        let so_far = after_batch(records, batch.drop_last());
        match incremented(so_far, batch.last().shortcode@, batch.last().count as nat) {
            Ok(next) => next,
            Err(_) => so_far,
        }
    }
}

/// For each entry of `batch`, whether its write was accepted.
pub open spec fn batch_outcomes(records: Seq<ClipRecord>, batch: Seq<PendingHit>) -> Seq<bool>
    decreases batch.len(),
{
    if batch.len() == 0 {
        Seq::empty()
    } else {
        let so_far = after_batch(records, batch.drop_last());
        batch_outcomes(records, batch.drop_last()).push(
            incremented(so_far, batch.last().shortcode@, batch.last().count as nat) is Ok,
        )
    }
}

proof fn lemma_find_in_range(records: Seq<ClipRecord>, code: Seq<char>)
    ensures
        match find(records, code) {
            Some(i) => 0 <= i < records.len() && records[i].shortcode@ == code,
            None => forall|j: int| 0 <= j < records.len() ==> records[j].shortcode@ != code,
        },
    decreases records.len(),
{
    if records.len() > 0 {
        let rest = records.drop_last();
        lemma_find_in_range(rest, code);
        if records.last().shortcode@ != code {
            match find(rest, code) {
                Some(i) => {
                    assert(rest[i] == records[i]);
                },
                None => {
                    assert forall|j: int| 0 <= j < records.len() implies records[j].shortcode@
                        != code by {
                        if j < rest.len() {
                            assert(rest[j] == records[j]);
                        }
                    }
                },
            }
        }
    }
}

/// A sweep removes exactly the clips that are due: what it leaves are the
/// stored clips that are not due, each still there and none of them changed.
pub proof fn lemma_sweep_removes_exactly_the_due(records: Seq<ClipRecord>, now: int)
    ensures
        forall|i: int|
            0 <= i < records.len() && !is_due(#[trigger] records[i], now) ==> surviving(
                records,
                now,
            ).contains(records[i]),
        forall|k: int|
            0 <= k < surviving(records, now).len() ==> !is_due(
                #[trigger] surviving(records, now)[k],
                now,
            ) && records.contains(surviving(records, now)[k]),
        surviving(records, now).len() <= records.len(),
    decreases records.len(),
{
    if records.len() > 0 {
        let rest = records.drop_last();
        let kept = surviving(records, now);
        let kept_rest = surviving(rest, now);
        lemma_sweep_removes_exactly_the_due(rest, now);
        assert forall|i: int| 0 <= i < records.len() && !is_due(#[trigger] records[i], now) implies kept.contains(
            records[i],
        ) by {
            if i < records.len() - 1 {
                assert(rest[i] == records[i]);
                let k = choose|k: int| 0 <= k < kept_rest.len() && kept_rest[k] == rest[i];
                assert(kept[k] == records[i]);
            } else {
                assert(kept[kept.len() - 1] == records[i]);
            }
        }
        assert forall|k: int| 0 <= k < kept.len() implies !is_due(#[trigger] kept[k], now)
            && records.contains(kept[k]) by {
            if k < kept_rest.len() {
                assert(kept[k] == kept_rest[k]);
                let j = choose|j: int| 0 <= j < rest.len() && rest[j] == kept_rest[k];
                assert(records[j] == kept[k]);
            } else {
                assert(records[records.len() - 1] == kept[k]);
            }
        }
    }
}

/// The stored clips, in the order in which they were inserted.
pub struct ClipStore {
    records: Vec<ClipRecord>,
}

impl View for ClipStore {
    type V = Seq<ClipRecord>;

    closed spec fn view(&self) -> Seq<ClipRecord> {
        self.records@
    }
}

impl ClipStore {
    pub fn new() -> (store: ClipStore)
        ensures
            store@.len() == 0,
    {
        ClipStore { records: Vec::new() }
    }

    pub fn len(&self) -> (len: usize)
        ensures
            len == self@.len(),
    {
        self.records.len()
    }

    /// Where the clip `code` stands, if it is stored.
    pub fn position(&self, code: &ShortCode) -> (res: Option<usize>)
        ensures
            match find(self@, code@) {
                Some(i) => res matches Some(at) && at == i && 0 <= i < self@.len(),
                None => res is None,
            },
    {
        let mut i: usize = self.records.len();
        proof {
            assert(self.records@.take(i as int) =~= self.records@);
            lemma_find_in_range(self@, code@);
        }
        while i > 0
            invariant
                i <= self.records.len(),
                find(self.records@, code@) == find(self.records@.take(i as int), code@),
            decreases i,
        {
            i -= 1;
            proof {
                assert(self.records@.take(i + 1).drop_last() =~= self.records@.take(i as int));
            }
            if self.records[i].shortcode.same_as(code) {
                return Some(i);
            }
        }
        None
    }

    /// How often the clip `code` was viewed, if it is stored.
    pub fn hits(&self, code: &ShortCode) -> (res: Option<u64>)
        ensures
            match find(self@, code@) {
                Some(i) => res == Some(self@[i].hits),
                None => res is None,
            },
    {
        match self.position(code) {
            Some(i) => Some(self.records[i].hits),
            None => None,
        }
    }

    /// Stores a clip under a short code that is not in use yet.
    pub fn insert(&mut self, record: ClipRecord) -> (res: Result<(), StoreError>)
        ensures
            match find(old(self)@, record.shortcode@) {
                None => res is Ok && final(self)@ == old(self)@.push(record),
                Some(_) => res == Err::<(), StoreError>(StoreError::AlreadyExists) && final(self)@
                    == old(self)@,
            },
    {
        match self.position(&record.shortcode) {
            Some(_) => Err(StoreError::AlreadyExists),
            None => {
                self.records.push(record);
                Ok(())
            },
        }
    }

    /// Adds `delta` to the stored counter of the clip `code`. The counter is
    /// never overwritten, and a refused write leaves the store as it was.
    pub fn increment_hits(&mut self, code: &ShortCode, delta: u64) -> (res: Result<(), StoreError>)
        ensures
            match incremented(old(self)@, code@, delta as nat) {
                Ok(next) => res is Ok && final(self)@ == next,
                Err(err) => res == Err::<(), StoreError>(err) && final(self)@ == old(self)@,
            },
    {
        match self.position(code) {
            None => Err(StoreError::NotFound),
            Some(i) => {
                let hits: u64 = self.records[i].hits;
                if delta > u64::MAX - hits {
                    return Err(StoreError::CounterFull);
                }
                let expires = self.records[i].expires;
                let shortcode = self.records[i].shortcode.duplicate();
                self.records.set(i, ClipRecord { shortcode, hits: hits + delta, expires });
                Ok(())
            },
        }
    }

    /// Deletes every clip whose expiry is at or before `now`, and tells how
    /// many were deleted. The other clips stay, unchanged and in their order.
    pub fn delete_expired(&mut self, now: &Time) -> (deleted: usize)
        ensures
            final(self)@ == surviving(old(self)@, now@),
            deleted == old(self)@.len() - final(self)@.len(),
    {
        let mut kept: Vec<ClipRecord> = Vec::new();
        let mut deleted: usize = 0;
        let mut i: usize = 0;
        while i < self.records.len()
            invariant
                i <= self.records.len(),
                self.records == old(self).records,
                kept@ == surviving(self.records@.take(i as int), now@),
                kept@.len() + deleted == i,
            decreases self.records.len() - i,
        {
            proof {
                assert(self.records@.take(i + 1).drop_last() =~= self.records@.take(i as int));
            }
            let due = match self.records[i].expires {
                Some(at) => at.at_or_before(now),
                None => false,
            };
            if due {
                deleted += 1;
            } else {
                kept.push(
                    ClipRecord {
                        shortcode: self.records[i].shortcode.duplicate(),
                        hits: self.records[i].hits,
                        expires: self.records[i].expires,
                    },
                );
            }
            i += 1;
        }
        proof {
            assert(self.records@.take(i as int) =~= self.records@);
        }
        self.records = kept;
        deleted
    }

    /// Writes a batch of hit counts, entry by entry, and reports for each
    /// entry whether it was written. One refused entry does not keep the
    /// others from being written.
    pub fn apply_batch(&mut self, batch: &Vec<PendingHit>) -> (outcomes: Vec<bool>)
        ensures
            final(self)@ == after_batch(old(self)@, batch@),
            outcomes@ == batch_outcomes(old(self)@, batch@),
    {
        let mut outcomes: Vec<bool> = Vec::new();
        let mut i: usize = 0;
        while i < batch.len()
            invariant
                i <= batch.len(),
                self@ == after_batch(old(self)@, batch@.take(i as int)),
                outcomes@ == batch_outcomes(old(self)@, batch@.take(i as int)),
            decreases batch.len() - i,
        {
            proof {
                assert(batch@.take(i + 1).drop_last() =~= batch@.take(i as int));
            }
            let written = self.increment_hits(&batch[i].shortcode, batch[i].count).is_ok();
            outcomes.push(written);
            i += 1;
        }
        proof {
            assert(batch@.take(i as int) =~= batch@);
        }
        outcomes
    }
}

} // verus!
