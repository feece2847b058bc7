//! The batch accumulator: buffers records up to a configured capacity,
//! yields each full batch as it forms, and hands out the final short
//! batch at end of input.

use vstd::prelude::*;

use crate::record::{recs_view, LogRecord, LogRecordView};

verus! {

/// Buffers records in arrival order; never holds a full batch between
/// calls, because a batch is emitted the moment it fills.
pub struct BatchAccumulator {
    buf: Vec<LogRecord>,
    capacity: usize,
}

impl View for BatchAccumulator {
    type V = Seq<LogRecordView>;

    /// The views of the buffered records, in arrival order.
    closed spec fn view(&self) -> Seq<LogRecordView> {
        recs_view(self.buf@)
    }
}

impl BatchAccumulator {
    /// The configured batch capacity.
    pub closed spec fn cap(&self) -> int {
        self.capacity as int
    }

    /// Well-formed: positive capacity, and the buffer strictly below it.
    pub closed spec fn wf(&self) -> bool {
        self.capacity >= 1 && self.buf@.len() < self.capacity
    }

    /// What well-formedness guarantees, for callers that cannot see
    /// into `wf` itself.
    pub proof fn lemma_wf(&self)
        requires
            self.wf(),
        ensures
            self.cap() >= 1,
            self@.len() < self.cap(),
    {
        assert(self@.len() == self.buf@.len());
    }

    pub fn new(capacity: usize) -> (r: BatchAccumulator)
        requires
            capacity >= 1,
        ensures
            r.wf(),
            r.cap() == capacity,
            r@ == Seq::<LogRecordView>::empty(),
    {
        BatchAccumulator { buf: Vec::new(), capacity }
    }

    /// Append one record. When that fills the batch, the whole batch is
    /// returned (in arrival order) and the buffer starts over empty.
    pub fn push(&mut self, rec: LogRecord) -> (out: Option<Vec<LogRecord>>)
        requires
            old(self).wf(),
        ensures
            final(self).wf(),
            final(self).cap() == old(self).cap(),
            old(self)@.len() + 1 == old(self).cap() ==> (out matches Some(b) && recs_view(b@)
                == old(self)@.push(rec@) && b@.len() == old(self).cap() && final(self)@
                == Seq::<LogRecordView>::empty()),
            old(self)@.len() + 1 < old(self).cap() ==> (out is None && final(self)@ == old(
                self,
            )@.push(rec@)),
    {
        let ghost prior = self.buf@;
        self.buf.push(rec);
        proof {
            assert(recs_view(self.buf@) =~= recs_view(prior).push(rec@));
        }
        if self.buf.len() >= self.capacity {
            let mut full: Vec<LogRecord> = Vec::new();
            core::mem::swap(&mut full, &mut self.buf);
            proof {
                assert(recs_view(self.buf@) =~= Seq::<LogRecordView>::empty());
            }
            Some(full)
        } else {
            None
        }
    }

    /// Take whatever is buffered at end of input: `None` when nothing
    /// is, else the final short batch, leaving the buffer empty.
    pub fn take_rest(&mut self) -> (out: Option<Vec<LogRecord>>)
        requires
            old(self).wf(),
        ensures
            final(self).wf(),
            final(self).cap() == old(self).cap(),
            final(self)@ == Seq::<LogRecordView>::empty(),
            old(self)@.len() == 0 ==> out is None,
            old(self)@.len() > 0 ==> (out matches Some(b) && recs_view(b@) == old(self)@
                && 1 <= b@.len() < old(self).cap()),
    {
        if self.buf.len() == 0 {
            None
        } else {
            let mut rest: Vec<LogRecord> = Vec::new();
            core::mem::swap(&mut rest, &mut self.buf);
            proof {
                assert(recs_view(self.buf@) =~= Seq::<LogRecordView>::empty());
            }
            Some(rest)
        }
    }

    /// How many records are currently buffered.
    pub fn buffered(&self) -> (r: usize)
        ensures
            r == self@.len(),
    {
        self.buf.len()
    }
}

} // verus!
