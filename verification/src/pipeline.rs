//! The pipeline driver: parses each offered line, accumulates valid
//! records into batches, hands every full batch (and the final short
//! one) out to the caller's sink, and keeps the run counters.
//!
//! The driver enforces one batch in flight: after a batch is handed
//! out, no further line is accepted until the sink's success is
//! confirmed. The caller that meets a sink failure simply stops; the
//! counters then stand at their last confirmed values.

use vstd::prelude::*;
use vstd::arithmetic::div_mod::lemma_fundamental_div_mod_converse;
use vstd::seq_lib::lemma_flatten_concat;

use crate::accum::BatchAccumulator;
use crate::parse::{line_error, line_record, parse_log_line, ParseError};
use crate::record::{recs_view, LogRecord, LogRecordView};

verus! {

/// The run counters: lines consumed and records whose insertion the
/// sink confirmed. Parse failures are the difference of the two.
#[derive(Clone, Copy, Debug, PartialEq, Eq, Structural)]
pub struct RunSummary {
    pub total_read: usize,
    pub total_inserted: usize,
}

/// What one offered line led to.
pub enum LineOutcome {
    /// A valid record, buffered; the batch is not full yet.
    Buffered,
    /// The line failed to parse; it occupies no batch slot.
    ParseFailed(ParseError),
    /// A valid record filled the batch: here it is, in line order.
    /// The caller must insert it and then confirm.
    BatchReady(Vec<LogRecord>),
}

/// The mathematical history of a run.
pub ghost struct RunModel {
    /// Views of the valid records, in source line order.
    pub valid: Seq<LogRecordView>,
    /// How many lines failed to parse.
    pub errors: int,
    /// The batches handed to the sink, in order.
    pub sent: Seq<Seq<LogRecordView>>,
    /// How many of those batches the sink confirmed.
    pub confirmed: int,
}

pub struct Pipeline {
    acc: BatchAccumulator,
    row_cap: Option<usize>,
    total_read: usize,
    total_inserted: usize,
    pending: Option<usize>,
    done: bool,
    model: Ghost<RunModel>,
}

/// Batches needed for `n` records at `b` per batch, the last one short
/// when `b` does not divide `n`.
pub open spec fn ceil_div(n: int, b: int) -> int
    recommends
        b >= 1,
{
    (n + b - 1) / b
}

impl Pipeline {
    /// The history of the run so far.
    pub closed spec fn hist(&self) -> RunModel {
        self.model@
    }

    /// Lines consumed so far, valid or not.
    pub closed spec fn reads(&self) -> int {
        self.total_read as int
    }

    /// Records in batches whose insertion the sink confirmed.
    pub closed spec fn inserts(&self) -> int {
        self.total_inserted as int
    }

    /// The configured batch capacity.
    pub closed spec fn cap(&self) -> int {
        self.acc.cap()
    }

    /// The cap on lines consumed, when one was configured.
    pub closed spec fn row_limit(&self) -> Option<usize> {
        self.row_cap
    }

    /// Views of the records buffered towards the next batch.
    pub closed spec fn buffered(&self) -> Seq<LogRecordView> {
        self.acc@
    }

    /// A batch has been handed out and not yet confirmed.
    pub closed spec fn flushing(&self) -> bool {
        self.pending is Some
    }

    /// End of input was declared and the buffer flushed.
    pub closed spec fn finished(&self) -> bool {
        self.done
    }

    /// The driver's invariant. It carries the counting law (every line
    /// consumed is a valid record or a parse error), the ordering law
    /// (the batches, concatenated, are the valid records in order), and
    /// the batch-shape law (full batches while reading; at most one
    /// short batch, the last, after the end of input).
    pub closed spec fn wf(&self) -> bool {
        &&& self.acc.wf()
        &&& self.hist().errors >= 0
        &&& self.hist().confirmed >= 0
        &&& self.reads() == self.hist().valid.len() + self.hist().errors
        &&& self.hist().valid == self.hist().sent.flatten() + self.buffered()
        &&& self.hist().confirmed <= self.hist().sent.len()
        &&& (self.pending matches Some(n) ==> {
            &&& self.hist().confirmed == self.hist().sent.len() - 1
            &&& n as int == self.hist().sent.last().len()
            &&& n >= 1
        })
        &&& (self.pending is None ==> self.hist().confirmed == self.hist().sent.len())
        &&& self.inserts() == self.hist().sent.take(self.hist().confirmed).flatten().len()
        &&& (forall|i: int|
            0 <= i < self.hist().sent.len() ==> 1 <= (#[trigger] self.hist().sent[i]).len()
                <= self.cap())
        &&& (!self.done ==> forall|i: int|
            0 <= i < self.hist().sent.len() ==> (#[trigger] self.hist().sent[i]).len()
                == self.cap())
        &&& (self.done ==> forall|i: int|
            0 <= i < self.hist().sent.len() - 1 ==> (#[trigger] self.hist().sent[i]).len()
                == self.cap())
        &&& (self.done ==> self.buffered().len() == 0)
        &&& (self.row_cap matches Some(c) ==> self.reads() <= c)
    }

    /// Another line may be consumed: the run is not finished, no batch
    /// awaits confirmation, and the row cap (and the machine's count
    /// limit) is not reached.
    pub open spec fn can_consume(&self) -> bool {
        &&& !self.finished()
        &&& !self.flushing()
        &&& self.reads() < usize::MAX
        &&& (self.row_limit() matches Some(c) ==> self.reads() < c)
    }

    pub fn new(batch_size: usize, row_cap: Option<usize>) -> (r: Pipeline)
        requires
            batch_size >= 1,
        ensures
            r.wf(),
            r.cap() == batch_size,
            r.row_limit() == row_cap,
            r.reads() == 0,
            r.inserts() == 0,
            !r.flushing(),
            !r.finished(),
            r.hist().valid == Seq::<LogRecordView>::empty(),
            r.hist().errors == 0,
            r.hist().sent == Seq::<Seq<LogRecordView>>::empty(),
            r.hist().confirmed == 0,
            r.buffered() == Seq::<LogRecordView>::empty(),
    {
        let r = Pipeline {
            acc: BatchAccumulator::new(batch_size),
            row_cap,
            total_read: 0,
            total_inserted: 0,
            pending: None,
            done: false,
            model: Ghost(
                RunModel {
                    valid: Seq::empty(),
                    errors: 0,
                    sent: Seq::empty(),
                    confirmed: 0,
                },
            ),
        };
        proof {
            assert(r.hist().sent.flatten() =~= Seq::<LogRecordView>::empty());
            assert(r.hist().sent.take(0) =~= Seq::<Seq<LogRecordView>>::empty());
            assert(r.hist().valid =~= r.hist().sent.flatten() + r.buffered());
        }
        r
    }

    /// Whether the driver will take another line.
    pub fn wants_input(&self) -> (r: bool)
        ensures
            r == self.can_consume(),
    {
        !self.done && self.pending.is_none() && self.total_read < usize::MAX && (match self.row_cap {
            Some(c) => self.total_read < c,
            None => true,
        })
    }

    /// Whether a handed-out batch awaits confirmation.
    pub fn is_flushing(&self) -> (r: bool)
        ensures
            r == self.flushing(),
    {
        self.pending.is_some()
    }

    /// Consume one line: parse it, report a parse failure, or buffer
    /// the record — handing the batch out if this record filled it.
    pub fn offer_line(&mut self, line: &str) -> (out: LineOutcome)
        requires
            old(self).wf(),
            old(self).can_consume(),
        ensures
            final(self).wf(),
            final(self).cap() == old(self).cap(),
            final(self).row_limit() == old(self).row_limit(),
            !final(self).finished(),
            final(self).reads() == old(self).reads() + 1,
            final(self).inserts() == old(self).inserts(),
            final(self).hist().confirmed == old(self).hist().confirmed,
            (match line_error(line@) {
                Some(k) => {
                    &&& out matches LineOutcome::ParseFailed(e) && e.line == old(self).reads() + 1
                        && e.kind == k
                    &&& final(self).hist().valid == old(self).hist().valid
                    &&& final(self).hist().errors == old(self).hist().errors + 1
                    &&& final(self).hist().sent == old(self).hist().sent
                    &&& final(self).buffered() == old(self).buffered()
                    &&& !final(self).flushing()
                },
                None => {
                    &&& final(self).hist().valid == old(self).hist().valid.push(
                        line_record(line@),
                    )
                    &&& final(self).hist().errors == old(self).hist().errors
                    &&& if old(self).buffered().len() + 1 == old(self).cap() {
                        &&& out matches LineOutcome::BatchReady(b) && recs_view(b@) == old(
                            self,
                        ).buffered().push(line_record(line@)) && b@.len() == old(self).cap()
                        &&& final(self).hist().sent == old(self).hist().sent.push(
                            old(self).buffered().push(line_record(line@)),
                        )
                        &&& final(self).buffered() == Seq::<LogRecordView>::empty()
                        &&& final(self).flushing()
                    } else {
                        &&& out is Buffered
                        &&& final(self).hist().sent == old(self).hist().sent
                        &&& final(self).buffered() == old(self).buffered().push(
                            line_record(line@),
                        )
                        &&& !final(self).flushing()
                    }
                },
            }),
    {
        let line_no = self.total_read + 1;
        self.total_read = line_no;
        match parse_log_line(line, line_no) {
            Err(e) => {
                proof {
                    let m = self.model@;
                    self.model = Ghost(RunModel { errors: m.errors + 1, ..m });
                }
                LineOutcome::ParseFailed(e)
            },
            Ok(rec) => {
                let ghost rv = rec@;
                let ghost prior = *self;
                proof {
                    assert(rv == line_record(line@));
                    let m = self.model@;
                    self.model = Ghost(RunModel { valid: m.valid.push(rv), ..m });
                    self.acc.lemma_wf();
                }
                match self.acc.push(rec) {
                    Some(b) => {
                        proof {
                            let m = self.model@;
                            self.model = Ghost(RunModel { sent: m.sent.push(recs_view(b@)), ..m });
                        }
                        self.pending = Some(b.len());
                        proof {
                            let osent = prior.hist().sent;
                            let nb = recs_view(b@);
                            assert(nb == prior.buffered().push(rv));
                            osent.lemma_flatten_push(nb);
                            assert(self.hist().valid =~= self.hist().sent.flatten()
                                + self.buffered());
                            assert(self.hist().sent.take(self.hist().confirmed) =~= osent.take(
                                prior.hist().confirmed,
                            ));
                        }
                        LineOutcome::BatchReady(b)
                    },
                    None => {
                        proof {
                            assert(self.hist().valid =~= self.hist().sent.flatten()
                                + self.buffered());
                        }
                        LineOutcome::Buffered
                    },
                }
            },
        }
    }

    /// The sink confirmed the batch in flight: count its records as
    /// durably inserted and return to reading.
    pub fn confirm_inserted(&mut self)
        requires
            old(self).wf(),
            old(self).flushing(),
        ensures
            final(self).wf(),
            !final(self).flushing(),
            final(self).cap() == old(self).cap(),
            final(self).row_limit() == old(self).row_limit(),
            final(self).finished() == old(self).finished(),
            final(self).reads() == old(self).reads(),
            final(self).buffered() == old(self).buffered(),
            final(self).hist().valid == old(self).hist().valid,
            final(self).hist().errors == old(self).hist().errors,
            final(self).hist().sent == old(self).hist().sent,
            final(self).hist().confirmed == old(self).hist().confirmed + 1,
            final(self).inserts() == old(self).inserts() + old(self).hist().sent.last().len(),
    {
        proof {
            let m = self.model@;
            let c = m.confirmed;
            assert(m.sent.take(c + 1) =~= m.sent.take(c).push(m.sent.last()));
            m.sent.take(c).lemma_flatten_push(m.sent.last());
            assert(m.sent.take(c + 1) =~= m.sent);
            assert(m.sent =~= m.sent.take(c).push(m.sent.last()));
            assert(m.sent.flatten().len() == self.inserts() + m.sent.last().len());
            assert(m.valid.len() == m.sent.flatten().len() + self.buffered().len());
            self.model = Ghost(RunModel { confirmed: c + 1, ..m });
        }
        let n = match self.pending {
            Some(n) => n,
            None => 0,  // unreachable: a batch is in flight
        };
        self.total_inserted = self.total_inserted + n;
        self.pending = None;
    }

    /// End of input: flush the buffer. A non-empty buffer comes back as
    /// the final short batch, which the caller must insert and confirm.
    pub fn finish(&mut self) -> (out: Option<Vec<LogRecord>>)
        requires
            old(self).wf(),
            !old(self).flushing(),
            !old(self).finished(),
        ensures
            final(self).wf(),
            final(self).finished(),
            final(self).cap() == old(self).cap(),
            final(self).row_limit() == old(self).row_limit(),
            final(self).reads() == old(self).reads(),
            final(self).inserts() == old(self).inserts(),
            final(self).hist().valid == old(self).hist().valid,
            final(self).hist().errors == old(self).hist().errors,
            final(self).hist().confirmed == old(self).hist().confirmed,
            final(self).buffered() == Seq::<LogRecordView>::empty(),
            old(self).buffered().len() == 0 ==> {
                &&& out is None
                &&& final(self).hist().sent == old(self).hist().sent
                &&& !final(self).flushing()
            },
            old(self).buffered().len() > 0 ==> {
                &&& out matches Some(b) && recs_view(b@) == old(self).buffered()
                &&& final(self).hist().sent == old(self).hist().sent.push(old(self).buffered())
                &&& final(self).flushing()
            },
    {
        let ghost prior = *self;
        self.done = true;
        match self.acc.take_rest() {
            None => None,
            Some(b) => {
                proof {
                    let m = self.model@;
                    self.model = Ghost(RunModel { sent: m.sent.push(recs_view(b@)), ..m });
                }
                self.pending = Some(b.len());
                proof {
                    let osent = prior.hist().sent;
                    osent.lemma_flatten_push(recs_view(b@));
                    assert(self.hist().valid =~= self.hist().sent.flatten() + self.buffered());
                    assert(self.hist().sent.take(self.hist().confirmed) =~= osent.take(
                        prior.hist().confirmed,
                    ));
                }
                Some(b)
            },
        }
    }

    /// Lines consumed so far, valid or not.
    pub fn total_read(&self) -> (r: usize)
        ensures
            r == self.reads(),
    {
        self.total_read
    }

    /// Records durably inserted so far.
    pub fn total_inserted(&self) -> (r: usize)
        ensures
            r == self.inserts(),
    {
        self.total_inserted
    }

    /// The run counters, as one value.
    pub fn summary(&self) -> (r: RunSummary)
        ensures
            r.total_read == self.reads(),
            r.total_inserted == self.inserts(),
    {
        RunSummary { total_read: self.total_read, total_inserted: self.total_inserted }
    }
}


/// The length of a flattened run of batches in which every batch but
/// possibly the last holds exactly `b` records.
proof fn lemma_flatten_len_shape(s: Seq<Seq<LogRecordView>>, b: int)
    requires
        b >= 1,
        forall|i: int| 0 <= i < s.len() - 1 ==> (#[trigger] s[i]).len() == b,
        s.len() > 0 ==> 1 <= s.last().len() <= b,
    ensures
        s.len() == 0 ==> s.flatten().len() == 0,
        s.len() > 0 ==> s.flatten().len() == (s.len() - 1) * b + s.last().len(),
    decreases s.len(),
{
    if s.len() == 0 {
    } else if s.len() == 1 {
        s.lemma_flatten_one_element();
        assert(s.flatten() == s.first());
        assert(s.flatten().len() == (s.len() - 1) * b + s.last().len());
    } else {
        let d = s.drop_last();
        assert(forall|i: int| 0 <= i < d.len() ==> d[i] == s[i]);
        assert(d.last() == s[s.len() - 2]);
        assert(s[s.len() - 2].len() == b);
        lemma_flatten_len_shape(d, b);
        d.lemma_flatten_push(s.last());
        assert(d.push(s.last()) =~= s);
        assert(s.flatten().len() == d.flatten().len() + s.last().len());
        assert(d.flatten().len() == (s.len() - 2) * b + b);
        assert((s.len() - 2) * b + b == (s.len() - 1) * b) by (nonlinear_arith);
        assert(s.flatten().len() == (s.len() - 1) * b + s.last().len());
    }
}

/// Law of the counters: every consumed line was either a valid record
/// or a parse error, so `totalRead` is their sum; and once the input is
/// exhausted and every batch is confirmed — a run without
/// infrastructure error — `totalInserted` is exactly the number of
/// valid records.
pub proof fn lemma_totals(p: &Pipeline)
    requires
        p.wf(),
    ensures
        p.reads() == p.hist().valid.len() + p.hist().errors,
        p.finished() && !p.flushing() ==> p.inserts() == p.hist().valid.len(),
{
    if p.finished() && !p.flushing() {
        let s = p.hist().sent;
        assert(s.take(p.hist().confirmed) =~= s);
        assert(p.hist().valid =~= s.flatten());
    }
}

/// Law of the batch shape: at the end of a run, every batch except
/// possibly the last holds exactly the configured number of records,
/// the last is non-empty and no larger, and the number of batches is
/// the number of valid records divided by the batch size, rounded up.
pub proof fn lemma_batch_shape(p: &Pipeline)
    requires
        p.wf(),
        p.finished(),
    ensures
        forall|i: int|
            0 <= i < p.hist().sent.len() - 1 ==> (#[trigger] p.hist().sent[i]).len() == p.cap(),
        p.hist().sent.len() > 0 ==> 1 <= p.hist().sent.last().len() <= p.cap(),
        p.hist().sent.len() == ceil_div(p.hist().valid.len() as int, p.cap()),
{
    let s = p.hist().sent;
    let b = p.cap();
    let n = p.hist().valid.len() as int;
    p.acc.lemma_wf();
    assert(p.hist().valid =~= s.flatten());
    lemma_flatten_len_shape(s, b);
    if s.len() == 0 {
        lemma_fundamental_div_mod_converse(b - 1, b, 0, b - 1);
    } else {
        let k = s.len() as int;
        let last = s.last().len() as int;
        assert(s.last() == s[k - 1]);
        assert(n == (k - 1) * b + last);
        assert((k - 1) * b + last + b - 1 == k * b + (last - 1)) by (nonlinear_arith);
        lemma_fundamental_div_mod_converse(n + b - 1, b, k, last - 1);
    }
}

/// Law of ordering: the batches, concatenated in the order they were
/// handed out, are exactly the leading valid records in source line
/// order; and the records of the confirmed batches are exactly the
/// first `totalInserted` of them. No record is reordered, duplicated
/// or dropped on the way to the sink.
pub proof fn lemma_order_preserved(p: &Pipeline)
    requires
        p.wf(),
    ensures
        p.hist().sent.flatten() == p.hist().valid.take(p.hist().sent.flatten().len() as int),
        p.hist().sent.take(p.hist().confirmed).flatten() == p.hist().valid.take(p.inserts()),
{
    let s = p.hist().sent;
    let c = p.hist().confirmed;
    let fl = s.flatten();
    assert(fl =~= p.hist().valid.take(fl.len() as int));
    assert(s =~= s.take(c) + s.skip(c));
    lemma_flatten_concat(s.take(c), s.skip(c));
    assert(fl == s.take(c).flatten() + s.skip(c).flatten());
    assert(s.take(c).flatten() =~= p.hist().valid.take(p.inserts()));
}

} // verus!
