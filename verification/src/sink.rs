//! The batch sink's verified half: the text of the multi-row insert
//! statement and the positional parameter tuples, one per record in
//! batch order. Issuing the statement over a connection is the
//! caller's side of the boundary.

use vstd::prelude::*;

use crate::record::{LogRecord, LogRecordView};

verus! {

/// The parameterized insert statement for the destination table:
/// one `(?, ?, ?, ?)` tuple is bound per record.
pub open spec fn insert_sql_spec(table: Seq<char>) -> Seq<char> {
    "INSERT INTO "@ + table + " (timestamp, severity_text, body, tenant_id) VALUES (?, ?, ?, ?)"@
}

/// Build the insert statement for the given table name.
pub fn insert_sql(table: &str) -> (r: String)
    ensures
        r@ == insert_sql_spec(table@),
{
    String::from_str("INSERT INTO ").concat(table).concat(
        " (timestamp, severity_text, body, tenant_id) VALUES (?, ?, ?, ?)",
    )
}

/// One record's four fields, in the statement's positional order.
pub open spec fn param_view(p: (i64, String, String, i32)) -> LogRecordView {
    LogRecordView {
        timestamp: p.0 as int,
        severity_text: p.1@,
        body: p.2@,
        tenant_id: p.3 as int,
    }
}

/// The parameter tuples of a batch: each record's (timestamp,
/// severity_text, body, tenant_id), in batch order.
pub fn batch_params(batch: &Vec<LogRecord>) -> (r: Vec<(i64, String, String, i32)>)
    ensures
        r@.len() == batch@.len(),
        forall|i: int| 0 <= i < batch@.len() ==> param_view(#[trigger] r@[i]) == batch@[i]@,
{
    let mut r: Vec<(i64, String, String, i32)> = Vec::new();
    let mut i: usize = 0;
    while i < batch.len()
        invariant
            i <= batch@.len(),
            r@.len() == i,
            forall|j: int| 0 <= j < i ==> param_view(#[trigger] r@[j]) == batch@[j]@,
        decreases batch@.len() - i,
    {
        let rec = &batch[i];
        r.push((rec.timestamp, rec.severity_text.clone(), rec.body.clone(), rec.tenant_id));
        i = i + 1;
    }
    r
}

} // verus!
