//! The record type that one line of input decodes into, and its
//! mathematical view.

use vstd::prelude::*;

verus! {

/// One ingested log record: the four columns of the destination table
/// that the loader itself fills.
pub struct LogRecord {
    pub timestamp: i64,
    pub severity_text: String,
    pub body: String,
    pub tenant_id: i32,
}

/// The mathematical view of a record: unbounded integers and character
/// sequences, so that contracts need no machine types.
pub ghost struct LogRecordView {
    pub timestamp: int,
    pub severity_text: Seq<char>,
    pub body: Seq<char>,
    pub tenant_id: int,
}

impl View for LogRecord {
    type V = LogRecordView;

    open spec fn view(&self) -> LogRecordView {
        LogRecordView {
            timestamp: self.timestamp as int,
            severity_text: self.severity_text@,
            body: self.body@,
            tenant_id: self.tenant_id as int,
        }
    }
}

/// The views of a sequence of records, in order.
pub open spec fn recs_view(s: Seq<LogRecord>) -> Seq<LogRecordView> {
    s.map_values(|r: LogRecord| r@)
}

} // verus!
