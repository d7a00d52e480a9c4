//! The library's view of one parsed log record.
use vstd::prelude::*;

verus! {

/// One parsed SQL log record, as the exporters read it. The execution time is held as
/// whole milliseconds (rounded and saturated from the parser's float), together with
/// whether the parser's value was above zero.
pub struct LogRecord {
    pub ts: String,
    pub ep: u8,
    pub sess_id: String,
    pub thrd_id: String,
    pub username: String,
    pub trxid: String,
    pub statement: String,
    pub appname: String,
    pub client_ip: String,
    pub tag: Option<String>,
    pub sql: String,
    pub exec_time_ms: i64,
    pub exec_time_positive: bool,
    pub rowcount: u32,
    pub exec_id: i64,
}

impl LogRecord {
    /// The record carries performance figures: an execution id, a positive execution
    /// time or a row count.
    pub open spec fn has_metrics(&self) -> bool {
        self.exec_id != 0 || self.exec_time_positive || self.rowcount != 0
    }
}

} // verus!
