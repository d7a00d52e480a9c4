//! Records of client driver logs (JDBC and the DM .NET provider) as log records.
use crate::exporter::record::LogRecord;
use crate::text::{decimal, decimal_text};
use vstd::prelude::*;

verus! {

/// The fields of a driver log event that a record is made from. The execution time is
/// given as whole milliseconds and whether it was above zero.
pub struct DriverEvent {
    pub event_time_text: String,
    pub category: String,
    pub tid: Option<i32>,
    pub method: String,
    pub raw: String,
    pub sql: Option<String>,
    pub exec_id: Option<i64>,
    pub exec_time_ms: i64,
    pub exec_time_positive: bool,
    /// JDBC: the session id in hexadecimal.
    pub session_id_hex: Option<String>,
    /// Provider: the numeric session id.
    pub session_id: Option<i64>,
    /// Provider: the object id.
    pub object_id: Option<String>,
    pub conn_id: Option<i32>,
}

/// The decimal text of an optional number, or nothing.
pub open spec fn opt_decimal(n: Option<int>) -> Seq<char> {
    match n {
        Some(v) => decimal(v),
        None => Seq::empty(),
    }
}

/// The parts of a record that both driver formats fill the same way: the timestamp,
/// the category as tag, endpoint 0, the thread id, no user, the execution id (0 when
/// absent) as transaction id, the method as statement, no client address, no row count.
pub open spec fn driver_common(e: DriverEvent, r: LogRecord) -> bool {
    &&& r.ts@ == e.event_time_text@
    &&& r.tag matches Some(t) && t@ == e.category@
    &&& r.ep == 0
    &&& r.thrd_id@ == opt_decimal(match e.tid { Some(t) => Some(t as int), None => None })
    &&& r.username@ == Seq::<char>::empty()
    &&& r.trxid@ == decimal(match e.exec_id { Some(x) => x as int, None => 0 })
    &&& r.statement@ == e.method@
    &&& r.client_ip@ == Seq::<char>::empty()
    &&& r.exec_time_ms == e.exec_time_ms
    &&& r.exec_time_positive == e.exec_time_positive
    &&& r.rowcount == 0
    &&& r.exec_id == (match e.exec_id { Some(x) => x, None => 0 })
}

fn decimal_of(n: i64) -> (s: String)
    ensures
        s@ == decimal(n as int),
{
    decimal_text(n as i128)
}

fn common_record(e: &DriverEvent, sess_id: String, appname: String, sql: String) -> (r: LogRecord)
    ensures
        driver_common(*e, r),
        r.sess_id == sess_id,
        r.appname == appname,
        r.sql == sql,
{
    let exec_id: i64 = match e.exec_id {
        Some(x) => x,
        None => 0,
    };
    let thrd_id = match e.tid {
        Some(t) => decimal_of(t as i64),
        None => String::new(),
    };
    LogRecord {
        ts: e.event_time_text.clone(),
        ep: 0,
        sess_id,
        thrd_id,
        username: String::new(),
        trxid: decimal_of(exec_id),
        statement: e.method.clone(),
        appname,
        client_ip: String::new(),
        tag: Some(e.category.clone()),
        sql,
        exec_time_ms: e.exec_time_ms,
        exec_time_positive: e.exec_time_positive,
        rowcount: 0,
        exec_id,
    }
}

/// The record of a JDBC driver event: the session is the hexadecimal session id, or
/// else the connection id, or empty; the application is `dm-jdbc`; the SQL is the raw
/// line.
pub fn jdbc_record(e: &DriverEvent) -> (r: LogRecord)
    ensures
        driver_common(*e, r),
        r.sess_id@ == (match e.session_id_hex {
            Some(h) => h@,
            None => opt_decimal(match e.conn_id { Some(c) => Some(c as int), None => None }),
        }),
        r.appname@ == "dm-jdbc"@,
        r.sql@ == e.raw@,
{
    let sess = match &e.session_id_hex {
        Some(h) => h.clone(),
        None => match e.conn_id {
            Some(c) => decimal_of(c as i64),
            None => String::new(),
        },
    };
    common_record(e, sess, "dm-jdbc".to_owned(), e.raw.clone())
}

/// The record of a DM provider event: the session is the numeric session id, or else
/// the object id, or else the connection id, or empty; the application is
/// `dm-provider`; the SQL is the event's SQL, or else the raw line.
pub fn provider_record(e: &DriverEvent) -> (r: LogRecord)
    ensures
        driver_common(*e, r),
        r.sess_id@ == (match e.session_id {
            Some(s) => decimal(s as int),
            None => match e.object_id {
                Some(o) => o@,
                None => opt_decimal(match e.conn_id { Some(c) => Some(c as int), None => None }),
            },
        }),
        r.appname@ == "dm-provider"@,
        r.sql@ == (match e.sql { Some(q) => q@, None => e.raw@ }),
{
    let sess = match e.session_id {
        Some(s) => decimal_of(s),
        None => match &e.object_id {
            Some(o) => o.clone(),
            None => match e.conn_id {
                Some(c) => decimal_of(c as i64),
                None => String::new(),
            },
        },
    };
    let sql = match &e.sql {
        Some(q) => q.clone(),
        None => e.raw.clone(),
    };
    common_record(e, sess, "dm-provider".to_owned(), sql)
}

} // verus!
