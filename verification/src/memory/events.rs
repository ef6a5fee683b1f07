//! The event log: an append-only record of every dispatch and every write.

use crate::bus::EventDraft;
use crate::json::{json_text, json_value, members_of, parse_json, print_json, Json, JsonV, Member,
    MemberV};
use crate::memory::requests::{param_views, Datum, DatumV, Param, Query, QueryV, RECORD_EVENT};
use crate::session::fresh_id;
use crate::text::{chars_of, copy_str, push_signed_decimal, push_str, signed_decimal, string_of};
use vstd::prelude::*;

verus! {

/// The version under which events are written.
pub const EVENT_VERSION: i64 = 1;

/// One entry of the event log.
#[derive(Debug, Clone, PartialEq)]
pub struct EventRecord {
    pub id: String,
    pub op: String,
    pub data: Json,
    pub timestamp_ms: i64,
    pub version: i64,
}

/// `chrono::Utc::now` and `DateTime::timestamp_millis`: the milliseconds
/// since the epoch by the system's clock. Nothing holds of every outcome.
/// `Utc::now` panics where the system's clock reads a time before 1970.
#[verifier::external_body]
pub(crate) fn now_millis() -> (now: i64) {
    chrono::Utc::now().timestamp_millis()
}

/// `chrono::Utc::now` and `DateTime::timestamp`: the seconds since the
/// epoch by the system's clock. Nothing holds of every outcome.
/// `Utc::now` panics where the system's clock reads a time before 1970.
#[verifier::external_body]
pub(crate) fn now_seconds() -> (now: i64) {
    chrono::Utc::now().timestamp()
}

/// The seconds since the epoch, for the rows that carry the time at which
/// they were written.
pub fn current_time() -> (now: i64) {
    now_seconds()
}

/// The time that an event gets when the clock reads `now` and the event
/// before it got `last`: the clock's time if that is later, else the next
/// millisecond.
pub open spec fn next_stamp(last: Option<i64>, now: i64) -> i64 {
    match last {
        Some(t) => if now > t {
            now
        } else if t < i64::MAX {
            (t + 1) as i64
        } else {
            i64::MAX
        },
        None => now,
    }
}

/// The writer of the event log of one process. It stamps each event later
/// than the one before, so that the log is strictly increasing in time.
pub struct EventLog {
    last: Option<i64>,
}

impl EventLog {
    /// The time of the event written last, if one was written.
    pub closed spec fn last(&self) -> Option<i64> {
        self.last
    }

    /// A log in which nothing was written yet.
    pub fn new() -> (log: Self)
        ensures
            log.last() is None,
    {
        EventLog { last: None }
    }

    /// The record of an event at the clock time `now`, under the given id.
    pub fn stamp(&mut self, id: String, draft: EventDraft, now: i64) -> (out: EventRecord)
        ensures
            out.id == id,
            out.op == draft.op,
            out.data == draft.data,
            out.version == EVENT_VERSION,
            out.timestamp_ms == next_stamp(old(self).last(), now),
            final(self).last() == Some(out.timestamp_ms),
            old(self).last() matches Some(t) ==> (t < i64::MAX ==> out.timestamp_ms > t),
    {
        let at = match self.last {
            Some(t) => if now > t {
                now
            } else if t < i64::MAX {
                t + 1
            } else {
                i64::MAX
            },
            None => now,
        };
        self.last = Some(at);
        EventRecord { id, op: draft.op, data: draft.data, timestamp_ms: at, version: EVENT_VERSION }
    }

    /// Records an event now: under a fresh id, at the time of the system's
    /// clock or just after the event before.
    pub fn record_event(&mut self, op: &str, data: Json) -> (out: EventRecord)
        ensures
            out.id@.len() == 36,
            out.op@ == op@,
            out.data == data,
            out.version == EVENT_VERSION,
            exists|now: i64| out.timestamp_ms == next_stamp(old(self).last(), now),
            final(self).last() == Some(out.timestamp_ms),
            old(self).last() matches Some(t) ==> (t < i64::MAX ==> out.timestamp_ms > t),
    {
        let now = now_millis();
        let out = self.stamp(fresh_id(), EventDraft { op: copy_str(op), data }, now);
        assert(out.timestamp_ms == next_stamp(old(self).last(), now));
        out
    }
}

/// The request that appends a record to the event log. Nothing in the
/// library changes or removes an entry of that log.
pub fn append_query(record: &EventRecord) -> (out: Query)
    ensures
        out@ == (QueryV {
            script: RECORD_EVENT@,
            params: seq![
                ("id"@, DatumV::Text(record.id@)),
                ("op"@, DatumV::Text(record.op@)),
                ("data"@, DatumV::Json(record.data@)),
                ("timestamp"@, DatumV::Int(record.timestamp_ms)),
                ("version"@, DatumV::Int(record.version)),
            ],
            mutable: true,
        }),
{
    let mut params: Vec<Param> = Vec::new();
    params.push(Param { name: copy_str("id"), value: Datum::Text(record.id.clone()) });
    params.push(Param { name: copy_str("op"), value: Datum::Text(record.op.clone()) });
    params.push(Param { name: copy_str("data"), value: Datum::Json(record.data.duplicate()) });
    params.push(Param { name: copy_str("timestamp"), value: Datum::Int(record.timestamp_ms) });
    params.push(Param { name: copy_str("version"), value: Datum::Int(record.version) });
    assert(param_views(params@) =~= seq![
        ("id"@, DatumV::Text(record.id@)),
        ("op"@, DatumV::Text(record.op@)),
        ("data"@, DatumV::Json(record.data@)),
        ("timestamp"@, DatumV::Int(record.timestamp_ms)),
        ("version"@, DatumV::Int(record.version)),
    ]);
    Query { script: copy_str(RECORD_EVENT), params, mutable: true }
}


/// Why a fact cannot be queued.
#[derive(Debug, Clone, Copy, PartialEq, Eq)]
pub enum FactError {
    /// The data of the fact is no JSON document.
    InvalidJson,
}

/// A fact for the supervisor: the file it is queued in and the text of the
/// file.
#[derive(Debug, Clone, PartialEq)]
pub struct FactFile {
    pub name: String,
    pub text: String,
}

/// The JSON form of a fact: its data, its operation and the time it was
/// stated at, in milliseconds.
pub open spec fn fact_json(op: Seq<char>, data: JsonV, ts: i64) -> JsonV {
    JsonV::Object(
        seq![
            MemberV { key: "data"@, value: data },
            MemberV { key: "op"@, value: JsonV::Text(op) },
            MemberV { key: "ts"@, value: JsonV::Number(signed_decimal(ts as int)) },
        ],
    )
}

/// The text of a fact stated at the time `now`; the data must be a JSON
/// document.
pub fn fact_text(op: &str, data: &str, now: i64) -> (out: Result<String, FactError>)
    ensures
        match out {
            Ok(text) => json_value(data@) matches Some(d) && text@ == json_text(
                fact_json(op@, d, now),
            ),
            Err(e) => json_value(data@) is None && e == FactError::InvalidJson,
        },
{
    let value = match parse_json(data) {
        Some(v) => v,
        None => {
            return Err(FactError::InvalidJson);
        },
    };
    let mut ts: Vec<char> = Vec::new();
    push_signed_decimal(&mut ts, now);
    assert(ts@ =~= signed_decimal(now as int));
    let mut members: Vec<Member> = Vec::new();
    members.push(Member { key: copy_str("data"), value });
    members.push(Member { key: copy_str("op"), value: Json::text(op) });
    members.push(Member { key: copy_str("ts"), value: Json::Number(string_of(&ts)) });
    assert(members_of(members@) =~= fact_json(op@, value@, now)->Object_0);
    Ok(print_json(&Json::object(members)))
}

/// The name of the file that queues the fact with this id.
pub fn fact_file_name(id: &str) -> (out: String)
    ensures
        out@ == id@ + ".json"@,
{
    let mut buf = chars_of(id);
    push_str(&mut buf, ".json");
    string_of(&buf)
}

/// Queues a fact now: in a file named by a fresh id, stated at the time of
/// the system's clock.
pub fn queue_fact(op: &str, data: &str) -> (out: Result<FactFile, FactError>)
    ensures
        match out {
            Ok(file) => {
                &&& json_value(data@) matches Some(d) && exists|ts: i64|
                    file.text@ == json_text(fact_json(op@, d, ts))
                &&& exists|id: Seq<char>| id.len() == 36 && file.name@ == id + ".json"@
                &&& file.name@.len() == 41
            },
            Err(e) => json_value(data@) is None && e == FactError::InvalidJson,
        },
{
    let now = now_millis();
    match fact_text(op, data, now) {
        Ok(text) => {
            proof {
                reveal_strlit(".json");
            }
            let id = fresh_id();
            let name = fact_file_name(id.as_str());
            assert(id@.len() == 36 && name@ == id@ + ".json"@);
            assert(text@ == json_text(fact_json(op@, json_value(data@)->0, now)));
            Ok(FactFile { name, text })
        },
        Err(e) => Err(e),
    }
}

} // verus!
