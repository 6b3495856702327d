//! Trusted doorway to serde_json. One scan reads the response body's
//! structure — array shape and the looked-up fields of its last element —
//! into plain values; the verified metadata decoding works on what comes
//! back, and the scan's result carries a name so that contracts can speak
//! of it.

use vstd::prelude::*;
use serde_json::Value;
use self::PayloadScan::Empty;
use self::PayloadScan::LastFields;
use self::PayloadScan::NotJsonArray;

verus! {

/// What a structural scan of the API's response body finds: not a JSON
/// array at all, an array with no elements, or the looked-up metadata
/// fields of the array's last element, each present when the element is an
/// object holding it with the right kind.
pub enum PayloadScan {
    NotJsonArray,
    Empty,
    LastFields {
        title: Option<String>,
        ncode: Option<String>,
        writer: Option<String>,
        general_all_no: Option<u64>,
        novelupdated_at: Option<String>,
        allcount: Option<u64>,
    },
}

/// What serde_json finds in `body`: the array shape and the last element's
/// metadata fields. A function of the body text alone.
pub uninterp spec fn payload_scan_of(body: Seq<char>) -> PayloadScan;

/// Relies on serde_json::from_str::<Value>, Value::as_array, Value::get,
/// Value::as_str and Value::as_u64: parses `body` whole and looks up the
/// metadata fields of the array's last element.
#[verifier::external_body]
pub(crate) fn scan_payload(body: &str) -> (r: PayloadScan)
    ensures
        r == payload_scan_of(body@),
{
    let root: Value = match serde_json::from_str(body) { Ok(v) => v, Err(_) => return NotJsonArray };
    let arr = match root.as_array() { Some(a) => a, None => return NotJsonArray };
    let last = match arr.last() { Some(l) => l, None => return Empty };
    LastFields {
        title: last.get("title").and_then(Value::as_str).map(str::to_owned),
        ncode: last.get("ncode").and_then(Value::as_str).map(str::to_owned),
        writer: last.get("writer").and_then(Value::as_str).map(str::to_owned),
        general_all_no: last.get("general_all_no").and_then(Value::as_u64),
        novelupdated_at: last.get("novelupdated_at").and_then(Value::as_str).map(str::to_owned),
        allcount: last.get("allcount").and_then(Value::as_u64),
    }
}

} // verus!
