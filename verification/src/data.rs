//! The novel metadata: its shape, the rules that decode it from the API's
//! JSON payload, and the fetch errors. The payload is a JSON array whose
//! last element is the record of interest; its first element is a
//! count-only record that is ignored.

use vstd::prelude::*;
use crate::json::payload_scan_of;
use crate::json::scan_payload;
use crate::json::PayloadScan;
use crate::text::lower_seq;
use crate::text::to_ascii_lower;

verus! {

/// The count-only record that opens the API's response array.
#[derive(Debug, PartialEq, Eq, Structural, Clone, Copy)]
pub struct Meta {
    pub count: usize,
}

/// The novel metadata: title, lowercased code, author, chapter count, and
/// the fixed-format update timestamp.
#[derive(Debug, Clone)]
pub struct Info {
    pub title: String,
    pub ncode: String,
    pub writer: String,
    pub chapter_count: usize,
    pub updated_at: String,
}

/// One element of the API's response array: a count-only record or the full
/// metadata record.
#[derive(Debug, Clone)]
pub enum NovelInfo {
    Meta(Meta),
    Info(Info),
}

/// Why a metadata fetch failed: a non-200 status, an unreachable host, a
/// body that is not valid JSON, or a payload that does not describe a
/// novel.
#[derive(Debug, PartialEq, Eq, Structural, Clone, Copy)]
pub enum FetchError {
    Status(u16),
    Unreachable,
    InvalidJson,
    NotFound,
}

/// A decoded metadata record is well-formed: the code is at most ten
/// characters, all lowercase, and the timestamp fits its fixed format
/// length.
pub open spec fn info_wf(i: Info) -> bool {
    &&& i.ncode@.len() <= 10
    &&& i.ncode@ == lower_seq(i.ncode@)
    &&& i.updated_at@.len() <= 19
}

/// Checks the metadata status line: only a 200 answer carries the payload,
/// anything else is fatal with that status.
pub fn metadata_status_check(status: u16) -> (r: Result<(), FetchError>)
    ensures
        status == 200 <==> r is Ok,
        status != 200 ==> r == Result::<(), FetchError>::Err(FetchError::Status(status)),
{
    if status == 200 {
        Ok(())
    } else {
        Err(FetchError::Status(status))
    }
}

/// Whether the looked-up fields read as the count-only record.
pub open spec fn counts_as_meta(allcount: Option<u64>) -> bool {
    allcount matches Some(c) && c <= usize::MAX
}

/// Whether the looked-up fields read as the full metadata record: every
/// field present with the right kind, the code within ten characters and
/// the timestamp within its format length.
pub open spec fn counts_as_info(
    title: Option<String>,
    ncode: Option<String>,
    writer: Option<String>,
    chapter_count: Option<u64>,
    updated_at: Option<String>,
) -> bool {
    &&& title is Some
    &&& ncode is Some
    &&& writer is Some
    &&& chapter_count matches Some(c) && c <= usize::MAX
    &&& updated_at is Some
    &&& ncode.unwrap()@.len() <= 10
    &&& updated_at.unwrap()@.len() <= 19
}

/// Classifies one element of the response array from its looked-up fields.
/// A record with a chapter total under `allcount` is the count-only
/// record; otherwise a record with every metadata field of the right kind,
/// the code within ten characters and the timestamp within its format
/// length, is the full record, with the code lowercased on the way in.
/// Anything else is no novel record at all.
pub fn info_from_fields(
    title: Option<String>,
    ncode: Option<String>,
    writer: Option<String>,
    chapter_count: Option<u64>,
    updated_at: Option<String>,
    allcount: Option<u64>,
) -> (r: Option<NovelInfo>)
    ensures
        counts_as_meta(allcount) <==> (r matches Some(n) && n is Meta),
        r matches Some(NovelInfo::Meta(m)) ==> m.count == allcount.unwrap(),
        !counts_as_meta(allcount) ==> (counts_as_info(title, ncode, writer, chapter_count,
        updated_at) <==> (r matches Some(n) && n is Info)),
        r matches Some(NovelInfo::Info(i)) ==> {
            &&& i.title@ == title.unwrap()@
            &&& i.ncode@ == lower_seq(ncode.unwrap()@)
            &&& i.writer@ == writer.unwrap()@
            &&& i.chapter_count == chapter_count.unwrap()
            &&& i.updated_at@ == updated_at.unwrap()@
            &&& info_wf(i)
        },
{
    if let Some(c) = allcount {
        if c <= usize::MAX as u64 {
            return Some(NovelInfo::Meta(Meta { count: c as usize }));
        }
    }
    let (title, ncode, writer, count, updated_at) = match (
        title,
        ncode,
        writer,
        chapter_count,
        updated_at,
    ) {
        (Some(t), Some(n), Some(w), Some(c), Some(u)) => (t, n, w, c, u),
        _ => {
            return None;
        },
    };
    if count > usize::MAX as u64 {
        return None;
    }
    if ncode.as_str().unicode_len() > 10 || updated_at.as_str().unicode_len() > 19 {
        return None;
    }
    let lowered = to_ascii_lower(ncode.as_str());
    proof {
        assert(lower_seq(lower_seq(ncode@)) =~= lower_seq(ncode@));
    }
    Some(
        NovelInfo::Info(
            Info {
                title,
                ncode: lowered,
                writer,
                chapter_count: count as usize,
                updated_at,
            },
        ),
    )
}

/// Decodes the metadata API's response body. A body that does not scan as
/// a JSON array is invalid; an empty array, a count-only last element, or
/// a last element short of the full record means the novel was not found;
/// the full record decodes with its code lowercased. A decoded record is
/// well-formed.
pub fn parse_novel_response(body: &str) -> (r: Result<Info, FetchError>)
    ensures
        r matches Ok(i) ==> info_wf(i),
        r matches Err(e) ==> (e == FetchError::InvalidJson || e == FetchError::NotFound),
        r == Result::<Info, FetchError>::Err(FetchError::InvalidJson) <==> payload_scan_of(body@)
            is NotJsonArray,
        payload_scan_of(body@) is Empty ==> r == Result::<Info, FetchError>::Err(
            FetchError::NotFound,
        ),
        payload_scan_of(body@) matches PayloadScan::LastFields {
            title,
            ncode,
            writer,
            general_all_no,
            novelupdated_at,
            allcount,
        } ==> {
            if counts_as_meta(allcount) {
                r == Result::<Info, FetchError>::Err(FetchError::NotFound)
            } else if counts_as_info(title, ncode, writer, general_all_no, novelupdated_at) {
                r matches Ok(i) && i.title@ == title.unwrap()@ && i.ncode@ == lower_seq(
                    ncode.unwrap()@,
                ) && i.writer@ == writer.unwrap()@ && i.chapter_count == general_all_no.unwrap()
                    && i.updated_at@ == novelupdated_at.unwrap()@
            } else {
                r == Result::<Info, FetchError>::Err(FetchError::NotFound)
            }
        },
{
    match scan_payload(body) {
        PayloadScan::NotJsonArray => Err(FetchError::InvalidJson),
        PayloadScan::Empty => Err(FetchError::NotFound),
        PayloadScan::LastFields {
            title,
            ncode,
            writer,
            general_all_no,
            novelupdated_at,
            allcount,
        } => match info_from_fields(
            title,
            ncode,
            writer,
            general_all_no,
            novelupdated_at,
            allcount,
        ) {
            Some(NovelInfo::Info(i)) => Ok(i),
            _ => Err(FetchError::NotFound),
        },
    }
}

} // verus!
