//! The recording resource: fetching or deleting one recording, listing
//! recordings with optional filters.

use crate::json::{all_json_match, all_json_ok, decode_vec, FromJson, JsonNode};
use crate::request::{HttpMethod, RequestParts};
use crate::support::str_eq;
use vstd::prelude::*;
use vstd::string::StringExecFns;

verus! {

/// One recording, named by its identifier.
#[derive(Debug)]
pub struct Recording {
    pub sid: String,
}

impl Recording {
    pub fn new(sid: &str) -> (r: Recording)
        ensures
            r.sid@ == sid@,
    {
        Recording { sid: sid.to_owned() }
    }
}

/// The item path of one recording: `Recordings/{sid}.json`.
pub fn recording_path(sid: &str) -> (r: String)
    ensures
        r@ == "Recordings/"@ + sid@ + ".json"@,
{
    let mut p = "Recordings/".to_owned();
    p.append(sid);
    p.append(".json");
    p
}

/// Operations on one recording.
#[derive(Debug)]
pub struct GetRecording {
    pub recording: Recording,
}

impl GetRecording {
    /// Fetching the recording: a `GET` of its item path, no body.
    pub fn request_parts(&self) -> (r: RequestParts)
        ensures
            r.method == HttpMethod::Get,
            r.path@ == "Recordings/"@ + self.recording.sid@ + ".json"@,
            r.body is None,
    {
        RequestParts {
            method: HttpMethod::Get,
            path: recording_path(self.recording.sid.as_str()),
            body: None,
        }
    }

    /// Deleting the recording: a `DELETE` of its item path, no body.
    pub fn delete_parts(&self) -> (r: RequestParts)
        ensures
            r.method == HttpMethod::Delete,
            r.path@ == "Recordings/"@ + self.recording.sid@ + ".json"@,
            r.body is None,
    {
        RequestParts {
            method: HttpMethod::Delete,
            path: recording_path(self.recording.sid.as_str()),
            body: None,
        }
    }
}

/// The recording collection, with its filters. Filtered listings append
/// a literal, unencoded query string, as the wire format has it.
#[derive(Debug)]
pub struct Recordings;

impl Recordings {
    /// Listing every recording: a `GET` of the collection, no body.
    pub fn request_parts(&self) -> (r: RequestParts)
        ensures
            r.method == HttpMethod::Get,
            r.path@ == "Recordings.json"@,
            r.body is None,
    {
        RequestParts { method: HttpMethod::Get, path: "Recordings.json".to_owned(), body: None }
    }

    /// Listing the recordings of one call.
    pub fn for_call_parts(&self, call_sid: &str) -> (r: RequestParts)
        ensures
            r.method == HttpMethod::Get,
            r.path@ == "Recordings.json?CallSid="@ + call_sid@,
            r.body is None,
    {
        let mut p = "Recordings.json?CallSid=".to_owned();
        p.append(call_sid);
        RequestParts { method: HttpMethod::Get, path: p, body: None }
    }

    /// Listing the recordings made on one date.
    pub fn created_parts(&self, date_created: &str) -> (r: RequestParts)
        ensures
            r.method == HttpMethod::Get,
            r.path@ == "Recordings.json?DateCreated="@ + date_created@,
            r.body is None,
    {
        let mut p = "Recordings.json?DateCreated=".to_owned();
        p.append(date_created);
        RequestParts { method: HttpMethod::Get, path: p, body: None }
    }

    /// Listing the recordings made between two dates.
    pub fn range_parts(&self, before: &str, after: &str) -> (r: RequestParts)
        ensures
            r.method == HttpMethod::Get,
            r.path@ == "Recordings.json?DateCreatedBefore="@ + before@ + "&DateCreatedAfter="@
                + after@,
            r.body is None,
    {
        let mut p = "Recordings.json?DateCreatedBefore=".to_owned();
        p.append(before);
        p.append("&DateCreatedAfter=");
        p.append(after);
        RequestParts { method: HttpMethod::Get, path: p, body: None }
    }
}

/// The typed success shape of a recording listing.
#[derive(Debug, PartialEq)]
pub struct ListRecordingResp {
    pub recordings: Vec<RecordingResp>,
    pub end: usize,
    pub account_sid: String,
    pub start: usize,
    pub page: usize,
    pub page_size: usize,
}

/// The typed success shape of one recording.
#[derive(Debug, PartialEq)]
pub struct RecordingResp {
    pub account_sid: String,
    pub call_sid: String,
    pub channels: String,
    pub conference_sid: String,
    pub date_created: String,
    pub date_updated: String,
    pub end_time: String,
    pub start_time: String,
    pub price: String,
    pub price_unit: String,
    pub duration: String,
    pub encryption_details: EncryptionDetails,
    pub error_code: String,
    pub uri: String,
    pub status: RecordingStatus,
}

/// The encryption parameters of a recording.
#[derive(Debug, PartialEq)]
pub struct EncryptionDetails {
    pub encryption_public_key_sid: String,
    pub encryption_cek: String,
    pub encryption_iv: String,
}

/// The recording state the service reports.
#[derive(Clone, Copy, Debug, PartialEq, Eq, Structural)]
#[allow(non_camel_case_types)]
pub enum RecordingStatus {
    inprogress,
    paused,
    stopped,
    processing,
    completed,
    failed,
}

/// The wire name of each recording state.
pub open spec fn recording_status_of(s: Seq<char>) -> Option<RecordingStatus> {
    if s == "in-progress"@ {
        Some(RecordingStatus::inprogress)
    } else if s == "paused"@ {
        Some(RecordingStatus::paused)
    } else if s == "stopped"@ {
        Some(RecordingStatus::stopped)
    } else if s == "processing"@ {
        Some(RecordingStatus::processing)
    } else if s == "completed"@ {
        Some(RecordingStatus::completed)
    } else if s == "failed"@ {
        Some(RecordingStatus::failed)
    } else {
        None
    }
}

impl RecordingStatus {
    /// Reads a recording state from its wire name, exactly as
    /// [`recording_status_of`] describes.
    pub fn from_str(s: &str) -> (r: Option<RecordingStatus>)
        ensures
            r == recording_status_of(s@),
    {
        if str_eq(s, "in-progress") {
            Some(RecordingStatus::inprogress)
        } else if str_eq(s, "paused") {
            Some(RecordingStatus::paused)
        } else if str_eq(s, "stopped") {
            Some(RecordingStatus::stopped)
        } else if str_eq(s, "processing") {
            Some(RecordingStatus::processing)
        } else if str_eq(s, "completed") {
            Some(RecordingStatus::completed)
        } else if str_eq(s, "failed") {
            Some(RecordingStatus::failed)
        } else {
            None
        }
    }
}

impl FromJson for EncryptionDetails {
    /// The schema of the encryption parameters: three string fields.
    open spec fn json_ok(n: JsonNode) -> bool {
        &&& n.spec_get_str("encryption_public_key_sid"@) is Some
        &&& n.spec_get_str("encryption_cek"@) is Some
        &&& n.spec_get_str("encryption_iv"@) is Some
    }

    /// Every field of the decoded value is the document's field of the
    /// same name.
    open spec fn json_matches(n: JsonNode, v: EncryptionDetails) -> bool {
        &&& Some(v.encryption_public_key_sid@) == n.spec_get_str("encryption_public_key_sid"@)
        &&& Some(v.encryption_cek@) == n.spec_get_str("encryption_cek"@)
        &&& Some(v.encryption_iv@) == n.spec_get_str("encryption_iv"@)
    }

    fn from_json(n: &JsonNode) -> (r: Option<EncryptionDetails>) {
        let encryption_public_key_sid = match n.get_str("encryption_public_key_sid") {
            Some(v) => v,
            None => {
                return None;
            },
        };
        let encryption_cek = match n.get_str("encryption_cek") {
            Some(v) => v,
            None => {
                return None;
            },
        };
        let encryption_iv = match n.get_str("encryption_iv") {
            Some(v) => v,
            None => {
                return None;
            },
        };
        Some(EncryptionDetails { encryption_public_key_sid, encryption_cek, encryption_iv })
    }
}

impl FromJson for RecordingResp {
    /// The success schema of one recording: its string fields present and a recognised recording state. The nested encryption object is read field for field.
    open spec fn json_ok(n: JsonNode) -> bool {
        &&& n.spec_get_str("account_sid"@) is Some
        &&& n.spec_get_str("call_sid"@) is Some
        &&& n.spec_get_str("channels"@) is Some
        &&& n.spec_get_str("conference_sid"@) is Some
        &&& n.spec_get_str("date_created"@) is Some
        &&& n.spec_get_str("date_updated"@) is Some
        &&& n.spec_get_str("end_time"@) is Some
        &&& n.spec_get_str("start_time"@) is Some
        &&& n.spec_get_str("price"@) is Some
        &&& n.spec_get_str("price_unit"@) is Some
        &&& n.spec_get_str("duration"@) is Some
        &&& n.spec_get_str("error_code"@) is Some
        &&& n.spec_get_str("uri"@) is Some
        &&& n.spec_get_str("status"@) matches Some(s) && recording_status_of(s) is Some
        &&& n.spec_get("encryption_details"@) matches Some(sub) && EncryptionDetails::json_ok(sub)
    }

    /// Every field of the decoded value is the document's field of the same name.
    open spec fn json_matches(n: JsonNode, v: RecordingResp) -> bool {
        &&& Some(v.account_sid@) == n.spec_get_str("account_sid"@)
        &&& Some(v.call_sid@) == n.spec_get_str("call_sid"@)
        &&& Some(v.channels@) == n.spec_get_str("channels"@)
        &&& Some(v.conference_sid@) == n.spec_get_str("conference_sid"@)
        &&& Some(v.date_created@) == n.spec_get_str("date_created"@)
        &&& Some(v.date_updated@) == n.spec_get_str("date_updated"@)
        &&& Some(v.end_time@) == n.spec_get_str("end_time"@)
        &&& Some(v.start_time@) == n.spec_get_str("start_time"@)
        &&& Some(v.price@) == n.spec_get_str("price"@)
        &&& Some(v.price_unit@) == n.spec_get_str("price_unit"@)
        &&& Some(v.duration@) == n.spec_get_str("duration"@)
        &&& Some(v.error_code@) == n.spec_get_str("error_code"@)
        &&& Some(v.uri@) == n.spec_get_str("uri"@)
        &&& n.spec_get_str("status"@) matches Some(s) && recording_status_of(s) == Some(v.status)
        &&& n.spec_get("encryption_details"@) matches Some(sub) && EncryptionDetails::json_matches(
            sub,
            v.encryption_details,
        )
    }

    fn from_json(n: &JsonNode) -> (r: Option<RecordingResp>) {
        let account_sid = match n.get_str("account_sid") {
            Some(v) => v,
            None => {
                return None;
            },
        };
        let call_sid = match n.get_str("call_sid") {
            Some(v) => v,
            None => {
                return None;
            },
        };
        let channels = match n.get_str("channels") {
            Some(v) => v,
            None => {
                return None;
            },
        };
        let conference_sid = match n.get_str("conference_sid") {
            Some(v) => v,
            None => {
                return None;
            },
        };
        let date_created = match n.get_str("date_created") {
            Some(v) => v,
            None => {
                return None;
            },
        };
        let date_updated = match n.get_str("date_updated") {
            Some(v) => v,
            None => {
                return None;
            },
        };
        let end_time = match n.get_str("end_time") {
            Some(v) => v,
            None => {
                return None;
            },
        };
        let start_time = match n.get_str("start_time") {
            Some(v) => v,
            None => {
                return None;
            },
        };
        let price = match n.get_str("price") {
            Some(v) => v,
            None => {
                return None;
            },
        };
        let price_unit = match n.get_str("price_unit") {
            Some(v) => v,
            None => {
                return None;
            },
        };
        let duration = match n.get_str("duration") {
            Some(v) => v,
            None => {
                return None;
            },
        };
        let error_code = match n.get_str("error_code") {
            Some(v) => v,
            None => {
                return None;
            },
        };
        let uri = match n.get_str("uri") {
            Some(v) => v,
            None => {
                return None;
            },
        };
        let status_name = match n.get_str("status") {
            Some(v) => v,
            None => {
                return None;
            },
        };
        let status = match RecordingStatus::from_str(status_name.as_str()) {
            Some(v) => v,
            None => {
                return None;
            },
        };
        let sub = match n.get("encryption_details") {
            Some(v) => v,
            None => {
                return None;
            },
        };
        let encryption_details = match EncryptionDetails::from_json(sub) {
            Some(v) => v,
            None => {
                return None;
            },
        };
        Some(
            RecordingResp {
                account_sid,
                call_sid,
                channels,
                conference_sid,
                date_created,
                date_updated,
                end_time,
                start_time,
                price,
                price_unit,
                duration,
                error_code,
                uri,
                status,
                encryption_details,
            },
        )
    }
}

impl FromJson for ListRecordingResp {
    /// The success schema of a recording listing: an array of recording documents and non-negative paging fields.
    open spec fn json_ok(n: JsonNode) -> bool {
        &&& n.spec_get_arr("recordings"@) matches Some(items) && all_json_ok::<RecordingResp>(items)
        &&& n.spec_get_int("end"@) matches Some(v) && 0 <= v <= usize::MAX
        &&& n.spec_get_str("account_sid"@) is Some
        &&& n.spec_get_int("start"@) matches Some(v) && 0 <= v <= usize::MAX
        &&& n.spec_get_int("page"@) matches Some(v) && 0 <= v <= usize::MAX
        &&& n.spec_get_int("page_size"@) matches Some(v) && 0 <= v <= usize::MAX
    }

    /// The decoded listing holds one decoded recording per array element, in order, and the paging fields as the document gives them.
    open spec fn json_matches(n: JsonNode, v: ListRecordingResp) -> bool {
        &&& n.spec_get_arr("recordings"@) matches Some(items) && all_json_match(items, v.recordings@)
        &&& Some(v.end as i64) == n.spec_get_int("end"@)
        &&& Some(v.account_sid@) == n.spec_get_str("account_sid"@)
        &&& Some(v.start as i64) == n.spec_get_int("start"@)
        &&& Some(v.page as i64) == n.spec_get_int("page"@)
        &&& Some(v.page_size as i64) == n.spec_get_int("page_size"@)
    }

    fn from_json(n: &JsonNode) -> (r: Option<ListRecordingResp>) {
        let items = match n.get_arr("recordings") {
            Some(v) => v,
            None => {
                return None;
            },
        };
        let recordings = match decode_vec::<RecordingResp>(items) {
            Some(v) => v,
            None => {
                return None;
            },
        };
        let end = match n.get_int("end") {
            Some(v) => match usize::try_from(v) {
                Ok(u) => u,
                Err(_) => {
                    return None;
                },
            },
            None => {
                return None;
            },
        };
        let account_sid = match n.get_str("account_sid") {
            Some(v) => v,
            None => {
                return None;
            },
        };
        let start = match n.get_int("start") {
            Some(v) => match usize::try_from(v) {
                Ok(u) => u,
                Err(_) => {
                    return None;
                },
            },
            None => {
                return None;
            },
        };
        let page = match n.get_int("page") {
            Some(v) => match usize::try_from(v) {
                Ok(u) => u,
                Err(_) => {
                    return None;
                },
            },
            None => {
                return None;
            },
        };
        let page_size = match n.get_int("page_size") {
            Some(v) => match usize::try_from(v) {
                Ok(u) => u,
                Err(_) => {
                    return None;
                },
            },
            None => {
                return None;
            },
        };
        Some(
            ListRecordingResp {
                recordings,
                end,
                account_sid,
                start,
                page,
                page_size,
            },
        )
    }
}

} // verus!
