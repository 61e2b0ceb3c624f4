//! The conference resource: fetching one conference, ending it, listing
//! all of them.

use crate::encode::{encode_pairs, form_encoded_str};
use crate::json::{all_json_match, all_json_ok, decode_vec, opt_str_view, FromJson, JsonNode};
use crate::request::{HttpMethod, RequestParts};
use vstd::prelude::*;
use vstd::string::StringExecFns;

verus! {

/// One conference, named by its identifier, with the status update an
/// operation may carry.
#[derive(Debug)]
pub struct Conference {
    pub sid: String,
    pub status: Option<String>,
}

impl Conference {
    pub fn new(sid: &str) -> (r: Conference)
        ensures
            r.sid@ == sid@,
            r.status is None,
    {
        Conference { sid: sid.to_owned(), status: None }
    }
}

/// The item path of one conference: `Conferences/{sid}.json`.
pub fn conference_path(sid: &str) -> (r: String)
    ensures
        r@ == "Conferences/"@ + sid@ + ".json"@,
{
    let mut p = "Conferences/".to_owned();
    p.append(sid);
    p.append(".json");
    p
}

/// Fetches one conference, or ends it once [`GetConference::end`] was
/// called.
#[derive(Debug)]
pub struct GetConference {
    pub conference: Conference,
}

impl GetConference {
    /// Marks the conference to be ended: the next request posts the
    /// completed status instead of fetching.
    pub fn end(self) -> (r: GetConference)
        ensures
            r.conference.sid == self.conference.sid,
            r.conference.status matches Some(s) && s@ == "completed"@,
    {
        GetConference {
            conference: Conference { status: Some("completed".to_owned()), ..self.conference },
        }
    }

    /// Without a status update: a `GET` of the item path, no body. With
    /// one: a `POST` to the same path whose body carries exactly the
    /// status pair.
    pub fn request_parts(&self) -> (r: RequestParts)
        ensures
            r.path@ == "Conferences/"@ + self.conference.sid@ + ".json"@,
            self.conference.status matches Some(s) ==> r.method == HttpMethod::Post && (
            r.body matches Some(b) && b@ == form_encoded_str(seq![("Status"@, s@)])),
            self.conference.status is None ==> r.method == HttpMethod::Get && r.body is None,
    {
        let path = conference_path(self.conference.sid.as_str());
        match &self.conference.status {
            Some(status) => {
                let pairs: Vec<(&str, &str)> = vec![("Status", status.as_str())];
                proof {
                    assert(pairs@.map_values(|p: (&str, &str)| (p.0@, p.1@)) =~= seq![
                        ("Status"@, status@),
                    ]);
                }
                let encoded = encode_pairs(&pairs);
                let body = if let Some(b) = encoded {
                    b
                } else {
                    String::new()
                };
                RequestParts { method: HttpMethod::Post, path, body: Some(body) }
            },
            None => RequestParts { method: HttpMethod::Get, path, body: None },
        }
    }
}

/// The conference collection.
#[derive(Debug)]
pub struct Conferences;

impl Conferences {
    /// Listing every conference: a `GET` of the collection, no body.
    pub fn request_parts(&self) -> (r: RequestParts)
        ensures
            r.method == HttpMethod::Get,
            r.path@ == "Conferences.json"@,
            r.body is None,
    {
        RequestParts { method: HttpMethod::Get, path: "Conferences.json".to_owned(), body: None }
    }
}

/// The typed success shape of a conference listing.
#[derive(Debug, PartialEq)]
pub struct ListConferencesResp {
    pub conferences: Vec<ConferenceResp>,
    pub end: usize,
    pub next_page_uri: Option<String>,
    pub previous_page_uri: Option<String>,
    pub uri: String,
    pub start: usize,
    pub page: usize,
    pub page_size: usize,
}

/// The typed success shape of one conference.
#[derive(Debug, PartialEq)]
pub struct ConferenceResp {
    pub account_sid: String,
    pub date_created: Option<String>,
    pub date_updated: String,
    pub friendly_name: String,
    pub region: String,
    pub sid: String,
    pub status: String,
    pub uri: String,
}

impl FromJson for ListConferencesResp {
    /// The success schema of a conference listing: an array of
    /// conference documents and the paging fields, the page numbers
    /// non-negative.
    open spec fn json_ok(n: JsonNode) -> bool {
        &&& n.spec_get_arr("conferences"@) matches Some(items) && all_json_ok::<ConferenceResp>(
            items,
        )
        &&& n.spec_get_int("end"@) matches Some(v) && 0 <= v <= usize::MAX
        &&& n.spec_get_opt_str("next_page_uri"@) is Some
        &&& n.spec_get_opt_str("previous_page_uri"@) is Some
        &&& n.spec_get_str("uri"@) is Some
        &&& n.spec_get_int("start"@) matches Some(v) && 0 <= v <= usize::MAX
        &&& n.spec_get_int("page"@) matches Some(v) && 0 <= v <= usize::MAX
        &&& n.spec_get_int("page_size"@) matches Some(v) && 0 <= v <= usize::MAX
    }

    /// The decoded listing holds one decoded conference per array
    /// element, in order, and the paging fields as the document gives
    /// them.
    open spec fn json_matches(n: JsonNode, v: ListConferencesResp) -> bool {
        &&& n.spec_get_arr("conferences"@) matches Some(items) && all_json_match(
            items,
            v.conferences@,
        )
        &&& Some(v.end as i64) == n.spec_get_int("end"@)
        &&& Some(opt_str_view(v.next_page_uri)) == n.spec_get_opt_str("next_page_uri"@)
        &&& Some(opt_str_view(v.previous_page_uri)) == n.spec_get_opt_str("previous_page_uri"@)
        &&& Some(v.uri@) == n.spec_get_str("uri"@)
        &&& Some(v.start as i64) == n.spec_get_int("start"@)
        &&& Some(v.page as i64) == n.spec_get_int("page"@)
        &&& Some(v.page_size as i64) == n.spec_get_int("page_size"@)
    }

    fn from_json(n: &JsonNode) -> (r: Option<ListConferencesResp>) {
        let items = match n.get_arr("conferences") {
            Some(v) => v,
            None => {
                return None;
            },
        };
        let conferences = match decode_vec::<ConferenceResp>(items) {
            Some(v) => v,
            None => {
                return None;
            },
        };
        let end = match n.get_int("end") {
            Some(v) => match usize::try_from(v) {
                Ok(u) => u,
                Err(_) => {
                    return None;
                },
            },
            None => {
                return None;
            },
        };
        let next_page_uri = match n.get_opt_str("next_page_uri") {
            Some(v) => v,
            None => {
                return None;
            },
        };
        let previous_page_uri = match n.get_opt_str("previous_page_uri") {
            Some(v) => v,
            None => {
                return None;
            },
        };
        let uri = match n.get_str("uri") {
            Some(v) => v,
            None => {
                return None;
            },
        };
        let start = match n.get_int("start") {
            Some(v) => match usize::try_from(v) {
                Ok(u) => u,
                Err(_) => {
                    return None;
                },
            },
            None => {
                return None;
            },
        };
        let page = match n.get_int("page") {
            Some(v) => match usize::try_from(v) {
                Ok(u) => u,
                Err(_) => {
                    return None;
                },
            },
            None => {
                return None;
            },
        };
        let page_size = match n.get_int("page_size") {
            Some(v) => match usize::try_from(v) {
                Ok(u) => u,
                Err(_) => {
                    return None;
                },
            },
            None => {
                return None;
            },
        };
        Some(
            ListConferencesResp {
                conferences,
                end,
                next_page_uri,
                previous_page_uri,
                uri,
                start,
                page,
                page_size,
            },
        )
    }
}

impl FromJson for ConferenceResp {
    /// The success schema of a conference response: string fields, with
    /// the creation date allowed to be absent or null.
    open spec fn json_ok(n: JsonNode) -> bool {
        &&& n.spec_get_str("account_sid"@) is Some
        &&& n.spec_get_opt_str("date_created"@) is Some
        &&& n.spec_get_str("date_updated"@) is Some
        &&& n.spec_get_str("friendly_name"@) is Some
        &&& n.spec_get_str("region"@) is Some
        &&& n.spec_get_str("sid"@) is Some
        &&& n.spec_get_str("status"@) is Some
        &&& n.spec_get_str("uri"@) is Some
    }

    /// Every field of the decoded value is the document's field of the
    /// same name.
    open spec fn json_matches(n: JsonNode, v: ConferenceResp) -> bool {
        &&& Some(v.account_sid@) == n.spec_get_str("account_sid"@)
        &&& Some(opt_str_view(v.date_created)) == n.spec_get_opt_str("date_created"@)
        &&& Some(v.date_updated@) == n.spec_get_str("date_updated"@)
        &&& Some(v.friendly_name@) == n.spec_get_str("friendly_name"@)
        &&& Some(v.region@) == n.spec_get_str("region"@)
        &&& Some(v.sid@) == n.spec_get_str("sid"@)
        &&& Some(v.status@) == n.spec_get_str("status"@)
        &&& Some(v.uri@) == n.spec_get_str("uri"@)
    }

    fn from_json(n: &JsonNode) -> (r: Option<ConferenceResp>) {
        let account_sid = match n.get_str("account_sid") {
            Some(v) => v,
            None => {
                return None;
            },
        };
        let date_created = match n.get_opt_str("date_created") {
            Some(v) => v,
            None => {
                return None;
            },
        };
        let date_updated = match n.get_str("date_updated") {
            Some(v) => v,
            None => {
                return None;
            },
        };
        let friendly_name = match n.get_str("friendly_name") {
            Some(v) => v,
            None => {
                return None;
            },
        };
        let region = match n.get_str("region") {
            Some(v) => v,
            None => {
                return None;
            },
        };
        let sid = match n.get_str("sid") {
            Some(v) => v,
            None => {
                return None;
            },
        };
        let status = match n.get_str("status") {
            Some(v) => v,
            None => {
                return None;
            },
        };
        let uri = match n.get_str("uri") {
            Some(v) => v,
            None => {
                return None;
            },
        };
        Some(
            ConferenceResp {
                account_sid,
                date_created,
                date_updated,
                friendly_name,
                region,
                sid,
                status,
                uri,
            },
        )
    }
}

} // verus!
