//! The message resource: sending a text, fetching or redacting one,
//! listing messages with optional date filters.

use crate::encode::{
    encode_pairs, form_encoded_str, key_count, lemma_key_count_app, lemma_key_count_one,
    naive_joined, url_encode,
};
use crate::json::{all_json_match, all_json_ok, decode_vec, opt_str_view, FromJson, JsonNode};
use crate::request::{HttpMethod, RequestParts};
use crate::support::str_eq;
use vstd::prelude::*;
use vstd::string::StringExecFns;

verus! {

/// An outgoing message: sender, recipient, text, and an optional media
/// reference that is sent only when set.
#[derive(Debug)]
pub struct Msg {
    pub from: String,
    pub to: String,
    pub body: String,
    pub media_url: Option<String>,
}

impl Msg {
    pub fn new(from: &str, to: &str, body: &str) -> (r: Msg)
        ensures
            r.from@ == from@,
            r.to@ == to@,
            r.body@ == body@,
            r.media_url is None,
    {
        Msg { from: from.to_owned(), to: to.to_owned(), body: body.to_owned(), media_url: None }
    }

    /// The body pairs: recipient, sender and text, then the media
    /// reference exactly when one is set.
    pub open spec fn spec_pairs(self) -> Seq<(Seq<char>, Seq<char>)> {
        seq![("To"@, self.to@), ("From"@, self.from@), ("Body"@, self.body@)] + (
        match self.media_url {
            Some(m) => seq![("MediaUrl"@, m@)],
            None => Seq::<(Seq<char>, Seq<char>)>::empty(),
        })
    }

    /// The form-encoded body this message sends.
    pub fn to_string(&self) -> (r: String)
        ensures
            r@ == form_encoded_str(self.spec_pairs()),
    {
        let mut pairs: Vec<(&str, &str)> = Vec::new();
        pairs.push(("To", self.to.as_str()));
        pairs.push(("From", self.from.as_str()));
        pairs.push(("Body", self.body.as_str()));
        if let Some(m) = &self.media_url {
            pairs.push(("MediaUrl", m.as_str()));
        }
        proof {
            assert(pairs@.map_values(|p: (&str, &str)| (p.0@, p.1@)) =~= self.spec_pairs());
        }
        let encoded = encode_pairs(&pairs);
        if let Some(s) = encoded {
            s
        } else {
            String::new()
        }
    }
}

/// The delivery state the service reports for a message.
#[derive(Clone, Copy, Debug, PartialEq, Eq, Structural)]
#[allow(non_camel_case_types)]
pub enum MsgStatus {
    queued,
    sending,
    sent,
    failed,
    delivered,
    undelivered,
    receiving,
    received,
}

/// The wire name of each delivery state.
pub open spec fn msg_status_of(s: Seq<char>) -> Option<MsgStatus> {
    if s == "queued"@ {
        Some(MsgStatus::queued)
    } else if s == "sending"@ {
        Some(MsgStatus::sending)
    } else if s == "sent"@ {
        Some(MsgStatus::sent)
    } else if s == "failed"@ {
        Some(MsgStatus::failed)
    } else if s == "delivered"@ {
        Some(MsgStatus::delivered)
    } else if s == "undelivered"@ {
        Some(MsgStatus::undelivered)
    } else if s == "receiving"@ {
        Some(MsgStatus::receiving)
    } else if s == "received"@ {
        Some(MsgStatus::received)
    } else {
        None
    }
}

impl MsgStatus {
    /// Reads a delivery state from its wire name, exactly as
    /// [`msg_status_of`] describes.
    pub fn from_str(s: &str) -> (r: Option<MsgStatus>)
        ensures
            r == msg_status_of(s@),
    {
        if str_eq(s, "queued") {
            Some(MsgStatus::queued)
        } else if str_eq(s, "sending") {
            Some(MsgStatus::sending)
        } else if str_eq(s, "sent") {
            Some(MsgStatus::sent)
        } else if str_eq(s, "failed") {
            Some(MsgStatus::failed)
        } else if str_eq(s, "delivered") {
            Some(MsgStatus::delivered)
        } else if str_eq(s, "undelivered") {
            Some(MsgStatus::undelivered)
        } else if str_eq(s, "receiving") {
            Some(MsgStatus::receiving)
        } else if str_eq(s, "received") {
            Some(MsgStatus::received)
        } else {
            None
        }
    }
}

/// The typed success shape of a message response.
#[derive(Debug, PartialEq)]
pub struct MsgResp {
    pub from: String,
    pub to: String,
    pub body: String,
    pub sid: String,
    pub status: MsgStatus,
    pub media_url: Option<String>,
    pub price: Option<String>,
    pub price_unit: String,
    pub uri: String,
    pub date_created: String,
    pub date_sent: Option<String>,
    pub date_updated: String,
}

impl FromJson for MsgResp {
    /// The success schema of a message response: the mandatory string
    /// fields present, a recognised delivery state, and the optional
    /// fields absent, null or strings.
    open spec fn json_ok(n: JsonNode) -> bool {
        &&& n.spec_get_str("from"@) is Some
        &&& n.spec_get_str("to"@) is Some
        &&& n.spec_get_str("body"@) is Some
        &&& n.spec_get_str("sid"@) is Some
        &&& n.spec_get_str("status"@) matches Some(s) && msg_status_of(s) is Some
        &&& n.spec_get_opt_str("media_url"@) is Some
        &&& n.spec_get_opt_str("price"@) is Some
        &&& n.spec_get_str("price_unit"@) is Some
        &&& n.spec_get_str("uri"@) is Some
        &&& n.spec_get_str("date_created"@) is Some
        &&& n.spec_get_opt_str("date_sent"@) is Some
        &&& n.spec_get_str("date_updated"@) is Some
    }

    /// Every field of the decoded value is the document's field of the
    /// same name; absent optional fields decode as nothing-there.
    open spec fn json_matches(n: JsonNode, v: MsgResp) -> bool {
        &&& Some(v.from@) == n.spec_get_str("from"@)
        &&& Some(v.to@) == n.spec_get_str("to"@)
        &&& Some(v.body@) == n.spec_get_str("body"@)
        &&& Some(v.sid@) == n.spec_get_str("sid"@)
        &&& n.spec_get_str("status"@) matches Some(s) && msg_status_of(s) == Some(v.status)
        &&& Some(opt_str_view(v.media_url)) == n.spec_get_opt_str("media_url"@)
        &&& Some(opt_str_view(v.price)) == n.spec_get_opt_str("price"@)
        &&& Some(v.price_unit@) == n.spec_get_str("price_unit"@)
        &&& Some(v.uri@) == n.spec_get_str("uri"@)
        &&& Some(v.date_created@) == n.spec_get_str("date_created"@)
        &&& Some(opt_str_view(v.date_sent)) == n.spec_get_opt_str("date_sent"@)
        &&& Some(v.date_updated@) == n.spec_get_str("date_updated"@)
    }

    fn from_json(n: &JsonNode) -> (r: Option<MsgResp>) {
        let from = match n.get_str("from") {
            Some(v) => v,
            None => {
                return None;
            },
        };
        let to = match n.get_str("to") {
            Some(v) => v,
            None => {
                return None;
            },
        };
        let body = match n.get_str("body") {
            Some(v) => v,
            None => {
                return None;
            },
        };
        let sid = match n.get_str("sid") {
            Some(v) => v,
            None => {
                return None;
            },
        };
        let status_name = match n.get_str("status") {
            Some(v) => v,
            None => {
                return None;
            },
        };
        let status = match MsgStatus::from_str(status_name.as_str()) {
            Some(v) => v,
            None => {
                return None;
            },
        };
        let media_url = match n.get_opt_str("media_url") {
            Some(v) => v,
            None => {
                return None;
            },
        };
        let price = match n.get_opt_str("price") {
            Some(v) => v,
            None => {
                return None;
            },
        };
        let price_unit = match n.get_str("price_unit") {
            Some(v) => v,
            None => {
                return None;
            },
        };
        let uri = match n.get_str("uri") {
            Some(v) => v,
            None => {
                return None;
            },
        };
        let date_created = match n.get_str("date_created") {
            Some(v) => v,
            None => {
                return None;
            },
        };
        let date_sent = match n.get_opt_str("date_sent") {
            Some(v) => v,
            None => {
                return None;
            },
        };
        let date_updated = match n.get_str("date_updated") {
            Some(v) => v,
            None => {
                return None;
            },
        };
        Some(
            MsgResp {
                from,
                to,
                body,
                sid,
                status,
                media_url,
                price,
                price_unit,
                uri,
                date_created,
                date_sent,
                date_updated,
            },
        )
    }
}

/// Sends one message.
#[derive(Debug)]
pub struct SendMsg {
    pub msg: Msg,
}

impl SendMsg {
    /// Attaches a media reference; the last one set wins.
    pub fn media(self, media_url: &str) -> (r: SendMsg)
        ensures
            r.msg.from == self.msg.from,
            r.msg.to == self.msg.to,
            r.msg.body == self.msg.body,
            r.msg.media_url matches Some(m) && m@ == media_url@,
    {
        SendMsg {
            msg: Msg { media_url: Some(media_url.to_owned()), ..self.msg },
        }
    }

    /// What this operation sends: a `POST` to the message collection with
    /// the encoded message as its body.
    pub fn request_parts(&self) -> (r: RequestParts)
        ensures
            r.method == HttpMethod::Post,
            r.path@ == "Messages.json"@,
            r.body matches Some(b) && b@ == form_encoded_str(self.msg.spec_pairs()),
    {
        RequestParts {
            method: HttpMethod::Post,
            path: "Messages.json".to_owned(),
            body: Some(self.msg.to_string()),
        }
    }
}

/// The item path of one message: `Messages/{sid}.json`.
pub fn message_path(message_sid: &str) -> (r: String)
    ensures
        r@ == "Messages/"@ + message_sid@ + ".json"@,
{
    let mut p = "Messages/".to_owned();
    p.append(message_sid);
    p.append(".json");
    p
}

/// Operations on one already-sent message, named by its identifier.
#[derive(Debug)]
pub struct GetMessage {
    pub message_sid: String,
}

impl GetMessage {
    /// Fetching the message: a `GET` of its item path, no body.
    pub fn request_parts(&self) -> (r: RequestParts)
        ensures
            r.method == HttpMethod::Get,
            r.path@ == "Messages/"@ + self.message_sid@ + ".json"@,
            r.body is None,
    {
        RequestParts {
            method: HttpMethod::Get,
            path: message_path(self.message_sid.as_str()),
            body: None,
        }
    }

    /// Redacting the message: a `POST` to its item path whose body clears
    /// the text field.
    pub fn redact_parts(&self) -> (r: RequestParts)
        ensures
            r.method == HttpMethod::Post,
            r.path@ == "Messages/"@ + self.message_sid@ + ".json"@,
            r.body matches Some(b) && b@ == "Body="@,
    {
        RequestParts {
            method: HttpMethod::Post,
            path: message_path(self.message_sid.as_str()),
            body: Some("Body=".to_owned()),
        }
    }

    /// Deleting the message: a `DELETE` of its item path, no body.
    pub fn delete_parts(&self) -> (r: RequestParts)
        ensures
            r.method == HttpMethod::Delete,
            r.path@ == "Messages/"@ + self.message_sid@ + ".json"@,
            r.body is None,
    {
        RequestParts {
            method: HttpMethod::Delete,
            path: message_path(self.message_sid.as_str()),
            body: None,
        }
    }

    /// Listing the message's media: a `GET` of `Messages/{sid}/Media.json`.
    pub fn media_parts(&self) -> (r: RequestParts)
        ensures
            r.method == HttpMethod::Get,
            r.path@ == "Messages/"@ + self.message_sid@ + "/Media.json"@,
            r.body is None,
    {
        let mut p = "Messages/".to_owned();
        p.append(self.message_sid.as_str());
        p.append("/Media.json");
        RequestParts { method: HttpMethod::Get, path: p, body: None }
    }
}

/// The typed success shape of a media listing.
#[derive(Debug, PartialEq)]
pub struct MediaResp {
    pub media_list: Vec<MediaItem>,
    pub num_pages: i32,
    pub page: i32,
    pub page_size: i32,
    pub start: i32,
    pub total: i32,
    pub uri: String,
    pub account_sid: String,
    pub message_sid: String,
}

/// One media item of a message.
#[derive(Debug, PartialEq)]
pub struct MediaItem {
    pub account_sid: String,
    pub content_type: String,
    pub sid: String,
    pub uri: String,
    pub message_sid: String,
    pub date_created: String,
    pub date_update: String,
}

/// The message collection.
#[derive(Debug)]
pub struct Messages;

impl Messages {
    /// Restricts the listing to messages sent between two dates.
    pub fn between(self, from: &str, to: &str) -> (r: MessagesDetails)
        ensures
            r.from matches Some(f) && f@ == from@,
            r.to matches Some(t) && t@ == to@,
            r.date_sent is None,
    {
        MessagesDetails { from: Some(from.to_owned()), to: Some(to.to_owned()), date_sent: None }
    }

    /// Restricts the listing to messages sent on one date.
    pub fn on(self, date_sent: &str) -> (r: MessagesDetails)
        ensures
            r.from is None,
            r.to is None,
            r.date_sent matches Some(d) && d@ == date_sent@,
    {
        MessagesDetails { from: None, to: None, date_sent: Some(date_sent.to_owned()) }
    }

    /// Listing every message: a `GET` of the collection, no body.
    pub fn request_parts(&self) -> (r: RequestParts)
        ensures
            r.method == HttpMethod::Get,
            r.path@ == "Messages.json"@,
            r.body is None,
    {
        RequestParts { method: HttpMethod::Get, path: "Messages.json".to_owned(), body: None }
    }
}

/// A filtered message listing: each filter pair appears in the query
/// string exactly when set.
#[derive(Debug)]
pub struct MessagesDetails {
    pub from: Option<String>,
    pub to: Option<String>,
    pub date_sent: Option<String>,
}

impl MessagesDetails {
    /// The filter pairs, in the fixed order sender, recipient, date.
    pub open spec fn spec_pairs(self) -> Seq<(Seq<char>, Seq<char>)> {
        (match self.from {
            Some(f) => seq![("From"@, f@)],
            None => Seq::<(Seq<char>, Seq<char>)>::empty(),
        }) + (match self.to {
            Some(t) => seq![("To"@, t@)],
            None => Seq::<(Seq<char>, Seq<char>)>::empty(),
        }) + (match self.date_sent {
            Some(d) => seq![("DateSent"@, d@)],
            None => Seq::<(Seq<char>, Seq<char>)>::empty(),
        })
    }

    /// The naive-joined query string of the set filters.
    pub fn to_string(&self) -> (r: String)
        ensures
            r@ == naive_joined(self.spec_pairs()),
    {
        let mut pairs: Vec<(&str, &str)> = Vec::new();
        if let Some(f) = &self.from {
            pairs.push(("From", f.as_str()));
        }
        if let Some(t) = &self.to {
            pairs.push(("To", t.as_str()));
        }
        if let Some(d) = &self.date_sent {
            pairs.push(("DateSent", d.as_str()));
        }
        proof {
            assert(pairs@.map_values(|p: (&str, &str)| (p.0@, p.1@)) =~= self.spec_pairs());
        }
        url_encode(&pairs)
    }

    /// The filtered listing: a `GET` of the collection with the filters
    /// as its query string, no body.
    pub fn request_parts(&self) -> (r: RequestParts)
        ensures
            r.method == HttpMethod::Get,
            r.path@ == "Messages.json?"@ + naive_joined(self.spec_pairs()),
            r.body is None,
    {
        let mut p = "Messages.json?".to_owned();
        let q = self.to_string();
        p.append(q.as_str());
        RequestParts { method: HttpMethod::Get, path: p, body: None }
    }
}

/// The typed success shape of a message listing.
#[derive(Debug, PartialEq)]
pub struct ListAllMsgs {
    pub messages: Vec<MsgResp>,
    pub page: usize,
    pub page_size: usize,
    pub uri: String,
    pub next_page_uri: Option<String>,
    pub previous_page_uri: Option<String>,
}

impl FromJson for ListAllMsgs {
    /// The success schema of a message listing: an array of message documents, non-negative page numbers, and the paging links.
    open spec fn json_ok(n: JsonNode) -> bool {
        &&& n.spec_get_arr("messages"@) matches Some(items) && all_json_ok::<MsgResp>(items)
        &&& n.spec_get_int("page"@) matches Some(v) && 0 <= v <= usize::MAX
        &&& n.spec_get_int("page_size"@) matches Some(v) && 0 <= v <= usize::MAX
        &&& n.spec_get_str("uri"@) is Some
        &&& n.spec_get_opt_str("next_page_uri"@) is Some
        &&& n.spec_get_opt_str("previous_page_uri"@) is Some
    }

    /// The decoded listing holds one decoded message per array element, in order, and the paging fields as the document gives them.
    open spec fn json_matches(n: JsonNode, v: ListAllMsgs) -> bool {
        &&& n.spec_get_arr("messages"@) matches Some(items) && all_json_match(items, v.messages@)
        &&& Some(v.page as i64) == n.spec_get_int("page"@)
        &&& Some(v.page_size as i64) == n.spec_get_int("page_size"@)
        &&& Some(v.uri@) == n.spec_get_str("uri"@)
        &&& Some(opt_str_view(v.next_page_uri)) == n.spec_get_opt_str("next_page_uri"@)
        &&& Some(opt_str_view(v.previous_page_uri)) == n.spec_get_opt_str("previous_page_uri"@)
    }

    fn from_json(n: &JsonNode) -> (r: Option<ListAllMsgs>) {
        let items = match n.get_arr("messages") {
            Some(v) => v,
            None => {
                return None;
            },
        };
        let messages = match decode_vec::<MsgResp>(items) {
            Some(v) => v,
            None => {
                return None;
            },
        };
        let page = match n.get_int("page") {
            Some(v) => match usize::try_from(v) {
                Ok(u) => u,
                Err(_) => {
                    return None;
                },
            },
            None => {
                return None;
            },
        };
        let page_size = match n.get_int("page_size") {
            Some(v) => match usize::try_from(v) {
                Ok(u) => u,
                Err(_) => {
                    return None;
                },
            },
            None => {
                return None;
            },
        };
        let uri = match n.get_str("uri") {
            Some(v) => v,
            None => {
                return None;
            },
        };
        let next_page_uri = match n.get_opt_str("next_page_uri") {
            Some(v) => v,
            None => {
                return None;
            },
        };
        let previous_page_uri = match n.get_opt_str("previous_page_uri") {
            Some(v) => v,
            None => {
                return None;
            },
        };
        Some(
            ListAllMsgs {
                messages,
                page,
                page_size,
                uri,
                next_page_uri,
                previous_page_uri,
            },
        )
    }
}

impl FromJson for MediaItem {
    /// The schema of one media item: its string fields present.
    open spec fn json_ok(n: JsonNode) -> bool {
        &&& n.spec_get_str("account_sid"@) is Some
        &&& n.spec_get_str("content_type"@) is Some
        &&& n.spec_get_str("sid"@) is Some
        &&& n.spec_get_str("uri"@) is Some
        &&& n.spec_get_str("message_sid"@) is Some
        &&& n.spec_get_str("date_created"@) is Some
        &&& n.spec_get_str("date_update"@) is Some
    }

    /// Every field of the decoded value is the document's field of the same name.
    open spec fn json_matches(n: JsonNode, v: MediaItem) -> bool {
        &&& Some(v.account_sid@) == n.spec_get_str("account_sid"@)
        &&& Some(v.content_type@) == n.spec_get_str("content_type"@)
        &&& Some(v.sid@) == n.spec_get_str("sid"@)
        &&& Some(v.uri@) == n.spec_get_str("uri"@)
        &&& Some(v.message_sid@) == n.spec_get_str("message_sid"@)
        &&& Some(v.date_created@) == n.spec_get_str("date_created"@)
        &&& Some(v.date_update@) == n.spec_get_str("date_update"@)
    }

    fn from_json(n: &JsonNode) -> (r: Option<MediaItem>) {
        let account_sid = match n.get_str("account_sid") {
            Some(v) => v,
            None => {
                return None;
            },
        };
        let content_type = match n.get_str("content_type") {
            Some(v) => v,
            None => {
                return None;
            },
        };
        let sid = match n.get_str("sid") {
            Some(v) => v,
            None => {
                return None;
            },
        };
        let uri = match n.get_str("uri") {
            Some(v) => v,
            None => {
                return None;
            },
        };
        let message_sid = match n.get_str("message_sid") {
            Some(v) => v,
            None => {
                return None;
            },
        };
        let date_created = match n.get_str("date_created") {
            Some(v) => v,
            None => {
                return None;
            },
        };
        let date_update = match n.get_str("date_update") {
            Some(v) => v,
            None => {
                return None;
            },
        };
        Some(
            MediaItem {
                account_sid,
                content_type,
                sid,
                uri,
                message_sid,
                date_created,
                date_update,
            },
        )
    }
}

impl FromJson for MediaResp {
    /// The success schema of a media listing: an array of media items and signed 32-bit paging counters.
    open spec fn json_ok(n: JsonNode) -> bool {
        &&& n.spec_get_arr("media_list"@) matches Some(items) && all_json_ok::<MediaItem>(items)
        &&& n.spec_get_int("num_pages"@) matches Some(v) && i32::MIN <= v <= i32::MAX
        &&& n.spec_get_int("page"@) matches Some(v) && i32::MIN <= v <= i32::MAX
        &&& n.spec_get_int("page_size"@) matches Some(v) && i32::MIN <= v <= i32::MAX
        &&& n.spec_get_int("start"@) matches Some(v) && i32::MIN <= v <= i32::MAX
        &&& n.spec_get_int("total"@) matches Some(v) && i32::MIN <= v <= i32::MAX
        &&& n.spec_get_str("uri"@) is Some
        &&& n.spec_get_str("account_sid"@) is Some
        &&& n.spec_get_str("message_sid"@) is Some
    }

    /// The decoded listing holds one decoded item per array element, in order, and the counters as the document gives them.
    open spec fn json_matches(n: JsonNode, v: MediaResp) -> bool {
        &&& n.spec_get_arr("media_list"@) matches Some(items) && all_json_match(items, v.media_list@)
        &&& Some(v.num_pages as i64) == n.spec_get_int("num_pages"@)
        &&& Some(v.page as i64) == n.spec_get_int("page"@)
        &&& Some(v.page_size as i64) == n.spec_get_int("page_size"@)
        &&& Some(v.start as i64) == n.spec_get_int("start"@)
        &&& Some(v.total as i64) == n.spec_get_int("total"@)
        &&& Some(v.uri@) == n.spec_get_str("uri"@)
        &&& Some(v.account_sid@) == n.spec_get_str("account_sid"@)
        &&& Some(v.message_sid@) == n.spec_get_str("message_sid"@)
    }

    fn from_json(n: &JsonNode) -> (r: Option<MediaResp>) {
        let items = match n.get_arr("media_list") {
            Some(v) => v,
            None => {
                return None;
            },
        };
        let media_list = match decode_vec::<MediaItem>(items) {
            Some(v) => v,
            None => {
                return None;
            },
        };
        let num_pages = match n.get_int("num_pages") {
            Some(v) => match i32::try_from(v) {
                Ok(u) => u,
                Err(_) => {
                    return None;
                },
            },
            None => {
                return None;
            },
        };
        let page = match n.get_int("page") {
            Some(v) => match i32::try_from(v) {
                Ok(u) => u,
                Err(_) => {
                    return None;
                },
            },
            None => {
                return None;
            },
        };
        let page_size = match n.get_int("page_size") {
            Some(v) => match i32::try_from(v) {
                Ok(u) => u,
                Err(_) => {
                    return None;
                },
            },
            None => {
                return None;
            },
        };
        let start = match n.get_int("start") {
            Some(v) => match i32::try_from(v) {
                Ok(u) => u,
                Err(_) => {
                    return None;
                },
            },
            None => {
                return None;
            },
        };
        let total = match n.get_int("total") {
            Some(v) => match i32::try_from(v) {
                Ok(u) => u,
                Err(_) => {
                    return None;
                },
            },
            None => {
                return None;
            },
        };
        let uri = match n.get_str("uri") {
            Some(v) => v,
            None => {
                return None;
            },
        };
        let account_sid = match n.get_str("account_sid") {
            Some(v) => v,
            None => {
                return None;
            },
        };
        let message_sid = match n.get_str("message_sid") {
            Some(v) => v,
            None => {
                return None;
            },
        };
        Some(
            MediaResp {
                media_list,
                num_pages,
                page,
                page_size,
                start,
                total,
                uri,
                account_sid,
                message_sid,
            },
        )
    }
}

/// The filter query holds exactly the pairs of the filters that are set:
/// each filter's key occurs exactly once when it is set and not at all
/// when it is not, with the filter's value, in the fixed order sender,
/// recipient, date.
pub proof fn lemma_messages_details_pairs_exact(d: MessagesDetails)
    ensures
        d.from matches Some(f) ==> d.spec_pairs().contains(("From"@, f@)),
        key_count(d.spec_pairs(), "From"@) == (if d.from is Some {
            1nat
        } else {
            0nat
        }),
        d.to matches Some(t) ==> d.spec_pairs().contains(("To"@, t@)),
        key_count(d.spec_pairs(), "To"@) == (if d.to is Some {
            1nat
        } else {
            0nat
        }),
        d.date_sent matches Some(ds) ==> d.spec_pairs().contains(("DateSent"@, ds@)),
        key_count(d.spec_pairs(), "DateSent"@) == (if d.date_sent is Some {
            1nat
        } else {
            0nat
        }),
{
    reveal_strlit("From");
    reveal_strlit("To");
    reveal_strlit("DateSent");
    assert("From"@.len() == 4 && "To"@.len() == 2 && "DateSent"@.len() == 8);
    let ps = d.spec_pairs();
    let s1 = match &d.from {
        Some(f) => seq![("From"@, f@)],
        None => Seq::<(Seq<char>, Seq<char>)>::empty(),
    };
    let s2 = match &d.to {
        Some(t) => seq![("To"@, t@)],
        None => Seq::<(Seq<char>, Seq<char>)>::empty(),
    };
    let s3 = match &d.date_sent {
        Some(ds) => seq![("DateSent"@, ds@)],
        None => Seq::<(Seq<char>, Seq<char>)>::empty(),
    };
    let a1 = s1 + s2;
    let a2 = a1 + s3;
    assert(ps == a2);
    let keys = seq!["From"@, "To"@, "DateSent"@];
    assert forall|ki: int| 0 <= ki < 3 implies key_count(ps, keys[ki]) == (if ki == 0 && d.from
        is Some {
        1nat
    } else if ki == 1 && d.to is Some {
        1nat
    } else if ki == 2 && d.date_sent is Some {
        1nat
    } else {
        0nat
    }) by {
        let k = keys[ki];
        assert(key_count(Seq::<(Seq<char>, Seq<char>)>::empty(), k) == 0);
        lemma_key_count_app(s1, s2, k);
        lemma_key_count_app(a1, s3, k);
        match &d.from {
            Some(f) => {
                lemma_key_count_one(("From"@, f@), k);
            },
            None => {},
        }
        match &d.to {
            Some(t) => {
                lemma_key_count_one(("To"@, t@), k);
            },
            None => {},
        }
        match &d.date_sent {
            Some(ds) => {
                lemma_key_count_one(("DateSent"@, ds@), k);
            },
            None => {},
        }
    }
    assert(key_count(ps, "From"@) == key_count(ps, keys[0]));
    assert(key_count(ps, "To"@) == key_count(ps, keys[1]));
    assert(key_count(ps, "DateSent"@) == key_count(ps, keys[2]));
    let n1: int = if d.from is Some {
        1int
    } else {
        0int
    };
    let n2: int = n1 + if d.to is Some {
        1int
    } else {
        0int
    };
    match &d.from {
        Some(f) => {
            assert(ps[0] == ("From"@, f@));
            assert(ps.contains(("From"@, f@)));
        },
        None => {},
    }
    match &d.to {
        Some(t) => {
            assert(ps[n1] == ("To"@, t@));
            assert(ps.contains(("To"@, t@)));
        },
        None => {},
    }
    match &d.date_sent {
        Some(ds) => {
            assert(ps[n2] == ("DateSent"@, ds@));
            assert(ps.contains(("DateSent"@, ds@)));
        },
        None => {},
    }
}

/// The encoded message body holds exactly the pairs of the fields that
/// are set: the three mandatory fields always and in order, the media
/// reference exactly when one was attached, and no key twice.
pub proof fn lemma_msg_pairs_exact(m: Msg)
    ensures
        m.spec_pairs()[0] == ("To"@, m.to@),
        m.spec_pairs()[1] == ("From"@, m.from@),
        m.spec_pairs()[2] == ("Body"@, m.body@),
        m.media_url matches Some(u) ==> m.spec_pairs().len() == 4 && m.spec_pairs()[3] == (
        "MediaUrl"@,
        u@,
        ),
        m.media_url is None ==> m.spec_pairs().len() == 3,
        forall|i: int, j: int|
            0 <= i < j < m.spec_pairs().len() ==> m.spec_pairs()[i].0 != m.spec_pairs()[j].0,
{
    reveal_strlit("To");
    reveal_strlit("From");
    reveal_strlit("Body");
    reveal_strlit("MediaUrl");
    assert("To"@.len() == 2 && "From"@.len() == 4 && "Body"@.len() == 4 && "MediaUrl"@.len() == 8);
    assert("From"@[0] == 'F' && "Body"@[0] == 'B');
}

} // verus!
