//! The call resource: placing an outbound call with its optional
//! parameters.

use crate::encode::{encode_pairs, form_encoded_str, key_count, lemma_key_count_app, lemma_key_count_one, lemma_key_count_three};
use crate::json::{opt_str_view, FromJson, JsonNode};
use crate::request::{HttpMethod, RequestParts};
use crate::support::str_eq;
use vstd::prelude::*;

verus! {

/// The call-progress events a status callback can subscribe to.
#[derive(Clone, Copy, Debug, PartialEq, Eq, Structural)]
pub enum CallbackEvent {
    Initiated,
    Ringing,
    Answered,
    Completed,
}

impl CallbackEvent {
    /// The wire value of this event.
    pub open spec fn str(self) -> Seq<char> {
        match self {
            CallbackEvent::Initiated => "initiated"@,
            CallbackEvent::Ringing => "ringing"@,
            CallbackEvent::Answered => "answered"@,
            CallbackEvent::Completed => "completed"@,
        }
    }

    pub fn to_str(&self) -> (r: &'static str)
        ensures
            r@ == self.str(),
    {
        match *self {
            CallbackEvent::Initiated => "initiated",
            CallbackEvent::Ringing => "ringing",
            CallbackEvent::Answered => "answered",
            CallbackEvent::Completed => "completed",
        }
    }
}

/// An outbound call: caller, callee and instruction document are
/// mandatory; every other field is sent only when set. The two boolean
/// flags are sent only when set to true.
#[derive(Debug)]
pub struct Call {
    pub from: String,
    pub to: String,
    pub url: String,
    pub sid: Option<String>,
    pub callerid: Option<String>,
    pub machine_detection: Option<bool>,
    pub record: Option<bool>,
    pub send_digits: Option<String>,
    pub status_callback: Option<String>,
    pub callback_event: Option<CallbackEvent>,
    pub timeout: Option<String>,
}

impl Call {
    pub fn new(from: &str, to: &str, url: &str) -> (r: Call)
        ensures
            r.from@ == from@,
            r.to@ == to@,
            r.url@ == url@,
            r.sid is None,
            r.callerid is None,
            r.machine_detection is None,
            r.record is None,
            r.send_digits is None,
            r.status_callback is None,
            r.callback_event is None,
            r.timeout is None,
    {
        Call {
            from: from.to_owned(),
            to: to.to_owned(),
            url: url.to_owned(),
            sid: None,
            callerid: None,
            machine_detection: None,
            record: None,
            send_digits: None,
            status_callback: None,
            callback_event: None,
            timeout: None,
        }
    }

    /// The body pairs, in the fixed order the encoder renders them:
    /// the three mandatory fields, then each optional field exactly when
    /// it is set (for the two flags: set to true).
    pub open spec fn spec_pairs(self) -> Seq<(Seq<char>, Seq<char>)> {
        seq![("To"@, self.to@), ("From"@, self.from@), ("Url"@, self.url@)] + (
        match self.sid {
            Some(s) => seq![("ApplicationSid"@, s@)],
            None => Seq::<(Seq<char>, Seq<char>)>::empty(),
        }) + (match self.callerid {
            Some(c) => seq![("CallerId"@, c@)],
            None => Seq::<(Seq<char>, Seq<char>)>::empty(),
        }) + (if self.machine_detection == Some(true) {
            seq![("MachineDetection"@, "Enable"@)]
        } else {
            Seq::<(Seq<char>, Seq<char>)>::empty()
        }) + (if self.record == Some(true) {
            seq![("Record"@, "true"@)]
        } else {
            Seq::<(Seq<char>, Seq<char>)>::empty()
        }) + (match self.callback_event {
            Some(e) => seq![("StatusCallbackEvent"@, e.str())],
            None => Seq::<(Seq<char>, Seq<char>)>::empty(),
        }) + (match self.timeout {
            Some(t) => seq![("Timeout"@, t@)],
            None => Seq::<(Seq<char>, Seq<char>)>::empty(),
        }) + (match self.send_digits {
            Some(d) => seq![("SendDigits"@, d@)],
            None => Seq::<(Seq<char>, Seq<char>)>::empty(),
        }) + (match self.status_callback {
            Some(c) => seq![("StatusCallback"@, c@)],
            None => Seq::<(Seq<char>, Seq<char>)>::empty(),
        })
    }

    /// The form-encoded body this call sends.
    #[verifier::rlimit(100)]
    #[verifier::spinoff_prover]
    pub fn to_string(&self) -> (r: String)
        ensures
            r@ == form_encoded_str(self.spec_pairs()),
    {
        let ghost m = seq![("To"@, self.to@), ("From"@, self.from@), ("Url"@, self.url@)];
        let ghost s1 = match &self.sid { Some(v) => seq![("ApplicationSid"@, v@)], None => Seq::<(Seq<char>, Seq<char>)>::empty() };
        let ghost s2 = match &self.callerid { Some(v) => seq![("CallerId"@, v@)], None => Seq::<(Seq<char>, Seq<char>)>::empty() };
        let ghost s3 = if self.machine_detection == Some(true) { seq![("MachineDetection"@, "Enable"@)] } else { Seq::<(Seq<char>, Seq<char>)>::empty() };
        let ghost s4 = if self.record == Some(true) { seq![("Record"@, "true"@)] } else { Seq::<(Seq<char>, Seq<char>)>::empty() };
        let ghost s5 = match &self.callback_event { Some(e) => seq![("StatusCallbackEvent"@, e.str())], None => Seq::<(Seq<char>, Seq<char>)>::empty() };
        let ghost s6 = match &self.timeout { Some(v) => seq![("Timeout"@, v@)], None => Seq::<(Seq<char>, Seq<char>)>::empty() };
        let ghost s7 = match &self.send_digits { Some(v) => seq![("SendDigits"@, v@)], None => Seq::<(Seq<char>, Seq<char>)>::empty() };
        let ghost s8 = match &self.status_callback { Some(v) => seq![("StatusCallback"@, v@)], None => Seq::<(Seq<char>, Seq<char>)>::empty() };
        proof {
            broadcast use vstd::seq::Seq::add_empty_right;
            broadcast use vstd::seq::Seq::lemma_push_map_commute;

        }
        let mut pairs: Vec<(&str, &str)> = Vec::new();
        pairs.push(("To", self.to.as_str()));
        pairs.push(("From", self.from.as_str()));
        pairs.push(("Url", self.url.as_str()));
        proof {
            assert(pairs@.map_values(|p: (&str, &str)| (p.0@, p.1@)) =~= m);
        }
        if let Some(v) = &self.sid {
            pairs.push(("ApplicationSid", v.as_str()));
        }
        proof {
            assert(pairs@.map_values(|p: (&str, &str)| (p.0@, p.1@)) =~= m + s1);
        }
        if let Some(v) = &self.callerid {
            pairs.push(("CallerId", v.as_str()));
        }
        proof {
            assert(pairs@.map_values(|p: (&str, &str)| (p.0@, p.1@)) =~= m + s1 + s2);
        }
        if let Some(detection) = self.machine_detection {
            if detection {
                pairs.push(("MachineDetection", "Enable"));
            }
        }
        proof {
            assert(pairs@.map_values(|p: (&str, &str)| (p.0@, p.1@)) =~= m + s1 + s2 + s3);
        }
        if let Some(record) = self.record {
            if record {
                pairs.push(("Record", "true"));
            }
        }
        proof {
            assert(pairs@.map_values(|p: (&str, &str)| (p.0@, p.1@)) =~= m + s1 + s2 + s3 + s4);
        }
        if let Some(cb) = &self.callback_event {
            pairs.push(("StatusCallbackEvent", cb.to_str()));
        }
        proof {
            assert(pairs@.map_values(|p: (&str, &str)| (p.0@, p.1@)) =~= m + s1 + s2 + s3 + s4
                + s5);
        }
        if let Some(v) = &self.timeout {
            pairs.push(("Timeout", v.as_str()));
        }
        proof {
            assert(pairs@.map_values(|p: (&str, &str)| (p.0@, p.1@)) =~= m + s1 + s2 + s3 + s4 + s5
                + s6);
        }
        if let Some(v) = &self.send_digits {
            pairs.push(("SendDigits", v.as_str()));
        }
        proof {
            assert(pairs@.map_values(|p: (&str, &str)| (p.0@, p.1@)) =~= m + s1 + s2 + s3 + s4 + s5
                + s6 + s7);
        }
        if let Some(v) = &self.status_callback {
            pairs.push(("StatusCallback", v.as_str()));
        }
        proof {
            assert(pairs@.map_values(|p: (&str, &str)| (p.0@, p.1@)) =~= m + s1 + s2 + s3 + s4 + s5
                + s6 + s7 + s8);
            assert(m + s1 + s2 + s3 + s4 + s5 + s6 + s7 + s8 == self.spec_pairs());
        }
        let encoded = encode_pairs(&pairs);
        if let Some(s) = encoded {
            s
        } else {
            String::new()
        }
    }
}

/// The call state the service reports.
#[derive(Clone, Copy, Debug, PartialEq, Eq, Structural)]
#[allow(non_camel_case_types)]
pub enum CallStatus {
    queued,
    ringing,
    inprogress,
    canceled,
    completed,
    failed,
    busy,
    noanswer,
}

/// The typed success shape of a call response.
#[derive(Debug, PartialEq)]
pub struct CallResp {
    pub from: String,
    pub to: String,
    pub sid: String,
    pub start_time: Option<String>,
    pub status: CallStatus,
    pub account_sid: String,
    pub caller_name: Option<String>,
    pub duration: Option<i32>,
    pub price: Option<String>,
    pub price_unit: String,
    pub uri: String,
    pub date_created: Option<String>,
    pub end_time: Option<String>,
    pub phone_number_sid: String,
    pub direction: Direction,
}

/// The direction the service reports for a call.
#[derive(Clone, Copy, Debug, PartialEq, Eq, Structural)]
#[allow(non_camel_case_types)]
pub enum Direction {
    inbound,
    outbound_api,
    outbound_dial,
    trunking_terminating,
    trunking_originating,
}

/// The wire name of each call state.
pub open spec fn call_status_of(s: Seq<char>) -> Option<CallStatus> {
    if s == "queued"@ {
        Some(CallStatus::queued)
    } else if s == "ringing"@ {
        Some(CallStatus::ringing)
    } else if s == "in-progress"@ {
        Some(CallStatus::inprogress)
    } else if s == "canceled"@ {
        Some(CallStatus::canceled)
    } else if s == "completed"@ {
        Some(CallStatus::completed)
    } else if s == "failed"@ {
        Some(CallStatus::failed)
    } else if s == "busy"@ {
        Some(CallStatus::busy)
    } else if s == "no-answer"@ {
        Some(CallStatus::noanswer)
    } else {
        None
    }
}

impl CallStatus {
    /// Reads a call state from its wire name, exactly as
    /// [`call_status_of`] describes.
    pub fn from_str(s: &str) -> (r: Option<CallStatus>)
        ensures
            r == call_status_of(s@),
    {
        if str_eq(s, "queued") {
            Some(CallStatus::queued)
        } else if str_eq(s, "ringing") {
            Some(CallStatus::ringing)
        } else if str_eq(s, "in-progress") {
            Some(CallStatus::inprogress)
        } else if str_eq(s, "canceled") {
            Some(CallStatus::canceled)
        } else if str_eq(s, "completed") {
            Some(CallStatus::completed)
        } else if str_eq(s, "failed") {
            Some(CallStatus::failed)
        } else if str_eq(s, "busy") {
            Some(CallStatus::busy)
        } else if str_eq(s, "no-answer") {
            Some(CallStatus::noanswer)
        } else {
            None
        }
    }
}

/// The wire name of each call direction.
pub open spec fn direction_of(s: Seq<char>) -> Option<Direction> {
    if s == "inbound"@ {
        Some(Direction::inbound)
    } else if s == "outbound-api"@ {
        Some(Direction::outbound_api)
    } else if s == "outbound-dial"@ {
        Some(Direction::outbound_dial)
    } else if s == "trunking-terminating"@ {
        Some(Direction::trunking_terminating)
    } else if s == "trunking-originating"@ {
        Some(Direction::trunking_originating)
    } else {
        None
    }
}

impl Direction {
    /// Reads a call direction from its wire name, exactly as
    /// [`direction_of`] describes.
    pub fn from_str(s: &str) -> (r: Option<Direction>)
        ensures
            r == direction_of(s@),
    {
        if str_eq(s, "inbound") {
            Some(Direction::inbound)
        } else if str_eq(s, "outbound-api") {
            Some(Direction::outbound_api)
        } else if str_eq(s, "outbound-dial") {
            Some(Direction::outbound_dial)
        } else if str_eq(s, "trunking-terminating") {
            Some(Direction::trunking_terminating)
        } else if str_eq(s, "trunking-originating") {
            Some(Direction::trunking_originating)
        } else {
            None
        }
    }
}

impl FromJson for CallResp {
    /// The success schema of a call response: the mandatory string
    /// fields present, recognised state and direction names, optional
    /// strings absent, null or strings, and a duration that fits a
    /// signed 32-bit value when present.
    open spec fn json_ok(n: JsonNode) -> bool {
        &&& n.spec_get_str("from"@) is Some
        &&& n.spec_get_str("to"@) is Some
        &&& n.spec_get_str("sid"@) is Some
        &&& n.spec_get_opt_str("start_time"@) is Some
        &&& n.spec_get_str("status"@) matches Some(s) && call_status_of(s) is Some
        &&& n.spec_get_str("account_sid"@) is Some
        &&& n.spec_get_opt_str("caller_name"@) is Some
        &&& n.spec_get_opt_int("duration"@) matches Some(d) && (d matches Some(v) ==> i32::MIN
            <= v <= i32::MAX)
        &&& n.spec_get_opt_str("price"@) is Some
        &&& n.spec_get_str("price_unit"@) is Some
        &&& n.spec_get_str("uri"@) is Some
        &&& n.spec_get_opt_str("date_created"@) is Some
        &&& n.spec_get_opt_str("end_time"@) is Some
        &&& n.spec_get_str("phone_number_sid"@) is Some
        &&& n.spec_get_str("direction"@) matches Some(s) && direction_of(s) is Some
    }

    /// Every field of the decoded value is the document's field of the
    /// same name; absent optional fields decode as nothing-there.
    open spec fn json_matches(n: JsonNode, v: CallResp) -> bool {
        &&& Some(v.from@) == n.spec_get_str("from"@)
        &&& Some(v.to@) == n.spec_get_str("to"@)
        &&& Some(v.sid@) == n.spec_get_str("sid"@)
        &&& Some(opt_str_view(v.start_time)) == n.spec_get_opt_str("start_time"@)
        &&& n.spec_get_str("status"@) matches Some(s) && call_status_of(s) == Some(v.status)
        &&& Some(v.account_sid@) == n.spec_get_str("account_sid"@)
        &&& Some(opt_str_view(v.caller_name)) == n.spec_get_opt_str("caller_name"@)
        &&& n.spec_get_opt_int("duration"@) matches Some(d) && (match (v.duration, d) {
            (Some(a), Some(b)) => a as i64 == b,
            (None, None) => true,
            _ => false,
        })
        &&& Some(opt_str_view(v.price)) == n.spec_get_opt_str("price"@)
        &&& Some(v.price_unit@) == n.spec_get_str("price_unit"@)
        &&& Some(v.uri@) == n.spec_get_str("uri"@)
        &&& Some(opt_str_view(v.date_created)) == n.spec_get_opt_str("date_created"@)
        &&& Some(opt_str_view(v.end_time)) == n.spec_get_opt_str("end_time"@)
        &&& Some(v.phone_number_sid@) == n.spec_get_str("phone_number_sid"@)
        &&& n.spec_get_str("direction"@) matches Some(s) && direction_of(s) == Some(v.direction)
    }

    fn from_json(n: &JsonNode) -> (r: Option<CallResp>) {
        let from = match n.get_str("from") {
            Some(v) => v,
            None => {
                return None;
            },
        };
        let to = match n.get_str("to") {
            Some(v) => v,
            None => {
                return None;
            },
        };
        let sid = match n.get_str("sid") {
            Some(v) => v,
            None => {
                return None;
            },
        };
        let start_time = match n.get_opt_str("start_time") {
            Some(v) => v,
            None => {
                return None;
            },
        };
        let status_name = match n.get_str("status") {
            Some(v) => v,
            None => {
                return None;
            },
        };
        let status = match CallStatus::from_str(status_name.as_str()) {
            Some(v) => v,
            None => {
                return None;
            },
        };
        let account_sid = match n.get_str("account_sid") {
            Some(v) => v,
            None => {
                return None;
            },
        };
        let caller_name = match n.get_opt_str("caller_name") {
            Some(v) => v,
            None => {
                return None;
            },
        };
        let duration_raw = match n.get_opt_int("duration") {
            Some(v) => v,
            None => {
                return None;
            },
        };
        let duration = match duration_raw {
            Some(d) => match i32::try_from(d) {
                Ok(v) => Some(v),
                Err(_) => {
                    return None;
                },
            },
            None => None,
        };
        let price = match n.get_opt_str("price") {
            Some(v) => v,
            None => {
                return None;
            },
        };
        let price_unit = match n.get_str("price_unit") {
            Some(v) => v,
            None => {
                return None;
            },
        };
        let uri = match n.get_str("uri") {
            Some(v) => v,
            None => {
                return None;
            },
        };
        let date_created = match n.get_opt_str("date_created") {
            Some(v) => v,
            None => {
                return None;
            },
        };
        let end_time = match n.get_opt_str("end_time") {
            Some(v) => v,
            None => {
                return None;
            },
        };
        let phone_number_sid = match n.get_str("phone_number_sid") {
            Some(v) => v,
            None => {
                return None;
            },
        };
        let direction_name = match n.get_str("direction") {
            Some(v) => v,
            None => {
                return None;
            },
        };
        let direction = match Direction::from_str(direction_name.as_str()) {
            Some(v) => v,
            None => {
                return None;
            },
        };
        Some(
            CallResp {
                from,
                to,
                sid,
                start_time,
                status,
                account_sid,
                caller_name,
                duration,
                price,
                price_unit,
                uri,
                date_created,
                end_time,
                phone_number_sid,
                direction,
            },
        )
    }
}

/// Places one call; the setters fill the optional fields, last write
/// winning.
#[derive(Debug)]
pub struct SendCall {
    pub call: Call,
}

impl SendCall {
    pub fn sid(self, sid: &str) -> (r: SendCall)
        ensures
            r.call == (Call { sid: r.call.sid, ..self.call }),
            r.call.sid matches Some(s) && s@ == sid@,
    {
        SendCall { call: Call { sid: Some(sid.to_owned()), ..self.call } }
    }

    pub fn callerid(self, callerid: &str) -> (r: SendCall)
        ensures
            r.call == (Call { callerid: r.call.callerid, ..self.call }),
            r.call.callerid matches Some(c) && c@ == callerid@,
    {
        SendCall { call: Call { callerid: Some(callerid.to_owned()), ..self.call } }
    }

    pub fn machine_detection(self, machine_detection: bool) -> (r: SendCall)
        ensures
            r.call == (Call { machine_detection: Some(machine_detection), ..self.call }),
    {
        SendCall { call: Call { machine_detection: Some(machine_detection), ..self.call } }
    }

    pub fn record(self, record: bool) -> (r: SendCall)
        ensures
            r.call == (Call { record: Some(record), ..self.call }),
    {
        SendCall { call: Call { record: Some(record), ..self.call } }
    }

    pub fn send_digits(self, send_digits: &str) -> (r: SendCall)
        ensures
            r.call == (Call { send_digits: r.call.send_digits, ..self.call }),
            r.call.send_digits matches Some(d) && d@ == send_digits@,
    {
        SendCall { call: Call { send_digits: Some(send_digits.to_owned()), ..self.call } }
    }

    pub fn status_callback(self, callback: &str) -> (r: SendCall)
        ensures
            r.call == (Call { status_callback: r.call.status_callback, ..self.call }),
            r.call.status_callback matches Some(c) && c@ == callback@,
    {
        SendCall { call: Call { status_callback: Some(callback.to_owned()), ..self.call } }
    }

    pub fn callback_event(self, event: CallbackEvent) -> (r: SendCall)
        ensures
            r.call == (Call { callback_event: Some(event), ..self.call }),
    {
        SendCall { call: Call { callback_event: Some(event), ..self.call } }
    }

    pub fn timeout(self, timeout: &str) -> (r: SendCall)
        ensures
            r.call == (Call { timeout: r.call.timeout, ..self.call }),
            r.call.timeout matches Some(t) && t@ == timeout@,
    {
        SendCall { call: Call { timeout: Some(timeout.to_owned()), ..self.call } }
    }

    /// What this operation sends: a `POST` to the call collection with
    /// the encoded call as its body.
    pub fn request_parts(&self) -> (r: RequestParts)
        ensures
            r.method == HttpMethod::Post,
            r.path@ == "Calls.json"@,
            r.body matches Some(b) && b@ == form_encoded_str(self.call.spec_pairs()),
    {
        RequestParts {
            method: HttpMethod::Post,
            path: "Calls.json".to_owned(),
            body: Some(self.call.to_string()),
        }
    }
}

/// The key counts of the first half of the encoded call body: the three
/// mandatory pairs and the first four optional segments.
#[verifier::rlimit(100)]
#[verifier::spinoff_prover]
proof fn lemma_call_key_count_prefix(c: Call, k: Seq<char>)
    ensures
        key_count(seq![("To"@, c.to@), ("From"@, c.from@), ("Url"@, c.url@)] + (match c.sid {
            Some(s) => seq![("ApplicationSid"@, s@)],
            None => Seq::<(Seq<char>, Seq<char>)>::empty(),
        }) + (match c.callerid {
            Some(v) => seq![("CallerId"@, v@)],
            None => Seq::<(Seq<char>, Seq<char>)>::empty(),
        }) + (if c.machine_detection == Some(true) {
            seq![("MachineDetection"@, "Enable"@)]
        } else {
            Seq::<(Seq<char>, Seq<char>)>::empty()
        }) + (if c.record == Some(true) {
            seq![("Record"@, "true"@)]
        } else {
            Seq::<(Seq<char>, Seq<char>)>::empty()
        }), k) == (if "To"@ == k { 1nat } else { 0nat }) + (if "From"@ == k { 1nat } else { 0nat }) + (if "Url"@ == k { 1nat } else { 0nat }) + (if c.sid is Some && "ApplicationSid"@ == k { 1nat } else { 0nat }) + (if c.callerid is Some && "CallerId"@ == k { 1nat } else { 0nat }) + (if c.machine_detection == Some(true) && "MachineDetection"@ == k { 1nat } else { 0nat }) + (if c.record == Some(true) && "Record"@ == k { 1nat } else { 0nat }),
{
    let m = seq![("To"@, c.to@), ("From"@, c.from@), ("Url"@, c.url@)];
    let s1 = match &c.sid { Some(v) => seq![("ApplicationSid"@, v@)], None => Seq::<(Seq<char>, Seq<char>)>::empty() };
    let s2 = match &c.callerid { Some(v) => seq![("CallerId"@, v@)], None => Seq::<(Seq<char>, Seq<char>)>::empty() };
    let s3 = if c.machine_detection == Some(true) { seq![("MachineDetection"@, "Enable"@)] } else { Seq::<(Seq<char>, Seq<char>)>::empty() };
    let s4 = if c.record == Some(true) { seq![("Record"@, "true"@)] } else { Seq::<(Seq<char>, Seq<char>)>::empty() };
    let s5 = match &c.callback_event { Some(e) => seq![("StatusCallbackEvent"@, e.str())], None => Seq::<(Seq<char>, Seq<char>)>::empty() };
    let s6 = match &c.timeout { Some(v) => seq![("Timeout"@, v@)], None => Seq::<(Seq<char>, Seq<char>)>::empty() };
    let s7 = match &c.send_digits { Some(v) => seq![("SendDigits"@, v@)], None => Seq::<(Seq<char>, Seq<char>)>::empty() };
    let s8 = match &c.status_callback { Some(v) => seq![("StatusCallback"@, v@)], None => Seq::<(Seq<char>, Seq<char>)>::empty() };
    let a1 = m + s1;
    let a2 = a1 + s2;
    let a3 = a2 + s3;
    let a4 = a3 + s4;
    assert(key_count(Seq::<(Seq<char>, Seq<char>)>::empty(), k) == 0);
    lemma_key_count_three(("To"@, c.to@), ("From"@, c.from@), ("Url"@, c.url@), k);
    lemma_key_count_app(m, s1, k);
    lemma_key_count_app(a1, s2, k);
    lemma_key_count_app(a2, s3, k);
    lemma_key_count_app(a3, s4, k);
    match &c.sid { Some(v) => { lemma_key_count_one(("ApplicationSid"@, v@), k); }, None => {} }
    match &c.callerid { Some(v) => { lemma_key_count_one(("CallerId"@, v@), k); }, None => {} }
    if c.machine_detection == Some(true) { lemma_key_count_one(("MachineDetection"@, "Enable"@), k); }
    if c.record == Some(true) { lemma_key_count_one(("Record"@, "true"@), k); }
}

/// The key counts of the last four optional segments of the encoded
/// call body, appended to any prefix.
#[verifier::rlimit(100)]
#[verifier::spinoff_prover]
proof fn lemma_call_key_count_suffix(c: Call, a: Seq<(Seq<char>, Seq<char>)>, k: Seq<char>)
    ensures
        key_count(a + (match c.callback_event {
            Some(e) => seq![("StatusCallbackEvent"@, e.str())],
            None => Seq::<(Seq<char>, Seq<char>)>::empty(),
        }) + (match c.timeout {
            Some(t) => seq![("Timeout"@, t@)],
            None => Seq::<(Seq<char>, Seq<char>)>::empty(),
        }) + (match c.send_digits {
            Some(d) => seq![("SendDigits"@, d@)],
            None => Seq::<(Seq<char>, Seq<char>)>::empty(),
        }) + (match c.status_callback {
            Some(v) => seq![("StatusCallback"@, v@)],
            None => Seq::<(Seq<char>, Seq<char>)>::empty(),
        }), k) == key_count(a, k) + (if c.callback_event is Some && "StatusCallbackEvent"@ == k { 1nat } else { 0nat }) + (if c.timeout is Some && "Timeout"@ == k { 1nat } else { 0nat }) + (if c.send_digits is Some && "SendDigits"@ == k { 1nat } else { 0nat }) + (if c.status_callback is Some && "StatusCallback"@ == k { 1nat } else { 0nat }),
{
    let s5 = match &c.callback_event { Some(e) => seq![("StatusCallbackEvent"@, e.str())], None => Seq::<(Seq<char>, Seq<char>)>::empty() };
    let s6 = match &c.timeout { Some(v) => seq![("Timeout"@, v@)], None => Seq::<(Seq<char>, Seq<char>)>::empty() };
    let s7 = match &c.send_digits { Some(v) => seq![("SendDigits"@, v@)], None => Seq::<(Seq<char>, Seq<char>)>::empty() };
    let s8 = match &c.status_callback { Some(v) => seq![("StatusCallback"@, v@)], None => Seq::<(Seq<char>, Seq<char>)>::empty() };
    let a5 = a + s5;
    let a6 = a5 + s6;
    let a7 = a6 + s7;
    let a8 = a7 + s8;
    assert(a + s5 + s6 + s7 + s8 == a8);
    assert(key_count(Seq::<(Seq<char>, Seq<char>)>::empty(), k) == 0);
    lemma_key_count_app(a, s5, k);
    lemma_key_count_app(a5, s6, k);
    lemma_key_count_app(a6, s7, k);
    lemma_key_count_app(a7, s8, k);
    match &c.callback_event { Some(e) => { lemma_key_count_one(("StatusCallbackEvent"@, e.str()), k); }, None => {} }
    match &c.timeout { Some(v) => { lemma_key_count_one(("Timeout"@, v@), k); }, None => {} }
    match &c.send_digits { Some(v) => { lemma_key_count_one(("SendDigits"@, v@), k); }, None => {} }
    match &c.status_callback { Some(v) => { lemma_key_count_one(("StatusCallback"@, v@), k); }, None => {} }
}

/// How often any key occurs in the encoded call body: once when it is
/// the key of a mandatory field, once when it is the key of an optional
/// field that is set (for the two flags: set to true), and never
/// otherwise.
#[verifier::rlimit(100)]
#[verifier::spinoff_prover]
pub proof fn lemma_call_key_count(c: Call, k: Seq<char>)
    ensures
        key_count(c.spec_pairs(), k) == (if "To"@ == k { 1nat } else { 0nat }) + (if "From"@ == k { 1nat } else { 0nat }) + (if "Url"@ == k { 1nat } else { 0nat }) + (if c.sid is Some && "ApplicationSid"@ == k { 1nat } else { 0nat }) + (if c.callerid is Some && "CallerId"@ == k { 1nat } else { 0nat }) + (if c.machine_detection == Some(true) && "MachineDetection"@ == k { 1nat } else { 0nat }) + (if c.record == Some(true) && "Record"@ == k { 1nat } else { 0nat }) + (if c.callback_event is Some && "StatusCallbackEvent"@ == k { 1nat } else { 0nat }) + (if c.timeout is Some && "Timeout"@ == k { 1nat } else { 0nat }) + (if c.send_digits is Some && "SendDigits"@ == k { 1nat } else { 0nat }) + (if c.status_callback is Some && "StatusCallback"@ == k { 1nat } else { 0nat }),
{
    let prefix = seq![("To"@, c.to@), ("From"@, c.from@), ("Url"@, c.url@)] + (match c.sid {
        Some(v) => seq![("ApplicationSid"@, v@)],
        None => Seq::<(Seq<char>, Seq<char>)>::empty(),
    }) + (match c.callerid {
        Some(v) => seq![("CallerId"@, v@)],
        None => Seq::<(Seq<char>, Seq<char>)>::empty(),
    }) + (if c.machine_detection == Some(true) {
        seq![("MachineDetection"@, "Enable"@)]
    } else {
        Seq::<(Seq<char>, Seq<char>)>::empty()
    }) + (if c.record == Some(true) {
        seq![("Record"@, "true"@)]
    } else {
        Seq::<(Seq<char>, Seq<char>)>::empty()
    });
    lemma_call_key_count_prefix(c, k);
    lemma_call_key_count_suffix(c, prefix, k);
}

/// Each set optional field's exact pair stands in the encoded body.
#[verifier::rlimit(100)]
#[verifier::spinoff_prover]
proof fn lemma_call_contains(c: Call)
    ensures
        c.sid matches Some(s) ==> c.spec_pairs().contains(("ApplicationSid"@, s@)),
        c.callerid matches Some(v) ==> c.spec_pairs().contains(("CallerId"@, v@)),
        c.machine_detection == Some(true) ==> c.spec_pairs().contains(("MachineDetection"@, "Enable"@)),
        c.record == Some(true) ==> c.spec_pairs().contains(("Record"@, "true"@)),
        c.callback_event matches Some(e) ==> c.spec_pairs().contains(("StatusCallbackEvent"@, e.str())),
        c.timeout matches Some(t) ==> c.spec_pairs().contains(("Timeout"@, t@)),
        c.send_digits matches Some(d) ==> c.spec_pairs().contains(("SendDigits"@, d@)),
        c.status_callback matches Some(v) ==> c.spec_pairs().contains(("StatusCallback"@, v@)),
{
    let ps = c.spec_pairs();
    let n1: int = if c.sid is Some { 1int } else { 0int };
    let n2: int = n1 + if c.callerid is Some { 1int } else { 0int };
    let n3: int = n2 + if c.machine_detection == Some(true) { 1int } else { 0int };
    let n4: int = n3 + if c.record == Some(true) { 1int } else { 0int };
    let n5: int = n4 + if c.callback_event is Some { 1int } else { 0int };
    let n6: int = n5 + if c.timeout is Some { 1int } else { 0int };
    let n7: int = n6 + if c.send_digits is Some { 1int } else { 0int };
    match c.sid {
        Some(s) => {
            assert(ps[3] == ("ApplicationSid"@, s@));
            assert(ps.contains(("ApplicationSid"@, s@)));
        },
        None => {},
    }
    match c.callerid {
        Some(v) => {
            assert(ps[3 + n1] == ("CallerId"@, v@));
            assert(ps.contains(("CallerId"@, v@)));
        },
        None => {},
    }
    if c.machine_detection == Some(true) {
        assert(ps[3 + n2] == ("MachineDetection"@, "Enable"@));
        assert(ps.contains(("MachineDetection"@, "Enable"@)));
    }
    if c.record == Some(true) {
        assert(ps[3 + n3] == ("Record"@, "true"@));
        assert(ps.contains(("Record"@, "true"@)));
    }
    match c.callback_event {
        Some(e) => {
            assert(ps[3 + n4] == ("StatusCallbackEvent"@, e.str()));
            assert(ps.contains(("StatusCallbackEvent"@, e.str())));
        },
        None => {},
    }
    match c.timeout {
        Some(t) => {
            assert(ps[3 + n5] == ("Timeout"@, t@));
            assert(ps.contains(("Timeout"@, t@)));
        },
        None => {},
    }
    match c.send_digits {
        Some(d) => {
            assert(ps[3 + n6] == ("SendDigits"@, d@));
            assert(ps.contains(("SendDigits"@, d@)));
        },
        None => {},
    }
    match c.status_callback {
        Some(v) => {
            assert(ps[3 + n7] == ("StatusCallback"@, v@));
            assert(ps.contains(("StatusCallback"@, v@)));
        },
        None => {},
    }

}

/// The encoded call body holds exactly the pairs of the fields that are
/// set: the three mandatory fields always and in order, each optional
/// field exactly when set (the two flags: when set to true, as their
/// fixed wire value), its key appearing exactly once, and the key of an
/// unset field not at all.
#[verifier::rlimit(100)]
#[verifier::spinoff_prover]
pub proof fn lemma_call_pairs_exact(c: Call)
    ensures
        c.spec_pairs()[0] == ("To"@, c.to@),
        c.spec_pairs()[1] == ("From"@, c.from@),
        c.spec_pairs()[2] == ("Url"@, c.url@),
        key_count(c.spec_pairs(), "To"@) == 1,
        key_count(c.spec_pairs(), "From"@) == 1,
        key_count(c.spec_pairs(), "Url"@) == 1,
        c.sid matches Some(s) ==> c.spec_pairs().contains(("ApplicationSid"@, s@)),
        key_count(c.spec_pairs(), "ApplicationSid"@) == (if c.sid is Some { 1nat } else { 0nat }),
        c.callerid matches Some(v) ==> c.spec_pairs().contains(("CallerId"@, v@)),
        key_count(c.spec_pairs(), "CallerId"@) == (if c.callerid is Some { 1nat } else { 0nat }),
        c.machine_detection == Some(true) ==> c.spec_pairs().contains(("MachineDetection"@, "Enable"@)),
        key_count(c.spec_pairs(), "MachineDetection"@) == (if c.machine_detection == Some(true) { 1nat } else { 0nat }),
        c.record == Some(true) ==> c.spec_pairs().contains(("Record"@, "true"@)),
        key_count(c.spec_pairs(), "Record"@) == (if c.record == Some(true) { 1nat } else { 0nat }),
        c.callback_event matches Some(e) ==> c.spec_pairs().contains(("StatusCallbackEvent"@, e.str())),
        key_count(c.spec_pairs(), "StatusCallbackEvent"@) == (if c.callback_event is Some { 1nat } else { 0nat }),
        c.timeout matches Some(t) ==> c.spec_pairs().contains(("Timeout"@, t@)),
        key_count(c.spec_pairs(), "Timeout"@) == (if c.timeout is Some { 1nat } else { 0nat }),
        c.send_digits matches Some(d) ==> c.spec_pairs().contains(("SendDigits"@, d@)),
        key_count(c.spec_pairs(), "SendDigits"@) == (if c.send_digits is Some { 1nat } else { 0nat }),
        c.status_callback matches Some(v) ==> c.spec_pairs().contains(("StatusCallback"@, v@)),
        key_count(c.spec_pairs(), "StatusCallback"@) == (if c.status_callback is Some { 1nat } else { 0nat }),
{
    reveal_strlit("To");
    reveal_strlit("From");
    reveal_strlit("Url");
    reveal_strlit("ApplicationSid");
    reveal_strlit("CallerId");
    reveal_strlit("MachineDetection");
    reveal_strlit("Record");
    reveal_strlit("StatusCallbackEvent");
    reveal_strlit("Timeout");
    reveal_strlit("SendDigits");
    reveal_strlit("StatusCallback");
    assert("To"@.len() == 2 && "From"@.len() == 4 && "Url"@.len() == 3 && "ApplicationSid"@.len()
        == 14 && "CallerId"@.len() == 8 && "MachineDetection"@.len() == 16 && "Record"@.len() == 6
        && "StatusCallbackEvent"@.len() == 19 && "Timeout"@.len() == 7 && "SendDigits"@.len() == 10
        && "StatusCallback"@.len() == 14);
    assert("ApplicationSid"@[0] == 'A' && "StatusCallback"@[0] == 'S');
    lemma_call_key_count(c, "To"@);
    lemma_call_key_count(c, "From"@);
    lemma_call_key_count(c, "Url"@);
    lemma_call_key_count(c, "ApplicationSid"@);
    lemma_call_key_count(c, "CallerId"@);
    lemma_call_key_count(c, "MachineDetection"@);
    lemma_call_key_count(c, "Record"@);
    lemma_call_key_count(c, "StatusCallbackEvent"@);
    lemma_call_key_count(c, "Timeout"@);
    lemma_call_key_count(c, "SendDigits"@);
    lemma_call_key_count(c, "StatusCallback"@);
    lemma_call_contains(c);
}

/// The encoded body of a call built by any chain of the optional-field
/// setters: the three mandatory pairs first, in order, then exactly one
/// pair per optional field that is set, in the fixed rendering order,
/// each with the last value set, and no pair at all for an unset field.
/// The two boolean flags render their fixed wire values; a flag set to
/// false is omitted from the body altogether, so this statement leaves
/// those inputs out and the unconditional [`lemma_call_pairs_exact`]
/// covers them.
pub proof fn lemma_call_fields_exact(c: Call)
    requires
        c.machine_detection != Some(false),
        c.record != Some(false),
    ensures
        c.spec_pairs()[0] == ("To"@, c.to@),
        c.spec_pairs()[1] == ("From"@, c.from@),
        c.spec_pairs()[2] == ("Url"@, c.url@),
        key_count(c.spec_pairs(), "To"@) == 1,
        key_count(c.spec_pairs(), "From"@) == 1,
        key_count(c.spec_pairs(), "Url"@) == 1,
        c.sid matches Some(s) ==> c.spec_pairs().contains(("ApplicationSid"@, s@)),
        key_count(c.spec_pairs(), "ApplicationSid"@) == (if c.sid is Some { 1nat } else { 0nat }),
        c.callerid matches Some(v) ==> c.spec_pairs().contains(("CallerId"@, v@)),
        key_count(c.spec_pairs(), "CallerId"@) == (if c.callerid is Some { 1nat } else { 0nat }),
        c.machine_detection is Some ==> c.spec_pairs().contains(("MachineDetection"@, "Enable"@)),
        key_count(c.spec_pairs(), "MachineDetection"@) == (if c.machine_detection is Some { 1nat } else { 0nat }),
        c.record is Some ==> c.spec_pairs().contains(("Record"@, "true"@)),
        key_count(c.spec_pairs(), "Record"@) == (if c.record is Some { 1nat } else { 0nat }),
        c.callback_event matches Some(e) ==> c.spec_pairs().contains(("StatusCallbackEvent"@, e.str())),
        key_count(c.spec_pairs(), "StatusCallbackEvent"@) == (if c.callback_event is Some { 1nat } else { 0nat }),
        c.timeout matches Some(t) ==> c.spec_pairs().contains(("Timeout"@, t@)),
        key_count(c.spec_pairs(), "Timeout"@) == (if c.timeout is Some { 1nat } else { 0nat }),
        c.send_digits matches Some(d) ==> c.spec_pairs().contains(("SendDigits"@, d@)),
        key_count(c.spec_pairs(), "SendDigits"@) == (if c.send_digits is Some { 1nat } else { 0nat }),
        c.status_callback matches Some(v) ==> c.spec_pairs().contains(("StatusCallback"@, v@)),
        key_count(c.spec_pairs(), "StatusCallback"@) == (if c.status_callback is Some { 1nat } else { 0nat }),
{
    match c.machine_detection {
        Some(b) => {
            assert(b);
        },
        None => {},
    }
    match c.record {
        Some(b) => {
            assert(b);
        },
        None => {},
    }
    lemma_call_pairs_exact(c);
}

} // verus!
