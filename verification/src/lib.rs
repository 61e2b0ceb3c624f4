//! A verified client core for a telephony REST API.
//!
//! Two subsystems carry the logic. The request side builds authenticated
//! request descriptions for a fixed set of remote resources and decodes the
//! JSON bodies that come back, either into a typed success value or into the
//! service's failure envelope. The markup side composes call-handling
//! instructions as a tree of typed nodes and serialises them to an XML
//! document with a fixed attribute and child order.

pub mod call;
pub mod conference;
pub mod encode;
pub mod error;
pub mod json;
pub mod message;
pub mod recording;
pub mod request;
pub mod support;
pub mod twiliourl;
pub mod twiml;

pub use call::{Call, CallResp, CallStatus, CallbackEvent, Direction, SendCall};
pub use conference::{Conference, ConferenceResp, Conferences, GetConference, ListConferencesResp};
pub use encode::{encode_pairs, url_encode};
pub use error::{TwilioErr, TwilioResult};
pub use json::{decode_body, FromJson, JsonNode};
pub use message::{
    GetMessage, ListAllMsgs, MediaItem, MediaResp, Messages, MessagesDetails, Msg, MsgResp,
    MsgStatus, SendMsg,
};
pub use recording::{
    EncryptionDetails, GetRecording, ListRecordingResp, Recording, RecordingResp, RecordingStatus,
    Recordings,
};
pub use request::{HttpMethod, RequestParts, RequestType};

use vstd::prelude::*;
use vstd::string::StringExecFns;

verus! {

/// The decoded body of a response: either the typed success shape the
/// operation expects, or the service's failure envelope with its numeric
/// code, message and status. A remote-side rejection arrives as `Fail`,
/// not on the error channel.
#[derive(Debug, PartialEq)]
pub enum TwilioJson<T> {
    Success(T),
    Fail { code: usize, message: String, status: usize },
}

pub type TwilioResp<T> = Result<T, TwilioErr>;

/// Whether a character is an ASCII control character; the credential
/// builder rejects strings that hold one.
pub open spec fn is_ctl_char(c: char) -> bool {
    (c as u32) < 32 || (c as u32) == 127
}

/// Whether a user id and secret can form a Basic credential: no colon in
/// the user id, no control character in either.
pub open spec fn basic_ok(user: Seq<char>, pass: Seq<char>) -> bool {
    (forall|i: int| 0 <= i < user.len() ==> user[i] != ':' && !is_ctl_char(user[i])) && (forall|
        i: int,
    | 0 <= i < pass.len() ==> !is_ctl_char(pass[i]))
}

/// The base64 token of a Basic credential, as the header renders it: a
/// fixed function of the user id and the secret.
pub uninterp spec fn basic_token_of(user: Seq<char>, pass: Seq<char>) -> Seq<char>;

/// Relies on `typed_headers::Credentials::basic`: it fails exactly when
/// the user id holds a colon or either part holds an ASCII control
/// character, and otherwise the credential renders as the scheme, a
/// space and the base64 token of `user:pass`.
#[verifier::external_body]
fn basic_auth_value(user: &str, pass: &str) -> (r: Result<String, typed_headers::Error>)
    ensures
        r matches Ok(v) ==> basic_ok(user@, pass@) && v@ == "Basic "@ + basic_token_of(
            user@,
            pass@,
        ),
        r matches Err(_) ==> !basic_ok(user@, pass@),
{
    let credentials = typed_headers::Credentials::basic(user, pass)?;
    Ok(credentials.to_string())
}

/// Whether the `http` crate accepts a string as a URI.
pub uninterp spec fn uri_ok(s: Seq<char>) -> bool;

/// Relies on `str::parse::<http::Uri>`: it accepts exactly the strings
/// the `http` crate can parse as a URI.
#[verifier::external_body]
fn check_uri(s: &str) -> (r: Result<(), http::uri::InvalidUri>)
    ensures
        r matches Ok(_) ==> uri_ok(s@),
        r matches Err(_) ==> !uri_ok(s@),
{
    s.parse::<http::Uri>().map(|_| ())
}

/// The account-scoped URL of a relative path: the fixed API base, the
/// account identifier and the path.
pub open spec fn account_url(sid: Seq<char>, path: Seq<char>) -> Seq<char> {
    "https://api.twilio.com/2010-04-01/Accounts"@ + "/"@ + sid + "/"@ + path
}

/// An authenticated request, ready for a transport: the method, the full
/// URL (already checked to parse as a URI), the authentication header
/// value, and the form body exactly when the operation sends one.
#[derive(Debug)]
pub struct RequestSpec {
    pub method: HttpMethod,
    pub url: String,
    pub auth: String,
    pub form_body: Option<String>,
}

/// A client handle: the account identifier and the authentication header
/// value derived once from the credential. Both are read-only for the
/// handle's lifetime and safely shared by every operation it issues.
#[derive(Debug)]
pub struct Twilio {
    pub sid: String,
    pub auth: String,
}

impl Twilio {
    /// Builds a handle from the credential, deriving the authentication
    /// header once. Fails with the header-construction error exactly
    /// when the credential cannot form a Basic header.
    pub fn new(sid: &str, token: &str) -> (r: TwilioResult<Twilio>)
        ensures
            r matches Ok(t) ==> basic_ok(sid@, token@) && t.sid@ == sid@ && t.auth@ == "Basic "@
                + basic_token_of(sid@, token@),
            r matches Err(e) ==> !basic_ok(sid@, token@) && (e matches TwilioErr::HeaderErr(_)),
    {
        match basic_auth_value(sid, token) {
            Ok(auth) => Ok(Twilio { sid: sid.to_owned(), auth }),
            Err(e) => Err(TwilioErr::HeaderErr(e)),
        }
    }

    /// Builds the authenticated request for one operation: the
    /// account-scoped URL of the operation's path, the stored
    /// authentication header, and the operation's body. Fails with the
    /// URL-parse error exactly when that URL is not a URI.
    pub fn request(&self, parts: RequestParts) -> (r: TwilioResult<RequestSpec>)
        ensures
            r matches Ok(spec) ==> uri_ok(account_url(self.sid@, parts.path@)) && spec.method
                == parts.method && spec.url@ == account_url(self.sid@, parts.path@) && spec.auth
                == self.auth && spec.form_body == parts.body,
            r matches Err(e) ==> !uri_ok(account_url(self.sid@, parts.path@)) && (
            e matches TwilioErr::UrlParse(_)),
    {
        let mut url = "https://api.twilio.com/2010-04-01/Accounts".to_owned();
        url.append("/");
        url.append(self.sid.as_str());
        url.append("/");
        url.append(parts.path.as_str());
        match check_uri(url.as_str()) {
            Ok(_) => Ok(
                RequestSpec {
                    method: parts.method,
                    url,
                    auth: self.auth.clone(),
                    form_body: parts.body,
                },
            ),
            Err(e) => Err(TwilioErr::UrlParse(e)),
        }
    }

    pub fn send_msg(&self, from: &str, to: &str, body: &str) -> (r: SendMsg)
        ensures
            r.msg.from@ == from@,
            r.msg.to@ == to@,
            r.msg.body@ == body@,
            r.msg.media_url is None,
    {
        SendMsg { msg: Msg::new(from, to, body) }
    }

    pub fn msg(&self, message_sid: &str) -> (r: GetMessage)
        ensures
            r.message_sid@ == message_sid@,
    {
        GetMessage { message_sid: message_sid.to_owned() }
    }

    pub fn msgs(&self) -> Messages {
        Messages
    }

    pub fn call(&self, from: &str, to: &str, url: &str) -> (r: SendCall)
        ensures
            r.call.from@ == from@,
            r.call.to@ == to@,
            r.call.url@ == url@,
            r.call.sid is None,
            r.call.callerid is None,
            r.call.machine_detection is None,
            r.call.record is None,
            r.call.send_digits is None,
            r.call.status_callback is None,
            r.call.callback_event is None,
            r.call.timeout is None,
    {
        SendCall { call: Call::new(from, to, url) }
    }

    pub fn conference(&self, sid: &str) -> (r: GetConference)
        ensures
            r.conference.sid@ == sid@,
            r.conference.status is None,
    {
        GetConference { conference: Conference::new(sid) }
    }

    pub fn conferences(&self) -> Conferences {
        Conferences
    }

    pub fn recording(&self, sid: &str) -> (r: GetRecording)
        ensures
            r.recording.sid@ == sid@,
    {
        GetRecording { recording: Recording::new(sid) }
    }

    pub fn recordings(&self) -> Recordings {
        Recordings
    }
}

/// The guard of the synchronous design's single event loop. A request
/// takes the guard before it runs on the loop and gives it back after;
/// taking it while another request holds it fails at once with the
/// concurrency-conflict error, and the holder is left undisturbed —
/// nothing waits, nothing is queued.
#[derive(Debug)]
pub struct LoopGuard {
    pub in_flight: bool,
}

impl LoopGuard {
    pub fn new() -> (r: LoopGuard)
        ensures
            !r.in_flight,
    {
        LoopGuard { in_flight: false }
    }

    /// Claims the loop for one request. A second claim that arrives
    /// before [`LoopGuard::end`] fails with the conflict error and
    /// changes nothing.
    pub fn try_begin(&mut self) -> (r: TwilioResult<()>)
        ensures
            !old(self).in_flight ==> final(self).in_flight && (r matches Ok(_)),
            old(self).in_flight ==> *final(self) == *old(self) && (r matches Err(e)
                && e matches TwilioErr::BorrowErr),
    {
        if self.in_flight {
            Err(TwilioErr::BorrowErr)
        } else {
            self.in_flight = true;
            Ok(())
        }
    }

    /// Releases the loop once the request completed.
    pub fn end(&mut self)
        ensures
            !final(self).in_flight,
    {
        self.in_flight = false;
    }
}

} // verus!

