use twilio_async::twiliourl::Url;
use twilio_async::Conference;
use twilio_async::Conferences;
use twilio_async::GetConference;
use twilio_async::GetMessage;
use twilio_async::GetRecording;
use twilio_async::HttpMethod;
use twilio_async::Messages;
use twilio_async::Msg;
use twilio_async::Recording;
use twilio_async::Recordings;
use twilio_async::RequestType;
use twilio_async::SendMsg;
use twilio_async::Twilio;
use twilio_async::TwilioErr;

#[test]
fn client_derives_basic_auth_header() {
    let twilio = Twilio::new("user", "pass").unwrap();
    assert_eq!(twilio.sid, "user");
    assert_eq!(twilio.auth, "Basic dXNlcjpwYXNz");
}

#[test]
fn client_rejects_colon_in_sid() {
    let e = Twilio::new("user:x", "pass").unwrap_err();
    assert!(matches!(e, TwilioErr::HeaderErr(_)));
}

#[test]
fn client_rejects_control_characters() {
    let e = Twilio::new("user", "pa\nss").unwrap_err();
    assert!(matches!(e, TwilioErr::HeaderErr(_)));
}

#[test]
fn request_builds_account_url() {
    let twilio = Twilio::new("AC123", "token").unwrap();
    let send = twilio.send_msg("a", "b", "hi");
    let spec = twilio.request(send.request_parts()).unwrap();
    assert_eq!(spec.method, HttpMethod::Post);
    assert_eq!(spec.url, "https://api.twilio.com/2010-04-01/Accounts/AC123/Messages.json");
    assert_eq!(spec.auth, twilio.auth);
    assert_eq!(spec.form_body.as_deref(), Some("To=b&From=a&Body=hi"));
}

#[test]
fn request_rejects_invalid_url() {
    let twilio = Twilio::new("AC123", "token").unwrap();
    let get = twilio.msg("has space");
    let e = twilio.request(get.request_parts()).unwrap_err();
    assert!(matches!(e, TwilioErr::UrlParse(_)));
}

#[test]
fn message_operation_paths() {
    let get = GetMessage { message_sid: "MM1".to_string() };
    assert_eq!(get.request_parts().path, "Messages/MM1.json");
    assert_eq!(get.request_parts().method, HttpMethod::Get);
    assert!(get.request_parts().body.is_none());
    let redact = get.redact_parts();
    assert_eq!(redact.method, HttpMethod::Post);
    assert_eq!(redact.body.as_deref(), Some("Body="));
    let delete = get.delete_parts();
    assert_eq!(delete.method, HttpMethod::Delete);
    assert!(delete.body.is_none());
    assert_eq!(get.media_parts().path, "Messages/MM1/Media.json");
    assert_eq!(Messages.request_parts().path, "Messages.json");
}

#[test]
fn send_msg_operation() {
    let send = SendMsg { msg: Msg::new("a", "b", "hi") };
    let parts = send.request_parts();
    assert_eq!(parts.method, HttpMethod::Post);
    assert_eq!(parts.path, "Messages.json");
    assert_eq!(parts.body.as_deref(), Some("To=b&From=a&Body=hi"));
}

#[test]
fn conference_operations() {
    let get = GetConference { conference: Conference::new("CF1") };
    let fetch = get.request_parts();
    assert_eq!(fetch.method, HttpMethod::Get);
    assert_eq!(fetch.path, "Conferences/CF1.json");
    assert!(fetch.body.is_none());
    let ended = get.end();
    let post = ended.request_parts();
    assert_eq!(post.method, HttpMethod::Post);
    assert_eq!(post.path, "Conferences/CF1.json");
    assert_eq!(post.body.as_deref(), Some("Status=completed"));
    assert_eq!(Conferences.request_parts().path, "Conferences.json");
}

#[test]
fn recording_operations() {
    let get = GetRecording { recording: Recording::new("RE1") };
    assert_eq!(get.request_parts().path, "Recordings/RE1.json");
    let del = get.delete_parts();
    assert_eq!(del.method, HttpMethod::Delete);
    assert_eq!(del.path, "Recordings/RE1.json");
    assert_eq!(Recordings.request_parts().path, "Recordings.json");
    assert_eq!(Recordings.for_call_parts("CA1").path, "Recordings.json?CallSid=CA1");
    assert_eq!(Recordings.created_parts("2020-01-01").path, "Recordings.json?DateCreated=2020-01-01");
    assert_eq!(
        Recordings.range_parts("2020-02-01", "2020-01-01").path,
        "Recordings.json?DateCreatedBefore=2020-02-01&DateCreatedAfter=2020-01-01"
    );
}

// The synchronous design's conflict rule: a second request that begins
// on the loop before the first ends fails at once with the borrow
// conflict, and the first request is left running.
#[test]
fn second_begin_conflicts() {
    let mut guard = twilio_async::LoopGuard::new();
    assert!(guard.try_begin().is_ok());
    let second = guard.try_begin();
    assert!(matches!(second.unwrap_err(), TwilioErr::BorrowErr));
    assert!(guard.in_flight);
    guard.end();
    assert!(guard.try_begin().is_ok());
}

#[test]
fn url_value_renders_query() {
    let mut url = Url::new("https://x/y");
    assert_eq!(url.to_string(), "https://x/y");
    let pairs = vec![("a", "1 2"), ("b", "&")];
    url.set_query_pairs(&pairs);
    assert_eq!(url.to_string(), "https://x/y?a=1+2&b=%26");
}

#[test]
fn request_type_renders_message() {
    let req = RequestType::Message(Msg::new("a", "b", "hi there"));
    assert_eq!(req.to_string(), "To=b&From=a&Body=hi+there");
}

#[test]
fn error_kind_names() {
    assert_eq!(TwilioErr::BorrowErr.kind_str(), "BorrowErr");
}

#[test]
fn accessors_build_operations() {
    let twilio = Twilio::new("AC1", "t").unwrap();
    assert_eq!(twilio.msg("MM1").message_sid, "MM1");
    assert_eq!(twilio.call("a", "b", "u").call.to_string(), "To=b&From=a&Url=u");
    assert_eq!(twilio.conference("CF1").conference.sid, "CF1");
    assert_eq!(twilio.recording("RE1").recording.sid, "RE1");
    assert_eq!(twilio.msgs().request_parts().path, "Messages.json");
    assert_eq!(twilio.conferences().request_parts().path, "Conferences.json");
    assert_eq!(twilio.recordings().request_parts().path, "Recordings.json");
}
