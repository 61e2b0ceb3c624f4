use twilio_async::decode_body;
use twilio_async::CallResp;
use twilio_async::CallStatus;
use twilio_async::ConferenceResp;
use twilio_async::Direction;
use twilio_async::ListConferencesResp;
use twilio_async::MediaResp;
use twilio_async::MsgResp;
use twilio_async::MsgStatus;
use twilio_async::RecordingResp;
use twilio_async::RecordingStatus;
use twilio_async::TwilioErr;
use twilio_async::TwilioJson;

fn msg_success_body() -> String {
    let mut body = String::from("{\"from\":\"a\",\"to\":\"b\",\"body\":\"hello\",\"sid\":\"MM1\",");
    body.push_str("\"status\":\"sent\",\"media_url\":null,\"price\":\"-0.0075\",");
    body.push_str("\"price_unit\":\"USD\",\"uri\":\"/u\",\"date_created\":\"d1\",");
    body.push_str("\"date_updated\":\"d3\"}");
    body
}

// A body matching the success schema decodes to the Success variant,
// with the present fields populated and the absent optional fields
// empty.
#[test]
fn decode_success_shape() {
    let body = msg_success_body();
    let decoded = decode_body::<MsgResp>(&body).unwrap().unwrap();
    match decoded {
        TwilioJson::Success(m) => {
            assert_eq!(m.from, "a");
            assert_eq!(m.to, "b");
            assert_eq!(m.body, "hello");
            assert_eq!(m.sid, "MM1");
            assert_eq!(m.status, MsgStatus::sent);
            assert_eq!(m.media_url, None);
            assert_eq!(m.price.as_deref(), Some("-0.0075"));
            assert_eq!(m.price_unit, "USD");
            assert_eq!(m.uri, "/u");
            assert_eq!(m.date_created, "d1");
            assert_eq!(m.date_sent, None);
            assert_eq!(m.date_updated, "d3");
        },
        TwilioJson::Fail { .. } => panic!("decoded as failure"),
    }
}

// A failure envelope decodes to the Fail variant with those exact
// values.
#[test]
fn decode_failure_shape() {
    let body = "{\"code\":21211,\"message\":\"not a valid phone number\",\"status\":400}";
    let decoded = decode_body::<MsgResp>(body).unwrap().unwrap();
    match decoded {
        TwilioJson::Success(_) => panic!("decoded as success"),
        TwilioJson::Fail { code, message, status } => {
            assert_eq!(code, 21211);
            assert_eq!(message, "not a valid phone number");
            assert_eq!(status, 400);
        },
    }
}

// The success shape is tried first: a body carrying both shapes' fields
// decodes as success.
#[test]
fn success_shape_takes_precedence() {
    let body = msg_success_body().replace("{", "{\"code\":1,\"message\":\"m\",\"status\":2,");
    let decoded = decode_body::<MsgResp>(&body).unwrap().unwrap();
    assert!(matches!(decoded, TwilioJson::Success(_)));
}

#[test]
fn empty_body_is_no_content() {
    assert!(decode_body::<MsgResp>("").unwrap().is_none());
}

#[test]
fn invalid_json_is_body_decode_error() {
    let e = decode_body::<MsgResp>("{not json").unwrap_err();
    assert!(matches!(e, TwilioErr::SerdeErr(_)));
}

#[test]
fn unrecognised_shape_is_body_decode_error() {
    let e = decode_body::<MsgResp>("{\"something\":\"else\"}").unwrap_err();
    assert!(matches!(e, TwilioErr::SerdeErr(_)));
}

#[test]
fn wrongly_typed_field_rejects_success_shape() {
    let body = msg_success_body().replace("\"status\":\"sent\"", "\"status\":7");
    let e = decode_body::<MsgResp>(&body).unwrap_err();
    assert!(matches!(e, TwilioErr::SerdeErr(_)));
}

#[test]
fn unknown_status_name_rejects_success_shape() {
    let body = msg_success_body().replace("\"status\":\"sent\"", "\"status\":\"vanished\"");
    let e = decode_body::<MsgResp>(&body).unwrap_err();
    assert!(matches!(e, TwilioErr::SerdeErr(_)));
}

#[test]
fn decode_conference_success() {
    let mut body = String::from("{\"account_sid\":\"AC1\",\"date_created\":\"d0\",\"date_updated\":\"d1\",");
    body.push_str("\"friendly_name\":\"standup\",\"region\":\"us1\",\"sid\":\"CF1\",");
    body.push_str("\"status\":\"in-progress\",\"uri\":\"/c\"}");
    let body = body.as_str();
    let decoded = decode_body::<ConferenceResp>(body).unwrap().unwrap();
    match decoded {
        TwilioJson::Success(c) => {
            assert_eq!(c.account_sid, "AC1");
            assert_eq!(c.date_created.as_deref(), Some("d0"));
            assert_eq!(c.friendly_name, "standup");
            assert_eq!(c.status, "in-progress");
        },
        TwilioJson::Fail { .. } => panic!("decoded as failure"),
    }
}

#[test]
fn decode_conference_listing() {
    let mut body = String::from("{\"conferences\":[");
    body.push_str("{\"account_sid\":\"AC1\",\"date_created\":null,\"date_updated\":\"d1\",");
    body.push_str("\"friendly_name\":\"one\",\"region\":\"us1\",\"sid\":\"CF1\",");
    body.push_str("\"status\":\"completed\",\"uri\":\"/c1\"},");
    body.push_str("{\"account_sid\":\"AC1\",\"date_created\":\"d0\",\"date_updated\":\"d2\",");
    body.push_str("\"friendly_name\":\"two\",\"region\":\"us1\",\"sid\":\"CF2\",");
    body.push_str("\"status\":\"in-progress\",\"uri\":\"/c2\"}],");
    body.push_str("\"end\":1,\"next_page_uri\":null,\"previous_page_uri\":null,");
    body.push_str("\"uri\":\"/cs\",\"start\":0,\"page\":0,\"page_size\":50}");
    let decoded = decode_body::<ListConferencesResp>(&body).unwrap().unwrap();
    match decoded {
        TwilioJson::Success(l) => {
            assert_eq!(l.conferences.len(), 2);
            assert_eq!(l.conferences[0].sid, "CF1");
            assert_eq!(l.conferences[0].date_created, None);
            assert_eq!(l.conferences[1].friendly_name, "two");
            assert_eq!(l.end, 1);
            assert_eq!(l.page_size, 50);
            assert_eq!(l.next_page_uri, None);
        },
        TwilioJson::Fail { .. } => panic!("decoded as failure"),
    }
}

#[test]
fn decode_call_success() {
    let mut body = String::from("{\"from\":\"a\",\"to\":\"b\",\"sid\":\"CA1\",");
    body.push_str("\"start_time\":null,\"status\":\"in-progress\",\"account_sid\":\"AC1\",");
    body.push_str("\"caller_name\":null,\"duration\":61,\"price\":null,");
    body.push_str("\"price_unit\":\"USD\",\"uri\":\"/ca\",\"date_created\":\"d0\",");
    body.push_str("\"end_time\":null,\"phone_number_sid\":\"PN1\",");
    body.push_str("\"direction\":\"outbound-api\"}");
    let decoded = decode_body::<CallResp>(&body).unwrap().unwrap();
    match decoded {
        TwilioJson::Success(c) => {
            assert_eq!(c.sid, "CA1");
            assert_eq!(c.status, CallStatus::inprogress);
            assert_eq!(c.duration, Some(61));
            assert_eq!(c.direction, Direction::outbound_api);
            assert_eq!(c.start_time, None);
        },
        TwilioJson::Fail { .. } => panic!("decoded as failure"),
    }
}

#[test]
fn decode_recording_with_encryption() {
    let mut body = String::from("{\"account_sid\":\"AC1\",\"call_sid\":\"CA1\",");
    body.push_str("\"channels\":\"1\",\"conference_sid\":\"CF1\",\"date_created\":\"d0\",");
    body.push_str("\"date_updated\":\"d1\",\"end_time\":\"t1\",\"start_time\":\"t0\",");
    body.push_str("\"price\":\"0.0\",\"price_unit\":\"USD\",\"duration\":\"61\",");
    body.push_str("\"encryption_details\":{\"encryption_public_key_sid\":\"PK1\",");
    body.push_str("\"encryption_cek\":\"cek\",\"encryption_iv\":\"iv\"},");
    body.push_str("\"error_code\":\"0\",\"uri\":\"/r\",\"status\":\"processing\"}");
    let decoded = decode_body::<RecordingResp>(&body).unwrap().unwrap();
    match decoded {
        TwilioJson::Success(r) => {
            assert_eq!(r.call_sid, "CA1");
            assert_eq!(r.status, RecordingStatus::processing);
            assert_eq!(r.encryption_details.encryption_public_key_sid, "PK1");
            assert_eq!(r.encryption_details.encryption_iv, "iv");
        },
        TwilioJson::Fail { .. } => panic!("decoded as failure"),
    }
}

#[test]
fn decode_media_listing() {
    let mut body = String::from("{\"media_list\":[{\"account_sid\":\"AC1\",");
    body.push_str("\"content_type\":\"image/jpeg\",\"sid\":\"ME1\",\"uri\":\"/m1\",");
    body.push_str("\"message_sid\":\"MM1\",\"date_created\":\"d0\",\"date_update\":\"d1\"}],");
    body.push_str("\"num_pages\":1,\"page\":0,\"page_size\":50,\"start\":0,\"total\":1,");
    body.push_str("\"uri\":\"/ms\",\"account_sid\":\"AC1\",\"message_sid\":\"MM1\"}");
    let decoded = decode_body::<MediaResp>(&body).unwrap().unwrap();
    match decoded {
        TwilioJson::Success(m) => {
            assert_eq!(m.media_list.len(), 1);
            assert_eq!(m.media_list[0].content_type, "image/jpeg");
            assert_eq!(m.total, 1);
        },
        TwilioJson::Fail { .. } => panic!("decoded as failure"),
    }
}

// Parsing is a function of the body alone: the same body decodes to the
// same value on every call.
#[test]
fn decode_is_deterministic() {
    let body = msg_success_body();
    let first = decode_body::<MsgResp>(&body).unwrap().unwrap();
    let second = decode_body::<MsgResp>(&body).unwrap().unwrap();
    assert_eq!(first, second);
}

// The decoder agrees with serde_json's own reading of the document.
#[test]
fn decode_agrees_with_serde_json_value() {
    let body = msg_success_body();
    let v: serde_json::Value = serde_json::from_str(&body).unwrap();
    let decoded = decode_body::<MsgResp>(&body).unwrap().unwrap();
    match decoded {
        TwilioJson::Success(m) => {
            assert_eq!(Some(m.from.as_str()), v.get("from").and_then(|x| x.as_str()));
            assert_eq!(Some(m.uri.as_str()), v.get("uri").and_then(|x| x.as_str()));
        },
        TwilioJson::Fail { .. } => panic!("decoded as failure"),
    }
}
