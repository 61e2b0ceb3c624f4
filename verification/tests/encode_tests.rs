use twilio_async::encode_pairs;
use twilio_async::url_encode;
use twilio_async::Call;
use twilio_async::CallbackEvent;
use twilio_async::Messages;
use twilio_async::Msg;
use twilio_async::SendCall;
use twilio_async::SendMsg;

#[test]
fn encode_pairs_plain() {
    let pairs = vec![("To", "b"), ("From", "a"), ("Body", "hello world")];
    assert_eq!(encode_pairs(&pairs).unwrap(), "To=b&From=a&Body=hello+world");
}

#[test]
fn encode_pairs_reserved_characters() {
    let pairs = vec![("k&=", "v /"), ("a+b", "c%d")];
    assert_eq!(encode_pairs(&pairs).unwrap(), "k%26%3D=v+%2F&a%2Bb=c%25d");
}

#[test]
fn encode_pairs_empty() {
    let pairs: Vec<(&str, &str)> = Vec::new();
    assert_eq!(encode_pairs(&pairs).unwrap(), "");
}

#[test]
fn encode_pairs_utf8() {
    let pairs = vec![("f", "déjà vu")];
    assert_eq!(encode_pairs(&pairs).unwrap(), "f=d%C3%A9j%C3%A0+vu");
}

// The encoder matches the url crate's form serialiser on the same pairs.
#[test]
fn encode_matches_form_urlencoded() {
    let pairs = vec![("k&=", "v /"), ("über", "maß & mehr"), ("plain", "x")];
    let ours = encode_pairs(&pairs).unwrap();
    let mut ser = url::form_urlencoded::Serializer::new(String::new());
    for (k, v) in &pairs {
        ser.append_pair(k, v);
    }
    assert_eq!(ours, ser.finish());
}

// Decoding the encoder's output with the url crate's parser gives back
// the original pairs, reserved characters and all.
#[test]
fn encode_round_trips_through_parser() {
    let pairs = vec![("k&=", "v /"), ("a b", "c=d&e"), ("ß", "日本")];
    let encoded = encode_pairs(&pairs).unwrap();
    let decoded: Vec<(String, String)> =
        url::form_urlencoded::parse(encoded.as_bytes()).into_owned().collect();
    let expected: Vec<(String, String)> =
        pairs.iter().map(|(k, v)| (k.to_string(), v.to_string())).collect();
    assert_eq!(decoded, expected);
}

#[test]
fn url_encode_naive_join() {
    let pairs = vec![("From", "a"), ("To", "b")];
    assert_eq!(url_encode(&pairs), "From=a&To=b&");
}

#[test]
fn url_encode_leaves_reserved_characters() {
    let pairs = vec![("k", "a b&c")];
    assert_eq!(url_encode(&pairs), "k=a b&c&");
}

#[test]
fn url_encode_empty() {
    let pairs: Vec<(&str, &str)> = Vec::new();
    assert_eq!(url_encode(&pairs), "");
}

#[test]
fn msg_body_mandatory_only() {
    let m = Msg::new("a", "b", "hello world");
    assert_eq!(m.to_string(), "To=b&From=a&Body=hello+world");
}

#[test]
fn msg_body_with_media() {
    let send = SendMsg { msg: Msg::new("a", "b", "x") }.media("https://x/1.jpg");
    assert_eq!(send.msg.to_string(), "To=b&From=a&Body=x&MediaUrl=https%3A%2F%2Fx%2F1.jpg");
}

#[test]
fn msg_media_last_write_wins() {
    let send = SendMsg { msg: Msg::new("a", "b", "x") }
        .media("https://x/1.jpg")
        .media("https://x/2.jpg");
    assert_eq!(send.msg.to_string(), "To=b&From=a&Body=x&MediaUrl=https%3A%2F%2Fx%2F2.jpg");
}

#[test]
fn call_body_mandatory_only() {
    let c = Call::new("a", "b", "https://x/voice.xml");
    assert_eq!(c.to_string(), "To=b&From=a&Url=https%3A%2F%2Fx%2Fvoice.xml");
}

#[test]
fn call_body_all_fields_in_fixed_order() {
    let send = SendCall { call: Call::new("a", "b", "u") }
        .sid("AP1")
        .callerid("me")
        .machine_detection(true)
        .record(true)
        .callback_event(CallbackEvent::Ringing)
        .timeout("15")
        .send_digits("123#")
        .status_callback("https://x/cb");
    assert_eq!(
        send.call.to_string(),
        "To=b&From=a&Url=u&ApplicationSid=AP1&CallerId=me&MachineDetection=Enable&Record=true&StatusCallbackEvent=ringing&Timeout=15&SendDigits=123%23&StatusCallback=https%3A%2F%2Fx%2Fcb"
    );
}

#[test]
fn call_false_flags_are_omitted() {
    let send = SendCall { call: Call::new("a", "b", "u") }
        .machine_detection(false)
        .record(false);
    assert_eq!(send.call.to_string(), "To=b&From=a&Url=u");
}

#[test]
fn call_setter_last_write_wins() {
    let send = SendCall { call: Call::new("a", "b", "u") }
        .timeout("15")
        .timeout("45");
    assert_eq!(send.call.to_string(), "To=b&From=a&Url=u&Timeout=45");
}

#[test]
fn messages_details_query() {
    let details = Messages.between("start date", "end date");
    assert_eq!(details.to_string(), "From=start date&To=end date&");
    assert_eq!(
        details.request_parts().path,
        "Messages.json?From=start date&To=end date&"
    );
    let on = Messages.on("a date");
    assert_eq!(on.to_string(), "DateSent=a date&");
}
