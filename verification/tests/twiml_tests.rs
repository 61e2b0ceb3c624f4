use twilio_async::twiml::{Dial, Gather, Hangup, Method, Msg, Play, Record, Redirect, Response, Say, Twiml, Voice};

#[test]
fn mod_twiml_response() {
    let resp = Response::new()
        .say(Say::new("Hello World"))
        .play(Play::new("https://api.twilio.com/Cowbell.mp3"))
        .build();
    let s = "<Response><Say voice=\"man\" language=\"en\" loop=\"1\">Hello World</Say><Play loop=\"1\">https://api.twilio.com/Cowbell.mp3</Play></Response>";
    assert_eq!(resp.unwrap(), s.to_string());
}

#[test]
fn mod_twiml_resp_build() {
    let resp = Response::new()
        .say(Say::new("Hello World").lang("de").voice(Voice::alice))
        .play(Play::new("https://api.twilio.com/Cowbell.mp3"))
        .build();
    let s = "<Response><Say voice=\"alice\" language=\"de\" loop=\"1\">Hello World</Say><Play loop=\"1\">https://api.twilio.com/Cowbell.mp3</Play></Response>";
    assert_eq!(resp.unwrap(), s.to_string());
}

#[test]
fn mod_twiml_say() {
    let say = Say::new("Hello World").lang("de").voice(Voice::alice).build();
    let s = "<Say voice=\"alice\" language=\"de\" loop=\"1\">Hello World</Say>";
    assert_eq!(say.unwrap(), s.to_string());
}

#[test]
fn mod_twiml_play() {
    let play = Play::new("https://api.twilio.com/Cowbell.mp3").count(3).build();
    let s = "<Play loop=\"3\">https://api.twilio.com/Cowbell.mp3</Play>";
    assert_eq!(play.unwrap(), s.to_string());
}

#[test]
fn lib_twiml_response() {
    let resp = Response::new()
        .say(Say::new("Hello World"))
        .play(Play::new("https://api.twilio.com/Cowbell.mp3"))
        .build();
    let s = "<Response><Say voice=\"man\" language=\"en\" loop=\"1\">Hello World</Say><Play loop=\"1\">https://api.twilio.com/Cowbell.mp3</Play></Response>";
    assert_eq!(resp.unwrap(), s.to_string());
}

#[test]
fn lib_twiml_resp_build() {
    let resp = Response::new()
        .say(Say::new("Hello World").lang("de").voice(Voice::alice))
        .play(Play::new("https://api.twilio.com/Cowbell.mp3"))
        .build();
    let s = "<Response><Say voice=\"alice\" language=\"de\" loop=\"1\">Hello World</Say><Play loop=\"1\">https://api.twilio.com/Cowbell.mp3</Play></Response>";
    assert_eq!(resp.unwrap(), s.to_string());
}

#[test]
fn lib_twiml_say() {
    let say = Say::new("Hello World").lang("de").voice(Voice::alice).build();
    let s = "<Say voice=\"alice\" language=\"de\" loop=\"1\">Hello World</Say>";
    assert_eq!(say.unwrap(), s.to_string());
}

#[test]
fn lib_twiml_play() {
    let play = Play::new("https://api.twilio.com/Cowbell.mp3").count(3).build();
    let s = "<Play loop=\"3\">https://api.twilio.com/Cowbell.mp3</Play>";
    assert_eq!(play.unwrap(), s.to_string());
}

#[test]
fn twiml_response_dial() {
    let resp = Response::new().dial(Dial::new("415-123-4567")).build();
    let s = "<Response><Dial method=\"POST\" timeout=\"30\" record=\"do-not-record\">415-123-4567</Dial></Response>";
    assert_eq!(resp.unwrap(), s.to_string());
}

#[test]
fn twiml_response_hangup() {
    let resp = Response::new().hangup().build();
    let s = "<Response><Hangup /></Response>";
    assert_eq!(resp.unwrap(), s.to_string());
}

// The say-then-play document built from defaults, exactly as the wire
// format fixes it.
#[test]
fn say_play_scenario() {
    let resp = Response::new()
        .say(Say::new("Hello World"))
        .play(Play::new("https://x/y.mp3"))
        .build();
    let s = "<Response><Say voice=\"man\" language=\"en\" loop=\"1\">Hello World</Say><Play loop=\"1\">https://x/y.mp3</Play></Response>";
    assert_eq!(resp.unwrap(), s.to_string());
}

// A dial node with defaults, standalone.
#[test]
fn dial_default_scenario() {
    let dial = Dial::new("415-123-4567").build();
    let s = "<Dial method=\"POST\" timeout=\"30\" record=\"do-not-record\">415-123-4567</Dial>";
    assert_eq!(dial.unwrap(), s.to_string());
}

// Attach order does not matter: the root emits the say child ahead of
// the dial child either way, byte for byte.
#[test]
fn attach_order_irrelevant() {
    let a = Response::new()
        .dial(Dial::new("415-123-4567"))
        .say(Say::new("Hello"))
        .build()
        .unwrap();
    let b = Response::new()
        .say(Say::new("Hello"))
        .dial(Dial::new("415-123-4567"))
        .build()
        .unwrap();
    assert_eq!(a, b);
    let say_at = a.find("<Say").unwrap();
    let dial_at = a.find("<Dial").unwrap();
    assert!(say_at < dial_at);
}

// Attaching a second node of one kind keeps only the last one.
#[test]
fn attach_last_write_wins() {
    let resp = Response::new()
        .say(Say::new("first"))
        .say(Say::new("second"))
        .build()
        .unwrap();
    assert_eq!(
        resp,
        "<Response><Say voice=\"man\" language=\"en\" loop=\"1\">second</Say></Response>"
    );
}

#[test]
fn gather_with_say_and_action() {
    let gather = Gather::default()
        .say(Say::new("press a key"))
        .method(Method::Get)
        .finish_on_key('*')
        .timeout(20);
    let resp = Response::new().gather(gather).build().unwrap();
    let s = "<Response><Gather method=\"GET\" timeout=\"20\" finishOnKey=\"*\"><Say voice=\"man\" language=\"en\" loop=\"1\">press a key</Say></Gather></Response>";
    assert_eq!(resp, s.to_string());
}

#[test]
fn gather_empty_self_closes() {
    let resp = Response::new().gather(Gather::default()).build().unwrap();
    let s = "<Response><Gather method=\"POST\" timeout=\"5\" finishOnKey=\"#\" /></Response>";
    assert_eq!(resp, s.to_string());
}

#[test]
fn redirect_and_message() {
    let resp = Response::new()
        .msg(Msg::new("body text"))
        .redirect(Redirect::new("https://x/next").method(Method::Get))
        .build()
        .unwrap();
    let s = "<Response><Redirect method=\"GET\">https://x/next</Redirect><Message><Body>body text</Body></Message></Response>";
    assert_eq!(resp, s.to_string());
}

#[test]
fn dial_with_all_attributes() {
    let dial = Dial::new("415-123-4567")
        .method(Method::Get)
        .timeout(60)
        .record(Record::RecordFromAnswer)
        .action("https://x/done")
        .recording_callback("https://x/rec")
        .build()
        .unwrap();
    let s = "<Dial method=\"GET\" timeout=\"60\" record=\"record-from-answer\" action=\"https://x/done\" recordingStatusCallback=\"https://x/rec\">415-123-4567</Dial>";
    assert_eq!(dial, s.to_string());
}

#[test]
fn empty_response_self_closes() {
    assert_eq!(Response::new().build().unwrap(), "<Response />");
}

#[test]
fn hangup_standalone() {
    assert_eq!(Hangup::new().build().unwrap(), "<Hangup />");
}

// The escaping matches the writer the wire format was defined against:
// the same document, produced through the xml crate's event writer,
// is byte-identical.
#[test]
fn matches_xml_event_writer() {
    let body = "a <b> & \"c\" 'd'";
    let lang = "d\"e<&>'\n\r";
    let ours = Response::new()
        .say(Say::new(body).lang(lang))
        .build()
        .unwrap();

    let mut buf: Vec<u8> = Vec::new();
    {
        let mut w = xml::EmitterConfig::new()
            .write_document_declaration(false)
            .create_writer(&mut buf);
        w.write(xml::writer::XmlEvent::start_element("Response")).unwrap();
        w.write(
            xml::writer::XmlEvent::start_element("Say")
                .attr("voice", "man")
                .attr("language", lang)
                .attr("loop", "1"),
        )
        .unwrap();
        w.write(body).unwrap();
        w.write(xml::writer::XmlEvent::end_element()).unwrap();
        w.write(xml::writer::XmlEvent::end_element()).unwrap();
    }
    let theirs = String::from_utf8(buf).unwrap();
    assert_eq!(ours, theirs);
}

#[test]
fn voice_and_method_names() {
    assert_eq!(Voice::man.to_str(), "man");
    assert_eq!(Voice::woman.to_str(), "woman");
    assert_eq!(Voice::alice.to_str(), "alice");
    assert_eq!(Method::Get.to_str(), "GET");
    assert_eq!(Method::Post.to_str(), "POST");
    assert_eq!(Record::DoNotRecord.to_str(), "do-not-record");
    assert_eq!(Record::RecordFromRinging.to_str(), "record-from-ringing");
}

#[test]
fn say_count_in_loop_attribute() {
    let say = Say::new("x").say_count(12).build().unwrap();
    assert_eq!(say, "<Say voice=\"man\" language=\"en\" loop=\"12\">x</Say>");
}
