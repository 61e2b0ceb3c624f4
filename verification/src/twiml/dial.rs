//! The `Dial` node: connects the call to another number.

use super::{attr_str, escape_text, Method, Twiml, TwimlResult};
use crate::support::{dec_str, usize_to_string};
use crate::twiml::append_attr;
use crate::twiml::append_text_escaped;
use vstd::prelude::*;
use vstd::string::StringExecFns;

verus! {

/// Whether and from when the dialled call is recorded.
#[derive(Clone, Copy, Debug, PartialEq, Eq, Structural)]
pub enum Record {
    DoNotRecord,
    RecordFromAnswer,
    RecordFromRinging,
}

impl Record {
    /// The attribute value for this recording mode.
    pub open spec fn str(self) -> Seq<char> {
        match self {
            Record::DoNotRecord => "do-not-record"@,
            Record::RecordFromAnswer => "record-from-answer"@,
            Record::RecordFromRinging => "record-from-ringing"@,
        }
    }

    pub fn to_str(&self) -> (r: &'static str)
        ensures
            r@ == self.str(),
    {
        match *self {
            Record::DoNotRecord => "do-not-record",
            Record::RecordFromAnswer => "record-from-answer",
            Record::RecordFromRinging => "record-from-ringing",
        }
    }
}

/// A dial instruction. New values use `POST`, a thirty-second timeout and
/// no recording; the action and recording-callback attributes appear only
/// once set.
#[derive(Debug)]
pub struct Dial {
    pub method: Method,
    pub action: Option<String>,
    pub timeout: usize,
    pub number: String,
    pub recording_callback: Option<String>,
    pub record: Record,
}

impl Default for Dial {
    fn default() -> (r: Dial)
        ensures
            r.number@ == Seq::<char>::empty(),
            r.method == Method::Post,
            r.recording_callback is None,
            r.record == Record::DoNotRecord,
            r.action is None,
            r.timeout == 30usize,
    {
        Dial {
            number: String::new(),
            method: Method::Post,
            recording_callback: None,
            record: Record::DoNotRecord,
            action: None,
            timeout: 30,
        }
    }
}

impl Dial {
    pub fn new(number: &str) -> (r: Dial)
        ensures
            r.number@ == number@,
            r.method == Method::Post,
            r.recording_callback is None,
            r.record == Record::DoNotRecord,
            r.action is None,
            r.timeout == 30usize,
    {
        Dial { number: number.to_owned(), ..Dial::default() }
    }

    pub fn method(self, method: Method) -> (r: Dial)
        ensures
            r == (Dial { method, ..self }),
    {
        Dial { method, ..self }
    }

    pub fn action(self, url: &str) -> (r: Dial)
        ensures
            r == (Dial { action: r.action, ..self }),
            r.action matches Some(a) && a@ == url@,
    {
        Dial { action: Some(url.to_owned()), ..self }
    }

    pub fn record(self, status: Record) -> (r: Dial)
        ensures
            r == (Dial { record: status, ..self }),
    {
        Dial { record: status, ..self }
    }

    pub fn recording_callback(self, url: &str) -> (r: Dial)
        ensures
            r == (Dial { recording_callback: r.recording_callback, ..self }),
            r.recording_callback matches Some(u) && u@ == url@,
    {
        Dial { recording_callback: Some(url.to_owned()), ..self }
    }

    pub fn timeout(self, timeout: usize) -> (r: Dial)
        ensures
            r == (Dial { timeout, ..self }),
    {
        Dial { timeout, ..self }
    }

    /// The serialised optional attributes: `action`, then
    /// `recordingStatusCallback`, each only when set.
    pub open spec fn opt_attrs(&self) -> Seq<char> {
        (match self.action {
            Some(a) => attr_str("action"@, a@),
            None => Seq::<char>::empty(),
        }) + (match self.recording_callback {
            Some(u) => attr_str("recordingStatusCallback"@, u@),
            None => Seq::<char>::empty(),
        })
    }
}

impl Twiml for Dial {
    /// `<Dial method=".." timeout=".." record="..">number</Dial>`, with
    /// `action` and `recordingStatusCallback` between `record` and the
    /// closing bracket when present.
    open spec fn xml(&self) -> Seq<char> {
        "<Dial"@ + attr_str("method"@, self.method.str()) + attr_str(
            "timeout"@,
            dec_str(self.timeout as nat),
        ) + attr_str("record"@, self.record.str()) + self.opt_attrs() + ">"@ + escape_text(
            self.number@,
        ) + "</Dial>"@
    }

    fn write(&self, w: &mut String) {
        let ghost w0 = w@;
        w.append("<Dial");
        append_attr(w, "method", self.method.to_str());
        let timeout = usize_to_string(self.timeout);
        append_attr(w, "timeout", timeout.as_str());
        append_attr(w, "record", self.record.to_str());
        if let Some(action) = &self.action {
            append_attr(w, "action", action.as_str());
        }
        if let Some(callback) = &self.recording_callback {
            append_attr(w, "recordingStatusCallback", callback.as_str());
        }
        w.append(">");
        append_text_escaped(w, self.number.as_str());
        w.append("</Dial>");
        proof {
            assert(w@ =~= w0 + self.xml());
        }
    }

    fn build(&self) -> (r: TwimlResult<String>) {
        let mut w = String::new();
        self.write(&mut w);
        Ok(w)
    }
}

} // verus!
