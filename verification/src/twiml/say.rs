//! The `Say` node: spoken text with a voice, a language and a repeat count.

use super::{attr_str, escape_text, Twiml, TwimlResult};
use crate::support::{dec_str, usize_to_string};
use crate::twiml::append_attr;
use crate::twiml::append_text_escaped;
use vstd::prelude::*;
use vstd::string::StringExecFns;

verus! {

/// The voice the text is read in.
#[derive(Clone, Copy, Debug, PartialEq, Eq, Structural)]
#[allow(non_camel_case_types)]
pub enum Voice {
    man,
    woman,
    alice,
}

impl Voice {
    /// The attribute value for this voice.
    pub open spec fn str(self) -> Seq<char> {
        match self {
            Voice::man => "man"@,
            Voice::woman => "woman"@,
            Voice::alice => "alice"@,
        }
    }

    pub fn to_str(&self) -> (r: &'static str)
        ensures
            r@ == self.str(),
    {
        match *self {
            Voice::man => "man",
            Voice::woman => "woman",
            Voice::alice => "alice",
        }
    }
}

/// Spoken text. New values read the body once in the `man` voice in
/// English; the setters change one field each.
#[derive(Debug)]
pub struct Say {
    pub voice: Voice,
    pub count: usize,
    pub language: String,
    pub body: String,
}

impl Say {
    pub fn new(body: &str) -> (r: Say)
        ensures
            r.body@ == body@,
            r.voice == Voice::man,
            r.count == 1usize,
            r.language@ == "en"@,
    {
        Say { body: body.to_owned(), voice: Voice::man, count: 1, language: "en".to_owned() }
    }

    pub fn lang(self, language: &str) -> (r: Say)
        ensures
            r == (Say { language: r.language, ..self }),
            r.language@ == language@,
    {
        Say { language: language.to_owned(), ..self }
    }

    pub fn voice(self, voice: Voice) -> (r: Say)
        ensures
            r == (Say { voice, ..self }),
    {
        Say { voice, ..self }
    }

    pub fn say_count(self, count: usize) -> (r: Say)
        ensures
            r == (Say { count, ..self }),
    {
        Say { count, ..self }
    }
}

impl Twiml for Say {
    /// `<Say voice=".." language=".." loop="..">body</Say>`, attributes in
    /// exactly that order.
    open spec fn xml(&self) -> Seq<char> {
        "<Say"@ + attr_str("voice"@, self.voice.str()) + attr_str("language"@, self.language@)
            + attr_str("loop"@, dec_str(self.count as nat)) + ">"@ + escape_text(self.body@)
            + "</Say>"@
    }

    fn write(&self, w: &mut String) {
        let ghost w0 = w@;
        w.append("<Say");
        append_attr(w, "voice", self.voice.to_str());
        append_attr(w, "language", self.language.as_str());
        let count = usize_to_string(self.count);
        append_attr(w, "loop", count.as_str());
        w.append(">");
        append_text_escaped(w, self.body.as_str());
        w.append("</Say>");
        proof {
            assert(w@ =~= w0 + self.xml());
        }
    }

    fn build(&self) -> (r: TwimlResult<String>) {
        let mut w = String::new();
        self.write(&mut w);
        Ok(w)
    }
}

} // verus!
