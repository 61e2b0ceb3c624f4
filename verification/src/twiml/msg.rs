//! The `Message` node: an outgoing text message.

use super::{escape_text, Twiml, TwimlResult};
use crate::twiml::append_text_escaped;
use vstd::prelude::*;
use vstd::string::StringExecFns;

verus! {

/// A text message. The optional media reference is carried on the value
/// but is not part of the serialised element.
#[derive(Debug)]
pub struct Msg {
    pub media: Option<String>,
    pub body: String,
}

impl Msg {
    pub fn new(body: &str) -> (r: Msg)
        ensures
            r.body@ == body@,
            r.media is None,
    {
        Msg { body: body.to_owned(), media: None }
    }

    pub fn media(self, media: &str) -> (r: Msg)
        ensures
            r.body == self.body,
            r.media matches Some(m) && m@ == media@,
    {
        Msg { media: Some(media.to_owned()), ..self }
    }
}

impl Twiml for Msg {
    /// `<Message><Body>body</Body></Message>`.
    open spec fn xml(&self) -> Seq<char> {
        "<Message><Body>"@ + escape_text(self.body@) + "</Body></Message>"@
    }

    fn write(&self, w: &mut String) {
        let ghost w0 = w@;
        w.append("<Message><Body>");
        append_text_escaped(w, self.body.as_str());
        w.append("</Body></Message>");
        proof {
            assert(w@ =~= w0 + self.xml());
        }
    }

    fn build(&self) -> (r: TwimlResult<String>) {
        let mut w = String::new();
        self.write(&mut w);
        Ok(w)
    }
}

} // verus!
