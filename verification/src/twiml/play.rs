//! The `Play` node: an audio resource with a repeat count.

use super::{attr_str, escape_text, Twiml, TwimlResult};
use crate::support::{dec_str, usize_to_string};
use crate::twiml::append_attr;
use crate::twiml::append_text_escaped;
use vstd::prelude::*;
use vstd::string::StringExecFns;

verus! {

/// An audio resource, played `count` times. New values play once.
#[derive(Debug)]
pub struct Play {
    pub count: usize,
    pub body: String,
}

impl Play {
    pub fn new(body: &str) -> (r: Play)
        ensures
            r.body@ == body@,
            r.count == 1usize,
    {
        Play { body: body.to_owned(), count: 1 }
    }

    pub fn count(self, count: usize) -> (r: Play)
        ensures
            r == (Play { count, ..self }),
    {
        Play { count, ..self }
    }
}

impl Twiml for Play {
    /// `<Play loop="..">body</Play>`.
    open spec fn xml(&self) -> Seq<char> {
        "<Play"@ + attr_str("loop"@, dec_str(self.count as nat)) + ">"@ + escape_text(self.body@)
            + "</Play>"@
    }

    fn write(&self, w: &mut String) {
        let ghost w0 = w@;
        w.append("<Play");
        let count = usize_to_string(self.count);
        append_attr(w, "loop", count.as_str());
        w.append(">");
        append_text_escaped(w, self.body.as_str());
        w.append("</Play>");
        proof {
            assert(w@ =~= w0 + self.xml());
        }
    }

    fn build(&self) -> (r: TwimlResult<String>) {
        let mut w = String::new();
        self.write(&mut w);
        Ok(w)
    }
}

} // verus!
