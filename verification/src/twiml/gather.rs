//! The `Gather` node: collects digits, optionally prompting with a nested
//! node.

use super::{attr_str, Method, Play, Redirect, Say, Twiml, TwimlResult};
use crate::support::{dec_str, usize_to_string};
use crate::twiml::append_attr;
use vstd::prelude::*;
use vstd::string::StringExecFns;

verus! {

/// The at-most-one nested prompt a `Gather` plays while collecting input.
#[derive(Debug)]
pub enum GatherBody {
    Nil,
    Say(Say),
    Play(Play),
    Redirect(Redirect),
}

impl GatherBody {
    /// The serialisation of the nested prompt; nothing when there is none.
    pub open spec fn xml(self) -> Seq<char> {
        match self {
            GatherBody::Nil => Seq::<char>::empty(),
            GatherBody::Say(s) => s.xml(),
            GatherBody::Play(p) => p.xml(),
            GatherBody::Redirect(r) => r.xml(),
        }
    }
}

/// A digit-collection instruction. New values use `POST`, the `#` finish
/// key, a five-second timeout and no prompt; the action attribute appears
/// only once set.
#[derive(Debug)]
pub struct Gather {
    pub method: Method,
    pub action: Option<String>,
    pub key: char,
    pub timeout: usize,
    pub body: GatherBody,
}

impl Default for Gather {
    fn default() -> (r: Gather)
        ensures
            r.body is Nil,
            r.method == Method::Post,
            r.key == '#',
            r.action is None,
            r.timeout == 5usize,
    {
        Gather { body: GatherBody::Nil, method: Method::Post, key: '#', action: None, timeout: 5 }
    }
}

impl Gather {
    pub fn say(self, say: Say) -> (r: Gather)
        ensures
            r == (Gather { body: GatherBody::Say(say), ..self }),
    {
        Gather { body: GatherBody::Say(say), ..self }
    }

    pub fn play(self, play: Play) -> (r: Gather)
        ensures
            r == (Gather { body: GatherBody::Play(play), ..self }),
    {
        Gather { body: GatherBody::Play(play), ..self }
    }

    pub fn redirect(self, redirect: Redirect) -> (r: Gather)
        ensures
            r == (Gather { body: GatherBody::Redirect(redirect), ..self }),
    {
        Gather { body: GatherBody::Redirect(redirect), ..self }
    }

    pub fn method(self, method: Method) -> (r: Gather)
        ensures
            r == (Gather { method, ..self }),
    {
        Gather { method, ..self }
    }

    pub fn finish_on_key(self, key: char) -> (r: Gather)
        ensures
            r == (Gather { key, ..self }),
    {
        Gather { key, ..self }
    }

    pub fn timeout(self, timeout: usize) -> (r: Gather)
        ensures
            r == (Gather { timeout, ..self }),
    {
        Gather { timeout, ..self }
    }
}

impl Twiml for Gather {
    /// `<Gather method=".." timeout=".." finishOnKey=".." ...>` with the
    /// optional `action` attribute last; self-closed when there is no
    /// nested prompt, otherwise the prompt's element and `</Gather>`.
    open spec fn xml(&self) -> Seq<char> {
        "<Gather"@ + attr_str("method"@, self.method.str()) + attr_str(
            "timeout"@,
            dec_str(self.timeout as nat),
        ) + attr_str("finishOnKey"@, seq![self.key]) + (match self.action {
            Some(a) => attr_str("action"@, a@),
            None => Seq::<char>::empty(),
        }) + (if self.body is Nil {
            " />"@
        } else {
            ">"@ + self.body.xml() + "</Gather>"@
        })
    }

    fn write(&self, w: &mut String) {
        let ghost w0 = w@;
        w.append("<Gather");
        append_attr(w, "method", self.method.to_str());
        let timeout = usize_to_string(self.timeout);
        append_attr(w, "timeout", timeout.as_str());
        let mut key = String::new();
        crate::support::push_char(&mut key, self.key);
        append_attr(w, "finishOnKey", key.as_str());
        proof {
            assert(key@ =~= seq![self.key]);
        }
        if let Some(action) = &self.action {
            append_attr(w, "action", action.as_str());
        }
        match &self.body {
            GatherBody::Nil => {
                w.append(" />");
            },
            GatherBody::Say(val) => {
                w.append(">");
                val.write(w);
                w.append("</Gather>");
            },
            GatherBody::Play(val) => {
                w.append(">");
                val.write(w);
                w.append("</Gather>");
            },
            GatherBody::Redirect(val) => {
                w.append(">");
                val.write(w);
                w.append("</Gather>");
            },
        }
        proof {
            assert(w@ =~= w0 + self.xml());
        }
    }

    fn build(&self) -> (r: TwimlResult<String>) {
        let mut w = String::new();
        self.write(&mut w);
        Ok(w)
    }
}

} // verus!
