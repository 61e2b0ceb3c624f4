//! The `Redirect` node: hands call control to another document.

use super::{attr_str, escape_text, Method, Twiml, TwimlResult};
use crate::twiml::append_attr;
use crate::twiml::append_text_escaped;
use vstd::prelude::*;
use vstd::string::StringExecFns;

verus! {

/// A redirect to the document named by `body`, fetched with `method`.
/// New values use `POST`.
#[derive(Debug)]
pub struct Redirect {
    pub method: Method,
    pub body: String,
}

impl Default for Redirect {
    fn default() -> (r: Redirect)
        ensures
            r.body@ == Seq::<char>::empty(),
            r.method == Method::Post,
    {
        Redirect { body: String::new(), method: Method::Post }
    }
}

impl Redirect {
    pub fn new(body: &str) -> (r: Redirect)
        ensures
            r.body@ == body@,
            r.method == Method::Post,
    {
        Redirect { body: body.to_owned(), method: Method::Post }
    }

    pub fn method(self, method: Method) -> (r: Redirect)
        ensures
            r == (Redirect { method, ..self }),
    {
        Redirect { method, ..self }
    }
}

impl Twiml for Redirect {
    /// `<Redirect method="..">body</Redirect>`.
    open spec fn xml(&self) -> Seq<char> {
        "<Redirect"@ + attr_str("method"@, self.method.str()) + ">"@ + escape_text(self.body@)
            + "</Redirect>"@
    }

    fn write(&self, w: &mut String) {
        let ghost w0 = w@;
        w.append("<Redirect");
        append_attr(w, "method", self.method.to_str());
        w.append(">");
        append_text_escaped(w, self.body.as_str());
        w.append("</Redirect>");
        proof {
            assert(w@ =~= w0 + self.xml());
        }
    }

    fn build(&self) -> (r: TwimlResult<String>) {
        let mut w = String::new();
        self.write(&mut w);
        Ok(w)
    }
}

} // verus!
