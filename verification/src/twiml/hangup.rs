//! The `Hangup` node: ends the call.

use super::{Twiml, TwimlResult};
use vstd::prelude::*;
use vstd::string::StringExecFns;

verus! {

/// Ends the call. The element carries nothing and serialises self-closed.
#[derive(Debug, Default)]
pub struct Hangup;

impl Hangup {
    pub fn new() -> (r: Hangup) {
        Hangup
    }
}

impl Twiml for Hangup {
    /// `<Hangup />`.
    open spec fn xml(&self) -> Seq<char> {
        "<Hangup />"@
    }

    fn write(&self, w: &mut String) {
        w.append("<Hangup />");
    }

    fn build(&self) -> (r: TwimlResult<String>) {
        let mut w = String::new();
        self.write(&mut w);
        Ok(w)
    }
}

} // verus!
