//! A small URL value: a base and an optional form-encoded query string.

use crate::encode::{encode_pairs, form_encoded_str};
use vstd::prelude::*;
use vstd::string::StringExecFns;

verus! {

/// A base URL and, once set, its query string.
#[derive(Debug)]
pub struct Url {
    pub base: String,
    pub query: Option<String>,
}

impl Url {
    pub fn new(base: &str) -> (r: Url)
        ensures
            r.base@ == base@,
            r.query is None,
    {
        Url { base: base.to_owned(), query: None }
    }

    /// Replaces the query string with the form encoding of `pairs`.
    pub fn set_query_pairs(&mut self, pairs: &Vec<(&str, &str)>)
        ensures
            final(self).base == old(self).base,
            final(self).query matches Some(q) && q@ == form_encoded_str(
                pairs@.map_values(|p: (&str, &str)| (p.0@, p.1@)),
            ),
    {
        let encoded = encode_pairs(pairs);
        if let Some(q) = encoded {
            self.query = Some(q);
        } else {
            self.query = None;
        }
    }

    /// The rendered URL: the base alone, or `base?query` once a query
    /// string was set.
    pub fn to_string(&self) -> (r: String)
        ensures
            self.query matches Some(q) ==> r@ == self.base@ + "?"@ + q@,
            self.query is None ==> r@ == self.base@,
    {
        match &self.query {
            Some(q) => {
                let mut s = self.base.clone();
                s.append("?");
                s.append(q.as_str());
                s
            },
            None => self.base.clone(),
        }
    }
}

} // verus!
