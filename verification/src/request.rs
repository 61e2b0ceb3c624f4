//! Request descriptions: what an operation asks the transport to do,
//! as plain values.

use crate::encode::{encode_pairs, form_encoded_str};
use crate::message::Msg;
use vstd::prelude::*;

verus! {

/// The HTTP methods the resource operations use.
#[derive(Clone, Copy, Debug, PartialEq, Eq, Structural)]
pub enum HttpMethod {
    Get,
    Post,
    Delete,
}

impl HttpMethod {
    /// The wire name of this method.
    pub open spec fn str(self) -> Seq<char> {
        match self {
            HttpMethod::Get => "GET"@,
            HttpMethod::Post => "POST"@,
            HttpMethod::Delete => "DELETE"@,
        }
    }

    pub fn to_str(&self) -> (r: &'static str)
        ensures
            r@ == self.str(),
    {
        match *self {
            HttpMethod::Get => "GET",
            HttpMethod::Post => "POST",
            HttpMethod::Delete => "DELETE",
        }
    }
}

/// One operation against the remote service, before authentication: the
/// method, the path relative to the account base (query string included
/// where the operation filters), and the form-encoded body, present
/// exactly for the operations that send one.
#[derive(Debug)]
pub struct RequestParts {
    pub method: HttpMethod,
    pub path: String,
    pub body: Option<String>,
}

/// A request rendered purely from a resource value.
pub enum RequestType {
    Message(Msg),
}

impl RequestType {
    /// The body pairs of the request: for a message, recipient, sender
    /// and text, in that order.
    pub open spec fn spec_pairs(self) -> Seq<(Seq<char>, Seq<char>)> {
        match self {
            RequestType::Message(m) => seq![("To"@, m.to@), ("From"@, m.from@), ("Body"@, m.body@)],
        }
    }

    /// The form-encoded body of the request.
    pub fn to_string(&self) -> (r: String)
        ensures
            r@ == form_encoded_str(self.spec_pairs()),
    {
        match self {
            RequestType::Message(m) => {
                let pairs: Vec<(&str, &str)> = vec![
                    ("To", m.to.as_str()),
                    ("From", m.from.as_str()),
                    ("Body", m.body.as_str()),
                ];
                proof {
                    assert(pairs@.map_values(|p: (&str, &str)| (p.0@, p.1@))
                        =~= self.spec_pairs());
                }
                let encoded = encode_pairs(&pairs);
                if let Some(s) = encoded {
                    s
                } else {
                    String::new()
                }
            },
        }
    }
}

} // verus!
