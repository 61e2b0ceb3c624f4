//! The document root: holds at most one child of each node kind and emits
//! them in a fixed category order.

use super::{Dial, Gather, Hangup, Msg, Play, Redirect, Say, Twiml, TwimlResult};
use vstd::prelude::*;
use vstd::string::StringExecFns;

verus! {

/// The root node. Each attach method keeps the last value attached for its
/// kind; serialisation emits the kinds in the order of the fields below,
/// whatever order the caller attached them in.
#[derive(Debug, Default)]
pub struct Response {
    pub say: Option<Say>,
    pub play: Option<Play>,
    pub msg: Option<Msg>,
    pub redirect: Option<Redirect>,
    pub gather: Option<Gather>,
    pub dial: Option<Dial>,
    pub hangup: Option<Hangup>,
}

/// The serialisation of an optional child: nothing when absent.
pub open spec fn opt_xml<T: Twiml>(o: Option<T>) -> Seq<char> {
    match o {
        Some(v) => v.xml(),
        None => Seq::<char>::empty(),
    }
}

/// Appends the serialisation of an optional child: nothing when absent.
fn write_opt<T: Twiml>(w: &mut String, o: &Option<T>)
    ensures
        final(w)@ == old(w)@ + opt_xml(*o),
{
    if let Some(val) = o {
        val.write(w);
    }
    proof {
        broadcast use vstd::seq::Seq::add_empty_right;

    }
}

impl Response {
    /// The children between the root tags, in the fixed category order:
    /// say, play, redirect, message, gather, dial, hangup.
    pub open spec fn children_xml(self) -> Seq<char> {
        opt_xml(self.say) + opt_xml(self.play) + opt_xml(self.redirect) + opt_xml(self.msg)
            + opt_xml(self.gather) + opt_xml(self.dial) + opt_xml(self.hangup)
    }

    /// Whether no child of any kind is attached.
    pub open spec fn is_empty(self) -> bool {
        self.say is None && self.play is None && self.msg is None && self.redirect is None
            && self.gather is None && self.dial is None && self.hangup is None
    }

    pub fn new() -> (r: Response)
        ensures
            r == (Response {
                say: None,
                play: None,
                msg: None,
                redirect: None,
                gather: None,
                dial: None,
                hangup: None,
            }),
    {
        Response {
            say: None,
            play: None,
            msg: None,
            redirect: None,
            gather: None,
            dial: None,
            hangup: None,
        }
    }

    pub fn say(self, say: Say) -> (r: Response)
        ensures
            r == (Response { say: Some(say), ..self }),
    {
        Response { say: Some(say), ..self }
    }

    pub fn play(self, play: Play) -> (r: Response)
        ensures
            r == (Response { play: Some(play), ..self }),
    {
        Response { play: Some(play), ..self }
    }

    pub fn redirect(self, redirect: Redirect) -> (r: Response)
        ensures
            r == (Response { redirect: Some(redirect), ..self }),
    {
        Response { redirect: Some(redirect), ..self }
    }

    pub fn msg(self, msg: Msg) -> (r: Response)
        ensures
            r == (Response { msg: Some(msg), ..self }),
    {
        Response { msg: Some(msg), ..self }
    }

    pub fn gather(self, gather: Gather) -> (r: Response)
        ensures
            r == (Response { gather: Some(gather), ..self }),
    {
        Response { gather: Some(gather), ..self }
    }

    pub fn dial(self, dial: Dial) -> (r: Response)
        ensures
            r == (Response { dial: Some(dial), ..self }),
    {
        Response { dial: Some(dial), ..self }
    }

    pub fn hangup(self) -> (r: Response)
        ensures
            r == (Response { hangup: Some(Hangup), ..self }),
    {
        Response { hangup: Some(Hangup::new()), ..self }
    }
}

impl Twiml for Response {
    /// `<Response>children</Response>`, or `<Response />` with no children.
    open spec fn xml(&self) -> Seq<char> {
        if self.is_empty() {
            "<Response />"@
        } else {
            "<Response>"@ + self.children_xml() + "</Response>"@
        }
    }

    #[verifier::rlimit(100)]
    fn write(&self, w: &mut String) {
        let ghost w0 = w@;
        let empty = self.say.is_none() && self.play.is_none() && self.msg.is_none()
            && self.redirect.is_none() && self.gather.is_none() && self.dial.is_none()
            && self.hangup.is_none();
        if empty {
            w.append("<Response />");
        } else {
            w.append("<Response>");
            write_opt(w, &self.say);
            write_opt(w, &self.play);
            write_opt(w, &self.redirect);
            write_opt(w, &self.msg);
            write_opt(w, &self.gather);
            write_opt(w, &self.dial);
            write_opt(w, &self.hangup);
            proof {
                assert(w@ == w0 + "<Response>"@ + self.children_xml());
            }
            w.append("</Response>");
        }
        proof {
            if !self.is_empty() {
                vstd::seq_lib::lemma_concat_associative(
                    w0,
                    "<Response>"@ + self.children_xml(),
                    "</Response>"@,
                );
                vstd::seq_lib::lemma_concat_associative(
                    w0,
                    "<Response>"@,
                    self.children_xml(),
                );
            }
            assert(w@ == w0 + self.xml());
        }
    }

    fn build(&self) -> (r: TwimlResult<String>) {
        let mut w = String::new();
        self.write(&mut w);
        Ok(w)
    }
}

/// Attaching a node of a kind that already holds one keeps only the last
/// node attached: the root holds at most one child per kind, whatever the
/// callers attached before.
pub proof fn lemma_attach_last_write_wins(r: Response, first: Say, last: Say)
    ensures
        (Response { say: Some(last), ..(Response { say: Some(first), ..r }) }) == (Response {
            say: Some(last),
            ..r
        }),
{
}

/// Attaching one node of each kind gives the same document in whatever
/// order the nodes are attached: the root stores each kind in its own slot
/// and always serialises the say child ahead of the dial child.
pub proof fn lemma_attach_order_irrelevant(r: Response, s: Say, d: Dial)
    ensures
        (Response { dial: Some(d), ..(Response { say: Some(s), ..r }) }) == (Response {
            say: Some(s),
            ..(Response { dial: Some(d), ..r })
        }),
        (Response {
            say: Some(s),
            play: None,
            msg: None,
            redirect: None,
            gather: None,
            dial: Some(d),
            hangup: None,
        }).xml() == "<Response>"@ + s.xml() + d.xml() + "</Response>"@,
{
    let both = Response {
        say: Some(s),
        play: None,
        msg: None,
        redirect: None,
        gather: None,
        dial: Some(d),
        hangup: None,
    };
    assert(both.children_xml() =~= s.xml() + d.xml());
    assert(both.xml() =~= "<Response>"@ + s.xml() + d.xml() + "</Response>"@);
}

} // verus!
