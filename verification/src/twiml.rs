//! Markup builder for call-handling instructions.
//!
//! A document is a tree of typed nodes ([`response::Response`] at the root)
//! that serialises to an XML document without a declaration. Every node
//! writes its element with a fixed, type-specific attribute order, and the
//! root writes its children in a fixed category order, whatever order the
//! caller attached them in. Text content is escaped as XML character data,
//! attribute values as XML attribute text.

pub mod dial;
pub mod error;
pub mod gather;
pub mod hangup;
pub mod msg;
pub mod play;
pub mod redirect;
pub mod response;
pub mod say;

pub use dial::Dial;
pub use dial::Record;
pub use error::TwimlErr;
pub use error::TwimlResult;
pub use gather::Gather;
pub use gather::GatherBody;
pub use hangup::Hangup;
pub use msg::Msg;
pub use play::Play;
pub use redirect::Redirect;
pub use response::lemma_attach_last_write_wins;
pub use response::lemma_attach_order_irrelevant;
pub use response::opt_xml;
pub use response::Response;
pub use say::Say;
pub use say::Voice;

use crate::support::push_char;
use vstd::prelude::*;
use vstd::string::StringExecFns;

verus! {

/// What one character of text content serialises to: `<`, `>` and `&`
/// become entities, everything else stands as itself.
pub open spec fn escape_text_char(c: char) -> Seq<char> {
    if c == '<' {
        seq!['&', 'l', 't', ';']
    } else if c == '>' {
        seq!['&', 'g', 't', ';']
    } else if c == '&' {
        seq!['&', 'a', 'm', 'p', ';']
    } else {
        seq![c]
    }
}

/// Text content, escaped character by character.
pub open spec fn escape_text(s: Seq<char>) -> Seq<char>
    decreases s.len(),
{
    if s.len() == 0 {
        Seq::empty()
    } else {
        escape_text_char(s[0]) + escape_text(s.drop_first())
    }
}

/// What one character of an attribute value serialises to: besides the
/// text entities, quotes become entities and line breaks become character
/// references, so a value never breaks out of its quoted position.
pub open spec fn escape_attr_char(c: char) -> Seq<char> {
    if c == '<' {
        seq!['&', 'l', 't', ';']
    } else if c == '>' {
        seq!['&', 'g', 't', ';']
    } else if c == '"' {
        seq!['&', 'q', 'u', 'o', 't', ';']
    } else if c == '\'' {
        seq!['&', 'a', 'p', 'o', 's', ';']
    } else if c == '&' {
        seq!['&', 'a', 'm', 'p', ';']
    } else if c == '\n' {
        seq!['&', '#', 'x', 'A', ';']
    } else if c == '\r' {
        seq!['&', '#', 'x', 'D', ';']
    } else {
        seq![c]
    }
}

/// An attribute value, escaped character by character.
pub open spec fn escape_attr(s: Seq<char>) -> Seq<char>
    decreases s.len(),
{
    if s.len() == 0 {
        Seq::empty()
    } else {
        escape_attr_char(s[0]) + escape_attr(s.drop_first())
    }
}

/// One serialised attribute: a space, the name, `="`, the escaped value
/// and the closing quote.
pub open spec fn attr_str(name: Seq<char>, value: Seq<char>) -> Seq<char> {
    seq![' '] + name + seq!['=', '"'] + escape_attr(value) + seq!['"']
}

pub proof fn lemma_escape_text_one(c: char)
    ensures
        escape_text(seq![c]) == escape_text_char(c),
{
    assert(seq![c].drop_first() =~= Seq::<char>::empty());
    assert(seq![c][0] == c);
    assert(escape_text(seq![c]) == escape_text_char(c) + escape_text(Seq::<char>::empty()));
    assert(escape_text_char(c) + Seq::<char>::empty() =~= escape_text_char(c));
}

pub proof fn lemma_escape_attr_one(c: char)
    ensures
        escape_attr(seq![c]) == escape_attr_char(c),
{
    assert(seq![c].drop_first() =~= Seq::<char>::empty());
    assert(seq![c][0] == c);
    assert(escape_attr(seq![c]) == escape_attr_char(c) + escape_attr(Seq::<char>::empty()));
    assert(escape_attr_char(c) + Seq::<char>::empty() =~= escape_attr_char(c));
}

pub proof fn lemma_escape_text_app(a: Seq<char>, b: Seq<char>)
    ensures
        escape_text(a + b) == escape_text(a) + escape_text(b),
    decreases a.len(),
{
    if a.len() == 0 {
        assert(a + b =~= b);
        assert(escape_text(a) + escape_text(b) =~= escape_text(b));
    } else {
        assert((a + b).drop_first() =~= a.drop_first() + b);
        assert((a + b)[0] == a[0]);
        lemma_escape_text_app(a.drop_first(), b);
        assert(escape_text(a + b) =~= escape_text(a) + escape_text(b));
    }
}

pub proof fn lemma_escape_attr_app(a: Seq<char>, b: Seq<char>)
    ensures
        escape_attr(a + b) == escape_attr(a) + escape_attr(b),
    decreases a.len(),
{
    if a.len() == 0 {
        assert(a + b =~= b);
        assert(escape_attr(a) + escape_attr(b) =~= escape_attr(b));
    } else {
        assert((a + b).drop_first() =~= a.drop_first() + b);
        assert((a + b)[0] == a[0]);
        lemma_escape_attr_app(a.drop_first(), b);
        assert(escape_attr(a + b) =~= escape_attr(a) + escape_attr(b));
    }
}

/// Appends `s` to `w` with text-content escaping applied.
pub fn append_text_escaped(w: &mut String, s: &str)
    ensures
        final(w)@ == old(w)@ + escape_text(s@),
{
    let ghost w0 = old(w)@;
    let n = s.unicode_len();
    let mut i: usize = 0;
    while i < n
        invariant
            i <= n,
            n == s@.len(),
            w@ == w0 + escape_text(s@.take(i as int)),
        decreases n - i,
    {
        let c = s.get_char(i);
        if c == '<' {
            w.append("&lt;");
        } else if c == '>' {
            w.append("&gt;");
        } else if c == '&' {
            w.append("&amp;");
        } else {
            push_char(w, c);
        }
        proof {
            reveal_strlit("&lt;");
            reveal_strlit("&gt;");
            reveal_strlit("&amp;");
            assert(s@.take(i + 1) =~= s@.take(i as int) + seq![s@[i as int]]);
            lemma_escape_text_app(s@.take(i as int), seq![s@[i as int]]);
            lemma_escape_text_one(s@[i as int]);
            if c == '<' {
                assert("&lt;"@ =~= escape_text_char(c));
            } else if c == '>' {
                assert("&gt;"@ =~= escape_text_char(c));
            } else if c == '&' {
                assert("&amp;"@ =~= escape_text_char(c));
            } else {
                assert(w0 + escape_text(s@.take(i as int)) + seq![c] =~= w0 + (escape_text(
                    s@.take(i as int),
                ) + escape_text_char(c)));
            }
            assert(w@ == w0 + escape_text(s@.take(i + 1)));
        }
        i = i + 1;
    }
    proof {
        assert(s@.take(n as int) =~= s@);
    }
}

/// Appends ` name="value"` to `w`, with attribute escaping applied to the
/// value.
pub fn append_attr(w: &mut String, name: &str, value: &str)
    ensures
        final(w)@ == old(w)@ + attr_str(name@, value@),
{
    let ghost w0 = old(w)@;
    w.append(" ");
    w.append(name);
    w.append("=\"");
    let ghost w1 = w@;
    let n = value.unicode_len();
    let mut i: usize = 0;
    while i < n
        invariant
            i <= n,
            n == value@.len(),
            w@ == w1 + escape_attr(value@.take(i as int)),
        decreases n - i,
    {
        let c = value.get_char(i);
        if c == '<' {
            w.append("&lt;");
        } else if c == '>' {
            w.append("&gt;");
        } else if c == '"' {
            w.append("&quot;");
        } else if c == '\'' {
            w.append("&apos;");
        } else if c == '&' {
            w.append("&amp;");
        } else if c == '\n' {
            w.append("&#xA;");
        } else if c == '\r' {
            w.append("&#xD;");
        } else {
            push_char(w, c);
        }
        proof {
            reveal_strlit("&lt;");
            reveal_strlit("&gt;");
            reveal_strlit("&quot;");
            reveal_strlit("&apos;");
            reveal_strlit("&amp;");
            reveal_strlit("&#xA;");
            reveal_strlit("&#xD;");
            assert(value@.take(i + 1) =~= value@.take(i as int) + seq![value@[i as int]]);
            lemma_escape_attr_app(value@.take(i as int), seq![value@[i as int]]);
            lemma_escape_attr_one(value@[i as int]);
            if c == '<' {
                assert("&lt;"@ =~= escape_attr_char(c));
            } else if c == '>' {
                assert("&gt;"@ =~= escape_attr_char(c));
            } else if c == '"' {
                assert("&quot;"@ =~= escape_attr_char(c));
            } else if c == '\'' {
                assert("&apos;"@ =~= escape_attr_char(c));
            } else if c == '&' {
                assert("&amp;"@ =~= escape_attr_char(c));
            } else if c == '\n' {
                assert("&#xA;"@ =~= escape_attr_char(c));
            } else if c == '\r' {
                assert("&#xD;"@ =~= escape_attr_char(c));
            } else {
                assert(w1 + escape_attr(value@.take(i as int)) + seq![c] =~= w1 + (escape_attr(
                    value@.take(i as int),
                ) + escape_attr_char(c)));
            }
            assert(w@ == w1 + escape_attr(value@.take(i + 1)));
        }
        i = i + 1;
    }
    proof {
        assert(value@.take(n as int) =~= value@);
        reveal_strlit(" ");
        reveal_strlit("=\"");
        reveal_strlit("\"");
        assert(w1 =~= w0 + seq![' '] + name@ + seq!['=', '"']);
    }
    w.append("\"");
    proof {
        reveal_strlit("\"");
        assert(w@ =~= w0 + attr_str(name@, value@));
    }
}

/// HTTP methods a node can name in its `method` attribute.
#[derive(Clone, Copy, Debug, PartialEq, Eq, Structural)]
pub enum Method {
    Get,
    Post,
}

impl Method {
    /// The attribute value for this method.
    pub open spec fn str(self) -> Seq<char> {
        match self {
            Method::Get => "GET"@,
            Method::Post => "POST"@,
        }
    }

    pub fn to_str(&self) -> (r: &'static str)
        ensures
            r@ == self.str(),
    {
        match *self {
            Method::Get => "GET",
            Method::Post => "POST",
        }
    }
}

/// A node of the markup document: it serialises itself (`write`) into a
/// shared output string and can produce a standalone document (`build`).
pub trait Twiml {
    /// The exact serialisation of this node.
    spec fn xml(&self) -> Seq<char>;

    /// Appends this node's serialisation to `w`.
    fn write(&self, w: &mut String)
        ensures
            final(w)@ == old(w)@ + self.xml(),
    ;

    /// Serialises this node as a document of its own. The writer is
    /// in-memory and the output is built from valid characters, so this
    /// never fails.
    fn build(&self) -> (r: TwimlResult<String>)
        ensures
            r matches Ok(s) && s@ == self.xml(),
    ;
}

} // verus!
