//! The query encoder: ordered key/value pairs rendered as one string.
//!
//! Two modes exist, on purpose. The form mode percent-encodes keys and
//! values and is used for request bodies; its model here works on the
//! UTF-8 bytes of the input, and decoding is proved to give those bytes
//! back exactly. The naive mode joins `key=value` chunks with literal `&`
//! separators, encoding nothing, and is used only for the query strings of
//! list endpoints; that is the wire shape those endpoints are called with,
//! a trailing separator after every chunk included.

use crate::support::push_char;
use vstd::prelude::*;
use vstd::string::StrSliceExecFns;
use vstd::string::StringExecFns;
use vstd::string::StringSliceAdditionalSpecFns;

verus! {

/// Bytes the form serialiser passes through unchanged: ASCII letters and
/// digits, `*`, `-`, `.` and `_`.
pub open spec fn is_form_unchanged(b: u8) -> bool {
    b == 42 || b == 45 || b == 46 || b == 95 || (48 <= b <= 57) || (65 <= b <= 90) || (97 <= b
        <= 122)
}

/// The upper-case hexadecimal digit for a value below sixteen.
pub open spec fn hex_digit(n: u8) -> u8
    recommends
        n < 16,
{
    if n < 10 {
        (48 + n) as u8
    } else {
        (55 + n) as u8
    }
}

/// What one byte serialises to in form mode: space becomes `+`, unchanged
/// bytes stand as themselves, everything else becomes `%` and two
/// hexadecimal digits.
pub open spec fn escape_byte(b: u8) -> Seq<u8> {
    if b == 32 {
        seq![43u8]
    } else if is_form_unchanged(b) {
        seq![b]
    } else {
        seq![37u8, hex_digit(b / 16), hex_digit(b % 16)]
    }
}

/// A byte string, form-serialised byte by byte.
pub open spec fn escape_bytes(s: Seq<u8>) -> Seq<u8>
    decreases s.len(),
{
    if s.len() == 0 {
        Seq::empty()
    } else {
        escape_byte(s[0]) + escape_bytes(s.drop_first())
    }
}

/// One encoded pair: the escaped key, `=`, the escaped value.
pub open spec fn pair_encoded(k: Seq<u8>, v: Seq<u8>) -> Seq<u8> {
    escape_bytes(k) + seq![61u8] + escape_bytes(v)
}

/// The encoded pair list: encoded pairs joined by `&`.
pub open spec fn form_encoded(ps: Seq<(Seq<u8>, Seq<u8>)>) -> Seq<u8>
    decreases ps.len(),
{
    if ps.len() == 0 {
        Seq::empty()
    } else if ps.len() == 1 {
        pair_encoded(ps[0].0, ps[0].1)
    } else {
        pair_encoded(ps[0].0, ps[0].1) + seq![38u8] + form_encoded(ps.drop_first())
    }
}

/// Whether a byte is a hexadecimal digit, either case.
pub open spec fn is_hex_digit(b: u8) -> bool {
    (48 <= b <= 57) || (65 <= b <= 70) || (97 <= b <= 102)
}

/// The value of a hexadecimal digit byte.
pub open spec fn hex_val(b: u8) -> u8
    recommends
        is_hex_digit(b),
{
    if 48 <= b <= 57 {
        (b - 48) as u8
    } else if 65 <= b <= 70 {
        (b - 55) as u8
    } else {
        (b - 87) as u8
    }
}

/// Undoes [`escape_bytes`]: `+` back to space, `%` and two hexadecimal
/// digits back to the byte they name, anything else stands as itself.
pub open spec fn unescape_bytes(s: Seq<u8>) -> Seq<u8>
    decreases s.len(),
{
    if s.len() == 0 {
        Seq::empty()
    } else if s[0] == 43 {
        seq![32u8] + unescape_bytes(s.drop_first())
    } else if s[0] == 37 && s.len() >= 3 && is_hex_digit(s[1]) && is_hex_digit(s[2]) {
        seq![((hex_val(s[1]) as int * 16 + hex_val(s[2]) as int) as u8)] + unescape_bytes(s.skip(3))
    } else {
        seq![s[0]] + unescape_bytes(s.drop_first())
    }
}

/// The position of the first occurrence of `b` in `s`, or `s.len()`.
pub open spec fn find_byte(s: Seq<u8>, b: u8) -> int
    decreases s.len(),
{
    if s.len() == 0 {
        0
    } else if s[0] == b {
        0
    } else {
        1 + find_byte(s.drop_first(), b)
    }
}

pub proof fn lemma_find_byte(s: Seq<u8>, b: u8)
    ensures
        0 <= find_byte(s, b) <= s.len(),
        find_byte(s, b) < s.len() ==> s[find_byte(s, b)] == b,
        forall|j: int| 0 <= j < find_byte(s, b) ==> s[j] != b,
    decreases s.len(),
{
    if s.len() == 0 {
    } else if s[0] == b {
    } else {
        lemma_find_byte(s.drop_first(), b);
        assert forall|j: int| 0 <= j < find_byte(s, b) implies s[j] != b by {
            if j > 0 {
                assert(s.drop_first()[j - 1] == s[j]);
            }
        }
    }
}

/// Where a separator-free prefix ends, the search for the separator finds
/// exactly the end of that prefix.
pub proof fn lemma_find_byte_after(s: Seq<u8>, t: Seq<u8>, b: u8)
    requires
        forall|j: int| 0 <= j < s.len() ==> s[j] != b,
    ensures
        find_byte(s + seq![b] + t, b) == s.len(),
    decreases s.len(),
{
    let whole = s + seq![b] + t;
    if s.len() == 0 {
        assert(whole[0] == b);
    } else {
        assert(whole[0] == s[0]);
        assert(whole.drop_first() =~= s.drop_first() + seq![b] + t);
        assert(forall|j: int| 0 <= j < s.drop_first().len() ==> s.drop_first()[j] != b);
        lemma_find_byte_after(s.drop_first(), t, b);
    }
}

/// When the separator never occurs, the search runs to the end.
pub proof fn lemma_find_byte_absent(s: Seq<u8>, b: u8)
    requires
        forall|j: int| 0 <= j < s.len() ==> s[j] != b,
    ensures
        find_byte(s, b) == s.len(),
{
    lemma_find_byte(s, b);
    if find_byte(s, b) < s.len() {
        assert(s[find_byte(s, b)] == b);
    }
}

pub proof fn lemma_escape_bytes_app(a: Seq<u8>, b: Seq<u8>)
    ensures
        escape_bytes(a + b) == escape_bytes(a) + escape_bytes(b),
    decreases a.len(),
{
    if a.len() == 0 {
        assert(a + b =~= b);
        assert(escape_bytes(a) + escape_bytes(b) =~= escape_bytes(b));
    } else {
        assert((a + b).drop_first() =~= a.drop_first() + b);
        assert((a + b)[0] == a[0]);
        lemma_escape_bytes_app(a.drop_first(), b);
        assert(escape_bytes(a + b) =~= escape_bytes(a) + escape_bytes(b));
    }
}

/// Escaped output never holds a pair or field separator: `&` and `=` are
/// not passed through unchanged, and the bytes of an escape block are `+`,
/// `%` or hexadecimal digits.
pub proof fn lemma_escape_bytes_clean(s: Seq<u8>)
    ensures
        forall|j: int|
            0 <= j < escape_bytes(s).len() ==> escape_bytes(s)[j] != 38 && escape_bytes(s)[j] != 61,
    decreases s.len(),
{
    if s.len() > 0 {
        lemma_escape_bytes_clean(s.drop_first());
        let head = escape_byte(s[0]);
        let tail = escape_bytes(s.drop_first());
        assert forall|j: int| 0 <= j < escape_bytes(s).len() implies escape_bytes(s)[j] != 38
            && escape_bytes(s)[j] != 61 by {
            if j < head.len() {
                assert(escape_bytes(s)[j] == head[j]);
            } else {
                assert(escape_bytes(s)[j] == tail[j - head.len()]);
            }
        }
    }
}

/// Decoding undoes encoding, byte for byte.
pub proof fn lemma_unescape_escape(s: Seq<u8>)
    ensures
        unescape_bytes(escape_bytes(s)) == s,
    decreases s.len(),
{
    if s.len() == 0 {
    } else {
        let b = s[0];
        let head = escape_byte(b);
        let tail = escape_bytes(s.drop_first());
        let whole = head + tail;
        assert(escape_bytes(s) == whole);
        lemma_unescape_escape(s.drop_first());
        if b == 32 {
            assert(whole[0] == 43);
            assert(whole.drop_first() =~= tail);
            assert(unescape_bytes(whole) == seq![32u8] + unescape_bytes(tail));
            assert(seq![32u8] + unescape_bytes(tail) =~= s);
        } else if is_form_unchanged(b) {
            assert(whole[0] == b);
            assert(b != 43 && b != 37);
            assert(whole.drop_first() =~= tail);
            assert(seq![b] + unescape_bytes(tail) =~= s);
            assert(unescape_bytes(whole) =~= s);
        } else {
            assert(whole[0] == 37);
            assert(whole.len() >= 3);
            assert(whole[1] == hex_digit(b / 16) && whole[2] == hex_digit(b % 16));
            assert(is_hex_digit(hex_digit(b / 16)));
            assert(is_hex_digit(hex_digit(b % 16)));
            assert(hex_val(hex_digit(b / 16)) == b / 16);
            assert(hex_val(hex_digit(b % 16)) == b % 16);
            assert((hex_val(whole[1]) as int * 16 + hex_val(whole[2]) as int) as u8 == b);
            assert(whole.skip(3) =~= tail);
            assert(seq![b] + unescape_bytes(tail) =~= s);
            assert(unescape_bytes(whole) =~= s);
        }
    }
}

/// One encoded pair parses back to the key and the value.
pub proof fn lemma_pair_round_trip(k: Seq<u8>, v: Seq<u8>)
    ensures
        ({
            let c = pair_encoded(k, v);
            let j = find_byte(c, 61);
            &&& j == escape_bytes(k).len()
            &&& unescape_bytes(c.take(j)) == k
            &&& j < c.len()
            &&& unescape_bytes(c.skip(j + 1)) == v
        }),
{
    let ek = escape_bytes(k);
    let ev = escape_bytes(v);
    let c = pair_encoded(k, v);
    lemma_escape_bytes_clean(k);
    lemma_find_byte_after(ek, ev, 61);
    assert(c =~= ek + seq![61u8] + ev);
    let j = find_byte(c, 61);
    assert(j == ek.len());
    assert(c.take(j) =~= ek);
    assert(c.skip(j + 1) =~= ev);
    lemma_unescape_escape(k);
    lemma_unescape_escape(v);
}

/// The full round trip: decoding the form encoding of any pair list gives
/// back exactly those pairs, in order, whatever bytes the keys and values
/// hold.
pub proof fn lemma_form_round_trip(ps: Seq<(Seq<u8>, Seq<u8>)>)
    ensures
        form_decoded(form_encoded(ps)) == ps,
    decreases ps.len(),
{
    if ps.len() == 0 {
    } else {
        let k = ps[0].0;
        let v = ps[0].1;
        let c = pair_encoded(k, v);
        lemma_escape_bytes_clean(k);
        lemma_escape_bytes_clean(v);
        assert(forall|j: int| 0 <= j < c.len() ==> c[j] != 38) by {
            let ek = escape_bytes(k);
            let ev = escape_bytes(v);
            assert forall|j: int| 0 <= j < c.len() implies c[j] != 38 by {
                if j < ek.len() {
                    assert(c[j] == ek[j]);
                } else if j == ek.len() {
                    assert(c[j] == 61);
                } else {
                    assert(c[j] == ev[j - ek.len() - 1]);
                }
            }
        }
        assert(c.len() > 0);
        lemma_pair_round_trip(k, v);
        if ps.len() == 1 {
            let s = form_encoded(ps);
            assert(s == c);
            lemma_find_byte_absent(s, 38);
            let i = find_byte(s, 38);
            assert(i == s.len());
            assert(s.take(i) =~= c);
            assert(s.take(i).len() != 0);
            assert(form_decoded(Seq::<u8>::empty()) =~= Seq::<(Seq<u8>, Seq<u8>)>::empty());
            assert(form_decoded(s) == seq![split_pair(s.take(i))] + form_decoded(
                Seq::<u8>::empty(),
            ));
            assert(split_pair(c) == (k, v));
            assert(seq![(k, v)] + Seq::<(Seq<u8>, Seq<u8>)>::empty() =~= ps);
        } else {
            let rest = form_encoded(ps.drop_first());
            let s = form_encoded(ps);
            assert(s == c + seq![38u8] + rest);
            lemma_find_byte_after(c, rest, 38);
            let i = find_byte(s, 38);
            assert(i == c.len());
            assert(s.take(i) =~= c);
            assert(i < s.len());
            assert(s.skip(i + 1) =~= rest);
            lemma_form_round_trip(ps.drop_first());
            assert(split_pair(c) == (k, v));
            assert(form_decoded(s) =~= seq![(k, v)] + ps.drop_first());
            assert(seq![(k, v)] + ps.drop_first() =~= ps);
        }
    }
}

/// One `&`-separated chunk, parsed: what stands before the first `=` is
/// the key, what stands after it is the value (empty when there is no
/// `=`), both unescaped.
pub open spec fn split_pair(c: Seq<u8>) -> (Seq<u8>, Seq<u8>) {
    let j = find_byte(c, 61);
    (
        unescape_bytes(c.take(j)),
        if j < c.len() {
            unescape_bytes(c.skip(j + 1))
        } else {
            Seq::empty()
        },
    )
}

/// The form decoder: splits on `&`, drops empty chunks, and parses each
/// chunk with [`split_pair`].
pub open spec fn form_decoded(s: Seq<u8>) -> Seq<(Seq<u8>, Seq<u8>)>
    decreases s.len(),
        via form_decoded_decreases
{
    if s.len() == 0 {
        Seq::empty()
    } else {
        let i = find_byte(s, 38);
        let chunk = s.take(i);
        let rest = if i < s.len() {
            s.skip(i + 1)
        } else {
            Seq::<u8>::empty()
        };
        (if chunk.len() == 0 {
            Seq::empty()
        } else {
            seq![split_pair(chunk)]
        }) + form_decoded(rest)
    }
}

#[via_fn]
proof fn form_decoded_decreases(s: Seq<u8>) {
    lemma_find_byte(s, 38);
}

/// How many pairs of `ps` carry the key `k`.
pub open spec fn key_count(ps: Seq<(Seq<char>, Seq<char>)>, k: Seq<char>) -> nat
    decreases ps.len(),
{
    if ps.len() == 0 {
        0
    } else {
        (if ps[0].0 == k {
            1nat
        } else {
            0nat
        }) + key_count(ps.drop_first(), k)
    }
}

pub proof fn lemma_key_count_app(
    a: Seq<(Seq<char>, Seq<char>)>,
    b: Seq<(Seq<char>, Seq<char>)>,
    k: Seq<char>,
)
    ensures
        key_count(a + b, k) == key_count(a, k) + key_count(b, k),
    decreases a.len(),
{
    if a.len() == 0 {
        assert(a + b =~= b);
    } else {
        assert((a + b).drop_first() =~= a.drop_first() + b);
        assert((a + b)[0] == a[0]);
        lemma_key_count_app(a.drop_first(), b, k);
    }
}

pub proof fn lemma_key_count_one(p: (Seq<char>, Seq<char>), k: Seq<char>)
    ensures
        key_count(seq![p], k) == (if p.0 == k {
            1nat
        } else {
            0nat
        }),
{
    assert(seq![p].drop_first() =~= Seq::<(Seq<char>, Seq<char>)>::empty());
    assert(seq![p][0] == p);
    assert(key_count(Seq::<(Seq<char>, Seq<char>)>::empty(), k) == 0);
}

pub proof fn lemma_key_count_three(
    p1: (Seq<char>, Seq<char>),
    p2: (Seq<char>, Seq<char>),
    p3: (Seq<char>, Seq<char>),
    k: Seq<char>,
)
    ensures
        key_count(seq![p1, p2, p3], k) == (if p1.0 == k {
            1nat
        } else {
            0nat
        }) + (if p2.0 == k {
            1nat
        } else {
            0nat
        }) + (if p3.0 == k {
            1nat
        } else {
            0nat
        }),
{
    let s = seq![p1, p2, p3];
    assert(s.drop_first() =~= seq![p2, p3]);
    assert(seq![p2, p3].drop_first() =~= seq![p3]);
    lemma_key_count_one(p3, k);
    assert(s[0] == p1 && seq![p2, p3][0] == p2);
    assert(key_count(seq![p2, p3], k) == (if p2.0 == k {
        1nat
    } else {
        0nat
    }) + key_count(seq![p3], k));
    assert(key_count(s, k) == (if p1.0 == k {
        1nat
    } else {
        0nat
    }) + key_count(seq![p2, p3], k));
}

/// The characters an ASCII byte string spells.
pub open spec fn chars_of_ascii(s: Seq<u8>) -> Seq<char> {
    Seq::new(s.len(), |i: int| s[i] as char)
}

pub proof fn lemma_chars_of_ascii_app(a: Seq<u8>, b: Seq<u8>)
    ensures
        chars_of_ascii(a + b) == chars_of_ascii(a) + chars_of_ascii(b),
{
    assert(chars_of_ascii(a + b) =~= chars_of_ascii(a) + chars_of_ascii(b));
}

/// The UTF-8 bytes of each pair of a string pair list.
pub open spec fn pairs_bytes(ps: Seq<(Seq<char>, Seq<char>)>) -> Seq<(Seq<u8>, Seq<u8>)> {
    ps.map_values(
        |p: (Seq<char>, Seq<char>)|
            (vstd::utf8::encode_utf8(p.0), vstd::utf8::encode_utf8(p.1)),
    )
}

/// The form encoding of a string pair list, as the characters of the
/// encoder's ASCII output.
pub open spec fn form_encoded_str(ps: Seq<(Seq<char>, Seq<char>)>) -> Seq<char> {
    chars_of_ascii(form_encoded(pairs_bytes(ps)))
}

/// The round trip at string level: decoding the encoding of any list of
/// character pairs, and reading each decoded byte string back as UTF-8,
/// gives exactly the original pairs, whatever reserved characters they
/// hold and in whatever order the keys stand.
pub proof fn lemma_form_round_trip_str(ps: Seq<(Seq<char>, Seq<char>)>)
    ensures
        form_decoded(form_encoded(pairs_bytes(ps))).map_values(
            |q: (Seq<u8>, Seq<u8>)| (vstd::utf8::decode_utf8(q.0), vstd::utf8::decode_utf8(q.1)),
        ) == ps,
{
    broadcast use vstd::utf8::encode_utf8_decode_utf8;

    lemma_form_round_trip(pairs_bytes(ps));
    assert(form_decoded(form_encoded(pairs_bytes(ps))).map_values(
        |q: (Seq<u8>, Seq<u8>)| (vstd::utf8::decode_utf8(q.0), vstd::utf8::decode_utf8(q.1)),
    ) =~= ps);
}

pub proof fn lemma_form_encoded_snoc(ps: Seq<(Seq<u8>, Seq<u8>)>, p: (Seq<u8>, Seq<u8>))
    ensures
        ps.len() == 0 ==> form_encoded(ps.push(p)) == pair_encoded(p.0, p.1),
        ps.len() > 0 ==> form_encoded(ps.push(p)) == form_encoded(ps) + seq![38u8] + pair_encoded(
            p.0,
            p.1,
        ),
    decreases ps.len(),
{
    if ps.len() == 0 {
        assert(ps.push(p)[0] == p);
        assert(ps.push(p).len() == 1);
    } else {
        assert(ps.push(p).drop_first() =~= ps.drop_first().push(p));
        assert(ps.push(p)[0] == ps[0]);
        lemma_form_encoded_snoc(ps.drop_first(), p);
        if ps.len() == 1 {
            assert(form_encoded(ps.push(p)) =~= form_encoded(ps) + seq![38u8] + pair_encoded(
                p.0,
                p.1,
            ));
        } else {
            assert(form_encoded(ps.push(p)) =~= form_encoded(ps) + seq![38u8] + pair_encoded(
                p.0,
                p.1,
            ));
        }
    }
}

/// Appends the form serialisation of the bytes of `s` to `w`.
fn append_form_escaped(w: &mut String, s: &str)
    ensures
        final(w)@ == old(w)@ + chars_of_ascii(escape_bytes(s.spec_bytes())),
{
    let ghost w0 = old(w)@;
    let bs = s.as_bytes_vec();
    let n = bs.len();
    let mut j: usize = 0;
    while j < n
        invariant
            j <= n,
            n == bs@.len(),
            bs@ == s.spec_bytes(),
            w@ == w0 + chars_of_ascii(escape_bytes(bs@.take(j as int))),
        decreases n - j,
    {
        let b = bs[j];
        if b == 32 {
            push_char(w, '+');
        } else if b == 42 || b == 45 || b == 46 || b == 95 || (48 <= b && b <= 57) || (65 <= b
            && b <= 90) || (97 <= b && b <= 122) {
            push_char(w, b as char);
        } else {
            push_char(w, '%');
            let hi = b / 16;
            let lo = b % 16;
            let hc: u8 = if hi < 10 {
                48 + hi
            } else {
                55 + hi
            };
            let lc: u8 = if lo < 10 {
                48 + lo
            } else {
                55 + lo
            };
            push_char(w, hc as char);
            push_char(w, lc as char);
        }
        proof {
            assert(bs@.take(j + 1) =~= bs@.take(j as int) + seq![bs@[j as int]]);
            lemma_escape_bytes_app(bs@.take(j as int), seq![bs@[j as int]]);
            assert(seq![bs@[j as int]].drop_first() =~= Seq::<u8>::empty());
            assert(seq![bs@[j as int]][0] == bs@[j as int]);
            assert(escape_bytes(seq![bs@[j as int]]) == escape_byte(bs@[j as int]) + escape_bytes(
                Seq::<u8>::empty(),
            ));
            assert(escape_byte(bs@[j as int]) + Seq::<u8>::empty() =~= escape_byte(
                bs@[j as int],
            ));
            lemma_chars_of_ascii_app(
                escape_bytes(bs@.take(j as int)),
                escape_byte(bs@[j as int]),
            );
            assert(w@ =~= w0 + chars_of_ascii(escape_bytes(bs@.take(j + 1))));
        }
        j = j + 1;
    }
    proof {
        assert(bs@.take(n as int) =~= bs@);
    }
}

/// Encodes ordered pairs in form mode: percent-encoded keys and values,
/// `=` inside each pair and `&` between pairs, exactly as
/// [`form_encoded`] describes on the pairs' UTF-8 bytes. Every pair list
/// encodes, so the result is always there.
pub fn encode_pairs(pairs: &Vec<(&str, &str)>) -> (r: Option<String>)
    ensures
        r matches Some(s) && s@ == form_encoded_str(
            pairs@.map_values(|p: (&str, &str)| (p.0@, p.1@)),
        ),
{
    let ghost ps = pairs@.map_values(|p: (&str, &str)| (p.0@, p.1@));
    let mut out = String::new();
    let mut i: usize = 0;
    while i < pairs.len()
        invariant
            i <= pairs@.len(),
            ps == pairs@.map_values(|p: (&str, &str)| (p.0@, p.1@)),
            out@ == chars_of_ascii(form_encoded(pairs_bytes(ps.take(i as int)))),
        decreases pairs@.len() - i,
    {
        if i > 0 {
            push_char(&mut out, '&');
        }
        let ghost out1 = out@;
        let (k, v) = pairs[i];
        append_form_escaped(&mut out, k);
        push_char(&mut out, '=');
        append_form_escaped(&mut out, v);
        proof {
            let bp = (vstd::utf8::encode_utf8(ps[i as int].0), vstd::utf8::encode_utf8(
                ps[i as int].1,
            ));
            assert(k@ == ps[i as int].0 && v@ == ps[i as int].1);
            assert(k.spec_bytes() == bp.0 && v.spec_bytes() == bp.1);
            assert(pairs_bytes(ps.take(i + 1)) =~= pairs_bytes(ps.take(i as int)).push(bp));
            lemma_form_encoded_snoc(pairs_bytes(ps.take(i as int)), bp);
            lemma_chars_of_ascii_app(escape_bytes(bp.0), seq![61u8]);
            lemma_chars_of_ascii_app(escape_bytes(bp.0) + seq![61u8], escape_bytes(bp.1));
            if i == 0 {
                assert(pairs_bytes(ps.take(0)).len() == 0);
                assert(out@ =~= chars_of_ascii(pair_encoded(bp.0, bp.1)));
                assert(out@ =~= chars_of_ascii(form_encoded(pairs_bytes(ps.take(i + 1)))));
            } else {
                assert(pairs_bytes(ps.take(i as int)).len() > 0);
                lemma_chars_of_ascii_app(
                    form_encoded(pairs_bytes(ps.take(i as int))),
                    seq![38u8],
                );
                lemma_chars_of_ascii_app(
                    form_encoded(pairs_bytes(ps.take(i as int))) + seq![38u8],
                    pair_encoded(bp.0, bp.1),
                );
                assert(out@ =~= chars_of_ascii(form_encoded(pairs_bytes(ps.take(i + 1)))));
            }
        }
        i = i + 1;
    }
    proof {
        assert(ps.take(ps.len() as int) =~= ps);
    }
    Some(out)
}

/// The naive joined rendering: `key=value&` for every pair, nothing
/// escaped, a separator after every chunk.
pub open spec fn naive_joined(ps: Seq<(Seq<char>, Seq<char>)>) -> Seq<char>
    decreases ps.len(),
{
    if ps.len() == 0 {
        Seq::empty()
    } else {
        ps[0].0 + seq!['='] + ps[0].1 + seq!['&'] + naive_joined(ps.drop_first())
    }
}

pub proof fn lemma_naive_joined_app(a: Seq<(Seq<char>, Seq<char>)>, b: Seq<(Seq<char>, Seq<char>)>)
    ensures
        naive_joined(a + b) == naive_joined(a) + naive_joined(b),
    decreases a.len(),
{
    if a.len() == 0 {
        assert(a + b =~= b);
        assert(naive_joined(a) + naive_joined(b) =~= naive_joined(b));
    } else {
        assert((a + b).drop_first() =~= a.drop_first() + b);
        assert((a + b)[0] == a[0]);
        lemma_naive_joined_app(a.drop_first(), b);
        assert(naive_joined(a + b) =~= naive_joined(a) + naive_joined(b));
    }
}

/// Joins pairs in the naive mode used for list-endpoint query strings:
/// literal `key=value` chunks, each followed by `&`, nothing escaped.
/// Empty input gives the empty string.
pub fn url_encode(pairs: &Vec<(&str, &str)>) -> (r: String)
    ensures
        r@ == naive_joined(pairs@.map_values(|p: (&str, &str)| (p.0@, p.1@))),
{
    let ghost ps = pairs@.map_values(|p: (&str, &str)| (p.0@, p.1@));
    let mut out = String::new();
    let mut i: usize = 0;
    while i < pairs.len()
        invariant
            i <= pairs@.len(),
            ps == pairs@.map_values(|p: (&str, &str)| (p.0@, p.1@)),
            out@ == naive_joined(ps.take(i as int)),
        decreases pairs@.len() - i,
    {
        let (k, v) = pairs[i];
        out.append(k);
        push_char(&mut out, '=');
        out.append(v);
        push_char(&mut out, '&');
        proof {
            assert(ps.take(i + 1) =~= ps.take(i as int) + seq![ps[i as int]]);
            lemma_naive_joined_app(ps.take(i as int), seq![ps[i as int]]);
            assert(seq![ps[i as int]].drop_first() =~= Seq::<(Seq<char>, Seq<char>)>::empty());
            assert(seq![ps[i as int]][0] == ps[i as int]);
            assert(naive_joined(seq![ps[i as int]]) == ps[i as int].0 + seq!['='] + ps[i as int].1
                + seq!['&'] + naive_joined(Seq::<(Seq<char>, Seq<char>)>::empty()));
            assert(ps[i as int].0 + seq!['='] + ps[i as int].1 + seq!['&'] + Seq::<char>::empty()
                =~= ps[i as int].0 + seq!['='] + ps[i as int].1 + seq!['&']);
            assert(out@ =~= naive_joined(ps.take(i + 1)));
        }
        i = i + 1;
    }
    proof {
        assert(ps.take(ps.len() as int) =~= ps);
    }
    out
}

} // verus!
