//! The `application/x-www-form-urlencoded` syntax of query strings.
use url::form_urlencoded;
use vstd::prelude::*;
use vstd::utf8::*;

verus! {

/// A name and a value.
pub type TextPair = (Seq<char>, Seq<char>);

/// The bytes that stand for themselves.
pub open spec fn unreserved(b: u8) -> bool {
    ||| 0x30 <= b <= 0x39
    ||| 0x41 <= b <= 0x5a
    ||| 0x61 <= b <= 0x7a
    ||| b == 0x2a
    ||| b == 0x2d
    ||| b == 0x2e
    ||| b == 0x5f
}

/// The upper case hexadecimal digit of a number below sixteen.
pub open spec fn upper_hex(d: u8) -> char {
    if d < 10 {
        (0x30 + d) as char
    } else {
        (0x37 + d) as char
    }
}

/// One byte: itself, a plus sign for a space, or a percent sign and two hexadecimal digits.
pub open spec fn form_byte(b: u8) -> Seq<char> {
    if unreserved(b) {
        seq![b as char]
    } else if b == 0x20 {
        seq!['+']
    } else {
        seq!['%', upper_hex(b / 16), upper_hex(b % 16)]
    }
}

/// A sequence of bytes, one after the other.
pub open spec fn form_bytes(bytes: Seq<u8>) -> Seq<char>
    decreases bytes.len(),
{
    if bytes.len() == 0 {
        Seq::empty()
    } else {
        form_byte(bytes.first()) + form_bytes(bytes.drop_first())
    }
}

/// A name or a value: the bytes of its UTF-8 encoding.
pub open spec fn form_text(s: Seq<char>) -> Seq<char> {
    form_bytes(encode_utf8(s))
}

/// A name and its value, with an equals sign between them.
pub open spec fn form_pair(p: TextPair) -> Seq<char> {
    form_text(p.0) + seq!['='] + form_text(p.1)
}

/// Names and values, with an ampersand between two pairs.
pub open spec fn form_encoded(pairs: Seq<TextPair>) -> Seq<char>
    decreases pairs.len(),
{
    if pairs.len() == 0 {
        Seq::empty()
    } else if pairs.len() == 1 {
        form_pair(pairs[0])
    } else {
        form_pair(pairs[0]) + seq!['&'] + form_encoded(pairs.drop_first())
    }
}

/// Serialises pairs with `form_urlencoded::Serializer`: `extend_pairs` on an empty target, then
/// `finish`. Trusted: the result is the pairs in order, each as its name, an equals sign and
/// its value, joined by ampersands, where names and values are written byte by byte from their
/// UTF-8 encoding.
#[verifier::external_body]
pub(crate) fn serialize_pairs(pairs: &Vec<(String, String)>) -> (r: String)
    ensures
        r@ == form_encoded(pairs.deep_view()),
{
    form_urlencoded::Serializer::new(String::new()).extend_pairs(pairs).finish()
}

spec fn free_of(s: Seq<char>, c: char) -> bool {
    forall|i: int| 0 <= i < s.len() ==> #[trigger] s[i] != c
}

proof fn lemma_form_bytes_chars(bytes: Seq<u8>)
    ensures
        free_of(form_bytes(bytes), '&'),
        free_of(form_bytes(bytes), '='),
    decreases bytes.len(),
{
    if bytes.len() > 0 {
        lemma_form_bytes_chars(bytes.drop_first());
        let b = bytes.first();
        assert(free_of(form_byte(b), '&') && free_of(form_byte(b), '='));
    }
}

proof fn lemma_form_bytes_injective(a: Seq<u8>, b: Seq<u8>)
    requires
        form_bytes(a) == form_bytes(b),
    ensures
        a == b,
    decreases a.len(),
{
    let ea = form_bytes(a);
    let eb = form_bytes(b);
    if a.len() == 0 {
        assert(b.len() == 0) by {
            if b.len() > 0 {
                assert(form_byte(b.first()).len() > 0);
                assert(eb.len() > 0);
            }
        }
        assert(a =~= b);
    } else {
        assert(form_byte(a.first()).len() > 0);
        assert(b.len() > 0);
        let x = a.first();
        let y = b.first();
        let ra = form_bytes(a.drop_first());
        let rb = form_bytes(b.drop_first());
        assert(ea == form_byte(x) + ra);
        assert(eb == form_byte(y) + rb);
        assert(ea[0] == form_byte(x)[0] && eb[0] == form_byte(y)[0]);
        if form_byte(x).len() == 3 {
            assert(form_byte(y).len() == 3);
            assert(ea[1] == upper_hex(x / 16) && ea[2] == upper_hex(x % 16));
            assert(eb[1] == upper_hex(y / 16) && eb[2] == upper_hex(y % 16));
            assert(x / 16 == y / 16 && x % 16 == y % 16);
            assert(x == y);
        } else {
            assert(x == y);
        }
        assert(ra =~= rb) by {
            let k = form_byte(x).len() as int;
            assert(ra =~= ea.skip(k));
            assert(rb =~= eb.skip(k));
        }
        lemma_form_bytes_injective(a.drop_first(), b.drop_first());
        assert(a =~= seq![x] + a.drop_first());
        assert(b =~= seq![y] + b.drop_first());
    }
}

proof fn lemma_form_text_injective(a: Seq<char>, b: Seq<char>)
    requires
        form_text(a) == form_text(b),
    ensures
        a == b,
{
    lemma_form_bytes_injective(encode_utf8(a), encode_utf8(b));
    encode_utf8_decode_utf8(a);
    encode_utf8_decode_utf8(b);
}

proof fn lemma_split_at_first(x: Seq<char>, y: Seq<char>, c: char, r1: Seq<char>, r2: Seq<char>)
    requires
        free_of(x, c),
        free_of(y, c),
        x + seq![c] + r1 == y + seq![c] + r2,
    ensures
        x == y,
        r1 == r2,
{
    let l = x + seq![c] + r1;
    let r = y + seq![c] + r2;
    assert(l[x.len() as int] == c);
    assert(r[y.len() as int] == c);
    if x.len() < y.len() {
        assert(r[x.len() as int] == y[x.len() as int]);
    }
    if y.len() < x.len() {
        assert(l[y.len() as int] == x[y.len() as int]);
    }
    assert(x =~= l.take(x.len() as int));
    assert(y =~= r.take(y.len() as int));
    assert(r1 =~= l.skip((x.len() + 1) as int));
    assert(r2 =~= r.skip((y.len() + 1) as int));
}

proof fn lemma_form_pair(p: TextPair)
    ensures
        free_of(form_pair(p), '&'),
        form_pair(p).len() > 0,
{
    lemma_form_bytes_chars(encode_utf8(p.0));
    lemma_form_bytes_chars(encode_utf8(p.1));
}

proof fn lemma_form_pair_injective(p: TextPair, q: TextPair)
    requires
        form_pair(p) == form_pair(q),
    ensures
        p == q,
{
    lemma_form_bytes_chars(encode_utf8(p.0));
    lemma_form_bytes_chars(encode_utf8(q.0));
    lemma_split_at_first(form_text(p.0), form_text(q.0), '=', form_text(p.1), form_text(q.1));
    lemma_form_text_injective(p.0, q.0);
    lemma_form_text_injective(p.1, q.1);
}

/// A query string loses nothing: two lists of pairs with the same encoding are the same list.
pub proof fn law_form_encoding_is_lossless(a: Seq<TextPair>, b: Seq<TextPair>)
    requires
        form_encoded(a) == form_encoded(b),
    ensures
        a == b,
    decreases a.len(),
{
    if a.len() > 0 {
        lemma_form_pair(a[0]);
    }
    if b.len() > 0 {
        lemma_form_pair(b[0]);
    }
    if a.len() == 0 || b.len() == 0 {
        assert(a =~= b);
    } else if a.len() == 1 && b.len() == 1 {
        lemma_form_pair_injective(a[0], b[0]);
        assert(a =~= b);
    } else if a.len() == 1 {
        assert(form_encoded(b)[form_pair(b[0]).len() as int] == '&');
    } else if b.len() == 1 {
        assert(form_encoded(a)[form_pair(a[0]).len() as int] == '&');
    } else {
        lemma_split_at_first(
            form_pair(a[0]),
            form_pair(b[0]),
            '&',
            form_encoded(a.drop_first()),
            form_encoded(b.drop_first()),
        );
        lemma_form_pair_injective(a[0], b[0]);
        law_form_encoding_is_lossless(a.drop_first(), b.drop_first());
        assert(a =~= seq![a[0]] + a.drop_first());
        assert(b =~= seq![b[0]] + b.drop_first());
    }
}

} // verus!
