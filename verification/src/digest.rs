//! The SHA-256 fingerprint of the server's certificate in the plain hex form
//! that clients pin when they connect: the colon-separated hex that the
//! digest prints as, with its colons removed.
use vstd::prelude::*;
use vstd::string::*;
use wtransport::tls::Certificate;

verus! {

#[verifier::external_type_specification]
#[verifier::external_body]
pub struct ExCertificate(Certificate);

/// The lowercase hex digits, by value.
pub open spec fn hex_digits() -> Seq<char> {
    seq!['0', '1', '2', '3', '4', '5', '6', '7', '8', '9', 'a', 'b', 'c', 'd', 'e', 'f']
}

/// The lowercase hex digit of a value below 16.
pub open spec fn hex_digit(n: u8) -> char {
    hex_digits()[n as int]
}

/// A byte as two lowercase hex digits.
pub open spec fn byte_hex(b: u8) -> Seq<char> {
    seq![hex_digit(b / 16), hex_digit(b % 16)]
}

/// Bytes as lowercase hex, two digits per byte, with no separator.
pub open spec fn plain_hex(bytes: Seq<u8>) -> Seq<char>
    decreases bytes.len(),
{
    if bytes.len() == 0 {
        Seq::empty()
    } else {
        plain_hex(bytes.drop_last()) + byte_hex(bytes.last())
    }
}

/// Bytes as lowercase hex, two digits per byte, the bytes separated by colons
/// (`"61:62:...:40"`): how a certificate digest prints.
pub open spec fn dotted_hex(bytes: Seq<u8>) -> Seq<char>
    decreases bytes.len(),
{
    if bytes.len() == 0 {
        Seq::empty()
    } else if bytes.len() == 1 {
        byte_hex(bytes[0])
    } else {
        dotted_hex(bytes.drop_last()) + seq![':'] + byte_hex(bytes.last())
    }
}

/// The text with every colon removed.
pub open spec fn without_colons(text: Seq<char>) -> Seq<char>
    decreases text.len(),
{
    if text.len() == 0 {
        Seq::empty()
    } else if text.last() == ':' {
        without_colons(text.drop_last())
    } else {
        without_colons(text.drop_last()).push(text.last())
    }
}

/// Whether a character has Unicode's White_Space property, which
/// `char::is_whitespace` tests.
pub open spec fn is_white_space(c: char) -> bool {
    let n = c as u32;
    ||| 0x09 <= n <= 0x0d
    ||| n == 0x20
    ||| n == 0x85
    ||| n == 0xa0
    ||| n == 0x1680
    ||| 0x2000 <= n <= 0x200a
    ||| n == 0x2028
    ||| n == 0x2029
    ||| n == 0x202f
    ||| n == 0x205f
    ||| n == 0x3000
}

/// The text without its leading whitespace.
pub open spec fn trim_start(text: Seq<char>) -> Seq<char>
    decreases text.len(),
{
    if text.len() > 0 && is_white_space(text[0]) {
        trim_start(text.drop_first())
    } else {
        text
    }
}

/// The text without its trailing whitespace.
pub open spec fn trim_end(text: Seq<char>) -> Seq<char>
    decreases text.len(),
{
    if text.len() > 0 && is_white_space(text.last()) {
        trim_end(text.drop_last())
    } else {
        text
    }
}

/// The text without its leading and trailing whitespace.
pub open spec fn trimmed(text: Seq<char>) -> Seq<char> {
    trim_end(trim_start(text))
}

/// The SHA-256 digest of some bytes.
pub uninterp spec fn sha256(bytes: Seq<u8>) -> Seq<u8>;

/// `String::push`: appends one character.
#[verifier::external_body]
fn push_char(s: &mut String, c: char)
    ensures
        final(s)@ == old(s)@.push(c),
{
    s.push(c);
}

/// `str::trim`: the text with leading and trailing whitespace removed, where
/// whitespace is what has Unicode's White_Space property.
#[verifier::external_body]
fn trim_whitespace(text: &str) -> (t: &str)
    ensures
        t@ == trimmed(text@),
{
    text.trim()
}

/// `wtransport::tls::Sha256Digest::new` and its `Display`: a 32-byte digest
/// printed as 32 lowercase two-digit hex numbers joined by colons, which is
/// what `Sha256Digest::fmt` with `Sha256DigestFmt::DottedHex` writes.
#[verifier::external_body]
fn format_digest(bytes: &[u8; 32]) -> (text: String)
    ensures
        text@ == dotted_hex(bytes@),
{
    wtransport::tls::Sha256Digest::new(*bytes).to_string()
}

/// `wtransport::tls::Certificate::der` and `Certificate::hash`: the
/// certificate's DER encoding, and its hash, which is the SHA-256 digest of
/// that encoding. Which encoding the certificate has is not stated: the
/// certificate is opaque here.
#[verifier::external_body]
fn certificate_der_hash(cert: &Certificate) -> (encoded: (Vec<u8>, [u8; 32]))
    ensures
        encoded.1@ == sha256(encoded.0@),
{
    (cert.der().to_vec(), *cert.hash().as_ref())
}

/// Removes every colon from the text, keeping the other characters in order
/// (`replace(":", "")`).
pub fn strip_colons(text: &str) -> (stripped: String)
    ensures
        stripped@ == without_colons(text@),
{
    let n = text.unicode_len();
    let mut out = String::new();
    let mut i: usize = 0;
    while i < n
        invariant
            n == text@.len(),
            i <= n,
            out@ == without_colons(text@.take(i as int)),
        decreases n - i,
    {
        let c = text.get_char(i);
        proof {
            assert(text@.take(i + 1).drop_last() =~= text@.take(i as int));
            assert(text@.take(i + 1).last() == c);
        }
        if c != ':' {
            push_char(&mut out, c);
        }
        i = i + 1;
    }
    proof {
        assert(text@.take(n as int) =~= text@);
    }
    out
}

/// No hex digit is a colon.
proof fn lemma_byte_hex_has_no_colon(b: u8)
    ensures
        byte_hex(b)[0] != ':',
        byte_hex(b)[1] != ':',
        without_colons(byte_hex(b)) == byte_hex(b),
{
    let h = byte_hex(b);
    assert(h[0] != ':' && h[1] != ':') by {
        assert(b / 16 < 16 && b % 16 < 16);
    }
    assert(h.drop_last().drop_last() =~= Seq::<char>::empty());
    assert(without_colons(h.drop_last().drop_last()) =~= Seq::<char>::empty());
    assert(h.drop_last() =~= seq![h[0]]);
    assert(without_colons(h.drop_last()) =~= seq![h[0]]);
    assert(without_colons(h) =~= h);
}

/// Removing colons from a concatenation removes them from each part.
proof fn lemma_without_colons_concat(a: Seq<char>, b: Seq<char>)
    ensures
        without_colons(a + b) == without_colons(a) + without_colons(b),
    decreases b.len(),
{
    if b.len() == 0 {
        assert(a + b =~= a);
        assert(without_colons(a) + without_colons(b) =~= without_colons(a));
    } else {
        lemma_without_colons_concat(a, b.drop_last());
        assert((a + b).drop_last() =~= a + b.drop_last());
        assert((a + b).last() == b.last());
        if b.last() == ':' {
        } else {
            assert(without_colons(a) + without_colons(b.drop_last()).push(b.last())
                =~= (without_colons(a) + without_colons(b.drop_last())).push(b.last()));
        }
    }
}

/// Removing the colons from the colon-separated hex of some bytes gives their
/// plain hex.
pub proof fn lemma_strip_dotted_is_plain(bytes: Seq<u8>)
    ensures
        without_colons(dotted_hex(bytes)) == plain_hex(bytes),
    decreases bytes.len(),
{
    if bytes.len() == 0 {
    } else if bytes.len() == 1 {
        lemma_byte_hex_has_no_colon(bytes[0]);
        assert(bytes.drop_last() =~= Seq::<u8>::empty());
        assert(plain_hex(bytes.drop_last()) =~= Seq::<char>::empty());
        assert(plain_hex(bytes) =~= byte_hex(bytes[0]));
    } else {
        let init = bytes.drop_last();
        lemma_strip_dotted_is_plain(init);
        lemma_byte_hex_has_no_colon(bytes.last());
        lemma_without_colons_concat(dotted_hex(init) + seq![':'], byte_hex(bytes.last()));
        lemma_without_colons_concat(dotted_hex(init), seq![':']);
        let colon = seq![':'];
        assert(colon.drop_last() =~= Seq::<char>::empty());
        assert(without_colons(colon.drop_last()) =~= Seq::<char>::empty());
        assert(without_colons(colon) =~= Seq::<char>::empty());
        assert(without_colons(dotted_hex(init)) + Seq::<char>::empty() =~= without_colons(dotted_hex(init)));
    }
}

/// Lengths of the two hex forms: two characters per byte, plus one colon
/// between neighbouring bytes.
pub proof fn lemma_hex_lengths(bytes: Seq<u8>)
    ensures
        plain_hex(bytes).len() == 2 * bytes.len(),
        bytes.len() > 0 ==> dotted_hex(bytes).len() == 3 * bytes.len() - 1,
    decreases bytes.len(),
{
    if bytes.len() > 0 {
        lemma_hex_lengths(bytes.drop_last());
    }
}

/// A SHA-256 digest prints as 95 characters, and its plain hex form, which
/// clients parse, is 64 characters long.
pub proof fn lemma_digest_lengths(bytes: Seq<u8>)
    requires
        bytes.len() == 32,
    ensures
        dotted_hex(bytes).len() == 95,
        plain_hex(bytes).len() == 64,
        without_colons(dotted_hex(bytes)) == plain_hex(bytes),
        without_colons(dotted_hex(bytes)).len() == 64,
{
    lemma_hex_lengths(bytes);
    lemma_strip_dotted_is_plain(bytes);
}

/// The plain hex form of a digest: its printed form with the colons removed.
pub fn digest_hex(bytes: &[u8; 32]) -> (hex: String)
    ensures
        hex@ == without_colons(dotted_hex(bytes@)),
        hex@ == plain_hex(bytes@),
        hex@.len() == 64,
{
    let dotted = format_digest(bytes);
    let hex = strip_colons(dotted.as_str());
    proof {
        lemma_digest_lengths(bytes@);
    }
    hex
}

/// The plain hex form of the SHA-256 digest of a certificate, which the server
/// publishes for clients to pin, together with the DER encoding that was
/// hashed.
pub fn certificate_digest_hex(cert: &Certificate) -> (published: (Vec<u8>, String))
    ensures
        published.1@ == plain_hex(sha256(published.0@)),
        published.1@.len() == 64,
{
    let (der, bytes) = certificate_der_hash(cert);
    let hex = digest_hex(&bytes);
    (der, hex)
}

/// The digest that a client reads from the published file: the file's text
/// without leading and trailing whitespace.
pub fn digest_from_file(contents: &str) -> (digest: String)
    ensures
        digest@ == trimmed(contents@),
{
    let t = trim_whitespace(contents);
    String::from_str(t)
}

/// Whether a character is a lowercase hex digit.
pub open spec fn is_hex_char(c: char) -> bool {
    ('0' <= c <= '9') || ('a' <= c <= 'f')
}

/// Every character of the plain hex form is a hex digit.
proof fn lemma_plain_hex_chars(bytes: Seq<u8>)
    ensures
        forall|i: int| 0 <= i < plain_hex(bytes).len() ==> is_hex_char(#[trigger] plain_hex(bytes)[i]),
    decreases bytes.len(),
{
    if bytes.len() > 0 {
        lemma_plain_hex_chars(bytes.drop_last());
        lemma_hex_lengths(bytes.drop_last());
        let b = bytes.last();
        assert(b / 16 < 16 && b % 16 < 16);
        let h = byte_hex(b);
        assert(is_hex_char(h[0]) && is_hex_char(h[1]));
        let p = plain_hex(bytes.drop_last());
        assert forall|i: int| 0 <= i < plain_hex(bytes).len() implies is_hex_char(#[trigger] plain_hex(bytes)[i]) by {
            if i < p.len() {
                assert(plain_hex(bytes)[i] == p[i]);
            } else {
                assert(plain_hex(bytes)[i] == h[i - p.len()]);
            }
        }
    }
}

/// Text that neither starts nor ends with whitespace is its own trimmed form.
proof fn lemma_trim_keeps_unpadded(text: Seq<char>)
    requires
        text.len() > 0 ==> !is_white_space(text[0]) && !is_white_space(text.last()),
    ensures
        trimmed(text) == text,
{
}

/// A client that reads back the digest that the server published gets it
/// unchanged, with or without a line break after it.
pub proof fn lemma_digest_read_back(bytes: Seq<u8>)
    ensures
        trimmed(plain_hex(bytes)) == plain_hex(bytes),
        trimmed(plain_hex(bytes).push('\n')) == plain_hex(bytes),
{
    let h = plain_hex(bytes);
    lemma_plain_hex_chars(bytes);
    if h.len() > 0 {
        assert(is_hex_char(h[0]));
        assert(is_hex_char(h[h.len() - 1]));
    }
    lemma_trim_keeps_unpadded(h);
    let t = h.push('\n');
    assert(t.len() > 0 && t[0] == (if h.len() > 0 { h[0] } else { '\n' }));
    if h.len() > 0 {
        assert(trim_start(t) == t);
        assert(t.drop_last() =~= h);
        assert(trim_end(h) == h);
    } else {
        assert(t.drop_first() =~= Seq::<char>::empty());
        assert(trim_start(t.drop_first()) =~= Seq::<char>::empty());
        assert(h =~= Seq::<char>::empty());
    }
}

} // verus!
