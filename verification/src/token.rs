//! Session tokens: 32 random bytes in unpadded URL-safe Base64, stored by the
//! service only as the Base64 of their SHA-256 digest.

use base64::engine::general_purpose::URL_SAFE_NO_PAD;
use base64::Engine;
use sha2::{Digest, Sha256};
use vstd::prelude::*;
use vstd::string::*;
use vstd::utf8::*;

verus! {

/// Number of random bytes in a session token.
pub const TOKEN_LENGTH: usize = 32;

/// The character of the URL-safe Base64 alphabet for the 6-bit value `v`.
pub open spec fn base64_url_digit(v: int) -> char {
    if v < 26 {
        (65 + v) as char
    } else if v < 52 {
        (97 + v - 26) as char
    } else if v < 62 {
        (48 + v - 52) as char
    } else if v == 62 {
        '-'
    } else {
        '_'
    }
}

/// The unpadded URL-safe Base64 text of `bytes`: each group of three bytes,
/// read as 24 bits from the high bit of the first byte, gives four
/// characters of 6 bits each; a last group of one or two bytes is filled
/// with zero bits and gives two or three characters.
pub open spec fn base64_url_encode(bytes: Seq<u8>) -> Seq<char>
    decreases bytes.len(),
{
    if bytes.len() == 0 {
        Seq::empty()
    } else {
        let b0 = bytes[0] as int;
        let b1 = if bytes.len() > 1 { bytes[1] as int } else { 0 };
        let b2 = if bytes.len() > 2 { bytes[2] as int } else { 0 };
        let c0 = base64_url_digit(b0 / 4);
        let c1 = base64_url_digit((b0 % 4) * 16 + b1 / 16);
        let c2 = base64_url_digit((b1 % 16) * 4 + b2 / 64);
        let c3 = base64_url_digit(b2 % 64);
        if bytes.len() == 1 {
            seq![c0, c1]
        } else if bytes.len() == 2 {
            seq![c0, c1, c2]
        } else {
            seq![c0, c1, c2, c3] + base64_url_encode(bytes.subrange(3, bytes.len() as int))
        }
    }
}

/// What `URL_SAFE_NO_PAD.decode` gives for `text`: the bytes whose unpadded
/// URL-safe Base64 text it is, or `None` when it is no such text (padding,
/// another character, a length that leaves one character over, or set bits
/// after the last byte).
pub open spec fn base64_url_decode(text: Seq<char>) -> Option<Seq<u8>> {
    if exists|b: Seq<u8>| base64_url_encode(b) == text {
        Some(choose|b: Seq<u8>| base64_url_encode(b) == text)
    } else {
        None
    }
}

/// The SHA-256 digest of `bytes`.
pub uninterp spec fn sha256_digest(bytes: Seq<u8>) -> Seq<u8>;

/// A character of the URL-safe Base64 alphabet.
pub open spec fn is_base64_url_char(c: char) -> bool {
    ||| 'A' <= c <= 'Z'
    ||| 'a' <= c <= 'z'
    ||| '0' <= c <= '9'
    ||| c == '-'
    ||| c == '_'
}

/// Length of the unpadded Base64 text of `n` bytes.
pub open spec fn base64_unpadded_len(n: nat) -> nat {
    (4 * n + 2) / 3
}

proof fn lemma_base64_url_digit(v: int)
    requires
        0 <= v < 64,
    ensures
        is_base64_url_char(base64_url_digit(v)),
{
}

/// The Base64 text of `bytes` has the unpadded length and uses only the
/// URL-safe alphabet.
pub proof fn lemma_base64_url_encode_shape(bytes: Seq<u8>)
    ensures
        base64_url_encode(bytes).len() == base64_unpadded_len(bytes.len()),
        forall|i: int|
            0 <= i < base64_url_encode(bytes).len() ==> is_base64_url_char(
                #[trigger] base64_url_encode(bytes)[i],
            ),
    decreases bytes.len(),
{
    if bytes.len() > 0 {
        let b0 = bytes[0] as int;
        let b1 = if bytes.len() > 1 { bytes[1] as int } else { 0 };
        let b2 = if bytes.len() > 2 { bytes[2] as int } else { 0 };
        lemma_base64_url_digit(b0 / 4);
        lemma_base64_url_digit((b0 % 4) * 16 + b1 / 16);
        lemma_base64_url_digit((b1 % 16) * 4 + b2 / 64);
        lemma_base64_url_digit(b2 % 64);
        if bytes.len() > 2 {
            let rest = bytes.subrange(3, bytes.len() as int);
            lemma_base64_url_encode_shape(rest);
            let head = seq![
                base64_url_digit(b0 / 4),
                base64_url_digit((b0 % 4) * 16 + b1 / 16),
                base64_url_digit((b1 % 16) * 4 + b2 / 64),
                base64_url_digit(b2 % 64),
            ];
            let e = base64_url_encode(bytes);
            assert(e == head + base64_url_encode(rest));
            assert forall|i: int| 0 <= i < e.len() implies is_base64_url_char(#[trigger] e[i]) by {
                if i >= 4 {
                    assert(e[i] == base64_url_encode(rest)[i - 4]);
                }
            }
        }
    }
}

proof fn lemma_base64_url_digit_injective(v: int, w: int)
    requires
        0 <= v < 64,
        0 <= w < 64,
        base64_url_digit(v) == base64_url_digit(w),
    ensures
        v == w,
{
    let c = base64_url_digit(v);
    assert((c as u32) as int == (if v < 26 {
        65 + v
    } else if v < 52 {
        97 + v - 26
    } else if v < 62 {
        48 + v - 52
    } else if v == 62 {
        45
    } else {
        95
    }));
    assert((c as u32) as int == (if w < 26 {
        65 + w
    } else if w < 52 {
        97 + w - 26
    } else if w < 62 {
        48 + w - 52
    } else if w == 62 {
        45
    } else {
        95
    }));
}

proof fn lemma_base64_unpadded_len_injective(n: nat, m: nat)
    requires
        base64_unpadded_len(n) == base64_unpadded_len(m),
    ensures
        n == m,
{
    if n < m {
        assert((4 * n + 2) / 3 < (4 * m + 2) / 3);
    } else if m < n {
        assert((4 * m + 2) / 3 < (4 * n + 2) / 3);
    }
}

/// Three bytes (or fewer, filled with zeros) are determined by the 6-bit
/// groups their Base64 characters carry.
proof fn lemma_group_injective(a0: int, a1: int, a2: int, b0: int, b1: int, b2: int)
    requires
        0 <= a0 < 256,
        0 <= a1 < 256,
        0 <= a2 < 256,
        0 <= b0 < 256,
        0 <= b1 < 256,
        0 <= b2 < 256,
        a0 / 4 == b0 / 4,
        (a0 % 4) * 16 + a1 / 16 == (b0 % 4) * 16 + b1 / 16,
    ensures
        a0 == b0,
        a1 / 16 == b1 / 16,
        (a1 % 16) * 4 + a2 / 64 == (b1 % 16) * 4 + b2 / 64 ==> a1 == b1 && a2 / 64 == b2 / 64,
        a1 == b1 && (a1 % 16) * 4 + a2 / 64 == (b1 % 16) * 4 + b2 / 64 && a2 % 64 == b2 % 64
            ==> a2 == b2,
{
    assert(a0 == b0 && a1 / 16 == b1 / 16) by (nonlinear_arith)
        requires
            0 <= a0 < 256,
            0 <= a1 < 256,
            0 <= b0 < 256,
            0 <= b1 < 256,
            a0 / 4 == b0 / 4,
            (a0 % 4) * 16 + a1 / 16 == (b0 % 4) * 16 + b1 / 16,
    ;
    if (a1 % 16) * 4 + a2 / 64 == (b1 % 16) * 4 + b2 / 64 {
        assert(a1 == b1 && a2 / 64 == b2 / 64) by (nonlinear_arith)
            requires
                0 <= a1 < 256,
                0 <= a2 < 256,
                0 <= b1 < 256,
                0 <= b2 < 256,
                a1 / 16 == b1 / 16,
                (a1 % 16) * 4 + a2 / 64 == (b1 % 16) * 4 + b2 / 64,
        ;
    }
    if a1 == b1 && (a1 % 16) * 4 + a2 / 64 == (b1 % 16) * 4 + b2 / 64 && a2 % 64 == b2 % 64 {
        assert(a2 == b2) by (nonlinear_arith)
            requires
                0 <= a2 < 256,
                0 <= b2 < 256,
                a2 / 64 == b2 / 64,
                a2 % 64 == b2 % 64,
        ;
    }
}

/// Different bytes have different Base64 texts.
pub proof fn lemma_base64_url_encode_injective(a: Seq<u8>, b: Seq<u8>)
    requires
        base64_url_encode(a) == base64_url_encode(b),
    ensures
        a == b,
    decreases a.len(),
{
    lemma_base64_url_encode_shape(a);
    lemma_base64_url_encode_shape(b);
    lemma_base64_unpadded_len_injective(a.len(), b.len());
    if a.len() > 0 {
        let e = base64_url_encode(a);
        let a0 = a[0] as int;
        let a1 = if a.len() > 1 { a[1] as int } else { 0 };
        let a2 = if a.len() > 2 { a[2] as int } else { 0 };
        let b0 = b[0] as int;
        let b1 = if b.len() > 1 { b[1] as int } else { 0 };
        let b2 = if b.len() > 2 { b[2] as int } else { 0 };
        assert(e[0] == base64_url_digit(a0 / 4) && e[0] == base64_url_digit(b0 / 4));
        lemma_base64_url_digit_injective(a0 / 4, b0 / 4);
        assert(e[1] == base64_url_digit((a0 % 4) * 16 + a1 / 16));
        assert(e[1] == base64_url_digit((b0 % 4) * 16 + b1 / 16));
        lemma_base64_url_digit_injective((a0 % 4) * 16 + a1 / 16, (b0 % 4) * 16 + b1 / 16);
        if a.len() > 1 {
            assert(e[2] == base64_url_digit((a1 % 16) * 4 + a2 / 64));
            assert(e[2] == base64_url_digit((b1 % 16) * 4 + b2 / 64));
            lemma_base64_url_digit_injective((a1 % 16) * 4 + a2 / 64, (b1 % 16) * 4 + b2 / 64);
        }
        if a.len() > 2 {
            assert(e[3] == base64_url_digit(a2 % 64) && e[3] == base64_url_digit(b2 % 64));
            lemma_base64_url_digit_injective(a2 % 64, b2 % 64);
        }
        lemma_group_injective(a0, a1, a2, b0, b1, b2);
        if a.len() > 2 {
            let ra = a.subrange(3, a.len() as int);
            let rb = b.subrange(3, b.len() as int);
            assert(base64_url_encode(ra) =~= e.subrange(4, e.len() as int));
            assert(base64_url_encode(rb) =~= e.subrange(4, e.len() as int));
            lemma_base64_url_encode_injective(ra, rb);
            assert(a =~= seq![a[0], a[1], a[2]] + ra);
            assert(b =~= seq![b[0], b[1], b[2]] + rb);
        } else {
            assert(a =~= b);
        }
    } else {
        assert(a =~= b);
    }
}

/// Decoding the Base64 text of some bytes gives those bytes back.
pub proof fn lemma_base64_url_round_trip(b: Seq<u8>)
    ensures
        base64_url_decode(base64_url_encode(b)) == Some(b),
{
    let t = base64_url_encode(b);
    assert(exists|c: Seq<u8>| base64_url_encode(c) == t);
    let c = choose|c: Seq<u8>| base64_url_encode(c) == t;
    lemma_base64_url_encode_injective(c, b);
}

#[verifier::external_type_specification]
#[verifier::external_body]
pub struct ExDecodeError(base64::DecodeError);

#[verifier::external_type_specification]
#[verifier::external_body]
pub struct ExRandomError(getrandom::Error);

/// `URL_SAFE_NO_PAD.encode` of base64. Claimed: the text is `base64_url_encode`
/// of the bytes.
#[verifier::external_body]
fn encode_base64_url(bytes: &[u8]) -> (r: String)
    requires
        bytes@.len() < usize::MAX / 2,
    ensures
        r@ == base64_url_encode(bytes@),
{
    URL_SAFE_NO_PAD.encode(bytes)
}

/// `URL_SAFE_NO_PAD.decode` of base64. Claimed: it succeeds exactly when
/// the text is the Base64 of some bytes (`base64_url_decode` gives bytes),
/// and returns those bytes; the engine refuses padding, characters outside
/// the alphabet, a length that leaves one character over, and set bits after
/// the last byte.
#[verifier::external_body]
fn decode_base64_url(text: &str) -> (r: Result<Vec<u8>, base64::DecodeError>)
    ensures
        match r {
            Ok(v) => base64_url_decode(text@) == Some(v@),
            Err(_) => base64_url_decode(text@) is None,
        },
{
    URL_SAFE_NO_PAD.decode(text)
}

/// `Sha256::digest` of sha2. Claimed: the result is `sha256_digest` of the
/// input and is 32 bytes long.
#[verifier::external_body]
fn sha256(bytes: &[u8]) -> (r: Vec<u8>)
    ensures
        r@ == sha256_digest(bytes@),
        r@.len() == 32,
{
    Sha256::digest(bytes).to_vec()
}

/// `getrandom::fill` on a fresh buffer of `len` bytes. Claimed: on success the
/// buffer has `len` bytes. Their values come from the system's random source,
/// so nothing more is stated of them.
#[verifier::external_body]
fn random_bytes(len: usize) -> (r: Result<Vec<u8>, getrandom::Error>)
    ensures
        r matches Ok(v) ==> v@.len() == len,
{
    let mut buf = vec![0u8; len];
    getrandom::fill(&mut buf)?;
    Ok(buf)
}

/// The random source failed while a session token was generated.
#[derive(Debug, Clone, Copy, PartialEq, Eq)]
pub struct TokenGenerationError;

/// The texts that are session tokens: Base64 of exactly `TOKEN_LENGTH` bytes.
pub open spec fn is_session_token_text(text: Seq<char>) -> bool {
    base64_url_decode(text) matches Some(b) && b.len() == TOKEN_LENGTH
}

/// A session token text has 43 characters, all of the URL-safe alphabet.
pub proof fn lemma_session_token_text_shape(text: Seq<char>)
    requires
        is_session_token_text(text),
    ensures
        text.len() == 43,
        forall|i: int| 0 <= i < text.len() ==> is_base64_url_char(#[trigger] text[i]),
{
    let b = choose|b: Seq<u8>| base64_url_encode(b) == text;
    lemma_base64_url_encode_shape(b);
}

/// What `SessionToken::parse` accepts of `text`.
pub open spec fn parsed_token_text(text: Seq<char>) -> Option<Seq<char>> {
    if is_session_token_text(text) {
        Some(text)
    } else {
        None
    }
}

/// The digest text stored for a session token with text `text`.
pub open spec fn token_digest_text(text: Seq<char>) -> Seq<char> {
    base64_url_encode(sha256_digest(encode_utf8(text)))
}

/// A bearer token identifying a session.
pub struct SessionToken {
    value: String,
}

impl View for SessionToken {
    type V = Seq<char>;

    closed spec fn view(&self) -> Seq<char> {
        self.value@
    }
}

impl SessionToken {
    #[verifier::type_invariant]
    spec fn well_formed(self) -> bool {
        is_session_token_text(self.value@)
    }

    /// The token whose text is the Base64 of `bytes`.
    pub fn from_bytes(bytes: &[u8]) -> (r: SessionToken)
        requires
            bytes@.len() == TOKEN_LENGTH,
        ensures
            r@ == base64_url_encode(bytes@),
            r@.len() == 43,
            forall|i: int| 0 <= i < r@.len() ==> is_base64_url_char(#[trigger] r@[i]),
            is_session_token_text(r@),
    {
        let value = encode_base64_url(bytes);
        proof {
            lemma_base64_url_encode_shape(bytes@);
            lemma_base64_url_round_trip(bytes@);
        }
        SessionToken { value }
    }

    /// Generates a token from `TOKEN_LENGTH` bytes of the system's random source.
    pub fn generate() -> (r: Result<SessionToken, TokenGenerationError>)
        ensures
            r matches Ok(t) ==> {
                &&& t@.len() == 43
                &&& forall|i: int| 0 <= i < t@.len() ==> is_base64_url_char(#[trigger] t@[i])
                &&& is_session_token_text(t@)
                &&& exists|b: Seq<u8>| b.len() == TOKEN_LENGTH && t@ == base64_url_encode(b)
            },
    {
        match random_bytes(TOKEN_LENGTH) {
            Ok(bytes) => Ok(SessionToken::from_bytes(bytes.as_slice())),
            Err(_) => Err(TokenGenerationError),
        }
    }

    /// Accepts `value` as a token exactly when it is the Base64 of
    /// `TOKEN_LENGTH` bytes.
    pub fn parse(value: &str) -> (r: Option<SessionToken>)
        ensures
            match r {
                Some(t) => parsed_token_text(value@) == Some(t@),
                None => parsed_token_text(value@) is None,
            },
    {
        match decode_base64_url(value) {
            Ok(decoded) => {
                if decoded.len() == TOKEN_LENGTH {
                    Some(SessionToken { value: value.to_owned() })
                } else {
                    None
                }
            },
            Err(_) => None,
        }
    }

    /// The token's text, as sent to the client.
    pub fn expose(&self) -> (r: &str)
        ensures
            r@ == self@,
            is_session_token_text(r@),
            r@.len() == 43,
            forall|i: int| 0 <= i < r@.len() ==> is_base64_url_char(#[trigger] r@[i]),
    {
        proof {
            use_type_invariant(self);
            lemma_session_token_text_shape(self@);
        }
        self.value.as_str()
    }

    /// The Base64 of the SHA-256 digest of the token's text, as stored.
    pub fn digest(&self) -> (r: String)
        ensures
            r@ == token_digest_text(self@),
            r@.len() == 43,
            forall|i: int| 0 <= i < r@.len() ==> is_base64_url_char(#[trigger] r@[i]),
    {
        let d = sha256(self.value.as_str().as_bytes());
        proof {
            lemma_base64_url_encode_shape(d@);
        }
        encode_base64_url(d.as_slice())
    }
}

/// Parsing the text of any session token accepts it unchanged, so the parsed
/// token has the same digest as the token it came from.
pub proof fn law_token_text_parses(text: Seq<char>)
    requires
        is_session_token_text(text),
    ensures
        parsed_token_text(text) == Some(text),
        token_digest_text(parsed_token_text(text).unwrap()) == token_digest_text(text),
{
}

} // verus!
