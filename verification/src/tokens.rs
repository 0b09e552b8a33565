//! Pairing tokens: random bytes of the operating system in a text that fits
//! into a link.
use base64::engine::general_purpose::URL_SAFE_NO_PAD;
use base64::Engine as _;
use vstd::prelude::*;
use vstd::string::*;

verus! {

broadcast use vstd::seq_lib::group_seq_properties;

/// A byte, or zero behind the end.
pub open spec fn byte_at(bytes: Seq<u8>, i: int) -> int {
    if 0 <= i < bytes.len() {
        bytes[i] as int
    } else {
        0
    }
}

/// The six bits that the `k`-th character stands for: bits `6k` to `6k + 5` of
/// the bytes, the highest bit of a byte first, zeros behind the end.
pub open spec fn sextet(bytes: Seq<u8>, k: int) -> int {
    let first = 6 * k / 8;
    let word = byte_at(bytes, first) * 256 + byte_at(bytes, first + 1);
    let skipped = 6 * k % 8;
    if skipped == 0 {
        word / 1024
    } else if skipped == 2 {
        (word / 256) % 64
    } else if skipped == 4 {
        (word / 64) % 64
    } else {
        (word / 16) % 64
    }
}

/// The character of six bits in the alphabet that is safe in links.
pub open spec fn link_char(v: int) -> char {
    if v < 26 {
        ('A' as int + v) as char
    } else if v < 52 {
        ('a' as int + (v - 26)) as char
    } else if v < 62 {
        ('0' as int + (v - 52)) as char
    } else if v == 62 {
        '-'
    } else {
        '_'
    }
}

/// How many characters stand for `n` bytes without padding.
pub open spec fn link_len(n: nat) -> nat {
    (8 * n + 5) / 6
}

/// The text of bytes in the alphabet that is safe in links, without padding.
pub open spec fn link_text(bytes: Seq<u8>) -> Seq<char> {
    Seq::new(link_len(bytes.len()), |k: int| link_char(sextet(bytes, k)))
}

/// `base64::Engine::encode` of the engine `URL_SAFE_NO_PAD`: one character for
/// every six bits, in the alphabet with `-` and `_`, without padding. It panics
/// where the length of the text does not fit in a word, which is left out.
#[verifier::external_body]
pub(crate) fn encode_for_link(bytes: &Vec<u8>) -> (r: String)
    requires
        bytes@.len() <= usize::MAX / 4,
    ensures
        r@ == link_text(bytes@),
{
    URL_SAFE_NO_PAD.encode(bytes)
}

/// The error type of the operating system's random number source.
#[verifier::external_type_specification]
#[verifier::external_body]
pub struct ExRandomError(getrandom::Error);

/// `getrandom::fill`: overwrites all bytes with random ones, or fails. Nothing
/// can be said of the bytes; their number stays.
#[verifier::external_body]
pub(crate) fn fill_random(bytes: &mut Vec<u8>) -> (r: Result<(), getrandom::Error>)
    ensures
        final(bytes)@.len() == old(bytes)@.len(),
{
    getrandom::fill(bytes)
}

/// The text of an error of the random number source, as its `Display` prints
/// it. Nothing is stated of it.
#[verifier::external_body]
pub(crate) fn random_error_text(error: &getrandom::Error) -> String {
    format!("{error}")
}

/// How many random bytes a token holds.
pub const TOKEN_BYTES: usize = 18;

/// How many characters a token has.
pub const TOKEN_CHARS: usize = 24;

/// Whether a character can stand in a token.
pub open spec fn is_link_char(c: char) -> bool {
    'A' <= c <= 'Z' || 'a' <= c <= 'z' || '0' <= c <= '9' || c == '-' || c == '_'
}

/// The text of a token.
pub fn token_text(bytes: &Vec<u8>) -> (r: String)
    requires
        bytes@.len() <= usize::MAX / 4,
    ensures
        r@ == link_text(bytes@),
{
    encode_for_link(bytes)
}

/// The token of drawn bytes, or why none could be drawn.
pub fn drawn_token(drawn: Result<Vec<u8>, String>) -> (r: Result<String, String>)
    requires
        drawn matches Ok(bytes) ==> bytes@.len() <= usize::MAX / 4,
    ensures
        match (r, drawn) {
            (Ok(token), Ok(bytes)) => token@ == link_text(bytes@),
            (Err(error), Err(cause)) => error@ == cause@,
            _ => false,
        },
{
    match drawn {
        Ok(bytes) => Ok(token_text(&bytes)),
        Err(cause) => Err(cause),
    }
}

/// A fresh token of [`TOKEN_CHARS`] characters, or why there is no randomness:
/// what [`drawn_token`] makes of [`TOKEN_BYTES`] bytes of the operating system.
/// Whether there are any depends on the machine, so success is not promised.
pub fn random_token() -> (r: Result<String, String>)
    ensures
        r matches Ok(token) ==> token@.len() == TOKEN_CHARS && forall|i: int|
            0 <= i < token@.len() ==> is_link_char(#[trigger] token@[i]),
        r matches Ok(token) ==> exists|bytes: Seq<u8>|
            bytes.len() == TOKEN_BYTES && token@ == #[trigger] link_text(bytes),
{
    let mut bytes: Vec<u8> = Vec::new();
    let mut i: usize = 0;
    while i < TOKEN_BYTES
        invariant
            i <= TOKEN_BYTES,
            bytes@.len() == i,
        decreases TOKEN_BYTES - i,
    {
        bytes.push(0);
        i += 1;
    }
    let filled = fill_random(&mut bytes);
    proof {
        tokens_fit_into_links(bytes@);
    }
    let drawn = match filled {
        Ok(_) => Ok(bytes),
        Err(error) => Err(random_error_text(&error)),
    };
    drawn_token(drawn)
}

proof fn sextet_is_small(bytes: Seq<u8>, k: int)
    requires
        0 <= k,
    ensures
        0 <= sextet(bytes, k) < 64,
{
    let first = 6 * k / 8;
    let word = byte_at(bytes, first) * 256 + byte_at(bytes, first + 1);
    assert(0 <= word < 65536);
}

/// The text of bytes holds only characters that are safe in links, and the
/// text of a token's bytes has the length of a token.
pub proof fn tokens_fit_into_links(bytes: Seq<u8>)
    ensures
        forall|i: int|
            0 <= i < link_text(bytes).len() ==> is_link_char(#[trigger] link_text(bytes)[i]),
        bytes.len() == TOKEN_BYTES ==> link_text(bytes).len() == TOKEN_CHARS,
{
    assert forall|i: int| 0 <= i < link_text(bytes).len() implies is_link_char(
        #[trigger] link_text(bytes)[i],
    ) by {
        sextet_is_small(bytes, i);
    }
}

} // verus!
