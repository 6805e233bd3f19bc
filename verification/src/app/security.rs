use vstd::prelude::*;

use crate::app::config::TOKEN_LENGTH;
use crate::app::errors::ServiceError;
use vstd::utf8::is_ascii_chars;

verus! {

// ---------------------------------------------------------------------------
// Outside items: the thread-local random generator of `rand`, `String::push`,
// and the bcrypt password hash.
// ---------------------------------------------------------------------------

/// The thread-local random number generator of `rand`.
#[verifier::external_type_specification]
#[verifier::external_body]
pub struct ExThreadRng(rand::rngs::ThreadRng);

/// `String::push` appends one character at the end of the string.
pub assume_specification[ String::push ](s: &mut String, ch: char)
    ensures
        final(s)@ == old(s)@.push(ch),
;

/// Calls `rand::thread_rng`, which hands out a handle on the generator of the
/// current thread. Nothing is promised of the handle.
#[verifier::external_body]
fn thread_rng() -> (rng: rand::rngs::ThreadRng) {
    rand::thread_rng()
}

/// Calls `Rng::gen_range(low, high)` of `rand` on `usize`. Its documentation
/// promises a value in `[low, high)` and a panic when `low >= high`, which the
/// `requires` rules out. Which value comes is chance.
#[verifier::external_body]
fn gen_range(rng: &mut rand::rngs::ThreadRng, low: usize, high: usize) -> (r: usize)
    requires
        low < high,
    ensures
        low <= r < high,
{
    rand::Rng::gen_range(rng, low, high)
}

/// Calls `Rng::sample(Alphanumeric)` of `rand`; its source picks a character of
/// `A-Z`, `a-z` or `0-9`. Which one is chance.
#[verifier::external_body]
fn sample_alphanumeric(rng: &mut rand::rngs::ThreadRng) -> (c: char)
    ensures
        is_alphanumeric_ascii(c),
{
    rand::Rng::sample(rng, rand::distributions::Alphanumeric)
}

/// What `bcrypt::verify(password, hash)` returns for an ASCII `hash`: `Some(b)`
/// for `Ok(b)`, `None` where it fails (a hash that does not parse, or a
/// password holding a NUL).
pub uninterp spec fn bcrypt_verify_spec(password: Seq<char>, hash: Seq<char>) -> Option<bool>;

/// Calls `bcrypt::verify`, which depends on its two arguments alone; the error
/// is mapped to `None`. Its source slices the hash by bytes at fixed offsets,
/// which panics where a multi-byte character straddles one; an ASCII hash
/// rules that out, and nothing else in it panics (the salt decodes to 16 bytes
/// or fails, the cost is checked before use).
#[verifier::external_body]
pub(crate) fn bcrypt_verify(password: &str, hash: &str) -> (r: Option<bool>)
    requires
        is_ascii_chars(hash@),
    ensures
        r == bcrypt_verify_spec(password@, hash@),
{
    bcrypt::verify(password, hash).ok()
}

/// What checking `password` against a stored `hash` yields: bcrypt's answer
/// for an ASCII hash; `None` (the hash cannot be read) for any other.
pub open spec fn bcrypt_check_spec(password: Seq<char>, hash: Seq<char>) -> Option<bool> {
    if is_ascii_chars(hash) {
        bcrypt_verify_spec(password, hash)
    } else {
        None
    }
}

/// Checks `password` against a stored bcrypt `hash`; `None` where the hash
/// cannot be read.
pub fn bcrypt_check(password: &str, hash: &str) -> (r: Option<bool>)
    ensures
        r == bcrypt_check_spec(password@, hash@),
{
    if hash.is_ascii() {
        bcrypt_verify(password, hash)
    } else {
        None
    }
}

/// The first seven characters of a bcrypt hash made at `cost`: `$2b$`, the
/// cost in two decimal digits, `$`.
pub open spec fn bcrypt_prefix(cost: u32) -> Seq<char> {
    seq!['$', '2', 'b', '$', (48 + cost / 10) as char, (48 + cost % 10) as char, '$']
}

/// A hash as `bcrypt::hash` writes it at `cost`: the prefix above, then 22
/// characters of salt and 31 of hash in bcrypt's base64, all ASCII.
pub open spec fn is_bcrypt_hash(h: Seq<char>, cost: u32) -> bool {
    &&& h.len() == 60
    &&& h.take(7) == bcrypt_prefix(cost)
    &&& is_ascii_chars(h)
}

/// Calls `bcrypt::hash(password, cost)`. The salt is random, so the hash is not
/// a function of the arguments. Its source writes `$2b$`, the cost in two
/// digits, `$`, then the 16-byte salt and 23 bytes of hash in bcrypt's base64
/// (22 and 31 characters); and a hash it returns verifies with the same
/// password (`verify` re-reads cost and salt from the hash and recomputes).
/// Those facts are stated. With a cost in `4..=31` and a password without NUL
/// it fails only where the system gives no random bytes, which depends on the
/// machine, so success is not promised.
#[verifier::external_body]
pub(crate) fn bcrypt_hash(password: &str, cost: u32) -> (r: Option<String>)
    requires
        4 <= cost <= 31,
        !password@.contains('\0'),
    ensures
        r matches Some(h) ==> is_bcrypt_hash(h@, cost),
        r matches Some(h) ==> bcrypt_verify_spec(password@, h@) == Some(true),
{
    bcrypt::hash(password, cost).ok()
}

/// Whether `s` holds a NUL character.
pub fn contains_nul(s: &str) -> (r: bool)
    ensures
        r == s@.contains('\0'),
{
    let n = s.unicode_len();
    let mut k: usize = 0;
    while k < n
        invariant
            n == s@.len(),
            k <= n,
            forall|i: int| 0 <= i < k ==> s@[i] != '\0',
        decreases n - k,
    {
        if s.get_char(k) == '\0' {
            return true;
        }
        k = k + 1;
    }
    false
}

// ---------------------------------------------------------------------------
// Tokens
// ---------------------------------------------------------------------------

/// `A-Z`, `a-z` or `0-9`.
pub open spec fn is_alphanumeric_ascii(c: char) -> bool {
    ||| ('A' as u32) <= (c as u32) <= ('Z' as u32)
    ||| ('a' as u32) <= (c as u32) <= ('z' as u32)
    ||| ('0' as u32) <= (c as u32) <= ('9' as u32)
}

/// A character of the url-safe base64 alphabet: `A-Z`, `a-z`, `0-9`, `_`, `-`.
pub open spec fn is_url_safe_char(c: char) -> bool {
    is_alphanumeric_ascii(c) || c == '_' || c == '-'
}

/// The character at index `i` of the url-safe base64 alphabet
/// `ABCDEFGHIJKLMNOPQRSTUVWXYZabcdefghijklmnopqrstuvwxyz0123456789_-`.
pub open spec fn url_base64_char(i: int) -> char {
    if i < 26 {
        (65 + i) as char
    } else if i < 52 {
        (97 + (i - 26)) as char
    } else if i < 62 {
        (48 + (i - 52)) as char
    } else if i == 62 {
        '_'
    } else {
        '-'
    }
}

/// A session token: `TOKEN_LENGTH` characters of the url-safe base64 alphabet.
pub open spec fn is_session_token(t: Seq<char>) -> bool {
    &&& t.len() == TOKEN_LENGTH
    &&& forall|i: int| 0 <= i < t.len() ==> #[trigger] is_url_safe_char(t[i])
}

/// Number of characters in the url-safe base64 alphabet.
pub const URL_BASE64_CHARSET_LEN: usize = 64;

/// The character at `idx` of the url-safe base64 alphabet.
pub fn url_base64_charset_char(idx: usize) -> (c: char)
    requires
        idx < URL_BASE64_CHARSET_LEN,
    ensures
        c == url_base64_char(idx as int),
        is_url_safe_char(c),
{
    let c: char = if idx < 26 {
        ((65 + idx) as u8) as char
    } else if idx < 52 {
        ((97 + (idx - 26)) as u8) as char
    } else if idx < 62 {
        ((48 + (idx - 52)) as u8) as char
    } else if idx == 62 {
        '_'
    } else {
        '-'
    };
    c
}

/// The token spelled by `indices` in the url-safe base64 alphabet.
pub open spec fn token_of(indices: Seq<usize>) -> Seq<char> {
    indices.map_values(|i: usize| url_base64_char(i as int))
}

/// Every index picks a character of the url-safe base64 alphabet.
pub open spec fn indices_in_charset(indices: Seq<usize>) -> bool {
    forall|i: int| 0 <= i < indices.len() ==> #[trigger] indices[i] < URL_BASE64_CHARSET_LEN
}

/// Spells `indices` in the url-safe base64 alphabet.
pub fn token_from_indices(indices: &Vec<usize>) -> (t: String)
    requires
        indices_in_charset(indices@),
    ensures
        t@ == token_of(indices@),
        forall|i: int| 0 <= i < t@.len() ==> #[trigger] is_url_safe_char(t@[i]),
{
    let mut token = String::new();
    let n = indices.len();
    let mut k: usize = 0;
    while k < n
        invariant
            n == indices@.len(),
            indices_in_charset(indices@),
            k <= n,
            token@ == token_of(indices@.take(k as int)),
            forall|i: int| 0 <= i < token@.len() ==> #[trigger] is_url_safe_char(token@[i]),
        decreases n - k,
    {
        let c = url_base64_charset_char(indices[k]);
        token.push(c);
        proof {
            assert(indices@.take(k + 1) == indices@.take(k as int).push(indices@[k as int]));
        }
        k = k + 1;
    }
    proof {
        assert(indices@.take(n as int) == indices@);
    }
    token
}

/// Generates a random 32-character url-safe base64 token.
///
/// It never fails: every character is drawn uniformly from the url-safe
/// base64 alphabet.
pub fn random_token() -> (r: Result<String, ServiceError>)
    ensures
        r matches Ok(t) && is_session_token(t@),
        r matches Ok(t) && exists|indices: Seq<usize>|
            indices.len() == TOKEN_LENGTH && indices_in_charset(indices) && t@ == token_of(indices),
{
    let mut rng = thread_rng();
    let mut indices: Vec<usize> = Vec::new();
    let mut n: usize = 0;
    while n < TOKEN_LENGTH
        invariant
            n <= TOKEN_LENGTH,
            indices@.len() == n,
            indices_in_charset(indices@),
        decreases TOKEN_LENGTH - n,
    {
        let idx = gen_range(&mut rng, 0, URL_BASE64_CHARSET_LEN);
        indices.push(idx);
        n = n + 1;
    }
    let token = token_from_indices(&indices);
    Ok(token)
}

/// An access token of `len` characters, each drawn from `A-Z`, `a-z`, `0-9`.
pub fn random_alphanumeric(len: usize) -> (t: String)
    ensures
        t@.len() == len,
        forall|i: int| 0 <= i < t@.len() ==> #[trigger] is_alphanumeric_ascii(t@[i]),
{
    let mut rng = thread_rng();
    let mut token = String::new();
    let mut n: usize = 0;
    while n < len
        invariant
            n <= len,
            token@.len() == n,
            forall|i: int| 0 <= i < token@.len() ==> #[trigger] is_alphanumeric_ascii(token@[i]),
        decreases len - n,
    {
        let c = sample_alphanumeric(&mut rng);
        token.push(c);
        n = n + 1;
    }
    token
}

} // verus!
