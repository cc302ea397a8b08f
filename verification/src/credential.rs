//! Credentials and their parsing from `Authorization` header values.
//!
//! A header value is blanks, a scheme name in any letter case, at least one
//! blank, and a payload that runs to the end of the value. The basic scheme's
//! payload is the base64 text of `username:password`; the bearer scheme's
//! payload is the token itself.

use crate::encoding::{base64_bytes, base64_decode, string_from_utf8};
use vstd::prelude::*;
use vstd::slice::{slice_subrange, slice_to_vec};
use vstd::utf8::{
    decode_utf8, encode_utf8, encode_utf8_valid_utf8, is_char_boundary,
    is_char_boundary_iff_not_is_continuation_byte, length_of_first_scalar, pop_first_scalar,
    valid_utf8, valid_utf8_split,
};

verus! {

/// A username and password offered for login. An empty password is no
/// password: a credential read from a header carries `None` for it.
#[derive(Debug, Clone)]
pub struct BasicCredential {
    pub username: String,
    pub password: Option<String>,
}

impl View for BasicCredential {
    type V = (Seq<char>, Option<Seq<char>>);

    open spec fn view(&self) -> (Seq<char>, Option<Seq<char>>) {
        (
            self.username@,
            match self.password {
                Some(password) => Some(password@),
                None => None,
            },
        )
    }
}

/// An opaque token offered in place of a login.
#[derive(Debug, Clone)]
pub struct BearerCredential {
    pub token: String,
}

/// Why a header value is no credential.
#[derive(Debug, Clone, Copy, PartialEq, Eq, Structural)]
pub enum ParseError {
    Malformed,
}

/// The byte `:` that parts a username from a password.
pub const COLON: u8 = 0x3a;

/// The basic scheme's name, in lower case.
pub open spec fn basic_scheme() -> Seq<u8> {
    seq![0x62u8, 0x61u8, 0x73u8, 0x69u8, 0x63u8]
}

/// The bearer scheme's name, in lower case.
pub open spec fn bearer_scheme() -> Seq<u8> {
    seq![0x62u8, 0x65u8, 0x61u8, 0x72u8, 0x65u8, 0x72u8]
}

/// A space or a horizontal tab.
pub open spec fn is_blank(b: u8) -> bool {
    b == 0x20 || b == 0x09
}

/// An ASCII capital as its small letter, any other byte as itself.
pub open spec fn lowered(b: u8) -> u8 {
    if 0x41 <= b && b <= 0x5a {
        (b + 0x20) as u8
    } else {
        b
    }
}

/// A byte string with every byte lowered.
pub open spec fn lowered_seq(s: Seq<u8>) -> Seq<u8> {
    Seq::new(s.len(), |i: int| lowered(s[i]))
}

/// The first position at or after `from` that holds no blank; the length of
/// `s` where only blanks follow.
pub open spec fn after_blanks(s: Seq<u8>, from: int) -> int
    decreases s.len() - from,
{
    if 0 <= from < s.len() && is_blank(s[from]) {
        after_blanks(s, from + 1)
    } else {
        from
    }
}

/// The payload of a header value of the given scheme, `None` where the value
/// does not name that scheme or no blank follows the name.
pub open spec fn payload_of(header: Seq<u8>, scheme: Seq<u8>) -> Option<Seq<u8>> {
    let start = after_blanks(header, 0);
    let end = start + scheme.len();
    if end < header.len() && lowered_seq(header.subrange(start, end)) == scheme && is_blank(
        header[end],
    ) {
        Some(header.skip(after_blanks(header, end)))
    } else {
        None
    }
}

/// The place of the first colon in `raw`.
pub open spec fn is_first_colon(raw: Seq<u8>, i: int) -> bool {
    &&& 0 <= i < raw.len()
    &&& raw[i] == COLON
    &&& forall|j: int| 0 <= j < i ==> raw[j] != COLON
}

/// The username and password in a decoded basic payload: the text before
/// the first colon and the text after it, further colons included, where
/// nothing after the colon stands for no password. `None` where there is no
/// colon or either part is not UTF-8.
pub open spec fn pair_in(raw: Seq<u8>) -> Option<(Seq<char>, Option<Seq<char>>)> {
    if exists|i: int| is_first_colon(raw, i) {
        let i = choose|i: int| is_first_colon(raw, i);
        let name = raw.subrange(0, i);
        let secret = raw.subrange(i + 1, raw.len() as int);
        if valid_utf8(name) && valid_utf8(secret) {
            Some(
                (
                    decode_utf8(name),
                    if secret.len() == 0 {
                        None
                    } else {
                        Some(decode_utf8(secret))
                    },
                ),
            )
        } else {
            None
        }
    } else {
        None
    }
}

/// A payload short enough for the base64 decoder's length arithmetic on
/// this machine. Every payload that fits in memory is.
pub open spec fn fits_decoder(payload: Seq<u8>) -> bool {
    payload.len() + 7 <= usize::MAX
}

/// The username and password that a header value carries under the basic
/// scheme, `None` where the value is malformed.
pub open spec fn basic_fields(header: Seq<u8>) -> Option<(Seq<char>, Option<Seq<char>>)> {
    match payload_of(header, basic_scheme()) {
        Some(payload) => if fits_decoder(payload) {
            match base64_bytes(payload) {
                Some(raw) => pair_in(raw),
                None => None,
            }
        } else {
            None
        },
        None => None,
    }
}

/// The token that a header value carries under the bearer scheme, `None`
/// where the value is malformed or the token is empty.
pub open spec fn bearer_token(header: Seq<u8>) -> Option<Seq<char>> {
    match payload_of(header, bearer_scheme()) {
        Some(payload) => if payload.len() > 0 && valid_utf8(payload) {
            Some(decode_utf8(payload))
        } else {
            None
        },
        None => None,
    }
}

/// `after_blanks` stops between its start and the end of the string.
pub proof fn lemma_after_blanks_bounds(s: Seq<u8>, from: int)
    requires
        0 <= from <= s.len(),
    ensures
        from <= after_blanks(s, from) <= s.len(),
    decreases s.len() - from,
{
    if from < s.len() && is_blank(s[from]) {
        lemma_after_blanks_bounds(s, from + 1);
    }
}

/// Only blanks lie between a position and where `after_blanks` stops.
pub proof fn lemma_after_blanks_skips_blanks(s: Seq<u8>, from: int, j: int)
    requires
        0 <= from <= j < after_blanks(s, from),
    ensures
        j < s.len(),
        is_blank(s[j]),
    decreases s.len() - from,
{
    if from < s.len() && is_blank(s[from]) {
        if from < j {
            lemma_after_blanks_skips_blanks(s, from + 1, j);
        }
    }
}

/// In UTF-8, a character starts right after every ASCII byte.
proof fn lemma_boundary_after_ascii(bytes: Seq<u8>, k: int)
    requires
        valid_utf8(bytes),
        0 <= k < bytes.len(),
        bytes[k] <= 0x7f,
    ensures
        is_char_boundary(bytes, k + 1),
    decreases bytes.len(),
{
    is_char_boundary_iff_not_is_continuation_byte(bytes, k);
    if k == 0 {
        reveal_with_fuel(is_char_boundary, 2);
    } else {
        let first = length_of_first_scalar(bytes);
        let rest = pop_first_scalar(bytes);
        assert(is_char_boundary(rest, k - first));
        assert(rest[k - first] == bytes[k]);
        lemma_boundary_after_ascii(rest, k - first);
    }
}

/// The payload of a header value that is text is text too: it starts right
/// after a blank, where no character is cut in two.
pub proof fn lemma_payload_is_text(header: Seq<char>, scheme: Seq<u8>)
    ensures
        payload_of(encode_utf8(header), scheme) matches Some(payload) ==> valid_utf8(payload),
{
    let bytes = encode_utf8(header);
    encode_utf8_valid_utf8(header);
    if payload_of(bytes, scheme) is Some {
        let end = after_blanks(bytes, 0) + scheme.len();
        let start = after_blanks(bytes, end);
        lemma_after_blanks_bounds(bytes, 0);
        lemma_after_blanks_bounds(bytes, end);
        assert(end < start) by {
            reveal_with_fuel(after_blanks, 2);
            lemma_after_blanks_bounds(bytes, end + 1);
        }
        lemma_after_blanks_skips_blanks(bytes, end, start - 1);
        lemma_boundary_after_ascii(bytes, start - 1);
        valid_utf8_split(bytes, start);
        assert(bytes.skip(start) =~= bytes.subrange(start, bytes.len() as int));
    }
}

/// A header value that is text carries a bearer token exactly when it names
/// the bearer scheme and its payload is not empty.
pub proof fn lemma_bearer_token_of_text(header: Seq<char>)
    ensures
        bearer_token(encode_utf8(header)) is Some <==> (payload_of(
            encode_utf8(header),
            bearer_scheme(),
        ) matches Some(payload) && payload.len() > 0),
{
    lemma_payload_is_text(header, bearer_scheme());
}

fn is_blank_byte(b: u8) -> (blank: bool)
    ensures
        blank == is_blank(b),
{
    b == 0x20 || b == 0x09
}

fn lower_byte(b: u8) -> (low: u8)
    ensures
        low == lowered(b),
{
    if 0x41 <= b && b <= 0x5a {
        b + 0x20
    } else {
        b
    }
}

fn skip_blanks(s: &[u8], from: usize) -> (to: usize)
    requires
        from <= s@.len(),
    ensures
        to == after_blanks(s@, from as int),
        from <= to <= s@.len(),
{
    let mut i: usize = from;
    while i < s.len() && is_blank_byte(s[i])
        invariant
            from <= i <= s@.len(),
            after_blanks(s@, from as int) == after_blanks(s@, i as int),
        decreases s@.len() - i,
    {
        i += 1;
    }
    i
}

/// Whether the bytes of `s` from `at` on spell `word`, letter case aside.
fn spells(s: &[u8], at: usize, word: &[u8]) -> (same: bool)
    requires
        at + word@.len() <= s@.len(),
    ensures
        same == (lowered_seq(s@.subrange(at as int, at + word@.len())) == word@),
{
    let ghost part = s@.subrange(at as int, at + word@.len());
    let len = s.len();
    let mut i: usize = 0;
    while i < word.len()
        invariant
            0 <= i <= word@.len(),
            at + word@.len() <= s@.len() == len,
            part == s@.subrange(at as int, at + word@.len()),
            forall|j: int| 0 <= j < i ==> lowered(part[j]) == word@[j],
        decreases word@.len() - i,
    {
        if lower_byte(s[at + i]) != word[i] {
            assert(lowered_seq(part)[i as int] != word@[i as int]);
            return false;
        }
        i += 1;
    }
    assert(lowered_seq(part) =~= word@);
    true
}

/// Where the payload of a header value of the given scheme starts.
fn find_payload(header: &[u8], scheme: &[u8]) -> (start: Option<usize>)
    ensures
        match start {
            Some(k) => k <= header@.len() && payload_of(header@, scheme@) == Some(
                header@.skip(k as int),
            ),
            None => payload_of(header@, scheme@) is None,
        },
{
    let word = skip_blanks(header, 0);
    if scheme.len() >= header.len() - word {
        return None;
    }
    let end = word + scheme.len();
    if !spells(header, word, scheme) || !is_blank_byte(header[end]) {
        return None;
    }
    Some(skip_blanks(header, end))
}

fn find_colon(raw: &[u8]) -> (at: Option<usize>)
    ensures
        match at {
            Some(i) => is_first_colon(raw@, i as int),
            None => forall|j: int| 0 <= j < raw@.len() ==> raw@[j] != COLON,
        },
{
    let mut i: usize = 0;
    while i < raw.len()
        invariant
            0 <= i <= raw@.len(),
            forall|j: int| 0 <= j < i ==> raw@[j] != COLON,
        decreases raw@.len() - i,
    {
        if raw[i] == COLON {
            return Some(i);
        }
        i += 1;
    }
    None
}

/// Splits a decoded basic payload into username and password at its first
/// colon.
pub fn basic_from_decoded(raw: &[u8]) -> (parsed: Result<BasicCredential, ParseError>)
    ensures
        match parsed {
            Ok(credential) => pair_in(raw@) == Some(credential@),
            Err(_) => pair_in(raw@) is None,
        },
{
    let at = match find_colon(raw) {
        Some(at) => at,
        None => {
            return Err(ParseError::Malformed);
        },
    };
    let len = raw.len();
    assert(forall|k: int| is_first_colon(raw@, k) ==> k == at);
    let username = match string_from_utf8(slice_to_vec(slice_subrange(raw, 0, at))) {
        Some(username) => username,
        None => {
            return Err(ParseError::Malformed);
        },
    };
    if at + 1 == len {
        return Ok(BasicCredential { username, password: None });
    }
    match string_from_utf8(slice_to_vec(slice_subrange(raw, at + 1, len))) {
        Some(password) => Ok(BasicCredential { username, password: Some(password) }),
        None => Err(ParseError::Malformed),
    }
}

/// Reads a basic credential from an `Authorization` header value.
pub fn parse_basic(header: &str) -> (parsed: Result<BasicCredential, ParseError>)
    ensures
        match parsed {
            Ok(credential) => basic_fields(encode_utf8(header@)) == Some(credential@),
            Err(_) => basic_fields(encode_utf8(header@)) is None,
        },
{
    let bytes = header.as_bytes();
    let scheme: [u8; 5] = [0x62, 0x61, 0x73, 0x69, 0x63];
    assert(scheme@ =~= basic_scheme());
    let start = match find_payload(bytes, scheme.as_slice()) {
        Some(start) => start,
        None => {
            return Err(ParseError::Malformed);
        },
    };
    let payload = slice_subrange(bytes, start, bytes.len());
    if payload.len() > usize::MAX - 7 {
        return Err(ParseError::Malformed);
    }
    match base64_decode(payload) {
        Ok(raw) => basic_from_decoded(raw.as_slice()),
        Err(_) => Err(ParseError::Malformed),
    }
}

/// Reads a bearer credential from an `Authorization` header value.
pub fn parse_bearer(header: &str) -> (parsed: Result<BearerCredential, ParseError>)
    ensures
        match parsed {
            Ok(credential) => bearer_token(encode_utf8(header@)) == Some(credential.token@),
            Err(_) => bearer_token(encode_utf8(header@)) is None,
        },
        parsed is Ok <==> (payload_of(encode_utf8(header@), bearer_scheme()) matches Some(payload)
            && payload.len() > 0),
{
    proof {
        lemma_bearer_token_of_text(header@);
    }
    let bytes = header.as_bytes();
    let scheme: [u8; 6] = [0x62, 0x65, 0x61, 0x72, 0x65, 0x72];
    assert(scheme@ =~= bearer_scheme());
    let start = match find_payload(bytes, scheme.as_slice()) {
        Some(start) => start,
        None => {
            return Err(ParseError::Malformed);
        },
    };
    let payload = slice_subrange(bytes, start, bytes.len());
    if payload.len() == 0 {
        return Err(ParseError::Malformed);
    }
    match string_from_utf8(slice_to_vec(payload)) {
        Some(token) => Ok(BearerCredential { token }),
        None => Err(ParseError::Malformed),
    }
}

} // verus!
