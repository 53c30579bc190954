//! Tag normalisation.
//!
//! A tag names a player or a clan: `#` followed by upper-case letters and
//! digits. Callers write it in any case, with or without the `#`, and
//! [`normalize_tag`] brings it into the form that a URL path carries.

use crate::errors::TransportError;
use vstd::prelude::*;
use vstd::std_specs::iter::IteratorSpec;
use vstd::string::*;
use vstd::utf8::*;

verus! {

/// The code points with the Unicode property `White_Space`.
pub open spec fn is_whitespace(c: char) -> bool {
    let n = c as u32;
    ||| 0x09 <= n <= 0x0D
    ||| n == 0x20
    ||| n == 0x85
    ||| n == 0xA0
    ||| n == 0x1680
    ||| 0x2000 <= n <= 0x200A
    ||| n == 0x2028
    ||| n == 0x2029
    ||| n == 0x202F
    ||| n == 0x205F
    ||| n == 0x3000
}

/// `s` without its leading whitespace.
pub open spec fn trimmed_start(s: Seq<char>) -> Seq<char>
    decreases s.len(),
{
    if s.len() > 0 && is_whitespace(s[0]) {
        trimmed_start(s.drop_first())
    } else {
        s
    }
}

/// `s` without its trailing whitespace.
pub open spec fn trimmed_end(s: Seq<char>) -> Seq<char>
    decreases s.len(),
{
    if s.len() > 0 && is_whitespace(s.last()) {
        trimmed_end(s.drop_last())
    } else {
        s
    }
}

/// `s` without the whitespace at either end.
pub open spec fn trimmed(s: Seq<char>) -> Seq<char> {
    trimmed_end(trimmed_start(s))
}

/// `s` without its leading run of `c`.
pub open spec fn without_leading(s: Seq<char>, c: char) -> Seq<char>
    decreases s.len(),
{
    if s.len() > 0 && s[0] == c {
        without_leading(s.drop_first(), c)
    } else {
        s
    }
}

/// An ASCII digit.
pub open spec fn is_ascii_digit(c: char) -> bool {
    '0' <= c <= '9'
}

/// An upper-case ASCII letter.
pub open spec fn is_ascii_uppercase(c: char) -> bool {
    'A' <= c <= 'Z'
}

/// A lower-case ASCII letter.
pub open spec fn is_ascii_lowercase(c: char) -> bool {
    'a' <= c <= 'z'
}

/// An ASCII letter or digit.
pub open spec fn is_ascii_alphanumeric(c: char) -> bool {
    is_ascii_digit(c) || is_ascii_uppercase(c) || is_ascii_lowercase(c)
}

/// An ASCII letter in its upper case; any other character unchanged.
pub open spec fn ascii_uppercase(c: char) -> char {
    if is_ascii_lowercase(c) {
        ((c as u32) - 32) as char
    } else {
        c
    }
}

/// `s` with each ASCII letter in its upper case.
pub open spec fn ascii_uppercased(s: Seq<char>) -> Seq<char> {
    Seq::new(s.len(), |i: int| ascii_uppercase(s[i]))
}

/// The Unicode upper-case form of `s`, as `str::to_uppercase` computes it.
pub uninterp spec fn uppercased(s: Seq<char>) -> Seq<char>;

/// The upper-case form of `s`: letter by letter where `s` holds ASCII
/// characters only, and Unicode's mapping otherwise.
pub open spec fn uppercase_of(s: Seq<char>) -> Seq<char> {
    if is_ascii_chars(s) {
        ascii_uppercased(s)
    } else {
        uppercased(s)
    }
}

/// `str::trim`: the slice between the first and the last character that is
/// not whitespace, where whitespace is the Unicode property `White_Space`.
pub assume_specification[ str::trim ](s: &str) -> (r: &str)
    ensures
        r@ == trimmed(s@),
;

/// `str::to_uppercase`: the upper-case equivalent of the string. No ASCII
/// lower-case letter is left in it, and a string of ASCII characters keeps
/// its length, each letter replaced by its upper-case form.
pub assume_specification[ str::to_uppercase ](s: &str) -> (r: String)
    ensures
        r@ == uppercased(s@),
        forall|i: int| 0 <= i < r@.len() ==> !is_ascii_lowercase(#[trigger] r@[i]),
        is_ascii_chars(s@) ==> r@ == ascii_uppercased(s@),
;

/// `str::trim_start_matches` with a `char` as the pattern: every leading
/// occurrence of the character is removed.
#[verifier::external_body]
fn trim_start_matches(s: &str, c: char) -> (r: &str)
    ensures
        r@ == without_leading(s@, c),
{
    s.trim_start_matches(c)
}

/// The bytes that percent-encoding leaves as they are: ASCII letters,
/// digits, `-`, `.`, `_` and `~`.
pub open spec fn is_unreserved(b: u8) -> bool {
    ||| 0x30 <= b <= 0x39
    ||| 0x41 <= b <= 0x5A
    ||| 0x61 <= b <= 0x7A
    ||| b == 0x2D
    ||| b == 0x2E
    ||| b == 0x5F
    ||| b == 0x7E
}

/// The upper-case hexadecimal digit for a value below 16.
pub open spec fn hex_digit(n: int) -> char {
    if n < 10 {
        (0x30 + n) as char
    } else {
        (0x41 + n - 10) as char
    }
}

/// One byte, percent-encoded.
pub open spec fn encoded_byte(b: u8) -> Seq<char> {
    if is_unreserved(b) {
        seq![b as char]
    } else {
        seq!['%', hex_digit(b as int / 16), hex_digit(b as int % 16)]
    }
}

/// A byte string, percent-encoded byte by byte.
pub open spec fn percent_encoded(bytes: Seq<u8>) -> Seq<char>
    decreases bytes.len(),
{
    if bytes.len() == 0 {
        Seq::empty()
    } else {
        percent_encoded(bytes.drop_last()) + encoded_byte(bytes.last())
    }
}

/// `urlencoding::encode`: each byte of the string's UTF-8 form that is not
/// unreserved becomes `%` and two upper-case hexadecimal digits.
#[verifier::external_body]
fn percent_encode(s: &str) -> (r: String)
    ensures
        r@ == percent_encoded(s.spec_bytes()),
{
    urlencoding::encode(s).into_owned()
}

/// What is left of a raw identifier once whitespace at both ends and leading
/// `#` are gone and the rest is in upper case.
pub open spec fn tag_body(raw: Seq<char>) -> Seq<char> {
    uppercase_of(without_leading(trimmed(raw), '#'))
}

/// A tag body that the API can know: not empty, ASCII letters and digits only.
pub open spec fn valid_tag_body(body: Seq<char>) -> bool {
    &&& body.len() > 0
    &&& forall|i: int| 0 <= i < body.len() ==> is_ascii_alphanumeric(#[trigger] body[i])
}

/// The path segment for a valid tag body: the encoded `#`, then the body.
pub open spec fn encoded_tag(body: Seq<char>) -> Seq<char> {
    seq!['%', '2', '3'] + body
}

/// The text of the error for a tag body that is not valid.
pub open spec fn invalid_tag_message(body: Seq<char>, raw: Seq<char>) -> Seq<char> {
    if body.len() == 0 {
        "Tag cannot be empty"@
    } else {
        "Invalid tag format: "@ + raw
    }
}

/// Whether `c` is an ASCII letter or digit.
fn is_alphanumeric(c: char) -> (b: bool)
    ensures
        b == is_ascii_alphanumeric(c),
{
    (c >= '0' && c <= '9') || (c >= 'A' && c <= 'Z') || (c >= 'a' && c <= 'z')
}

/// Whether every character of `s` is an ASCII letter or digit.
fn all_alphanumeric(s: &str) -> (b: bool)
    ensures
        b == forall|i: int| 0 <= i < s@.len() ==> is_ascii_alphanumeric(#[trigger] s@[i]),
{
    let mut ok: bool = true;
    for c in it: s.chars()
        invariant
            it.seq() == s@,
            ok == forall|j: int| 0 <= j < it.index() ==> is_ascii_alphanumeric(#[trigger] s@[j]),
    {
        ok = ok && is_alphanumeric(c);
    }
    ok
}

/// The bytes of a string of ASCII characters.
pub open spec fn ascii_bytes(s: Seq<char>) -> Seq<u8> {
    Seq::new(s.len(), |i: int| s[i] as u8)
}

/// Percent-encoding turns `#` and a run of ASCII letters and digits into the
/// encoded `#` and the same run.
proof fn lemma_encoded_tag(body: Seq<char>)
    requires
        forall|i: int| 0 <= i < body.len() ==> is_ascii_alphanumeric(#[trigger] body[i]),
    ensures
        percent_encoded(ascii_bytes(seq!['#'] + body)) == encoded_tag(body),
    decreases body.len(),
{
    let bytes = ascii_bytes(seq!['#'] + body);
    if body.len() == 0 {
        assert(percent_encoded(bytes.drop_last()) =~= Seq::<char>::empty());
    } else {
        let shorter = body.drop_last();
        lemma_encoded_tag(shorter);
        assert(bytes.drop_last() =~= ascii_bytes(seq!['#'] + shorter));
    }
}

/// Validates a tag body and encodes it for a URL path.
///
/// `body` is the identifier without whitespace and `#`, in upper case; `tag`
/// is the identifier as the caller wrote it, quoted in the error. A body that
/// is empty or holds anything but ASCII letters and digits is refused;
/// otherwise the result is the percent-encoded `#` followed by the body.
pub fn encode_tag(body: &str, tag: &str) -> (result: Result<String, TransportError>)
    ensures
        match result {
            Ok(path) => valid_tag_body(body@) && path@ == encoded_tag(body@),
            Err(TransportError::InvalidTag(message)) => !valid_tag_body(body@) && message@
                == invalid_tag_message(body@, tag@),
            Err(_) => false,
        },
{
    if body.is_empty() {
        return Err(TransportError::InvalidTag("Tag cannot be empty".to_owned()));
    }
    if !all_alphanumeric(body) {
        return Err(
            TransportError::InvalidTag("Invalid tag format: ".to_owned().concat(tag)),
        );
    }
    let cleaned = "#".to_owned().concat(body);
    let cleaned = cleaned.as_str();
    proof {
        reveal_strlit("#");
        is_ascii_spec_bytes(cleaned);
        assert(cleaned.spec_bytes() =~= ascii_bytes(seq!['#'] + body@));
        lemma_encoded_tag(body@);
    }
    Ok(percent_encode(cleaned))
}

/// A path segment in canonical form: the encoded `#`, then at least one
/// character, each an upper-case ASCII letter or a digit.
pub open spec fn is_normalized_tag(path: Seq<char>) -> bool {
    &&& path.len() > 3
    &&& path[0] == '%'
    &&& path[1] == '2'
    &&& path[2] == '3'
    &&& forall|i: int|
        3 <= i < path.len() ==> is_ascii_uppercase(#[trigger] path[i]) || is_ascii_digit(path[i])
}

/// A tag body in canonical form: not empty, upper-case ASCII letters and
/// digits only.
pub open spec fn is_canonical_body(body: Seq<char>) -> bool {
    &&& body.len() > 0
    &&& forall|i: int|
        0 <= i < body.len() ==> is_ascii_uppercase(#[trigger] body[i]) || is_ascii_digit(body[i])
}

/// A run of ASCII letters and digits, with or without one `#` before it,
/// has nothing to trim or strip but that `#`.
proof fn lemma_alphanumeric_body(body: Seq<char>)
    requires
        valid_tag_body(body),
    ensures
        without_leading(trimmed(body), '#') == body,
        without_leading(trimmed(seq!['#'] + body), '#') == body,
{
    let written = seq!['#'] + body;
    assert(written.drop_first() =~= body);
}

/// Normalizing is idempotent: a body in canonical form is its own tag body,
/// written with its `#` or without, and it is valid.
pub proof fn lemma_canonical_tag_is_fixed(body: Seq<char>)
    requires
        is_canonical_body(body),
    ensures
        valid_tag_body(body),
        tag_body(body) == body,
        tag_body(seq!['#'] + body) == body,
        is_normalized_tag(encoded_tag(body)),
{
    lemma_alphanumeric_body(body);
}

/// Case and prefix do not matter: a run of ASCII letters and digits has the
/// tag body of its upper-case form written with a `#`, and that body is in
/// canonical form.
pub proof fn lemma_case_and_prefix_are_ignored(body: Seq<char>)
    requires
        valid_tag_body(body),
    ensures
        tag_body(body) == ascii_uppercased(body),
        tag_body(seq!['#'] + ascii_uppercased(body)) == tag_body(body),
        is_canonical_body(tag_body(body)),
{
    lemma_alphanumeric_body(body);
    lemma_canonical_tag_is_fixed(ascii_uppercased(body));
}

/// Brings a raw identifier into the form that a URL path carries.
///
/// Whitespace at both ends and every leading `#` are removed and the rest is
/// put in upper case. If that leaves nothing, or anything but ASCII letters
/// and digits, the identifier is refused with `InvalidTag`. Otherwise the
/// result is the percent-encoded `#` followed by the upper-case body, so it
/// is always in canonical form.
pub fn normalize_tag(tag: &str) -> (result: Result<String, TransportError>)
    ensures
        match result {
            Ok(path) => valid_tag_body(tag_body(tag@)) && path@ == encoded_tag(tag_body(tag@)),
            Err(TransportError::InvalidTag(message)) => !valid_tag_body(tag_body(tag@))
                && message@ == invalid_tag_message(tag_body(tag@), tag@),
            Err(_) => false,
        },
        result matches Ok(path) ==> is_normalized_tag(path@),
{
    let stripped = trim_start_matches(tag.trim(), '#');
    let body = stripped.to_uppercase();
    encode_tag(body.as_str(), tag)
}

} // verus!
