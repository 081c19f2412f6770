//! Outbound HTTP as the host offers it, and the sanitization that makes a
//! response identical on every replica.

use vstd::prelude::*;
use vstd::string::StringExecFns;

verus! {

/// The status code of a response, an unbounded natural number that is
/// carried through unread.
#[verifier::external_type_specification]
#[verifier::external_body]
pub struct ExNat(candid::Nat);

/// One header of a request or response.
#[derive(Debug, PartialEq, Eq)]
pub struct HttpHeader {
    pub name: String,
    pub value: String,
}

/// A response of the outbound HTTP service.
#[derive(Debug, PartialEq, Eq)]
pub struct HttpResponse {
    pub status: candid::Nat,
    pub headers: Vec<HttpHeader>,
    pub body: Vec<u8>,
}

/// What the host hands to the sanitization hook.
#[derive(Debug, PartialEq, Eq)]
pub struct TransformArgs {
    pub response: HttpResponse,
    pub context: Vec<u8>,
}

/// A character with the letters `A` to `Z` folded to lower case.
pub open spec fn ascii_lower(c: char) -> char {
    if 'A' <= c && c <= 'Z' {
        ((c as u8 + 32) as u8) as char
    } else {
        c
    }
}

/// A name with its ASCII letters folded to lower case.
pub open spec fn lowercase(name: Seq<char>) -> Seq<char> {
    name.map_values(|c: char| ascii_lower(c))
}

/// Whether a header of this name survives sanitization: the name is
/// `content-type` or `content-length`, or begins with `x-`, in any case of
/// letters.
pub open spec fn is_retained_name(name: Seq<char>) -> bool {
    let lower = lowercase(name);
    ||| "x-"@.is_prefix_of(lower)
    ||| lower == "content-type"@
    ||| lower == "content-length"@
}

/// The headers that survive sanitization, in their order.
pub open spec fn retained_headers(headers: Seq<HttpHeader>) -> Seq<HttpHeader> {
    headers.filter(|header: HttpHeader| is_retained_name(header.name@))
}

/// A character with the letters `A` to `Z` folded to lower case.
fn to_ascii_lower(c: char) -> (lower: char)
    ensures
        lower == ascii_lower(c),
{
    if 'A' <= c && c <= 'Z' {
        ((c as u8) + 32) as char
    } else {
        c
    }
}

/// The characters of a name, with its ASCII letters folded to lower case.
fn lower_chars(name: &str) -> (lower: Vec<char>)
    ensures
        lower@ == lowercase(name@),
{
    let mut lower: Vec<char> = Vec::new();
    for c in it: name.chars()
        invariant
            it.seq() == name@,
            lower@ == lowercase(name@.take(it.index() as int)),
    {
        lower.push(to_ascii_lower(c));
        assert(lower@ =~= lowercase(name@.take(it.index() + 1)));
    }
    assert(name@.take(name@.len() as int) =~= name@);
    lower
}

/// The characters of a text.
fn chars_of(text: &str) -> (chars: Vec<char>)
    ensures
        chars@ == text@,
{
    let mut chars: Vec<char> = Vec::new();
    for c in it: text.chars()
        invariant
            it.seq() == text@,
            chars@ == text@.take(it.index() as int),
    {
        chars.push(c);
        assert(chars@ =~= text@.take(it.index() + 1));
    }
    assert(text@.take(text@.len() as int) =~= text@);
    chars
}

/// Whether `chars` begins with `prefix`.
fn starts_with(chars: &Vec<char>, prefix: &Vec<char>) -> (found: bool)
    ensures
        found == prefix@.is_prefix_of(chars@),
{
    if prefix.len() > chars.len() {
        return false;
    }
    let mut i: usize = 0;
    while i < prefix.len()
        invariant
            i <= prefix.len() <= chars.len(),
            prefix@.take(i as int) =~= chars@.take(i as int),
        decreases prefix.len() - i,
    {
        if prefix[i] != chars[i] {
            assert(prefix@[i as int] != chars@.subrange(0, prefix@.len() as int)[i as int]);
            return false;
        }
        assert(prefix@.take(i + 1) =~= prefix@.take(i as int).push(prefix@[i as int]));
        assert(chars@.take(i + 1) =~= chars@.take(i as int).push(chars@[i as int]));
        i += 1;
    }
    assert(prefix@.take(prefix@.len() as int) =~= prefix@);
    true
}

/// Whether a header of this name survives sanitization.
pub fn is_retained(name: &str) -> (retained: bool)
    ensures
        retained == is_retained_name(name@),
{
    let lower = lower_chars(name);
    if starts_with(&lower, &chars_of("x-")) {
        return true;
    }
    let as_type = chars_of("content-type");
    if as_type.len() == lower.len() && starts_with(&lower, &as_type) {
        assert(lower@ =~= as_type@);
        return true;
    }
    let as_length = chars_of("content-length");
    if as_length.len() == lower.len() && starts_with(&lower, &as_length) {
        assert(lower@ =~= as_length@);
        return true;
    }
    false
}

/// Keeps the headers that survive sanitization, in their order.
pub fn sanitize_headers(headers: Vec<HttpHeader>) -> (sanitized: Vec<HttpHeader>)
    ensures
        sanitized@ == retained_headers(headers@),
{
    let ghost all = headers@;
    let mut sanitized: Vec<HttpHeader> = Vec::new();
    assert(retained_headers(all.take(0)) =~= Seq::<HttpHeader>::empty()) by {
        reveal(Seq::filter);
    }
    for header in it: headers
        invariant
            it.seq() == all,
            sanitized@ == retained_headers(all.take(it.index() as int)),
    {
        proof {
            reveal(Seq::filter);
            assert(all.take(it.index() + 1).drop_last() =~= all.take(it.index() as int));
        }
        if is_retained(header.name.as_str()) {
            sanitized.push(header);
        }
    }
    assert(all.take(all.len() as int) =~= all);
    sanitized
}

/// The sanitization hook: status and body pass through unchanged, and of
/// the headers only those stay whose name is retained.
pub fn transform(raw: TransformArgs) -> (sanitized: HttpResponse)
    ensures
        sanitized.status == raw.response.status,
        sanitized.body == raw.response.body,
        sanitized.headers@ == retained_headers(raw.response.headers@),
{
    let response = raw.response;
    HttpResponse {
        status: response.status,
        body: response.body,
        headers: sanitize_headers(response.headers),
    }
}

} // verus!
