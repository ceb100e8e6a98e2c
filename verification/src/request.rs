//! The protocol reader and writer: request line, headers, cookies and
//! bodies parsed from raw bytes, and the response header written out.

use crate::buffer::Buffer;
use crate::fields::{bytes_eq, pairs_view, str_eq, Fields};
pub use crate::handler::process;
use crate::share::{Error, Trans};
use core::str::Utf8Error;
use serde_urlencoded::de::Error as DecodeError;
use vstd::prelude::*;
use vstd::slice::slice_to_vec;
use vstd::string::{is_ascii_spec_bytes, StringExecFns, StringSliceAdditionalSpecFns};
use vstd::utf8::{decode_utf8, encode_utf8, valid_utf8};

verus! {

/// The byte of a space.
pub const SPACE: u8 = 32;

/// The byte of a line feed, which ends every line.
pub const LF: u8 = 10;

/// The byte of a carriage return.
pub const CR: u8 = 13;

/// The byte of a colon.
pub const COLON: u8 = 58;

/// The byte of a semicolon.
pub const SEMICOLON: u8 = 59;

/// The byte of an equals sign.
pub const EQUALS: u8 = 61;

/// The byte of a question mark.
pub const QUESTION: u8 = 63;

/// Not enough input.
pub fn eof() -> (result: Error)
    ensures
        result.code == 0,
{
    Error { code: 0 }
}

/// Too many requests.
pub fn tmr() -> (result: Error)
    ensures
        result.code == 429,
{
    Error { code: 429 }
}

/// Some other error.
pub fn bad() -> (result: Error)
    ensures
        result.code == 400,
{
    Error { code: 400 }
}

/// An upper case letter as its lower case letter, any other byte as it is.
pub open spec fn spec_lower(b: u8) -> u8 {
    if 65 <= b <= 90 {
        (b + 32) as u8
    } else {
        b
    }
}

/// Map upper case char to lower case.
pub fn lower(b: u8) -> (result: u8)
    ensures
        result == spec_lower(b),
{
    if b >= 65 && b <= 90 {
        b + 32
    } else {
        b
    }
}

/// The bytes of a text that holds ASCII characters only.
pub open spec fn ascii(s: Seq<char>) -> Seq<u8> {
    Seq::new(s.len(), |i: int| s[i] as u8)
}

/// The text that `s` holds, if it is UTF-8.
pub open spec fn text_of(s: Seq<u8>) -> Option<Seq<char>> {
    if valid_utf8(s) {
        Some(decode_utf8(s))
    } else {
        None
    }
}

/// The first position at or after `from` at which `s` holds `b`, or the
/// length of `s` where it holds none.
pub open spec fn find_byte(s: Seq<u8>, from: int, b: u8) -> int
    decreases s.len() - from,
{
    if from < 0 || from >= s.len() {
        s.len() as int
    } else if s[from] == b {
        from
    } else {
        find_byte(s, from + 1, b)
    }
}

/// The first position at or after `from` at which `s` holds no space, or
/// the length of `s` where only spaces follow.
pub open spec fn skip_spaces(s: Seq<u8>, from: int) -> int
    decreases s.len() - from,
{
    if from < 0 || from >= s.len() {
        s.len() as int
    } else if s[from] != SPACE {
        from
    } else {
        skip_spaces(s, from + 1)
    }
}

/// Where a search from inside `s` ends: not before its start, not past the
/// end, at a byte `b` unless at the end, and with no `b` on the way.
pub proof fn lemma_find_byte(s: Seq<u8>, from: int, b: u8)
    requires
        0 <= from <= s.len(),
    ensures
        from <= find_byte(s, from, b) <= s.len(),
        find_byte(s, from, b) < s.len() ==> s[find_byte(s, from, b)] == b,
        forall|k: int| from <= k < find_byte(s, from, b) ==> s[k] != b,
    decreases s.len() - from,
{
    if from < s.len() && s[from] != b {
        lemma_find_byte(s, from + 1, b);
    }
}

/// Where skipping spaces from inside `s` ends: not before its start, not
/// past the end, at a byte that is no space unless at the end, and with
/// only spaces on the way.
pub proof fn lemma_skip_spaces(s: Seq<u8>, from: int)
    requires
        0 <= from <= s.len(),
    ensures
        from <= skip_spaces(s, from) <= s.len(),
        skip_spaces(s, from) < s.len() ==> s[skip_spaces(s, from)] != SPACE,
        forall|k: int| from <= k < skip_spaces(s, from) ==> s[k] == SPACE,
    decreases s.len() - from,
{
    if from < s.len() && s[from] == SPACE {
        lemma_skip_spaces(s, from + 1);
    }
}

/// A search in two pieces put together: it ends in the first piece where
/// that holds the byte, and else as far into the second as the search in
/// the second alone.
pub proof fn lemma_find_byte_pieces(a: Seq<u8>, b: Seq<u8>, from: int, d: u8)
    requires
        0 <= from <= a.len(),
    ensures
        find_byte(a, from, d) < a.len() ==> find_byte(a + b, from, d) == find_byte(a, from, d),
        find_byte(a, from, d) >= a.len() ==> find_byte(a + b, from, d) == a.len() + find_byte(
            b,
            0,
            d,
        ),
    decreases a.len() - from,
{
    if from < a.len() {
        assert((a + b)[from] == a[from]);
        if a[from] != d {
            lemma_find_byte_pieces(a, b, from + 1, d);
        }
    } else {
        lemma_find_byte_shift(a, b, 0, d);
    }
}

/// A search in the second of two pieces put together ends where the
/// search in the second piece alone ends, counted from the start of the
/// first.
pub proof fn lemma_find_byte_shift(a: Seq<u8>, b: Seq<u8>, from: int, d: u8)
    requires
        0 <= from <= b.len(),
    ensures
        find_byte(a + b, a.len() + from, d) == a.len() + find_byte(b, from, d),
    decreases b.len() - from,
{
    if from < b.len() {
        assert((a + b)[a.len() + from] == b[from]);
        if b[from] != d {
            lemma_find_byte_shift(a, b, from + 1, d);
        }
    }
}

/// The line is the header `name`: the name in any case, then a colon.
pub open spec fn is_header(line: Seq<u8>, name: Seq<u8>) -> bool {
    &&& line.len() > name.len()
    &&& line[name.len() as int] == COLON
    &&& forall|i: int| 0 <= i < name.len() ==> spec_lower(line[i]) == name[i]
}

/// The value of the header `name` on this line: what follows the colon
/// and the spaces after it; nothing where the line is another header.
pub open spec fn header_value(line: Seq<u8>, name: Seq<u8>) -> Option<Seq<u8>> {
    if is_header(line, name) {
        Some(line.subrange(skip_spaces(line, name.len() as int + 1), line.len() as int))
    } else {
        None
    }
}

/// Check whether current line is named header.
pub fn line_is<'a>(line: &'a [u8], name: &[u8]) -> (result: Option<&'a [u8]>)
    ensures
        match result {
            Some(value) => header_value(line@, name@) == Some(value@),
            None => header_value(line@, name@) is None,
        },
{
    let n = name.len();
    if line.len() <= n {
        return None;
    }
    if line[n] != COLON {
        return None;
    }
    let mut i: usize = 0;
    while i < n
        invariant
            i <= n,
            n == name.len(),
            n < line.len(),
            forall|j: int| 0 <= j < i ==> spec_lower(line@[j]) == name@[j],
        decreases n - i,
    {
        if lower(line[i]) != name[i] {
            return None;
        }
        i += 1;
    }
    let mut skip = n + 1;
    let n = line.len();
    while skip < n && line[skip] == SPACE
        invariant
            name.len() + 1 <= skip <= n,
            n == line.len(),
            skip_spaces(line@, name.len() as int + 1) == skip_spaces(line@, skip as int),
        decreases n - skip,
    {
        skip += 1;
    }
    Some(&line[skip..n])
}

/// `core::str::from_utf8`: the bytes as a string slice where they are
/// UTF-8, an error where they are not. The slice holds the characters that
/// the bytes encode.
#[verifier::external_body]
fn utf8_str(s: &[u8]) -> (result: Result<&str, Utf8Error>)
    ensures
        result is Ok == valid_utf8(s@),
        result is Ok ==> result->Ok_0@ == decode_utf8(s@),
{
    core::str::from_utf8(s)
}

/// Convert byte slice into string.
pub fn tos(s: &[u8]) -> (result: Result<String, Error>)
    ensures
        match result {
            Ok(text) => text_of(s@) == Some(text@),
            Err(e) => text_of(s@) is None && e.code == 400,
        },
{
    match utf8_str(s) {
        Ok(text) => Ok(text.to_owned()),
        Err(e) => Err(Error::from(e)),
    }
}

/// Check content-type is multipart.
pub fn is_multipart(s: &[u8]) -> (result: bool)
    ensures
        result == ascii("multipart/form-data"@).is_prefix_of(s@),
{
    let temp = "multipart/form-data".as_bytes();
    proof {
        reveal_strlit("multipart/form-data");
        is_ascii_spec_bytes("multipart/form-data");
        assert(temp@ =~= ascii("multipart/form-data"@));
    }
    let n = temp.len();
    if s.len() < n {
        return false;
    }
    bytes_eq(temp, &s[0..n])
}

/// The cookies of a cookie header, from position `from` on, in the order
/// in which they stand: a name runs from the first byte that is no space
/// to the next equals sign, its value from there to the next semicolon.
/// Nothing where a name or a value is not UTF-8.
pub open spec fn cookie_pairs(s: Seq<u8>, from: int) -> Option<Seq<(Seq<char>, Seq<char>)>>
    decreases s.len() - from,
    via cookie_pairs_decreases
{
    if from < 0 || from >= s.len() {
        Some(Seq::empty())
    } else {
        let start = skip_spaces(s, from);
        let eq = find_byte(s, start, EQUALS);
        let vstart = if eq < s.len() {
            eq + 1
        } else {
            eq
        };
        let vend = find_byte(s, vstart, SEMICOLON);
        let next = if vend < s.len() {
            vend + 1
        } else {
            vend
        };
        match (
            text_of(s.subrange(start, eq)),
            text_of(s.subrange(vstart, vend)),
            cookie_pairs(s, next),
        ) {
            (Some(name), Some(value), Some(rest)) => Some(seq![(name, value)] + rest),
            _ => None,
        }
    }
}

#[via_fn]
proof fn cookie_pairs_decreases(s: Seq<u8>, from: int) {
    if 0 <= from < s.len() {
        let start = skip_spaces(s, from);
        lemma_skip_spaces(s, from);
        let eq = find_byte(s, start, EQUALS);
        lemma_find_byte(s, start, EQUALS);
        let vstart = if eq < s.len() {
            eq + 1
        } else {
            eq
        };
        lemma_find_byte(s, vstart, SEMICOLON);
    }
}

/// Parse cookie header to a map of cookies.
pub fn cookie_map(s: &[u8]) -> (result: Result<Fields, Error>)
    ensures
        match result {
            Ok(map) => cookie_pairs(s@, 0) == Some(map.entries()),
            Err(e) => cookie_pairs(s@, 0) is None && e.code == 400,
        },
{
    let mut map = Fields::new();
    let n = s.len();
    let mut i: usize = 0;
    while i < n
        invariant
            i <= n,
            n == s.len(),
            cookie_pairs(s@, 0) == match cookie_pairs(s@, i as int) {
                Some(rest) => Some(map.entries() + rest),
                None => None,
            },
        decreases n - i,
    {
        let ghost from = i as int;
        let ghost done = map.entries();
        proof {
            lemma_skip_spaces(s@, from);
        }
        while i < n && s[i] == SPACE
            invariant
                from <= i <= n,
                n == s.len(),
                skip_spaces(s@, from) == skip_spaces(s@, i as int),
            decreases n - i,
        {
            i += 1;
        }
        let start = i;
        proof {
            lemma_find_byte(s@, start as int, EQUALS);
        }
        while i < n && s[i] != EQUALS
            invariant
                start <= i <= n,
                n == s.len(),
                find_byte(s@, start as int, EQUALS) == find_byte(s@, i as int, EQUALS),
            decreases n - i,
        {
            i += 1;
        }
        let name = match tos(&s[start..i]) {
            Ok(name) => name,
            Err(e) => {
                return Err(e);
            },
        };
        if i < n {
            i += 1;
        }
        let vstart = i;
        proof {
            lemma_find_byte(s@, vstart as int, SEMICOLON);
        }
        while i < n && s[i] != SEMICOLON
            invariant
                vstart <= i <= n,
                n == s.len(),
                find_byte(s@, vstart as int, SEMICOLON) == find_byte(s@, i as int, SEMICOLON),
            decreases n - i,
        {
            i += 1;
        }
        let value = match tos(&s[vstart..i]) {
            Ok(value) => value,
            Err(e) => {
                return Err(e);
            },
        };
        let ghost pair = (name@, value@);
        if i < n {
            i += 1;
        }
        map.insert(name, value);
        proof {
            let rest = cookie_pairs(s@, i as int);
            if rest is Some {
                assert(done.push(pair) + rest->Some_0 =~= done + (seq![pair] + rest->Some_0));
            }
        }
    }
    proof {
        assert(map.entries() + Seq::empty() =~= map.entries());
    }
    Ok(map)
}

/// The decimal digits of `n`, as bytes.
pub open spec fn decimal(n: nat) -> Seq<u8>
    decreases n,
{
    if n < 10 {
        seq![(48 + n) as u8]
    } else {
        decimal(n / 10).push((48 + n % 10) as u8)
    }
}

/// Appends the decimal digits of `n` to `to`.
pub fn push_decimal(to: &mut Vec<u8>, n: u64)
    ensures
        final(to)@ == old(to)@ + decimal(n as nat),
    decreases n,
{
    if n >= 10 {
        push_decimal(to, n / 10);
    }
    to.push(48 + (n % 10) as u8);
    proof {
        if n >= 10 {
            assert(old(to)@ + decimal(n as nat / 10).push((48 + n as nat % 10) as u8) =~= (old(
                to,
            )@ + decimal(n as nat / 10)).push((48 + n as nat % 10) as u8));
        } else {
            assert(old(to)@ + seq![(48 + n as nat) as u8] =~= old(to)@.push((48 + n as nat) as u8));
        }
    }
}

/// Appends the bytes of an ASCII text to `to`.
pub fn push_ascii(to: &mut Vec<u8>, text: &str)
    requires
        vstd::string::is_ascii(text),
    ensures
        final(to)@ == old(to)@ + ascii(text@),
{
    proof {
        is_ascii_spec_bytes(text);
        assert(text.spec_bytes() =~= ascii(text@));
    }
    to.extend_from_slice(text.as_bytes());
}

/// The header lines that the response headers make: for each, in order,
/// the name, a colon, the value and the end of the line.
pub open spec fn header_lines(headers: Seq<(String, String)>) -> Seq<u8>
    decreases headers.len(),
{
    if headers.len() == 0 {
        Seq::empty()
    } else {
        header_lines(headers.drop_last()) + encode_utf8(headers.last().0@) + seq![COLON]
            + encode_utf8(headers.last().1@) + seq![CR, LF]
    }
}

/// The head of a response on the wire: the status line, the response
/// headers, the length of the body, and an empty line.
pub open spec fn spec_header(status_code: u16, headers: Seq<(String, String)>, length: nat) -> Seq<
    u8,
> {
    ascii("HTTP/1.1 "@) + decimal(status_code as nat) + seq![CR, LF] + header_lines(headers)
        + ascii("Content-Length: "@) + decimal(length) + seq![CR, LF, CR, LF]
}

/// Get response header.
pub fn header(st: &Trans) -> (result: Vec<u8>)
    ensures
        result@ == spec_header(st.rp.status_code, st.rp.headers@, st.rp.output@.len()),
{
    let mut h: Vec<u8> = Vec::with_capacity(4096);
    proof {
        reveal_strlit("HTTP/1.1 ");
        reveal_strlit("Content-Length: ");
    }
    push_ascii(&mut h, "HTTP/1.1 ");
    push_decimal(&mut h, st.rp.status_code as u64);
    h.push(CR);
    h.push(LF);
    let ghost start = h@;
    assert(start =~= ascii("HTTP/1.1 "@) + decimal(st.rp.status_code as nat) + seq![CR, LF]);
    let mut i: usize = 0;
    while i < st.rp.headers.len()
        invariant
            i <= st.rp.headers.len(),
            h@ == start + header_lines(st.rp.headers@.subrange(0, i as int)),
        decreases st.rp.headers.len() - i,
    {
        let ghost before = h@;
        let ghost done = st.rp.headers@.subrange(0, i as int);
        let name = st.rp.headers[i].0.as_str();
        let value = st.rp.headers[i].1.as_str();
        h.extend_from_slice(name.as_bytes());
        h.push(COLON);
        h.extend_from_slice(value.as_bytes());
        h.push(CR);
        h.push(LF);
        i += 1;
        proof {
            let now = st.rp.headers@.subrange(0, i as int);
            assert(now.drop_last() =~= done);
            assert(now.last() == st.rp.headers@[i - 1]);
            assert(h@ =~= before + encode_utf8(name@) + seq![COLON] + encode_utf8(value@) + seq![
                CR,
                LF,
            ]);
            assert(h@ =~= start + header_lines(now));
        }
    }
    assert(st.rp.headers@.subrange(0, i as int) =~= st.rp.headers@);
    let clen = st.rp.output.len();
    push_ascii(&mut h, "Content-Length: ");
    push_decimal(&mut h, clen as u64);
    h.push(CR);
    h.push(LF);
    h.push(CR);
    h.push(LF);
    assert(h@ =~= spec_header(st.rp.status_code, st.rp.headers@, st.rp.output@.len()));
    h
}

/// The pairs of names and values that `serde_urlencoded` reads from a
/// body or a query string, in the order in which they stand; nothing
/// where it reports an error.
pub uninterp spec fn urlencoded_pairs(input: Seq<u8>) -> Option<Seq<(Seq<char>, Seq<char>)>>;

/// `serde_urlencoded::from_bytes`, reading a list of pairs of strings: the
/// names and values of the input in their order, or the decoder's error.
#[verifier::external_body]
fn urlencoded(input: &[u8]) -> (result: Result<Vec<(String, String)>, DecodeError>)
    ensures
        match result {
            Ok(pairs) => urlencoded_pairs(input@) == Some(pairs_view(pairs@)),
            Err(_) => urlencoded_pairs(input@) is None,
        },
{
    serde_urlencoded::from_bytes::<Vec<(String, String)>>(input)
}

/// The fields that decoded pairs make, or the error of a body that could
/// not be decoded.
pub fn decoded_fields(decoded: Result<Vec<(String, String)>, DecodeError>) -> (result: Result<
    Fields,
    Error,
>)
    ensures
        match (decoded, result) {
            (Ok(pairs), Ok(fields)) => fields.entries() == pairs_view(pairs@),
            (Err(_), Err(e)) => e.code == 400,
            _ => false,
        },
{
    match decoded {
        Ok(pairs) => Ok(Fields::from_pairs(pairs)),
        Err(e) => Err(Error::from(e)),
    }
}

/// Decodes a url-encoded body or query string into its fields.
pub fn form_fields(input: &[u8]) -> (result: Result<Fields, Error>)
    ensures
        match result {
            Ok(fields) => urlencoded_pairs(input@) == Some(fields.entries()),
            Err(e) => urlencoded_pairs(input@) is None && e.code == 400,
        },
{
    decoded_fields(urlencoded(input))
}

/// The subtype of a media type as `mime` reads it, in lower case; nothing
/// where `mime` cannot parse the text.
pub uninterp spec fn mime_subtype(s: Seq<char>) -> Option<Seq<char>>;

/// The value of a parameter of a media type as `mime` reads it; nothing
/// where `mime` cannot parse the text or the media type has no such
/// parameter.
pub uninterp spec fn mime_param(s: Seq<char>, attr: Seq<char>) -> Option<Seq<char>>;

/// `str::parse::<mime::Mime>` and `Mime::subtype`: the subtype of the
/// media type that `s` names.
#[verifier::external_body]
fn parsed_subtype(s: &str) -> (result: Option<String>)
    ensures
        match result {
            Some(subtype) => mime_subtype(s@) == Some(subtype@),
            None => mime_subtype(s@) is None,
        },
{
    s.parse::<mime::Mime>().ok().map(|m| m.subtype().as_str().to_string())
}

/// `str::parse::<mime::Mime>` and `Mime::get_param`: the value of the
/// parameter `attr` of the media type that `s` names.
#[verifier::external_body]
fn parsed_param(s: &str, attr: &str) -> (result: Option<String>)
    ensures
        match result {
            Some(value) => mime_param(s@, attr@) == Some(value@),
            None => mime_param(s@, attr@) is None,
        },
{
    s.parse::<mime::Mime>().ok().and_then(|m| m.get_param(attr).map(|v| v.as_str().to_string()))
}

/// The text of an optional text, empty where there is none.
pub open spec fn or_empty(text: Option<Seq<char>>) -> Seq<char> {
    match text {
        Some(t) => t,
        None => Seq::empty(),
    }
}

/// Name and file name of a part, from what its disposition header holds:
/// both are owed where the disposition is `form-data`, each empty where
/// the header does not give it.
pub open spec fn disposition(
    subtype: Option<Seq<char>>,
    name: Option<Seq<char>>,
    file_name: Option<Seq<char>>,
) -> Option<(Seq<char>, Seq<char>)> {
    if subtype == Some("form-data"@) {
        Some((or_empty(name), or_empty(file_name)))
    } else {
        None
    }
}

/// What `split_cd` reads from the value of a disposition header: the
/// value, as text, is read as a media type of type `multipart`.
pub open spec fn spec_split_cd(s: Seq<u8>) -> Option<(Seq<char>, Seq<char>)> {
    match text_of(s) {
        Some(text) => {
            let media = "multipart/"@ + text;
            disposition(
                mime_subtype(media),
                mime_param(media, "name"@),
                mime_param(media, "filename"@),
            )
        },
        None => None,
    }
}

/// The text of an optional string.
pub open spec fn text_view(text: Option<String>) -> Option<Seq<char>> {
    match text {
        Some(t) => Some(t@),
        None => None,
    }
}

/// The text of an optional string, empty where there is none.
fn text_or_empty(text: Option<String>) -> (result: String)
    ensures
        result@ == or_empty(text_view(text)),
{
    match text {
        Some(t) => t,
        None => String::new(),
    }
}

/// Name and file name of a part, from the subtype and the two parameters
/// of its disposition header.
pub fn disposition_fields(
    subtype: Option<String>,
    name: Option<String>,
    file_name: Option<String>,
) -> (result: Option<(String, String)>)
    ensures
        match result {
            Some(pair) => disposition(text_view(subtype), text_view(name), text_view(file_name))
                == Some((pair.0@, pair.1@)),
            None => disposition(text_view(subtype), text_view(name), text_view(file_name))
                is None,
        },
{
    match subtype {
        Some(t) => {
            if str_eq(t.as_str(), "form-data") {
                Some((text_or_empty(name), text_or_empty(file_name)))
            } else {
                None
            }
        },
        None => None,
    }
}

/// Extract name and file_name from content-disposition header.
pub fn split_cd(s: &[u8]) -> (result: Option<(String, String)>)
    ensures
        match result {
            Some(pair) => spec_split_cd(s@) == Some((pair.0@, pair.1@)),
            None => spec_split_cd(s@) is None,
        },
{
    match tos(s) {
        Ok(text) => {
            let media = "multipart/".to_owned().concat(text.as_str());
            let subtype = parsed_subtype(media.as_str());
            let form_data = match &subtype {
                Some(t) => str_eq(t.as_str(), "form-data"),
                None => false,
            };
            if form_data {
                let name = parsed_param(media.as_str(), "name");
                let file_name = parsed_param(media.as_str(), "filename");
                disposition_fields(subtype, name, file_name)
            } else {
                None
            }
        },
        Err(_) => None,
    }
}

/// Header parsing.
#[derive(Debug)]
pub struct Headers {
    /// The request method.
    pub method: Vec<u8>,
    /// The path of the request target.
    pub path: String,
    /// The parameters of the query string.
    pub args: Fields,
    /// The host header.
    pub host: String,
    /// The cookies.
    pub cookies: Fields,
    /// The content type of the body, empty where there is no body.
    pub content_type: Vec<u8>,
    /// The content length, as the header gave it.
    pub content_length: String,
}

/// Path and query string of a request target: the path is what stands
/// before the first question mark, the query string what follows it.
/// Nothing where the path is not UTF-8 or the query string cannot be
/// decoded.
pub open spec fn spec_split_pq(pq: Seq<u8>) -> Option<(Seq<char>, Seq<(Seq<char>, Seq<char>)>)> {
    let q = find_byte(pq, 0, QUESTION);
    let from = if q < pq.len() {
        q + 1
    } else {
        q
    };
    match (text_of(pq.subrange(0, q)), urlencoded_pairs(pq.subrange(from, pq.len() as int))) {
        (Some(path), Some(args)) => Some((path, args)),
        _ => None,
    }
}

impl Headers {
    /// Headers with nothing set, as plain values.
    pub open spec fn new_view() -> HeadersView {
        HeadersView {
            method: Seq::empty(),
            path: Seq::empty(),
            args: Seq::empty(),
            host: Seq::empty(),
            cookies: Seq::empty(),
            content_type: Seq::empty(),
            content_length: Seq::empty(),
        }
    }

    /// Headers with nothing set.
    pub fn new() -> (result: Headers)
        ensures
            result@ == Headers::new_view(),
    {
        let result = Headers {
            method: Vec::new(),
            path: String::new(),
            args: Fields::new(),
            host: String::new(),
            cookies: Fields::new(),
            content_type: Vec::new(),
            content_length: String::new(),
        };
        assert(result@.method =~= Seq::empty());
        assert(result@.args =~= Seq::empty());
        assert(result@.cookies =~= Seq::empty());
        assert(result@.content_type =~= Seq::empty());
        result
    }

    /// Split the path and args by finding '?'.
    pub fn split_pq(&mut self, pq: &[u8]) -> (result: Result<(), Error>)
        ensures
            match result {
                Ok(_) => spec_split_pq(pq@) == Some((final(self).path@, final(self).args.entries())),
                Err(e) => spec_split_pq(pq@) is None && e.code == 400 && final(self).path == old(
                    self,
                ).path && final(self).args == old(self).args,
            },
            final(self).method == old(self).method,
            final(self).host == old(self).host,
            final(self).cookies == old(self).cookies,
            final(self).content_type == old(self).content_type,
            final(self).content_length == old(self).content_length,
    {
        let n = pq.len();
        let mut q: usize = 0;
        proof {
            lemma_find_byte(pq@, 0, QUESTION);
        }
        while q < n && pq[q] != QUESTION
            invariant
                q <= n,
                n == pq.len(),
                find_byte(pq@, 0, QUESTION) == find_byte(pq@, q as int, QUESTION),
            decreases n - q,
        {
            q += 1;
        }
        let path = match tos(&pq[0..q]) {
            Ok(path) => path,
            Err(e) => {
                return Err(e);
            },
        };
        if q != n {
            q += 1;
        }
        let args = match form_fields(&pq[q..n]) {
            Ok(args) => args,
            Err(e) => {
                return Err(e);
            },
        };
        self.path = path;
        self.args = args;
        Ok(())
    }
}

/// What a set of headers holds, as plain values.
pub struct HeadersView {
    pub method: Seq<u8>,
    pub path: Seq<char>,
    pub args: Seq<(Seq<char>, Seq<char>)>,
    pub host: Seq<char>,
    pub cookies: Seq<(Seq<char>, Seq<char>)>,
    pub content_type: Seq<u8>,
    pub content_length: Seq<char>,
}

impl View for Headers {
    type V = HeadersView;

    open spec fn view(&self) -> HeadersView {
        HeadersView {
            method: self.method@,
            path: self.path@,
            args: self.args.entries(),
            host: self.host@,
            cookies: self.cookies.entries(),
            content_type: self.content_type@,
            content_length: self.content_length@,
        }
    }
}

/// The part of the head of a request that is being read.
#[derive(Clone, Copy, PartialEq, Eq, Structural, Debug)]
pub enum Stage {
    /// The method, up to the first space.
    Method,
    /// The request target, up to the next space.
    Target,
    /// The protocol, up to the end of the first line.
    Protocol,
    /// The header lines, up to the empty line.
    Lines,
}

/// How far the reading of a head has come: a reader that runs out of
/// input stops here, and goes on from here when there is more.
#[derive(Debug)]
pub struct HeadState {
    /// The part that is being read.
    pub stage: Stage,
    /// What was read of the token or line that is not yet complete.
    pub token: Vec<u8>,
    /// The headers as far as they were read.
    pub head: Headers,
}

/// How far the reading of a head has come, as plain values.
pub struct HeadView {
    pub stage: Stage,
    pub token: Seq<u8>,
    pub head: HeadersView,
}

impl View for HeadState {
    type V = HeadView;

    open spec fn view(&self) -> HeadView {
        HeadView { stage: self.stage, token: self.token@, head: self.head@ }
    }
}

/// Why the reader of a head stopped.
#[derive(Debug)]
pub enum HeadStep {
    /// The input ran out: more is needed.
    Pending,
    /// The trusted header of a proxy named the client: the budget is to
    /// be resolved again for this identity before reading goes on.
    Identity(String),
    /// The empty line was read: the head is complete.
    Done,
    /// The head is refused.
    Failed(Error),
}

/// Why the reader of a head stopped, as plain values.
pub enum Outcome {
    Pending,
    Identity(Seq<char>),
    Done,
    Failed(u16),
}

impl View for HeadStep {
    type V = Outcome;

    open spec fn view(&self) -> Outcome {
        match self {
            HeadStep::Pending => Outcome::Pending,
            HeadStep::Identity(ip) => Outcome::Identity(ip@),
            HeadStep::Done => Outcome::Done,
            HeadStep::Failed(e) => Outcome::Failed(e.code),
        }
    }
}

/// Why reading stopped after a token, if it did.
pub open spec fn step_view(step: Option<HeadStep>) -> Option<Outcome> {
    match step {
        Some(s) => Some(s@),
        None => None,
    }
}

/// The byte that ends the tokens of a part of the head.
pub open spec fn delimiter(stage: Stage) -> u8 {
    match stage {
        Stage::Method => SPACE,
        Stage::Target => SPACE,
        Stage::Protocol => LF,
        Stage::Lines => LF,
    }
}

/// A token without the byte that ended it.
pub open spec fn without_last(token: Seq<u8>) -> Seq<u8> {
    if token.len() > 0 {
        token.drop_last()
    } else {
        token
    }
}

/// What one header line does to the headers, and whether reading stops
/// after it. The names of the headers that are read count in any case;
/// a line with another name is passed over. A value that cannot be read
/// fails the request.
pub open spec fn header_line(h: HeadersView, line: Seq<u8>) -> (HeadersView, Option<Outcome>) {
    if header_value(line, ascii("cookie"@)) is Some {
        match cookie_pairs(header_value(line, ascii("cookie"@))->Some_0, 0) {
            Some(cookies) => (HeadersView { cookies, ..h }, None),
            None => (h, Some(Outcome::Failed(400))),
        }
    } else if header_value(line, ascii("content-type"@)) is Some {
        (
            HeadersView {
                content_type: header_value(line, ascii("content-type"@))->Some_0,
                ..h
            },
            None,
        )
    } else if header_value(line, ascii("content-length"@)) is Some {
        match text_of(header_value(line, ascii("content-length"@))->Some_0) {
            Some(content_length) => (HeadersView { content_length, ..h }, None),
            None => (h, Some(Outcome::Failed(400))),
        }
    } else if header_value(line, ascii("host"@)) is Some {
        match text_of(header_value(line, ascii("host"@))->Some_0) {
            Some(host) => (HeadersView { host, ..h }, None),
            None => (h, Some(Outcome::Failed(400))),
        }
    } else if header_value(line, ascii("x-real-ip"@)) is Some {
        match text_of(header_value(line, ascii("x-real-ip"@))->Some_0) {
            Some(ip) => (h, Some(Outcome::Identity(ip))),
            None => (h, Some(Outcome::Failed(400))),
        }
    } else {
        (h, None)
    }
}

/// What one complete token does to the state of the reader, and whether
/// reading stops after it. The token holds the byte that ended it.
pub open spec fn head_token(stage: Stage, h: HeadersView, token: Seq<u8>) -> (
    Stage,
    HeadersView,
    Option<Outcome>,
) {
    match stage {
        Stage::Method => (Stage::Target, HeadersView { method: without_last(token), ..h }, None),
        Stage::Target => match spec_split_pq(without_last(token)) {
            Some((path, args)) => (Stage::Protocol, HeadersView { path, args, ..h }, None),
            None => (stage, h, Some(Outcome::Failed(400))),
        },
        Stage::Protocol => (Stage::Lines, h, None),
        Stage::Lines => if token.len() <= 2 {
            (stage, h, Some(Outcome::Done))
        } else {
            let (head, stop) = header_line(h, token.subrange(0, token.len() - 2));
            (stage, head, stop)
        },
    }
}

/// What the reader of a head does with the input at hand: it takes token
/// after token until one stops it or the input runs out. Gives the state
/// it ends in, the input it leaves, and why it stopped.
pub open spec fn head_run(st: HeadView, input: Seq<u8>) -> (HeadView, Seq<u8>, Outcome)
    decreases input.len(),
    via head_run_decreases
{
    let end = find_byte(input, 0, delimiter(st.stage));
    if end >= input.len() {
        (
            HeadView { stage: st.stage, token: st.token + input, head: st.head },
            Seq::empty(),
            Outcome::Pending,
        )
    } else {
        let token = st.token + input.subrange(0, end + 1);
        let rest = input.subrange(end + 1, input.len() as int);
        let (stage, head, stop) = head_token(st.stage, st.head, token);
        let next = HeadView { stage, token: Seq::empty(), head };
        match stop {
            Some(outcome) => (next, rest, outcome),
            None => head_run(next, rest),
        }
    }
}

#[via_fn]
proof fn head_run_decreases(st: HeadView, input: Seq<u8>) {
    lemma_find_byte(input, 0, delimiter(st.stage));
}

/// The bytes of a header name.
pub fn name_bytes(name: &str) -> (result: &[u8])
    requires
        vstd::string::is_ascii(name),
    ensures
        result@ == ascii(name@),
{
    proof {
        is_ascii_spec_bytes(name);
        assert(name.spec_bytes() =~= ascii(name@));
    }
    name.as_bytes()
}

/// A line that is one of the headers that are read has the first and the
/// third letter of that header's name, in any case.
proof fn lemma_header_letters(line: Seq<u8>)
    ensures
        is_header(line, ascii("cookie"@)) ==> spec_lower(line[0]) == 99 && spec_lower(line[2])
            == 111,
        is_header(line, ascii("content-type"@)) ==> spec_lower(line[0]) == 99 && spec_lower(
            line[2],
        ) == 110,
        is_header(line, ascii("content-length"@)) ==> spec_lower(line[0]) == 99 && spec_lower(
            line[2],
        ) == 110,
        is_header(line, ascii("host"@)) ==> spec_lower(line[0]) == 104 && spec_lower(line[2])
            == 115,
        is_header(line, ascii("x-real-ip"@)) ==> spec_lower(line[0]) == 120 && spec_lower(
            line[2],
        ) == 114,
        is_header(line, ascii("cookie"@)) ==> line.len() >= 3,
        is_header(line, ascii("content-type"@)) ==> line.len() >= 3,
        is_header(line, ascii("content-length"@)) ==> line.len() >= 3,
        is_header(line, ascii("host"@)) ==> line.len() >= 3,
        is_header(line, ascii("x-real-ip"@)) ==> line.len() >= 3,
        vstd::string::is_ascii("cookie"),
        vstd::string::is_ascii("content-type"),
        vstd::string::is_ascii("content-length"),
        vstd::string::is_ascii("host"),
        vstd::string::is_ascii("x-real-ip"),
{
    reveal_strlit("cookie");
    reveal_strlit("content-type");
    reveal_strlit("content-length");
    reveal_strlit("host");
    reveal_strlit("x-real-ip");
    assert(ascii("cookie"@)[0] == 99 && ascii("cookie"@)[2] == 111);
    assert(ascii("content-type"@)[0] == 99 && ascii("content-type"@)[2] == 110);
    assert(ascii("content-length"@)[0] == 99 && ascii("content-length"@)[2] == 110);
    assert(ascii("host"@)[0] == 104 && ascii("host"@)[2] == 115);
    assert(ascii("x-real-ip"@)[0] == 120 && ascii("x-real-ip"@)[2] == 114);
}

impl Headers {
    /// Takes in one header line, without the end of the line. The first
    /// and the third letter of the line tell which names it can be.
    pub fn line(&mut self, line: &[u8]) -> (result: Option<HeadStep>)
        ensures
            (final(self)@, step_view(result)) == header_line(old(self)@, line@),
    {
        proof {
            lemma_header_letters(line@);
        }
        if line.len() >= 3 {
            let b0 = lower(line[0]);
            let b2 = lower(line[2]);
            if b0 == 99 && b2 == 111 {
                if let Some(value) = line_is(line, name_bytes("cookie")) {
                    match cookie_map(value) {
                        Ok(cookies) => {
                            self.cookies = cookies;
                        },
                        Err(e) => {
                            return Some(HeadStep::Failed(e));
                        },
                    }
                }
            } else if b0 == 99 && b2 == 110 {
                if let Some(value) = line_is(line, name_bytes("content-type")) {
                    self.content_type = slice_to_vec(value);
                } else if let Some(value) = line_is(line, name_bytes("content-length")) {
                    match tos(value) {
                        Ok(length) => {
                            self.content_length = length;
                        },
                        Err(e) => {
                            return Some(HeadStep::Failed(e));
                        },
                    }
                }
            } else if b0 == 104 && b2 == 115 {
                if let Some(value) = line_is(line, name_bytes("host")) {
                    match tos(value) {
                        Ok(host) => {
                            self.host = host;
                        },
                        Err(e) => {
                            return Some(HeadStep::Failed(e));
                        },
                    }
                }
            } else if b0 == 120 && b2 == 114 {
                if let Some(value) = line_is(line, name_bytes("x-real-ip")) {
                    match tos(value) {
                        Ok(ip) => {
                            return Some(HeadStep::Identity(ip));
                        },
                        Err(e) => {
                            return Some(HeadStep::Failed(e));
                        },
                    }
                }
            }
        }
        None
    }
}

impl HeadState {
    /// The state before anything was read, as plain values.
    pub open spec fn new_view() -> HeadView {
        HeadView { stage: Stage::Method, token: Seq::empty(), head: Headers::new_view() }
    }

    /// The state before anything was read.
    pub fn new() -> (result: HeadState)
        ensures
            result@ == HeadState::new_view(),
    {
        let result = HeadState { stage: Stage::Method, token: Vec::new(), head: Headers::new() };
        assert(result@.token =~= Seq::empty());
        result
    }

    /// Takes in one complete token, with the byte that ended it.
    pub fn token(&mut self, token: Vec<u8>) -> (result: Option<HeadStep>)
        ensures
            final(self).token == old(self).token,
            (final(self).stage, final(self).head@, step_view(result)) == head_token(
                old(self).stage,
                old(self).head@,
                token@,
            ),
    {
        let mut token = token;
        match self.stage {
            Stage::Method => {
                token.pop();
                self.head.method = token;
                self.stage = Stage::Target;
                None
            },
            Stage::Target => {
                token.pop();
                match self.head.split_pq(token.as_slice()) {
                    Ok(_) => {
                        self.stage = Stage::Protocol;
                        None
                    },
                    Err(e) => Some(HeadStep::Failed(e)),
                }
            },
            Stage::Protocol => {
                self.stage = Stage::Lines;
                None
            },
            Stage::Lines => {
                let n = token.len();
                if n <= 2 {
                    Some(HeadStep::Done)
                } else {
                    self.head.line(&token.as_slice()[0..n - 2])
                }
            },
        }
    }
}

impl Headers {
    /// Reads the head of a request from the buffer, as far as the input
    /// at hand goes, and tells why it stopped. The state holds what was
    /// read; called again with more input, the reader goes on where it
    /// stopped.
    pub fn get(br: &mut Buffer, st: &mut HeadState) -> (result: HeadStep)
        ensures
            (final(st)@, final(br).pending(), result@) == head_run(old(st)@, old(br).pending()),
            final(br).u() == old(br).u(),
            final(br).uid() == old(br).uid(),
            final(br).total() == old(br).total(),
    {
        loop
            invariant
                head_run(st@, br.pending()) == head_run(old(st)@, old(br).pending()),
                br.u() == old(br).u(),
                br.uid() == old(br).uid(),
                br.total() == old(br).total(),
            decreases br.pending().len(),
        {
            let delim = match st.stage {
                Stage::Method => SPACE,
                Stage::Target => SPACE,
                Stage::Protocol => LF,
                Stage::Lines => LF,
            };
            proof {
                lemma_find_byte(br.pending(), 0, delim);
            }
            let found = br.read_until(delim, &mut st.token);
            if !found {
                return HeadStep::Pending;
            }
            let mut token: Vec<u8> = Vec::new();
            core::mem::swap(&mut token, &mut st.token);
            let stop = st.token(token);
            if let Some(step) = stop {
                return step;
            }
        }
    }
}

/// The head is read the same in one piece and in two. Where the reader
/// runs out of input on the first piece, reading both pieces at once ends
/// as reading the second piece from where the first left off. Where it
/// stops within the first piece, it stops there with both, and the second
/// piece is left with the rest.
pub proof fn lemma_head_run_pieces(st: HeadView, a: Seq<u8>, b: Seq<u8>)
    ensures
        head_run(st, a).2 is Pending ==> head_run(st, a + b) == head_run(head_run(st, a).0, b),
        !(head_run(st, a).2 is Pending) ==> head_run(st, a + b) == (
            head_run(st, a).0,
            head_run(st, a).1 + b,
            head_run(st, a).2,
        ),
    decreases a.len(),
{
    let d = delimiter(st.stage);
    let k = find_byte(a, 0, d);
    lemma_find_byte(a, 0, d);
    lemma_find_byte(b, 0, d);
    lemma_find_byte_pieces(a, b, 0, d);
    if k >= a.len() {
        let kb = find_byte(b, 0, d);
        let held = HeadView { stage: st.stage, token: st.token + a, head: st.head };
        assert(head_run(st, a).0 == held);
        if kb >= b.len() {
            assert(st.token + (a + b) =~= (st.token + a) + b);
        } else {
            assert(st.token + (a + b).subrange(0, a.len() + kb + 1) =~= (st.token + a)
                + b.subrange(0, kb + 1));
            assert((a + b).subrange(a.len() + kb + 1, (a + b).len() as int) =~= b.subrange(
                kb + 1,
                b.len() as int,
            ));
        }
    } else {
        assert((a + b).subrange(0, k + 1) =~= a.subrange(0, k + 1));
        let rest = a.subrange(k + 1, a.len() as int);
        assert((a + b).subrange(k + 1, (a + b).len() as int) =~= rest + b);
        let token = st.token + a.subrange(0, k + 1);
        let (stage, head, stop) = head_token(st.stage, st.head, token);
        let next = HeadView { stage, token: Seq::empty(), head };
        if stop is None {
            lemma_head_run_pieces(next, rest, b);
        }
    }
}

} // verus!
