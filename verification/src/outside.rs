//! The calls into other crates and into parts of the standard library, each
//! behind a function whose contract says what is relied on.
use reqwest::header::{HeaderMap, HeaderName, HeaderValue};
use serde_json::Value;
use std::collections::hash_map::DefaultHasher;
use std::hash::Hash;
use std::time::UNIX_EPOCH;
use tokio::sync::mpsc::error::TrySendError;
use tokio::sync::mpsc::Sender;
use vstd::prelude::*;
use vstd::string::*;
use vstd::utf8::*;

use crate::text::{decimal_text, opt_view, result_view};

verus! {

// ---------------------------------------------------------------- URLs

/// What is read of a parsed URL.
#[derive(Debug)]
pub struct UrlParts<S = String> {
    pub scheme: S,
    pub host: Option<S>,
    pub port: Option<u16>,
}

impl View for UrlParts {
    type V = UrlParts<Seq<char>>;

    open spec fn view(&self) -> UrlParts<Seq<char>> {
        UrlParts {
            scheme: self.scheme@,
            host: opt_view(self.host),
            port: self.port,
        }
    }
}

/// What `url::Url::parse` makes of a text: the parts of the URL, or the message
/// of the parse error.
pub uninterp spec fn url_parse(input: Seq<char>) -> Result<UrlParts<Seq<char>>, Seq<char>>;

/// Calls `url::Url::parse` and reads the scheme, the host and the explicit port
/// of the URL. The outcome is a function of the text alone; which texts are URLs
/// is left to that crate.
#[verifier::external_body]
pub(crate) fn parse_url(input: &str) -> (r: Result<UrlParts, String>)
    ensures
        result_view(r) == url_parse(input@),
{
    let url = url::Url::parse(input).map_err(|e| e.to_string())?;
    Ok(UrlParts {
        scheme: url.scheme().to_owned(),
        host: url.host_str().map(str::to_owned),
        port: url.port(),
    })
}

/// Name and value pairs over texts.
pub open spec fn pairs_text(pairs: Seq<(String, String)>) -> Seq<(Seq<char>, Seq<char>)> {
    pairs.map_values(|p: (String, String)| (p.0@, p.1@))
}

/// The longest URL, in bytes, that pairs are appended to or that comes of it.
pub const URL_SIZE_LIMIT: u64 = 4_294_967_295;

/// The size, in bytes, that pairs have at most in a query: a byte grows to at most three.
pub open spec fn pairs_size(pairs: Seq<(Seq<char>, Seq<char>)>) -> nat
    decreases pairs.len(),
{
    if pairs.len() == 0 {
        0
    } else {
        let (name, value) = pairs.last();
        pairs_size(pairs.drop_last()) + 3 * encode_utf8(name).len() + 3 * encode_utf8(value).len()
            + 2
    }
}

/// The size, in bytes, that the URL parsed from `url` has at most once pairs were appended to
/// its query. A byte of a URL grows to at most sixteen: as many as a host name may take when
/// it is written in ASCII.
pub open spec fn url_size(url: Seq<char>, pairs: Seq<(Seq<char>, Seq<char>)>) -> nat {
    16 * (encode_utf8(url).len() + 1) + pairs_size(pairs)
}

/// The serialization of the URL parsed from `url`, once the pairs were appended
/// to its query, in order, as `application/x-www-form-urlencoded`.
pub uninterp spec fn url_query_appended(
    url: Seq<char>,
    pairs: Seq<(Seq<char>, Seq<char>)>,
) -> Seq<char>;

/// Calls `url::Url::parse` and then `extend_pairs` on the URL's
/// `query_pairs_mut`. It fails exactly where the parse fails, with the same
/// message; otherwise the result is a function of the text and of the pairs. The places
/// within a URL are counted in 32 bits, and longer ones are not appended to.
#[verifier::external_body]
pub(crate) fn append_query(url: &str, pairs: &Vec<(String, String)>) -> (r: Result<String, String>)
    requires
        url_size(url@, pairs_text(pairs@)) <= URL_SIZE_LIMIT,
    ensures
        match url_parse(url@) {
            Ok(_) => r matches Ok(t) && t@ == url_query_appended(url@, pairs_text(pairs@)),
            Err(m) => r matches Err(e) && e@ == m,
        },
{
    let mut parsed = url::Url::parse(url).map_err(|e| e.to_string())?;
    parsed.query_pairs_mut().extend_pairs(pairs);
    Ok(parsed.to_string())
}

// ---------------------------------------------------------------- identifiers and time

/// Whether a character is a lower-case hexadecimal digit.
pub open spec fn is_hex_digit(c: char) -> bool {
    ('0' <= c && c <= '9') || ('a' <= c && c <= 'f')
}

/// Whether a text is a random (version 4) UUID in its hyphenated form.
pub open spec fn is_uuid_text(t: Seq<char>) -> bool {
    &&& t.len() == 36
    &&& forall|i: int|
        0 <= i < 36 ==> if i == 8 || i == 13 || i == 18 || i == 23 {
            #[trigger] t[i] == '-'
        } else {
            is_hex_digit(t[i])
        }
    &&& t[14] == '4'
    &&& (t[19] == '8' || t[19] == '9' || t[19] == 'a' || t[19] == 'b')
}

/// Calls `uuid::Uuid::new_v4` and prints the UUID. The digits are random; the
/// form, the version and the variant are fixed.
#[verifier::external_body]
pub(crate) fn random_uuid() -> (r: String)
    ensures
        is_uuid_text(r@),
{
    uuid::Uuid::new_v4().to_string()
}

/// One more than the largest number of nanoseconds that a `Duration` can hold.
pub const DURATION_NANOS_LIMIT: i128 = 18_446_744_073_709_551_616_000_000_000;

/// The clock of the system. Nothing but `read` changes what is recorded of its readings.
pub struct Clock {
    log: Ghost<Seq<Result<u128, u128>>>,
}

impl Clock {
    /// What was read from the clock, in order: the nanoseconds from the Unix epoch, or,
    /// where the clock stood before the epoch, those to it.
    pub closed spec fn log(&self) -> Seq<Result<u128, u128>> {
        self.log@
    }

    /// The clock, of which nothing was read yet.
    pub fn new() -> (r: Self)
        ensures
            r.log() == Seq::<Result<u128, u128>>::empty(),
    {
        Clock { log: Ghost(Seq::empty()) }
    }

    /// Calls `SystemTime::elapsed` on `UNIX_EPOCH`: the nanoseconds from the Unix epoch to
    /// now, or, where the clock stands before the epoch, those from now to the epoch. The
    /// record grows by this reading. Nothing is known of it but that it fits a `Duration`.
    #[verifier::external_body]
    pub(crate) fn read(&mut self) -> (r: Result<u128, u128>)
        ensures
            final(self).log() == old(self).log().push(r),
            match r {
                Ok(after) => after < DURATION_NANOS_LIMIT,
                Err(before) => before < DURATION_NANOS_LIMIT,
            },
    {
        match UNIX_EPOCH.elapsed() {
            Ok(after) => Ok(after.as_nanos()),
            Err(before) => Err(before.duration().as_nanos()),
        }
    }
}

/// What hashing a string writes to a hasher.
pub uninterp spec fn text_hash_writes(text: Seq<char>) -> Seq<Seq<u8>>;

/// Calls `Hash::hash` of `str`, which feeds the string to the hasher. What is
/// written is a function of the string alone.
#[verifier::external_body]
pub(crate) fn hash_text(text: &str, hasher: &mut DefaultHasher)
    ensures
        final(hasher)@ == old(hasher)@ + text_hash_writes(text@),
{
    text.hash(hasher)
}

// ---------------------------------------------------------------- text encodings

/// The message of the error of `std::str::from_utf8` on bytes that are not UTF-8.
pub uninterp spec fn utf8_error(bytes: Seq<u8>) -> Seq<char>;

/// Calls `std::str::from_utf8`: the text that the bytes encode, or the message of
/// the error, exactly where the bytes are not UTF-8.
#[verifier::external_body]
pub(crate) fn text_from_utf8(bytes: &[u8]) -> (r: Result<&str, String>)
    ensures
        r is Ok <==> valid_utf8(bytes@),
        r matches Ok(t) ==> t.spec_bytes() == bytes@,
        r matches Err(m) ==> m@ == utf8_error(bytes@),
{
    std::str::from_utf8(bytes).map_err(|e| e.to_string())
}

// ---------------------------------------------------------------- JSON

#[verifier::external_type_specification]
#[verifier::external_body]
pub struct ExJsonError(serde_json::Error);

/// A member of a JSON object, as far as it is read. A list holds the text of each
/// item that is a string.
#[derive(Debug)]
pub enum JsonMember<S = String, L = Vec<Option<String>>> {
    Absent,
    Null,
    Bool,
    Number,
    Text(S),
    List(L),
    Object,
}

impl View for JsonMember {
    type V = JsonMember<Seq<char>, Seq<Option<Seq<char>>>>;

    open spec fn view(&self) -> JsonMember<Seq<char>, Seq<Option<Seq<char>>>> {
        match *self {
            JsonMember::Absent => JsonMember::Absent,
            JsonMember::Null => JsonMember::Null,
            JsonMember::Bool => JsonMember::Bool,
            JsonMember::Number => JsonMember::Number,
            JsonMember::Text(t) => JsonMember::Text(t@),
            JsonMember::List(l) => JsonMember::List(
                l@.map_values(|o: Option<String>| opt_view(o)),
            ),
            JsonMember::Object => JsonMember::Object,
        }
    }
}

/// What `serde_json::from_slice` reads from a document: the members of the object
/// that it holds (none, where it holds another JSON value), or `None` where it is
/// not JSON.
pub uninterp spec fn json_object(document: Seq<u8>) -> Option<
    Map<Seq<char>, JsonMember<Seq<char>, Seq<Option<Seq<char>>>>>,
>;

/// The member of an object under `key`.
pub open spec fn member_of(
    object: Map<Seq<char>, JsonMember<Seq<char>, Seq<Option<Seq<char>>>>>,
    key: Seq<char>,
) -> JsonMember<Seq<char>, Seq<Option<Seq<char>>>> {
    if object.contains_key(key) {
        object[key]
    } else {
        JsonMember::Absent
    }
}

/// Calls `serde_json::from_slice` and looks five members up with `Value::get`. It
/// fails exactly where the document is not JSON.
#[verifier::external_body]
pub(crate) fn json_members(
    document: &[u8],
    keys: (&str, &str, &str, &str, &str),
) -> (r: Result<
    (JsonMember, JsonMember, JsonMember, JsonMember, JsonMember),
    serde_json::Error,
>)
    ensures
        r is Ok <==> json_object(document@) is Some,
        r matches Ok(m) ==> m.0@ == member_of(json_object(document@)->0, keys.0@),
        r matches Ok(m) ==> m.1@ == member_of(json_object(document@)->0, keys.1@),
        r matches Ok(m) ==> m.2@ == member_of(json_object(document@)->0, keys.2@),
        r matches Ok(m) ==> m.3@ == member_of(json_object(document@)->0, keys.3@),
        r matches Ok(m) ==> m.4@ == member_of(json_object(document@)->0, keys.4@),
{
    let value: Value = serde_json::from_slice(document)?;
    let read = |key: &str| match value.get(key) {
        None => JsonMember::Absent,
        Some(Value::Null) => JsonMember::Null,
        Some(Value::Bool(_)) => JsonMember::Bool,
        Some(Value::Number(_)) => JsonMember::Number,
        Some(Value::String(t)) => JsonMember::Text(t.clone()),
        Some(Value::Array(l)) => JsonMember::List(
            l.iter().map(|i| i.as_str().map(str::to_owned)).collect(),
        ),
        Some(Value::Object(_)) => JsonMember::Object,
    };
    Ok((read(keys.0), read(keys.1), read(keys.2), read(keys.3), read(keys.4)))
}

/// What `serde_json::from_str` says against a text when it reads past one JSON
/// value: the message of its error, or `None` where the text is one JSON value.
pub uninterp spec fn json_error(text: Seq<char>) -> Option<Seq<char>>;

/// Calls `serde_json::from_str` for `IgnoredAny`, which checks a JSON text without
/// keeping it.
#[verifier::external_body]
pub(crate) fn check_json(text: &str) -> (r: Result<(), String>)
    ensures
        match json_error(text@) {
            None => r is Ok,
            Some(m) => r matches Err(e) && e@ == m,
        },
{
    serde_json::from_str::<serde::de::IgnoredAny>(text).map(|_| ()).map_err(|e| e.to_string())
}

// ---------------------------------------------------------------- channels

#[verifier::external_type_specification]
#[verifier::external_body]
#[verifier::reject_recursive_types(T)]
pub struct ExSender<T>(Sender<T>);

/// What came of handing a message to a channel: it took the message, it had no room
/// and dropped it, or nobody receives from it any more.
#[derive(Debug, Clone, Copy, PartialEq, Eq, Structural)]
pub enum SendOutcome {
    Sent,
    Full,
    Closed,
}

/// A message that was handed to a channel, and what came of it.
pub type Handed = (Seq<char>, SendOutcome);

/// The end of a channel to which messages are handed. Nothing but `hand_over` changes what
/// is recorded of them.
pub struct MessageChannel {
    tx: Sender<String>,
    log: Ghost<Seq<Handed>>,
}

impl MessageChannel {
    /// The messages that were handed to the channel from this end, in order, and what came
    /// of each.
    pub closed spec fn log(&self) -> Seq<Handed> {
        self.log@
    }

    /// The channel itself.
    pub closed spec fn sender(&self) -> Sender<String> {
        self.tx
    }

    /// This end of the channel, to which nothing was handed yet.
    pub fn new(tx: Sender<String>) -> (r: Self)
        ensures
            r.sender() == tx,
            r.log() == Seq::<Handed>::empty(),
    {
        MessageChannel { tx, log: Ghost(Seq::empty()) }
    }

    /// Calls `tokio::sync::mpsc::Sender::try_send`, which hands the message to the channel
    /// without waiting: the channel takes it as it is, behind what it holds, or it has no
    /// room or no receiver and takes nothing. The record grows by the message and that
    /// outcome. Which outcome comes depends on what the receiver has taken from the
    /// channel until then, so nothing is promised of it.
    #[verifier::external_body]
    pub(crate) fn hand_over(&mut self, message: String) -> (r: SendOutcome)
        ensures
            final(self).sender() == old(self).sender(),
            final(self).log() == old(self).log().push((message@, r)),
    {
        match self.tx.try_send(message) {
            Ok(()) => SendOutcome::Sent,
            Err(TrySendError::Full(_)) => SendOutcome::Full,
            Err(TrySendError::Closed(_)) => SendOutcome::Closed,
        }
    }
}

// ---------------------------------------------------------------- HTTP

/// The reason phrase that stands behind a status code.
pub uninterp spec fn reason_phrase(code: u16) -> Seq<char>;

/// Whether a number can be a status code.
pub open spec fn is_status(code: u16) -> bool {
    100 <= code <= 999
}

/// A status code as it is printed: the number, a space and the reason phrase.
pub open spec fn status_text(code: u16) -> Seq<char> {
    decimal_text(code as nat) + " "@ + reason_phrase(code)
}

/// Prints a `reqwest::StatusCode`. The phrase is a function of the code.
#[verifier::external_body]
pub(crate) fn print_status(code: u16) -> (r: String)
    requires
        is_status(code),
    ensures
        r@ == decimal_text(code as nat) + " "@ + reason_phrase(code),
{
    reqwest::StatusCode::from_u16(code).unwrap().to_string()
}

#[verifier::external_type_specification]
#[verifier::external_body]
pub struct ExHeaderValue(HeaderValue);

#[verifier::external_type_specification]
#[verifier::external_body]
#[verifier::reject_recursive_types(T)]
pub struct ExHeaderMap<T>(HeaderMap<T>);

/// Header values, as bytes, under header names.
pub type HeaderEntries = Map<Seq<char>, Seq<Seq<u8>>>;

/// What a header map holds: the values, as bytes, under each header name.
pub uninterp spec fn header_entries(headers: HeaderMap<HeaderValue>) -> Map<
    Seq<char>,
    Seq<Seq<u8>>,
>;

/// Whether a character may stand in a header name.
pub open spec fn is_token_char(c: char) -> bool {
    ||| ('0' <= c && c <= '9')
    ||| ('a' <= c && c <= 'z')
    ||| ('A' <= c && c <= 'Z')
    ||| c == '!' || c == '#' || c == '$' || c == '%' || c == '&' || c == '\'' || c == '*'
    ||| c == '+' || c == '-' || c == '.' || c == '^' || c == '_' || c == '`' || c == '|' || c == '~'
}

/// Whether a text is a header name.
pub open spec fn is_header_name(name: Seq<char>) -> bool {
    0 < name.len() <= 65535 && forall|i: int| 0 <= i < name.len() ==> is_token_char(#[trigger] name[i])
}

/// Whether a text is a header value: no control character but the tab.
pub open spec fn is_header_value(value: Seq<char>) -> bool {
    forall|i: int|
        0 <= i < value.len() ==> (32 <= (#[trigger] value[i]) as int && value[i] as int != 127)
            || value[i] == '\t'
}

/// A character in lower case, where it is an ASCII letter.
pub open spec fn ascii_lower(c: char) -> char {
    if 'A' <= c && c <= 'Z' {
        ((c as int) + 32) as char
    } else {
        c
    }
}

/// A header name in the lower case in which header maps hold it.
pub open spec fn lower_name(name: Seq<char>) -> Seq<char> {
    name.map_values(|c: char| ascii_lower(c))
}

/// Calls `HeaderMap::new`: a map that holds nothing.
#[verifier::external_body]
pub(crate) fn no_headers() -> (r: HeaderMap<HeaderValue>)
    ensures
        header_entries(r) == HeaderEntries::empty(),
{
    HeaderMap::new()
}

/// The largest number of headers to which another is always added.
pub const HEADER_LIMIT: usize = 6_553;

/// The number of headers to which no other is ever added.
pub const MAX_HEADERS: usize = 24_576;

/// Why a header is not added to a header map.
#[derive(Debug)]
pub enum HeaderError<S = String> {
    /// It is none: this is the message.
    Refused(S),
    /// The map has no room.
    Full,
}

impl View for HeaderError {
    type V = HeaderError<Seq<char>>;

    open spec fn view(&self) -> HeaderError<Seq<char>> {
        match *self {
            HeaderError::Refused(m) => HeaderError::Refused(m@),
            HeaderError::Full => HeaderError::Full,
        }
    }
}

/// The message with which a header of this name is refused: that of its name, or,
/// where the name is one, that of its value.
pub open spec fn header_refusal(name: Seq<char>) -> Seq<char> {
    if is_header_name(name) {
        "failed to parse header value"@
    } else {
        "invalid HTTP header name"@
    }
}

/// Calls `HeaderName::from_bytes` and `HeaderValue::from_str` on the arguments and
/// then `HeaderMap::try_insert`, which puts the value in place of all that the map
/// held under the name. A text that is no header name, or no header value, is
/// refused with the message of its error, the name first; and a map that cannot
/// grow takes no other header. Then nothing changes. Whether a map with more than
/// `HEADER_LIMIT` and fewer than `MAX_HEADERS` headers takes another depends on how
/// their names collide, so nothing is promised of it.
#[verifier::external_body]
pub(crate) fn insert_header(
    headers: &mut HeaderMap<HeaderValue>,
    name: &str,
    value: &str,
) -> (r: Result<(), HeaderError>)
    ensures
        (r matches Err(HeaderError::Refused(_))) <==> !(is_header_name(name@) && is_header_value(
            value@,
        )),
        r matches Err(HeaderError::Refused(m)) ==> m@ == header_refusal(name@),
        r matches Err(HeaderError::Full) ==> header_entries(*old(headers)).dom().len()
            > HEADER_LIMIT,
        r is Ok ==> header_entries(*old(headers)).dom().len() < MAX_HEADERS,
        r is Ok ==> header_entries(*final(headers)) == header_entries(*old(headers)).insert(
            lower_name(name@),
            seq![value.spec_bytes()],
        ),
        r is Err ==> header_entries(*final(headers)) == header_entries(*old(headers)),
{
    let name = HeaderName::from_bytes(name.as_bytes())
        .map_err(|e| HeaderError::Refused(e.to_string()))?;
    let value = HeaderValue::from_str(value).map_err(|e| HeaderError::Refused(e.to_string()))?;
    headers.try_insert(name, value).map_err(|_| HeaderError::Full)?;
    Ok(())
}

} // verus!
