//! The calls into outside crates, each with the contract that the library
//! believes of it.
use vstd::prelude::*;

verus! {

/// `serde_json::Value`, carried through the library unopened.
#[verifier::external_type_specification]
#[verifier::external_body]
pub struct ExJsonValue(serde_json::Value);

/// A result whose error message is taken by its characters.
pub open spec fn with_message<T>(r: Result<T, String>) -> Result<T, Seq<char>> {
    match r {
        Ok(v) => Ok(v),
        Err(m) => Err(m@),
    }
}

/// A result whose value and error message are taken by their characters.
pub open spec fn text_result(r: Result<String, String>) -> Result<Seq<char>, Seq<char>> {
    match r {
        Ok(v) => Ok(v@),
        Err(m) => Err(m@),
    }
}

/// What `serde_json::from_str::<serde_json::Value>` gives for `text`: the
/// JSON value, or the `Display` text of the error it reports.
pub uninterp spec fn json_value(text: Seq<char>) -> Result<serde_json::Value, Seq<char>>;

/// Calls `serde_json::from_str::<serde_json::Value>`. Claimed: the value, or
/// the error's `Display` text, is `json_value` of the text.
#[verifier::external_body]
pub(crate) fn parse_json(text: &str) -> (r: Result<serde_json::Value, String>)
    ensures
        with_message(r) == json_value(text@),
{
    match serde_json::from_str::<serde_json::Value>(text) {
        Ok(v) => Ok(v),
        Err(e) => Err(e.to_string()),
    }
}

/// What `url::Url::parse` gives for `text`: the serialization
/// (`Url::as_str`) of the URL, or the `Display` text of the error it reports.
pub uninterp spec fn url_parse(text: Seq<char>) -> Result<Seq<char>, Seq<char>>;

/// Calls `url::Url::parse`. Claimed: the serialization, or the error's
/// `Display` text, is `url_parse` of the text.
#[verifier::external_body]
pub(crate) fn parse_url(text: &str) -> (r: Result<String, String>)
    ensures
        text_result(r) == url_parse(text@),
{
    match url::Url::parse(text) {
        Ok(u) => Ok(String::from(u)),
        Err(e) => Err(e.to_string()),
    }
}

/// What `url::Url::join` gives for `reference` against the URL that `base`
/// serializes: the serialization of the joined URL, or the `Display` text of
/// the error reported.
pub uninterp spec fn url_join(base: Seq<char>, reference: Seq<char>) -> Result<Seq<char>, Seq<char>>;

/// Calls `url::Url::join` on the URL that `base` serializes (`base` is read
/// back with `url::Url::parse`, which gives back the same URL for a
/// serialization). Claimed: the serialization, or the error's `Display`
/// text, is `url_join` of the two texts.
#[verifier::external_body]
pub(crate) fn join_url(base: &str, reference: &str) -> (r: Result<String, String>)
    ensures
        text_result(r) == url_join(base@, reference@),
{
    match url::Url::parse(base) {
        Ok(b) => match b.join(reference) {
            Ok(u) => Ok(String::from(u)),
            Err(e) => Err(e.to_string()),
        },
        Err(e) => Err(e.to_string()),
    }
}

/// The serialization of the URL that `href` serializes after
/// `url::Url::set_scheme(scheme)`, or `None` where that call refuses.
pub uninterp spec fn url_with_scheme(href: Seq<char>, scheme: Seq<char>) -> Option<Seq<char>>;

/// Calls `url::Url::set_scheme` on the URL that `href` serializes. Claimed:
/// it succeeds exactly where `url_with_scheme` has a value, and then returns
/// that serialization.
#[verifier::external_body]
pub(crate) fn set_url_scheme(href: &str, scheme: &str) -> (r: Option<String>)
    ensures
        r is Some <==> url_with_scheme(href@, scheme@) is Some,
        r matches Some(h) ==> url_with_scheme(href@, scheme@) == Some(h@),
{
    match url::Url::parse(href) {
        Ok(mut u) => match u.set_scheme(scheme) {
            Ok(()) => Some(String::from(u)),
            Err(()) => None,
        },
        Err(_) => None,
    }
}

/// What `uuid::Uuid::parse_str` gives for `text`: the 128-bit value
/// (`Uuid::as_u128`) of the UUID, or the `Display` text of the error it
/// reports.
pub uninterp spec fn uuid_parse(text: Seq<char>) -> Result<u128, Seq<char>>;

/// Calls `uuid::Uuid::parse_str`. Claimed: the value, or the error's
/// `Display` text, is `uuid_parse` of the text.
#[verifier::external_body]
pub(crate) fn parse_uuid(text: &str) -> (r: Result<u128, String>)
    ensures
        with_message(r) == uuid_parse(text@),
{
    match uuid::Uuid::parse_str(text) {
        Ok(u) => Ok(u.as_u128()),
        Err(e) => Err(e.to_string()),
    }
}

/// The lowercase hexadecimal digit for `n` (0 to 15).
pub open spec fn hex_digit(n: int) -> char {
    if n < 10 {
        ('0' as int + n) as char
    } else {
        ('a' as int + (n - 10)) as char
    }
}

/// The last `count` hexadecimal digits of `v`, most significant first.
pub open spec fn hex_digits(v: nat, count: nat) -> Seq<char>
    decreases count,
{
    if count == 0 {
        Seq::empty()
    } else {
        hex_digits(v / 16, (count - 1) as nat).push(hex_digit((v % 16) as int))
    }
}

/// The hyphenated form of a UUID: its 32 lowercase hexadecimal digits in
/// groups of 8, 4, 4, 4 and 12, joined by `'-'`.
pub open spec fn uuid_hyphenated(v: u128) -> Seq<char> {
    let h = hex_digits(v as nat, 32);
    h.subrange(0, 8) + seq!['-'] + h.subrange(8, 12) + seq!['-'] + h.subrange(12, 16) + seq!['-']
        + h.subrange(16, 20) + seq!['-'] + h.subrange(20, 32)
}

/// Calls `Display` of `uuid::Uuid::from_u128(v)`. Claimed: it gives the
/// hyphenated lowercase form, as the crate's `Display` impl writes it.
#[verifier::external_body]
pub(crate) fn uuid_text(v: u128) -> (r: String)
    ensures
        r@ == uuid_hyphenated(v),
{
    uuid::Uuid::from_u128(v).to_string()
}

/// What `Debug` writes for a list of strings, such as `["a", "b"]`.
pub uninterp spec fn debug_strings(items: Seq<Seq<char>>) -> Seq<char>;

/// Calls `format!("{:?}", items)`. Claimed: the text is `debug_strings` of
/// the items, the quoting and escaping of `Debug` for strings included.
#[verifier::external_body]
pub(crate) fn debug_list(items: &Vec<String>) -> (r: String)
    ensures
        r@ == debug_strings(items.deep_view()),
{
    format!("{:?}", items)
}

} // verus!
