//! What this library takes on trust from the crates it calls.
//!
//! Nothing here is proved. Each item states what the named function of the
//! outside crate does, as far as the rest of the library relies on it.

use vstd::prelude::*;

verus! {

/// The error that `htmlescape::decode_html` reports. The library only looks
/// at whether decoding failed, never at what the error holds.
#[verifier::external_type_specification]
#[verifier::external_body]
pub struct ExDecodeErr(htmlescape::DecodeErr);

/// The text that `htmlescape::decode_html` makes of `text`: every HTML
/// entity (`&amp;`, `&#62;`, `&#x3e;`, ...) replaced by the character it
/// stands for. `None` where the function reports a malformed entity.
pub uninterp spec fn html_decoded(text: Seq<char>) -> Option<Seq<char>>;

/// `htmlescape::decode_html` depends on its argument alone: it returns the
/// decoded text, or an error where an entity is unknown, malformed or left
/// open.
pub assume_specification[ htmlescape::decode_html ](s: &str) -> (r: Result<
    String,
    htmlescape::DecodeErr,
>)
    ensures
        match r {
            Ok(decoded) => html_decoded(s@) == Some(decoded@),
            Err(_) => html_decoded(s@) is None,
        },
;

/// The text that `voca_rs::strip::strip_tags` makes of `text`: the text
/// without its HTML tags.
pub uninterp spec fn tags_stripped(text: Seq<char>) -> Seq<char>;

/// The length, in characters, from which on `voca_rs::strip::strip_tags` is
/// not called: it counts the `<` that are open in a 32-bit number.
pub const STRIP_TAGS_LIMIT: usize = 0x7fff_ffff;

/// `voca_rs::strip::strip_tags` depends on its argument alone and returns
/// the text with every HTML tag left out. Texts so long that its count of
/// open `<` could overflow are not handed to it.
pub assume_specification[ voca_rs::strip::strip_tags ](subject: &str) -> (r: String)
    requires
        subject@.len() < STRIP_TAGS_LIMIT,
    ensures
        r@ == tags_stripped(subject@),
;

/// How chrono writes the moment `secs` seconds after the start of 1970 in
/// UTC with the format `%m/%d/%y(%a)%H:%M:%S`. `None` where the moment lies
/// outside the dates that chrono can hold.
pub uninterp spec fn utc_time_text(secs: i64) -> Option<Seq<char>>;

/// `chrono::DateTime::from_timestamp` makes the UTC date and time of a
/// timestamp, or `None` where it is out of range; `DateTime::format` then
/// writes it. Both depend on the timestamp alone: UTC knows no time zone
/// rules and the day names are always the English ones.
#[verifier::external_body]
pub(crate) fn utc_time(secs: i64) -> (r: Option<String>)
    ensures
        match r {
            Some(text) => utc_time_text(secs) == Some(text@),
            None => utc_time_text(secs) is None,
        },
{
    match chrono::DateTime::from_timestamp(secs, 0) {
        Some(time) => Some(time.format("%m/%d/%y(%a)%H:%M:%S").to_string()),
        None => None,
    }
}

} // verus!
