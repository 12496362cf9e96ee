//! The HTTP header maps of responses and requests, as the rest of the library
//! sees them: a map from lower-case field name to the field's values, in the
//! order in which they arrived.
use reqwest::header::HeaderMap;
use reqwest::header::HeaderValue;
use vstd::prelude::*;
use vstd::string::StringSliceAdditionalSpecFns;

verus! {

#[verifier::external_type_specification]
#[verifier::external_body]
#[verifier::reject_recursive_types(T)]
pub struct ExHeaderMap<T>(HeaderMap<T>);

#[verifier::external_type_specification]
#[verifier::external_body]
pub struct ExHeaderValue(HeaderValue);

/// What a header map holds: for each field name, in lower case, the raw bytes
/// of its values in the order in which they were added.
pub uninterp spec fn header_fields(h: HeaderMap) -> Map<Seq<char>, Seq<Seq<u8>>>;

/// A byte that `HeaderValue::to_str` accepts: visible ASCII or a tab.
pub open spec fn is_visible_ascii(b: u8) -> bool {
    (32 <= b && b < 127) || b == 9
}

/// A byte that `HeaderValue::from_str` accepts: anything but a control
/// character other than a tab.
pub open spec fn is_header_value_byte(b: u8) -> bool {
    (32 <= b && b != 127) || b == 9
}

/// Bytes that `HeaderValue::from_str` accepts as a value.
pub open spec fn is_header_value(bytes: Seq<u8>) -> bool {
    forall|i: int| 0 <= i < bytes.len() ==> is_header_value_byte(#[trigger] bytes[i])
}

/// The fields of a map that holds one value, under one name.
pub open spec fn single_field(name: Seq<char>, value: Seq<u8>) -> Map<Seq<char>, Seq<Seq<u8>>> {
    Map::empty().insert(name, seq![value])
}

/// A field name as a header map stores it: no upper-case ASCII letter.
pub open spec fn is_lower_case(name: Seq<char>) -> bool {
    forall|i: int| 0 <= i < name.len() ==> !('A' <= #[trigger] name[i] && name[i] <= 'Z')
}

/// A name that `HeaderName` accepts unchanged and parses without its length
/// limit in play: one to 64 lower-case letters, digits and `-`.
pub open spec fn is_plain_field_name(name: Seq<char>) -> bool {
    &&& 0 < name.len() <= 64
    &&& forall|i: int|
        0 <= i < name.len() ==> ('a' <= #[trigger] name[i] && name[i] <= 'z') || ('0' <= name[i]
            && name[i] <= '9') || name[i] == '-'
}

/// The text of the first value of field `name`, when that value is visible
/// ASCII throughout.
pub open spec fn field_text(fields: Map<Seq<char>, Seq<Seq<u8>>>, name: Seq<char>) -> Option<
    Seq<char>,
> {
    if fields.contains_key(name) && fields[name].len() > 0 && (forall|i: int|
        0 <= i < fields[name][0].len() ==> is_visible_ascii(#[trigger] fields[name][0][i])) {
        Some(fields[name][0].map_values(|b: u8| b as char))
    } else {
        None
    }
}

/// Relies on `HeaderMap::get`, which finds a field by its name without regard
/// to case and gives its first value, and on `HeaderValue::to_str`, which
/// gives that value as text exactly when every byte is visible ASCII or a tab.
#[verifier::external_body]
pub(crate) fn header_text(headers: &HeaderMap, name: &str) -> (r: Option<String>)
    requires
        is_lower_case(name@),
    ensures
        match field_text(header_fields(*headers), name@) {
            Some(t) => r is Some && r->Some_0@ == t,
            None => r is None,
        },
{
    match headers.get(name) {
        Some(value) => match value.to_str() {
            Ok(text) => Some(text.to_string()),
            Err(_) => None,
        },
        None => None,
    }
}

/// Relies on `HeaderValue::from_str`, which accepts a value exactly when no
/// byte of it is a control character other than a tab, and on `HeaderMap::new`
/// and `HeaderMap::append`, which give a map holding that one value under
/// `name`.
#[verifier::external_body]
pub(crate) fn header_map_with(name: &'static str, value: &str) -> (r: Option<HeaderMap>)
    requires
        is_plain_field_name(name@),
    ensures
        (r is Some) == is_header_value(value.spec_bytes()),
        r is Some ==> header_fields(r->Some_0) == single_field(name@, value.spec_bytes()),
{
    match HeaderValue::from_str(value) {
        Ok(value) => {
            let mut headers = HeaderMap::new();
            headers.append(name, value);
            Some(headers)
        },
        Err(_) => None,
    }
}

} // verus!
