//! Reading a license document out of JSON text.
//!
//! The text is parsed by `serde_json`; which members a license has, which
//! types they must hold and what an absent member stands for is decided here.

use crate::license::{blank_license, License, LicenseError, LicenseModel};
use vstd::prelude::*;

verus! {

/// `serde_json::Value`: a parsed JSON value, opaque to the verifier.
#[verifier::external_type_specification]
#[verifier::external_body]
pub struct ExJsonValue(serde_json::Value);

/// `serde_json::Error`: why a text could not be parsed.
#[verifier::external_type_specification]
#[verifier::external_body]
pub struct ExJsonError(serde_json::Error);

/// What a member of a JSON object holds, as far as a license reads it: a
/// boolean, a string, or a value of another kind.
pub ghost enum JsonMember {
    Flag(bool),
    Text(Seq<char>),
    Other,
}

/// What `serde_json::from_str` makes of a text: `None` where it reports an
/// error, `Some(None)` for a JSON value that is no object, else the members of
/// the object.
pub uninterp spec fn json_document(text: Seq<char>) -> Option<Option<Map<Seq<char>, JsonMember>>>;

/// The members that a `serde_json::Value` holds under their keys, `None`
/// where the value is no object.
pub uninterp spec fn object_members(value: serde_json::Value) -> Option<Map<Seq<char>, JsonMember>>;

/// What a `serde_json::Value` holds when it is read as a member.
pub uninterp spec fn member_of(value: serde_json::Value) -> JsonMember;

/// The member under a key, if there is one.
pub open spec fn member_at(members: Map<Seq<char>, JsonMember>, key: Seq<char>) -> Option<
    JsonMember,
> {
    if members.contains_key(key) {
        Some(members[key])
    } else {
        None
    }
}

/// The boolean that a member holds, if it holds one.
pub open spec fn flag_in(member: JsonMember) -> Option<bool> {
    match member {
        JsonMember::Flag(b) => Some(b),
        _ => None,
    }
}

/// The string that a member holds, if it holds one.
pub open spec fn text_in(member: JsonMember) -> Option<Seq<char>> {
    match member {
        JsonMember::Text(s) => Some(s),
        _ => None,
    }
}

/// An optional text as a mathematical value.
pub open spec fn text_model(text: Option<String>) -> Option<Seq<char>> {
    match text {
        Some(s) => Some(s@),
        None => None,
    }
}

/// What was found under a key that should hold a text, as a mathematical
/// value: `None` for an absent key, `Some(None)` for a value that is no text.
pub open spec fn found_text_model(found: Option<Option<String>>) -> Option<Option<Seq<char>>> {
    match found {
        Some(inner) => Some(text_model(inner)),
        None => None,
    }
}

/// Calls `serde_json::from_str` for a `serde_json::Value`. Trusted: an error
/// comes exactly where the text has no named parse, and a value that comes
/// holds the members that the named parse gives.
#[verifier::external_body]
fn parse_document(text: &str) -> (r: Result<serde_json::Value, serde_json::Error>)
    ensures
        match r {
            Ok(value) => json_document(text@) == Some(object_members(value)),
            Err(_) => json_document(text@) is None,
        },
{
    serde_json::from_str(text)
}

/// Calls `serde_json::Value::is_object`. Trusted: true exactly where the
/// value has members.
#[verifier::external_body]
fn is_object(value: &serde_json::Value) -> (r: bool)
    ensures
        r == object_members(*value) is Some,
{
    value.is_object()
}

/// Calls `serde_json::Value::get` with a string key. Trusted: in an object the
/// result is the member under the key, if there is one; in any other value
/// there is none.
#[verifier::external_body]
fn member<'a>(value: &'a serde_json::Value, key: &str) -> (r: Option<&'a serde_json::Value>)
    ensures
        match object_members(*value) {
            Some(members) => match r {
                Some(found) => member_at(members, key@) == Some(member_of(*found)),
                None => member_at(members, key@) is None,
            },
            None => r is None,
        },
{
    value.get(key)
}

/// Calls `serde_json::Value::as_bool`. Trusted: the result is the boolean that
/// the value holds, if it holds one.
#[verifier::external_body]
fn as_flag(value: &serde_json::Value) -> (r: Option<bool>)
    ensures
        r == flag_in(member_of(*value)),
{
    value.as_bool()
}

/// Calls `serde_json::Value::as_str` and copies the text. Trusted: the result
/// is the string that the value holds, if it holds one.
#[verifier::external_body]
fn as_text(value: &serde_json::Value) -> (r: Option<String>)
    ensures
        text_model(r) == text_in(member_of(*value)),
{
    value.as_str().map(str::to_owned)
}

/// What an object holds under a key that should be a flag: `None` for an
/// absent key, `Some(None)` for a value that is no boolean.
pub open spec fn found_flag(members: Map<Seq<char>, JsonMember>, key: Seq<char>) -> Option<
    Option<bool>,
> {
    match member_at(members, key) {
        Some(member) => Some(flag_in(member)),
        None => None,
    }
}

/// What an object holds under a key that should be a text: `None` for an
/// absent key, `Some(None)` for a value that is no string.
pub open spec fn found_text(members: Map<Seq<char>, JsonMember>, key: Seq<char>) -> Option<
    Option<Seq<char>>,
> {
    match member_at(members, key) {
        Some(member) => Some(text_in(member)),
        None => None,
    }
}

/// Whether what was found under a key fits the schema: the key is absent, or
/// its value has the right type.
pub open spec fn fits<T>(found: Option<Option<T>>) -> bool {
    !(found matches Some(None))
}

/// The flag that a member stands for: false where the key is absent.
pub open spec fn flag_or_default(found: Option<Option<bool>>) -> bool {
    match found {
        Some(Some(b)) => b,
        _ => false,
    }
}

/// The text that a member stands for: empty where the key is absent.
pub open spec fn text_or_default(found: Option<Option<Seq<char>>>) -> Seq<char> {
    match found {
        Some(Some(s)) => s,
        _ => Seq::empty(),
    }
}

/// The license that seven members stand for: an error where one of them has
/// the wrong type, else the record with each absent member at its default.
pub open spec fn license_of_members(
    deprecated: Option<Option<bool>>,
    free: Option<Option<bool>>,
    full_name: Option<Option<Seq<char>>>,
    redistributable: Option<Option<bool>>,
    short_name: Option<Option<Seq<char>>>,
    spdx_id: Option<Option<Seq<char>>>,
    url: Option<Option<Seq<char>>>,
) -> Result<LicenseModel, LicenseError> {
    if fits(deprecated) && fits(free) && fits(full_name) && fits(redistributable) && fits(
        short_name,
    ) && fits(spdx_id) && fits(url) {
        Ok(
            LicenseModel {
                deprecated: flag_or_default(deprecated),
                free: flag_or_default(free),
                full_name: text_or_default(full_name),
                redistributable: flag_or_default(redistributable),
                short_name: text_or_default(short_name),
                spdx_id: text_or_default(spdx_id),
                url: text_or_default(url),
            },
        )
    } else {
        Err(LicenseError::SchemaMismatch)
    }
}

/// The license that an object with the given members stands for. Members
/// under other keys than the seven do not count.
pub open spec fn license_of_object(members: Map<Seq<char>, JsonMember>) -> Result<
    LicenseModel,
    LicenseError,
> {
    license_of_members(
        found_flag(members, "deprecated"@),
        found_flag(members, "free"@),
        found_text(members, "fullName"@),
        found_flag(members, "redistributable"@),
        found_text(members, "shortName"@),
        found_text(members, "spdxId"@),
        found_text(members, "url"@),
    )
}

/// The license that a parsed text stands for: a schema mismatch where the
/// text is JSON but no object.
pub open spec fn license_of_document(doc: Option<Map<Seq<char>, JsonMember>>) -> Result<
    LicenseModel,
    LicenseError,
> {
    match doc {
        Some(members) => license_of_object(members),
        None => Err(LicenseError::SchemaMismatch),
    }
}

/// The license that a text stands for.
pub open spec fn license_of_text(text: Seq<char>) -> Result<LicenseModel, LicenseError> {
    match json_document(text) {
        Some(doc) => license_of_document(doc),
        None => Err(LicenseError::NotJson),
    }
}

/// A license, or the reason why there is none, as a mathematical value.
pub open spec fn license_result_model(r: Result<License, LicenseError>) -> Result<
    LicenseModel,
    LicenseError,
> {
    match r {
        Ok(license) => Ok(license@),
        Err(e) => Err(e),
    }
}

/// Looks a flag up in an object.
fn find_flag(doc: &serde_json::Value, key: &str) -> (r: Option<Option<bool>>)
    requires
        object_members(*doc) is Some,
    ensures
        r == found_flag(object_members(*doc)->Some_0, key@),
{
    match member(doc, key) {
        Some(value) => Some(as_flag(value)),
        None => None,
    }
}

/// Looks a text up in an object.
fn find_text(doc: &serde_json::Value, key: &str) -> (r: Option<Option<String>>)
    requires
        object_members(*doc) is Some,
    ensures
        found_text_model(r) == found_text(object_members(*doc)->Some_0, key@),
{
    match member(doc, key) {
        Some(value) => Some(as_text(value)),
        None => None,
    }
}

/// The text of a member, empty where the key is absent or holds no string.
fn text_of(found: Option<Option<String>>) -> (r: String)
    ensures
        r@ == text_or_default(found_text_model(found)),
{
    match found {
        Some(Some(s)) => s,
        _ => String::new(),
    }
}

/// The flag of a member, false where the key is absent or holds no boolean.
fn flag_of(found: Option<Option<bool>>) -> (r: bool)
    ensures
        r == flag_or_default(found),
{
    match found {
        Some(Some(b)) => b,
        _ => false,
    }
}

/// Whether a value was found that has the wrong type.
fn misfits<T>(found: &Option<Option<T>>) -> (r: bool)
    ensures
        r == !fits(*found),
{
    match found {
        Some(None) => true,
        _ => false,
    }
}

/// Builds a license from what a document holds under the seven known keys.
///
/// For each key the argument is `None` where the key is absent, `Some(None)`
/// where its value has the wrong type, and the value otherwise. A value of the
/// wrong type is a schema mismatch; an absent key gives `false` or the empty
/// text. With all seven absent the result is the blank license.
pub fn license_from_members(
    deprecated: Option<Option<bool>>,
    free: Option<Option<bool>>,
    full_name: Option<Option<String>>,
    redistributable: Option<Option<bool>>,
    short_name: Option<Option<String>>,
    spdx_id: Option<Option<String>>,
    url: Option<Option<String>>,
) -> (r: Result<License, LicenseError>)
    ensures
        license_result_model(r) == license_of_members(
            deprecated,
            free,
            found_text_model(full_name),
            redistributable,
            found_text_model(short_name),
            found_text_model(spdx_id),
            found_text_model(url),
        ),
        deprecated is None && free is None && full_name is None && redistributable is None
            && short_name is None && spdx_id is None && url is None ==> license_result_model(r)
            == Ok::<LicenseModel, LicenseError>(blank_license()),
{
    if misfits(&deprecated) || misfits(&free) || misfits(&full_name) || misfits(&redistributable)
        || misfits(&short_name) || misfits(&spdx_id) || misfits(&url) {
        return Err(LicenseError::SchemaMismatch);
    }
    Ok(
        License {
            deprecated: flag_of(deprecated),
            free: flag_of(free),
            full_name: text_of(full_name),
            redistributable: flag_of(redistributable),
            short_name: text_of(short_name),
            spdx_id: text_of(spdx_id),
            url: text_of(url),
        },
    )
}

/// Reads the license out of a parsed document: a schema mismatch where the
/// document is no object, else what its members stand for.
fn license_from_document(doc: &serde_json::Value) -> (r: Result<License, LicenseError>)
    ensures
        license_result_model(r) == license_of_document(object_members(*doc)),
{
    if !is_object(doc) {
        return Err(LicenseError::SchemaMismatch);
    }
    license_from_members(
        find_flag(doc, "deprecated"),
        find_flag(doc, "free"),
        find_text(doc, "fullName"),
        find_flag(doc, "redistributable"),
        find_text(doc, "shortName"),
        find_text(doc, "spdxId"),
        find_text(doc, "url"),
    )
}

/// Reads a license document.
///
/// `NotJson` exactly where the text is no JSON; `SchemaMismatch` exactly where
/// it is JSON but no object, or an object in which a known key holds a value of
/// the wrong type; else the license, with each absent member at its default.
/// Keys that the schema does not know are ignored.
pub fn parse_license(text: &str) -> (r: Result<License, LicenseError>)
    ensures
        license_result_model(r) == license_of_text(text@),
{
    match parse_document(text) {
        Ok(doc) => license_from_document(&doc),
        Err(_) => Err(LicenseError::NotJson),
    }
}

} // verus!
