//! The lookup file: the two listings of `HeaderLookups` as a YAML document
//! with the keys `column_name_lookup` and `index_position_lookup`.

use vstd::prelude::*;
use vstd::string::*;
use crate::lookups::{HeaderLookups, lookups_of};
use crate::text::texts;

verus! {

/// `serde_yaml::Error`, the failure of an encoding.
#[verifier::external_type_specification]
#[verifier::external_body]
pub struct ExYamlError(serde_yaml::Error);

/// What `serde_yaml` makes of a mapping of two entries, the first from
/// `names_key` to a list of `[name, index]` pairs and the second from
/// `positions_key` to a list of `[index, name]` pairs: the YAML text it
/// emits, or `None` where it gives up on the value.
pub uninterp spec fn yaml_document(
    names_key: Seq<char>,
    names: Seq<(Seq<char>, int)>,
    positions_key: Seq<char>,
    positions: Seq<(int, Seq<char>)>,
) -> Option<Seq<char>>;

/// The encoding of the lookup file failed; `message` is the encoder's own
/// description of the failure.
#[derive(Debug)]
pub struct SerializationError {
    pub message: String,
}

/// The lookup file for a header row: under `column_name_lookup` the pairs
/// `[headers[i], i]`, under `index_position_lookup` the pairs
/// `[i, headers[i]]`, both in header order; `None` where the encoder gives
/// up on these lookups.
pub open spec fn lookup_document(headers: Seq<Seq<char>>) -> Option<Seq<char>> {
    yaml_document(
        "column_name_lookup"@,
        lookups_of(headers).by_name,
        "index_position_lookup"@,
        lookups_of(headers).by_index,
    )
}

/// Encodes the two listings as one YAML mapping.
///
/// Trusted: builds a `serde_yaml::Mapping` with `serde_yaml::to_value` of
/// each listing under its key, in the order given, and calls
/// `serde_yaml::to_string` on it. The contract claims only that the outcome
/// is determined by the keys and the listings: whether the encoder succeeds,
/// and with which text. It does not claim that the encoder succeeds.
#[verifier::external_body]
fn encode_listings(names_key: &str, positions_key: &str, lookups: &HeaderLookups) -> (r: Result<
    String,
    serde_yaml::Error,
>)
    ensures
        match r {
            Ok(text) => yaml_document(
                names_key@,
                lookups@.by_name,
                positions_key@,
                lookups@.by_index,
            ) == Some(text@),
            Err(_) => yaml_document(
                names_key@,
                lookups@.by_name,
                positions_key@,
                lookups@.by_index,
            ) is None,
        },
{
    let mut document = serde_yaml::Mapping::new();
    document.insert(names_key.into(), serde_yaml::to_value(&lookups.column_name_lookup)?);
    document.insert(positions_key.into(), serde_yaml::to_value(&lookups.index_position_lookup)?);
    serde_yaml::to_string(&document)
}

/// The encoder's description of a failure.
///
/// Trusted: calls `to_string` of `serde_yaml::Error`; nothing is claimed of
/// the text.
#[verifier::external_body]
fn failure_text(error: &serde_yaml::Error) -> (r: String) {
    error.to_string()
}

/// Appends an encoded document to `out`, or reports why there is none.
/// On failure `out` is left as it was.
pub fn append_encoded(out: &mut String, encoded: Result<String, serde_yaml::Error>) -> (r: Result<
    (),
    SerializationError,
>)
    ensures
        match encoded {
            Ok(text) => r is Ok && final(out)@ == old(out)@ + text@,
            Err(_) => r is Err && final(out)@ == old(out)@,
        },
{
    match encoded {
        Ok(text) => {
            out.append(text.as_str());
            Ok(())
        },
        Err(error) => Err(SerializationError { message: failure_text(&error) }),
    }
}

/// Appends the lookup file for `headers` to `out`.
///
/// Succeeds exactly when the encoder yields a document for the lookups of
/// `headers`, and then appends that document; otherwise `out` is left as it
/// was.
pub fn write_yaml(out: &mut String, headers: &Vec<String>) -> (r: Result<(), SerializationError>)
    ensures
        match lookup_document(texts(headers@)) {
            Some(document) => r is Ok && final(out)@ == old(out)@ + document,
            None => r is Err && final(out)@ == old(out)@,
        },
{
    let lookups = HeaderLookups::from_headers(headers);
    let encoded = encode_listings("column_name_lookup", "index_position_lookup", &lookups);
    append_encoded(out, encoded)
}

} // verus!
