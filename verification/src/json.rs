use vstd::prelude::*;

verus! {

#[verifier::external_type_specification]
#[verifier::external_body]
pub struct ExValue(serde_json::Value);

/// Whether a byte sequence is a well-formed JSON document, in the sense of
/// `serde_json`'s parser accepting it.
pub uninterp spec fn json_wf(bytes: Seq<u8>) -> bool;

/// The JSON value that a well-formed byte sequence parses to.
pub uninterp spec fn json_value_of(bytes: Seq<u8>) -> serde_json::Value;

/// The diagnostic that parsing a malformed byte sequence reports.
pub uninterp spec fn json_error_of(bytes: Seq<u8>) -> Seq<char>;

/// Relies on `serde_json::from_slice::<Value>`: parses an in-memory byte
/// sequence as a JSON document; acceptance, the parsed value and the
/// diagnostic of a malformed document all depend on the bytes alone.
#[verifier::external_body]
pub(crate) fn parse_json_value(bytes: &Vec<u8>) -> (r: Result<serde_json::Value, String>)
    ensures
        r is Ok <==> json_wf(bytes@),
        r matches Ok(v) ==> v == json_value_of(bytes@),
        r matches Err(m) ==> m@ == json_error_of(bytes@),
{
    match serde_json::from_slice::<serde_json::Value>(bytes.as_slice()) {
        Ok(v) => Ok(v),
        Err(e) => Err(format!("{}", e)),
    }
}

} // verus!
