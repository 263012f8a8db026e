//! Deserialization of validated document content into the caller's type, and
//! the classification of a refusal as a parse error carrying the raw content.
use vstd::prelude::*;
use crate::errors::NacosError;
use crate::strutil::starts_with_seq;

verus! {

/// Relies on `serde_json::from_str`: deserializes JSON text into the caller's
/// type, or reports the parser's diagnostic as text. Whether a given text
/// suits `T` is the deserializer's decision, so nothing is promised of the
/// outcome.
#[verifier::external_body]
fn json_from_str<T: serde::de::DeserializeOwned>(content: &str) -> (r: Result<T, String>) {
    match serde_json::from_str::<T>(content) {
        Ok(v) => Ok(v),
        Err(e) => Err(e.to_string()),
    }
}

/// Deserializes document content into the caller's type. Whether the content
/// suits `T` is the deserializer's decision; whenever it declines, the result
/// is exactly one parse error whose message carries the raw content, then the
/// deserializer's diagnostic.
pub fn parse_config<T: serde::de::DeserializeOwned>(content: &str) -> (r: Result<T, NacosError>)
    ensures
        r matches Err(e) ==> (e matches NacosError::ConfigParseError(m) && starts_with_seq(
            m@,
            "Failed to parse config from nacos: "@ + content@ + ": "@,
        )),
{
    match json_from_str::<T>(content) {
        Ok(v) => Ok(v),
        Err(diagnostic) => {
            let msg = "Failed to parse config from nacos: ".to_owned().concat(content).concat(
                ": ",
            ).concat(diagnostic.as_str());
            proof {
                let head = "Failed to parse config from nacos: "@ + content@ + ": "@;
                assert(msg@.subrange(0, head.len() as int) =~= head);
            }
            Err(NacosError::ConfigParseError(msg))
        },
    }
}

} // verus!
