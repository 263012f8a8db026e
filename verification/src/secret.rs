//! Secret decryption: a password is used as it stands unless it carries the
//! `ENC(<base64>)` wrapper, in which case the wrapped ciphertext is handed to
//! the key-management collaborator and the reply's plaintext takes its place.
//!
//! The collaborator's network call happens outside this crate; the functions
//! here decide whether a call is needed, what ciphertext it must carry, and
//! what every possible reply means.
use vstd::prelude::*;
use crate::errors::NacosError;
use crate::strutil::{
    starts_with_seq, str_starts_with, strip_prefix_once, strip_prefix_one, strip_suffix_char_once,
    strip_suffix_char_one,
};
use vstd::utf8::{valid_utf8, decode_utf8};

verus! {

/// The password carries the encryption wrapper marker.
pub open spec fn is_wrapped(password: Seq<char>) -> bool {
    starts_with_seq(password, "ENC("@)
}

/// The ciphertext payload of a wrapped password: the leading marker removed,
/// then one trailing closing delimiter, where present.
pub open spec fn wrapped_payload(password: Seq<char>) -> Seq<char> {
    strip_suffix_char_one(strip_prefix_one(password, "ENC("@), ')')
}

/// What `base64`'s standard-alphabet, padded decoding yields on a string:
/// `None` where the string is not valid base64.
pub uninterp spec fn base64_standard_decoded(s: Seq<char>) -> Option<Seq<u8>>;

/// Relies on `base64`'s `STANDARD` engine `decode`: whether a string decodes,
/// and to which bytes, depends on the string alone; the error text is the
/// engine's own diagnostic.
#[verifier::external_body]
fn base64_decode(s: &str) -> (r: Result<Vec<u8>, String>)
    ensures
        r is Ok <==> base64_standard_decoded(s@) is Some,
        r matches Ok(v) ==> base64_standard_decoded(s@) == Some(v@),
{
    match base64::Engine::decode(&base64::engine::general_purpose::STANDARD, s) {
        Ok(v) => Ok(v),
        Err(e) => Err(e.to_string()),
    }
}

/// Relies on `String::from_utf8` (std): it succeeds exactly on valid UTF-8
/// bytes and returns their decoding; the error text is std's own rendering,
/// which names the offending position, not the bytes.
#[verifier::external_body]
fn string_from_utf8(bytes: Vec<u8>) -> (r: Result<String, String>)
    ensures
        r is Ok <==> valid_utf8(bytes@),
        r matches Ok(s) ==> s@ == decode_utf8(bytes@),
{
    match String::from_utf8(bytes) {
        Ok(s) => Ok(s),
        Err(e) => Err(e.to_string()),
    }
}

/// What the password needs before the connection can be built: either it is
/// already plain, or the key-management collaborator must decrypt `ciphertext`
/// under `key_id`.
pub enum DecryptionPlan {
    /// The password as given; no collaborator call is needed.
    Plain(String),
    /// One decrypt call is needed, with exactly this key and ciphertext.
    Kms { key_id: String, ciphertext: Vec<u8> },
}

/// Decides the decryption plan for a password. A plain password passes through
/// unchanged; a wrapped one requires the key identifier and a payload that is
/// valid base64, and yields the ciphertext for the collaborator.
pub fn classify_password(password: &str, kms_key_id: Option<String>) -> (r: Result<
    DecryptionPlan,
    NacosError,
>)
    ensures
        !is_wrapped(password@) ==> (r matches Ok(DecryptionPlan::Plain(p)) && p@ == password@),
        is_wrapped(password@) && kms_key_id is None ==> (r matches Err(e)
            && e matches NacosError::EnvVarError(m) && m@ == "KMS_KEY_ID not set"@),
        is_wrapped(password@) ==> (kms_key_id matches Some(k) ==> match base64_standard_decoded(
            wrapped_payload(password@),
        ) {
            Some(bytes) => r matches Ok(DecryptionPlan::Kms { key_id, ciphertext })
                && key_id@ == k@ && ciphertext@ == bytes,
            None => r matches Err(e) && e matches NacosError::Base64DecodeError(m)
                && starts_with_seq(
                m@,
                "Failed to decode base64: "@ + wrapped_payload(password@) + ": "@,
            ),
        }),
{
    if !str_starts_with(password, "ENC(") {
        return Ok(DecryptionPlan::Plain(password.to_owned()));
    }
    let key = match kms_key_id {
        Some(k) => k,
        None => {
            return Err(NacosError::EnvVarError("KMS_KEY_ID not set".to_owned()));
        },
    };
    let stripped = strip_prefix_once(password, "ENC(");
    let payload = strip_suffix_char_once(stripped.as_str(), ')');
    match base64_decode(payload.as_str()) {
        Ok(bytes) => Ok(DecryptionPlan::Kms { key_id: key, ciphertext: bytes }),
        Err(diagnostic) => {
            let msg = "Failed to decode base64: ".to_owned().concat(payload.as_str()).concat(
                ": ",
            ).concat(diagnostic.as_str());
            proof {
                let head = "Failed to decode base64: "@ + payload@ + ": "@;
                assert(msg@.subrange(0, head.len() as int) =~= head);
            }
            Err(NacosError::Base64DecodeError(msg))
        },
    }
}

/// Every way the key-management decrypt call can end, as the surrounding
/// binary reports it: the transport failed with some diagnostic, or a reply
/// came back carrying an optional plaintext blob.
pub enum KmsOutcome {
    /// The decrypt request itself failed; the payload is the diagnostic text.
    Failed(String),
    /// A reply arrived; the collaborator may or may not have sent plaintext.
    Returned(Option<Vec<u8>>),
}

/// Turns the key-management collaborator's reply into the decrypted password:
/// a failed call or a reply without plaintext is a key-management error, a
/// plaintext that is not UTF-8 text is a conversion error, and valid bytes
/// decode to the result — whatever the collaborator sent.
pub fn plaintext_from_kms(outcome: KmsOutcome) -> (r: Result<String, NacosError>)
    ensures
        outcome matches KmsOutcome::Failed(t) ==> (r matches Err(e)
            && e matches NacosError::KmsError(m)
            && m@ == "Failed to decrypt blob from kms: "@ + t@),
        outcome matches KmsOutcome::Returned(None::<Vec<u8>>) ==> (r matches Err(e)
            && e matches NacosError::KmsError(m)
            && m@ == "Failed to get plaintext from kms's response"@),
        outcome matches KmsOutcome::Returned(Some(b)) ==> (if valid_utf8(b@) {
            r matches Ok(s) && s@ == decode_utf8(b@)
        } else {
            r matches Err(e) && e matches NacosError::Utf8Error(m)
                && starts_with_seq(m@, "Could not convert to UTF-8: "@)
        }),
{
    match outcome {
        KmsOutcome::Failed(t) => {
            let msg = "Failed to decrypt blob from kms: ".to_owned().concat(t.as_str());
            Err(NacosError::KmsError(msg))
        },
        KmsOutcome::Returned(None) => {
            Err(NacosError::KmsError("Failed to get plaintext from kms's response".to_owned()))
        },
        KmsOutcome::Returned(Some(bytes)) => {
            match string_from_utf8(bytes) {
                Ok(s) => Ok(s),
                Err(diagnostic) => {
                    let msg = "Could not convert to UTF-8: ".to_owned().concat(diagnostic.as_str());
                    proof {
                        let head = "Could not convert to UTF-8: "@;
                        assert(msg@.subrange(0, head.len() as int) =~= head);
                    }
                    Err(NacosError::Utf8Error(msg))
                },
            }
        },
    }
}

/// The whole decryption sub-flow as one function of the password, the optional
/// key identifier, and the plaintext the key-management collaborator would
/// return for the wrapped ciphertext: `None` where some stage fails, otherwise
/// the password the pipeline goes on with.
pub open spec fn decryption_result(
    password: Seq<char>,
    key_id: Option<Seq<char>>,
    kms_plaintext: Option<Seq<u8>>,
) -> Option<Seq<char>> {
    if !is_wrapped(password) {
        Some(password)
    } else if key_id is None {
        None
    } else if base64_standard_decoded(wrapped_payload(password)) is None {
        None
    } else {
        match kms_plaintext {
            None => None,
            Some(b) => if valid_utf8(b) {
                Some(decode_utf8(b))
            } else {
                None
            },
        }
    }
}

/// A password without the wrapper marker decrypts to itself, whatever the key
/// identifier and whatever the key-management collaborator would say: the
/// collaborator is never consulted.
pub proof fn lemma_plain_password_unchanged(
    password: Seq<char>,
    key_id: Option<Seq<char>>,
    kms_plaintext: Option<Seq<u8>>,
)
    requires
        !is_wrapped(password),
    ensures
        decryption_result(password, key_id, kms_plaintext) == Some(password),
{
}

/// For a wrapped password whose payload is valid base64, the decryption's
/// result is exactly the plaintext the key-management collaborator returns
/// for that ciphertext, decoded as UTF-8 text.
pub proof fn lemma_wrapped_password_decrypts_to_kms_plaintext(
    password: Seq<char>,
    key_id: Seq<char>,
    plaintext: Seq<u8>,
)
    requires
        is_wrapped(password),
        base64_standard_decoded(wrapped_payload(password)) is Some,
        valid_utf8(plaintext),
    ensures
        decryption_result(password, Some(key_id), Some(plaintext)) == Some(decode_utf8(plaintext)),
{
}

/// A wrapped payload that is not valid base64 fails the decryption outright:
/// no reply from the key-management collaborator could make it succeed.
pub proof fn lemma_invalid_base64_never_decrypts(
    password: Seq<char>,
    key_id: Option<Seq<char>>,
    kms_plaintext: Option<Seq<u8>>,
)
    requires
        is_wrapped(password),
        base64_standard_decoded(wrapped_payload(password)) is None,
    ensures
        decryption_result(password, key_id, kms_plaintext) is None,
{
}

} // verus!
