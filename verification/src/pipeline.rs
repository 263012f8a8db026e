//! The retrieval pipeline's decisions: which environment variables are
//! required and in what order their absence aborts, how the server address is
//! normalized, when the key-management collaborator must be consulted, and
//! which error each fetch-stage failure produces.
//!
//! The surrounding binary reads the process environment and performs the two
//! network calls; everything it must decide it asks of the functions here.
use vstd::prelude::*;
use crate::errors::NacosError;
use crate::secret::{
    DecryptionPlan, KmsOutcome, base64_standard_decoded, classify_password, is_wrapped,
    plaintext_from_kms, wrapped_payload,
};
use crate::parse::parse_config;
use crate::strutil::{starts_with_seq, str_starts_with, strip_prefix_once, strip_prefix_one};
use crate::validate::{ConfigDocument, first_mismatch, mismatch_message, validate_config};
use vstd::utf8::{decode_utf8, valid_utf8};

verus! {

/// The raw environment values the pipeline reads, each absent or present.
pub struct EnvInputs {
    pub addr: Option<String>,
    pub group: Option<String>,
    pub namespace: Option<String>,
    pub username: Option<String>,
    pub password: Option<String>,
    pub data_id: Option<String>,
    pub kms_key_id: Option<String>,
}

/// The completed settings the fetch runs with: the address without its
/// scheme, and the password already decrypted.
pub struct EnvironmentSettings {
    pub server_addr: String,
    pub group: String,
    pub namespace: String,
    pub username: String,
    pub password: String,
    pub data_id: String,
}

/// The address with one leading `http://` scheme removed, or else one leading
/// `https://` scheme; an address without a scheme is unchanged.
pub open spec fn scheme_stripped(addr: Seq<char>) -> Seq<char> {
    if starts_with_seq(addr, "http://"@) {
        strip_prefix_one(addr, "http://"@)
    } else {
        strip_prefix_one(addr, "https://"@)
    }
}

/// The error message for the first absent variable among the five read before
/// decryption, in reading order; `None` where all five are present.
pub open spec fn first_missing_base_var(env: EnvInputs) -> Option<Seq<char>> {
    if env.addr is None {
        Some("NACOS_ADDR not set"@)
    } else if env.group is None {
        Some("NACOS_GROUP not set"@)
    } else if env.namespace is None {
        Some("NACOS_NAMESPACE not set"@)
    } else if env.username is None {
        Some("NACOS_USERNAME not set"@)
    } else if env.password is None {
        Some("NACOS_PASSWORD not set"@)
    } else {
        None
    }
}

/// The settings assembled from the given pieces: the address normalized, every
/// other field carried over, the password the decrypted one.
pub open spec fn settings_assembled(
    s: EnvironmentSettings,
    addr: Seq<char>,
    group: Seq<char>,
    namespace: Seq<char>,
    username: Seq<char>,
    password: Seq<char>,
    data_id: Seq<char>,
) -> bool {
    s.server_addr@ == scheme_stripped(addr) && s.group@ == group && s.namespace@ == namespace
        && s.username@ == username && s.password@ == password && s.data_id@ == data_id
}

/// The server address as the configuration-service client expects it: a bare
/// host and port, the leading scheme stripped.
pub fn normalize_server_addr(addr: &str) -> (r: String)
    ensures
        r@ == scheme_stripped(addr@),
{
    if str_starts_with(addr, "http://") {
        strip_prefix_once(addr, "http://")
    } else {
        strip_prefix_once(addr, "https://")
    }
}

/// Assembles the settings once the password stands decrypted: the address is
/// normalized and every other field carried over.
pub fn assemble_settings(
    addr: String,
    group: String,
    namespace: String,
    username: String,
    password: String,
    data_id: String,
) -> (s: EnvironmentSettings)
    ensures
        settings_assembled(s, addr@, group@, namespace@, username@, password@, data_id@),
{
    let server_addr = normalize_server_addr(addr.as_str());
    EnvironmentSettings { server_addr, group, namespace, username, password, data_id }
}

/// Everything held while the key-management collaborator decrypts the
/// password: the settings read so far and the decrypt request's key and
/// ciphertext.
pub struct PendingRetrieval {
    pub addr: String,
    pub group: String,
    pub namespace: String,
    pub username: String,
    pub data_id: String,
    pub key_id: String,
    pub ciphertext: Vec<u8>,
}

/// How a retrieval begins: the settings are complete, or one decrypt call is
/// owed first, or a stage has already failed.
pub enum RetrievalStart {
    /// All settings are ready; the fetch can proceed.
    Ready(EnvironmentSettings),
    /// The password is wrapped: the key-management collaborator must decrypt
    /// the pending ciphertext before the settings can be completed.
    AwaitKms(PendingRetrieval),
    /// A stage failed before any fetch; no partial result is kept.
    Abort(NacosError),
}

/// Begins a retrieval from the raw environment values. Every required
/// variable is checked in reading order — the five base variables, then the
/// key identifier where the password is wrapped, then the document identifier
/// — and the first absent one aborts, before any collaborator is involved. A
/// plain password leads straight to complete settings; a wrapped one with a
/// payload that is valid base64 yields the decrypt request to perform.
pub fn begin_retrieval(env: EnvInputs) -> (r: RetrievalStart)
    ensures
        first_missing_base_var(env) matches Some(msg) ==> (r matches RetrievalStart::Abort(e)
            && e matches NacosError::EnvVarError(m) && m@ == msg),
        first_missing_base_var(env) is None && is_wrapped(env.password.unwrap()@)
            && env.kms_key_id is None ==> (r matches RetrievalStart::Abort(e)
            && e matches NacosError::EnvVarError(m) && m@ == "KMS_KEY_ID not set"@),
        first_missing_base_var(env) is None && (is_wrapped(env.password.unwrap()@)
            ==> env.kms_key_id is Some) && env.data_id is None ==> (r matches
        RetrievalStart::Abort(e) && e matches NacosError::EnvVarError(m) && m@
            == "NACOS_DATA_ID not set"@),
        first_missing_base_var(env) is None && !is_wrapped(env.password.unwrap()@) ==> (
        env.data_id matches Some(d) ==> r matches RetrievalStart::Ready(s) && settings_assembled(
            s,
            env.addr.unwrap()@,
            env.group.unwrap()@,
            env.namespace.unwrap()@,
            env.username.unwrap()@,
            env.password.unwrap()@,
            d@,
        )),
        first_missing_base_var(env) is None && is_wrapped(env.password.unwrap()@) ==> (
        env.kms_key_id matches Some(k) ==> (env.data_id matches Some(d)
            ==> match base64_standard_decoded(wrapped_payload(env.password.unwrap()@)) {
            Some(bytes) => r matches RetrievalStart::AwaitKms(p) && p.addr@ == env.addr.unwrap()@
                && p.group@ == env.group.unwrap()@ && p.namespace@ == env.namespace.unwrap()@
                && p.username@ == env.username.unwrap()@ && p.data_id@ == d@ && p.key_id@ == k@
                && p.ciphertext@ == bytes,
            None => r matches RetrievalStart::Abort(e) && e matches NacosError::Base64DecodeError(
                m,
            ) && starts_with_seq(
                m@,
                "Failed to decode base64: "@ + wrapped_payload(env.password.unwrap()@) + ": "@,
            ),
        })),
{
    let EnvInputs { addr, group, namespace, username, password, data_id, kms_key_id } = env;
    let addr = match addr {
        Some(a) => a,
        None => {
            return RetrievalStart::Abort(NacosError::EnvVarError("NACOS_ADDR not set".to_owned()));
        },
    };
    let group = match group {
        Some(g) => g,
        None => {
            return RetrievalStart::Abort(
                NacosError::EnvVarError("NACOS_GROUP not set".to_owned()),
            );
        },
    };
    let namespace = match namespace {
        Some(n) => n,
        None => {
            return RetrievalStart::Abort(
                NacosError::EnvVarError("NACOS_NAMESPACE not set".to_owned()),
            );
        },
    };
    let username = match username {
        Some(u) => u,
        None => {
            return RetrievalStart::Abort(
                NacosError::EnvVarError("NACOS_USERNAME not set".to_owned()),
            );
        },
    };
    let password = match password {
        Some(p) => p,
        None => {
            return RetrievalStart::Abort(
                NacosError::EnvVarError("NACOS_PASSWORD not set".to_owned()),
            );
        },
    };
    let wrapped = str_starts_with(password.as_str(), "ENC(");
    if wrapped && kms_key_id.is_none() {
        return RetrievalStart::Abort(NacosError::EnvVarError("KMS_KEY_ID not set".to_owned()));
    }
    let data_id = match data_id {
        Some(d) => d,
        None => {
            return RetrievalStart::Abort(
                NacosError::EnvVarError("NACOS_DATA_ID not set".to_owned()),
            );
        },
    };
    match classify_password(password.as_str(), kms_key_id) {
        Err(e) => RetrievalStart::Abort(e),
        Ok(DecryptionPlan::Plain(p)) => {
            RetrievalStart::Ready(assemble_settings(addr, group, namespace, username, p, data_id))
        },
        Ok(DecryptionPlan::Kms { key_id, ciphertext }) => {
            RetrievalStart::AwaitKms(
                PendingRetrieval { addr, group, namespace, username, data_id, key_id, ciphertext },
            )
        },
    }
}

/// Completes a pending retrieval from the key-management collaborator's
/// reply: whatever plaintext it sent becomes the password of the assembled
/// settings.
pub fn complete_retrieval(pending: PendingRetrieval, outcome: KmsOutcome) -> (r: Result<
    EnvironmentSettings,
    NacosError,
>)
    ensures
        outcome matches KmsOutcome::Failed(t) ==> (r matches Err(e)
            && e matches NacosError::KmsError(m)
            && m@ == "Failed to decrypt blob from kms: "@ + t@),
        outcome matches KmsOutcome::Returned(None::<Vec<u8>>) ==> (r matches Err(e)
            && e matches NacosError::KmsError(m)
            && m@ == "Failed to get plaintext from kms's response"@),
        outcome matches KmsOutcome::Returned(Some(b)) ==> (if !valid_utf8(b@) {
            r matches Err(e) && e matches NacosError::Utf8Error(m) && starts_with_seq(
                m@,
                "Could not convert to UTF-8: "@,
            )
        } else {
            r matches Ok(s) && settings_assembled(
                s,
                pending.addr@,
                pending.group@,
                pending.namespace@,
                pending.username@,
                decode_utf8(b@),
                pending.data_id@,
            )
        }),
{
    let password = match plaintext_from_kms(outcome) {
        Ok(p) => p,
        Err(e) => {
            return Err(e);
        },
    };
    Ok(
        assemble_settings(
            pending.addr,
            pending.group,
            pending.namespace,
            pending.username,
            password,
            pending.data_id,
        ),
    )
}

/// Accepts or rejects a fetched document and parses it: validation runs
/// first, in field order, and only a document that agrees on all three
/// identity fields and on the recomputed checksum reaches the deserializer.
/// When the deserializer declines, the one error is a parse error carrying the
/// raw content.
pub fn accept_response<T: serde::de::DeserializeOwned>(
    doc: &ConfigDocument,
    settings: &EnvironmentSettings,
) -> (r: Result<T, NacosError>)
    ensures
        first_mismatch(
            doc@,
            settings.namespace@,
            settings.data_id@,
            settings.group@,
        ) matches Some(m) ==> (r matches Err(e) && e matches NacosError::NacosConfigError(msg)
            && msg@ == mismatch_message(m)),
        first_mismatch(doc@, settings.namespace@, settings.data_id@, settings.group@) is None ==> (
        r matches Err(e) ==> (e matches NacosError::ConfigParseError(m) && starts_with_seq(
            m@,
            "Failed to parse config from nacos: "@ + doc.content@ + ": "@,
        ))),
{
    match validate_config(doc, &settings.namespace, &settings.data_id, &settings.group) {
        Err(e) => Err(e),
        Ok(()) => parse_config::<T>(doc.content.as_str()),
    }
}

/// The error reported when the configuration-service connection cannot be
/// constructed: it names the address and the underlying cause.
pub fn connection_error(addr: &str, cause: &str) -> (r: NacosError)
    ensures
        r matches NacosError::NacosConnectionError(m) && m@
            == "Failed to create ConfigServiceBuilder for nacos: "@ + addr@ + ": "@ + cause@,
{
    let msg = "Failed to create ConfigServiceBuilder for nacos: ".to_owned().concat(addr).concat(
        ": ",
    ).concat(cause);
    NacosError::NacosConnectionError(msg)
}

/// The error reported when the fetch request fails: it names the document
/// identifier, the group, and the underlying cause.
pub fn fetch_error(data_id: &str, group: &str, cause: &str) -> (r: NacosError)
    ensures
        r matches NacosError::NacosConfigError(m) && m@
            == "Failed to get config from nacos, data_id: "@ + data_id@ + ", group: "@ + group@
            + ": "@ + cause@,
{
    let msg = "Failed to get config from nacos, data_id: ".to_owned().concat(data_id).concat(
        ", group: ",
    ).concat(group).concat(": ").concat(cause);
    NacosError::NacosConfigError(msg)
}

} // verus!
