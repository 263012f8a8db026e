//! The closed taxonomy of pipeline failures. Every failing stage produces
//! exactly one of these kinds, each carrying a descriptive message.
use vstd::prelude::*;

verus! {

/// One failure kind per stage of the pipeline. Callers may branch on the
/// variant; the payload is a human-readable message.
#[derive(Debug)]
pub enum NacosError {
    /// A required environment variable is absent.
    EnvVarError(String),
    /// The configuration-service connection could not be constructed.
    NacosConnectionError(String),
    /// The fetch request failed, or a field mismatched during validation.
    NacosConfigError(String),
    /// The key-management decrypt call failed or returned no plaintext.
    KmsError(String),
    /// The fetched content could not be deserialized into the target type.
    ConfigParseError(String),
    /// The stripped ciphertext payload was not valid base64.
    Base64DecodeError(String),
    /// Decrypted plaintext bytes were not valid UTF-8 text.
    Utf8Error(String),
}

impl NacosError {
    /// The message carried by the error, whatever its kind.
    pub open spec fn msg(&self) -> Seq<char> {
        match self {
            NacosError::EnvVarError(m) => m@,
            NacosError::NacosConnectionError(m) => m@,
            NacosError::NacosConfigError(m) => m@,
            NacosError::KmsError(m) => m@,
            NacosError::ConfigParseError(m) => m@,
            NacosError::Base64DecodeError(m) => m@,
            NacosError::Utf8Error(m) => m@,
        }
    }

    /// The message rendered with a prefix naming the kind.
    pub open spec fn spec_describe(&self) -> Seq<char> {
        match self {
            NacosError::EnvVarError(m) => "Environment variable error: "@ + m@,
            NacosError::NacosConnectionError(m) => "Nacos connection error: "@ + m@,
            NacosError::NacosConfigError(m) => "Nacos config error: "@ + m@,
            NacosError::KmsError(m) => "AWS KMS error: "@ + m@,
            NacosError::ConfigParseError(m) => "Config parsing error: "@ + m@,
            NacosError::Base64DecodeError(m) => "Base64 decoding error: "@ + m@,
            NacosError::Utf8Error(m) => "UTF-8 conversion error: "@ + m@,
        }
    }

    /// The message alone, without the kind prefix.
    pub fn message(&self) -> (r: &String)
        ensures
            r@ == self.msg(),
    {
        match self {
            NacosError::EnvVarError(m) => m,
            NacosError::NacosConnectionError(m) => m,
            NacosError::NacosConfigError(m) => m,
            NacosError::KmsError(m) => m,
            NacosError::ConfigParseError(m) => m,
            NacosError::Base64DecodeError(m) => m,
            NacosError::Utf8Error(m) => m,
        }
    }

    /// A full rendering of the error: the kind's prefix, then the message.
    pub fn describe(&self) -> (r: String)
        ensures
            r@ == self.spec_describe(),
    {
        let prefix: &str = match self {
            NacosError::EnvVarError(_) => "Environment variable error: ",
            NacosError::NacosConnectionError(_) => "Nacos connection error: ",
            NacosError::NacosConfigError(_) => "Nacos config error: ",
            NacosError::KmsError(_) => "AWS KMS error: ",
            NacosError::ConfigParseError(_) => "Config parsing error: ",
            NacosError::Base64DecodeError(_) => "Base64 decoding error: ",
            NacosError::Utf8Error(_) => "UTF-8 conversion error: ",
        };
        let rendered = prefix.to_owned().concat(self.message().as_str());
        rendered
    }
}

} // verus!
