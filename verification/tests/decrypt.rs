use nacos_config::errors::NacosError;
use nacos_config::secret::{classify_password, plaintext_from_kms, DecryptionPlan, KmsOutcome};

#[test]
fn plain_password_passes_through() {
    let r = classify_password("mypassword", None);
    match r {
        Ok(DecryptionPlan::Plain(p)) => assert_eq!(p, "mypassword"),
        _ => panic!("plain password must pass through unchanged"),
    }
}

#[test]
fn plain_password_ignores_key() {
    let r = classify_password("hunter2", Some("key-1".to_string()));
    match r {
        Ok(DecryptionPlan::Plain(p)) => assert_eq!(p, "hunter2"),
        _ => panic!("plain password must pass through unchanged"),
    }
}

#[test]
fn wrapped_password_yields_kms_request() {
    let r = classify_password("ENC(aGVsbG8=)", Some("key-1".to_string()));
    match r {
        Ok(DecryptionPlan::Kms { key_id, ciphertext }) => {
            assert_eq!(key_id, "key-1");
            assert_eq!(ciphertext, b"hello".to_vec());
        }
        _ => panic!("wrapped password must yield a decrypt request"),
    }
}

#[test]
fn wrapped_password_roundtrip_through_kms() {
    let payload = base64::Engine::encode(
        &base64::engine::general_purpose::STANDARD,
        b"cipher-bytes",
    );
    let wrapped = format!("ENC({})", payload);
    let plan = classify_password(&wrapped, Some("key-9".to_string()));
    let ciphertext = match plan {
        Ok(DecryptionPlan::Kms { ciphertext, .. }) => ciphertext,
        _ => panic!("wrapped password must yield a decrypt request"),
    };
    assert_eq!(ciphertext, b"cipher-bytes".to_vec());
    // The collaborator, mocked, answers with plaintext `s3cret`.
    let r = plaintext_from_kms(KmsOutcome::Returned(Some(b"s3cret".to_vec())));
    assert_eq!(r.unwrap(), "s3cret");
}

#[test]
fn only_one_marker_and_one_delimiter_are_stripped() {
    // The inner wrapper is part of the payload, so it is not valid base64.
    let r = classify_password("ENC(ENC(YWJj))", Some("k".to_string()));
    match r {
        Err(NacosError::Base64DecodeError(m)) => {
            assert!(m.starts_with("Failed to decode base64: ENC(YWJj): "));
        }
        _ => panic!("exactly one marker and one delimiter must be stripped"),
    }
}

#[test]
fn wrapped_password_without_key_is_env_error() {
    let r = classify_password("ENC(aGVsbG8=)", None);
    match r {
        Err(NacosError::EnvVarError(m)) => assert_eq!(m, "KMS_KEY_ID not set"),
        _ => panic!("a wrapped password without a key must fail before any call"),
    }
}

#[test]
fn invalid_base64_fails_without_kms_request() {
    let r = classify_password("ENC(***not-base64***)", Some("key-1".to_string()));
    match r {
        Err(NacosError::Base64DecodeError(m)) => {
            assert!(m.starts_with("Failed to decode base64: ***not-base64***: "));
        }
        _ => panic!("an invalid payload must fail with a base64 error, not a request"),
    }
}

#[test]
fn kms_transport_failure_is_kms_error() {
    let r = plaintext_from_kms(KmsOutcome::Failed("connection reset".to_string()));
    match r {
        Err(NacosError::KmsError(m)) => {
            assert_eq!(m, "Failed to decrypt blob from kms: connection reset");
        }
        _ => panic!("a failed decrypt call must be a KMS error"),
    }
}

#[test]
fn kms_reply_without_plaintext_is_kms_error() {
    let r = plaintext_from_kms(KmsOutcome::Returned(None));
    match r {
        Err(NacosError::KmsError(m)) => {
            assert_eq!(m, "Failed to get plaintext from kms's response");
        }
        _ => panic!("a reply without plaintext must be a KMS error"),
    }
}

#[test]
fn kms_plaintext_not_utf8_is_utf8_error() {
    let r = plaintext_from_kms(KmsOutcome::Returned(Some(vec![0xff, 0xfe, 0x41])));
    match r {
        Err(NacosError::Utf8Error(m)) => {
            assert!(m.starts_with("Could not convert to UTF-8: "));
        }
        _ => panic!("plaintext that is not UTF-8 must be a conversion error"),
    }
}

#[test]
fn error_describe_names_the_kind() {
    let e = NacosError::EnvVarError("NACOS_ADDR not set".to_string());
    assert_eq!(e.describe(), "Environment variable error: NACOS_ADDR not set");
    let e = NacosError::Base64DecodeError("bad".to_string());
    assert_eq!(e.describe(), "Base64 decoding error: bad");
    let e = NacosError::KmsError("bad".to_string());
    assert_eq!(e.describe(), "AWS KMS error: bad");
    let e = NacosError::NacosConnectionError("bad".to_string());
    assert_eq!(e.describe(), "Nacos connection error: bad");
    let e = NacosError::NacosConfigError("bad".to_string());
    assert_eq!(e.describe(), "Nacos config error: bad");
    let e = NacosError::ConfigParseError("bad".to_string());
    assert_eq!(e.describe(), "Config parsing error: bad");
    let e = NacosError::Utf8Error("bad".to_string());
    assert_eq!(e.describe(), "UTF-8 conversion error: bad");
    assert_eq!(e.message(), "bad");
}
