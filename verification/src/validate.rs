//! Integrity validation of a fetched configuration document: its declared
//! identity fields must equal the requested ones, and a checksum recomputed
//! over the raw content must equal the declared one. The four comparisons run
//! in a fixed order and the first mismatch decides the error.
use vstd::prelude::*;
use crate::errors::NacosError;

verus! {

/// What the content's 128-bit digest, hex-encoded, is: a function of the
/// content alone.
pub uninterp spec fn md5_hex(content: Seq<char>) -> Seq<char>;

/// Relies on `rust-crypto`'s `Md5` through `Digest::input_str` and
/// `Digest::result_str`: the hex-encoded digest of the content's bytes,
/// determined by the content alone.
#[verifier::external_body]
fn md5_hex_digest(content: &str) -> (r: String)
    ensures
        r@ == md5_hex(content@),
{
    let mut hasher = crypto::md5::Md5::new();
    crypto::digest::Digest::input_str(&mut hasher, content);
    crypto::digest::Digest::result_str(&mut hasher)
}

/// The checksum the validator recomputes over a document's content.
pub fn content_checksum(content: &str) -> (r: String)
    ensures
        r@ == md5_hex(content@),
{
    md5_hex_digest(content)
}

/// A fetched configuration document: the raw content and the identity and
/// checksum metadata the response declared.
pub struct ConfigDocument {
    pub content: String,
    pub namespace: String,
    pub data_id: String,
    pub group: String,
    pub md5: String,
}

/// The document's fields as sequences of characters.
pub struct ConfigDocumentView {
    pub content: Seq<char>,
    pub namespace: Seq<char>,
    pub data_id: Seq<char>,
    pub group: Seq<char>,
    pub md5: Seq<char>,
}

impl View for ConfigDocument {
    type V = ConfigDocumentView;

    open spec fn view(&self) -> ConfigDocumentView {
        ConfigDocumentView {
            content: self.content@,
            namespace: self.namespace@,
            data_id: self.data_id@,
            group: self.group@,
            md5: self.md5@,
        }
    }
}

/// The field on which validation fails, in checking order.
pub enum FieldMismatch {
    Namespace,
    DataId,
    Group,
    Checksum,
}

/// The first field, in checking order, on which the document disagrees with
/// the expected identity or with the recomputed checksum; `None` where all
/// four agree.
pub open spec fn first_mismatch(
    doc: ConfigDocumentView,
    namespace: Seq<char>,
    data_id: Seq<char>,
    group: Seq<char>,
) -> Option<FieldMismatch> {
    if doc.namespace != namespace {
        Some(FieldMismatch::Namespace)
    } else if doc.data_id != data_id {
        Some(FieldMismatch::DataId)
    } else if doc.group != group {
        Some(FieldMismatch::Group)
    } else if doc.md5 != md5_hex(doc.content) {
        Some(FieldMismatch::Checksum)
    } else {
        None
    }
}

/// The message reported for a mismatch on each field.
pub open spec fn mismatch_message(m: FieldMismatch) -> Seq<char> {
    match m {
        FieldMismatch::Namespace => "nacos_namespace unmatched"@,
        FieldMismatch::DataId => "nacos_data_id unmatched"@,
        FieldMismatch::Group => "nacos_group unmatched"@,
        FieldMismatch::Checksum => "ConfigResponse md5 unmatched"@,
    }
}

/// Checks the document against the requested identity and the recomputed
/// checksum, in order: namespace, then document identifier, then group, then
/// checksum. The first mismatching field decides the error; agreement on all
/// four is the only way to pass. No normalization is applied to any field.
pub fn validate_config(
    doc: &ConfigDocument,
    namespace: &String,
    data_id: &String,
    group: &String,
) -> (r: Result<(), NacosError>)
    ensures
        match first_mismatch(doc@, namespace@, data_id@, group@) {
            None => r is Ok,
            Some(m) => r matches Err(e) && e matches NacosError::NacosConfigError(msg) && msg@
                == mismatch_message(m),
        },
{
    let digest = md5_hex_digest(doc.content.as_str());
    if !(doc.namespace == *namespace) {
        return Err(NacosError::NacosConfigError("nacos_namespace unmatched".to_owned()));
    }
    if !(doc.data_id == *data_id) {
        return Err(NacosError::NacosConfigError("nacos_data_id unmatched".to_owned()));
    }
    if !(doc.group == *group) {
        return Err(NacosError::NacosConfigError("nacos_group unmatched".to_owned()));
    }
    if !(doc.md5 == digest) {
        return Err(NacosError::NacosConfigError("ConfigResponse md5 unmatched".to_owned()));
    }
    Ok(())
}

/// A document whose declared checksum is not the digest recomputed over its
/// content never validates, however the identity fields stand.
pub proof fn lemma_checksum_mismatch_never_validates(
    doc: ConfigDocumentView,
    namespace: Seq<char>,
    data_id: Seq<char>,
    group: Seq<char>,
)
    requires
        doc.md5 != md5_hex(doc.content),
    ensures
        first_mismatch(doc, namespace, data_id, group) is Some,
{
}

/// Validation passes exactly when all three identity fields equal the
/// requested ones and the declared checksum equals the recomputed one.
pub proof fn lemma_validation_passes_iff_all_match(
    doc: ConfigDocumentView,
    namespace: Seq<char>,
    data_id: Seq<char>,
    group: Seq<char>,
)
    ensures
        first_mismatch(doc, namespace, data_id, group) is None <==> (doc.namespace == namespace
            && doc.data_id == data_id && doc.group == group && doc.md5 == md5_hex(doc.content)),
{
}

} // verus!
