//! Errors of speaker diarization and identification.

use vstd::prelude::*;

verus! {

/// `std::io::Error`, carried by `DiarizationError::IoError`.
#[verifier::external_type_specification]
#[verifier::external_body]
pub struct ExIoError(std::io::Error);

/// `serde_json::Error`, carried by `DiarizationError::SerializationError`.
#[verifier::external_type_specification]
#[verifier::external_body]
pub struct ExJsonError(serde_json::Error);

/// Errors that can occur during speaker diarization and identification.
#[derive(Debug)]
pub enum DiarizationError {
    /// Audio processing errors.
    AudioProcessingError(String),
    /// Model loading errors.
    ModelLoadError(String),
    /// Speaker identification errors.
    IdentificationError(String),
    /// Database errors.
    DatabaseError(String),
    /// Resource constraint errors.
    ResourceConstraintError(String),
    /// Resource monitoring errors.
    ResourceError(String),
    /// Invalid configuration errors.
    InvalidConfiguration(String),
    /// Network / connectivity errors.
    NetworkError(String),
    /// External API errors.
    ExternalApiError(String),
    /// Embedding processing errors.
    EmbeddingError(String),
    /// Synchronization errors.
    SynchronizationError(String),
    /// Export errors.
    ExportError(String),
    /// Consent required errors.
    ConsentRequired(String),
    /// I/O errors.
    IoError(std::io::Error),
    /// Serialization errors.
    SerializationError(serde_json::Error),
    /// Other errors.
    Other(String),
}

/// The text that the message of an error starts with.
pub open spec fn error_prefix(e: DiarizationError) -> Seq<char> {
    match e {
        DiarizationError::AudioProcessingError(_) => "Audio processing error: "@,
        DiarizationError::ModelLoadError(_) => "Model load error: "@,
        DiarizationError::IdentificationError(_) => "Identification error: "@,
        DiarizationError::DatabaseError(_) => "Database error: "@,
        DiarizationError::ResourceConstraintError(_) => "Resource constraint error: "@,
        DiarizationError::ResourceError(_) => "Resource error: "@,
        DiarizationError::InvalidConfiguration(_) => "Invalid configuration: "@,
        DiarizationError::NetworkError(_) => "Network error: "@,
        DiarizationError::ExternalApiError(_) => "External API error: "@,
        DiarizationError::EmbeddingError(_) => "Embedding error: "@,
        DiarizationError::SynchronizationError(_) => "Synchronization error: "@,
        DiarizationError::ExportError(_) => "Export error: "@,
        DiarizationError::ConsentRequired(_) => "Consent required: "@,
        DiarizationError::IoError(_) => "IO error: "@,
        DiarizationError::SerializationError(_) => "Serialization error: "@,
        DiarizationError::Other(_) => "Other error: "@,
    }
}

/// The text an error carries, for the variants that carry text.
pub open spec fn error_detail(e: DiarizationError) -> Option<Seq<char>> {
    match e {
        DiarizationError::AudioProcessingError(s) => Some(s@),
        DiarizationError::ModelLoadError(s) => Some(s@),
        DiarizationError::IdentificationError(s) => Some(s@),
        DiarizationError::DatabaseError(s) => Some(s@),
        DiarizationError::ResourceConstraintError(s) => Some(s@),
        DiarizationError::ResourceError(s) => Some(s@),
        DiarizationError::InvalidConfiguration(s) => Some(s@),
        DiarizationError::NetworkError(s) => Some(s@),
        DiarizationError::ExternalApiError(s) => Some(s@),
        DiarizationError::EmbeddingError(s) => Some(s@),
        DiarizationError::SynchronizationError(s) => Some(s@),
        DiarizationError::ExportError(s) => Some(s@),
        DiarizationError::ConsentRequired(s) => Some(s@),
        DiarizationError::IoError(_) => None,
        DiarizationError::SerializationError(_) => None,
        DiarizationError::Other(s) => Some(s@),
    }
}

/// The `Display` text of an I/O error (its kind, or the operating system's
/// description); nothing is stated of it.
#[verifier::external_body]
fn io_error_text(e: &std::io::Error) -> String {
    format!("{}", e)
}

/// The `Display` text of a `serde_json::Error` (its message and position);
/// nothing is stated of it.
#[verifier::external_body]
fn json_error_text(e: &serde_json::Error) -> String {
    format!("{}", e)
}

impl From<std::io::Error> for DiarizationError {
    /// An I/O error becomes `IoError`.
    fn from(e: std::io::Error) -> (r: Self) {
        DiarizationError::IoError(e)
    }
}

impl vstd::std_specs::convert::FromSpecImpl<std::io::Error> for DiarizationError {
    open spec fn obeys_from_spec() -> bool {
        true
    }

    open spec fn from_spec(e: std::io::Error) -> Self {
        DiarizationError::IoError(e)
    }
}

impl From<serde_json::Error> for DiarizationError {
    /// A JSON error becomes `SerializationError`.
    fn from(e: serde_json::Error) -> (r: Self) {
        DiarizationError::SerializationError(e)
    }
}

impl vstd::std_specs::convert::FromSpecImpl<serde_json::Error> for DiarizationError {
    open spec fn obeys_from_spec() -> bool {
        true
    }

    open spec fn from_spec(e: serde_json::Error) -> Self {
        DiarizationError::SerializationError(e)
    }
}

impl DiarizationError {
    /// The message of the error: its prefix followed by the text it carries.
    pub fn to_string(&self) -> (r: String)
        ensures
            r@.len() >= error_prefix(*self).len(),
            r@.take(error_prefix(*self).len() as int) == error_prefix(*self),
            error_detail(*self) matches Some(d) ==> r@ == error_prefix(*self) + d,
    {
        let (prefix, detail): (&str, String) = match self {
            DiarizationError::AudioProcessingError(s) => ("Audio processing error: ", s.clone()),
            DiarizationError::ModelLoadError(s) => ("Model load error: ", s.clone()),
            DiarizationError::IdentificationError(s) => ("Identification error: ", s.clone()),
            DiarizationError::DatabaseError(s) => ("Database error: ", s.clone()),
            DiarizationError::ResourceConstraintError(s) => ("Resource constraint error: ", s.clone()),
            DiarizationError::ResourceError(s) => ("Resource error: ", s.clone()),
            DiarizationError::InvalidConfiguration(s) => ("Invalid configuration: ", s.clone()),
            DiarizationError::NetworkError(s) => ("Network error: ", s.clone()),
            DiarizationError::ExternalApiError(s) => ("External API error: ", s.clone()),
            DiarizationError::EmbeddingError(s) => ("Embedding error: ", s.clone()),
            DiarizationError::SynchronizationError(s) => ("Synchronization error: ", s.clone()),
            DiarizationError::ExportError(s) => ("Export error: ", s.clone()),
            DiarizationError::ConsentRequired(s) => ("Consent required: ", s.clone()),
            DiarizationError::IoError(e) => ("IO error: ", io_error_text(e)),
            DiarizationError::SerializationError(e) => ("Serialization error: ", json_error_text(e)),
            DiarizationError::Other(s) => ("Other error: ", s.clone()),
        };
        let r = String::from_str(prefix).concat(detail.as_str());
        assert(r@.take(prefix@.len() as int) == prefix@);
        r
    }
}

} // verus!
