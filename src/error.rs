//! Errors of the catalog client and of the high-level client.
use crate::text::{decimal, decimal_string, join2, join3};
use vstd::prelude::*;

verus! {

/// Failures of a catalog action.
#[derive(Debug, Clone, PartialEq, Eq)]
pub enum CkanError {
    /// Network, HTTP or other request-level failure, with its description.
    RequestError(String),
    /// The payload did not have the expected shape, with the decoder's description.
    ParseError(String),
    /// The catalog reported a failure, or answered with a non-success status.
    ApiError { status: u16, message: String },
}

/// The text that describes a catalog failure.
pub open spec fn ckan_error_text(e: CkanError) -> Seq<char> {
    match e {
        CkanError::RequestError(m) => "Request error: "@ + m@,
        CkanError::ParseError(m) => "Parse error: "@ + m@,
        CkanError::ApiError { status, message } =>
            "CKAN API error ("@ + decimal(status as nat) + "): "@ + message@,
    }
}

impl CkanError {
    /// The text that describes this failure.
    pub fn to_message(&self) -> (r: String)
        ensures
            r@ == ckan_error_text(*self),
    {
        match self {
            CkanError::RequestError(m) => join2("Request error: ", m.as_str()),
            CkanError::ParseError(m) => join2("Parse error: ", m.as_str()),
            CkanError::ApiError { status, message } => {
                let code = decimal_string(*status as u64);
                let head = join3("CKAN API error (", code.as_str(), "): ");
                join2(head.as_str(), message.as_str())
            },
        }
    }
}

/// Failures of the high-level client.
#[derive(Debug, Clone, PartialEq, Eq)]
pub enum DataGovError {
    /// A failure of the catalog client.
    CkanError(CkanError),
    /// An HTTP request failed, with its description.
    HttpError(String),
    /// A file operation failed, with its description.
    IoError(String),
    /// A URL did not parse, with the parser's description.
    UrlError(String),
    /// A selected resource cannot be fetched.
    ResourceNotFound { message: String },
    /// A file fetch failed.
    DownloadError { message: String },
    /// A resource had another format than the one expected.
    InvalidFormat { expected: String, actual: String },
    /// The configuration is unusable.
    ConfigError { message: String },
    /// An argument was rejected.
    ValidationError { message: String },
    /// Any other failure.
    Other { message: String },
}

/// The text that describes a client failure.
pub open spec fn data_gov_error_text(e: DataGovError) -> Seq<char> {
    match e {
        DataGovError::CkanError(c) => "CKAN API error: "@ + ckan_error_text(c),
        DataGovError::HttpError(m) => "HTTP request failed: "@ + m@,
        DataGovError::IoError(m) => "File operation failed: "@ + m@,
        DataGovError::UrlError(m) => "Invalid URL: "@ + m@,
        DataGovError::ResourceNotFound { message } => "Resource not found: "@ + message@,
        DataGovError::DownloadError { message } => "Download failed: "@ + message@,
        DataGovError::InvalidFormat { expected, actual } =>
            "Invalid resource format: expected "@ + expected@ + ", got "@ + actual@,
        DataGovError::ConfigError { message } => "Configuration error: "@ + message@,
        DataGovError::ValidationError { message } => "Validation error: "@ + message@,
        DataGovError::Other { message } => message@,
    }
}

impl DataGovError {
    /// A resource-not-found failure with the given message.
    pub fn resource_not_found(message: &str) -> (r: DataGovError)
        ensures
            r matches DataGovError::ResourceNotFound { message: m } && m@ == message@,
    {
        DataGovError::ResourceNotFound { message: message.to_string() }
    }

    /// A download failure with the given message.
    pub fn download_error(message: &str) -> (r: DataGovError)
        ensures
            r matches DataGovError::DownloadError { message: m } && m@ == message@,
    {
        DataGovError::DownloadError { message: message.to_string() }
    }

    /// A configuration failure with the given message.
    pub fn config_error(message: &str) -> (r: DataGovError)
        ensures
            r matches DataGovError::ConfigError { message: m } && m@ == message@,
    {
        DataGovError::ConfigError { message: message.to_string() }
    }

    /// A validation failure with the given message.
    pub fn validation_error(message: &str) -> (r: DataGovError)
        ensures
            r matches DataGovError::ValidationError { message: m } && m@ == message@,
    {
        DataGovError::ValidationError { message: message.to_string() }
    }

    /// A failure of no particular kind, with the given message.
    pub fn other(message: &str) -> (r: DataGovError)
        ensures
            r matches DataGovError::Other { message: m } && m@ == message@,
    {
        DataGovError::Other { message: message.to_string() }
    }

    /// The text that describes this failure.
    pub fn to_message(&self) -> (r: String)
        ensures
            r@ == data_gov_error_text(*self),
    {
        match self {
            DataGovError::CkanError(c) => {
                let inner = c.to_message();
                join2("CKAN API error: ", inner.as_str())
            },
            DataGovError::HttpError(m) => join2("HTTP request failed: ", m.as_str()),
            DataGovError::IoError(m) => join2("File operation failed: ", m.as_str()),
            DataGovError::UrlError(m) => join2("Invalid URL: ", m.as_str()),
            DataGovError::ResourceNotFound { message } =>
                join2("Resource not found: ", message.as_str()),
            DataGovError::DownloadError { message } => join2("Download failed: ", message.as_str()),
            DataGovError::InvalidFormat { expected, actual } => {
                let head = join3("Invalid resource format: expected ", expected.as_str(), ", got ");
                join2(head.as_str(), actual.as_str())
            },
            DataGovError::ConfigError { message } =>
                join2("Configuration error: ", message.as_str()),
            DataGovError::ValidationError { message } =>
                join2("Validation error: ", message.as_str()),
            DataGovError::Other { message } => message.clone(),
        }
    }
}

} // verus!
