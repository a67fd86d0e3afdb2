//! Decisions of the manager backend: whether an environment may be
//! created, and the report on a device's certificate.
use vstd::prelude::*;
use vstd::string::StringSliceAdditionalSpecFns;

use crate::interface_types::EnvironmentCreationInput;

verus! {

/// The text that `{:?}` (std's `Debug` for `str`) prints for a text.
pub uninterp spec fn debug_text_of(text: Seq<char>) -> Seq<char>;

/// The DER contents of the first PEM block that
/// `x509_parser::pem::parse_x509_pem` reads from the bytes, or `None` where
/// it fails.
pub uninterp spec fn pem_contents_of(input: Seq<u8>) -> Option<Seq<u8>>;

/// The text that `{:?}` prints for what
/// `x509_parser::parse_x509_certificate` returns on the bytes.
pub uninterp spec fn certificate_report_of(der: Seq<u8>) -> Seq<char>;

/// Formats a text with `{:?}`. Trusted: the result is named
/// `debug_text_of` of the text.
#[verifier::external_body]
fn debug_text(text: &str) -> (r: String)
    ensures
        r@ == debug_text_of(text@),
{
    format!("{:?}", text)
}

/// Reads the first PEM block with `x509_parser::pem::parse_x509_pem` and
/// returns its decoded contents. Trusted: the result is named
/// `pem_contents_of` of the bytes.
#[verifier::external_body]
fn parse_pem_contents(input: &[u8]) -> (r: Option<Vec<u8>>)
    ensures
        match r {
            Some(contents) => pem_contents_of(input@) == Some(contents@),
            None => pem_contents_of(input@) is None,
        },
{
    match x509_parser::pem::parse_x509_pem(input) {
        Ok((_rest, pem)) => Some(pem.contents),
        Err(_) => None,
    }
}

/// Parses DER bytes with `x509_parser::parse_x509_certificate` and formats
/// the outcome, certificate or error, with `{:?}`. Trusted: the result is
/// named `certificate_report_of` of the bytes. That the call returns on
/// every input, rather than panicking on malformed DER, is not shown by the
/// source read here: it rests on x509-parser's stated aim of being
/// panic-free.
#[verifier::external_body]
fn certificate_report(der: &[u8]) -> (r: String)
    ensures
        r@ == certificate_report_of(der@),
{
    format!("{:?}", x509_parser::parse_x509_certificate(der))
}

/// What the manager does next with a request to create an environment.
pub enum EnvironmentCreationStep {
    /// Ask the database (`checkIfVirtualPersonaExists`) whether this
    /// principal has a virtual persona.
    CheckVirtualPersona { principal_id: String },
    /// Ask the database (`createNewEnvironment`) to create this environment,
    /// managed by this principal, and pass its reply on.
    RequestCreation {
        environment_manager_principal_id: String,
        environment_creation_input: EnvironmentCreationInput,
    },
    /// Refuse the request with this message.
    Reject(String),
}

impl EnvironmentCreationStep {
    /// The database method the step calls, if it calls one.
    pub fn database_method(&self) -> (method: Option<&'static str>)
        ensures
            match self {
                EnvironmentCreationStep::CheckVirtualPersona { .. } => method matches Some(m)
                    && m@ == "checkIfVirtualPersonaExists"@,
                EnvironmentCreationStep::RequestCreation { .. } => method matches Some(m) && m@
                    == "createNewEnvironment"@,
                EnvironmentCreationStep::Reject(_) => method is None,
            },
    {
        match self {
            EnvironmentCreationStep::CheckVirtualPersona { .. } => Some("checkIfVirtualPersonaExists"),
            EnvironmentCreationStep::RequestCreation { .. } => Some("createNewEnvironment"),
            EnvironmentCreationStep::Reject(_) => None,
        }
    }
}

/// The message refusing an environment to a caller without a virtual
/// persona.
pub open spec fn missing_persona_message(principal_id: Seq<char>) -> Seq<char> {
    "Virtual persona with principal id: "@ + debug_text_of(principal_id) + " does not exist"@
}

/// The first step of a request to create an environment: ask whether the
/// caller has a virtual persona.
pub fn start_environment_creation(environment_manager_principal_id: String) -> (step:
    EnvironmentCreationStep)
    ensures
        step == (EnvironmentCreationStep::CheckVirtualPersona {
            principal_id: environment_manager_principal_id,
        }),
{
    EnvironmentCreationStep::CheckVirtualPersona { principal_id: environment_manager_principal_id }
}

/// Decides a request to create an environment once the database has said
/// whether the caller has a virtual persona: with one, the database is asked
/// to create the environment from the caller's input, managed by the
/// caller; without one, the request is refused with a message naming the
/// caller.
pub fn decide_environment_creation(
    virtual_persona_exists: bool,
    environment_manager_principal_id: String,
    environment_creation_input: EnvironmentCreationInput,
) -> (step: EnvironmentCreationStep)
    ensures
        virtual_persona_exists ==> step == (EnvironmentCreationStep::RequestCreation {
            environment_manager_principal_id,
            environment_creation_input,
        }),
        !virtual_persona_exists ==> (step matches EnvironmentCreationStep::Reject(message)
            && message@ == missing_persona_message(environment_manager_principal_id@)),
{
    if virtual_persona_exists {
        EnvironmentCreationStep::RequestCreation {
            environment_manager_principal_id,
            environment_creation_input,
        }
    } else {
        let mut err = String::from_str("Virtual persona with principal id: ");
        let quoted = debug_text(environment_manager_principal_id.as_str());
        err.append(quoted.as_str());
        err.append(" does not exist");
        EnvironmentCreationStep::Reject(err)
    }
}

/// The root certificate (PEM) that the manager parses for devices.
pub const DEVICE_CERTIFICATE_PEM: &'static str = "-----BEGIN CERTIFICATE-----\nMIICDTCCAbKgAwIBAgIQe3eNNaVHZutrY7gRg4ItsjAKBggqhkjOPQQDAjBTMQsw\nCQYDVQQGEwJVUzEXMBUGA1UEChMORGlnaUNlcnQsIEluYy4xKzApBgNVBAMTIkRp\nZ2lDZXJ0IFJvb3QgQ0EgZm9yIE1BVFRFUiBQS0kgRzEwIBcNMjIwODI0MDAwMDAw\nWhgPOTk5OTEyMzEyMzU5NTlaMFMxCzAJBgNVBAYTAlVTMRcwFQYDVQQKEw5EaWdp\nQ2VydCwgSW5jLjErMCkGA1UEAxMiRGlnaUNlcnQgUm9vdCBDQSBmb3IgTUFUVEVS\nIFBLSSBHMTBZMBMGByqGSM49AgEGCCqGSM49AwEHA0IABAVbq6wD9zzDXbEObnSN\nOMNLrGyLBok/Le7bYMzRBn8G4aNSEDw1ClO4gAbrZqpDJy5QSmF9VpKPx9FOsvmV\nbZujZjBkMBIGA1UdEwEB/wQIMAYBAf8CAQEwDgYDVR0PAQH/BAQDAgEGMB0GA1Ud\nDgQWBBQyUEUZM0RZm0Zl1Fn9OhXxwRbMvTAfBgNVHSMEGDAWgBQyUEUZM0RZm0Zl\n1Fn9OhXxwRbMvTAKBggqhkjOPQQDAgNJADBGAiEAh88I/wwZ6/x4wrLLZeEZZEQi\nKqmgvTeRD3kPQ1LoCFgCIQCKVfavo16G+mSmMEFD2O/vsx15c2U1SS0rTK/ogRAP\n4g==\n-----END CERTIFICATE-----";

/// The report printed for PEM bytes: when their first PEM block decodes,
/// a new line, `X509 certificate: ` and what parsing its contents as an
/// X.509 certificate gave.
pub open spec fn certificate_description(pem: Seq<u8>) -> Option<Seq<char>> {
    match pem_contents_of(pem) {
        Some(der) => Some("\nX509 certificate: "@ + certificate_report_of(der)),
        None => None,
    }
}

/// Decodes the first PEM block of `pem` and describes the X.509
/// certificate it holds; `None` when the PEM block does not decode.
fn describe_certificate(pem: &[u8]) -> (report: Option<String>)
    ensures
        match report {
            Some(text) => certificate_description(pem@) == Some(text@),
            None => certificate_description(pem@) is None,
        },
{
    match parse_pem_contents(pem) {
        Some(contents) => {
            let mut text = String::from_str("\nX509 certificate: ");
            let parsed = certificate_report(contents.as_slice());
            text.append(parsed.as_str());
            Some(text)
        },
        None => None,
    }
}

/// Describes the device root certificate `DEVICE_CERTIFICATE_PEM`.
pub fn parse_device_certificate() -> (report: Option<String>)
    ensures
        match report {
            Some(text) => certificate_description(DEVICE_CERTIFICATE_PEM.spec_bytes()) == Some(text@),
            None => certificate_description(DEVICE_CERTIFICATE_PEM.spec_bytes()) is None,
        },
{
    describe_certificate(DEVICE_CERTIFICATE_PEM.as_bytes())
}

} // verus!
