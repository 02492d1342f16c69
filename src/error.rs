//! The application-wide error type.
use vstd::prelude::*;
use crate::provider::ParseProviderError;

verus! {

#[verifier::external_type_specification]
#[verifier::external_body]
pub struct ExIoError(std::io::Error);

/// Everything that can go wrong across the application.
#[derive(Debug)]
pub enum EsimMailerError {
    /// An unsupported email provider was specified
    UnsupportedProvider(String),
    /// OAuth authentication failed
    OAuthError(String),
    /// Email sending operation failed
    EmailError(String),
    /// Template processing failed
    TemplateError(String),
    /// File system operations failed
    IoError(std::io::Error),
    /// Network operations failed
    NetworkError(String),
    /// Encryption/decryption operations failed
    CryptoError(String),
    /// Configuration is invalid or missing
    ConfigError(String),
    /// GUI operations failed
    GuiError(String),
}

/// The result of an operation of the application.
pub type Result<T> = std::result::Result<T, EsimMailerError>;

/// The human-readable prefix that the message of each kind begins with.
pub open spec fn prefix_spec(e: &EsimMailerError) -> Seq<char> {
    match e {
        EsimMailerError::UnsupportedProvider(_) => "Unsupported email provider: "@,
        EsimMailerError::OAuthError(_) => "OAuth authentication failed: "@,
        EsimMailerError::EmailError(_) => "Email operation failed: "@,
        EsimMailerError::TemplateError(_) => "Template processing failed: "@,
        EsimMailerError::IoError(_) => "IO operation failed: "@,
        EsimMailerError::NetworkError(_) => "Network operation failed: "@,
        EsimMailerError::CryptoError(_) => "Cryptographic operation failed: "@,
        EsimMailerError::ConfigError(_) => "Configuration error: "@,
        EsimMailerError::GuiError(_) => "GUI error: "@,
    }
}

/// The detail that follows the prefix, for the kinds that carry text.
pub open spec fn detail_spec(e: &EsimMailerError) -> Option<Seq<char>> {
    match e {
        EsimMailerError::UnsupportedProvider(m) => Some(m@),
        EsimMailerError::OAuthError(m) => Some(m@),
        EsimMailerError::EmailError(m) => Some(m@),
        EsimMailerError::TemplateError(m) => Some(m@),
        EsimMailerError::IoError(_) => None,
        EsimMailerError::NetworkError(m) => Some(m@),
        EsimMailerError::CryptoError(m) => Some(m@),
        EsimMailerError::ConfigError(m) => Some(m@),
        EsimMailerError::GuiError(m) => Some(m@),
    }
}

/// Relies on `std::io::Error`'s `Display`, for the text of a platform error.
#[verifier::external_body]
pub(crate) fn io_error_text(e: &std::io::Error) -> (r: String) {
    e.to_string()
}

impl EsimMailerError {
    /// The human-readable message: the kind's prefix, then its detail.
    pub fn to_string(&self) -> (r: String)
        ensures
            r@.len() >= prefix_spec(self).len(),
            r@.subrange(0, prefix_spec(self).len() as int) == prefix_spec(self),
            detail_spec(self) matches Some(d) ==> r@ == prefix_spec(self) + d,
    {
        let (prefix, detail) = match self {
            EsimMailerError::UnsupportedProvider(m) => ("Unsupported email provider: ", m.as_str()),
            EsimMailerError::OAuthError(m) => ("OAuth authentication failed: ", m.as_str()),
            EsimMailerError::EmailError(m) => ("Email operation failed: ", m.as_str()),
            EsimMailerError::TemplateError(m) => ("Template processing failed: ", m.as_str()),
            EsimMailerError::IoError(err) => {
                let text = io_error_text(err);
                let r = String::from_str("IO operation failed: ").concat(text.as_str());
                proof {
                    assert(r@.subrange(0, prefix_spec(self).len() as int) =~= prefix_spec(self));
                }
                return r;
            },
            EsimMailerError::NetworkError(m) => ("Network operation failed: ", m.as_str()),
            EsimMailerError::CryptoError(m) => ("Cryptographic operation failed: ", m.as_str()),
            EsimMailerError::ConfigError(m) => ("Configuration error: ", m.as_str()),
            EsimMailerError::GuiError(m) => ("GUI error: ", m.as_str()),
        };
        let r = String::from_str(prefix).concat(detail);
        proof {
            assert(prefix@ == prefix_spec(self));
            assert(r@.subrange(0, prefix_spec(self).len() as int) =~= prefix_spec(self));
        }
        r
    }

    /// The underlying error, which only a file-system failure has.
    pub fn source(&self) -> (r: Option<&std::io::Error>)
        ensures
            r is Some <==> self is IoError,
            self matches EsimMailerError::IoError(e) ==> r == Some(e),
    {
        match self {
            EsimMailerError::IoError(err) => Some(err),
            _ => None,
        }
    }
}

impl From<std::io::Error> for EsimMailerError {
    fn from(err: std::io::Error) -> (r: EsimMailerError)
        ensures
            r == EsimMailerError::IoError(err),
    {
        EsimMailerError::IoError(err)
    }
}

impl vstd::std_specs::convert::FromSpecImpl<std::io::Error> for EsimMailerError {
    open spec fn obeys_from_spec() -> bool {
        true
    }

    open spec fn from_spec(v: std::io::Error) -> EsimMailerError {
        EsimMailerError::IoError(v)
    }
}


/// What can go wrong while sending one notification.
#[derive(Debug)]
pub enum EmailError {
    /// The sender's domain is served by no supported provider
    UnsupportedProvider(ParseProviderError),
    /// An address could not be parsed or the MIME message could not be assembled
    MessageError(String),
    /// The relay or its TLS could not be configured, or the submission failed
    SmtpError(String),
    /// Reading the image failed
    IoError(std::io::Error),
}

/// The message of a provider refusal.
pub open spec fn parse_provider_text(address: Seq<char>) -> Seq<char> {
    "No supported email provider for '"@ + address + "'"@
}

impl ParseProviderError {
    /// The human-readable message, which quotes the refused address.
    pub fn to_string(&self) -> (r: String)
        ensures
            r@ == parse_provider_text(self.0@),
    {
        String::from_str("No supported email provider for '").concat(self.0.as_str()).concat("'")
    }
}

/// The message of an email error whose kind carries text.
pub open spec fn email_error_text(e: &EmailError) -> Option<Seq<char>> {
    match e {
        EmailError::UnsupportedProvider(p) => Some(
            "Unsupported email provider: "@ + parse_provider_text(p.0@),
        ),
        EmailError::MessageError(m) => Some("Email message error: "@ + m@),
        EmailError::SmtpError(m) => Some("SMTP error: "@ + m@),
        EmailError::IoError(_) => None,
    }
}

impl EmailError {
    /// The human-readable message: the kind's prefix, then its detail.
    pub fn to_string(&self) -> (r: String)
        ensures
            email_error_text(self) matches Some(t) ==> r@ == t,
            self is IoError ==> r@.len() >= 10 && r@.subrange(0, 10) == "IO error: "@,
    {
        match self {
            EmailError::UnsupportedProvider(p) => {
                let t = p.to_string();
                String::from_str("Unsupported email provider: ").concat(t.as_str())
            },
            EmailError::MessageError(m) => String::from_str("Email message error: ").concat(
                m.as_str(),
            ),
            EmailError::SmtpError(m) => String::from_str("SMTP error: ").concat(m.as_str()),
            EmailError::IoError(err) => {
                let t = io_error_text(err);
                let r = String::from_str("IO error: ").concat(t.as_str());
                proof {
                    reveal_strlit("IO error: ");
                    assert(r@.subrange(0, 10) =~= "IO error: "@);
                }
                r
            },
        }
    }
}

impl From<std::io::Error> for EmailError {
    fn from(err: std::io::Error) -> (r: EmailError)
        ensures
            r == EmailError::IoError(err),
    {
        EmailError::IoError(err)
    }
}

impl vstd::std_specs::convert::FromSpecImpl<std::io::Error> for EmailError {
    open spec fn obeys_from_spec() -> bool {
        true
    }

    open spec fn from_spec(v: std::io::Error) -> EmailError {
        EmailError::IoError(v)
    }
}

} // verus!
