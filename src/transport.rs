//! The transport configurator: each provider's relay, reached on the
//! submission port with mandatory TLS and XOAUTH2 as the only mechanism.
use vstd::prelude::*;
use crate::error::EmailError;
use crate::provider::{host_spec, name_spec, Provider, SUBMISSION_PORT};
use lettre::transport::smtp::authentication::{Credentials, Mechanism};
use lettre::transport::smtp::client::{Tls, TlsParameters};
use lettre::transport::smtp::SmtpTransportBuilder;
use lettre::SmtpTransport;

verus! {

#[verifier::external_type_specification]
#[verifier::external_body]
pub struct ExSmtpTransport(SmtpTransport);

#[verifier::external_type_specification]
#[verifier::external_body]
pub struct ExSmtpTransportBuilder(SmtpTransportBuilder);

#[verifier::external_type_specification]
#[verifier::external_body]
pub struct ExTlsParameters(TlsParameters);

#[verifier::external_type_specification]
#[verifier::external_body]
pub struct ExCredentials(Credentials);

#[verifier::external_type_specification]
#[verifier::external_body]
pub struct ExSmtpError(lettre::transport::smtp::Error);

/// The authentication mechanisms that a relay may be asked for.
#[derive(Debug, PartialEq, Eq, Structural, Clone, Copy)]
pub enum AuthMechanism {
    /// An OAuth2 bearer token, never sent as a password.
    Xoauth2,
}

/// How the connection to a relay is protected.
#[derive(Debug, PartialEq, Eq, Structural, Clone, Copy)]
pub enum TlsMode {
    /// Upgrade with STARTTLS and refuse to go on without it.
    Required,
    /// Upgrade with STARTTLS where the relay offers it.
    Opportunistic,
}

/// The server and port that an SMTP transport builder is set to reach.
pub uninterp spec fn builder_endpoint(b: SmtpTransportBuilder) -> (Seq<char>, u16);

/// The TLS setting of an SMTP transport builder: the name of the `Tls`
/// variant (`none`, `opportunistic`, `required`, `wrapper`) and the domain its
/// parameters are bound to (empty for `none`).
pub uninterp spec fn builder_tls(b: SmtpTransportBuilder) -> (Seq<char>, Seq<char>);

/// The authentication mechanisms, by name, that an SMTP transport builder
/// offers, in order.
pub uninterp spec fn builder_mechanisms(b: SmtpTransportBuilder) -> Seq<Seq<char>>;

/// The user name and secret that an SMTP transport builder authenticates
/// with, if any.
pub uninterp spec fn builder_credentials(b: SmtpTransportBuilder) -> Option<(Seq<char>, Seq<char>)>;

/// The server and port that an SMTP transport reaches.
pub uninterp spec fn transport_endpoint(t: SmtpTransport) -> (Seq<char>, u16);

/// The TLS setting of an SMTP transport, as for a builder.
pub uninterp spec fn transport_tls(t: SmtpTransport) -> (Seq<char>, Seq<char>);

/// The authentication mechanisms, by name, that an SMTP transport offers.
pub uninterp spec fn transport_mechanisms(t: SmtpTransport) -> Seq<Seq<char>>;

/// The user name and secret that an SMTP transport authenticates with, if any.
pub uninterp spec fn transport_credentials(t: SmtpTransport) -> Option<(Seq<char>, Seq<char>)>;

/// The domain that TLS parameters are bound to.
pub uninterp spec fn tls_domain(p: TlsParameters) -> Seq<char>;

/// The user name and secret that credentials hold.
pub uninterp spec fn credentials_view(c: Credentials) -> (Seq<char>, Seq<char>);

/// A transport set up for a provider's relay: its host on port 587, TLS
/// required and bound to that host, XOAUTH2 as the only mechanism, and the
/// sender and bearer token as credentials.
pub open spec fn transport_for(t: SmtpTransport, p: Provider, user: Seq<char>, token: Seq<char>) -> bool {
    &&& transport_endpoint(t) == (host_spec(p), 587u16)
    &&& transport_tls(t) == ("required"@, host_spec(p))
    &&& transport_mechanisms(t) == seq!["XOAUTH2"@]
    &&& transport_credentials(t) == Some((user, token))
}

/// The name lettre gives an authentication mechanism.
pub open spec fn mechanism_name(m: AuthMechanism) -> Seq<char> {
    match m {
        AuthMechanism::Xoauth2 => "XOAUTH2"@,
    }
}

/// The name of the `Tls` variant that stands for a TLS mode.
pub open spec fn tls_mode_word(mode: TlsMode) -> Seq<char> {
    match mode {
        TlsMode::Required => "required"@,
        TlsMode::Opportunistic => "opportunistic"@,
    }
}

/// How one send reaches a provider's relay.
pub struct TransportProfile {
    pub provider: Provider,
    pub host: &'static str,
    pub port: u16,
    pub tls: TlsMode,
    pub mechanisms: Vec<AuthMechanism>,
    pub username: String,
    pub token: String,
}

/// The profile of a provider for a sender and a token.
pub fn transport_profile(provider: &Provider, email_address: &str, token: String) -> (r:
    TransportProfile)
    ensures
        r.provider == *provider,
        r.host@ == host_spec(*provider),
        r.port == 587,
        r.tls == TlsMode::Required,
        r.mechanisms@ == seq![AuthMechanism::Xoauth2],
        r.username@ == email_address@,
        r.token@ == token@,
{
    let mut mechanisms: Vec<AuthMechanism> = Vec::new();
    mechanisms.push(AuthMechanism::Xoauth2);
    TransportProfile {
        provider: *provider,
        host: provider.smtp_host(),
        port: SUBMISSION_PORT,
        tls: TlsMode::Required,
        mechanisms,
        username: String::from_str(email_address),
        token,
    }
}

/// Relies on `SmtpTransport::relay`: a builder for `host`, or the error of
/// its TLS setup.
#[verifier::external_body]
fn smtp_relay(host: &str) -> (r: Result<SmtpTransportBuilder, lettre::transport::smtp::Error>)
    ensures
        r is Ok ==> builder_endpoint(r->Ok_0) == (host@, 465u16),
        r is Ok ==> builder_tls(r->Ok_0) == ("wrapper"@, host@),
        r is Ok ==> builder_credentials(r->Ok_0) is None,
{
    SmtpTransport::relay(host)
}

/// Relies on `Credentials::new`: the user name and the secret, here the
/// bearer token.
#[verifier::external_body]
fn credentials(user: String, token: String) -> (r: Credentials)
    ensures
        credentials_view(r) == (user@, token@),
{
    Credentials::new(user, token)
}

/// Relies on `SmtpTransportBuilder::credentials`, which sets the
/// credentials and nothing else.
#[verifier::external_body]
fn set_credentials(b: SmtpTransportBuilder, c: Credentials) -> (r: SmtpTransportBuilder)
    ensures
        builder_endpoint(r) == builder_endpoint(b),
        builder_tls(r) == builder_tls(b),
        builder_mechanisms(r) == builder_mechanisms(b),
        builder_credentials(r) == Some(credentials_view(c)),
{
    b.credentials(c)
}

/// Relies on `SmtpTransportBuilder::authentication`: the relay is offered
/// exactly the given mechanisms.
#[verifier::external_body]
fn set_mechanisms(b: SmtpTransportBuilder, mechanisms: &Vec<AuthMechanism>) -> (r:
    SmtpTransportBuilder)
    ensures
        builder_endpoint(r) == builder_endpoint(b),
        builder_tls(r) == builder_tls(b),
        builder_mechanisms(r) == mechanisms@.map_values(|m: AuthMechanism| mechanism_name(m)),
        builder_credentials(r) == builder_credentials(b),
{
    b.authentication(mechanisms.iter().map(|m| match m {
        AuthMechanism::Xoauth2 => Mechanism::Xoauth2,
    }).collect())
}

/// Relies on `SmtpTransportBuilder::port`, which sets the port and nothing
/// else.
#[verifier::external_body]
fn set_port(b: SmtpTransportBuilder, port: u16) -> (r: SmtpTransportBuilder)
    ensures
        builder_endpoint(r) == (builder_endpoint(b).0, port),
        builder_tls(r) == builder_tls(b),
        builder_mechanisms(r) == builder_mechanisms(b),
        builder_credentials(r) == builder_credentials(b),
{
    b.port(port)
}

/// Relies on `TlsParameters::new`: parameters bound to `domain`, or the error
/// of their construction.
#[verifier::external_body]
fn tls_parameters(domain: String) -> (r: Result<TlsParameters, lettre::transport::smtp::Error>)
    ensures
        r is Ok ==> tls_domain(r->Ok_0) == domain@,
{
    TlsParameters::new(domain)
}

/// Relies on `SmtpTransportBuilder::tls`, with the `Tls` variant that
/// stands for `mode`; it sets the TLS setting and nothing else.
#[verifier::external_body]
fn set_tls(b: SmtpTransportBuilder, mode: TlsMode, p: TlsParameters) -> (r: SmtpTransportBuilder)
    ensures
        builder_endpoint(r) == builder_endpoint(b),
        builder_tls(r) == (tls_mode_word(mode), tls_domain(p)),
        builder_mechanisms(r) == builder_mechanisms(b),
        builder_credentials(r) == builder_credentials(b),
{
    b.tls(match mode {
        TlsMode::Required => Tls::Required(p),
        TlsMode::Opportunistic => Tls::Opportunistic(p),
    })
}

/// Relies on `SmtpTransportBuilder::build`, which makes no connection and
/// hands the builder's settings to the transport unchanged.
#[verifier::external_body]
fn build_transport(b: SmtpTransportBuilder) -> (r: SmtpTransport)
    ensures
        transport_endpoint(r) == builder_endpoint(b),
        transport_tls(r) == builder_tls(b),
        transport_mechanisms(r) == builder_mechanisms(b),
        transport_credentials(r) == builder_credentials(b),
{
    b.build()
}

/// Relies on `lettre::transport::smtp::Error`'s `Display`, for the
/// transport's diagnostic.
#[verifier::external_body]
fn smtp_error_text(e: &lettre::transport::smtp::Error) -> (r: String) {
    e.to_string()
}

/// The error for a relay that could not be set up.
pub open spec fn relay_error_text(name: Seq<char>, diagnostic: Seq<char>) -> Seq<char> {
    "Failed to connect to "@ + name + " SMTP: "@ + diagnostic
}

/// The error for TLS parameters that could not be built.
pub open spec fn tls_error_text(name: Seq<char>, diagnostic: Seq<char>) -> Seq<char> {
    "Failed to configure TLS for "@ + name + ": "@ + diagnostic
}

/// An SMTP client for the provider's relay: its host, port 587, TLS required
/// with parameters bound to that host, the sender and token as credentials,
/// and XOAUTH2 as the only mechanism. It connects to nothing until a send.
///
/// A failure names the provider and carries the transport's diagnostic.
pub fn configure_mailer(provider: &Provider, email_address: &str, token: String) -> (r: Result<
    SmtpTransport,
    EmailError,
>)
    ensures
        r matches Ok(t) ==> transport_for(t, *provider, email_address@, token@),
        r is Err ==> (r matches Err(EmailError::SmtpError(m)) && ((exists|d: Seq<char>|
            m@ == #[trigger] relay_error_text(name_spec(*provider), d)) || (exists|d: Seq<char>|
            m@ == #[trigger] tls_error_text(name_spec(*provider), d)))),
{
    let profile = transport_profile(provider, email_address, token);
    let name = provider.to_string();
    let builder = match smtp_relay(profile.host) {
        Ok(b) => b,
        Err(e) => {
            let d = smtp_error_text(&e);
            let m = String::from_str("Failed to connect to ").concat(name.as_str()).concat(
                " SMTP: ",
            ).concat(d.as_str());
            proof {
                assert(m@ == relay_error_text(name_spec(*provider), d@));
            }
            return Err(EmailError::SmtpError(m));
        },
    };
    let builder = set_credentials(builder, credentials(profile.username, profile.token));
    let builder = set_mechanisms(builder, &profile.mechanisms);
    let builder = set_port(builder, profile.port);
    let params = match tls_parameters(String::from_str(profile.host)) {
        Ok(p) => p,
        Err(e) => {
            let d = smtp_error_text(&e);
            let m = String::from_str("Failed to configure TLS for ").concat(name.as_str()).concat(
                ": ",
            ).concat(d.as_str());
            proof {
                assert(m@ == tls_error_text(name_spec(*provider), d@));
            }
            return Err(EmailError::SmtpError(m));
        },
    };
    let t = build_transport(set_tls(builder, profile.tls, params));
    proof {
        assert(profile.mechanisms@.map_values(|m: AuthMechanism| mechanism_name(m)) =~= seq![
            "XOAUTH2"@,
        ]);
    }
    Ok(t)
}

} // verus!
