//! Delivery transports: an authenticated STARTTLS SMTP relay for real
//! delivery, or a local directory of message files for development. Both sit
//! behind one `send` operation, so callers stay transport-agnostic.

use vstd::prelude::*;

verus! {

#[verifier::external_type_specification]
#[verifier::external_body]
pub struct ExSmtpTransport(lettre::SmtpTransport);

#[verifier::external_type_specification]
#[verifier::external_body]
pub struct ExFileTransport(lettre::transport::file::FileTransport);

/// The relay host an SMTP transport is bound to.
pub uninterp spec fn smtp_host_of(t: lettre::SmtpTransport) -> Seq<char>;

/// The relay port an SMTP transport is bound to.
pub uninterp spec fn smtp_port_of(t: lettre::SmtpTransport) -> u16;

/// The authentication username an SMTP transport carries, if any.
pub uninterp spec fn smtp_user_of(t: lettre::SmtpTransport) -> Option<Seq<char>>;

/// The authentication password an SMTP transport carries, if any.
pub uninterp spec fn smtp_pass_of(t: lettre::SmtpTransport) -> Option<Seq<char>>;

/// The operation timeout an SMTP transport is configured with, in whole
/// seconds, if one is set.
pub uninterp spec fn smtp_timeout_secs_of(t: lettre::SmtpTransport) -> Option<u64>;

/// Whether an SMTP transport demands a STARTTLS upgrade before speaking to
/// the server.
pub uninterp spec fn smtp_starttls_required(t: lettre::SmtpTransport) -> bool;

/// The output directory a file transport writes into.
pub uninterp spec fn file_dir(t: lettre::transport::file::FileTransport) -> Seq<char>;

/// Relies on `SmtpTransport::starttls_relay` and its builder methods `port`,
/// `credentials`, `timeout` and `build`, together with `Credentials::new`: a
/// successful build records exactly the given host, port and credentials,
/// the 15-second timeout, and required STARTTLS; the builder methods only
/// record settings and cannot fail. Construction can fail only while
/// assembling the TLS parameters, which does not contact the network;
/// nothing is promised about when that happens, and the error carries its
/// message text.
#[verifier::external_body]
fn smtp_transport(host: &str, port: u16, user: &str, pass: &str) -> (r: Result<
    lettre::SmtpTransport,
    String,
>)
    ensures
        r is Ok ==> ({
            let t = r->Ok_0;
            &&& smtp_host_of(t) == host@
            &&& smtp_port_of(t) == port
            &&& smtp_user_of(t) == Some(user@)
            &&& smtp_pass_of(t) == Some(pass@)
            &&& smtp_timeout_secs_of(t) == Some(15u64)
            &&& smtp_starttls_required(t)
        }),
{
    let creds = lettre::transport::smtp::authentication::Credentials::new(
        user.to_owned(),
        pass.to_owned(),
    );
    match lettre::SmtpTransport::starttls_relay(host) {
        Ok(b) => Ok(
            b.port(port).credentials(creds).timeout(
                Some(std::time::Duration::from_secs(15)),
            ).build(),
        ),
        Err(e) => Err(e.to_string()),
    }
}

/// Relies on `FileTransport::new`: a transport that writes each message as a
/// discrete file into the given directory. Construction only records the
/// path and cannot fail.
#[verifier::external_body]
fn file_transport(dir: &str) -> (t: lettre::transport::file::FileTransport)
    ensures
        file_dir(t) == dir@,
{
    lettre::transport::file::FileTransport::new(std::path::Path::new(dir))
}

/// Relies on `Transport::send` for `SmtpTransport`: attempts delivery over
/// the configured relay. Nothing is promised of the outcome: it depends on
/// the network and the remote server.
#[verifier::external_body]
fn smtp_send(t: &lettre::SmtpTransport, email: &lettre::Message) -> (r: Result<(), String>)
{
    lettre::Transport::send(t, email).map(|_| ()).map_err(|e| e.to_string())
}

/// Relies on `Transport::send` for `FileTransport`: writes the message into
/// the output directory. Nothing is promised of the outcome: it depends on
/// the state of the filesystem.
#[verifier::external_body]
fn file_send(t: &lettre::transport::file::FileTransport, email: &lettre::Message) -> (r: Result<
    (),
    String,
>)
{
    lettre::Transport::send(t, email).map(|_| ()).map_err(|e| e.to_string())
}

/// The transport selected at startup: SMTP for production, files for local
/// development. Immutable for the process lifetime.
pub enum Mailer {
    Smtp(lettre::SmtpTransport),
    File(lettre::transport::file::FileTransport),
}

impl Mailer {
    /// Unified send, so callers need not care which transport is in use.
    /// Errors of either transport are normalized to their message text; the
    /// outcome depends on the outside world, so nothing is promised of it.
    pub fn send(&self, email: &lettre::Message) -> (r: Result<(), String>) {
        match self {
            Mailer::Smtp(t) => smtp_send(t, email),
            Mailer::File(f) => file_send(f, email),
        }
    }
}

/// Configures the STARTTLS SMTP variant: a relay client bound to the given
/// host and port, authenticating with the given username and password, with
/// a fixed 15-second operation timeout.
pub fn build_smtp_mailer(host: &str, port: u16, user: &str, pass: &str) -> (r: Result<
    Mailer,
    String,
>)
    ensures
        r is Ok ==> r->Ok_0 is Smtp,
        r is Ok ==> ({
            let t = r->Ok_0->Smtp_0;
            &&& smtp_host_of(t) == host@
            &&& smtp_port_of(t) == port
            &&& smtp_user_of(t) == Some(user@)
            &&& smtp_pass_of(t) == Some(pass@)
            &&& smtp_timeout_secs_of(t) == Some(15u64)
            &&& smtp_starttls_required(t)
        }),
{
    match smtp_transport(host, port, user, pass) {
        Ok(t) => Ok(Mailer::Smtp(t)),
        Err(e) => Err(e),
    }
}

/// Configures the file variant, writing messages into `dir`. The caller is
/// expected to have created the directory; sends fail if it is missing.
pub fn build_file_mailer(dir: &str) -> (r: Mailer)
    ensures
        r is File,
        file_dir(r->File_0) == dir@,
{
    Mailer::File(file_transport(dir))
}

} // verus!
