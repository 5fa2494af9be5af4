//! The error taxonomy surfaced to callers: four kinds, each carrying a
//! human-readable detail string, classified once at the point of detection
//! and propagated unchanged.

use vstd::prelude::*;

verus! {

/// Domain errors surfaced to the handler layer.
#[derive(Debug)]
pub enum EmailError {
    /// The named template file does not exist.
    TemplateNotFound(String),
    /// The template exists but could not be read or rendered.
    RenderError(String),
    /// The transport failed to deliver the message.
    SmtpError(String),
    /// Bad addressing or message construction input.
    Config(String),
}

/// The HTTP status class an error maps to: missing templates are the
/// caller's lookup failure, render errors are unprocessable input, and
/// everything else is an internal failure.
pub open spec fn spec_status_code(e: EmailError) -> u16 {
    match e {
        EmailError::TemplateNotFound(_) => 404,
        EmailError::RenderError(_) => 422,
        EmailError::SmtpError(_) => 500,
        EmailError::Config(_) => 500,
    }
}

/// The caller-visible text of an error: a fixed kind prefix followed by the
/// detail recorded at the point of detection.
pub open spec fn spec_message(e: EmailError) -> Seq<char> {
    match e {
        EmailError::TemplateNotFound(n) => "template not found: "@ + n@,
        EmailError::RenderError(d) => "render error: "@ + d@,
        EmailError::SmtpError(d) => "smtp error: "@ + d@,
        EmailError::Config(d) => "config error: "@ + d@,
    }
}

impl EmailError {
    /// The HTTP status code this error maps to.
    pub fn status_code(&self) -> (c: u16)
        ensures
            c == spec_status_code(*self),
    {
        match self {
            EmailError::TemplateNotFound(_) => 404,
            EmailError::RenderError(_) => 422,
            EmailError::SmtpError(_) => 500,
            EmailError::Config(_) => 500,
        }
    }

    /// The caller-visible message text.
    pub fn message(&self) -> (m: String)
        ensures
            m@ == spec_message(*self),
    {
        match self {
            EmailError::TemplateNotFound(n) => {
                let mut m = String::from_str("template not found: ");
                m.append(n.as_str());
                m
            },
            EmailError::RenderError(d) => {
                let mut m = String::from_str("render error: ");
                m.append(d.as_str());
                m
            },
            EmailError::SmtpError(d) => {
                let mut m = String::from_str("smtp error: ");
                m.append(d.as_str());
                m
            },
            EmailError::Config(d) => {
                let mut m = String::from_str("config error: ");
                m.append(d.as_str());
                m
            },
        }
    }
}

} // verus!
