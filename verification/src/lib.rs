//! A small email-dispatch library: strict template rendering, plaintext
//! derivation from HTML, multipart message assembly, and delivery through a
//! pluggable transport (SMTP relay or local outbox files).

pub mod config;
pub mod email;
pub mod errors;
pub mod message;
pub mod recipients;
pub mod registry;
pub mod strutil;
pub mod text;
pub mod transport;

pub use config::{get_defaults, ApiConfig};
pub use email::{render_and_send, EmailState, SendRequest, TemplateSource};
pub use errors::EmailError;
pub use registry::TemplateRegistry;
pub use text::strip;
pub use transport::Mailer;
