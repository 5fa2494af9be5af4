//! Configuration record for the email-sending service and its defaults.

use vstd::prelude::*;

verus! {

/// All configuration options the service consumes: logging, listener,
/// templates location, SMTP parameters, addressing, and transport choice.
#[derive(Debug, Clone)]
pub struct ApiConfig {
    pub log_to_file: bool,
    pub log_to_stdout: bool,
    pub log_level: String,
    pub log_dir: String,
    pub log_file: String,
    pub templates_dir: String,
    pub outbox_dir: String,
    pub listen_addr: String,
    pub listen_port: u16,
    pub smtp_host: String,
    pub smtp_port: u16,
    pub smtp_username: String,
    pub smtp_password: String,
    pub mail_from: String,
    pub mail_reply_to: String,
    pub transport: String,
}

/// Returns an `ApiConfig` populated with the default value of every option.
/// Callers may override any of them (typically from environment variables)
/// before handing the record to the rest of the application.
pub fn get_defaults() -> (c: ApiConfig)
    ensures
        c.log_file@ == "out.log"@,
        c.log_dir@ == "logs"@,
        c.log_to_file == true,
        c.log_to_stdout == true,
        c.log_level@ == "DEBUG"@,
        c.templates_dir@ == "src/templates"@,
        c.outbox_dir@ == "outbox"@,
        c.listen_addr@ == "127.0.0.1"@,
        c.listen_port == 8080,
        c.smtp_host@ == "localhost"@,
        c.smtp_port == 587,
        c.smtp_username@ == "user"@,
        c.smtp_password@ == "password"@,
        c.mail_from@ == "test@localhost.com"@,
        c.mail_reply_to@ == "test@localhost.com"@,
        c.transport@ == "file"@,
{
    ApiConfig {
        log_file: "out.log".to_owned(),
        log_dir: "logs".to_owned(),
        log_to_file: true,
        log_to_stdout: true,
        log_level: "DEBUG".to_owned(),
        templates_dir: "src/templates".to_owned(),
        outbox_dir: "outbox".to_owned(),
        listen_addr: "127.0.0.1".to_owned(),
        listen_port: 8080,
        smtp_host: "localhost".to_owned(),
        smtp_port: 587,
        smtp_username: "user".to_owned(),
        smtp_password: "password".to_owned(),
        mail_from: "test@localhost.com".to_owned(),
        mail_reply_to: "test@localhost.com".to_owned(),
        transport: "file".to_owned(),
    }
}

} // verus!
