//! Tests for the plaintext generator, recipient parsing, configuration
//! defaults and the error taxonomy.

use templar::config::get_defaults;
use templar::errors::EmailError;
use templar::recipients::parse_recipients;
use templar::strip;

#[test]
fn strip_removes_tags() {
    assert_eq!(strip("<b>Hi</b> there"), "Hi there");
}

#[test]
fn strip_discards_tag_content() {
    assert_eq!(strip("<a href=\"x\">link</a>"), "link");
}

#[test]
fn strip_unclosed_tag_drops_rest() {
    assert_eq!(strip("a<unclosed"), "a");
}

#[test]
fn strip_stray_close_is_dropped() {
    assert_eq!(strip("a>b"), "ab");
}

#[test]
fn strip_substitutes_four_entities() {
    assert_eq!(strip("a&nbsp;b&amp;c&lt;d&gt;e"), "a b&c<d>e");
}

#[test]
fn strip_entity_substitution_is_one_pass() {
    assert_eq!(strip("&amp;lt;"), "&lt;");
}

#[test]
fn strip_is_idempotent_on_plain_text() {
    let s = "plain text without markup or entities.";
    let once = strip(s);
    assert_eq!(once, s);
    assert_eq!(strip(&once), once);
}

#[test]
fn strip_of_empty_is_empty() {
    assert_eq!(strip(""), "");
}

#[test]
fn parse_recipients_rejects_empty_input() {
    let err = parse_recipients("").unwrap_err();
    assert_eq!(err, "invalid recipient: ");
}

#[test]
fn parse_recipients_trims_whitespace_and_keeps_order() {
    let got = parse_recipients(" a@x.com ,\tb@y.org , Carol <c@z.net>").unwrap();
    let want: Vec<lettre::message::Mailbox> = vec![
        "a@x.com".parse().unwrap(),
        "b@y.org".parse().unwrap(),
        "Carol <c@z.net>".parse().unwrap(),
    ];
    assert_eq!(got, want);
}

#[test]
fn parse_recipients_single_address() {
    let got = parse_recipients("a@x.com").unwrap();
    assert_eq!(got.len(), 1);
    assert_eq!(got[0], "a@x.com".parse().unwrap());
}

#[test]
fn parse_recipients_rejects_invalid_entry() {
    let err = parse_recipients("not-an-address").unwrap_err();
    assert_eq!(err, "invalid recipient: not-an-address");
}

#[test]
fn parse_recipients_names_first_invalid_entry() {
    let err = parse_recipients("a@x.com, bad entry, c@z.net").unwrap_err();
    assert_eq!(err, "invalid recipient: bad entry");
}

#[test]
fn parse_recipients_rejects_trailing_comma() {
    let err = parse_recipients("a@x.com,").unwrap_err();
    assert_eq!(err, "invalid recipient: ");
}

#[test]
fn defaults_match_documented_values() {
    let c = get_defaults();
    assert_eq!(c.log_file, "out.log");
    assert_eq!(c.log_dir, "logs");
    assert!(c.log_to_file);
    assert!(c.log_to_stdout);
    assert_eq!(c.log_level, "DEBUG");
    assert_eq!(c.templates_dir, "src/templates");
    assert_eq!(c.outbox_dir, "outbox");
    assert_eq!(c.listen_addr, "127.0.0.1");
    assert_eq!(c.listen_port, 8080);
    assert_eq!(c.smtp_host, "localhost");
    assert_eq!(c.smtp_port, 587);
    assert_eq!(c.smtp_username, "user");
    assert_eq!(c.smtp_password, "password");
    assert_eq!(c.mail_from, "test@localhost.com");
    assert_eq!(c.mail_reply_to, "test@localhost.com");
    assert_eq!(c.transport, "file");
}

#[test]
fn error_status_codes_follow_the_taxonomy() {
    assert_eq!(EmailError::TemplateNotFound("x".to_string()).status_code(), 404);
    assert_eq!(EmailError::RenderError("x".to_string()).status_code(), 422);
    assert_eq!(EmailError::SmtpError("x".to_string()).status_code(), 500);
    assert_eq!(EmailError::Config("x".to_string()).status_code(), 500);
}

#[test]
fn error_messages_carry_kind_prefix_and_detail() {
    assert_eq!(
        EmailError::TemplateNotFound("welcome".to_string()).message(),
        "template not found: welcome"
    );
    assert_eq!(EmailError::RenderError("boom".to_string()).message(), "render error: boom");
    assert_eq!(EmailError::SmtpError("down".to_string()).message(), "smtp error: down");
    assert_eq!(EmailError::Config("bad".to_string()).message(), "config error: bad");
}
