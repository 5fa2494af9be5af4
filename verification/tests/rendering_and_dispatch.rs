//! Tests that exercise the registry against the real template engine, the
//! message assembler against the real mail crate, and the full dispatch
//! pipeline over both transports.

use std::collections::HashMap;

use templar::email::{render_and_send, EmailState, SendRequest, TemplateSource};
use templar::errors::EmailError;
use templar::message::assemble;
use templar::registry::TemplateRegistry;
use templar::transport::{build_file_mailer, build_smtp_mailer};

fn vars_with(key: &str, value: &str) -> HashMap<String, serde_json::Value> {
    let mut m = HashMap::new();
    m.insert(key.to_string(), serde_json::Value::String(value.to_string()));
    m
}

fn initialized_registry(base: Option<&str>) -> TemplateRegistry {
    let mut reg = TemplateRegistry::new();
    reg.initialize(base.map(|s| s.to_string())).unwrap();
    reg
}

fn file_state(reply_to: Option<&str>) -> EmailState {
    let mailer = build_file_mailer("/tmp");
    EmailState::build(mailer, "Sender <from@x.com>", reply_to, "templates".to_string()).unwrap()
}

#[test]
fn render_substitutes_supplied_variable() {
    let reg = initialized_registry(None);
    let out = reg.render("Hello {{name}}!", &vars_with("name", "Ann")).unwrap();
    assert_eq!(out, "Hello Ann!");
}

#[test]
fn render_strict_mode_rejects_missing_variable() {
    let reg = initialized_registry(None);
    let err = reg.render("Hello {{name}}!", &HashMap::new());
    assert!(err.is_err());
}

#[test]
fn render_strict_mode_round_trip() {
    let reg = initialized_registry(None);
    let tpl = "{{greeting}}, world";
    assert!(reg.render(tpl, &HashMap::new()).is_err());
    assert_eq!(reg.render(tpl, &vars_with("greeting", "Hi")).unwrap(), "Hi, world");
}

#[test]
fn render_uses_base_partial() {
    let reg = initialized_registry(Some("<html>{{> @partial-block}}</html>"));
    let out = reg.render("{{#> base}}Inner{{/base}}", &HashMap::new()).unwrap();
    assert_eq!(out, "<html>Inner</html>");
}

#[test]
fn registry_first_initialization_wins() {
    let mut reg = TemplateRegistry::new();
    reg.initialize(Some("ONE".to_string())).unwrap();
    reg.initialize(Some("TWO".to_string())).unwrap();
    let out = reg.render("{{#> base}}{{/base}}", &HashMap::new()).unwrap();
    assert_eq!(out, "ONE");
}

#[test]
fn registry_rejects_bad_partial_then_accepts_good_one() {
    let mut reg = TemplateRegistry::new();
    assert!(reg.initialize(Some("{{#if}}".to_string())).is_err());
    reg.initialize(Some("OK".to_string())).unwrap();
    let out = reg.render("{{#> base}}{{/base}}", &HashMap::new()).unwrap();
    assert_eq!(out, "OK");
}

#[test]
fn assemble_builds_two_part_alternative_in_order() {
    let from = "Sender <from@x.com>".parse().unwrap();
    let reply = Some("reply@x.com".parse().unwrap());
    let to = vec!["a@x.com".parse().unwrap(), "b@x.com".parse().unwrap()];
    let msg = assemble(&from, &reply, &to, "Hi", "<p>Hello Ann</p>").unwrap();
    let raw = String::from_utf8_lossy(&msg.formatted()).to_string();
    assert!(raw.contains("a@x.com"));
    assert!(raw.contains("b@x.com"));
    assert!(raw.contains("Reply-To: reply@x.com"));
    assert!(raw.contains("Subject: Hi"));
    assert!(raw.contains("Hello Ann"));
    let plain = raw.find("text/plain").unwrap();
    let html = raw.find("text/html").unwrap();
    assert!(plain < html);
}

#[test]
fn assemble_omits_reply_to_when_unset() {
    let from = "from@x.com".parse().unwrap();
    let to = vec!["a@x.com".parse().unwrap()];
    let msg = assemble(&from, &None, &to, "Hi", "x").unwrap();
    let raw = String::from_utf8_lossy(&msg.formatted()).to_string();
    assert!(!raw.contains("Reply-To"));
}

#[test]
fn assemble_fails_without_recipients() {
    let from = "from@x.com".parse().unwrap();
    let to: Vec<lettre::message::Mailbox> = Vec::new();
    assert!(assemble(&from, &None, &to, "Hi", "x").is_err());
}

#[test]
fn state_rejects_invalid_sender() {
    let mailer = build_file_mailer("/tmp");
    match EmailState::build(mailer, "nope", None, "t".to_string()) {
        Err(err) => assert_eq!(err, "invalid MAIL_FROM: nope"),
        Ok(_) => panic!("an invalid sender address must be rejected"),
    }
}

#[test]
fn state_drops_unparsable_reply_to() {
    let st = file_state(Some("not an address at all"));
    assert!(st.reply_to.is_none());
}

#[test]
fn dispatch_succeeds_over_file_transport() {
    let reg = initialized_registry(None);
    let state = file_state(None);
    let req = SendRequest {
        to: "a@x.com, b@x.com".to_string(),
        subject: "Hi".to_string(),
        template: "welcome".to_string(),
        vars: vars_with("name", "Ann"),
    };
    let tpl = TemplateSource::Found("Welcome {{name}}".to_string());
    let id = render_and_send(&state, &reg, &req, &tpl).unwrap();
    assert_eq!(id.len(), 22);
    assert!(id.chars().all(|c| c.is_ascii_alphanumeric()));
}

#[test]
fn dispatch_ids_are_fresh_per_send() {
    let reg = initialized_registry(None);
    let state = file_state(None);
    let req = SendRequest {
        to: "a@x.com".to_string(),
        subject: "Hi".to_string(),
        template: "welcome".to_string(),
        vars: HashMap::new(),
    };
    let tpl = TemplateSource::Found("fixed".to_string());
    let one = render_and_send(&state, &reg, &req, &tpl).unwrap();
    let req2 = SendRequest {
        to: "a@x.com".to_string(),
        subject: "Hi".to_string(),
        template: "welcome".to_string(),
        vars: HashMap::new(),
    };
    let two = render_and_send(&state, &reg, &req2, &tpl).unwrap();
    assert_ne!(one, two);
}

#[test]
fn finish_send_classifies_both_outcomes() {
    let id = templar::email::finish_send(Ok(())).unwrap();
    assert_eq!(id.len(), 22);
    assert!(id.chars().all(|c| c.is_ascii_alphanumeric()));
    match templar::email::finish_send(Err("relay down".to_string())) {
        Err(EmailError::SmtpError(d)) => assert_eq!(d, "relay down"),
        other => panic!("expected SmtpError, got {:?}", other),
    }
}

#[test]
fn dispatch_missing_template_maps_to_not_found() {
    let reg = initialized_registry(None);
    let state = file_state(None);
    let req = SendRequest {
        to: "a@x.com".to_string(),
        subject: "Hi".to_string(),
        template: "missing".to_string(),
        vars: HashMap::new(),
    };
    let err = render_and_send(&state, &reg, &req, &TemplateSource::Missing).unwrap_err();
    assert!(matches!(err, EmailError::TemplateNotFound(_)));
    assert_eq!(err.status_code(), 404);
    assert!(err.message().contains("missing"));
}

#[test]
fn dispatch_undefined_variable_maps_to_unprocessable() {
    let reg = initialized_registry(None);
    let state = file_state(None);
    let req = SendRequest {
        to: "a@x.com".to_string(),
        subject: "Hi".to_string(),
        template: "welcome".to_string(),
        vars: HashMap::new(),
    };
    let tpl = TemplateSource::Found("Hello {{undefinedVar}}".to_string());
    let err = render_and_send(&state, &reg, &req, &tpl).unwrap_err();
    assert!(matches!(err, EmailError::RenderError(_)));
    assert_eq!(err.status_code(), 422);
}

#[test]
fn dispatch_unreadable_template_maps_to_render_error() {
    let reg = initialized_registry(None);
    let state = file_state(None);
    let req = SendRequest {
        to: "a@x.com".to_string(),
        subject: "Hi".to_string(),
        template: "welcome".to_string(),
        vars: HashMap::new(),
    };
    let tpl = TemplateSource::Unreadable("permission denied".to_string());
    let err = render_and_send(&state, &reg, &req, &tpl).unwrap_err();
    match err {
        EmailError::RenderError(d) => assert_eq!(d, "permission denied"),
        other => panic!("expected RenderError, got {:?}", other),
    }
}

#[test]
fn dispatch_unreachable_smtp_maps_to_smtp_error() {
    let reg = initialized_registry(None);
    let mailer = build_smtp_mailer("127.0.0.1", 1, "user", "password").unwrap();
    let state = EmailState::build(mailer, "from@x.com", None, "t".to_string()).unwrap();
    let req = SendRequest {
        to: "a@x.com".to_string(),
        subject: "Hi".to_string(),
        template: "welcome".to_string(),
        vars: HashMap::new(),
    };
    let tpl = TemplateSource::Found("body".to_string());
    let err = render_and_send(&state, &reg, &req, &tpl).unwrap_err();
    assert!(matches!(err, EmailError::SmtpError(_)));
    assert_eq!(err.status_code(), 500);
}

#[test]
fn dispatch_rejects_bad_recipient_before_template_lookup() {
    let reg = initialized_registry(None);
    let state = file_state(None);
    let req = SendRequest {
        to: "not-an-address".to_string(),
        subject: "Hi".to_string(),
        template: "missing".to_string(),
        vars: HashMap::new(),
    };
    // The template source is Missing, yet the recipient error wins: parsing
    // runs first and short-circuits the pipeline.
    let err = render_and_send(&state, &reg, &req, &TemplateSource::Missing).unwrap_err();
    match err {
        EmailError::Config(d) => assert_eq!(d, "invalid recipient: not-an-address"),
        other => panic!("expected Config, got {:?}", other),
    }
    assert_eq!(
        render_and_send(&state, &reg, &req, &TemplateSource::Missing).unwrap_err().status_code(),
        500
    );
}
