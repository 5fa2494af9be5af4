//! Dispatch orchestration: parse recipients, render the template in strict
//! mode, assemble the multipart message, send it through the configured
//! transport, and return a fresh delivery identifier. Every step
//! short-circuits on failure and classifies it into exactly one error kind.

use vstd::prelude::*;

use std::collections::HashMap;

use crate::errors::EmailError;
use crate::message::assemble;
use crate::recipients::{
    mailbox_ok, mailbox_repr, parse_mailbox, parse_recipients, parsed_mailbox,
    lemma_split_commas_nonempty, recipients_ok, split_commas, trim_spec,
};
use crate::registry::{hb_render, TemplateRegistry};
use crate::strutil::string_from_chars;
use crate::transport::Mailer;

verus! {

/// A caller's request: raw comma-separated recipients, a subject, a template
/// name (without extension), and the variables the template is rendered
/// against.
pub struct SendRequest {
    pub to: String,
    pub subject: String,
    pub template: String,
    pub vars: HashMap<String, serde_json::Value>,
}

/// The outcome of resolving a template name to its file under the templates
/// directory: the file is absent, unreadable, or its source text. The caller
/// resolves `{templates_dir}/{name}.hbs` and reads it; the library decides
/// what each outcome means.
pub enum TemplateSource {
    Missing,
    Unreadable(String),
    Found(String),
}

/// App-wide email state: the selected transport, the sender mailbox, the
/// optional reply-to mailbox, and the templates directory. Built once at
/// startup and read-only afterwards.
pub struct EmailState {
    pub mailer: Mailer,
    pub from: lettre::message::Mailbox,
    pub reply_to: Option<lettre::message::Mailbox>,
    pub templates_dir: String,
}

impl EmailState {
    /// Builds the state from plain configuration values: the sender address
    /// must parse as a mailbox; an unparsable reply-to address is dropped
    /// rather than rejected.
    pub fn build(mailer: Mailer, from: &str, reply_to: Option<&str>, templates_dir: String) -> (r:
        Result<EmailState, String>)
        ensures
            r is Ok <==> mailbox_ok(from@),
            r is Ok ==> ({
                let st = r->Ok_0;
                &&& st.mailer == mailer
                &&& mailbox_repr(st.from) == parsed_mailbox(from@)->Some_0
                &&& st.templates_dir == templates_dir
                &&& match reply_to {
                    Some(rs) => if mailbox_ok(rs@) {
                        st.reply_to is Some && mailbox_repr(st.reply_to->Some_0) == parsed_mailbox(
                            rs@,
                        )->Some_0
                    } else {
                        st.reply_to is None
                    },
                    None => st.reply_to is None,
                }
            }),
            r is Err ==> r->Err_0@ == "invalid MAIL_FROM: "@ + from@,
    {
        let from_mb = match parse_mailbox(from) {
            Some(mb) => mb,
            None => {
                let mut msg = String::from_str("invalid MAIL_FROM: ");
                msg.append(from);
                return Err(msg);
            },
        };
        let reply_mb = match reply_to {
            Some(rs) => parse_mailbox(rs),
            None => None,
        };
        Ok(EmailState { mailer, from: from_mb, reply_to: reply_mb, templates_dir })
    }
}

/// Classifies the template-resolution outcome and renders the source in
/// strict mode: an absent file is the caller's lookup failure, an unreadable
/// or unrenderable one is a render failure.
pub fn render_template(
    registry: &TemplateRegistry,
    name: &str,
    source: &TemplateSource,
    vars: &HashMap<String, serde_json::Value>,
) -> (r: Result<String, EmailError>)
    requires
        registry.initialized(),
    ensures
        match source {
            TemplateSource::Missing => r is Err && r->Err_0 is TemplateNotFound
                && r->Err_0->TemplateNotFound_0@ == name@,
            TemplateSource::Unreadable(d) => r is Err && r->Err_0 is RenderError
                && r->Err_0->RenderError_0@ == d@,
            TemplateSource::Found(src) => ({
                let out = hb_render(src@, registry.partials_map(), true, vars@);
                &&& registry.wf() ==> match r {
                    Ok(s) => out is Ok && s@ == out->Ok_0,
                    Err(e) => out is Err && e is RenderError && e->RenderError_0@ == out->Err_0,
                }
                &&& r is Err ==> r->Err_0 is RenderError
            }),
        },
{
    match source {
        TemplateSource::Missing => Err(EmailError::TemplateNotFound(name.to_owned())),
        TemplateSource::Unreadable(d) => Err(EmailError::RenderError(d.clone())),
        TemplateSource::Found(src) => {
            match registry.render(src.as_str(), vars) {
                Ok(html) => Ok(html),
                Err(e) => Err(EmailError::RenderError(e)),
            }
        },
    }
}

/// A character a delivery identifier may contain: ASCII letters and digits,
/// all URL-safe.
pub open spec fn is_delivery_id_char(c: char) -> bool {
    (48 <= c as u32 <= 57) || (65 <= c as u32 <= 90) || (97 <= c as u32 <= 122)
}

/// Relies on rand's `Alphanumeric` distribution sampled from the thread-local
/// generator: every sample is one ASCII alphanumeric byte (`A`-`Z`, `a`-`z`,
/// `0`-`9`). Nothing is promised about which one.
#[verifier::external_body]
fn random_alphanumeric() -> (b: u8)
    ensures
        (48 <= b <= 57) || (65 <= b <= 90) || (97 <= b <= 122),
{
    rand::Rng::sample(&mut rand::rng(), rand::distr::Alphanumeric)
}

/// Generates a compact pseudo message id: 22 URL-safe alphanumeric
/// characters. Not globally unique by construction; collisions are accepted
/// residual risk.
pub fn nanoid() -> (r: String)
    ensures
        r@.len() == 22,
        forall|k: int| 0 <= k < r@.len() ==> is_delivery_id_char(#[trigger] r@[k]),
{
    let mut v: Vec<char> = Vec::new();
    let mut i: usize = 0;
    while i < 22
        invariant
            i <= 22,
            v@.len() == i,
            forall|k: int| 0 <= k < v@.len() ==> is_delivery_id_char(#[trigger] v@[k]),
        decreases 22 - i,
    {
        let b = random_alphanumeric();
        v.push(b as char);
        i = i + 1;
    }
    string_from_chars(&v)
}

/// Turns a transport outcome into the caller's result: a successful send
/// yields a fresh 22-character delivery id, and a transport failure is
/// classified as `SmtpError` carrying the transport's message text, whatever
/// transport produced it.
pub fn finish_send(outcome: Result<(), String>) -> (r: Result<String, EmailError>)
    ensures
        match outcome {
            Ok(_) => r is Ok && r->Ok_0@.len() == 22 && forall|k: int|
                0 <= k < r->Ok_0@.len() ==> is_delivery_id_char(#[trigger] r->Ok_0@[k]),
            Err(d) => r is Err && r->Err_0 is SmtpError && r->Err_0->SmtpError_0@ == d@,
        },
{
    match outcome {
        Ok(_) => Ok(nanoid()),
        Err(e) => Err(EmailError::SmtpError(e)),
    }
}

/// Renders the requested template with the request's variables, builds a
/// multipart (plaintext + HTML) message to the parsed recipients, sends it
/// through the configured transport, and returns a fresh delivery id.
///
/// The steps run in a fixed order and short-circuit: invalid recipients are
/// rejected before the template is even looked at; a missing template is
/// reported before any render; only a message that rendered and assembled is
/// handed to the transport, so a transport error implies everything before
/// it succeeded.
pub fn render_and_send(
    state: &EmailState,
    registry: &TemplateRegistry,
    req: &SendRequest,
    template: &TemplateSource,
) -> (r: Result<String, EmailError>)
    requires
        registry.initialized(),
    ensures
        r is Ok ==> r->Ok_0@.len() == 22 && forall|k: int|
            0 <= k < r->Ok_0@.len() ==> is_delivery_id_char(#[trigger] r->Ok_0@[k]),
        !recipients_ok(req.to@) ==> r is Err && r->Err_0 is Config && exists|j: int|
            {
                &&& 0 <= j < split_commas(req.to@).len()
                &&& !mailbox_ok(#[trigger] trim_spec(split_commas(req.to@)[j]))
                &&& forall|k: int|
                    0 <= k < j ==> mailbox_ok(#[trigger] trim_spec(split_commas(req.to@)[k]))
                &&& r->Err_0->Config_0@ == "invalid recipient: "@ + trim_spec(
                    split_commas(req.to@)[j],
                )
            },
        recipients_ok(req.to@) ==> match template {
            TemplateSource::Missing => r is Err && r->Err_0 is TemplateNotFound
                && r->Err_0->TemplateNotFound_0@ == req.template@,
            TemplateSource::Unreadable(d) => r is Err && r->Err_0 is RenderError
                && r->Err_0->RenderError_0@ == d@,
            TemplateSource::Found(src) => ({
                let out = hb_render(src@, registry.partials_map(), true, req.vars@);
                &&& (registry.wf() && out is Err ==> r is Err && r->Err_0 is RenderError
                    && r->Err_0->RenderError_0@ == out->Err_0)
                &&& (registry.wf() && out is Ok ==> match r {
                    Ok(id) => id@.len() == 22 && forall|k: int|
                        0 <= k < id@.len() ==> is_delivery_id_char(#[trigger] id@[k]),
                    Err(e) => e is SmtpError,
                })
            }),
        },
{
    let to_list = match parse_recipients(req.to.as_str()) {
        Ok(l) => l,
        Err(msg) => {
            return Err(EmailError::Config(msg));
        },
    };
    let html = match render_template(registry, req.template.as_str(), template, &req.vars) {
        Ok(h) => h,
        Err(e) => {
            return Err(e);
        },
    };
    proof {
        lemma_split_commas_nonempty(req.to@);
    }
    let email = match assemble(
        &state.from,
        &state.reply_to,
        &to_list,
        req.subject.as_str(),
        html.as_str(),
    ) {
        Ok(m) => m,
        Err(e) => {
            let mut msg = String::from_str("message build error: ");
            msg.append(e.as_str());
            return Err(EmailError::Config(msg));
        },
    };
    finish_send(state.mailer.send(&email))
}

} // verus!
