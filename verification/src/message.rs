//! Multipart message assembly: an addressed message whose body carries the
//! plaintext alternative first and the HTML part second.

use vstd::prelude::*;

use crate::recipients::mailbox_repr;
use crate::text::{spec_strip, strip};

verus! {

#[verifier::external_type_specification]
#[verifier::external_body]
pub struct ExMessageBuilder(lettre::message::MessageBuilder);

#[verifier::external_type_specification]
#[verifier::external_body]
pub struct ExMessage(lettre::Message);

/// The `From` mailboxes accumulated in a builder, by content, in order.
pub uninterp spec fn builder_froms(b: lettre::message::MessageBuilder) -> Seq<Seq<char>>;

/// The `Reply-To` mailboxes accumulated in a builder.
pub uninterp spec fn builder_reply_tos(b: lettre::message::MessageBuilder) -> Seq<Seq<char>>;

/// The `To` mailboxes accumulated in a builder.
pub uninterp spec fn builder_tos(b: lettre::message::MessageBuilder) -> Seq<Seq<char>>;

/// The subject set in a builder, if any.
pub uninterp spec fn builder_subject(b: lettre::message::MessageBuilder) -> Option<Seq<char>>;

/// Whether the builder carries nothing beyond the headers tracked above: no
/// `Sender`, no `Cc` or `Bcc`, no forced envelope.
pub uninterp spec fn builder_plain(b: lettre::message::MessageBuilder) -> bool;

/// The `From` mailboxes of a finished message.
pub uninterp spec fn msg_froms(m: lettre::Message) -> Seq<Seq<char>>;

/// The `Reply-To` mailboxes of a finished message.
pub uninterp spec fn msg_reply_tos(m: lettre::Message) -> Seq<Seq<char>>;

/// The `To` mailboxes of a finished message.
pub uninterp spec fn msg_tos(m: lettre::Message) -> Seq<Seq<char>>;

/// The subject of a finished message, if any.
pub uninterp spec fn msg_subject(m: lettre::Message) -> Option<Seq<char>>;

/// The decoded `text/plain` alternative of a finished message, if its body
/// is a multipart/alternative of a plaintext part and an HTML part, in that
/// order.
pub uninterp spec fn msg_text_alt(m: lettre::Message) -> Option<Seq<char>>;

/// The decoded `text/html` alternative of such a message.
pub uninterp spec fn msg_html_alt(m: lettre::Message) -> Option<Seq<char>>;

/// Relies on `lettre::Message::builder`: a fresh builder with no headers.
#[verifier::external_body]
fn msg_builder() -> (b: lettre::message::MessageBuilder)
    ensures
        builder_froms(b) == Seq::<Seq<char>>::empty(),
        builder_reply_tos(b) == Seq::<Seq<char>>::empty(),
        builder_tos(b) == Seq::<Seq<char>>::empty(),
        builder_subject(b) is None,
        builder_plain(b),
{
    lettre::Message::builder()
}

/// Relies on `MessageBuilder::from`: adds the mailbox to the `From` header
/// and changes nothing else.
#[verifier::external_body]
fn builder_from(b: lettre::message::MessageBuilder, m: &lettre::message::Mailbox) -> (r:
    lettre::message::MessageBuilder)
    ensures
        builder_froms(r) == builder_froms(b).push(mailbox_repr(*m)),
        builder_reply_tos(r) == builder_reply_tos(b),
        builder_tos(r) == builder_tos(b),
        builder_subject(r) == builder_subject(b),
        builder_plain(r) == builder_plain(b),
{
    b.from(m.clone())
}

/// Relies on `MessageBuilder::reply_to`: adds the mailbox to the `Reply-To`
/// header and changes nothing else.
#[verifier::external_body]
fn builder_reply_to(b: lettre::message::MessageBuilder, m: &lettre::message::Mailbox) -> (r:
    lettre::message::MessageBuilder)
    ensures
        builder_reply_tos(r) == builder_reply_tos(b).push(mailbox_repr(*m)),
        builder_froms(r) == builder_froms(b),
        builder_tos(r) == builder_tos(b),
        builder_subject(r) == builder_subject(b),
        builder_plain(r) == builder_plain(b),
{
    b.reply_to(m.clone())
}

/// Relies on `MessageBuilder::to`: adds the mailbox to the `To` header and
/// changes nothing else.
#[verifier::external_body]
fn builder_to(b: lettre::message::MessageBuilder, m: &lettre::message::Mailbox) -> (r:
    lettre::message::MessageBuilder)
    ensures
        builder_tos(r) == builder_tos(b).push(mailbox_repr(*m)),
        builder_froms(r) == builder_froms(b),
        builder_reply_tos(r) == builder_reply_tos(b),
        builder_subject(r) == builder_subject(b),
        builder_plain(r) == builder_plain(b),
{
    b.to(m.clone())
}

/// Relies on `MessageBuilder::subject`: sets the `Subject` header and
/// changes nothing else.
#[verifier::external_body]
fn builder_subject_set(b: lettre::message::MessageBuilder, s: &str) -> (r:
    lettre::message::MessageBuilder)
    ensures
        builder_subject(r) == Some(s@),
        builder_froms(r) == builder_froms(b),
        builder_reply_tos(r) == builder_reply_tos(b),
        builder_tos(r) == builder_tos(b),
        builder_plain(r) == builder_plain(b),
{
    b.subject(s.to_owned())
}

/// Relies on `MessageBuilder::multipart` together with
/// `MultiPart::alternative` and `SinglePart` construction, as in lettre's
/// documented multipart/alternative pattern: builds the message with a
/// two-part alternative body, plaintext first, HTML second. Building
/// succeeds whenever there is exactly one `From` mailbox and at least one
/// recipient; it fails when there is no `From` header, or when a builder
/// holding no recipients at all derives its envelope.
#[verifier::external_body]
fn finish_multipart_alternative(
    b: lettre::message::MessageBuilder,
    text: &str,
    html: &str,
) -> (r: Result<lettre::Message, String>)
    ensures
        builder_froms(b).len() == 1 && builder_tos(b).len() >= 1 ==> r is Ok,
        builder_froms(b).len() == 0 ==> r is Err,
        builder_plain(b) && builder_tos(b).len() == 0 ==> r is Err,
        r is Ok ==> ({
            let m = r->Ok_0;
            &&& msg_froms(m) == builder_froms(b)
            &&& msg_reply_tos(m) == builder_reply_tos(b)
            &&& msg_tos(m) == builder_tos(b)
            &&& msg_subject(m) == builder_subject(b)
            &&& msg_text_alt(m) == Some(text@)
            &&& msg_html_alt(m) == Some(html@)
        }),
{
    b.multipart(
        lettre::message::MultiPart::alternative()
            .singlepart(
                lettre::message::SinglePart::builder()
                    .header(lettre::message::header::ContentType::TEXT_PLAIN)
                    .body(text.to_owned()),
            )
            .singlepart(
                lettre::message::SinglePart::builder()
                    .header(lettre::message::header::ContentType::TEXT_HTML)
                    .body(html.to_owned()),
            ),
    ).map_err(|e| e.to_string())
}

/// Builds an addressed multipart message: `From` and optional `Reply-To` as
/// configured, the given recipients in order, the subject, and a
/// multipart/alternative body holding the stripped plaintext first and the
/// HTML second. Succeeds on every non-empty recipient list.
pub fn assemble(
    from: &lettre::message::Mailbox,
    reply_to: &Option<lettre::message::Mailbox>,
    to: &Vec<lettre::message::Mailbox>,
    subject: &str,
    html: &str,
) -> (r: Result<lettre::Message, String>)
    ensures
        to@.len() > 0 ==> r is Ok,
        to@.len() == 0 ==> r is Err,
        r is Ok ==> ({
            let m = r->Ok_0;
            &&& msg_froms(m) == seq![mailbox_repr(*from)]
            &&& msg_reply_tos(m) == match *reply_to {
                Some(rt) => seq![mailbox_repr(rt)],
                None => Seq::<Seq<char>>::empty(),
            }
            &&& msg_tos(m).len() == to@.len()
            &&& forall|k: int| 0 <= k < to@.len() ==> msg_tos(m)[k] == mailbox_repr(#[trigger] to@[k])
            &&& msg_subject(m) == Some(subject@)
            &&& msg_text_alt(m) == Some(spec_strip(html@))
            &&& msg_html_alt(m) == Some(html@)
        }),
{
    let text = strip(html);
    let mut b = msg_builder();
    b = builder_from(b, from);
    match reply_to {
        Some(rt) => {
            b = builder_reply_to(b, rt);
        },
        None => {},
    }
    b = builder_subject_set(b, subject);
    let mut k: usize = 0;
    while k < to.len()
        invariant
            k <= to@.len(),
            builder_froms(b) == seq![mailbox_repr(*from)],
            builder_reply_tos(b) == match *reply_to {
                Some(rt) => seq![mailbox_repr(rt)],
                None => Seq::<Seq<char>>::empty(),
            },
            builder_subject(b) == Some(subject@),
            builder_plain(b),
            builder_tos(b).len() == k,
            forall|j: int|
                0 <= j < k ==> builder_tos(b)[j] == mailbox_repr(#[trigger] to@[j]),
        decreases to@.len() - k,
    {
        b = builder_to(b, &to[k]);
        k = k + 1;
    }
    finish_multipart_alternative(b, text.as_str(), html)
}

} // verus!
