//! The send orchestrator: render, bind the image by a fresh Content-ID,
//! build the message, resolve the provider, configure the transport, and
//! translate the outcome of the one submission.
use vstd::prelude::*;
use crate::error::EmailError;
use crate::message::{
    args_bcc, bcc_spec, build_message, cid_placeholder, content_id_header, invalid_address_text,
    mailbox_accepts, message_envelope, message_kind, message_parts, message_subject,
    parsed_address, plan_message,
};
use crate::template::{body_segments, body_spec, flatten, subject_spec, SUBJECT_TEMPLATE};
use crate::text::replace_spec;
use vstd::utf8::encode_utf8;
use crate::provider::{name_spec, resolve_spec, Provider};
use crate::template::{Args, EmailTemplate};
use crate::transport::{configure_mailer, relay_error_text, tls_error_text, transport_for};
use crate::text::no_open_brace;
use lettre::{Message, SmtpTransport};

verus! {

/// The prefix of every Content-ID that binds the image to the HTML part.
pub open spec fn content_id_spec(unique: Seq<char>) -> Seq<char> {
    "qr_image_cid@"@ + unique
}

/// A character of a lowercase hyphenated UUID.
pub open spec fn uuid_char(c: char) -> bool {
    ('0' <= c && c <= '9') || ('a' <= c && c <= 'f') || c == '-'
}

/// Relies on `uuid::Uuid::new_v4` and its `Display`, which writes the
/// lowercase hyphenated form: a random identifier of 36 characters, each a
/// hex digit or a hyphen.
#[verifier::external_body]
fn random_uuid_text() -> (r: String)
    ensures
        r@.len() == 36,
        forall|i: int| 0 <= i < r@.len() ==> uuid_char(#[trigger] r@[i]),
{
    uuid::Uuid::new_v4().to_string()
}

/// The Content-ID made from a unique token.
pub fn content_id_from(unique: &str) -> (r: String)
    ensures
        r@ == content_id_spec(unique@),
{
    String::from_str("qr_image_cid@").concat(unique)
}

/// A fresh Content-ID: the fixed prefix, then a random UUID. It holds no
/// brace, so it can never be taken for a placeholder.
pub fn fresh_content_id() -> (r: String)
    ensures
        exists|u: Seq<char>|
            u.len() == 36 && (forall|i: int| 0 <= i < u.len() ==> uuid_char(#[trigger] u[i]))
                && r@ == #[trigger] content_id_spec(u),
        no_open_brace(r@),
{
    let u = random_uuid_text();
    let r = content_id_from(u.as_str());
    proof {
        reveal_strlit("qr_image_cid@");
        assert forall|i: int| 0 <= i < r@.len() implies r@[i] != '{' by {
            if i >= 13 {
                assert(r@[i] == u@[i - 13]);
                assert(uuid_char(u@[i - 13]));
            }
        }
    }
    r
}

/// The message of one send: the rendered subject, the sender as envelope
/// sender, To then a non-empty Bcc as recipients, and a `multipart/related`
/// body of the rendered HTML with the Content-ID spliced in, then the image
/// tagged with that Content-ID.
pub open spec fn message_for(
    msg: Message,
    args: &Args,
    count: nat,
    content_id: Seq<char>,
    image: Seq<u8>,
) -> bool {
    let html = replace_spec(
        body_spec(
            flatten(body_segments()),
            args.provider@,
            args.name@,
            args.data_amount@,
            args.time_period@,
            args.location@,
        ),
        cid_placeholder(),
        content_id,
    );
    &&& message_kind(msg) == "multipart/related"@
    &&& message_parts(msg) == seq![
        ("text/html; charset=utf-8"@, None::<Seq<char>>, encode_utf8(html)),
        ("image/png"@, Some(content_id_header(content_id)), image),
    ]
    &&& message_subject(msg) == Some(
        subject_spec(SUBJECT_TEMPLATE@, args.provider@, args.location@, count),
    )
    &&& message_envelope(msg) == (
        parsed_address(args.email_from@),
        seq![parsed_address(args.email_to@)->Some_0] + match bcc_spec(args_bcc(args)) {
            Some(b) => seq![parsed_address(b)->Some_0],
            None => Seq::<Seq<char>>::empty(),
        },
    )
}

/// The first address field of `args` that the parser refuses, From, then
/// To, then a non-empty Bcc; `None` where all are accepted.
pub open spec fn rejected_field(args: &Args) -> Option<Seq<char>> {
    if !mailbox_accepts(args.email_from@) {
        Some("from"@)
    } else if !mailbox_accepts(args.email_to@) {
        Some("to"@)
    } else if args.bcc matches Some(b) && b@.len() > 0 && !mailbox_accepts(b@) {
        Some("BCC"@)
    } else {
        None
    }
}

/// What one send comes to, given the outcome of the transport setup: the
/// first refused address, else an unsupported sender, else the setup's own
/// result.
pub open spec fn send_contract(
    args: &Args,
    token: Seq<char>,
    r: Result<(Message, SmtpTransport, Provider), EmailError>,
) -> bool {
    match rejected_field(args) {
        Some(f) => r matches Err(EmailError::MessageError(m)) && exists|d: Seq<char>|
            m@ == #[trigger] invalid_address_text(f, d),
        None => match resolve_spec(args.email_from@) {
            None => r matches Err(EmailError::UnsupportedProvider(e)) && e.0@ == args.email_from@,
            Some(p) => (r matches Ok(t) && t.2 == p && transport_for(t.1, p, args.email_from@, token))
                || (r matches Err(EmailError::SmtpError(m)) && ((exists|d: Seq<char>|
                m@ == #[trigger] relay_error_text(name_spec(p), d)) || (exists|d: Seq<char>|
                m@ == #[trigger] tls_error_text(name_spec(p), d)))),
        },
    }
}

/// Everything one send needs, ready to submit, for the given image bytes and
/// Content-ID: the message is built first, then the provider is resolved
/// from the sender, then the transport is configured.
pub fn prepare_send(
    args: &Args,
    token: String,
    image: Vec<u8>,
    count: usize,
    content_id: String,
) -> (r: Result<(Message, SmtpTransport, Provider), EmailError>)
    ensures
        send_contract(args, token@, r),
        r matches Ok(t) ==> message_for(t.0, args, count as nat, content_id@, image@),
{
    let template = EmailTemplate::new();
    let subject = template.subject(args, count);
    let body = template.body(args);
    let plan = plan_message(args, subject, body.as_str(), content_id, image);
    proof {
        match &args.bcc {
            Some(b) => {
                if b@.len() > 0 {
                    assert(plan.bcc_view() == Some(b@));
                } else {
                    assert(plan.bcc_view() is None);
                }
            },
            None => {},
        }
    }
    let ghost from_ok = mailbox_accepts(plan.from@);
    let ghost to_ok = mailbox_accepts(plan.to@);
    let ghost bcc_ok = plan.bcc_view() matches Some(b) ==> mailbox_accepts(b);
    let message = match build_message(plan) {
        Ok(m) => m,
        Err(e) => {
            proof {
                assert(!(from_ok && to_ok && bcc_ok));
                let f = rejected_field(args)->Some_0;
                if let EmailError::MessageError(m) = &e {
                    let d = choose|d: Seq<char>| m@ == invalid_address_text(f, d);
                    assert(m@ == invalid_address_text(f, d));
                }
            }
            return Err(e);
        },
    };
    let provider = match Provider::resolve(args.email_from.as_str()) {
        Ok(p) => p,
        Err(e) => {
            return Err(EmailError::UnsupportedProvider(e));
        },
    };
    match configure_mailer(&provider, args.email_from.as_str(), token) {
        Ok(mailer) => Ok((message, mailer, provider)),
        Err(e) => Err(e),
    }
}

/// `prepare_send` with a freshly generated Content-ID.
pub fn compose_email(args: &Args, token: String, image: Vec<u8>, count: usize) -> (r: Result<
    (Message, SmtpTransport, Provider),
    EmailError,
>)
    ensures
        send_contract(args, token@, r),
        r matches Ok(t) ==> exists|u: Seq<char>|
            u.len() == 36 && message_for(t.0, args, count as nat, #[trigger] content_id_spec(u), image@),
{
    let content_id = fresh_content_id();
    prepare_send(args, token, image, count, content_id)
}

/// The message of a failed submission through a provider's relay: the
/// transport's diagnostic, then its underlying cause where it has one.
pub open spec fn submission_error_text(
    name: Seq<char>,
    diagnostic: Seq<char>,
    cause: Option<Seq<char>>,
) -> Seq<char> {
    let head = "Could not send email through "@ + name + ": "@ + diagnostic;
    match cause {
        Some(c) => head + " (caused by: "@ + c + ")"@,
        None => head,
    }
}

/// The result of the one submission through `provider`'s relay, from the
/// transport's diagnostic and its underlying cause where it failed.
pub fn submission_outcome(provider: &Provider, outcome: Result<(), (String, Option<String>)>) -> (r:
    Result<(), EmailError>)
    ensures
        outcome is Ok <==> r is Ok,
        outcome matches Err((d, c)) ==> (r matches Err(EmailError::SmtpError(m)) && m@
            == submission_error_text(
            name_spec(*provider),
            d@,
            match c {
                Some(x) => Some(x@),
                None => None,
            },
        )),
{
    match outcome {
        Ok(()) => Ok(()),
        Err((d, c)) => {
            let name = provider.to_string();
            let head = String::from_str("Could not send email through ").concat(name.as_str()).concat(
                ": ",
            ).concat(d.as_str());
            match c {
                Some(x) => Err(
                    EmailError::SmtpError(head.concat(" (caused by: ").concat(x.as_str()).concat(")")),
                ),
                None => Err(EmailError::SmtpError(head)),
            }
        },
    }
}

} // verus!
