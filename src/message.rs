//! The message builder: headers and a `multipart/related` body that binds
//! an HTML part to an inline PNG image through one Content-ID.
use vstd::prelude::*;
use crate::error::EmailError;
use crate::template::Args;
use crate::text::{replace_all, replace_spec};
use lettre::message::header::{ContentType, ContentTypeErr};
use lettre::message::{Attachment, Mailbox, MessageBuilder, MultiPart, MultiPartBuilder, SinglePart};
use lettre::address::AddressError;
use lettre::Message;

verus! {

#[verifier::external_type_specification]
#[verifier::external_body]
pub struct ExMailbox(Mailbox);

#[verifier::external_type_specification]
#[verifier::external_body]
pub struct ExAddressError(AddressError);

#[verifier::external_type_specification]
#[verifier::external_body]
pub struct ExMessageBuilder(MessageBuilder);

#[verifier::external_type_specification]
#[verifier::external_body]
pub struct ExMessage(Message);

#[verifier::external_type_specification]
#[verifier::external_body]
pub struct ExSinglePart(SinglePart);

#[verifier::external_type_specification]
#[verifier::external_body]
pub struct ExMultiPart(MultiPart);

#[verifier::external_type_specification]
#[verifier::external_body]
pub struct ExMultiPartBuilder(MultiPartBuilder);

#[verifier::external_type_specification]
#[verifier::external_body]
pub struct ExContentType(ContentType);

#[verifier::external_type_specification]
#[verifier::external_body]
pub struct ExContentTypeErr(ContentTypeErr);

#[verifier::external_type_specification]
#[verifier::external_body]
pub struct ExLettreError(lettre::error::Error);

/// The email address of the mailbox that the address parser reads from
/// `s`, or `None` where it refuses `s`.
pub uninterp spec fn parsed_address(s: Seq<char>) -> Option<Seq<char>>;

/// Whether the address parser accepts `s` as a mailbox.
pub open spec fn mailbox_accepts(s: Seq<char>) -> bool {
    parsed_address(s) is Some
}

/// The email address that a mailbox holds.
pub uninterp spec fn mailbox_address(m: Mailbox) -> Seq<char>;

/// The addresses that each mailbox header of a message builder holds, in
/// order, by header name (`From`, `Sender`, `To`, `Cc`, `Bcc`, ...).
pub uninterp spec fn builder_mailboxes(b: MessageBuilder) -> Map<Seq<char>, Seq<Seq<char>>>;

/// The Subject header that a message builder holds, if any.
pub uninterp spec fn builder_subject(b: MessageBuilder) -> Option<Seq<char>>;

/// Whether a message builder was given an envelope of its own.
pub uninterp spec fn builder_forced_envelope(b: MessageBuilder) -> bool;

/// The Subject header of a message, if any.
pub uninterp spec fn message_subject(msg: Message) -> Option<Seq<char>>;

/// The envelope of a message: its sender address, if any, and its
/// recipient addresses in order.
pub uninterp spec fn message_envelope(msg: Message) -> (Option<Seq<char>>, Seq<Seq<char>>);

/// The headers of a builder without mailbox headers.
pub open spec fn no_mailboxes() -> Map<Seq<char>, Seq<Seq<char>>> {
    Map::empty()
}

/// The addresses under header `h`, none where the header is absent.
pub open spec fn addresses_under(m: Map<Seq<char>, Seq<Seq<char>>>, h: Seq<char>) -> Seq<Seq<char>> {
    if m.contains_key(h) {
        m[h]
    } else {
        Seq::empty()
    }
}

/// The headers with one more address under `h`.
pub open spec fn one_more(m: Map<Seq<char>, Seq<Seq<char>>>, h: Seq<char>, a: Seq<char>) -> Map<
    Seq<char>,
    Seq<Seq<char>>,
> {
    m.insert(h, addresses_under(m, h).push(a))
}

/// A builder with exactly one originator and at least one recipient, which
/// lettre builds into a message without error.
pub open spec fn builder_complete(m: Map<Seq<char>, Seq<Seq<char>>>) -> bool {
    &&& addresses_under(m, "From"@).len() == 1
    &&& addresses_under(m, "To"@).len() >= 1
}

/// The envelope lettre derives from a builder's headers: the Sender, else
/// the one From, as sender; To, then Cc, then Bcc as recipients.
pub open spec fn derived_envelope(m: Map<Seq<char>, Seq<Seq<char>>>) -> (
    Option<Seq<char>>,
    Seq<Seq<char>>,
) {
    (
        if m.contains_key("Sender"@) && m["Sender"@].len() > 0 {
            Some(m["Sender"@][0])
        } else {
            Some(addresses_under(m, "From"@)[0])
        },
        addresses_under(m, "To"@) + addresses_under(m, "Cc"@) + addresses_under(m, "Bcc"@),
    )
}

/// The media type that a content type header holds, as written in the header.
pub uninterp spec fn content_type_text(ct: ContentType) -> Seq<char>;

/// The Content-Type that the header collection of a single part holds.
pub uninterp spec fn part_content_type(p: SinglePart) -> Seq<char>;

/// The Content-ID that the header collection of a single part holds, if any.
pub uninterp spec fn part_content_id(p: SinglePart) -> Option<Seq<char>>;

/// The content that a single part carries, before transfer encoding.
pub uninterp spec fn part_content(p: SinglePart) -> Seq<u8>;

/// The media type, without parameters, that a multipart builder's headers hold.
pub uninterp spec fn builder_kind(b: MultiPartBuilder) -> Seq<char>;

/// The media type, without parameters, that a multipart body's headers hold.
pub uninterp spec fn multipart_kind(m: MultiPart) -> Seq<char>;

/// The parts that a multipart body holds, in order, each as its
/// Content-Type, its Content-ID and its content.
pub uninterp spec fn multipart_parts(m: MultiPart) -> Seq<(Seq<char>, Option<Seq<char>>, Seq<u8>)>;

/// The media type, without parameters, of a message's body.
pub uninterp spec fn message_kind(msg: Message) -> Seq<char>;

/// The parts that a message's multipart body holds, in order, each as its
/// Content-Type, its Content-ID and its content.
pub uninterp spec fn message_parts(msg: Message) -> Seq<(Seq<char>, Option<Seq<char>>, Seq<u8>)>;

/// A part as its Content-Type, Content-ID and content.
pub open spec fn part_summary(p: SinglePart) -> (Seq<char>, Option<Seq<char>>, Seq<u8>) {
    (part_content_type(p), part_content_id(p), part_content(p))
}

/// The placeholder of the body template that the Content-ID fills.
pub open spec fn cid_placeholder() -> Seq<char> {
    "{{QR_CID}}"@
}

/// The Bcc of a message: present only where the caller gave a non-empty one.
pub open spec fn bcc_spec(bcc: Option<Seq<char>>) -> Option<Seq<char>> {
    match bcc {
        Some(b) => if b.len() > 0 {
            Some(b)
        } else {
            None
        },
        None => None,
    }
}

/// The caller's Bcc as a character sequence.
pub open spec fn args_bcc(args: &Args) -> Option<Seq<char>> {
    match args.bcc {
        Some(b) => Some(b@),
        None => None,
    }
}

/// Everything one message holds, as plain values: its headers, its HTML part,
/// and its inline image with the Content-ID that binds the two.
pub struct MessagePlan {
    pub from: String,
    pub to: String,
    pub bcc: Option<String>,
    pub subject: String,
    pub html: String,
    pub content_id: String,
    pub image: Vec<u8>,
}

impl MessagePlan {
    /// The Bcc header of the plan as a character sequence.
    pub open spec fn bcc_view(&self) -> Option<Seq<char>> {
        match self.bcc {
            Some(b) => Some(b@),
            None => None,
        }
    }
}

/// The plan of one message: the addresses of `args`, a Bcc only where it is
/// non-empty, the rendered subject, and `body` with every `{{QR_CID}}`
/// replaced by `content_id`, which also tags the image.
pub fn plan_message(
    args: &Args,
    subject: String,
    body: &str,
    content_id: String,
    image: Vec<u8>,
) -> (r: MessagePlan)
    ensures
        r.from@ == args.email_from@,
        r.to@ == args.email_to@,
        r.bcc_view() == bcc_spec(args_bcc(args)),
        r.subject@ == subject@,
        r.html@ == replace_spec(body@, cid_placeholder(), content_id@),
        r.content_id@ == content_id@,
        r.image@ == image@,
{
    proof {
        reveal_strlit("{{QR_CID}}");
    }
    let html = replace_all(body, "{{QR_CID}}", content_id.as_str());
    let bcc = match &args.bcc {
        Some(b) => if b.as_str().unicode_len() > 0 {
            Some(b.clone())
        } else {
            None
        },
        None => None,
    };
    MessagePlan {
        from: args.email_from.clone(),
        to: args.email_to.clone(),
        bcc,
        subject,
        html,
        content_id,
        image,
    }
}

/// Relies on `Mailbox`'s `FromStr`: it succeeds exactly on what the parser
/// accepts.
#[verifier::external_body]
fn parse_mailbox(s: &str) -> (r: Result<Mailbox, AddressError>)
    ensures
        r is Ok <==> parsed_address(s@) is Some,
        r is Ok ==> parsed_address(s@) == Some(mailbox_address(r->Ok_0)),
{
    s.parse::<Mailbox>()
}

/// Relies on `AddressError`'s `Display`, for the parser's diagnostic.
#[verifier::external_body]
fn address_error_text(e: &AddressError) -> (r: String) {
    e.to_string()
}

/// Relies on `ContentTypeErr`'s `Display`, for the parser's diagnostic.
#[verifier::external_body]
fn content_type_error_text(e: &ContentTypeErr) -> (r: String) {
    e.to_string()
}

/// Relies on `lettre::error::Error`'s `Display`, for the builder's diagnostic.
#[verifier::external_body]
fn build_error_text(e: &lettre::error::Error) -> (r: String) {
    e.to_string()
}

/// Relies on `Message::builder`: a builder without headers.
#[verifier::external_body]
fn message_builder() -> (r: MessageBuilder)
    ensures
        builder_mailboxes(r) == no_mailboxes(),
        builder_subject(r) is None,
        !builder_forced_envelope(r),
{
    Message::builder()
}

/// Relies on `MessageBuilder::from`: adds the mailbox to the From header.
#[verifier::external_body]
fn set_from(b: MessageBuilder, m: Mailbox) -> (r: MessageBuilder)
    ensures
        builder_mailboxes(r) == one_more(builder_mailboxes(b), "From"@, mailbox_address(m)),
        builder_subject(r) == builder_subject(b),
        builder_forced_envelope(r) == builder_forced_envelope(b),
{
    b.from(m)
}

/// Relies on `MessageBuilder::to`: adds the mailbox to the To header.
#[verifier::external_body]
fn add_to(b: MessageBuilder, m: Mailbox) -> (r: MessageBuilder)
    ensures
        builder_mailboxes(r) == one_more(builder_mailboxes(b), "To"@, mailbox_address(m)),
        builder_subject(r) == builder_subject(b),
        builder_forced_envelope(r) == builder_forced_envelope(b),
{
    b.to(m)
}

/// Relies on `MessageBuilder::bcc`: adds the mailbox to the Bcc header.
#[verifier::external_body]
fn add_bcc(b: MessageBuilder, m: Mailbox) -> (r: MessageBuilder)
    ensures
        builder_mailboxes(r) == one_more(builder_mailboxes(b), "Bcc"@, mailbox_address(m)),
        builder_subject(r) == builder_subject(b),
        builder_forced_envelope(r) == builder_forced_envelope(b),
{
    b.bcc(m)
}

/// Relies on `MessageBuilder::subject`: sets the Subject header verbatim,
/// leaving the mailbox headers alone.
#[verifier::external_body]
fn set_subject(b: MessageBuilder, s: String) -> (r: MessageBuilder)
    ensures
        builder_mailboxes(r) == builder_mailboxes(b),
        builder_subject(r) == Some(s@),
        builder_forced_envelope(r) == builder_forced_envelope(b),
{
    b.subject(s)
}

/// Relies on `SinglePart::html`: a `text/html` part holding `body`.
#[verifier::external_body]
fn html_part(body: String) -> (r: SinglePart)
    ensures
        part_content_type(r) == "text/html; charset=utf-8"@,
        part_content_id(r) is None,
        part_content(r) == vstd::utf8::encode_utf8(body@),
{
    SinglePart::html(body)
}

/// Relies on `ContentType::parse`, for the image's content type; `image/png`
/// is a well-formed media type.
#[verifier::external_body]
fn parse_content_type(s: &str) -> (r: Result<ContentType, ContentTypeErr>)
    ensures
        s@ == "image/png"@ ==> r is Ok,
        s@ == "image/png"@ ==> content_type_text(r->Ok_0) == "image/png"@,
{
    ContentType::parse(s)
}

/// The Content-ID header value of an inline attachment tagged `content_id`.
pub open spec fn content_id_header(content_id: Seq<char>) -> Seq<char> {
    seq!['<'] + content_id + seq!['>']
}

/// Relies on `Attachment::new_inline` and `Attachment::body`: an inline
/// part whose Content-ID is `<content_id>`, holding `data` with content type
/// `ct`.
#[verifier::external_body]
fn inline_part(content_id: String, data: Vec<u8>, ct: ContentType) -> (r: SinglePart)
    ensures
        part_content_type(r) == content_type_text(ct),
        part_content_id(r) == Some(content_id_header(content_id@)),
        part_content(r) == data@,
{
    Attachment::new_inline(content_id).body(data, ct)
}

/// Relies on `MultiPart::related`: an empty `multipart/related` builder.
#[verifier::external_body]
fn related_builder() -> (r: MultiPartBuilder)
    ensures
        builder_kind(r) == "multipart/related"@,
{
    MultiPart::related()
}

/// Relies on `MultiPartBuilder::singlepart`: the body with `part` first.
#[verifier::external_body]
fn first_part(b: MultiPartBuilder, part: SinglePart) -> (r: MultiPart)
    ensures
        multipart_kind(r) == builder_kind(b),
        multipart_parts(r) == seq![part_summary(part)],
{
    b.singlepart(part)
}

/// Relies on `MultiPart::singlepart`: the body with `part` appended.
#[verifier::external_body]
fn append_part(m: MultiPart, part: SinglePart) -> (r: MultiPart)
    ensures
        multipart_kind(r) == multipart_kind(m),
        multipart_parts(r) == multipart_parts(m).push(part_summary(part)),
{
    m.singlepart(part)
}

/// Relies on `MessageBuilder::multipart`: the finished message, or the
/// builder's error, which comes only for a missing or ambiguous originator or
/// a missing recipient.
#[verifier::external_body]
fn finish_multipart(b: MessageBuilder, body: MultiPart) -> (r: Result<Message, lettre::error::Error>)
    ensures
        builder_complete(builder_mailboxes(b)) ==> r is Ok,
        r matches Ok(msg) ==> message_kind(msg) == multipart_kind(body) && message_parts(msg)
            == multipart_parts(body),
        r matches Ok(msg) ==> message_subject(msg) == builder_subject(b),
        r matches Ok(msg) ==> (!builder_forced_envelope(b) ==> message_envelope(msg)
            == derived_envelope(builder_mailboxes(b))),
{
    b.multipart(body)
}

/// The message error for an address that the parser refused.
pub open spec fn invalid_address_text(field: Seq<char>, diagnostic: Seq<char>) -> Seq<char> {
    "Invalid "@ + field + " email address: "@ + diagnostic
}

/// The message error for an address field, from the parser's diagnostic.
fn invalid_address(field: &str, e: &AddressError) -> (r: EmailError)
    ensures
        r matches EmailError::MessageError(m) && exists|d: Seq<char>|
            m@ == #[trigger] invalid_address_text(field@, d),
{
    let d = address_error_text(e);
    let m = String::from_str("Invalid ").concat(field).concat(" email address: ").concat(
        d.as_str(),
    );
    proof {
        assert(m@ == invalid_address_text(field@, d@));
    }
    EmailError::MessageError(m)
}

/// Builds the MIME message of a plan: From, To, the Bcc where the plan has
/// one, the Subject, and a `multipart/related` body of the HTML part then the
/// inline `image/png` part tagged with the plan's Content-ID.
///
/// An address that the parser refuses gives a message error that names the
/// field, From first, then To, then Bcc.
pub fn build_message(plan: MessagePlan) -> (r: Result<Message, EmailError>)
    ensures
        !mailbox_accepts(plan.from@) ==> (r matches Err(EmailError::MessageError(m)) && exists|
            d: Seq<char>,
        | m@ == #[trigger] invalid_address_text("from"@, d)),
        mailbox_accepts(plan.from@) && !mailbox_accepts(plan.to@) ==> (r matches Err(
            EmailError::MessageError(m),
        ) && exists|d: Seq<char>| m@ == #[trigger] invalid_address_text("to"@, d)),
        mailbox_accepts(plan.from@) && mailbox_accepts(plan.to@) && (plan.bcc_view() matches Some(
            b,
        ) && !mailbox_accepts(b)) ==> (r matches Err(EmailError::MessageError(m)) && exists|
            d: Seq<char>,
        | m@ == #[trigger] invalid_address_text("BCC"@, d)),
        r is Ok <==> mailbox_accepts(plan.from@) && mailbox_accepts(plan.to@) && (
        plan.bcc_view() matches Some(b) ==> mailbox_accepts(b)),
        r is Err ==> r matches Err(EmailError::MessageError(_)),
        r matches Ok(msg) ==> message_kind(msg) == "multipart/related"@ && message_parts(msg)
            == seq![
            ("text/html; charset=utf-8"@, None::<Seq<char>>, vstd::utf8::encode_utf8(plan.html@)),
            ("image/png"@, Some(content_id_header(plan.content_id@)), plan.image@),
        ],
        r matches Ok(msg) ==> message_subject(msg) == Some(plan.subject@),
        r matches Ok(msg) ==> message_envelope(msg) == (
            parsed_address(plan.from@),
            seq![parsed_address(plan.to@)->Some_0] + match plan.bcc_view() {
                Some(b) => seq![parsed_address(b)->Some_0],
                None => Seq::<Seq<char>>::empty(),
            },
        ),
{
    let MessagePlan { from, to, bcc, subject, html, content_id, image } = plan;
    let from_box = match parse_mailbox(from.as_str()) {
        Ok(m) => m,
        Err(e) => {
            return Err(invalid_address("from", &e));
        },
    };
    let to_box = match parse_mailbox(to.as_str()) {
        Ok(m) => m,
        Err(e) => {
            return Err(invalid_address("to", &e));
        },
    };
    proof {
        reveal_strlit("From");
        reveal_strlit("To");
        reveal_strlit("Bcc");
        reveal_strlit("image/png");
        assert("From"@.len() != "To"@.len());
        assert("Bcc"@.len() != "To"@.len());
        assert("Bcc"@.len() != "From"@.len());
        reveal_strlit("Sender");
        reveal_strlit("Cc");
        assert("Sender"@.len() != "From"@.len() && "Sender"@.len() != "To"@.len()
            && "Sender"@.len() != "Bcc"@.len());
        assert("Cc"@[0] != "To"@[0] && "Cc"@.len() != "From"@.len() && "Cc"@.len() != "Bcc"@.len());
    }
    let ghost from_addr = parsed_address(from@)->Some_0;
    let ghost to_addr = parsed_address(to@)->Some_0;
    let mut builder = set_subject(add_to(set_from(message_builder(), from_box), to_box), subject);
    assert(builder_complete(builder_mailboxes(builder)));
    assert(derived_envelope(builder_mailboxes(builder)) =~= (Some(from_addr), seq![to_addr]));
    match &bcc {
        Some(b) => {
            match parse_mailbox(b.as_str()) {
                Ok(m) => {
                    builder = add_bcc(builder, m);
                    assert(builder_complete(builder_mailboxes(builder)));
                    assert(derived_envelope(builder_mailboxes(builder)).1 =~= seq![
                        to_addr,
                        parsed_address(b@)->Some_0,
                    ]);
                },
                Err(e) => {
                    return Err(invalid_address("BCC", &e));
                },
            }
        },
        None => {},
    }
    let png = match parse_content_type("image/png") {
        Ok(ct) => ct,
        Err(e) => {
            let d = content_type_error_text(&e);
            return Err(EmailError::MessageError(String::from_str("Invalid content type: ").concat(d.as_str())));
        },
    };
    let image_part = inline_part(content_id, image, png);
    let body = append_part(first_part(related_builder(), html_part(html)), image_part);
    match finish_multipart(builder, body) {
        Ok(msg) => Ok(msg),
        Err(e) => {
            let d = build_error_text(&e);
            Err(EmailError::MessageError(String::from_str("Failed to build email: ").concat(d.as_str())))
        },
    }
}

} // verus!
