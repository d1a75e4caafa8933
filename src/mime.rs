use vstd::prelude::*;
use mail_parser::{Message, MessageParser, MessagePart, MimeHeaders};
use crate::ingest::{
    AttachmentPart, FieldsView, IngestError, MailDraft, Mailbox, MailboxView, MessageFields,
    PartView, draft_mail, drafts, missing_field, opt_mailbox, opt_text,
};

verus! {

#[verifier::external_type_specification]
#[verifier::external_body]
pub struct ExMessage<'x>(Message<'x>);

#[verifier::external_type_specification]
#[verifier::external_body]
pub struct ExMessagePart<'x>(MessagePart<'x>);

/// Whether the parser reads a message from these bytes.
pub uninterp spec fn parses(raw: Seq<u8>) -> bool;

/// The first entry of the From header of the message read from these bytes.
pub uninterp spec fn sender_of(raw: Seq<u8>) -> Option<MailboxView>;

/// The first entry of the To header of the message read from these bytes.
pub uninterp spec fn recipient_of(raw: Seq<u8>) -> Option<MailboxView>;

/// The Subject header of the message read from these bytes.
pub uninterp spec fn subject_of(raw: Seq<u8>) -> Option<Seq<char>>;

/// The first HTML body of the message read from these bytes.
pub uninterp spec fn html_body_of(raw: Seq<u8>) -> Option<Seq<char>>;

/// The first plain-text body of the message read from these bytes.
pub uninterp spec fn text_body_of(raw: Seq<u8>) -> Option<Seq<char>>;

/// The Date header, in RFC 3339 form, of the message read from these bytes.
pub uninterp spec fn date_of(raw: Seq<u8>) -> Option<Seq<char>>;

/// The number of attachment parts of the message read from these bytes.
pub uninterp spec fn attachment_count_of(raw: Seq<u8>) -> nat;

/// Whether attachment position `i` of the message read from these bytes names a part.
pub uninterp spec fn has_attachment(raw: Seq<u8>, i: nat) -> bool;

/// The name declared by attachment `i` of the message read from these bytes.
pub uninterp spec fn attachment_name_of(raw: Seq<u8>, i: nat) -> Option<Seq<char>>;

/// The Content-Type (type, subtype) of attachment `i` of the message read from these bytes.
pub uninterp spec fn media_of(raw: Seq<u8>, i: nat) -> Option<(Seq<char>, Option<Seq<char>>)>;

/// The decoded bytes of attachment `i` of the message read from these bytes.
pub uninterp spec fn contents_of(raw: Seq<u8>, i: nat) -> Seq<u8>;

/// Attachment `i` of the message read from `raw`.
pub open spec fn part_at(raw: Seq<u8>, i: nat) -> PartView {
    PartView {
        declared_name: attachment_name_of(raw, i),
        media_type: match media_of(raw, i) {
            Some(m) => Some(m.0),
            None => None,
        },
        media_subtype: match media_of(raw, i) {
            Some(m) => m.1,
            None => None,
        },
        data: contents_of(raw, i),
    }
}

/// The attachment parts at positions below `n` that name a part, in order.
pub open spec fn parts_below(raw: Seq<u8>, n: nat) -> Seq<PartView>
    decreases n,
{
    if n == 0 {
        Seq::empty()
    } else if has_attachment(raw, (n - 1) as nat) {
        parts_below(raw, (n - 1) as nat).push(part_at(raw, (n - 1) as nat))
    } else {
        parts_below(raw, (n - 1) as nat)
    }
}

/// The fields of the message read from `raw`.
pub open spec fn parsed_fields(raw: Seq<u8>) -> FieldsView {
    FieldsView {
        from: sender_of(raw),
        to: recipient_of(raw),
        subject: subject_of(raw),
        html: html_body_of(raw),
        text: text_body_of(raw),
        date: date_of(raw),
        attachments: parts_below(raw, attachment_count_of(raw)),
    }
}

/// A message parsed from `raw`.
struct Parsed<'x> {
    raw: &'x [u8],
    message: Message<'x>,
}

/// One attachment part of a message parsed from `raw`, at position `index`.
struct PartRef<'a, 'x> {
    raw: &'x [u8],
    index: usize,
    part: &'a MessagePart<'x>,
}

/// Relies on `MessageParser::parse`: `None` when no message can be read from the bytes.
#[verifier::external_body]
fn parse<'x>(raw: &'x [u8]) -> (r: Option<Parsed<'x>>)
    ensures
        r is Some <==> parses(raw@),
        r matches Some(p) ==> p.raw@ == raw@,
{
    match MessageParser::default().parse(raw) {
        Some(message) => Some(Parsed { raw, message }),
        None => None,
    }
}

/// Relies on `Message::from` and `Address::first`: the first address of the
/// From header (across all groups, for a group list), with its display name.
#[verifier::external_body]
fn first_sender(p: &Parsed) -> (r: Option<Mailbox>)
    ensures
        opt_mailbox(r) == sender_of(p.raw@),
{
    p.message.from().and_then(|a| a.first()).map(|e| Mailbox {
        address: e.address.as_ref().map(|s| s.to_string()),
        name: e.name.as_ref().map(|s| s.to_string()),
    })
}

/// Relies on `Message::to` and `Address::first`: the first address of the
/// To header (across all groups, for a group list), with its display name.
#[verifier::external_body]
fn first_recipient(p: &Parsed) -> (r: Option<Mailbox>)
    ensures
        opt_mailbox(r) == recipient_of(p.raw@),
{
    p.message.to().and_then(|a| a.first()).map(|e| Mailbox {
        address: e.address.as_ref().map(|s| s.to_string()),
        name: e.name.as_ref().map(|s| s.to_string()),
    })
}

/// Relies on `Message::subject`: the Subject header, if any.
#[verifier::external_body]
fn subject(p: &Parsed) -> (r: Option<String>)
    ensures
        opt_text(r) == subject_of(p.raw@),
{
    p.message.subject().map(|s| s.to_string())
}

/// Relies on `Message::body_html`: the first HTML body; a text body is
/// converted to HTML when it comes first.
#[verifier::external_body]
fn html_body(p: &Parsed) -> (r: Option<String>)
    ensures
        opt_text(r) == html_body_of(p.raw@),
{
    p.message.body_html(0).map(|s| s.to_string())
}

/// Relies on `Message::body_text`: the first plain-text body; an HTML body is
/// converted to text when it comes first.
#[verifier::external_body]
fn text_body(p: &Parsed) -> (r: Option<String>)
    ensures
        opt_text(r) == text_body_of(p.raw@),
{
    p.message.body_text(0).map(|s| s.to_string())
}

/// Relies on `Message::date` and `DateTime::to_rfc3339`: the Date header in
/// RFC 3339 form, if it parses.
#[verifier::external_body]
fn date(p: &Parsed) -> (r: Option<String>)
    ensures
        opt_text(r) == date_of(p.raw@),
{
    p.message.date().map(|d| d.to_rfc3339())
}

/// Relies on `Message::attachment_count`: the number of attachment parts.
#[verifier::external_body]
fn attachment_count(p: &Parsed) -> (r: usize)
    ensures
        r == attachment_count_of(p.raw@),
{
    p.message.attachment_count()
}

/// Relies on `Message::attachment`: the attachment part at position `i`, if any.
#[verifier::external_body]
fn attachment<'a, 'x>(p: &'a Parsed<'x>, i: usize) -> (r: Option<PartRef<'a, 'x>>)
    ensures
        r is Some <==> has_attachment(p.raw@, i as nat),
        r matches Some(q) ==> q.raw@ == p.raw@ && q.index == i,
{
    p.message.attachment(i).map(|part| PartRef { raw: p.raw, index: i, part })
}

/// Relies on `MimeHeaders::attachment_name`: the file name that the part
/// declares in Content-Disposition, else in Content-Type, if any.
#[verifier::external_body]
fn declared_name(q: &PartRef) -> (r: Option<String>)
    ensures
        opt_text(r) == attachment_name_of(q.raw@, q.index as nat),
{
    q.part.attachment_name().map(|s| s.to_string())
}

/// Relies on `MimeHeaders::content_type`: the type and subtype of the part's
/// Content-Type header, if it has one.
#[verifier::external_body]
fn media_type(q: &PartRef) -> (r: Option<(String, Option<String>)>)
    ensures
        match r {
            Some((t, s)) => media_of(q.raw@, q.index as nat) == Some((t@, opt_text(s))),
            None => media_of(q.raw@, q.index as nat) is None,
        },
{
    q.part.content_type().map(|c| (c.c_type.to_string(), c.c_subtype.as_ref().map(|s| s.to_string())))
}

/// Relies on `MessagePart::contents`: the decoded bytes of the part.
#[verifier::external_body]
fn contents(q: &PartRef) -> (r: Vec<u8>)
    ensures
        r@ == contents_of(q.raw@, q.index as nat),
{
    q.part.contents().to_vec()
}

/// Reads one attachment part into plain values.
fn read_attachment(q: &PartRef) -> (r: AttachmentPart)
    ensures
        r@ == part_at(q.raw@, q.index as nat),
{
    let (media_type, media_subtype) = match media_type(q) {
        Some((t, s)) => (Some(t), s),
        None => (None, None),
    };
    AttachmentPart { declared_name: declared_name(q), media_type, media_subtype, data: contents(q) }
}

/// Reads the fields of a parsed message into plain values; attachments in message order.
fn read_fields(p: &Parsed) -> (r: MessageFields)
    ensures
        r@ == parsed_fields(p.raw@),
{
    let n = attachment_count(p);
    let mut attachments: Vec<AttachmentPart> = Vec::new();
    let mut i: usize = 0;
    while i < n
        invariant
            i <= n,
            n == attachment_count_of(p.raw@),
            attachments@.map_values(|a: AttachmentPart| a@) == parts_below(p.raw@, i as nat),
        decreases n - i,
    {
        let ghost before = attachments@;
        match attachment(p, i) {
            Some(q) => {
                let a = read_attachment(&q);
                attachments.push(a);
                assert(attachments@.map_values(|a: AttachmentPart| a@) =~= before.map_values(
                    |a: AttachmentPart| a@,
                ).push(part_at(p.raw@, i as nat)));
            },
            None => {},
        }
        i = i + 1;
    }
    let r = MessageFields {
        from: first_sender(p),
        to: first_recipient(p),
        subject: subject(p),
        html: html_body(p),
        text: text_body(p),
        date: date(p),
        attachments,
    };
    assert(r@ =~= parsed_fields(p.raw@));
    r
}

/// Parses a complete raw message and drafts the mail to store: `Unparseable`
/// when the parser reads no message from the bytes, else exactly what
/// `draft_mail` gives on the fields the parser reads.
pub fn prepare_mail(raw: &[u8]) -> (r: Result<MailDraft, IngestError>)
    ensures
        !parses(raw@) ==> r == Err::<MailDraft, IngestError>(IngestError::Unparseable),
        parses(raw@) ==> match missing_field(parsed_fields(raw@)) {
            Some(e) => r == Err::<MailDraft, IngestError>(e),
            None => r matches Ok(d) && drafts(d, parsed_fields(raw@)),
        },
{
    match parse(raw) {
        None => Err(IngestError::Unparseable),
        Some(p) => {
            let f = read_fields(&p);
            draft_mail(&f)
        },
    }
}

} // verus!
