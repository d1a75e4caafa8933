use vstd::prelude::*;

verus! {

/// One address header entry as the MIME layer reports it.
pub struct Mailbox {
    pub address: Option<String>,
    pub name: Option<String>,
}

/// One attachment part as the MIME layer reports it.
pub struct AttachmentPart {
    /// The name declared in Content-Disposition or Content-Type, if any.
    pub declared_name: Option<String>,
    /// Main media type of the part's Content-Type header, if any.
    pub media_type: Option<String>,
    /// Media subtype of the part's Content-Type header, if any.
    pub media_subtype: Option<String>,
    /// Decoded bytes of the part.
    pub data: Vec<u8>,
}

/// The header and body fields of one parsed message, each as found.
pub struct MessageFields {
    pub from: Option<Mailbox>,
    pub to: Option<Mailbox>,
    pub subject: Option<String>,
    pub html: Option<String>,
    pub text: Option<String>,
    /// The declared date, in RFC 3339 form.
    pub date: Option<String>,
    pub attachments: Vec<AttachmentPart>,
}

/// An attachment ready to be stored.
pub struct AttachmentDraft {
    pub filename: String,
    pub content_type: String,
    pub data: Vec<u8>,
}

/// A fully populated mail, before storage assigns its id.
pub struct MailDraft {
    pub from_address: String,
    pub from_name: String,
    pub to_address: String,
    pub to_name: String,
    pub subject: String,
    pub html: String,
    pub text: String,
    pub date: String,
    pub attachments: Vec<AttachmentDraft>,
}

/// Why a raw message was rejected. Nothing of a rejected message is stored.
#[derive(Debug, Clone, Copy, PartialEq, Eq, Structural)]
pub enum IngestError {
    /// The buffer could not be interpreted as a message.
    Unparseable,
    /// No sender address.
    MissingSender,
    /// No recipient address.
    MissingRecipient,
    /// No subject header.
    MissingSubject,
    /// No parsable date header.
    MissingDate,
}

/// The placeholder name of an attachment that declares none.
pub open spec fn unnamed() -> Seq<char> {
    "unnamed_attachment"@
}

/// The media type of an attachment whose type cannot be determined.
pub open spec fn generic_binary() -> Seq<char> {
    "application/octet-stream"@
}

/// What a mailbox holds, as text.
pub struct MailboxView {
    pub address: Option<Seq<char>>,
    pub name: Option<Seq<char>>,
}

/// What an attachment part holds, as text and bytes.
pub struct PartView {
    pub declared_name: Option<Seq<char>>,
    pub media_type: Option<Seq<char>>,
    pub media_subtype: Option<Seq<char>>,
    pub data: Seq<u8>,
}

/// What the fields of a message hold, as text and bytes.
pub struct FieldsView {
    pub from: Option<MailboxView>,
    pub to: Option<MailboxView>,
    pub subject: Option<Seq<char>>,
    pub html: Option<Seq<char>>,
    pub text: Option<Seq<char>>,
    pub date: Option<Seq<char>>,
    pub attachments: Seq<PartView>,
}

pub open spec fn opt_text(s: Option<String>) -> Option<Seq<char>> {
    match s {
        Some(x) => Some(x@),
        None => None,
    }
}

impl View for Mailbox {
    type V = MailboxView;

    open spec fn view(&self) -> MailboxView {
        MailboxView { address: opt_text(self.address), name: opt_text(self.name) }
    }
}

pub open spec fn opt_mailbox(m: Option<Mailbox>) -> Option<MailboxView> {
    match m {
        Some(b) => Some(b@),
        None => None,
    }
}

impl View for AttachmentPart {
    type V = PartView;

    open spec fn view(&self) -> PartView {
        PartView {
            declared_name: opt_text(self.declared_name),
            media_type: opt_text(self.media_type),
            media_subtype: opt_text(self.media_subtype),
            data: self.data@,
        }
    }
}

impl View for MessageFields {
    type V = FieldsView;

    open spec fn view(&self) -> FieldsView {
        FieldsView {
            from: opt_mailbox(self.from),
            to: opt_mailbox(self.to),
            subject: opt_text(self.subject),
            html: opt_text(self.html),
            text: opt_text(self.text),
            date: opt_text(self.date),
            attachments: self.attachments@.map_values(|p: AttachmentPart| p@),
        }
    }
}

pub open spec fn or_empty(s: Option<Seq<char>>) -> Seq<char> {
    match s {
        Some(x) => x,
        None => Seq::empty(),
    }
}

pub open spec fn has_address(m: Option<MailboxView>) -> bool {
    m matches Some(b) && b.address is Some
}

pub open spec fn address_of(m: Option<MailboxView>) -> Seq<char> {
    or_empty(m->Some_0.address)
}

pub open spec fn name_of(m: Option<MailboxView>) -> Seq<char> {
    or_empty(m->Some_0.name)
}

/// The first mandatory field that `f` lacks, checked in the order
/// sender, recipient, subject, date.
pub open spec fn missing_field(f: FieldsView) -> Option<IngestError> {
    if !has_address(f.from) {
        Some(IngestError::MissingSender)
    } else if !has_address(f.to) {
        Some(IngestError::MissingRecipient)
    } else if f.subject is None {
        Some(IngestError::MissingSubject)
    } else if f.date is None {
        Some(IngestError::MissingDate)
    } else {
        None
    }
}

/// The declared name, else the placeholder.
pub open spec fn filename_of(p: PartView) -> Seq<char> {
    match p.declared_name {
        Some(n) => n,
        None => unnamed(),
    }
}

/// `type/subtype`, or the type alone without a subtype, or the generic binary type.
pub open spec fn content_type_of(p: PartView) -> Seq<char> {
    match p.media_type {
        Some(t) => match p.media_subtype {
            Some(s) => t + "/"@ + s,
            None => t,
        },
        None => generic_binary(),
    }
}

pub open spec fn drafts_attachment(d: AttachmentDraft, p: PartView) -> bool {
    &&& d.filename@ == filename_of(p)
    &&& d.content_type@ == content_type_of(p)
    &&& d.data@ == p.data
}

/// `d` carries the fields of `f`: first sender and recipient, names defaulting
/// to empty, bodies defaulting to empty, and one draft per attachment part in order.
pub open spec fn drafts(d: MailDraft, f: FieldsView) -> bool {
    &&& d.from_address@ == address_of(f.from)
    &&& d.from_name@ == name_of(f.from)
    &&& d.to_address@ == address_of(f.to)
    &&& d.to_name@ == name_of(f.to)
    &&& d.subject@ == or_empty(f.subject)
    &&& d.html@ == or_empty(f.html)
    &&& d.text@ == or_empty(f.text)
    &&& d.date@ == or_empty(f.date)
    &&& d.attachments@.len() == f.attachments.len()
    &&& forall|i: int|
        0 <= i < f.attachments.len() ==> #[trigger] drafts_attachment(
            d.attachments@[i],
            f.attachments[i],
        )
}

fn string_or_empty(s: &Option<String>) -> (r: String)
    ensures
        r@ == or_empty(opt_text(*s)),
{
    match s {
        Some(x) => x.clone(),
        None => String::new(),
    }
}

/// Resolves the stored name of an attachment part.
pub fn resolve_filename(p: &AttachmentPart) -> (r: String)
    ensures
        r@ == filename_of(p@),
{
    match &p.declared_name {
        Some(n) => n.clone(),
        None => String::from_str("unnamed_attachment"),
    }
}

/// Resolves the media type of an attachment part from its Content-Type header.
pub fn resolve_content_type(p: &AttachmentPart) -> (r: String)
    ensures
        r@ == content_type_of(p@),
{
    match &p.media_type {
        Some(t) => match &p.media_subtype {
            Some(s) => t.clone().concat("/").concat(s.as_str()),
            None => t.clone(),
        },
        None => String::from_str("application/octet-stream"),
    }
}

/// Builds the stored form of one attachment part.
pub fn draft_attachment(p: &AttachmentPart) -> (r: AttachmentDraft)
    ensures
        drafts_attachment(r, p@),
{
    let data = p.data.clone();
    assert(data@ =~= p.data@);
    AttachmentDraft { filename: resolve_filename(p), content_type: resolve_content_type(p), data }
}

/// Turns the fields of a parsed message into a mail draft, or rejects the
/// message when a mandatory field is missing.
pub fn draft_mail(f: &MessageFields) -> (r: Result<MailDraft, IngestError>)
    ensures
        match missing_field(f@) {
            Some(e) => r == Err::<MailDraft, IngestError>(e),
            None => r matches Ok(d) && drafts(d, f@),
        },
{
    let (from_address, from_name) = match &f.from {
        Some(Mailbox { address: Some(a), name }) => (a.clone(), string_or_empty(name)),
        _ => return Err(IngestError::MissingSender),
    };
    let (to_address, to_name) = match &f.to {
        Some(Mailbox { address: Some(a), name }) => (a.clone(), string_or_empty(name)),
        _ => return Err(IngestError::MissingRecipient),
    };
    let subject = match &f.subject {
        Some(s) => s.clone(),
        None => return Err(IngestError::MissingSubject),
    };
    let date = match &f.date {
        Some(s) => s.clone(),
        None => return Err(IngestError::MissingDate),
    };
    let mut attachments: Vec<AttachmentDraft> = Vec::new();
    let n = f.attachments.len();
    let mut i: usize = 0;
    while i < n
        invariant
            n == f.attachments@.len(),
            i <= n,
            attachments@.len() == i,
            forall|j: int|
                0 <= j < i ==> #[trigger] drafts_attachment(attachments@[j], f@.attachments[j]),
        decreases n - i,
    {
        attachments.push(draft_attachment(&f.attachments[i]));
        assert(f@.attachments[i as int] == f.attachments@[i as int]@);
        i = i + 1;
    }
    Ok(MailDraft {
        from_address,
        from_name,
        to_address,
        to_name,
        subject,
        html: string_or_empty(&f.html),
        text: string_or_empty(&f.text),
        date,
        attachments,
    })
}

} // verus!
