use vstd::prelude::*;
use crate::ingest::{AttachmentDraft, MailDraft};
use crate::models::{Attachment, StoredMail};
use crate::text::{decimal, i64_to_decimal, is_digit, lemma_decimal_chars, lemma_decimal_injective};

verus! {

/// The name under which an attachment's bytes are stored: `{mail_id}_{filename}`.
pub open spec fn stored_name(mail_id: i64, filename: Seq<char>) -> Seq<char> {
    decimal(mail_id as int) + "_"@ + filename
}

/// The public locator of an attachment: `/attachments/{mail_id}_{filename}`.
pub open spec fn file_url_of(mail_id: i64, filename: Seq<char>) -> Seq<char> {
    "/attachments/"@ + stored_name(mail_id, filename)
}

/// The marker that every stored attachment carries as its disposition.
pub open spec fn disposition() -> Seq<char> {
    "attachment"@
}

/// `a` is the row stored for draft `d` of mail `mail_id`, under row id `id`.
pub open spec fn records_attachment(a: Attachment, mail_id: i64, id: i64, d: AttachmentDraft) -> bool {
    &&& a.id == id
    &&& a.mail_id == mail_id
    &&& a.filename@ == d.filename@
    &&& a.content_type@ == d.content_type@
    &&& a.content_disposition matches Some(c) && c@ == disposition()
    &&& a.size_bytes == d.data@.len()
    &&& a.file_url@ == file_url_of(mail_id, d.filename@)
}

/// `m` holds the header and body fields of draft `d` under id `id`.
pub open spec fn carries(m: StoredMail, d: MailDraft, id: i64) -> bool {
    &&& m.id == id
    &&& m.from_address@ == d.from_address@
    &&& m.from_name@ == d.from_name@
    &&& m.to_address@ == d.to_address@
    &&& m.to_name@ == d.to_name@
    &&& m.subject@ == d.subject@
    &&& m.html@ == d.html@
    &&& m.text@ == d.text@
    &&& m.date@ == d.date@
}

/// Every attachment draft's size fits the stored size column.
pub open spec fn sizes_fit(d: MailDraft) -> bool {
    forall|i: int| 0 <= i < d.attachments@.len() ==> #[trigger] d.attachments@[i].data@.len() <= i64::MAX
}

/// Stored names never collide across mails: the name determines both the
/// mail id and the file name.
pub proof fn lemma_stored_name_injective(a: i64, f: Seq<char>, b: i64, g: Seq<char>)
    requires
        stored_name(a, f) == stored_name(b, g),
    ensures
        a == b,
        f == g,
{
    let da = decimal(a as int);
    let db = decimal(b as int);
    let s = stored_name(a, f);
    reveal_strlit("_");
    assert(s =~= da + seq!['_'] + f);
    assert(stored_name(b, g) =~= db + seq!['_'] + g);
    lemma_decimal_chars(a as int);
    lemma_decimal_chars(b as int);
    if da.len() < db.len() {
        assert(s[da.len() as int] == '_');
        assert(stored_name(b, g)[da.len() as int] == db[da.len() as int]);
        assert(is_digit(db[da.len() as int]) || db[da.len() as int] == '-');
    } else if db.len() < da.len() {
        assert(stored_name(b, g)[db.len() as int] == '_');
        assert(s[db.len() as int] == da[db.len() as int]);
        assert(is_digit(da[db.len() as int]) || da[db.len() as int] == '-');
    } else {
        assert(s.subrange(0, da.len() as int) =~= da);
        assert(stored_name(b, g).subrange(0, db.len() as int) =~= db);
        lemma_decimal_injective(a as int, b as int);
        assert(s.subrange(da.len() as int + 1, s.len() as int) =~= f);
        assert(stored_name(b, g).subrange(db.len() as int + 1, s.len() as int) =~= g);
    }
}

/// The name under which the bytes of attachment `filename` of mail `mail_id` are stored.
pub fn stored_name_for(mail_id: i64, filename: &str) -> (r: String)
    ensures
        r@ == stored_name(mail_id, filename@),
{
    i64_to_decimal(mail_id).concat("_").concat(filename)
}

/// The public locator of attachment `filename` of mail `mail_id`.
pub fn file_url_for(mail_id: i64, filename: &str) -> (r: String)
    ensures
        r@ == file_url_of(mail_id, filename@),
{
    let name = stored_name_for(mail_id, filename);
    let r = String::from_str("/attachments/").concat(name.as_str());
    assert(r@ =~= file_url_of(mail_id, filename@));
    r
}

/// The path of the stored bytes of attachment `filename` of mail `mail_id`
/// under the storage root `root`.
pub fn stored_path_for(root: &str, mail_id: i64, filename: &str) -> (r: String)
    ensures
        r@ == root@ + "/"@ + stored_name(mail_id, filename@),
{
    let name = stored_name_for(mail_id, filename);
    String::from_str(root).concat("/").concat(name.as_str())
}

/// The attachment row stored for draft `d` of mail `mail_id`, under row id `id`.
pub fn attachment_record(mail_id: i64, id: i64, d: &AttachmentDraft) -> (r: Attachment)
    requires
        d.data@.len() <= i64::MAX,
    ensures
        records_attachment(r, mail_id, id, *d),
{
    Attachment {
        id,
        mail_id,
        filename: d.filename.clone(),
        content_type: d.content_type.clone(),
        content_disposition: Some(String::from_str("attachment")),
        size_bytes: d.data.len() as i64,
        file_url: file_url_for(mail_id, d.filename.as_str()),
    }
}

/// The mail row stored for draft `d` under id `id`: unread, attachments not yet attached.
pub fn mail_record(d: &MailDraft, id: i64) -> (r: StoredMail)
    ensures
        carries(r, *d, id),
        !r.is_read,
        r.attachments@.len() == 0,
{
    StoredMail {
        id,
        from_address: d.from_address.clone(),
        from_name: d.from_name.clone(),
        to_address: d.to_address.clone(),
        to_name: d.to_name.clone(),
        subject: d.subject.clone(),
        html: d.html.clone(),
        text: d.text.clone(),
        date: d.date.clone(),
        is_read: false,
        attachments: Vec::new(),
    }
}

/// The enriched mail published once mail `id` and its attachment rows
/// `attachment_ids` (one per draft attachment, in order) are stored.
pub fn enriched_mail(d: &MailDraft, id: i64, attachment_ids: &Vec<i64>) -> (r: StoredMail)
    requires
        attachment_ids@.len() == d.attachments@.len(),
        sizes_fit(*d),
    ensures
        carries(r, *d, id),
        !r.is_read,
        r.attachments@.len() == d.attachments@.len(),
        forall|i: int|
            0 <= i < r.attachments@.len() ==> #[trigger] records_attachment(
                r.attachments@[i],
                id,
                attachment_ids@[i],
                d.attachments@[i],
            ),
{
    let mut m = mail_record(d, id);
    let n = d.attachments.len();
    let mut i: usize = 0;
    while i < n
        invariant
            n == d.attachments@.len(),
            n == attachment_ids@.len(),
            sizes_fit(*d),
            i <= n,
            carries(m, *d, id),
            !m.is_read,
            m.attachments@.len() == i,
            forall|j: int|
                0 <= j < i ==> #[trigger] records_attachment(
                    m.attachments@[j],
                    id,
                    attachment_ids@[j],
                    d.attachments@[j],
                ),
        decreases n - i,
    {
        assert(d.attachments@[i as int].data@.len() <= i64::MAX);
        let a = attachment_record(id, attachment_ids[i], &d.attachments[i]);
        m.attachments.push(a);
        i = i + 1;
    }
    m
}

} // verus!
