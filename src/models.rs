use vstd::prelude::*;

verus! {

/// One stored attachment, owned by exactly one mail.
#[derive(Debug, Clone)]
pub struct Attachment {
    pub id: i64,
    pub mail_id: i64,
    pub filename: String,
    pub content_type: String,
    pub content_disposition: Option<String>,
    pub size_bytes: i64,
    /// Public locator of the stored bytes.
    pub file_url: String,
}

/// One stored mail together with its attachments.
#[derive(Debug, Clone)]
pub struct StoredMail {
    pub id: i64,
    pub from_address: String,
    pub from_name: String,
    pub to_address: String,
    pub to_name: String,
    pub subject: String,
    pub html: String,
    pub text: String,
    /// The message's own declared timestamp, in RFC 3339 form.
    pub date: String,
    pub is_read: bool,
    pub attachments: Vec<Attachment>,
}

} // verus!
