use mailsink::ingest::{
    draft_attachment, draft_mail, resolve_content_type, resolve_filename, AttachmentPart,
    IngestError, Mailbox, MessageFields,
};
use mailsink::mime::prepare_mail;

const SCENARIO: &str = "From: Alice <a@x.com>\r\n\
To: Bob <b@y.com>\r\n\
Subject: Hi\r\n\
Date: Mon, 01 Jan 2024 10:00:00 +0000\r\n\
MIME-Version: 1.0\r\n\
Content-Type: multipart/mixed; boundary=\"XYZ\"\r\n\
\r\n\
--XYZ\r\n\
Content-Type: text/plain\r\n\
\r\n\
Hello Bob\r\n\
--XYZ\r\n\
Content-Type: text/plain; name=\"note.txt\"\r\n\
Content-Disposition: attachment; filename=\"note.txt\"\r\n\
Content-Transfer-Encoding: base64\r\n\
\r\n\
aGVsbG8gd29ybGQ=\r\n\
--XYZ--\r\n";

fn mailbox(address: Option<&str>, name: Option<&str>) -> Option<Mailbox> {
    Some(Mailbox { address: address.map(|s| s.to_string()), name: name.map(|s| s.to_string()) })
}

fn complete_fields() -> MessageFields {
    MessageFields {
        from: mailbox(Some("a@x.com"), Some("Alice")),
        to: mailbox(Some("b@y.com"), None),
        subject: Some("Hi".to_string()),
        html: None,
        text: Some("body".to_string()),
        date: Some("2024-01-01T00:00:00Z".to_string()),
        attachments: vec![],
    }
}

fn part(name: Option<&str>, t: Option<&str>, sub: Option<&str>, data: &[u8]) -> AttachmentPart {
    AttachmentPart {
        declared_name: name.map(|s| s.to_string()),
        media_type: t.map(|s| s.to_string()),
        media_subtype: sub.map(|s| s.to_string()),
        data: data.to_vec(),
    }
}

#[test]
fn scenario_message_is_drafted() {
    let d = prepare_mail(SCENARIO.as_bytes()).unwrap();
    assert_eq!(d.from_address, "a@x.com");
    assert_eq!(d.from_name, "Alice");
    assert_eq!(d.to_address, "b@y.com");
    assert_eq!(d.to_name, "Bob");
    assert_eq!(d.subject, "Hi");
    assert_eq!(d.date, "2024-01-01T10:00:00Z");
    assert_eq!(d.text.trim_end(), "Hello Bob");
    assert_eq!(d.attachments.len(), 1);
    assert_eq!(d.attachments[0].filename, "note.txt");
    assert_eq!(d.attachments[0].content_type, "text/plain");
    assert_eq!(d.attachments[0].data, b"hello world".to_vec());
}

#[test]
fn empty_buffer_is_unparseable() {
    assert!(matches!(prepare_mail(b""), Err(IngestError::Unparseable)));
}

#[test]
fn message_without_sender_is_rejected() {
    let raw = b"To: b@y.com\r\nSubject: Hi\r\nDate: Mon, 01 Jan 2024 10:00:00 +0000\r\n\r\nbody\r\n";
    assert!(matches!(prepare_mail(raw), Err(IngestError::MissingSender)));
}

#[test]
fn message_without_date_is_rejected() {
    let raw = b"From: a@x.com\r\nTo: b@y.com\r\nSubject: Hi\r\n\r\nbody\r\n";
    assert!(matches!(prepare_mail(raw), Err(IngestError::MissingDate)));
}

#[test]
fn draft_defaults_missing_names_and_bodies() {
    let d = draft_mail(&complete_fields()).unwrap();
    assert_eq!(d.from_address, "a@x.com");
    assert_eq!(d.from_name, "Alice");
    assert_eq!(d.to_name, "");
    assert_eq!(d.html, "");
    assert_eq!(d.text, "body");
    assert_eq!(d.date, "2024-01-01T00:00:00Z");
    assert!(d.attachments.is_empty());
}

#[test]
fn draft_reports_first_missing_field() {
    let mut f = complete_fields();
    f.from = mailbox(None, Some("Alice"));
    f.subject = None;
    assert_eq!(draft_mail(&f).err(), Some(IngestError::MissingSender));

    let mut f = complete_fields();
    f.to = None;
    assert_eq!(draft_mail(&f).err(), Some(IngestError::MissingRecipient));

    let mut f = complete_fields();
    f.subject = None;
    assert_eq!(draft_mail(&f).err(), Some(IngestError::MissingSubject));

    let mut f = complete_fields();
    f.date = None;
    assert_eq!(draft_mail(&f).err(), Some(IngestError::MissingDate));
}

#[test]
fn draft_keeps_attachment_order() {
    let mut f = complete_fields();
    f.attachments = vec![
        part(Some("a.pdf"), Some("application"), Some("pdf"), b"%PDF"),
        part(None, None, None, b"xy"),
    ];
    let d = draft_mail(&f).unwrap();
    assert_eq!(d.attachments.len(), 2);
    assert_eq!(d.attachments[0].filename, "a.pdf");
    assert_eq!(d.attachments[0].content_type, "application/pdf");
    assert_eq!(d.attachments[0].data, b"%PDF".to_vec());
    assert_eq!(d.attachments[1].filename, "unnamed_attachment");
    assert_eq!(d.attachments[1].content_type, "application/octet-stream");
}

#[test]
fn filename_prefers_declared_name() {
    assert_eq!(resolve_filename(&part(Some("x.bin"), None, None, b"")), "x.bin");
    assert_eq!(resolve_filename(&part(None, Some("text"), None, b"")), "unnamed_attachment");
}

#[test]
fn content_type_without_subtype() {
    assert_eq!(resolve_content_type(&part(None, Some("text"), None, b"")), "text");
    assert_eq!(resolve_content_type(&part(None, Some("image"), Some("png"), b"")), "image/png");
    assert_eq!(resolve_content_type(&part(None, None, Some("png"), b"")), "application/octet-stream");
}

#[test]
fn attachment_draft_copies_bytes() {
    let d = draft_attachment(&part(Some("n.txt"), Some("text"), Some("plain"), b"hello"));
    assert_eq!(d.filename, "n.txt");
    assert_eq!(d.content_type, "text/plain");
    assert_eq!(d.data, b"hello".to_vec());
}
