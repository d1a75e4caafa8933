use mailsink::ingest::{AttachmentDraft, MailDraft};
use mailsink::listing::{open_mail, sort_by_date_desc, with_attachments, QueryError};
use mailsink::mime::prepare_mail;
use mailsink::models::{Attachment, StoredMail};
use mailsink::records::{
    attachment_record, enriched_mail, file_url_for, mail_record, stored_name_for, stored_path_for,
};

fn draft(subject: &str, date: &str) -> MailDraft {
    MailDraft {
        from_address: "a@x.com".to_string(),
        from_name: "Alice".to_string(),
        to_address: "b@y.com".to_string(),
        to_name: "Bob".to_string(),
        subject: subject.to_string(),
        html: String::new(),
        text: "t".to_string(),
        date: date.to_string(),
        attachments: vec![],
    }
}

fn subjects(mails: &[StoredMail]) -> Vec<String> {
    mails.iter().map(|m| m.subject.clone()).collect()
}

#[test]
fn stored_names_carry_the_mail_id() {
    assert_eq!(stored_name_for(12, "a.txt"), "12_a.txt");
    assert_eq!(stored_name_for(0, "b"), "0_b");
    assert_eq!(stored_name_for(-3, "c"), "-3_c");
    assert_eq!(file_url_for(7, "note.txt"), "/attachments/7_note.txt");
    assert_eq!(stored_path_for("./attachments", 7, "note.txt"), "./attachments/7_note.txt");
}

#[test]
fn attachment_record_fields() {
    let d = AttachmentDraft {
        filename: "test.txt".to_string(),
        content_type: "text/plain".to_string(),
        data: b"0123456789".to_vec(),
    };
    let a = attachment_record(4, 9, &d);
    assert_eq!(a.id, 9);
    assert_eq!(a.mail_id, 4);
    assert_eq!(a.filename, "test.txt");
    assert_eq!(a.content_type, "text/plain");
    assert_eq!(a.content_disposition.as_deref(), Some("attachment"));
    assert_eq!(a.size_bytes, 10);
    assert_eq!(a.file_url, "/attachments/4_test.txt");
}

#[test]
fn mail_record_is_unread() {
    let m = mail_record(&draft("Subject", "2024-01-01T00:00:00Z"), 3);
    assert_eq!(m.id, 3);
    assert_eq!(m.subject, "Subject");
    assert_eq!(m.from_name, "Alice");
    assert!(!m.is_read);
    assert!(m.attachments.is_empty());
}

fn mail(from: &str, name: &str, subject: &str, html: &str, text: &str, date: &str) -> MailDraft {
    MailDraft {
        from_address: from.to_string(),
        from_name: name.to_string(),
        to_address: "recipient@example.com".to_string(),
        to_name: "Recipient".to_string(),
        subject: subject.to_string(),
        html: html.to_string(),
        text: text.to_string(),
        date: date.to_string(),
        attachments: vec![],
    }
}

#[test]
fn test_list_mails_ordered_by_date() {
    let mails = vec![
        mail_record(&mail("test1@example.com", "Test 1", "Subject 1", "<html>Test 1</html>", "Text 1", "2024-01-01T00:00:00Z"), 1),
        mail_record(&mail("test2@example.com", "Test 2", "Subject 2", "<html>Test 2</html>", "Text 2", "2024-01-02T00:00:00Z"), 2),
    ];
    let mails = sort_by_date_desc(mails);
    assert_eq!(mails.len(), 2);
    assert_eq!(mails[0].subject, "Subject 2");
    assert_eq!(mails[1].subject, "Subject 1");
}

#[test]
fn test_insert_and_retrieve_mail() {
    let d = mail(
        "test@example.com",
        "Test User",
        "Test Subject",
        "<html><body>Test HTML</body></html>",
        "Test text content",
        "2024-01-01T00:00:00Z",
    );
    let mail_id = 1;
    let row = mail_record(&d, mail_id);
    assert_eq!(row.id, mail_id);
    assert_eq!(row.from_address, "test@example.com");
    assert_eq!(row.subject, "Test Subject");
    assert!(!row.is_read);
}

#[test]
fn test_mark_mail_as_read() {
    let d = mail("test@example.com", "Test", "Subject", "<html>Test</html>", "Test", "2024-01-01T00:00:00Z");
    let row = mail_record(&d, 1);
    assert!(!row.is_read);
    let fetched = open_mail(Some(row), vec![]).unwrap();
    assert!(fetched.is_read);
}

#[test]
fn list_orders_by_date_not_arrival() {
    let mails = vec![
        mail_record(&draft("old", "2020-05-05T00:00:00Z"), 10),
        mail_record(&draft("new", "2021-01-01T00:00:00Z"), 1),
        mail_record(&draft("same", "2020-05-05T00:00:00Z"), 11),
    ];
    assert_eq!(subjects(&sort_by_date_desc(mails)), vec!["new", "old", "same"]);
}

#[test]
fn list_compares_instants_not_text() {
    let mails = vec![
        mail_record(&draft("utc", "2000-01-01T01:00:00Z"), 1),
        mail_record(&draft("eastern", "1999-12-31T23:30:00-05:00"), 2),
    ];
    assert_eq!(subjects(&sort_by_date_desc(mails)), vec!["eastern", "utc"]);
    let mails = vec![
        mail_record(&draft("eastern", "1999-12-31T23:30:00-05:00"), 2),
        mail_record(&draft("utc", "2000-01-01T01:00:00Z"), 1),
    ];
    assert_eq!(subjects(&sort_by_date_desc(mails)), vec!["eastern", "utc"]);
}

#[test]
fn equal_dates_keep_input_order() {
    let mails = vec![
        mail_record(&draft("a", "2024-01-01T00:00:00Z"), 1),
        mail_record(&draft("b", "2024-01-01T01:00:00+01:00"), 2),
        mail_record(&draft("newest", "2024-06-01T00:00:00Z"), 3),
        mail_record(&draft("c", "2024-01-01T00:00:00Z"), 4),
    ];
    assert_eq!(subjects(&sort_by_date_desc(mails)), vec!["newest", "a", "b", "c"]);
}

#[test]
fn undated_mails_come_last() {
    let mails = vec![
        mail_record(&draft("undated", "yesterday"), 1),
        mail_record(&draft("dated", "2024-01-01T00:00:00Z"), 2),
    ];
    assert_eq!(subjects(&sort_by_date_desc(mails)), vec!["dated", "undated"]);
}

#[test]
fn empty_list_stays_empty() {
    assert!(sort_by_date_desc(vec![]).is_empty());
}

#[test]
fn fetch_marks_read_and_attaches() {
    let row = mail_record(&draft("Hi", "2024-01-01T00:00:00Z"), 5);
    let att = Attachment {
        id: 1,
        mail_id: 5,
        filename: "f".to_string(),
        content_type: "text/plain".to_string(),
        content_disposition: Some("attachment".to_string()),
        size_bytes: 1,
        file_url: "/attachments/5_f".to_string(),
    };
    let got = open_mail(Some(row), vec![att]).unwrap();
    assert!(got.is_read);
    assert_eq!(got.id, 5);
    assert_eq!(got.subject, "Hi");
    assert_eq!(got.attachments.len(), 1);
    assert_eq!(got.attachments[0].file_url, "/attachments/5_f");
}

#[test]
fn fetch_of_absent_mail_is_not_found() {
    assert_eq!(open_mail(None, vec![]).err(), Some(QueryError::NotFound));
}

#[test]
fn with_attachments_keeps_read_flag() {
    let row = mail_record(&draft("Hi", "2024-01-01T00:00:00Z"), 5);
    let m = with_attachments(row, vec![]);
    assert!(!m.is_read);
    assert_eq!(m.subject, "Hi");
}

const SCENARIO: &[u8] = b"From: Alice <a@x.com>\r\nTo: Bob <b@y.com>\r\nSubject: Hi\r\n\
Date: Tue, 02 Jan 2024 08:30:00 +0100\r\nMIME-Version: 1.0\r\n\
Content-Type: multipart/mixed; boundary=\"B\"\r\n\r\n--B\r\nContent-Type: text/plain\r\n\r\n\
Hello\r\n--B\r\nContent-Type: application/octet-stream\r\n\
Content-Disposition: attachment; filename=\"note.txt\"\r\nContent-Transfer-Encoding: base64\r\n\r\n\
aGVsbG8gd29ybGQ=\r\n--B--\r\n";

#[test]
fn scenario_ingest_list_get_delete() {
    let d = prepare_mail(SCENARIO).unwrap();
    assert_eq!(d.date, "2024-01-02T08:30:00+01:00");
    let published = enriched_mail(&d, 1, &vec![1]);
    assert!(!published.is_read);
    assert_eq!(published.attachments.len(), 1);
    assert_eq!(published.attachments[0].size_bytes, 11);
    assert_eq!(published.attachments[0].file_url, "/attachments/1_note.txt");
    assert_eq!(published.attachments[0].content_type, "application/octet-stream");

    let row = mail_record(&d, 1);
    let listed = sort_by_date_desc(vec![with_attachments(row, published.attachments.clone())]);
    assert_eq!(listed.len(), 1);
    assert_eq!(listed[0].from_address, "a@x.com");
    assert_eq!(listed[0].from_name, "Alice");
    assert_eq!(listed[0].to_address, "b@y.com");
    assert_eq!(listed[0].to_name, "Bob");
    assert_eq!(listed[0].subject, "Hi");
    assert!(!listed[0].is_read);

    let fetched = open_mail(Some(mail_record(&d, 1)), published.attachments.clone()).unwrap();
    assert!(fetched.is_read);
    assert_eq!(fetched.subject, published.subject);
    assert_eq!(fetched.attachments[0].file_url, published.attachments[0].file_url);

    // Delete: the row leaves the store, and its attachment rows with it.
    let mut rows = vec![with_attachments(mail_record(&d, 1), published.attachments.clone())];
    rows.retain(|m| m.id != 1);
    let found = rows.iter().find(|m| m.id == 1).cloned();
    assert!(sort_by_date_desc(rows).is_empty());
    assert_eq!(open_mail(found, vec![]).err(), Some(QueryError::NotFound));
}
