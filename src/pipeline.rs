use vstd::prelude::*;
use crate::ingest::MailDraft;
use crate::models::{Attachment, StoredMail};
use crate::records::{
    attachment_record, carries, enriched_mail, mail_record, records_attachment, sizes_fit,
    stored_name, stored_path_for,
};

verus! {

/// The next thing to do to store and publish one drafted mail.
pub enum IngestAction {
    /// Insert this mail row and answer with the id it was given.
    StoreMail(StoredMail),
    /// Write the bytes of draft attachment `index` at `path`, insert `row`
    /// (its id is assigned by the store) and answer with the row's id.
    StoreAttachment { index: usize, path: String, row: Attachment },
    /// Publish the enriched mail to live subscribers.
    Publish(StoredMail),
    /// Delete the mail row with this id; its attachment rows go with it.
    Discard(i64),
    /// Nothing is left to do.
    Done,
}

/// The outcome of the last action.
#[derive(Debug, Clone, Copy, PartialEq, Eq, Structural)]
pub enum IngestEvent {
    /// The row was stored under this id (or, for the last two actions, the action was performed).
    Stored(i64),
    /// The action failed; the message is then dropped.
    Failed,
}

/// The storing of one drafted mail: the mail row first, to obtain its id,
/// then each attachment in message order, then one publication. A failure
/// drops the whole message: a mail row already stored is discarded.
pub struct Ingestion {
    draft: MailDraft,
    root: String,
    mail_id: Option<i64>,
    attachment_ids: Vec<i64>,
    failed: bool,
    finished: bool,
}

/// Whether every attachment of `d` has a size that fits the size column.
pub fn sizes_fit_exec(d: &MailDraft) -> (r: bool)
    ensures
        r == sizes_fit(*d),
{
    let n = d.attachments.len();
    let mut i: usize = 0;
    while i < n
        invariant
            n == d.attachments@.len(),
            i <= n,
            forall|j: int| 0 <= j < i ==> #[trigger] d.attachments@[j].data@.len() <= i64::MAX,
        decreases n - i,
    {
        if d.attachments[i].data.len() as u64 > i64::MAX as u64 {
            return false;
        }
        i = i + 1;
    }
    true
}

impl Ingestion {
    pub closed spec fn draft(&self) -> MailDraft {
        self.draft
    }

    /// Root directory of the stored attachment bytes.
    pub closed spec fn root(&self) -> Seq<char> {
        self.root@
    }

    /// The id of the stored mail row, once it is stored.
    pub closed spec fn mail_id(&self) -> Option<i64> {
        self.mail_id
    }

    /// The ids of the attachment rows stored so far, in message order.
    pub closed spec fn attachment_ids(&self) -> Seq<i64> {
        self.attachment_ids@
    }

    pub closed spec fn failed(&self) -> bool {
        self.failed
    }

    pub closed spec fn finished(&self) -> bool {
        self.finished
    }

    pub closed spec fn wf(&self) -> bool {
        &&& sizes_fit(self.draft)
        &&& self.attachment_ids@.len() <= self.draft.attachments@.len()
        &&& self.mail_id is None ==> self.attachment_ids@.len() == 0
    }

    /// Every attachment row is stored and the mail is ready to publish.
    pub open spec fn complete(&self) -> bool {
        self.mail_id() is Some && self.attachment_ids().len() == self.draft().attachments@.len()
    }

    /// Starts storing `draft`, with attachment bytes kept under `root`.
    /// `None` when an attachment is too large for the size column.
    pub fn new(draft: MailDraft, root: String) -> (r: Option<Ingestion>)
        ensures
            r is Some <==> sizes_fit(draft),
            r matches Some(s) ==> {
                &&& s.wf()
                &&& s.draft() == draft
                &&& s.root() == root@
                &&& s.mail_id() is None
                &&& s.attachment_ids().len() == 0
                &&& !s.failed()
                &&& !s.finished()
            },
    {
        if !sizes_fit_exec(&draft) {
            return None;
        }
        Some(Ingestion { draft, root, mail_id: None, attachment_ids: Vec::new(), failed: false, finished: false })
    }

    /// The draft being stored.
    pub fn draft_ref(&self) -> (r: &MailDraft)
        ensures
            *r == self.draft(),
    {
        &self.draft
    }

    /// Whether nothing is left to do.
    pub fn is_finished(&self) -> (r: bool)
        ensures
            r == self.finished(),
    {
        self.finished
    }

    /// The next action.
    pub fn next(&self) -> (r: IngestAction)
        requires
            self.wf(),
        ensures
            self.finished() ==> r is Done,
            !self.finished() && self.failed() ==> match self.mail_id() {
                Some(id) => r == IngestAction::Discard(id),
                None => r is Done,
            },
            !self.finished() && !self.failed() && self.mail_id() is None ==> (r matches IngestAction::StoreMail(m)
                && carries(m, self.draft(), 0) && !m.is_read && m.attachments@.len() == 0),
            !self.finished() && !self.failed() && self.mail_id() is Some && !self.complete() ==> (
                r matches IngestAction::StoreAttachment { index, path, row } && {
                    let id = self.mail_id()->Some_0;
                    let d = self.draft().attachments@[index as int];
                    &&& index == self.attachment_ids().len()
                    &&& index < self.draft().attachments@.len()
                    &&& path@ == self.root() + "/"@ + stored_name(id, d.filename@)
                    &&& records_attachment(row, id, 0, d)
                }),
            !self.finished() && !self.failed() && self.complete() ==> (r matches IngestAction::Publish(m)
                && carries(m, self.draft(), self.mail_id()->Some_0) && !m.is_read
                && m.attachments@.len() == self.draft().attachments@.len()
                && forall|i: int| 0 <= i < m.attachments@.len() ==> #[trigger] records_attachment(
                    m.attachments@[i],
                    self.mail_id()->Some_0,
                    self.attachment_ids()[i],
                    self.draft().attachments@[i],
                )),
    {
        if self.finished {
            return IngestAction::Done;
        }
        if self.failed {
            return match self.mail_id {
                Some(id) => IngestAction::Discard(id),
                None => IngestAction::Done,
            };
        }
        match self.mail_id {
            None => IngestAction::StoreMail(mail_record(&self.draft, 0)),
            Some(id) => {
                let index = self.attachment_ids.len();
                if index < self.draft.attachments.len() {
                    let d = &self.draft.attachments[index];
                    assert(d.data@.len() <= i64::MAX);
                    let path = stored_path_for(self.root.as_str(), id, d.filename.as_str());
                    let row = attachment_record(id, 0, d);
                    IngestAction::StoreAttachment { index, path, row }
                } else {
                    IngestAction::Publish(enriched_mail(&self.draft, id, &self.attachment_ids))
                }
            },
        }
    }

    /// Takes in the outcome of the action that `next` gave.
    pub fn record(&mut self, event: IngestEvent)
        requires
            old(self).wf(),
        ensures
            final(self).wf(),
            final(self).draft() == old(self).draft(),
            final(self).root() == old(self).root(),
            old(self).finished() ==> *final(self) == *old(self),
            !old(self).finished() && old(self).failed() ==> final(self).finished()
                && final(self).mail_id() == old(self).mail_id(),
            !old(self).finished() && !old(self).failed() && old(self).mail_id() is None ==> match event {
                IngestEvent::Stored(id) => final(self).mail_id() == Some(id)
                    && final(self).attachment_ids().len() == 0 && !final(self).failed()
                    && !final(self).finished(),
                IngestEvent::Failed => final(self).failed() && final(self).mail_id() is None
                    && !final(self).finished(),
            },
            !old(self).finished() && !old(self).failed() && old(self).mail_id() is Some
                && !old(self).complete() ==> final(self).mail_id() == old(self).mail_id()
                && !final(self).finished() && match event {
                IngestEvent::Stored(id) => final(self).attachment_ids() == old(self).attachment_ids().push(id)
                    && !final(self).failed(),
                IngestEvent::Failed => final(self).failed()
                    && final(self).attachment_ids() == old(self).attachment_ids(),
            },
            !old(self).finished() && !old(self).failed() && old(self).complete() ==> final(self).finished()
                && final(self).mail_id() == old(self).mail_id()
                && final(self).attachment_ids() == old(self).attachment_ids(),
    {
        if self.finished {
            return;
        }
        if self.failed {
            self.finished = true;
            return;
        }
        match self.mail_id {
            None => match event {
                IngestEvent::Stored(id) => self.mail_id = Some(id),
                IngestEvent::Failed => self.failed = true,
            },
            Some(_) => {
                if self.attachment_ids.len() < self.draft.attachments.len() {
                    match event {
                        IngestEvent::Stored(id) => self.attachment_ids.push(id),
                        IngestEvent::Failed => self.failed = true,
                    }
                } else {
                    self.finished = true;
                }
            },
        }
    }
}

} // verus!
