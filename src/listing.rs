use vstd::prelude::*;
use crate::ingest::{FieldsView, MailDraft, address_of, drafts, missing_field, name_of, or_empty};
use crate::models::{Attachment, StoredMail};
use crate::records::carries;
use crate::date::{instant, instant_of, is_later, later, opt_int};

verus! {

/// Why a query on the stored mails failed.
#[derive(Debug, Clone, Copy, PartialEq, Eq, Structural)]
pub enum QueryError {
    /// No mail has the requested id.
    NotFound,
    /// The storage engine could not be reached or rejected the operation.
    Storage,
}

/// The instant that the declared date of `m` names.
pub open spec fn date_key(m: StoredMail) -> Option<int> {
    instant(m.date@)
}

/// No mail is listed before one whose declared date is a later instant.
pub open spec fn sorted_by_date_desc(s: Seq<StoredMail>) -> bool {
    forall|i: int, j: int|
        0 <= i < j < s.len() ==> !later(date_key(#[trigger] s[j]), date_key(#[trigger] s[i]))
}

/// `r` lists the mails of `s`, each once: position `i` of `r` holds mail
/// `perm[i]` of `s`, and mails with equal dates keep the order they had in `s`.
pub open spec fn stable_permutation(r: Seq<StoredMail>, s: Seq<StoredMail>, perm: Seq<int>) -> bool {
    &&& perm.len() == r.len() == s.len()
    &&& forall|i: int| 0 <= i < r.len() ==> 0 <= #[trigger] perm[i] < s.len() && r[i] == s[perm[i]]
    &&& forall|i: int, j: int| 0 <= i < j < r.len() ==> #[trigger] perm[i] != #[trigger] perm[j]
    &&& forall|i: int, j: int|
        0 <= i < j < r.len() && date_key(#[trigger] r[i]) == date_key(#[trigger] r[j]) ==> perm[i] < perm[j]
}

/// `m` holds the same header and body fields as `o`.
pub open spec fn same_fields(m: StoredMail, o: StoredMail) -> bool {
    &&& m.id == o.id
    &&& m.from_address@ == o.from_address@
    &&& m.from_name@ == o.from_name@
    &&& m.to_address@ == o.to_address@
    &&& m.to_name@ == o.to_name@
    &&& m.subject@ == o.subject@
    &&& m.html@ == o.html@
    &&& m.text@ == o.text@
    &&& m.date@ == o.date@
}

/// Orders mails by the instant of their declared date, latest first; mails
/// with equal dates keep their relative order.
pub fn sort_by_date_desc(mails: Vec<StoredMail>) -> (r: Vec<StoredMail>)
    ensures
        sorted_by_date_desc(r@),
        exists|perm: Seq<int>| stable_permutation(r@, mails@, perm),
{
    let ghost all = mails@;
    let mut rest = mails;
    let mut out: Vec<StoredMail> = Vec::new();
    let ghost mut perm: Seq<int> = Seq::empty();
    while rest.len() > 0
        invariant
            rest@ == all.subrange(0, rest@.len() as int),
            sorted_by_date_desc(out@),
            perm.len() == out@.len(),
            out@.len() + rest@.len() == all.len(),
            forall|i: int| 0 <= i < out@.len() ==> rest@.len() <= #[trigger] perm[i] < all.len()
                && out@[i] == all[perm[i]],
            forall|i: int, j: int| 0 <= i < j < out@.len() ==> #[trigger] perm[i] != #[trigger] perm[j],
            forall|i: int, j: int|
                0 <= i < j < out@.len() && date_key(#[trigger] out@[i]) == date_key(#[trigger] out@[j])
                    ==> perm[i] < perm[j],
        decreases rest@.len(),
    {
        let x = rest.pop().unwrap();
        let ghost p = rest@.len() as int;
        assert(x == all[p]);
        let kx = instant_of(x.date.as_str());
        let mut k: usize = 0;
        while k < out.len() && is_later(instant_of(out[k].date.as_str()), kx)
            invariant
                k <= out@.len(),
                opt_int(kx) == date_key(x),
                forall|i: int| 0 <= i < k ==> later(date_key(#[trigger] out@[i]), date_key(x)),
            decreases out@.len() - k,
        {
            k = k + 1;
        }
        let ghost old_out = out@;
        let ghost old_perm = perm;
        out.insert(k, x);
        proof {
            perm = old_perm.insert(k as int, p);
            assert(out@ == old_out.insert(k as int, x));
            assert forall|i: int, j: int| 0 <= i < j < out@.len() implies !later(
                date_key(#[trigger] out@[j]),
                date_key(#[trigger] out@[i]),
            ) by {
                if i < k && j == k {
                } else if i == k && j > k {
                    assert(!later(date_key(old_out[k as int]), date_key(x)));
                    if j - 1 > k {
                        assert(!later(date_key(old_out[j - 1]), date_key(old_out[k as int])));
                    }
                } else if i < k && j > k {
                    assert(!later(date_key(old_out[j - 1]), date_key(old_out[i])));
                } else if i > k {
                    assert(!later(date_key(old_out[j - 1]), date_key(old_out[i - 1])));
                } else {
                    assert(!later(date_key(old_out[j]), date_key(old_out[i])));
                }
            }
            assert forall|i: int| 0 <= i < out@.len() implies rest@.len() <= #[trigger] perm[i] < all.len()
                && out@[i] == all[perm[i]] by {
                if i > k {
                    assert(perm[i] == old_perm[i - 1]);
                } else if i < k {
                    assert(perm[i] == old_perm[i]);
                }
            }
            assert forall|i: int, j: int| 0 <= i < j < out@.len() implies #[trigger] perm[i] != #[trigger] perm[j] by {
                if i < k && j > k {
                    assert(old_perm[i] != old_perm[j - 1]);
                } else if i > k {
                    assert(old_perm[i - 1] != old_perm[j - 1]);
                } else if j < k {
                    assert(old_perm[i] != old_perm[j]);
                } else if i == k {
                    assert(old_perm[j - 1] >= rest@.len() + 1);
                } else {
                    assert(old_perm[i] >= rest@.len() + 1);
                }
            }
            assert forall|i: int, j: int|
                0 <= i < j < out@.len() && date_key(#[trigger] out@[i]) == date_key(#[trigger] out@[j])
                    implies perm[i] < perm[j] by {
                if i < k && j == k {
                    assert(later(date_key(old_out[i]), date_key(x)));
                } else if i == k {
                    assert(old_perm[j - 1] >= rest@.len() + 1);
                } else if i < k && j > k {
                    assert(old_perm[i] < old_perm[j - 1]);
                } else if i > k {
                    assert(old_perm[i - 1] < old_perm[j - 1]);
                } else {
                    assert(old_perm[i] < old_perm[j]);
                }
            }
        }
    }
    assert(stable_permutation(out@, all, perm));
    out
}

/// Attaches the rows `attachments` to mail `m`, replacing any it carried.
pub fn with_attachments(m: StoredMail, attachments: Vec<Attachment>) -> (r: StoredMail)
    ensures
        same_fields(r, m),
        r.is_read == m.is_read,
        r.attachments@ == attachments@,
{
    StoredMail { attachments, ..m }
}

/// The answer to a fetch of one mail: the mail found, with its attachment
/// rows and marked read, or `NotFound` when no mail has the id.
pub fn open_mail(found: Option<StoredMail>, attachments: Vec<Attachment>) -> (r: Result<StoredMail, QueryError>)
    ensures
        match found {
            None => r == Err::<StoredMail, QueryError>(QueryError::NotFound),
            Some(m) => r matches Ok(o) && same_fields(o, m) && o.is_read
                && o.attachments@ == attachments@,
        },
{
    match found {
        None => Err(QueryError::NotFound),
        Some(m) => Ok(StoredMail { is_read: true, attachments, ..m }),
    }
}

/// A mail drafted from message fields `f` and stored under `id` as an unread
/// row is returned by a fetch with exactly those fields, and read.
pub proof fn lemma_fetch_returns_ingested(
    f: FieldsView,
    d: MailDraft,
    id: i64,
    row: StoredMail,
    fetched: StoredMail,
)
    requires
        missing_field(f) is None,
        drafts(d, f),
        carries(row, d, id),
        !row.is_read,
        same_fields(fetched, row),
        fetched.is_read,
    ensures
        fetched.id == id,
        fetched.from_address@ == address_of(f.from),
        fetched.from_name@ == name_of(f.from),
        fetched.to_address@ == address_of(f.to),
        fetched.to_name@ == name_of(f.to),
        fetched.subject@ == or_empty(f.subject),
        fetched.html@ == or_empty(f.html),
        fetched.text@ == or_empty(f.text),
        fetched.date@ == or_empty(f.date),
        !row.is_read && fetched.is_read,
{
}

/// The mail published for draft `d` and the mail later fetched from the row
/// stored for `d` agree field for field, attachments included; only the read
/// flag differs.
pub proof fn lemma_published_matches_fetched(
    d: MailDraft,
    id: i64,
    published: StoredMail,
    row: StoredMail,
    fetched: StoredMail,
)
    requires
        carries(published, d, id),
        !published.is_read,
        carries(row, d, id),
        same_fields(fetched, row),
        fetched.attachments@ == published.attachments@,
        fetched.is_read,
    ensures
        same_fields(fetched, published),
        fetched.attachments@ == published.attachments@,
        !published.is_read,
{
}

} // verus!
