//! Updates of a stored contact: which e-mail address has to be looked up
//! first, and what becomes of the contact once the answer is known.

use vstd::prelude::*;
use crate::contact::{
    lemma_mutations_keep_wf, optional_text, transition_refusal, Contact, ContactView,
};
use crate::errors::{invalid, DomainError, DomainErrorView};
use crate::number::Binary64;
use crate::status::{can_transition, ContactStatus};
use crate::text::{has_control, lemma_trim_twice, lemma_trimmed, lowercased, trimmed};
use crate::time::Timestamp;
use crate::validation::{
    distinct, email_verdict, first_tag_problem, is_stored_tag, lemma_distinct,
    lemma_first_tag_problem, linkedin_verdict, name_verdict, normalized_tag, normalized_tags,
    phone_verdict, tag_problem, texts, validate_email, validate_linkedin_url, validate_name,
    validate_phone, validate_tags,
};

verus! {

/// The fields of a contact to change; a field that is `None` stays as it
/// is.
#[derive(Debug)]
pub struct UpdateContactInput {
    pub first_name: Option<String>,
    pub last_name: Option<String>,
    pub email: Option<String>,
    pub phone: Option<String>,
    pub linkedin_url: Option<String>,
    pub tags: Option<Vec<String>>,
    pub status: Option<ContactStatus>,
    pub engagement_score: Option<Binary64>,
    pub company_id: Option<String>,
}

/// An update with its texts as character sequences.
pub struct UpdateContactInputView {
    pub first_name: Option<Seq<char>>,
    pub last_name: Option<Seq<char>>,
    pub email: Option<Seq<char>>,
    pub phone: Option<Seq<char>>,
    pub linkedin_url: Option<Seq<char>>,
    pub tags: Option<Seq<Seq<char>>>,
    pub status: Option<ContactStatus>,
    pub engagement_score: Option<Binary64>,
    pub company_id: Option<Seq<char>>,
}

impl View for UpdateContactInput {
    type V = UpdateContactInputView;

    open spec fn view(&self) -> UpdateContactInputView {
        UpdateContactInputView {
            first_name: optional_text(self.first_name),
            last_name: optional_text(self.last_name),
            email: optional_text(self.email),
            phone: optional_text(self.phone),
            linkedin_url: optional_text(self.linkedin_url),
            tags: match self.tags {
                Some(t) => Some(texts(t@)),
                None => None,
            },
            status: self.status,
            engagement_score: self.engagement_score,
            company_id: optional_text(self.company_id),
        }
    }
}

/// Why an update was refused.
#[derive(Debug)]
pub enum UpdateError {
    /// Another contact has the e-mail address already; the text says so.
    Conflict(String),
    /// A field is not in order, or the status may not change as asked.
    Domain(DomainError),
}

/// An `UpdateError` with its texts as character sequences.
pub enum UpdateErrorView {
    Conflict(Seq<char>),
    Domain(DomainErrorView),
}

impl View for UpdateError {
    type V = UpdateErrorView;

    open spec fn view(&self) -> UpdateErrorView {
        match *self {
            UpdateError::Conflict(text) => UpdateErrorView::Conflict(text@),
            UpdateError::Domain(e) => UpdateErrorView::Domain(e@),
        }
    }
}

/// The outcome of an update, by its views.
pub open spec fn outcome_of(r: Result<Contact, UpdateError>) -> Result<
    ContactView,
    UpdateErrorView,
> {
    match r {
        Ok(c) => Ok(c@),
        Err(e) => Err(e@),
    }
}

/// The sentence that reports an e-mail address as taken.
pub open spec fn conflict_text(email: Seq<char>) -> Seq<char> {
    "A contact with email '"@ + email + "' already exists"@
}

/// An optional text as an update stores it: unset where it is empty.
pub open spec fn unless_empty(t: Seq<char>) -> Option<Seq<char>> {
    if t.len() == 0 {
        None
    } else {
        Some(t)
    }
}

/// Passes a problem on as the refusal of an update.
pub open spec fn refused_if(problem: Option<DomainErrorView>, c: ContactView) -> Result<
    ContactView,
    UpdateErrorView,
> {
    match problem {
        Some(e) => Err(UpdateErrorView::Domain(e)),
        None => Ok(c),
    }
}

impl UpdateContactInputView {
    /// The e-mail address that the update asks for, trimmed and in lower
    /// case, where it differs from the one that the contact has.
    pub open spec fn new_email(self, c: ContactView) -> Option<Seq<char>> {
        match self.email {
            Some(raw) => if lowercased(trimmed(raw)) == c.email {
                None
            } else {
                Some(lowercased(trimmed(raw)))
            },
            None => None,
        }
    }

    /// The contact with the new e-mail address, where there is one: refused
    /// where another contact has it, or where it is not in order.
    pub open spec fn with_email(self, c: ContactView, taken: bool) -> Result<
        ContactView,
        UpdateErrorView,
    > {
        match self.new_email(c) {
            None => Ok(c),
            Some(e) => if taken {
                Err(UpdateErrorView::Conflict(conflict_text(e)))
            } else {
                refused_if(email_verdict(e), ContactView { email: e, ..c })
            },
        }
    }

    /// The contact with the new names, each validated as given and stored
    /// trimmed.
    pub open spec fn with_names(self, c: ContactView) -> Result<ContactView, UpdateErrorView> {
        let first = match self.first_name {
            Some(n) => refused_if(
                name_verdict(n, "first_name"@),
                ContactView { first_name: trimmed(n), ..c },
            ),
            None => Ok(c),
        };
        match first {
            Err(e) => Err(e),
            Ok(c1) => match self.last_name {
                Some(n) => refused_if(
                    name_verdict(n, "last_name"@),
                    ContactView { last_name: trimmed(n), ..c1 },
                ),
                None => Ok(c1),
            },
        }
    }

    /// The contact with the new phone number and LinkedIn address, each
    /// validated as given and unset where it is empty.
    pub open spec fn with_addresses(self, c: ContactView) -> Result<ContactView, UpdateErrorView> {
        let phone = match self.phone {
            Some(p) => refused_if(
                phone_verdict(Some(p)),
                ContactView { phone: unless_empty(p), ..c },
            ),
            None => Ok(c),
        };
        match phone {
            Err(e) => Err(e),
            Ok(c1) => match self.linkedin_url {
                Some(u) => refused_if(
                    linkedin_verdict(Some(u)),
                    ContactView { linkedin_url: unless_empty(u), ..c1 },
                ),
                None => Ok(c1),
            },
        }
    }

    /// The contact with the new tags in place of the old ones: validated,
    /// in their stored forms and without repetitions.
    pub open spec fn with_tags(self, c: ContactView) -> Result<ContactView, UpdateErrorView> {
        match self.tags {
            Some(t) => refused_if(
                first_tag_problem(t),
                ContactView { tags: distinct(normalized_tags(t)), ..c },
            ),
            None => Ok(c),
        }
    }

    /// The contact with the new status, where the lifecycle allows the
    /// change.
    pub open spec fn with_status(self, c: ContactView, now: Timestamp) -> Result<
        ContactView,
        UpdateErrorView,
    > {
        match self.status {
            Some(s) => if can_transition(c.status, s) {
                Ok(c.with_status(s, now))
            } else {
                Err(UpdateErrorView::Domain(transition_refusal(c.status, s)))
            },
            None => Ok(c),
        }
    }

    /// The contact with the new score, clamped; NaN and the infinities are
    /// refused.
    pub open spec fn with_score(self, c: ContactView, now: Timestamp) -> Result<
        ContactView,
        UpdateErrorView,
    > {
        match self.engagement_score {
            Some(x) => if x.finite() {
                Ok(c.with_score(x, now))
            } else {
                Err(
                    UpdateErrorView::Domain(
                        invalid("engagement_score"@, "Score must be a finite number"@),
                    ),
                )
            },
            None => Ok(c),
        }
    }

    /// The contact with the new company, unset where the identifier is
    /// empty, and with `now` as the time of the last change.
    pub open spec fn with_company(self, c: ContactView, now: Timestamp) -> ContactView {
        ContactView {
            company_id: match self.company_id {
                Some(id) => unless_empty(id),
                None => c.company_id,
            },
            updated_at: now,
            ..c
        }
    }

    /// What the update makes of a contact at `now`, given whether another
    /// contact has the new e-mail address. The fields are taken in the order
    /// e-mail, names, phone, LinkedIn address, tags, status, score, company;
    /// the first one that is refused decides the error.
    pub open spec fn outcome(self, c: ContactView, taken: bool, now: Timestamp) -> Result<
        ContactView,
        UpdateErrorView,
    > {
        match self.with_email(c, taken) {
            Err(e) => Err(e),
            Ok(c1) => match self.with_names(c1) {
                Err(e) => Err(e),
                Ok(c2) => match self.with_addresses(c2) {
                    Err(e) => Err(e),
                    Ok(c3) => match self.with_tags(c3) {
                        Err(e) => Err(e),
                        Ok(c4) => match self.with_status(c4, now) {
                            Err(e) => Err(e),
                            Ok(c5) => match self.with_score(c5, now) {
                                Err(e) => Err(e),
                                Ok(c6) => Ok(self.with_company(c6, now)),
                            },
                        },
                    },
                },
            },
        }
    }
}

/// A name that passes its check still passes it when it is trimmed.
pub proof fn lemma_trimmed_name(name: Seq<char>, field: Seq<char>)
    requires
        name_verdict(name, field) is None,
    ensures
        name_verdict(trimmed(name), field) is None,
{
    lemma_trim_twice(name);
    lemma_trimmed(name);
    let t = trimmed(name);
    if has_control(t) {
        let i = choose|i: int| 0 <= i < t.len() && crate::text::is_control(#[trigger] t[i]);
        let a = crate::text::text_start(name, 0);
        crate::text::lemma_text_start(name, 0);
        crate::text::lemma_text_end(name, name.len() as int);
        assert(t[i] == name[a + i]);
    }
}

/// An update that goes through leaves a well-formed contact well formed.
pub proof fn lemma_update_keeps_wf(
    u: UpdateContactInputView,
    c: ContactView,
    taken: bool,
    now: Timestamp,
)
    requires
        c.wf(),
        u.outcome(c, taken, now) is Ok,
    ensures
        u.outcome(c, taken, now)->Ok_0.wf(),
{
    let c1 = u.with_email(c, taken)->Ok_0;
    assert(c1.wf());
    if u.first_name is Some {
        lemma_trimmed_name(u.first_name->0, "first_name"@);
    }
    if u.last_name is Some {
        lemma_trimmed_name(u.last_name->0, "last_name"@);
    }
    let c2 = u.with_names(c1)->Ok_0;
    assert(c2.wf());
    let c3 = u.with_addresses(c2)->Ok_0;
    assert(c3.wf());
    let c4 = u.with_tags(c3)->Ok_0;
    if u.tags is Some {
        let raw = u.tags->0;
        let stored = normalized_tags(raw);
        let tags = distinct(stored);
        lemma_distinct(stored);
        lemma_first_tag_problem(raw);
        assert forall|i: int| 0 <= i < tags.len() implies tag_problem(#[trigger] tags[i]) is None
            && is_stored_tag(tags[i]) by {
            assert(tags.contains(tags[i]));
            assert(stored.contains(tags[i]));
            let j = choose|j: int| 0 <= j < stored.len() && stored[j] == tags[i];
            assert(stored[j] == normalized_tag(raw[j]));
        }
    }
    assert(c4.wf());
    let c5 = u.with_status(c4, now)->Ok_0;
    assert(c5.wf());
    let c6 = u.with_score(c5, now)->Ok_0;
    if u.engagement_score is Some {
        lemma_mutations_keep_wf(c5, c5.status, Seq::empty(), u.engagement_score->0, now);
    }
    assert(c6.wf());
}

fn refusal(e: DomainError) -> (r: Result<Contact, UpdateError>)
    ensures
        outcome_of(r) == Err::<ContactView, UpdateErrorView>(UpdateErrorView::Domain(e@)),
{
    Err(UpdateError::Domain(e))
}

fn stored_text(text: &String) -> (r: Option<String>)
    ensures
        optional_text(r) == unless_empty(text@),
{
    if text.as_str().is_empty() {
        None
    } else {
        Some(text.clone())
    }
}

impl UpdateContactInput {
    /// The e-mail address to look up before the update is applied: the one
    /// that the update asks for, trimmed and in lower case, where it differs
    /// from the one that the contact has.
    pub fn email_to_check(&self, contact: &Contact) -> (r: Option<String>)
        ensures
            optional_text(r) == self@.new_email(contact@),
    {
        match &self.email {
            Some(raw) => {
                let normalized: String = raw.as_str().trim().to_lowercase();
                if normalized == contact.email {
                    None
                } else {
                    Some(normalized)
                }
            },
            None => None,
        }
    }

    fn set_email(&self, contact: Contact, email_taken: bool) -> (r: Result<Contact, UpdateError>)
        ensures
            outcome_of(r) == self@.with_email(contact@, email_taken),
    {
        let mut c: Contact = contact;
        match self.email_to_check(&c) {
            Some(normalized) => {
                if email_taken {
                    let text: String = String::from_str("A contact with email '").concat(
                        normalized.as_str(),
                    ).concat("' already exists");
                    return Err(UpdateError::Conflict(text));
                }
                if let Err(e) = validate_email(normalized.as_str()) {
                    return refusal(e);
                }
                c.email = normalized;
                Ok(c)
            },
            None => Ok(c),
        }
    }

    fn set_names(&self, contact: Contact) -> (r: Result<Contact, UpdateError>)
        ensures
            outcome_of(r) == self@.with_names(contact@),
    {
        let mut c: Contact = contact;
        match &self.first_name {
            Some(name) => {
                if let Err(e) = validate_name(name.as_str(), "first_name") {
                    return refusal(e);
                }
                c.first_name = String::from_str(name.as_str().trim());
            },
            None => {},
        }
        match &self.last_name {
            Some(name) => {
                if let Err(e) = validate_name(name.as_str(), "last_name") {
                    return refusal(e);
                }
                c.last_name = String::from_str(name.as_str().trim());
            },
            None => {},
        }
        Ok(c)
    }

    fn set_addresses(&self, contact: Contact) -> (r: Result<Contact, UpdateError>)
        ensures
            outcome_of(r) == self@.with_addresses(contact@),
    {
        let mut c: Contact = contact;
        match &self.phone {
            Some(phone) => {
                if let Err(e) = validate_phone(Some(phone.as_str())) {
                    return refusal(e);
                }
                c.phone = stored_text(phone);
            },
            None => {},
        }
        match &self.linkedin_url {
            Some(url) => {
                if let Err(e) = validate_linkedin_url(Some(url.as_str())) {
                    return refusal(e);
                }
                c.linkedin_url = stored_text(url);
            },
            None => {},
        }
        Ok(c)
    }

    fn set_tags(&self, contact: Contact) -> (r: Result<Contact, UpdateError>)
        ensures
            outcome_of(r) == self@.with_tags(contact@),
    {
        let mut c: Contact = contact;
        match &self.tags {
            Some(tags) => {
                match validate_tags(tags.as_slice()) {
                    Err(e) => refusal(e),
                    Ok(validated) => {
                        c.tags = validated;
                        Ok(c)
                    },
                }
            },
            None => Ok(c),
        }
    }

    fn set_status(&self, contact: Contact, now: Timestamp) -> (r: Result<Contact, UpdateError>)
        ensures
            outcome_of(r) == self@.with_status(contact@, now),
    {
        let mut c: Contact = contact;
        match self.status {
            Some(status) => {
                match c.transition_status_at(status, now) {
                    Err(e) => refusal(e),
                    Ok(()) => Ok(c),
                }
            },
            None => Ok(c),
        }
    }

    fn set_score(&self, contact: Contact, now: Timestamp) -> (r: Result<Contact, UpdateError>)
        ensures
            outcome_of(r) == self@.with_score(contact@, now),
    {
        let mut c: Contact = contact;
        match self.engagement_score {
            Some(score) => {
                match c.update_engagement_at(score, now) {
                    Err(e) => refusal(e),
                    Ok(()) => Ok(c),
                }
            },
            None => Ok(c),
        }
    }

    fn set_company(&self, contact: Contact, now: Timestamp) -> (r: Contact)
        ensures
            r@ == self@.with_company(contact@, now),
    {
        let mut c: Contact = contact;
        match &self.company_id {
            Some(id) => {
                c.company_id = stored_text(id);
            },
            None => {},
        }
        c.updated_at = now;
        c
    }

    /// Applies the update to a contact at the instant `now`. `email_taken`
    /// says whether another contact has the address that `email_to_check`
    /// gave. Either every change is made, or none and the first refusal is
    /// reported.
    pub fn apply_at(self, contact: Contact, email_taken: bool, now: Timestamp) -> (r: Result<
        Contact,
        UpdateError,
    >)
        ensures
            outcome_of(r) == self@.outcome(contact@, email_taken, now),
            r is Ok && contact@.wf() ==> r->Ok_0@.wf(),
    {
        proof {
            if contact@.wf() && self@.outcome(contact@, email_taken, now) is Ok {
                lemma_update_keeps_wf(self@, contact@, email_taken, now);
            }
        }
        let c = match self.set_email(contact, email_taken) {
            Err(e) => {
                return Err(e);
            },
            Ok(c) => c,
        };
        let c = match self.set_names(c) {
            Err(e) => {
                return Err(e);
            },
            Ok(c) => c,
        };
        let c = match self.set_addresses(c) {
            Err(e) => {
                return Err(e);
            },
            Ok(c) => c,
        };
        let c = match self.set_tags(c) {
            Err(e) => {
                return Err(e);
            },
            Ok(c) => c,
        };
        let c = match self.set_status(c, now) {
            Err(e) => {
                return Err(e);
            },
            Ok(c) => c,
        };
        let c = match self.set_score(c, now) {
            Err(e) => {
                return Err(e);
            },
            Ok(c) => c,
        };
        Ok(self.set_company(c, now))
    }

    /// Applies the update now. Whatever the clock says, the outcome is that
    /// of `apply_at` for some instant.
    pub fn apply(self, contact: Contact, email_taken: bool) -> (r: Result<Contact, UpdateError>)
        ensures
            exists|now: Timestamp|
                outcome_of(r) == #[trigger] self@.outcome(contact@, email_taken, now),
            r is Ok && contact@.wf() ==> r->Ok_0@.wf(),
    {
        let now: Timestamp = Timestamp::now();
        self.apply_at(contact, email_taken, now)
    }
}

} // verus!
