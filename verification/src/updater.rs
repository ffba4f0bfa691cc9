//! Partial updates of a contact: each step validates what it is given,
//! changes the contact, and notes which field it touched.

use vstd::prelude::*;
use crate::contact::{transition_refusal, Contact, ContactView};
use crate::errors::{error_of, DomainError};
use crate::status::{can_transition, ContactStatus};
use crate::text::{lowercased, trimmed};
use crate::time::Timestamp;
use crate::validation::{
    email_verdict, normalized_tag, phone_verdict, tag_problem, text_of, texts, validate_email,
    validate_phone,
};

verus! {

/// A contact under change, with the names of the fields touched so far, in
/// the order of the steps.
pub struct ContactUpdater {
    pub contact: Contact,
    pub modified_fields: Vec<String>,
}

/// The phone number that an update sets: none for an absent or empty one.
pub open spec fn phone_to_store(phone: Option<Seq<char>>) -> Option<Seq<char>> {
    match phone {
        Some(p) => if p.len() == 0 {
            None
        } else {
            Some(p)
        },
        None => None,
    }
}

impl ContactUpdater {
    /// Whether this updater is `before` after one step that left the
    /// contact as `contact` and touched `field`.
    pub open spec fn follows(
        self,
        before: ContactUpdater,
        contact: ContactView,
        field: Seq<char>,
    ) -> bool {
        &&& self.contact@ == contact
        &&& texts(self.modified_fields@) == texts(before.modified_fields@).push(field)
    }

    /// Starts the update of a contact: nothing is touched yet.
    pub fn new(contact: Contact) -> (r: ContactUpdater)
        ensures
            r.contact == contact,
            r.modified_fields@.len() == 0,
    {
        ContactUpdater { contact, modified_fields: Vec::new() }
    }

    fn touched(self, field: &str) -> (r: ContactUpdater)
        ensures
            r.contact == self.contact,
            texts(r.modified_fields@) == texts(self.modified_fields@).push(field@),
    {
        let mut u = self;
        u.modified_fields.push(String::from_str(field));
        assert(texts(u.modified_fields@) =~= texts(self.modified_fields@).push(field@));
        u
    }

    /// Sets the e-mail address at the instant `now`: trimmed, in lower
    /// case, and validated. An address that is not in order is refused.
    pub fn email_at(self, email: &str, now: Timestamp) -> (r: Result<ContactUpdater, DomainError>)
        ensures
            error_of(r) == email_verdict(lowercased(trimmed(email@))),
            r matches Ok(u) ==> u.follows(
                self,
                ContactView {
                    email: lowercased(trimmed(email@)),
                    updated_at: now,
                    ..self.contact@
                },
                "email"@,
            ),
            r is Ok && self.contact@.wf() ==> r->Ok_0.contact@.wf(),
    {
        let normalized: String = email.trim().to_lowercase();
        match validate_email(normalized.as_str()) {
            Err(e) => Err(e),
            Ok(()) => {
                let mut u = self;
                u.contact.email = normalized;
                u.contact.updated_at = now;
                Ok(u.touched("email"))
            },
        }
    }

    /// Sets the e-mail address now; the outcome is that of `email_at` for
    /// the instant that `updated_at` shows afterwards.
    pub fn email(self, email: &str) -> (r: Result<ContactUpdater, DomainError>)
        ensures
            error_of(r) == email_verdict(lowercased(trimmed(email@))),
            r matches Ok(u) ==> u.follows(
                self,
                ContactView {
                    email: lowercased(trimmed(email@)),
                    updated_at: u.contact.updated_at,
                    ..self.contact@
                },
                "email"@,
            ),
            r is Ok && self.contact@.wf() ==> r->Ok_0.contact@.wf(),
    {
        let now: Timestamp = Timestamp::now();
        self.email_at(email, now)
    }

    /// Sets or clears the phone number at the instant `now`. An absent or
    /// empty number clears it; one that is not in order is refused.
    pub fn phone_at(self, phone: Option<&str>, now: Timestamp) -> (r: Result<
        ContactUpdater,
        DomainError,
    >)
        ensures
            error_of(r) == phone_verdict(text_of(phone)),
            r matches Ok(u) ==> u.follows(
                self,
                ContactView {
                    phone: phone_to_store(text_of(phone)),
                    updated_at: now,
                    ..self.contact@
                },
                "phone"@,
            ),
            r is Ok && self.contact@.wf() ==> r->Ok_0.contact@.wf(),
    {
        match validate_phone(phone) {
            Err(e) => Err(e),
            Ok(()) => {
                let mut u = self;
                u.contact.phone = match phone {
                    Some(p) => if p.is_empty() {
                        None
                    } else {
                        Some(String::from_str(p))
                    },
                    None => None,
                };
                u.contact.updated_at = now;
                Ok(u.touched("phone"))
            },
        }
    }

    /// Sets or clears the phone number now; the outcome is that of
    /// `phone_at` for the instant that `updated_at` shows afterwards.
    pub fn phone(self, phone: Option<&str>) -> (r: Result<ContactUpdater, DomainError>)
        ensures
            error_of(r) == phone_verdict(text_of(phone)),
            r matches Ok(u) ==> u.follows(
                self,
                ContactView {
                    phone: phone_to_store(text_of(phone)),
                    updated_at: u.contact.updated_at,
                    ..self.contact@
                },
                "phone"@,
            ),
            r is Ok && self.contact@.wf() ==> r->Ok_0.contact@.wf(),
    {
        let now: Timestamp = Timestamp::now();
        self.phone_at(phone, now)
    }

    /// Adds a tag at the instant `now`, as `Contact::add_tag_at` does.
    pub fn add_tag_at(self, tag: &str, now: Timestamp) -> (r: Result<ContactUpdater, DomainError>)
        ensures
            error_of(r) == tag_problem(normalized_tag(tag@)),
            r matches Ok(u) ==> u.follows(
                self,
                self.contact@.with_tag(normalized_tag(tag@), now),
                "tags"@,
            ),
            r is Ok && self.contact@.wf() ==> r->Ok_0.contact@.wf(),
    {
        let mut u = self;
        match u.contact.add_tag_at(tag, now) {
            Err(e) => Err(e),
            Ok(()) => Ok(u.touched("tags")),
        }
    }

    /// Adds a tag now; the outcome is that of `add_tag_at` for the instant
    /// that `updated_at` shows afterwards.
    pub fn add_tag(self, tag: &str) -> (r: Result<ContactUpdater, DomainError>)
        ensures
            error_of(r) == tag_problem(normalized_tag(tag@)),
            r matches Ok(u) ==> u.follows(
                self,
                self.contact@.with_tag(normalized_tag(tag@), u.contact.updated_at),
                "tags"@,
            ),
            r is Ok && self.contact@.wf() ==> r->Ok_0.contact@.wf(),
    {
        let now: Timestamp = Timestamp::now();
        self.add_tag_at(tag, now)
    }

    /// Changes the status at the instant `now`, where the lifecycle allows
    /// the change.
    pub fn status_at(self, new_status: ContactStatus, now: Timestamp) -> (r: Result<
        ContactUpdater,
        DomainError,
    >)
        ensures
            r is Ok <==> can_transition(self.contact.status, new_status),
            r is Err ==> error_of(r) == Some(transition_refusal(self.contact.status, new_status)),
            r matches Ok(u) ==> u.follows(
                self,
                self.contact@.with_status(new_status, now),
                "status"@,
            ),
            r is Ok && self.contact@.wf() ==> r->Ok_0.contact@.wf(),
    {
        let mut u = self;
        match u.contact.transition_status_at(new_status, now) {
            Err(e) => Err(e),
            Ok(()) => Ok(u.touched("status")),
        }
    }

    /// Changes the status now; the outcome is that of `status_at` for the
    /// instant that `updated_at` shows afterwards.
    pub fn status(self, new_status: ContactStatus) -> (r: Result<ContactUpdater, DomainError>)
        ensures
            r is Ok <==> can_transition(self.contact.status, new_status),
            r is Err ==> error_of(r) == Some(transition_refusal(self.contact.status, new_status)),
            r matches Ok(u) ==> u.follows(
                self,
                self.contact@.with_status(new_status, u.contact.updated_at),
                "status"@,
            ),
            r is Ok && self.contact@.wf() ==> r->Ok_0.contact@.wf(),
    {
        let now: Timestamp = Timestamp::now();
        self.status_at(new_status, now)
    }

    /// Hands out the contact with every change made so far.
    pub fn apply(self) -> (r: Result<Contact, DomainError>)
        ensures
            r is Ok,
            r->Ok_0 == self.contact,
    {
        Ok(self.contact)
    }

    /// The names of the fields touched so far, in the order of the steps.
    pub fn modified_fields(&self) -> (r: &[String])
        ensures
            r@ == self.modified_fields@,
    {
        self.modified_fields.as_slice()
    }
}

} // verus!
