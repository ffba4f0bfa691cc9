//! Construction of contacts: raw texts go in, are normalised on the way,
//! and are validated together when the contact is built.

use vstd::prelude::*;
use crate::contact::{optional_text, Contact, ContactView};
use crate::errors::{error_of, missing, DomainError, DomainErrorView};
use crate::number::{lemma_percentage, Binary64, ZERO_BITS};
use crate::status::ContactStatus;
use crate::text::{lowercased, trimmed};
use crate::time::Timestamp;
use crate::validation::{
    distinct, email_verdict, first_tag_problem, lemma_distinct, lemma_first_tag_problem,
    linkedin_verdict, name_verdict, normalized_tags, phone_verdict, texts, validate_email,
    validate_linkedin_url, validate_name, validate_phone, validate_tags,
};

verus! {

/// The fields of a contact that is still being put together.
pub struct ContactBuilder {
    pub first_name: Option<String>,
    pub last_name: Option<String>,
    pub email: Option<String>,
    pub phone: Option<String>,
    pub linkedin_url: Option<String>,
    pub tags: Vec<String>,
    pub status: ContactStatus,
    pub company_id: Option<String>,
}

/// A builder with its texts as character sequences.
pub struct ContactBuilderView {
    pub first_name: Option<Seq<char>>,
    pub last_name: Option<Seq<char>>,
    pub email: Option<Seq<char>>,
    pub phone: Option<Seq<char>>,
    pub linkedin_url: Option<Seq<char>>,
    pub tags: Seq<Seq<char>>,
    pub status: ContactStatus,
    pub company_id: Option<Seq<char>>,
}

impl View for ContactBuilder {
    type V = ContactBuilderView;

    open spec fn view(&self) -> ContactBuilderView {
        ContactBuilderView {
            first_name: optional_text(self.first_name),
            last_name: optional_text(self.last_name),
            email: optional_text(self.email),
            phone: optional_text(self.phone),
            linkedin_url: optional_text(self.linkedin_url),
            tags: texts(self.tags@),
            status: self.status,
            company_id: optional_text(self.company_id),
        }
    }
}

impl ContactBuilderView {
    /// The builder that nothing has been given to yet.
    pub open spec fn empty() -> ContactBuilderView {
        ContactBuilderView {
            first_name: None,
            last_name: None,
            email: None,
            phone: None,
            linkedin_url: None,
            tags: Seq::empty(),
            status: ContactStatus::Lead,
            company_id: None,
        }
    }

    /// The error of the first field that is missing or not in order, in the
    /// order first name, last name, e-mail, phone, LinkedIn address, tags.
    pub open spec fn problem(self) -> Option<DomainErrorView> {
        if self.first_name is None {
            Some(missing("first_name"@))
        } else if name_verdict(self.first_name->0, "first_name"@) is Some {
            name_verdict(self.first_name->0, "first_name"@)
        } else if self.last_name is None {
            Some(missing("last_name"@))
        } else if name_verdict(self.last_name->0, "last_name"@) is Some {
            name_verdict(self.last_name->0, "last_name"@)
        } else if self.email is None {
            Some(missing("email"@))
        } else if email_verdict(self.email->0) is Some {
            email_verdict(self.email->0)
        } else if phone_verdict(self.phone) is Some {
            phone_verdict(self.phone)
        } else if linkedin_verdict(self.linkedin_url) is Some {
            linkedin_verdict(self.linkedin_url)
        } else {
            first_tag_problem(self.tags)
        }
    }

    /// The contact that a builder without a problem gives at `now`: the
    /// fields as they were collected, the tags in their stored forms without
    /// repetitions, and a score of 0.
    pub open spec fn built(self, now: Timestamp) -> ContactView {
        ContactView {
            first_name: self.first_name->0,
            last_name: self.last_name->0,
            email: self.email->0,
            phone: self.phone,
            linkedin_url: self.linkedin_url,
            tags: distinct(normalized_tags(self.tags)),
            status: self.status,
            engagement_score: Binary64 { bits: ZERO_BITS },
            company_id: self.company_id,
            created_at: now,
            updated_at: now,
        }
    }
}

/// A builder without a problem gives a well-formed contact.
pub proof fn lemma_built_is_wf(b: ContactBuilderView, now: Timestamp)
    requires
        b.problem() is None,
    ensures
        b.built(now).wf(),
{
    let stored = normalized_tags(b.tags);
    let tags = distinct(stored);
    lemma_distinct(stored);
    lemma_first_tag_problem(b.tags);
    lemma_percentage(Binary64 { bits: ZERO_BITS });
    assert forall|i: int| 0 <= i < tags.len() implies crate::validation::tag_problem(
        #[trigger] tags[i],
    ) is None && crate::validation::is_stored_tag(tags[i]) by {
        assert(tags.contains(tags[i]));
        assert(stored.contains(tags[i]));
        let j = choose|j: int| 0 <= j < stored.len() && stored[j] == tags[i];
        assert(stored[j] == crate::validation::normalized_tag(b.tags[j]));
    }
}

impl ContactBuilder {
    /// A builder with nothing set: no tags, and the status of a lead.
    pub fn new() -> (r: ContactBuilder)
        ensures
            r@ == ContactBuilderView::empty(),
    {
        let r = ContactBuilder {
            first_name: None,
            last_name: None,
            email: None,
            phone: None,
            linkedin_url: None,
            tags: Vec::new(),
            status: ContactStatus::Lead,
            company_id: None,
        };
        assert(texts(r.tags@) =~= Seq::<Seq<char>>::empty());
        r
    }

    /// Sets the first name, trimmed.
    pub fn first_name(self, name: &str) -> (r: ContactBuilder)
        ensures
            r@ == (ContactBuilderView { first_name: Some(trimmed(name@)), ..self@ }),
    {
        let mut b = self;
        b.first_name = Some(String::from_str(name.trim()));
        b
    }

    /// Sets the last name, trimmed.
    pub fn last_name(self, name: &str) -> (r: ContactBuilder)
        ensures
            r@ == (ContactBuilderView { last_name: Some(trimmed(name@)), ..self@ }),
    {
        let mut b = self;
        b.last_name = Some(String::from_str(name.trim()));
        b
    }

    /// Sets the e-mail address, trimmed and in lower case.
    pub fn email(self, email: &str) -> (r: ContactBuilder)
        ensures
            r@ == (ContactBuilderView { email: Some(lowercased(trimmed(email@))), ..self@ }),
    {
        let mut b = self;
        b.email = Some(email.trim().to_lowercase());
        b
    }

    /// Sets the phone number, trimmed; a blank one leaves the builder as it
    /// is.
    pub fn phone(self, phone: &str) -> (r: ContactBuilder)
        ensures
            r@ == if trimmed(phone@).len() == 0 {
                self@
            } else {
                ContactBuilderView { phone: Some(trimmed(phone@)), ..self@ }
            },
    {
        let mut b = self;
        let stripped: &str = phone.trim();
        if !stripped.is_empty() {
            b.phone = Some(String::from_str(stripped));
        }
        b
    }

    /// Sets the LinkedIn address, trimmed; a blank one leaves the builder
    /// as it is.
    pub fn linkedin_url(self, url: &str) -> (r: ContactBuilder)
        ensures
            r@ == if trimmed(url@).len() == 0 {
                self@
            } else {
                ContactBuilderView { linkedin_url: Some(trimmed(url@)), ..self@ }
            },
    {
        let mut b = self;
        let stripped: &str = url.trim();
        if !stripped.is_empty() {
            b.linkedin_url = Some(String::from_str(stripped));
        }
        b
    }

    /// Adds one raw tag after those collected so far.
    pub fn tag(self, tag: &str) -> (r: ContactBuilder)
        ensures
            r@ == (ContactBuilderView { tags: self@.tags.push(tag@), ..self@ }),
    {
        let mut b = self;
        b.tags.push(String::from_str(tag));
        assert(texts(b.tags@) =~= self@.tags.push(tag@));
        b
    }

    /// Adds raw tags, in their order, after those collected so far.
    pub fn tags(self, tags: Vec<String>) -> (r: ContactBuilder)
        ensures
            r@ == (ContactBuilderView { tags: self@.tags + texts(tags@), ..self@ }),
    {
        let mut b = self;
        let mut more = tags;
        b.tags.append(&mut more);
        assert(texts(b.tags@) =~= self@.tags + texts(tags@));
        b
    }

    /// Sets the status.
    pub fn status(self, status: ContactStatus) -> (r: ContactBuilder)
        ensures
            r@ == (ContactBuilderView { status, ..self@ }),
    {
        let mut b = self;
        b.status = status;
        b
    }

    /// Sets the company that the contact belongs to, by its identifier.
    pub fn company_id(self, id: &str) -> (r: ContactBuilder)
        ensures
            r@ == (ContactBuilderView { company_id: Some(id@), ..self@ }),
    {
        let mut b = self;
        b.company_id = Some(String::from_str(id));
        b
    }

    /// Builds the contact as of the instant `now`. Every field is
    /// validated; the first one that is missing or not in order decides the
    /// error, and no contact comes out.
    pub fn build_at(self, now: Timestamp) -> (r: Result<Contact, DomainError>)
        ensures
            error_of(r) == self@.problem(),
            r matches Ok(c) ==> c@ == self@.built(now) && c@.wf(),
    {
        let ContactBuilder {
            first_name,
            last_name,
            email,
            phone,
            linkedin_url,
            tags,
            status,
            company_id,
        } = self;
        let first_name: String = match first_name {
            None => {
                return Err(DomainError::required("first_name"));
            },
            Some(n) => n,
        };
        if let Err(e) = validate_name(first_name.as_str(), "first_name") {
            return Err(e);
        }
        let last_name: String = match last_name {
            None => {
                return Err(DomainError::required("last_name"));
            },
            Some(n) => n,
        };
        if let Err(e) = validate_name(last_name.as_str(), "last_name") {
            return Err(e);
        }
        let email: String = match email {
            None => {
                return Err(DomainError::required("email"));
            },
            Some(n) => n,
        };
        if let Err(e) = validate_email(email.as_str()) {
            return Err(e);
        }
        let phone_check = match &phone {
            Some(p) => validate_phone(Some(p.as_str())),
            None => validate_phone(None),
        };
        if let Err(e) = phone_check {
            return Err(e);
        }
        let linkedin_check = match &linkedin_url {
            Some(u) => validate_linkedin_url(Some(u.as_str())),
            None => validate_linkedin_url(None),
        };
        if let Err(e) = linkedin_check {
            return Err(e);
        }
        let tags: Vec<String> = match validate_tags(tags.as_slice()) {
            Err(e) => {
                return Err(e);
            },
            Ok(t) => t,
        };
        proof {
            lemma_built_is_wf(self@, now);
        }
        Ok(
            Contact {
                first_name,
                last_name,
                email,
                phone,
                linkedin_url,
                tags,
                status,
                engagement_score: Binary64 { bits: ZERO_BITS },
                company_id,
                created_at: now,
                updated_at: now,
            },
        )
    }

    /// Builds the contact as of now. Whatever the clock says, the outcome
    /// is that of `build_at` for the instant that `created_at` shows.
    pub fn build(self) -> (r: Result<Contact, DomainError>)
        ensures
            error_of(r) == self@.problem(),
            r matches Ok(c) ==> c@ == self@.built(c.created_at) && c@.wf(),
    {
        let now: Timestamp = Timestamp::now();
        self.build_at(now)
    }
}

impl Default for ContactBuilder {
    fn default() -> (r: ContactBuilder)
        ensures
            r@ == ContactBuilderView::empty(),
    {
        ContactBuilder::new()
    }
}

} // verus!
