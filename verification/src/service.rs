//! What the service layer hands to the domain when a contact is created,
//! and what it gets back from storage.

use vstd::prelude::*;
use crate::builder::{ContactBuilder, ContactBuilderView};
use crate::contact::{optional_text, Contact};
use crate::status::ContactStatus;
use crate::text::{lowercased, trimmed};
use crate::validation::texts;

verus! {

/// The body of a request to create a contact, as it arrives.
#[derive(Debug)]
pub struct CreateContactRequest {
    pub first_name: String,
    pub last_name: String,
    pub email: String,
    pub phone: Option<String>,
    pub linkedin_url: Option<String>,
    pub tags: Option<Vec<String>>,
    pub status: Option<ContactStatus>,
    pub company_id: Option<String>,
}

/// The raw fields of a contact to create.
#[derive(Debug)]
pub struct CreateContactInput {
    pub first_name: String,
    pub last_name: String,
    pub email: String,
    pub phone: Option<String>,
    pub linkedin_url: Option<String>,
    pub tags: Vec<String>,
    pub status: Option<ContactStatus>,
    pub company_id: Option<String>,
}

/// A contact together with the identifier that storage gave it.
#[derive(Debug, Clone)]
pub struct StoredContact {
    pub id: String,
    pub contact: Contact,
}

/// An optional text as the builder takes it: trimmed, and unset where
/// nothing is left.
pub open spec fn collapsed(o: Option<String>) -> Option<Seq<char>> {
    match o {
        Some(s) => if trimmed(s@).len() == 0 {
            None
        } else {
            Some(trimmed(s@))
        },
        None => None,
    }
}

impl CreateContactRequest {
    /// The input that the request stands for: the same fields, and no tags
    /// where the request names none.
    pub fn into_input(self) -> (r: CreateContactInput)
        ensures
            r.first_name == self.first_name,
            r.last_name == self.last_name,
            r.email == self.email,
            r.phone == self.phone,
            r.linkedin_url == self.linkedin_url,
            r.tags@ == match self.tags {
                Some(t) => t@,
                None => Seq::empty(),
            },
            r.status == self.status,
            r.company_id == self.company_id,
    {
        let tags: Vec<String> = match self.tags {
            Some(t) => t,
            None => Vec::new(),
        };
        CreateContactInput {
            first_name: self.first_name,
            last_name: self.last_name,
            email: self.email,
            phone: self.phone,
            linkedin_url: self.linkedin_url,
            tags,
            status: self.status,
            company_id: self.company_id,
        }
    }
}

impl CreateContactInput {
    /// The builder that the input fills: names trimmed, the e-mail address
    /// trimmed and in lower case, blank optional texts unset, the tags as
    /// given, and the status of a lead where none is named.
    pub open spec fn builder(self) -> ContactBuilderView {
        ContactBuilderView {
            first_name: Some(trimmed(self.first_name@)),
            last_name: Some(trimmed(self.last_name@)),
            email: Some(lowercased(trimmed(self.email@))),
            phone: collapsed(self.phone),
            linkedin_url: collapsed(self.linkedin_url),
            tags: texts(self.tags@),
            status: match self.status {
                Some(s) => s,
                None => ContactStatus::Lead,
            },
            company_id: optional_text(self.company_id),
        }
    }

    /// Fills a builder with the input. `build` on it then validates every
    /// field.
    pub fn into_builder(self) -> (b: ContactBuilder)
        ensures
            b@ == self.builder(),
    {
        let mut b: ContactBuilder = ContactBuilder::new().first_name(
            self.first_name.as_str(),
        ).last_name(self.last_name.as_str()).email(self.email.as_str());
        match &self.phone {
            Some(p) => {
                b = b.phone(p.as_str());
            },
            None => {},
        }
        match &self.linkedin_url {
            Some(u) => {
                b = b.linkedin_url(u.as_str());
            },
            None => {},
        }
        b = b.tags(self.tags);
        assert(b@.tags =~= texts(self.tags@));
        match self.status {
            Some(s) => {
                b = b.status(s);
            },
            None => {},
        }
        match &self.company_id {
            Some(id) => {
                b = b.company_id(id.as_str());
            },
            None => {},
        }
        b
    }
}

} // verus!
