//! The lifecycle of a contact: its states and the changes between them.

use vstd::prelude::*;
use crate::text::same_text;

verus! {

/// Where a contact stands in its lifecycle.
#[derive(Debug, Clone, Copy, PartialEq, Eq, Structural)]
pub enum ContactStatus {
    /// The entry state: someone still to be won.
    Lead,
    /// Someone who pays for or uses the product.
    Customer,
    /// A strategic relationship.
    Partner,
    /// A financial relationship.
    Investor,
    /// Whatever fits none of the others.
    Other,
}

/// Customer, partner and investor: the active relationships.
pub open spec fn is_relationship(s: ContactStatus) -> bool {
    s == ContactStatus::Customer || s == ContactStatus::Partner || s == ContactStatus::Investor
}

/// Whether a contact may pass from one status to another. The rules apply
/// in this order: a status may stay as it is; `Other` may be entered and
/// left from anywhere; a lead may become anything; an active relationship
/// may become another one or fall back to a lead; nothing else is allowed.
pub open spec fn can_transition(from: ContactStatus, to: ContactStatus) -> bool {
    if from == to {
        true
    } else if to == ContactStatus::Other || from == ContactStatus::Other {
        true
    } else if from == ContactStatus::Lead {
        true
    } else if is_relationship(from) && (is_relationship(to) || to == ContactStatus::Lead) {
        true
    } else {
        false
    }
}

/// The sentence that explains why a change of status is or is not allowed.
pub open spec fn explanation(from: ContactStatus, to: ContactStatus) -> Seq<char> {
    if can_transition(from, to) {
        "Transition allowed"@
    } else {
        match (from, to) {
            (ContactStatus::Customer, ContactStatus::Lead) => "Use 'churned' workflow instead of direct status change"@,
            (ContactStatus::Partner, ContactStatus::Lead) => "Use 'end partnership' workflow instead"@,
            (ContactStatus::Investor, ContactStatus::Lead) => "Use 'investor exit' workflow instead"@,
            _ => "This status transition is not allowed by business rules"@,
        }
    }
}

/// The name of a status as it is shown to people.
pub open spec fn display_name(s: ContactStatus) -> Seq<char> {
    match s {
        ContactStatus::Lead => "Lead"@,
        ContactStatus::Customer => "Customer"@,
        ContactStatus::Partner => "Partner"@,
        ContactStatus::Investor => "Investor"@,
        ContactStatus::Other => "Other"@,
    }
}

/// The token that stands for a status when it is stored or sent.
pub open spec fn wire_name(s: ContactStatus) -> Seq<char> {
    match s {
        ContactStatus::Lead => "lead"@,
        ContactStatus::Customer => "customer"@,
        ContactStatus::Partner => "partner"@,
        ContactStatus::Investor => "investor"@,
        ContactStatus::Other => "other"@,
    }
}

/// The status that a stored token stands for; an unknown token reads as
/// `Other`.
pub open spec fn status_of_wire_name(s: Seq<char>) -> ContactStatus {
    if s == "lead"@ {
        ContactStatus::Lead
    } else if s == "customer"@ {
        ContactStatus::Customer
    } else if s == "partner"@ {
        ContactStatus::Partner
    } else if s == "investor"@ {
        ContactStatus::Investor
    } else {
        ContactStatus::Other
    }
}

/// Under the rules as they stand, every change of status is allowed: each
/// pair of states falls under one of the first four rules.
pub proof fn lemma_every_transition_allowed(from: ContactStatus, to: ContactStatus)
    ensures
        can_transition(from, to),
        explanation(from, to) == "Transition allowed"@,
{
}

/// Reading back the token of a status gives the status.
pub proof fn lemma_wire_name_round_trip(s: ContactStatus)
    ensures
        status_of_wire_name(wire_name(s)) == s,
{
    reveal_strlit("lead");
    reveal_strlit("customer");
    reveal_strlit("partner");
    reveal_strlit("investor");
    reveal_strlit("other");
    match s {
        ContactStatus::Lead => {},
        ContactStatus::Customer => {
            assert("customer"@.len() != "lead"@.len());
        },
        ContactStatus::Partner => {
            assert("partner"@.len() != "lead"@.len());
            assert("partner"@[0] != "customer"@[0]);
        },
        ContactStatus::Investor => {
            assert("investor"@.len() != "lead"@.len());
            assert("investor"@[0] != "customer"@[0]);
            assert("investor"@.len() != "partner"@.len());
        },
        ContactStatus::Other => {
            assert("other"@[0] != "lead"@[0]);
            assert("other"@.len() != "customer"@.len());
            assert("other"@.len() != "partner"@.len());
            assert("other"@.len() != "investor"@.len());
        },
    }
}

impl ContactStatus {
    /// Whether a contact in this status may pass to `new_status`.
    pub fn can_transition_to(&self, new_status: ContactStatus) -> (r: bool)
        ensures
            r == can_transition(*self, new_status),
    {
        if *self == new_status {
            return true;
        }
        if new_status == ContactStatus::Other || *self == ContactStatus::Other {
            return true;
        }
        match (*self, new_status) {
            (ContactStatus::Lead, _) => true,
            (ContactStatus::Customer, ContactStatus::Lead) => true,
            (ContactStatus::Customer, ContactStatus::Partner) => true,
            (ContactStatus::Customer, ContactStatus::Investor) => true,
            (ContactStatus::Partner, ContactStatus::Lead) => true,
            (ContactStatus::Partner, ContactStatus::Customer) => true,
            (ContactStatus::Partner, ContactStatus::Investor) => true,
            (ContactStatus::Investor, ContactStatus::Lead) => true,
            (ContactStatus::Investor, ContactStatus::Customer) => true,
            (ContactStatus::Investor, ContactStatus::Partner) => true,
            _ => false,
        }
    }

    /// Why the change to `new_status` is or is not allowed.
    pub fn transition_explanation(&self, new_status: ContactStatus) -> (r: &'static str)
        ensures
            r@ == explanation(*self, new_status),
    {
        if self.can_transition_to(new_status) {
            return "Transition allowed";
        }
        match (*self, new_status) {
            (ContactStatus::Customer, ContactStatus::Lead) => "Use 'churned' workflow instead of direct status change",
            (ContactStatus::Partner, ContactStatus::Lead) => "Use 'end partnership' workflow instead",
            (ContactStatus::Investor, ContactStatus::Lead) => "Use 'investor exit' workflow instead",
            _ => "This status transition is not allowed by business rules",
        }
    }

    /// The name of the status as it is shown to people.
    pub fn name(&self) -> (r: &'static str)
        ensures
            r@ == display_name(*self),
    {
        match self {
            ContactStatus::Lead => "Lead",
            ContactStatus::Customer => "Customer",
            ContactStatus::Partner => "Partner",
            ContactStatus::Investor => "Investor",
            ContactStatus::Other => "Other",
        }
    }
}

impl Default for ContactStatus {
    fn default() -> (r: ContactStatus)
        ensures
            r == ContactStatus::Lead,
    {
        ContactStatus::Lead
    }
}

/// The token that stands for a status when it is stored or sent.
pub fn status_to_string(status: &ContactStatus) -> (r: String)
    ensures
        r@ == wire_name(*status),
{
    match status {
        ContactStatus::Lead => String::from_str("lead"),
        ContactStatus::Customer => String::from_str("customer"),
        ContactStatus::Partner => String::from_str("partner"),
        ContactStatus::Investor => String::from_str("investor"),
        ContactStatus::Other => String::from_str("other"),
    }
}

/// The status that a stored token stands for; an unknown token reads as
/// `Other`.
pub fn string_to_status(s: &str) -> (r: ContactStatus)
    ensures
        r == status_of_wire_name(s@),
{
    if same_text(s, "lead") {
        ContactStatus::Lead
    } else if same_text(s, "customer") {
        ContactStatus::Customer
    } else if same_text(s, "partner") {
        ContactStatus::Partner
    } else if same_text(s, "investor") {
        ContactStatus::Investor
    } else {
        ContactStatus::Other
    }
}

} // verus!
