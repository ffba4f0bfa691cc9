//! Business-rule violations reported by the domain.

use vstd::prelude::*;

verus! {

/// What went wrong when a value was validated or an entity was changed.
#[derive(Debug, Clone, PartialEq)]
pub enum DomainError {
    /// A mandatory field was absent or empty.
    RequiredFieldMissing { field: String },
    /// A field failed its format check.
    InvalidField { field: String, reason: String },
    /// A status change that the lifecycle does not allow.
    InvalidStateTransition { from: String, to: String, reason: String },
    /// A rule that spans several fields was broken.
    BusinessRuleViolation { rule: String, details: String },
}

/// A `DomainError` with its texts as character sequences.
pub enum DomainErrorView {
    RequiredFieldMissing { field: Seq<char> },
    InvalidField { field: Seq<char>, reason: Seq<char> },
    InvalidStateTransition { from: Seq<char>, to: Seq<char>, reason: Seq<char> },
    BusinessRuleViolation { rule: Seq<char>, details: Seq<char> },
}

impl View for DomainError {
    type V = DomainErrorView;

    open spec fn view(&self) -> DomainErrorView {
        match *self {
            DomainError::RequiredFieldMissing { field } => DomainErrorView::RequiredFieldMissing {
                field: field@,
            },
            DomainError::InvalidField { field, reason } => DomainErrorView::InvalidField {
                field: field@,
                reason: reason@,
            },
            DomainError::InvalidStateTransition {
                from,
                to,
                reason,
            } => DomainErrorView::InvalidStateTransition { from: from@, to: to@, reason: reason@ },
            DomainError::BusinessRuleViolation {
                rule,
                details,
            } => DomainErrorView::BusinessRuleViolation { rule: rule@, details: details@ },
        }
    }
}

/// The error of a result, by its view; `None` for a success.
pub open spec fn error_of<T>(r: Result<T, DomainError>) -> Option<DomainErrorView> {
    match r {
        Ok(_) => None,
        Err(e) => Some(e@),
    }
}

/// The view of a missing-field error.
pub open spec fn missing(field: Seq<char>) -> DomainErrorView {
    DomainErrorView::RequiredFieldMissing { field }
}

/// The view of an invalid-field error.
pub open spec fn invalid(field: Seq<char>, reason: Seq<char>) -> DomainErrorView {
    DomainErrorView::InvalidField { field, reason }
}

impl DomainErrorView {
    /// The sentence that describes the error to an end user.
    pub open spec fn message(self) -> Seq<char> {
        match self {
            DomainErrorView::RequiredFieldMissing { field } => "Required field '"@ + field
                + "' is missing"@,
            DomainErrorView::InvalidField { field, reason } => "Invalid value for '"@ + field
                + "': "@ + reason,
            DomainErrorView::InvalidStateTransition { from, to, reason } => "Cannot transition from '"@
                + from + "' to '"@ + to + "': "@ + reason,
            DomainErrorView::BusinessRuleViolation { rule, details } => "Business rule '"@ + rule
                + "' violated: "@ + details,
        }
    }
}

impl DomainError {
    pub fn required(field: &str) -> (e: DomainError)
        ensures
            e@ == missing(field@),
    {
        DomainError::RequiredFieldMissing { field: String::from_str(field) }
    }

    pub fn invalid_field(field: &str, reason: &str) -> (e: DomainError)
        ensures
            e@ == invalid(field@, reason@),
    {
        DomainError::InvalidField {
            field: String::from_str(field),
            reason: String::from_str(reason),
        }
    }

    /// The sentence that describes the error to an end user.
    pub fn message(&self) -> (s: String)
        ensures
            s@ == self@.message(),
    {
        match self {
            DomainError::RequiredFieldMissing { field } => {
                String::from_str("Required field '").concat(field.as_str()).concat("' is missing")
            },
            DomainError::InvalidField { field, reason } => {
                String::from_str("Invalid value for '").concat(field.as_str()).concat(
                    "': ",
                ).concat(reason.as_str())
            },
            DomainError::InvalidStateTransition { from, to, reason } => {
                String::from_str("Cannot transition from '").concat(from.as_str()).concat(
                    "' to '",
                ).concat(to.as_str()).concat("': ").concat(reason.as_str())
            },
            DomainError::BusinessRuleViolation { rule, details } => {
                String::from_str("Business rule '").concat(rule.as_str()).concat(
                    "' violated: ",
                ).concat(details.as_str())
            },
        }
    }
}

} // verus!
