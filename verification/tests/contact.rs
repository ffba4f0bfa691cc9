use crm_domain::builder::ContactBuilder;
use crm_domain::contact::Contact;
use crm_domain::errors::DomainError;
use crm_domain::number::Binary64;
use crm_domain::status::{status_to_string, string_to_status, ContactStatus};
use crm_domain::time::Timestamp;

fn score(x: f64) -> Binary64 {
    Binary64::from_bits(x.to_bits())
}

fn value(contact: &Contact) -> f64 {
    f64::from_bits(contact.engagement_score.to_bits())
}

fn john() -> Contact {
    ContactBuilder::new()
        .first_name("John")
        .last_name("Doe")
        .email("john@example.com")
        .build()
        .unwrap()
}

fn all_statuses() -> [ContactStatus; 5] {
    [
        ContactStatus::Lead,
        ContactStatus::Customer,
        ContactStatus::Partner,
        ContactStatus::Investor,
        ContactStatus::Other,
    ]
}

// ---- builder ----

#[test]
fn test_build_valid_contact() {
    let contact = ContactBuilder::new()
        .first_name("John")
        .last_name("Doe")
        .email("john@example.com")
        .build()
        .unwrap();

    assert_eq!(contact.first_name, "John");
    assert_eq!(contact.last_name, "Doe");
    assert_eq!(contact.email, "john@example.com");
    assert_eq!(contact.status, ContactStatus::Lead);
    assert_eq!(value(&contact), 0.0);
}

#[test]
fn test_build_contact_with_all_fields() {
    let contact = ContactBuilder::new()
        .first_name("Jane")
        .last_name("Smith")
        .email("jane@example.com")
        .phone("+1 555 123 4567")
        .linkedin_url("https://linkedin.com/in/janesmith")
        .tag("VIP")
        .tag("Early-Adopter")
        .status(ContactStatus::Customer)
        .company_id("company-123")
        .build()
        .unwrap();

    assert_eq!(contact.phone, Some("+1 555 123 4567".to_string()));
    assert_eq!(contact.linkedin_url, Some("https://linkedin.com/in/janesmith".to_string()));
    assert_eq!(contact.tags, vec!["vip", "early-adopter"]);
    assert_eq!(contact.status, ContactStatus::Customer);
    assert_eq!(contact.company_id, Some("company-123".to_string()));
}

#[test]
fn test_build_missing_required_fields() {
    let result = ContactBuilder::new().first_name("John").build();

    assert!(result.is_err());
}

#[test]
fn test_build_invalid_email() {
    let result = ContactBuilder::new()
        .first_name("John")
        .last_name("Doe")
        .email("invalid-email")
        .build();

    assert!(result.is_err());
}

#[test]
fn build_reports_the_first_problem() {
    let missing_last = ContactBuilder::new().first_name("John").email("invalid").build();
    assert_eq!(
        missing_last.unwrap_err(),
        DomainError::RequiredFieldMissing { field: "last_name".to_string() }
    );
    let bad_email =
        ContactBuilder::new().first_name("John").last_name("Doe").email("invalid").build();
    assert_eq!(
        bad_email.unwrap_err(),
        DomainError::InvalidField {
            field: "email".to_string(),
            reason: "Invalid email format".to_string()
        }
    );
    let nothing = ContactBuilder::new().build();
    assert_eq!(
        nothing.unwrap_err(),
        DomainError::RequiredFieldMissing { field: "first_name".to_string() }
    );
    let blank_first = ContactBuilder::new().first_name("   ").build();
    assert_eq!(
        blank_first.unwrap_err(),
        DomainError::RequiredFieldMissing { field: "first_name".to_string() }
    );
    let bad_phone = ContactBuilder::new()
        .first_name("John")
        .last_name("Doe")
        .email("john@example.com")
        .phone("abc")
        .tag("not ok")
        .build();
    assert_eq!(
        bad_phone.unwrap_err(),
        DomainError::InvalidField {
            field: "phone".to_string(),
            reason: "Invalid phone format".to_string()
        }
    );
}

#[test]
fn builder_normalises_what_it_is_given() {
    let contact = ContactBuilder::new()
        .first_name("  John ")
        .last_name("\tDoe\n")
        .email("  John@Example.COM ")
        .phone("   ")
        .linkedin_url("")
        .tags(vec!["VIP".to_string(), " vip ".to_string(), "b2b".to_string()])
        .tag("B2B")
        .build()
        .unwrap();
    assert_eq!(contact.first_name, "John");
    assert_eq!(contact.last_name, "Doe");
    assert_eq!(contact.email, "john@example.com");
    assert_eq!(contact.phone, None);
    assert_eq!(contact.linkedin_url, None);
    assert_eq!(contact.tags, vec!["vip", "b2b"]);
    assert_eq!(contact.company_id, None);
    assert_eq!(contact.created_at, contact.updated_at);
}

#[test]
fn build_at_stamps_the_given_instant() {
    let now = Timestamp::new(1_700_000_000, 250);
    let contact = ContactBuilder::default()
        .first_name("John")
        .last_name("Doe")
        .email("john@example.com")
        .build_at(now)
        .unwrap();
    assert_eq!(contact.created_at, now);
    assert_eq!(contact.updated_at, now);
    assert_eq!(contact.engagement_score.to_bits(), 0);
}

#[test]
fn build_reads_the_clock() {
    let before = chrono::Utc::now().timestamp();
    let contact = john();
    let after = chrono::Utc::now().timestamp();
    assert!(before <= contact.created_at.secs && contact.created_at.secs <= after);
    assert!(contact.created_at.nanos < 1_000_000_000);
}

// ---- status ----

#[test]
fn test_valid_status_transitions() {
    let (lead, customer, partner, investor, other) = (
        ContactStatus::Lead,
        ContactStatus::Customer,
        ContactStatus::Partner,
        ContactStatus::Investor,
        ContactStatus::Other,
    );

    // Lead can go anywhere
    assert!(lead.can_transition_to(customer));
    assert!(lead.can_transition_to(partner));
    assert!(lead.can_transition_to(investor));
    assert!(lead.can_transition_to(other));

    // Customer can become Lead (churn)
    assert!(customer.can_transition_to(lead));
    assert!(customer.can_transition_to(partner));
    assert!(customer.can_transition_to(investor));

    // Any can become Other
    assert!(customer.can_transition_to(other));
    assert!(partner.can_transition_to(other));
    assert!(investor.can_transition_to(other));
}

#[test]
fn test_same_status_transition() {
    let (lead, customer) = (ContactStatus::Lead, ContactStatus::Customer);

    // Same status is always valid (no-op)
    assert!(lead.can_transition_to(lead));
    assert!(customer.can_transition_to(customer));
}

#[test]
fn every_pair_of_statuses_follows_the_rules() {
    for from in all_statuses() {
        for to in all_statuses() {
            let relationship = |s: ContactStatus| {
                matches!(
                    s,
                    ContactStatus::Customer | ContactStatus::Partner | ContactStatus::Investor
                )
            };
            let expected = from == to
                || to == ContactStatus::Other
                || from == ContactStatus::Other
                || from == ContactStatus::Lead
                || (relationship(from) && (relationship(to) || to == ContactStatus::Lead));
            assert_eq!(from.can_transition_to(to), expected);
            assert!(from.can_transition_to(to));
            assert_eq!(from.transition_explanation(to), "Transition allowed");
        }
    }
}

#[test]
fn test_contact_transition_status() {
    let mut contact = john();

    // Lead -> Customer: valid
    assert!(contact.transition_status(ContactStatus::Customer).is_ok());
    assert_eq!(contact.status, ContactStatus::Customer);

    // Customer -> Partner: valid
    assert!(contact.transition_status(ContactStatus::Partner).is_ok());
    assert_eq!(contact.status, ContactStatus::Partner);
}

#[test]
fn transition_at_stamps_the_given_instant() {
    let mut contact = john();
    let created = contact.created_at;
    let later = Timestamp::new(created.secs + 10, 7);
    assert_eq!(contact.transition_status_at(ContactStatus::Investor, later), Ok(()));
    assert_eq!(contact.status, ContactStatus::Investor);
    assert_eq!(contact.updated_at, later);
    assert_eq!(contact.created_at, created);
}

#[test]
fn statuses_have_names_and_tokens() {
    let names = ["Lead", "Customer", "Partner", "Investor", "Other"];
    let tokens = ["lead", "customer", "partner", "investor", "other"];
    for (i, status) in all_statuses().into_iter().enumerate() {
        assert_eq!(status.name(), names[i]);
        assert_eq!(status_to_string(&status), tokens[i]);
        assert_eq!(string_to_status(tokens[i]), status);
    }
    assert_eq!(string_to_status("Lead"), ContactStatus::Other);
    assert_eq!(string_to_status(""), ContactStatus::Other);
    assert_eq!(ContactStatus::default(), ContactStatus::Lead);
}

// ---- queries ----

#[test]
fn test_full_name() {
    let contact = john();

    assert_eq!(contact.full_name(), "John Doe");
}

#[test]
fn test_has_tag() {
    let contact = ContactBuilder::new()
        .first_name("John")
        .last_name("Doe")
        .email("john@example.com")
        .tag("vip")
        .build()
        .unwrap();

    assert!(contact.has_tag("vip"));
    assert!(contact.has_tag("VIP"));
    assert!(!contact.has_tag("other"));
}

// ---- tags ----

#[test]
fn test_add_remove_tag() {
    let mut contact = john();

    // Add tag
    contact.add_tag("priority").unwrap();
    assert!(contact.has_tag("priority"));

    // Add duplicate (should not duplicate)
    contact.add_tag("PRIORITY").unwrap();
    assert_eq!(contact.tags.len(), 1);

    // Remove tag
    assert!(contact.remove_tag("priority"));
    assert!(!contact.has_tag("priority"));

    // Remove non-existent (should return false)
    assert!(!contact.remove_tag("nonexistent"));
}

#[test]
fn tag_round_trip() {
    let mut contact = john();
    contact.add_tag("VIP").unwrap();
    assert!(contact.has_tag("vip"));
    contact.add_tag("VIP").unwrap();
    assert_eq!(contact.tags, vec!["vip"]);
}

#[test]
fn tags_at_given_instants() {
    let mut contact = john();
    let created = contact.created_at;
    let t1 = Timestamp::new(created.secs + 1, 0);
    let t2 = Timestamp::new(created.secs + 2, 0);
    let t3 = Timestamp::new(created.secs + 3, 0);
    assert_eq!(contact.add_tag_at(" Alpha ", t1), Ok(()));
    assert_eq!(contact.updated_at, t1);
    // A tag that is there already leaves the time of the last change alone.
    assert_eq!(contact.add_tag_at("ALPHA", t2), Ok(()));
    assert_eq!(contact.updated_at, t1);
    assert_eq!(contact.add_tag_at("beta", t2), Ok(()));
    assert_eq!(contact.add_tag_at("gamma", t2), Ok(()));
    assert_eq!(contact.tags, vec!["alpha", "beta", "gamma"]);
    // A tag that fails its check changes nothing.
    assert_eq!(
        contact.add_tag_at("not a tag", t3),
        Err(DomainError::InvalidField {
            field: "tag".to_string(),
            reason: "Tag can only contain letters, numbers, hyphens, and underscores".to_string()
        })
    );
    assert_eq!(contact.updated_at, t2);
    assert!(!contact.remove_tag_at("delta", t3));
    assert_eq!(contact.updated_at, t2);
    assert!(contact.remove_tag_at("BETA", t3));
    assert_eq!(contact.tags, vec!["alpha", "gamma"]);
    assert_eq!(contact.updated_at, t3);
}

// ---- score ----

#[test]
fn contact_test_engagement_levels() {
    let mut contact = ContactBuilder::new()
        .first_name("John")
        .last_name("Doe")
        .email("john@example.com")
        .status(ContactStatus::Customer)
        .build()
        .unwrap();

    // Low engagement - at risk
    contact.update_engagement(score(20.0)).unwrap();
    assert!(!contact.is_engaged());
    assert!(contact.is_at_risk());

    // High engagement - not at risk
    contact.update_engagement(score(80.0)).unwrap();
    assert!(contact.is_engaged());
    assert!(!contact.is_at_risk());
}

#[test]
fn test_engagement_clamping() {
    let mut contact = john();

    // Should clamp to 100
    contact.update_engagement(score(150.0)).unwrap();
    assert_eq!(value(&contact), 100.0);

    // Should clamp to 0
    contact.update_engagement(score(-50.0)).unwrap();
    assert_eq!(value(&contact), 0.0);
}

#[test]
fn scores_that_are_no_numbers_are_refused() {
    let mut contact = john();
    contact.update_engagement(score(42.5)).unwrap();
    let refusal = DomainError::InvalidField {
        field: "engagement_score".to_string(),
        reason: "Score must be a finite number".to_string(),
    };
    assert_eq!(contact.update_engagement(score(f64::NAN)), Err(refusal.clone()));
    assert_eq!(contact.update_engagement(score(f64::INFINITY)), Err(refusal.clone()));
    assert_eq!(contact.update_engagement(score(f64::NEG_INFINITY)), Err(refusal));
    assert_eq!(value(&contact), 42.5);
}

#[test]
fn engagement_thresholds() {
    let mut contact = john();
    let now = contact.created_at;
    contact.update_engagement_at(score(50.0), now).unwrap();
    assert!(contact.is_engaged());
    contact.update_engagement_at(score(49.999), now).unwrap();
    assert!(!contact.is_engaged());
    // Only a customer is at risk.
    contact.update_engagement_at(score(29.999), now).unwrap();
    assert!(!contact.is_at_risk());
    contact.transition_status_at(ContactStatus::Customer, now).unwrap();
    assert!(contact.is_at_risk());
    contact.update_engagement_at(score(30.0), now).unwrap();
    assert!(!contact.is_at_risk());
}

// ---- errors ----

#[test]
fn errors_describe_themselves() {
    assert_eq!(
        DomainError::RequiredFieldMissing { field: "email".to_string() }.message(),
        "Required field 'email' is missing"
    );
    assert_eq!(
        DomainError::InvalidField { field: "tag".to_string(), reason: "too long".to_string() }
            .message(),
        "Invalid value for 'tag': too long"
    );
    assert_eq!(
        DomainError::InvalidStateTransition {
            from: "Customer".to_string(),
            to: "Lead".to_string(),
            reason: "no".to_string()
        }
        .message(),
        "Cannot transition from 'Customer' to 'Lead': no"
    );
    assert_eq!(
        DomainError::BusinessRuleViolation {
            rule: "unique".to_string(),
            details: "twice".to_string()
        }
        .message(),
        "Business rule 'unique' violated: twice"
    );
    assert_eq!(
        DomainError::required("x"),
        DomainError::RequiredFieldMissing { field: "x".to_string() }
    );
}
