use crm_domain::builder::ContactBuilder;
use crm_domain::contact::Contact;
use crm_domain::errors::DomainError;
use crm_domain::number::Binary64;
use crm_domain::status::ContactStatus;
use crm_domain::time::Timestamp;
use crm_domain::update::{UpdateContactInput, UpdateError};

fn jane() -> Contact {
    ContactBuilder::new()
        .first_name("Jane")
        .last_name("Smith")
        .email("jane@example.com")
        .phone("1234567")
        .tag("vip")
        .company_id("company-1")
        .build_at(Timestamp::new(1_000, 0))
        .unwrap()
}

fn nothing() -> UpdateContactInput {
    UpdateContactInput {
        first_name: None,
        last_name: None,
        email: None,
        phone: None,
        linkedin_url: None,
        tags: None,
        status: None,
        engagement_score: None,
        company_id: None,
    }
}

fn domain_error(r: Result<Contact, UpdateError>) -> DomainError {
    match r {
        Err(UpdateError::Domain(e)) => e,
        other => panic!("expected a domain error, got {:?}", other),
    }
}

#[test]
fn only_a_new_address_is_looked_up() {
    let contact = jane();
    assert_eq!(nothing().email_to_check(&contact), None);
    let mut same = nothing();
    same.email = Some("  JANE@example.com ".to_string());
    assert_eq!(same.email_to_check(&contact), None);
    let mut other = nothing();
    other.email = Some(" Jane.Smith@Example.com".to_string());
    assert_eq!(other.email_to_check(&contact), Some("jane.smith@example.com".to_string()));
}

#[test]
fn an_empty_update_only_stamps_the_contact() {
    let now = Timestamp::new(2_000, 5);
    let updated = nothing().apply_at(jane(), false, now).unwrap();
    assert_eq!(updated.email, "jane@example.com");
    assert_eq!(updated.tags, vec!["vip"]);
    assert_eq!(updated.company_id, Some("company-1".to_string()));
    assert_eq!(updated.created_at, Timestamp::new(1_000, 0));
    assert_eq!(updated.updated_at, now);
}

#[test]
fn an_update_changes_every_field_it_names() {
    let now = Timestamp::new(2_000, 0);
    let input = UpdateContactInput {
        first_name: Some("  Janet ".to_string()),
        last_name: Some("Smythe".to_string()),
        email: Some("Janet@Example.com".to_string()),
        phone: Some(String::new()),
        linkedin_url: Some("https://linkedin.com/in/janet".to_string()),
        tags: Some(vec!["B2B".to_string(), "b2b".to_string(), "Key".to_string()]),
        status: Some(ContactStatus::Customer),
        engagement_score: Some(Binary64::from_bits(250.0_f64.to_bits())),
        company_id: Some(String::new()),
    };
    let updated = input.apply_at(jane(), false, now).unwrap();
    assert_eq!(updated.first_name, "Janet");
    assert_eq!(updated.last_name, "Smythe");
    assert_eq!(updated.email, "janet@example.com");
    assert_eq!(updated.phone, None);
    assert_eq!(updated.linkedin_url, Some("https://linkedin.com/in/janet".to_string()));
    assert_eq!(updated.tags, vec!["b2b", "key"]);
    assert_eq!(updated.status, ContactStatus::Customer);
    assert_eq!(f64::from_bits(updated.engagement_score.to_bits()), 100.0);
    assert_eq!(updated.company_id, None);
    assert_eq!(updated.updated_at, now);
}

#[test]
fn a_taken_address_is_a_conflict() {
    let mut input = nothing();
    input.email = Some("Taken@Example.com".to_string());
    input.first_name = Some(String::new());
    match input.apply_at(jane(), true, Timestamp::new(2_000, 0)) {
        Err(UpdateError::Conflict(text)) => {
            assert_eq!(text, "A contact with email 'taken@example.com' already exists")
        }
        other => panic!("expected a conflict, got {:?}", other),
    }
    // The address that the contact has already is never a conflict.
    let mut same = nothing();
    same.email = Some("jane@example.com".to_string());
    assert!(same.apply_at(jane(), true, Timestamp::new(2_000, 0)).is_ok());
}

#[test]
fn the_first_refusal_decides() {
    let now = Timestamp::new(2_000, 0);
    let mut input = nothing();
    input.email = Some("not an address".to_string());
    input.first_name = Some(String::new());
    assert_eq!(
        domain_error(input.apply_at(jane(), false, now)),
        DomainError::InvalidField {
            field: "email".to_string(),
            reason: "Invalid email format".to_string()
        }
    );
    let mut input = nothing();
    input.last_name = Some("   ".to_string());
    input.phone = Some("abc".to_string());
    assert_eq!(
        domain_error(input.apply_at(jane(), false, now)),
        DomainError::RequiredFieldMissing { field: "last_name".to_string() }
    );
    let mut input = nothing();
    input.phone = Some("abc".to_string());
    input.tags = Some(vec!["not ok".to_string()]);
    assert_eq!(
        domain_error(input.apply_at(jane(), false, now)),
        DomainError::InvalidField {
            field: "phone".to_string(),
            reason: "Invalid phone format".to_string()
        }
    );
    let mut input = nothing();
    input.tags = Some(vec!["fine".to_string(), "not ok".to_string()]);
    input.engagement_score = Some(Binary64::from_bits(f64::NAN.to_bits()));
    assert_eq!(
        domain_error(input.apply_at(jane(), false, now)),
        DomainError::InvalidField {
            field: "tag".to_string(),
            reason: "Tag can only contain letters, numbers, hyphens, and underscores".to_string()
        }
    );
    let mut input = nothing();
    input.engagement_score = Some(Binary64::from_bits(f64::NAN.to_bits()));
    assert_eq!(
        domain_error(input.apply_at(jane(), false, now)),
        DomainError::InvalidField {
            field: "engagement_score".to_string(),
            reason: "Score must be a finite number".to_string()
        }
    );
}

#[test]
fn an_update_reads_the_clock() {
    let before = chrono::Utc::now().timestamp();
    let mut input = nothing();
    input.status = Some(ContactStatus::Partner);
    let updated = input.apply(jane(), false).unwrap();
    let after = chrono::Utc::now().timestamp();
    assert_eq!(updated.status, ContactStatus::Partner);
    assert!(before <= updated.updated_at.secs && updated.updated_at.secs <= after);
}
