use crm_domain::errors::DomainError;
use crm_domain::number::Binary64;
use crm_domain::validation::{
    check_email, check_linkedin_url, check_name, check_phone, check_tag, validate_company_domain,
    validate_company_domain_protocol, validate_email, validate_engagement_score,
    validate_linkedin_url, validate_name, validate_phone, validate_tag, validate_tags,
};

fn invalid(field: &str, reason: &str) -> DomainError {
    DomainError::InvalidField { field: field.to_string(), reason: reason.to_string() }
}

fn score(x: f64) -> Binary64 {
    Binary64::from_bits(x.to_bits())
}

// ---- e-mail ----

#[test]
fn test_valid_emails() {
    let valid_emails = [
        "user@example.com",
        "user.name@example.com",
        "user+tag@example.com",
        "user@subdomain.example.com",
        "user@example.co.uk",
    ];

    for email in valid_emails {
        assert!(validate_email(email).is_ok(), "Expected '{}' to be valid", email);
    }
}

#[test]
fn test_invalid_emails() {
    let invalid_emails = [
        ("", "empty"),
        ("invalid", "no @"),
        ("@example.com", "no local part"),
        ("user@", "no domain"),
        ("user@.com", "no domain name"),
        ("user@example", "no TLD"),
        ("user..name@example.com", "consecutive dots"),
    ];

    for (email, reason) in invalid_emails {
        assert!(
            validate_email(email).is_err(),
            "Expected '{}' to be invalid ({})",
            email,
            reason
        );
    }
}

#[test]
fn email_with_plus_and_country_domain_is_accepted() {
    assert_eq!(validate_email("user+tag@example.co.uk"), Ok(()));
}

#[test]
fn email_errors_name_their_cause() {
    assert_eq!(
        validate_email(""),
        Err(DomainError::RequiredFieldMissing { field: "email".to_string() })
    );
    assert_eq!(validate_email("invalid"), Err(invalid("email", "Invalid email format")));
    assert_eq!(validate_email("user@"), Err(invalid("email", "Invalid email format")));
    assert_eq!(
        validate_email("user..name@example.com"),
        Err(invalid("email", "Email cannot contain consecutive dots"))
    );
    assert_eq!(
        validate_email("user@example..com"),
        Err(invalid("email", "Email cannot contain consecutive dots"))
    );
}

#[test]
fn check_email_follows_the_shape_it_is_given() {
    assert_eq!(check_email("a@b.cd", true), Ok(()));
    assert_eq!(check_email("a@b.cd", false), Err(invalid("email", "Invalid email format")));
    assert_eq!(
        check_email("", true),
        Err(DomainError::RequiredFieldMissing { field: "email".to_string() })
    );
    assert_eq!(
        check_email("a..b@c.de", true),
        Err(invalid("email", "Email cannot contain consecutive dots"))
    );
}

// ---- phone ----

#[test]
fn test_valid_phones() {
    let valid_phones = [
        "+1 234 567 8900",
        "(123) 456-7890",
        "123-456-7890",
        "+44 20 7946 0958",
        "1234567890",
    ];

    for phone in valid_phones {
        assert!(validate_phone(Some(phone)).is_ok(), "Expected '{}' to be valid", phone);
    }
}

#[test]
fn test_phone_optional() {
    assert!(validate_phone(None).is_ok());
    assert!(validate_phone(Some("")).is_ok());
}

#[test]
fn phone_length_and_alphabet_are_checked() {
    assert_eq!(validate_phone(Some("123456")), Err(invalid("phone", "Invalid phone format")));
    assert_eq!(validate_phone(Some("1234567")), Ok(()));
    assert_eq!(validate_phone(Some("12345678901234567890")), Ok(()));
    assert_eq!(
        validate_phone(Some("123456789012345678901")),
        Err(invalid("phone", "Invalid phone format"))
    );
    assert_eq!(validate_phone(Some("555-CALL-NOW")), Err(invalid("phone", "Invalid phone format")));
    assert_eq!(check_phone(Some("anything"), true), Ok(()));
    assert_eq!(check_phone(Some("1234567"), false), Err(invalid("phone", "Invalid phone format")));
    assert_eq!(check_phone(Some(""), false), Ok(()));
    assert_eq!(check_phone(None, false), Ok(()));
}

// ---- name ----

#[test]
fn test_valid_names() {
    let valid_names = ["John", "Mary Jane", "O'Connor", "García", "Jean-Pierre"];

    for name in valid_names {
        assert!(validate_name(name, "first_name").is_ok(), "Expected '{}' to be valid", name);
    }
}

#[test]
fn test_invalid_names() {
    assert!(validate_name("", "first_name").is_err());
    assert!(validate_name("   ", "first_name").is_err());
    assert!(validate_name(&"a".repeat(101), "first_name").is_err());
}

#[test]
fn name_errors_name_the_field_and_the_cause() {
    assert_eq!(
        validate_name("   ", "last_name"),
        Err(DomainError::RequiredFieldMissing { field: "last_name".to_string() })
    );
    assert_eq!(validate_name(&"a".repeat(100), "first_name"), Ok(()));
    assert_eq!(
        validate_name(&"a".repeat(101), "first_name"),
        Err(invalid("first_name", "Name cannot exceed 100 characters"))
    );
    assert_eq!(
        validate_name("Jo\u{7}hn", "first_name"),
        Err(invalid("first_name", "Name cannot contain control characters"))
    );
    assert_eq!(
        validate_name("Jo\nhn", "first_name"),
        Err(invalid("first_name", "Name cannot contain control characters"))
    );
    assert_eq!(
        check_name("John", "", "first_name"),
        Err(DomainError::RequiredFieldMissing { field: "first_name".to_string() })
    );
    assert_eq!(check_name("John", "John", "first_name"), Ok(()));
}

// ---- tag ----

#[test]
fn test_tag_normalization() {
    assert_eq!(validate_tag("  VIP  ").unwrap(), "vip");
    assert_eq!(validate_tag("Early-Adopter").unwrap(), "early-adopter");
    assert_eq!(validate_tag("priority_1").unwrap(), "priority_1");
}

#[test]
fn test_invalid_tags() {
    assert!(validate_tag("").is_err());
    assert!(validate_tag("tag with spaces").is_err());
    assert!(validate_tag("tag@special").is_err());
}

#[test]
fn tag_errors_name_their_cause() {
    assert_eq!(validate_tag("   "), Err(invalid("tag", "Tag cannot be empty")));
    assert_eq!(validate_tag(&"a".repeat(50)), Ok("a".repeat(50)));
    assert_eq!(
        validate_tag(&"a".repeat(51)),
        Err(invalid("tag", "Tag cannot exceed 50 characters"))
    );
    assert_eq!(
        validate_tag("tag@special"),
        Err(invalid("tag", "Tag can only contain letters, numbers, hyphens, and underscores"))
    );
    assert_eq!(check_tag("vip".to_string()), Ok("vip".to_string()));
    assert_eq!(check_tag(String::new()), Err(invalid("tag", "Tag cannot be empty")));
}

#[test]
fn test_tags_deduplication() {
    let tags = vec!["vip".to_string(), "VIP".to_string(), "early-adopter".to_string()];
    let result = validate_tags(&tags).unwrap();
    assert_eq!(result, vec!["vip", "early-adopter"]);
}

#[test]
fn tags_keep_first_occurrences_in_order() {
    let tags = vec![
        "b".to_string(),
        "a".to_string(),
        " B ".to_string(),
        "c".to_string(),
        "A".to_string(),
    ];
    assert_eq!(validate_tags(&tags).unwrap(), vec!["b", "a", "c"]);
    assert_eq!(validate_tags(&[]).unwrap(), Vec::<String>::new());
}

#[test]
fn tags_fail_with_the_first_problem() {
    let tags = vec!["ok".to_string(), "".to_string(), "not ok".to_string()];
    assert_eq!(validate_tags(&tags), Err(invalid("tag", "Tag cannot be empty")));
}

// ---- LinkedIn ----

#[test]
fn test_valid_linkedin_urls() {
    let valid_urls = [
        "https://linkedin.com/in/johndoe",
        "https://www.linkedin.com/in/johndoe",
        "http://linkedin.com/in/john-doe-123",
        "https://linkedin.com/in/johndoe/",
    ];

    for url in valid_urls {
        assert!(validate_linkedin_url(Some(url)).is_ok(), "Expected '{}' to be valid", url);
    }
}

#[test]
fn test_invalid_linkedin_urls() {
    let invalid_urls = [
        "https://linkedin.com/company/acme",
        "https://twitter.com/in/johndoe",
        "linkedin.com/in/johndoe",
    ];

    for url in invalid_urls {
        assert!(validate_linkedin_url(Some(url)).is_err(), "Expected '{}' to be invalid", url);
    }
}

#[test]
fn linkedin_url_is_optional() {
    let reason = "Must be a valid LinkedIn profile URL (https://linkedin.com/in/username)";
    assert_eq!(validate_linkedin_url(None), Ok(()));
    assert_eq!(validate_linkedin_url(Some("")), Ok(()));
    assert_eq!(
        validate_linkedin_url(Some("https://linkedin.com/company/acme")),
        Err(invalid("linkedin_url", reason))
    );
    assert_eq!(check_linkedin_url(Some("x"), true), Ok(()));
    assert_eq!(check_linkedin_url(Some("x"), false), Err(invalid("linkedin_url", reason)));
}

// ---- score ----

#[test]
fn test_engagement_score_validation() {
    // Valid scores
    assert!(validate_engagement_score(score(0.0)).is_ok());
    assert!(validate_engagement_score(score(50.0)).is_ok());
    assert!(validate_engagement_score(score(100.0)).is_ok());

    // Invalid scores
    assert!(validate_engagement_score(score(-1.0)).is_err());
    assert!(validate_engagement_score(score(100.1)).is_err());
    assert!(validate_engagement_score(score(f64::NAN)).is_err());
    assert!(validate_engagement_score(score(f64::INFINITY)).is_err());
}

#[test]
fn score_validation_names_its_cause() {
    assert_eq!(
        validate_engagement_score(score(f64::NEG_INFINITY)),
        Err(invalid(
            "engagement_score",
            "Engagement score must be between 0.0 and 100.0 (inclusive)"
        ))
    );
    assert_eq!(validate_engagement_score(score(-0.0)), Ok(()));
    assert_eq!(validate_engagement_score(score(99.999999)), Ok(()));
}

// ---- company domain ----

#[test]
fn test_company_domain_validation() {
    // Valid domains
    assert!(validate_company_domain(Some("example.com")).is_ok());
    assert!(validate_company_domain(Some("sub.example.co.uk")).is_ok());
    assert!(validate_company_domain(None).is_ok());

    // Invalid domains
    assert!(validate_company_domain(Some("https://example.com")).is_err());
    assert!(validate_company_domain(Some("example")).is_err());
    assert!(validate_company_domain(Some("example.")).is_err());
}

#[test]
fn company_domain_errors_name_their_cause() {
    let shape = "Company domain must have at least one dot and a valid TLD";
    let protocol = "Company domain cannot have protocol prefix";
    assert_eq!(
        validate_company_domain(Some("http://example.com")),
        Err(invalid("company_domain", protocol))
    );
    assert_eq!(
        validate_company_domain(Some("https://example.com")),
        Err(invalid("company_domain", protocol))
    );
    assert_eq!(validate_company_domain(Some("")), Err(invalid("company_domain", shape)));
    assert_eq!(validate_company_domain(Some("example.c")), Err(invalid("company_domain", shape)));
    assert_eq!(validate_company_domain(Some("example.co")), Ok(()));
    assert_eq!(validate_company_domain(Some("example.abcdefghij")), Ok(()));
    assert_eq!(
        validate_company_domain(Some("example.abcdefghijk")),
        Err(invalid("company_domain", shape))
    );
    assert_eq!(validate_company_domain_protocol("example.com"), None);
    assert_eq!(
        validate_company_domain_protocol("https://example.com"),
        Some(Err(invalid("company_domain", protocol)))
    );
}
