use crm_domain::campaign::{
    CampaignChannel, CampaignExecutor, CampaignObjective, CampaignStatus, ExecutionError,
};
use crm_domain::config::Config;
use crm_domain::engagement::{EngagementLevel, EngagementTrend, InteractionType};
use crm_domain::errors::DomainError;
use crm_domain::models::{AssetType, EventType, RsvpStatus, SocialPlatform, TimelineEntryType};
use crm_domain::service::{CreateContactInput, CreateContactRequest, StoredContact};
use crm_domain::status::ContactStatus;

fn request() -> CreateContactRequest {
    CreateContactRequest {
        first_name: " Jane ".to_string(),
        last_name: "Smith".to_string(),
        email: "Jane@Example.com".to_string(),
        phone: Some("  ".to_string()),
        linkedin_url: Some(" https://linkedin.com/in/janesmith ".to_string()),
        tags: None,
        status: None,
        company_id: Some("company-9".to_string()),
    }
}

#[test]
fn a_request_without_tags_has_none() {
    let input = request().into_input();
    assert_eq!(input.first_name, " Jane ");
    assert_eq!(input.tags, Vec::<String>::new());
    assert_eq!(input.status, None);
    assert_eq!(input.company_id, Some("company-9".to_string()));
    let mut with_tags = request();
    with_tags.tags = Some(vec!["VIP".to_string()]);
    with_tags.status = Some(ContactStatus::Partner);
    let input = with_tags.into_input();
    assert_eq!(input.tags, vec!["VIP"]);
    assert_eq!(input.status, Some(ContactStatus::Partner));
}

#[test]
fn an_input_fills_a_builder() {
    let builder = request().into_input().into_builder();
    assert_eq!(builder.first_name, Some("Jane".to_string()));
    assert_eq!(builder.email, Some("jane@example.com".to_string()));
    assert_eq!(builder.phone, None);
    assert_eq!(builder.linkedin_url, Some("https://linkedin.com/in/janesmith".to_string()));
    assert_eq!(builder.status, ContactStatus::Lead);
    let contact = builder.build().unwrap();
    assert_eq!(contact.full_name(), "Jane Smith");
    assert_eq!(contact.company_id, Some("company-9".to_string()));
    let stored = StoredContact { id: "contact:1".to_string(), contact };
    assert_eq!(stored.contact.status, ContactStatus::Lead);
}

#[test]
fn an_input_with_a_bad_field_builds_nothing() {
    let input = CreateContactInput {
        first_name: "Jane".to_string(),
        last_name: "Smith".to_string(),
        email: "jane@example.com".to_string(),
        phone: None,
        linkedin_url: Some("https://example.com/janesmith".to_string()),
        tags: vec!["a".to_string(), "A".to_string()],
        status: Some(ContactStatus::Customer),
        company_id: None,
    };
    assert_eq!(
        input.into_builder().build().unwrap_err(),
        DomainError::InvalidField {
            field: "linkedin_url".to_string(),
            reason: "Must be a valid LinkedIn profile URL (https://linkedin.com/in/username)"
                .to_string()
        }
    );
}

#[test]
fn every_channel_reports_success() {
    let channels = [
        CampaignChannel::Event,
        CampaignChannel::Email,
        CampaignChannel::LandingPage,
        CampaignChannel::Social,
        CampaignChannel::Email,
    ];
    let result = CampaignExecutor::execute("campaign-7".to_string(), &channels).unwrap();
    assert_eq!(result.campaign_id, "campaign-7");
    assert_eq!(result.channel_results.len(), 5);
    let messages = [
        "Event invitations sent",
        "Email campaign queued for delivery",
        "Landing page published",
        "Social posts scheduled",
        "Email campaign queued for delivery",
    ];
    for i in 0..5 {
        assert_eq!(result.channel_results[i].channel, channels[i]);
        assert!(result.channel_results[i].success);
        assert_eq!(result.channel_results[i].message, messages[i]);
        assert_eq!(result.channel_results[i].recipients_count, 0);
    }
    let none = CampaignExecutor::execute(String::new(), &[]).unwrap();
    assert!(none.channel_results.is_empty());
}

#[test]
fn execution_errors_describe_themselves() {
    assert_eq!(ExecutionError::NotFound.message(), "Campaign not found");
    assert_eq!(ExecutionError::NotReady.message(), "Campaign is not ready for execution");
    assert_eq!(
        ExecutionError::ChannelError("smtp down".to_string()).message(),
        "Channel error: smtp down"
    );
}

#[test]
fn default_config_points_at_this_machine() {
    let config = Config::default();
    assert_eq!(config.db_url, "ws://localhost:8000");
    assert_eq!(config.db_namespace, "crm");
    assert_eq!(config.db_name, "main");
}

#[test]
fn kinds_have_snake_case_tokens() {
    assert_eq!(InteractionType::EmailSent.wire_name(), "email_sent");
    assert_eq!(InteractionType::LandingPageVisit.wire_name(), "landing_page_visit");
    assert_eq!(InteractionType::SocialInteraction.wire_name(), "social_interaction");
    assert_eq!(EngagementLevel::Champion.wire_name(), "champion");
    assert_eq!(EngagementTrend::Declining.wire_name(), "declining");
    assert_eq!(CampaignObjective::LeadGen.wire_name(), "lead_gen");
    assert_eq!(CampaignObjective::EarlyAdopters.wire_name(), "early_adopters");
    assert_eq!(CampaignStatus::Running.wire_name(), "running");
    assert_eq!(CampaignChannel::LandingPage.wire_name(), "landing_page");
    assert_eq!(AssetType::SocialPost.wire_name(), "social_post");
    assert_eq!(EventType::Ama.wire_name(), "ama");
    assert_eq!(RsvpStatus::NoShow.wire_name(), "no_show");
    assert_eq!(TimelineEntryType::EventAttend.wire_name(), "event_attend");
    assert_eq!(SocialPlatform::LinkedIn.wire_name(), "linked_in");
}
