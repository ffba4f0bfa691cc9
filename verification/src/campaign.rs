//! Campaigns: their channels, and what releasing one on its channels
//! reports.

use vstd::prelude::*;

verus! {

/// What a campaign is meant to achieve.
#[derive(Debug, Clone, Copy, PartialEq, Eq, Structural)]
pub enum CampaignObjective {
    Awareness,
    LeadGen,
    Event,
    Investor,
    EarlyAdopters,
}

/// How far a campaign has come.
#[derive(Debug, Clone, Copy, PartialEq, Eq, Structural)]
pub enum CampaignStatus {
    Draft,
    Scheduled,
    Running,
    Completed,
}

/// The ways in which a campaign reaches people.
#[derive(Debug, Clone, Copy, PartialEq, Eq, Structural)]
pub enum CampaignChannel {
    Email,
    Social,
    LandingPage,
    Event,
}

/// What one channel reports.
#[derive(Debug)]
pub struct ChannelResult {
    pub channel: CampaignChannel,
    pub success: bool,
    pub message: String,
    pub recipients_count: usize,
}

/// What the channels of a campaign report, in the order of the channels.
#[derive(Debug)]
pub struct ExecutionResult {
    pub campaign_id: String,
    pub channel_results: Vec<ChannelResult>,
}

/// Why a campaign could not be released.
#[derive(Debug)]
pub enum ExecutionError {
    NotFound,
    NotReady,
    ChannelError(String),
}

/// Releases campaigns on their channels.
pub struct CampaignExecutor;

impl CampaignObjective {
    /// The token that stands for the objective when it is stored or sent.
    pub open spec fn token(self) -> Seq<char> {
        match self {
            CampaignObjective::Awareness => "awareness"@,
            CampaignObjective::LeadGen => "lead_gen"@,
            CampaignObjective::Event => "event"@,
            CampaignObjective::Investor => "investor"@,
            CampaignObjective::EarlyAdopters => "early_adopters"@,
        }
    }

    /// The token that stands for the objective when it is stored or sent.
    pub fn wire_name(&self) -> (r: &'static str)
        ensures
            r@ == self.token(),
    {
        match self {
            CampaignObjective::Awareness => "awareness",
            CampaignObjective::LeadGen => "lead_gen",
            CampaignObjective::Event => "event",
            CampaignObjective::Investor => "investor",
            CampaignObjective::EarlyAdopters => "early_adopters",
        }
    }
}

impl CampaignStatus {
    /// The token that stands for the status when it is stored or sent.
    pub open spec fn token(self) -> Seq<char> {
        match self {
            CampaignStatus::Draft => "draft"@,
            CampaignStatus::Scheduled => "scheduled"@,
            CampaignStatus::Running => "running"@,
            CampaignStatus::Completed => "completed"@,
        }
    }

    /// The token that stands for the status when it is stored or sent.
    pub fn wire_name(&self) -> (r: &'static str)
        ensures
            r@ == self.token(),
    {
        match self {
            CampaignStatus::Draft => "draft",
            CampaignStatus::Scheduled => "scheduled",
            CampaignStatus::Running => "running",
            CampaignStatus::Completed => "completed",
        }
    }
}

impl CampaignChannel {
    /// The token that stands for the channel when it is stored or sent.
    pub open spec fn token(self) -> Seq<char> {
        match self {
            CampaignChannel::Email => "email"@,
            CampaignChannel::Social => "social"@,
            CampaignChannel::LandingPage => "landing_page"@,
            CampaignChannel::Event => "event"@,
        }
    }

    /// What the channel reports when a campaign has been released on it.
    pub open spec fn report(self) -> Seq<char> {
        match self {
            CampaignChannel::Email => "Email campaign queued for delivery"@,
            CampaignChannel::Social => "Social posts scheduled"@,
            CampaignChannel::LandingPage => "Landing page published"@,
            CampaignChannel::Event => "Event invitations sent"@,
        }
    }

    /// The token that stands for the channel when it is stored or sent.
    pub fn wire_name(&self) -> (r: &'static str)
        ensures
            r@ == self.token(),
    {
        match self {
            CampaignChannel::Email => "email",
            CampaignChannel::Social => "social",
            CampaignChannel::LandingPage => "landing_page",
            CampaignChannel::Event => "event",
        }
    }
}

impl ExecutionError {
    /// The sentence that describes the error.
    pub open spec fn text(self) -> Seq<char> {
        match self {
            ExecutionError::NotFound => "Campaign not found"@,
            ExecutionError::NotReady => "Campaign is not ready for execution"@,
            ExecutionError::ChannelError(detail) => "Channel error: "@ + detail@,
        }
    }

    /// The sentence that describes the error.
    pub fn message(&self) -> (r: String)
        ensures
            r@ == self.text(),
    {
        match self {
            ExecutionError::NotFound => String::from_str("Campaign not found"),
            ExecutionError::NotReady => String::from_str("Campaign is not ready for execution"),
            ExecutionError::ChannelError(detail) => String::from_str("Channel error: ").concat(
                detail.as_str(),
            ),
        }
    }
}

impl ChannelResult {
    /// The report of a channel on which a release went through, with
    /// nobody reached yet.
    pub open spec fn is_release_on(self, channel: CampaignChannel) -> bool {
        &&& self.channel == channel
        &&& self.success
        &&& self.message@ == channel.report()
        &&& self.recipients_count == 0
    }
}

impl CampaignExecutor {
    /// Releases a campaign on each of its channels, in their order. Every
    /// channel reports success, and the release as a whole never fails.
    pub fn execute(campaign_id: String, channels: &[CampaignChannel]) -> (r: Result<
        ExecutionResult,
        ExecutionError,
    >)
        ensures
            r is Ok,
            r->Ok_0.campaign_id == campaign_id,
            r->Ok_0.channel_results@.len() == channels@.len(),
            forall|i: int|
                0 <= i < channels@.len() ==> (#[trigger] r->Ok_0.channel_results@[i]).is_release_on(
                    channels@[i],
                ),
    {
        let mut results: Vec<ChannelResult> = Vec::new();
        let mut i: usize = 0;
        while i < channels.len()
            invariant
                i <= channels.len(),
                results@.len() == i,
                forall|j: int|
                    0 <= j < i ==> (#[trigger] results@[j]).is_release_on(channels@[j]),
            decreases channels.len() - i,
        {
            let channel: CampaignChannel = channels[i];
            let message: String = match channel {
                CampaignChannel::Email => String::from_str("Email campaign queued for delivery"),
                CampaignChannel::Social => String::from_str("Social posts scheduled"),
                CampaignChannel::LandingPage => String::from_str("Landing page published"),
                CampaignChannel::Event => String::from_str("Event invitations sent"),
            };
            results.push(ChannelResult { channel, success: true, message, recipients_count: 0 });
            i = i + 1;
        }
        Ok(ExecutionResult { campaign_id, channel_results: results })
    }
}

} // verus!
