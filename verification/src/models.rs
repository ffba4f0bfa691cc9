//! The kinds of record that the domain exchanges with storage and with
//! other services, each with the token that stands for it on the wire.

use vstd::prelude::*;

verus! {

/// What a campaign produces.
#[derive(Debug, Clone, Copy, PartialEq, Eq, Structural)]
pub enum AssetType {
    Email,
    SocialPost,
    LandingPage,
    EventInvite,
}

impl AssetType {
    /// The token that stands for the kind of asset when it is stored or sent.
    pub open spec fn token(self) -> Seq<char> {
        match self {
            AssetType::Email => "email"@,
            AssetType::SocialPost => "social_post"@,
            AssetType::LandingPage => "landing_page"@,
            AssetType::EventInvite => "event_invite"@,
        }
    }

    /// The token that stands for the kind of asset when it is stored or sent.
    pub fn wire_name(&self) -> (r: &'static str)
        ensures
            r@ == self.token(),
    {
        match self {
            AssetType::Email => "email",
            AssetType::SocialPost => "social_post",
            AssetType::LandingPage => "landing_page",
            AssetType::EventInvite => "event_invite",
        }
    }
}

/// The kinds of event.
#[derive(Debug, Clone, Copy, PartialEq, Eq, Structural)]
pub enum EventType {
    Webinar,
    Meetup,
    Ama,
    Demo,
    Other,
}

impl EventType {
    /// The token that stands for the kind of event when it is stored or sent.
    pub open spec fn token(self) -> Seq<char> {
        match self {
            EventType::Webinar => "webinar"@,
            EventType::Meetup => "meetup"@,
            EventType::Ama => "ama"@,
            EventType::Demo => "demo"@,
            EventType::Other => "other"@,
        }
    }

    /// The token that stands for the kind of event when it is stored or sent.
    pub fn wire_name(&self) -> (r: &'static str)
        ensures
            r@ == self.token(),
    {
        match self {
            EventType::Webinar => "webinar",
            EventType::Meetup => "meetup",
            EventType::Ama => "ama",
            EventType::Demo => "demo",
            EventType::Other => "other",
        }
    }
}

/// How a contact has answered an invitation.
#[derive(Debug, Clone, Copy, PartialEq, Eq, Structural)]
pub enum RsvpStatus {
    Invited,
    Registered,
    Attended,
    NoShow,
}

impl RsvpStatus {
    /// The token that stands for the answer when it is stored or sent.
    pub open spec fn token(self) -> Seq<char> {
        match self {
            RsvpStatus::Invited => "invited"@,
            RsvpStatus::Registered => "registered"@,
            RsvpStatus::Attended => "attended"@,
            RsvpStatus::NoShow => "no_show"@,
        }
    }

    /// The token that stands for the answer when it is stored or sent.
    pub fn wire_name(&self) -> (r: &'static str)
        ensures
            r@ == self.token(),
    {
        match self {
            RsvpStatus::Invited => "invited",
            RsvpStatus::Registered => "registered",
            RsvpStatus::Attended => "attended",
            RsvpStatus::NoShow => "no_show",
        }
    }
}

/// The kinds of entry on the timeline of a contact.
#[derive(Debug, Clone, Copy, PartialEq, Eq, Structural)]
pub enum TimelineEntryType {
    EmailSent,
    EmailOpen,
    EmailClick,
    SocialTouch,
    Note,
    EventInvite,
    EventAttend,
    LandingPageVisit,
    Task,
    Call,
}

impl TimelineEntryType {
    /// The token that stands for the kind of entry when it is stored or sent.
    pub open spec fn token(self) -> Seq<char> {
        match self {
            TimelineEntryType::EmailSent => "email_sent"@,
            TimelineEntryType::EmailOpen => "email_open"@,
            TimelineEntryType::EmailClick => "email_click"@,
            TimelineEntryType::SocialTouch => "social_touch"@,
            TimelineEntryType::Note => "note"@,
            TimelineEntryType::EventInvite => "event_invite"@,
            TimelineEntryType::EventAttend => "event_attend"@,
            TimelineEntryType::LandingPageVisit => "landing_page_visit"@,
            TimelineEntryType::Task => "task"@,
            TimelineEntryType::Call => "call"@,
        }
    }

    /// The token that stands for the kind of entry when it is stored or sent.
    pub fn wire_name(&self) -> (r: &'static str)
        ensures
            r@ == self.token(),
    {
        match self {
            TimelineEntryType::EmailSent => "email_sent",
            TimelineEntryType::EmailOpen => "email_open",
            TimelineEntryType::EmailClick => "email_click",
            TimelineEntryType::SocialTouch => "social_touch",
            TimelineEntryType::Note => "note",
            TimelineEntryType::EventInvite => "event_invite",
            TimelineEntryType::EventAttend => "event_attend",
            TimelineEntryType::LandingPageVisit => "landing_page_visit",
            TimelineEntryType::Task => "task",
            TimelineEntryType::Call => "call",
        }
    }
}

/// The networks that a post can be written for.
#[derive(Debug, Clone, Copy, PartialEq, Eq, Structural)]
pub enum SocialPlatform {
    Twitter,
    LinkedIn,
    Facebook,
    Instagram,
}

impl SocialPlatform {
    /// The token that stands for the network when it is stored or sent.
    pub open spec fn token(self) -> Seq<char> {
        match self {
            SocialPlatform::Twitter => "twitter"@,
            SocialPlatform::LinkedIn => "linked_in"@,
            SocialPlatform::Facebook => "facebook"@,
            SocialPlatform::Instagram => "instagram"@,
        }
    }

    /// The token that stands for the network when it is stored or sent.
    pub fn wire_name(&self) -> (r: &'static str)
        ensures
            r@ == self.token(),
    {
        match self {
            SocialPlatform::Twitter => "twitter",
            SocialPlatform::LinkedIn => "linked_in",
            SocialPlatform::Facebook => "facebook",
            SocialPlatform::Instagram => "instagram",
        }
    }
}

} // verus!
