//! Engagement: what an interaction is worth, how interactions are sorted
//! into weeks and periods, and how a score is read as a level or a trend.
//!
//! A score is a sum of powers of one half, which takes arithmetic on
//! binary64 numbers. This module plans it and concludes it: a `ScorePlan`
//! holds the base score of each interaction, the whole seconds since it
//! occurred and the number of active weeks; `conclude_score` clamps what
//! the caller has computed from the plan.

use vstd::prelude::*;
use vstd::arithmetic::power2::lemma_pow2_pos;
use vstd::seq_lib::seq_to_set_is_finite;
use crate::number::{
    lemma_compare_with_whole, lemma_constants, lemma_percentage, Binary64, EIGHTY_ONE_BITS,
    EIGHT_BITS, FIFTEEN_BITS, FIVE_BITS, FORTY_ONE_BITS, FOUR_BITS, HALF_BITS, HUNDRED_BITS,
    MINUS_TEN_BITS, ONE_AND_HALF_BITS, ONE_BITS,
    SIXTY_ONE_BITS, TEN_BITS, THIRTY_BITS, THREE_BITS, TWELVE_BITS, TWENTY_BITS, TWENTY_ONE_BITS,
    TWO_HUNDRED_BITS, ZERO_BITS,
};
use crate::time::{Timestamp, NANOS_PER_DAY};

verus! {

/// The days over which active weeks are counted.
pub const CONSISTENCY_DAYS: u32 = 90;

/// The days of the recent period of a trend; the earlier period is as long.
pub const TREND_DAYS: u32 = 30;

/// The kinds of interaction that count towards engagement.
#[derive(Debug, Clone, Copy, PartialEq, Eq, Structural)]
pub enum InteractionType {
    EmailSent,
    EmailOpen,
    EmailClick,
    LandingPageVisit,
    FormSubmission,
    EventRegistration,
    EventAttendance,
    MeetingScheduled,
    MeetingAttended,
    CallCompleted,
    NoteAdded,
    SocialInteraction,
}

impl InteractionType {
    /// Twice the base score of a kind. The base scores are 0.5 for a note,
    /// 1 for an e-mail sent, 3 for an e-mail opened or a social interaction,
    /// 4 for a visit, 5 for a click, 8 for a registration, 10 for a form, 12
    /// for a meeting scheduled, 15 for a call or an event attended, and 20
    /// for a meeting attended.
    pub open spec fn twice_base(self) -> int {
        match self {
            InteractionType::EmailSent => 2,
            InteractionType::NoteAdded => 1,
            InteractionType::EmailOpen => 6,
            InteractionType::EmailClick => 10,
            InteractionType::LandingPageVisit => 8,
            InteractionType::SocialInteraction => 6,
            InteractionType::FormSubmission => 20,
            InteractionType::EventRegistration => 16,
            InteractionType::MeetingScheduled => 24,
            InteractionType::EventAttendance => 30,
            InteractionType::MeetingAttended => 40,
            InteractionType::CallCompleted => 30,
        }
    }

    /// Whether the contact, not we, made the move.
    pub open spec fn inbound(self) -> bool {
        !(self == InteractionType::EmailSent || self == InteractionType::CallCompleted || self
            == InteractionType::NoteAdded)
    }

    /// The base score of the kind: what one such interaction is worth
    /// before time has worn it down.
    pub fn base_score(&self) -> (r: Binary64)
        ensures
            r.is_half_of(self.twice_base()),
    {
        proof {
            lemma_constants();
        }
        let bits: u64 = match self {
            InteractionType::EmailSent => ONE_BITS,
            InteractionType::NoteAdded => HALF_BITS,
            InteractionType::EmailOpen => THREE_BITS,
            InteractionType::EmailClick => FIVE_BITS,
            InteractionType::LandingPageVisit => FOUR_BITS,
            InteractionType::SocialInteraction => THREE_BITS,
            InteractionType::FormSubmission => TEN_BITS,
            InteractionType::EventRegistration => EIGHT_BITS,
            InteractionType::MeetingScheduled => TWELVE_BITS,
            InteractionType::EventAttendance => FIFTEEN_BITS,
            InteractionType::MeetingAttended => TWENTY_BITS,
            InteractionType::CallCompleted => FIFTEEN_BITS,
        };
        Binary64 { bits }
    }

    /// The token that stands for the kind when it is stored or sent.
    pub open spec fn token(self) -> Seq<char> {
        match self {
            InteractionType::EmailSent => "email_sent"@,
            InteractionType::EmailOpen => "email_open"@,
            InteractionType::EmailClick => "email_click"@,
            InteractionType::LandingPageVisit => "landing_page_visit"@,
            InteractionType::FormSubmission => "form_submission"@,
            InteractionType::EventRegistration => "event_registration"@,
            InteractionType::EventAttendance => "event_attendance"@,
            InteractionType::MeetingScheduled => "meeting_scheduled"@,
            InteractionType::MeetingAttended => "meeting_attended"@,
            InteractionType::CallCompleted => "call_completed"@,
            InteractionType::NoteAdded => "note_added"@,
            InteractionType::SocialInteraction => "social_interaction"@,
        }
    }

    /// The token that stands for the kind when it is stored or sent.
    pub fn wire_name(&self) -> (r: &'static str)
        ensures
            r@ == self.token(),
    {
        match self {
            InteractionType::EmailSent => "email_sent",
            InteractionType::EmailOpen => "email_open",
            InteractionType::EmailClick => "email_click",
            InteractionType::LandingPageVisit => "landing_page_visit",
            InteractionType::FormSubmission => "form_submission",
            InteractionType::EventRegistration => "event_registration",
            InteractionType::EventAttendance => "event_attendance",
            InteractionType::MeetingScheduled => "meeting_scheduled",
            InteractionType::MeetingAttended => "meeting_attended",
            InteractionType::CallCompleted => "call_completed",
            InteractionType::NoteAdded => "note_added",
            InteractionType::SocialInteraction => "social_interaction",
        }
    }

    /// Whether the contact, not we, made the move.
    pub fn is_inbound(&self) -> (r: bool)
        ensures
            r == self.inbound(),
    {
        match self {
            InteractionType::EmailOpen
            | InteractionType::EmailClick
            | InteractionType::LandingPageVisit
            | InteractionType::FormSubmission
            | InteractionType::EventRegistration
            | InteractionType::EventAttendance
            | InteractionType::MeetingScheduled
            | InteractionType::MeetingAttended
            | InteractionType::SocialInteraction => true,
            _ => false,
        }
    }
}

/// One interaction: its kind and the instant at which it occurred.
#[derive(Debug, Clone, Copy)]
pub struct Interaction {
    pub interaction_type: InteractionType,
    pub occurred_at: Timestamp,
}

impl Interaction {
    pub fn new(interaction_type: InteractionType, occurred_at: Timestamp) -> (r: Interaction)
        ensures
            r == (Interaction { interaction_type, occurred_at }),
    {
        Interaction { interaction_type, occurred_at }
    }
}

/// The parameters of the score.
#[derive(Debug, Clone, Copy)]
pub struct EngagementConfig {
    /// The days after which an interaction is worth half its base score.
    pub half_life_days: Binary64,
    /// The factor that a contact with activity in every week earns.
    pub consistency_bonus: Binary64,
    /// The raw score that counts as 100.
    pub max_raw_score: Binary64,
    /// The number of interactions from which the bonus applies.
    pub min_interactions: usize,
}

impl EngagementConfig {
    /// Parameters that the score can be computed with: a half-life and a
    /// maximum that are finite and above 0, and a bonus that is finite and
    /// not below 0.
    pub open spec fn usable(self) -> bool {
        &&& self.half_life_days.finite()
        &&& self.half_life_days.value_above(0)
        &&& self.max_raw_score.finite()
        &&& self.max_raw_score.value_above(0)
        &&& self.consistency_bonus.finite()
        &&& self.consistency_bonus.value_at_least(0)
    }

    /// Whether the score can be computed with these parameters.
    pub fn is_usable(&self) -> (r: bool)
        ensures
            r == self.usable(),
    {
        let zero = Binary64 { bits: ZERO_BITS };
        proof {
            lemma_constants();
            lemma_compare_with_whole(self.half_life_days, zero, 0);
            lemma_compare_with_whole(self.max_raw_score, zero, 0);
            lemma_compare_with_whole(self.consistency_bonus, zero, 0);
        }
        self.half_life_days.is_finite() && zero.lt(self.half_life_days)
            && self.max_raw_score.is_finite() && zero.lt(self.max_raw_score)
            && self.consistency_bonus.is_finite() && zero.le(self.consistency_bonus)
    }
}

impl Default for EngagementConfig {
    /// A half-life of 30 days, a bonus of 1.5, a maximum of 200, and the
    /// bonus from three interactions on.
    fn default() -> (r: EngagementConfig)
        ensures
            r.half_life_days.is_whole(30),
            r.consistency_bonus.is_half_of(3),
            r.max_raw_score.is_whole(200),
            r.min_interactions == 3,
            r.usable(),
    {
        proof {
            lemma_constants();
            lemma_pow2_pos(1074);
        }
        EngagementConfig {
            half_life_days: Binary64 { bits: THIRTY_BITS },
            consistency_bonus: Binary64 { bits: ONE_AND_HALF_BITS },
            max_raw_score: Binary64 { bits: TWO_HUNDRED_BITS },
            min_interactions: 3,
        }
    }
}

// ---------------------------------------------------------- active weeks

/// `a / b` rounded towards zero, for a positive `b`.
pub open spec fn toward_zero(a: int, b: int) -> int {
    if a >= 0 {
        a / b
    } else {
        -((-a) / b)
    }
}

/// The week that an interaction of the given age falls into: its age in
/// whole days, divided by seven. The running week is week 0.
pub open spec fn week_index(age: int) -> int {
    toward_zero(toward_zero(age, NANOS_PER_DAY as int), 7)
}

/// Whether an interaction lies no more than `days` days before `now`.
pub open spec fn within_days(i: Interaction, now: Timestamp, days: int) -> bool {
    i.occurred_at.age(now) <= days * NANOS_PER_DAY
}

/// The weeks in which at least one of the interactions of the last ninety
/// days falls.
pub open spec fn active_weeks(s: Seq<Interaction>, now: Timestamp) -> Set<int> {
    Set::new(
        |w: int|
            exists|j: int|
                0 <= j < s.len() && within_days(#[trigger] s[j], now, CONSISTENCY_DAYS as int)
                    && week_index(s[j].occurred_at.age(now)) == w,
    )
}

/// The number of active weeks that enters the consistency bonus: `None`
/// where there are fewer interactions than the bonus asks for.
pub open spec fn bonus_weeks(s: Seq<Interaction>, min_interactions: usize, now: Timestamp) -> Option<
    nat,
> {
    if s.len() < min_interactions {
        None
    } else {
        Some(active_weeks(s, now).len())
    }
}

fn week_of(age: i128) -> (r: i128)
    requires
        -0x4000_0000_0000_0000_0000_0000_0000 < age < 0x4000_0000_0000_0000_0000_0000_0000,
    ensures
        r == week_index(age as int),
{
    if age >= 0 {
        age / NANOS_PER_DAY / 7
    } else {
        let days: i128 = (-age) / NANOS_PER_DAY;
        -(days / 7)
    }
}

fn seen_before(seen: &Vec<i128>, week: i128) -> (r: bool)
    ensures
        r == seen@.contains(week),
{
    let mut k: usize = 0;
    while k < seen.len()
        invariant
            k <= seen.len(),
            forall|j: int| 0 <= j < k ==> seen@[j] != week,
        decreases seen.len() - k,
    {
        if seen[k] == week {
            return true;
        }
        k = k + 1;
    }
    false
}

/// Counts the weeks in which at least one of the interactions of the last
/// ninety days falls.
pub fn count_active_weeks(interactions: &[Interaction], now: Timestamp) -> (r: usize)
    ensures
        active_weeks(interactions@, now).finite(),
        r == active_weeks(interactions@, now).len(),
{
    let mut seen: Vec<i128> = Vec::new();
    let mut i: usize = 0;
    while i < interactions.len()
        invariant
            i <= interactions.len(),
            seen@.no_duplicates(),
            seen@.len() <= i,
            forall|w: int|
                active_weeks(interactions@.take(i as int), now).contains(w) <==> exists|k: int|
                    0 <= k < seen@.len() && #[trigger] seen@[k] == w,
        decreases interactions.len() - i,
    {
        let ghost before = interactions@.take(i as int);
        let ghost after = interactions@.take(i + 1);
        let ghost old_seen = seen@;
        let item: Interaction = interactions[i];
        let age: i128 = item.occurred_at.age_nanos(now);
        let counted: bool = age <= CONSISTENCY_DAYS as i128 * NANOS_PER_DAY;
        let week: i128 = week_of(age);
        if counted && !seen_before(&seen, week) {
            seen.push(week);
        }
        proof {
            assert(after[i as int] == item);
            assert forall|w: int| active_weeks(after, now).contains(w) <==> exists|k: int|
                0 <= k < seen@.len() && #[trigger] seen@[k] == w by {
                if active_weeks(after, now).contains(w) {
                    let j = choose|j: int|
                        0 <= j < after.len() && within_days(
                            #[trigger] after[j],
                            now,
                            CONSISTENCY_DAYS as int,
                        ) && week_index(after[j].occurred_at.age(now)) == w;
                    if j < i {
                        assert(before[j] == after[j]);
                        assert(active_weeks(before, now).contains(w));
                        let k = choose|k: int| 0 <= k < old_seen.len() && old_seen[k] == w;
                        assert(seen@[k] == w);
                    } else {
                        assert(w == week);
                        if old_seen.contains(week) {
                            let k = choose|k: int| 0 <= k < old_seen.len() && old_seen[k] == week;
                            assert(seen@[k] == w);
                        } else {
                            assert(seen@[old_seen.len() as int] == w);
                        }
                    }
                }
                if exists|k: int| 0 <= k < seen@.len() && #[trigger] seen@[k] == w {
                    let k = choose|k: int| 0 <= k < seen@.len() && #[trigger] seen@[k] == w;
                    if k < old_seen.len() {
                        assert(old_seen[k] == w);
                        assert(active_weeks(before, now).contains(w));
                        let j = choose|j: int|
                            0 <= j < before.len() && within_days(
                                #[trigger] before[j],
                                now,
                                CONSISTENCY_DAYS as int,
                            ) && week_index(before[j].occurred_at.age(now)) == w;
                        assert(after[j] == before[j]);
                    } else {
                        assert(within_days(after[i as int], now, CONSISTENCY_DAYS as int));
                    }
                }
            }
        }
        i = i + 1;
    }
    proof {
        assert(interactions@.take(i as int) =~= interactions@);
        let weeks = Seq::new(seen@.len(), |k: int| seen@[k] as int);
        assert(weeks.no_duplicates());
        assert forall|w: int| weeks.to_set().contains(w) <==> active_weeks(
            interactions@,
            now,
        ).contains(w) by {
            if weeks.to_set().contains(w) {
                let k = choose|k: int| 0 <= k < weeks.len() && weeks[k] == w;
                assert(seen@[k] == w);
            }
            if active_weeks(interactions@, now).contains(w) {
                let k = choose|k: int| 0 <= k < seen@.len() && #[trigger] seen@[k] == w;
                assert(weeks[k] == w);
            }
        }
        assert(weeks.to_set() =~= active_weeks(interactions@, now));
        weeks.unique_seq_to_set();
        seq_to_set_is_finite(weeks);
    }
    seen.len()
}

/// The number of active weeks that enters the consistency bonus, or
/// `None` where the interactions are fewer than `config.min_interactions`
/// and no bonus applies.
pub fn consistency_weeks(
    interactions: &[Interaction],
    config: &EngagementConfig,
    now: Timestamp,
) -> (r: Option<usize>)
    ensures
        r is Some <==> interactions@.len() >= config.min_interactions,
        r matches Some(n) ==> Some(n as nat) == bonus_weeks(
            interactions@,
            config.min_interactions,
            now,
        ),
{
    if interactions.len() < config.min_interactions {
        None
    } else {
        Some(count_active_weeks(interactions, now))
    }
}

// ----------------------------------------------------------------- score

/// What one interaction enters a score with: its base score, and the
/// whole seconds since it occurred.
#[derive(Debug, Clone, Copy)]
pub struct ScoreTerm {
    pub base: Binary64,
    pub seconds_ago: i128,
}

/// What a score is computed from: one term for each interaction, in their
/// order, and the number of active weeks where the consistency bonus
/// applies.
#[derive(Debug)]
pub struct ScorePlan {
    pub terms: Vec<ScoreTerm>,
    pub active_weeks: Option<usize>,
}

impl ScorePlan {
    /// Whether this is the plan for the score of the interactions `s` as
    /// of `now`: each term has the base score of its interaction and its
    /// age in whole seconds, never negative; the active weeks are counted
    /// exactly where `s` has `min_interactions` interactions or more.
    pub open spec fn is_plan_of(self, s: Seq<Interaction>, min_interactions: usize, now: Timestamp) -> bool {
        &&& self.terms@.len() == s.len()
        &&& forall|i: int|
            0 <= i < s.len() ==> (#[trigger] self.terms@[i]).base.is_half_of(
                s[i].interaction_type.twice_base(),
            ) && self.terms@[i].seconds_ago == s[i].occurred_at.seconds_ago(now)
        &&& match self.active_weeks {
            Some(n) => Some(n as nat) == bonus_weeks(s, min_interactions, now),
            None => bonus_weeks(s, min_interactions, now) is None,
        }
    }
}

/// Plans the score of a list of interactions as of `now`.
pub fn plan_score(interactions: &[Interaction], config: &EngagementConfig, now: Timestamp) -> (r:
    ScorePlan)
    ensures
        r.is_plan_of(interactions@, config.min_interactions, now),
{
    let mut terms: Vec<ScoreTerm> = Vec::new();
    let mut i: usize = 0;
    while i < interactions.len()
        invariant
            i <= interactions.len(),
            terms@.len() == i,
            forall|j: int|
                0 <= j < i ==> (#[trigger] terms@[j]).base.is_half_of(
                    interactions@[j].interaction_type.twice_base(),
                ) && terms@[j].seconds_ago == interactions@[j].occurred_at.seconds_ago(now),
        decreases interactions.len() - i,
    {
        let item: Interaction = interactions[i];
        terms.push(
            ScoreTerm {
                base: item.interaction_type.base_score(),
                seconds_ago: item.occurred_at.elapsed_seconds(now),
            },
        );
        i = i + 1;
    }
    ScorePlan { terms, active_weeks: consistency_weeks(interactions, config, now) }
}

/// Plans the two scores that a trend compares: that of the last thirty
/// days and that of the thirty days before them. Both are scored as of
/// `now`, so an interaction of the earlier period enters with its full age.
pub fn plan_trend(interactions: &[Interaction], config: &EngagementConfig, now: Timestamp) -> (r: (
    ScorePlan,
    ScorePlan,
))
    ensures
        r.0.is_plan_of(
            period(interactions@, now, None, TREND_DAYS),
            config.min_interactions,
            now,
        ),
        r.1.is_plan_of(
            period(interactions@, now, Some(TREND_DAYS), 60),
            config.min_interactions,
            now,
        ),
{
    let recent: Vec<Interaction> = recent_period(interactions, now);
    let earlier: Vec<Interaction> = earlier_period(interactions, now);
    (plan_score(recent.as_slice(), config, now), plan_score(earlier.as_slice(), config, now))
}

/// Plans the three scores that a velocity compares: those of the last
/// fifteen days, of the fifteen days before them, and of the fifteen days
/// before those, all as of `now`.
pub fn plan_velocity(interactions: &[Interaction], config: &EngagementConfig, now: Timestamp) -> (r:
    (ScorePlan, ScorePlan, ScorePlan))
    ensures
        r.0.is_plan_of(period(interactions@, now, None, 15), config.min_interactions, now),
        r.1.is_plan_of(period(interactions@, now, Some(15), 30), config.min_interactions, now),
        r.2.is_plan_of(period(interactions@, now, Some(30), 45), config.min_interactions, now),
{
    let latest: Vec<Interaction> = select_period(interactions, now, None, 15);
    let middle: Vec<Interaction> = select_period(interactions, now, Some(15), 30);
    let oldest: Vec<Interaction> = select_period(interactions, now, Some(30), 45);
    (
        plan_score(latest.as_slice(), config, now),
        plan_score(middle.as_slice(), config, now),
        plan_score(oldest.as_slice(), config, now),
    )
}

/// The score that a raw score, divided by the maximum and taken times a
/// hundred, stands for: limited to the interval from 0 to 100, and 0 where
/// there was no interaction to score.
pub open spec fn concluded(interaction_count: usize, normalized: Binary64) -> Binary64 {
    if interaction_count == 0 {
        Binary64 { bits: ZERO_BITS }
    } else {
        normalized.clamped(Binary64 { bits: ZERO_BITS }, Binary64 { bits: HUNDRED_BITS })
    }
}

/// Concludes a score from the normalised raw score of `interaction_count`
/// interactions. Unless that number is NaN, the score is a percentage.
pub fn conclude_score(interaction_count: usize, normalized: Binary64) -> (r: Binary64)
    ensures
        r == concluded(interaction_count, normalized),
        interaction_count == 0 || !normalized.nan() ==> r.is_percentage(),
{
    if interaction_count == 0 {
        proof {
            lemma_percentage(Binary64 { bits: ZERO_BITS });
        }
        Binary64 { bits: ZERO_BITS }
    } else {
        normalized.clamp_percentage()
    }
}

// --------------------------------------------------------------- periods

/// Whether an interaction lies in a period before `now`: no more than
/// `until_days` days back, and, where `after_days` is given, more than that
/// many days back.
pub open spec fn in_period(
    i: Interaction,
    now: Timestamp,
    after_days: Option<u32>,
    until_days: u32,
) -> bool {
    &&& within_days(i, now, until_days as int)
    &&& after_days matches Some(d) ==> !within_days(i, now, d as int)
}

/// The interactions of a period, in their order.
pub open spec fn period(
    s: Seq<Interaction>,
    now: Timestamp,
    after_days: Option<u32>,
    until_days: u32,
) -> Seq<Interaction> {
    s.filter(|i: Interaction| in_period(i, now, after_days, until_days))
}

/// Picks the interactions of a period before `now`, in their order.
pub fn select_period(
    interactions: &[Interaction],
    now: Timestamp,
    after_days: Option<u32>,
    until_days: u32,
) -> (r: Vec<Interaction>)
    ensures
        r@ == period(interactions@, now, after_days, until_days),
{
    let ghost keep = |i: Interaction| in_period(i, now, after_days, until_days);
    let mut out: Vec<Interaction> = Vec::new();
    let mut i: usize = 0;
    proof {
        reveal(Seq::filter);
        assert(interactions@.take(0).filter(keep) =~= Seq::<Interaction>::empty());
    }
    while i < interactions.len()
        invariant
            i <= interactions.len(),
            keep == |i: Interaction| in_period(i, now, after_days, until_days),
            out@ == interactions@.take(i as int).filter(keep),
        decreases interactions.len() - i,
    {
        let item: Interaction = interactions[i];
        let age: i128 = item.occurred_at.age_nanos(now);
        let young: bool = age <= until_days as i128 * NANOS_PER_DAY;
        let old_enough: bool = match after_days {
            Some(d) => age > d as i128 * NANOS_PER_DAY,
            None => true,
        };
        proof {
            reveal(Seq::filter);
            assert(interactions@.take(i + 1).drop_last() =~= interactions@.take(i as int));
            assert(interactions@.take(i + 1).last() == item);
            assert(keep(item) == (young && old_enough));
        }
        if young && old_enough {
            out.push(item);
        }
        i = i + 1;
    }
    assert(interactions@.take(i as int) =~= interactions@);
    out
}

/// The interactions of the last thirty days.
pub fn recent_period(interactions: &[Interaction], now: Timestamp) -> (r: Vec<Interaction>)
    ensures
        r@ == period(interactions@, now, None, TREND_DAYS),
{
    select_period(interactions, now, None, TREND_DAYS)
}

/// The interactions of the thirty days before the last thirty.
pub fn earlier_period(interactions: &[Interaction], now: Timestamp) -> (r: Vec<Interaction>)
    ensures
        r@ == period(interactions@, now, Some(TREND_DAYS), 60),
{
    select_period(interactions, now, Some(TREND_DAYS), 60)
}

// ---------------------------------------------------------------- levels

/// The five bands of a score.
#[derive(Debug, Clone, Copy, PartialEq, Eq, Structural)]
pub enum EngagementLevel {
    /// 0 to 20.
    Cold,
    /// 21 to 40.
    Warming,
    /// 41 to 60.
    Engaged,
    /// 61 to 80.
    Hot,
    /// 81 and above.
    Champion,
}

impl EngagementLevel {
    /// The band of a score, by its whole part: under 21 cold, under 41
    /// warming, under 61 engaged, under 81 hot, and champion from there on.
    /// NaN counts as 0.
    pub open spec fn of_score(score: Binary64) -> EngagementLevel {
        if score.nan() || score.value_below(21) {
            EngagementLevel::Cold
        } else if score.value_below(41) {
            EngagementLevel::Warming
        } else if score.value_below(61) {
            EngagementLevel::Engaged
        } else if score.value_below(81) {
            EngagementLevel::Hot
        } else {
            EngagementLevel::Champion
        }
    }

    /// What to do with a contact of a level.
    pub open spec fn action(self) -> Seq<char> {
        match self {
            EngagementLevel::Cold => "Re-engagement campaign or remove from active lists"@,
            EngagementLevel::Warming => "Nurture with valuable content"@,
            EngagementLevel::Engaged => "Invite to events, offer demos"@,
            EngagementLevel::Hot => "Direct sales outreach, schedule call"@,
            EngagementLevel::Champion => "Referral request, case study opportunity"@,
        }
    }

    /// The band of a score.
    pub fn from_score(score: Binary64) -> (r: EngagementLevel)
        ensures
            r == EngagementLevel::of_score(score),
    {
        proof {
            lemma_constants();
            lemma_compare_with_whole(score, Binary64 { bits: TWENTY_ONE_BITS }, 21);
            lemma_compare_with_whole(score, Binary64 { bits: FORTY_ONE_BITS }, 41);
            lemma_compare_with_whole(score, Binary64 { bits: SIXTY_ONE_BITS }, 61);
            lemma_compare_with_whole(score, Binary64 { bits: EIGHTY_ONE_BITS }, 81);
        }
        if score.is_nan() || score.lt(Binary64 { bits: TWENTY_ONE_BITS }) {
            EngagementLevel::Cold
        } else if score.lt(Binary64 { bits: FORTY_ONE_BITS }) {
            EngagementLevel::Warming
        } else if score.lt(Binary64 { bits: SIXTY_ONE_BITS }) {
            EngagementLevel::Engaged
        } else if score.lt(Binary64 { bits: EIGHTY_ONE_BITS }) {
            EngagementLevel::Hot
        } else {
            EngagementLevel::Champion
        }
    }

    /// The token that stands for the level when it is stored or sent.
    pub open spec fn token(self) -> Seq<char> {
        match self {
            EngagementLevel::Cold => "cold"@,
            EngagementLevel::Warming => "warming"@,
            EngagementLevel::Engaged => "engaged"@,
            EngagementLevel::Hot => "hot"@,
            EngagementLevel::Champion => "champion"@,
        }
    }

    /// The token that stands for the level when it is stored or sent.
    pub fn wire_name(&self) -> (r: &'static str)
        ensures
            r@ == self.token(),
    {
        match self {
            EngagementLevel::Cold => "cold",
            EngagementLevel::Warming => "warming",
            EngagementLevel::Engaged => "engaged",
            EngagementLevel::Hot => "hot",
            EngagementLevel::Champion => "champion",
        }
    }

    /// What to do with a contact of this level.
    pub fn recommended_action(&self) -> (r: &'static str)
        ensures
            r@ == self.action(),
    {
        match self {
            EngagementLevel::Cold => "Re-engagement campaign or remove from active lists",
            EngagementLevel::Warming => "Nurture with valuable content",
            EngagementLevel::Engaged => "Invite to events, offer demos",
            EngagementLevel::Hot => "Direct sales outreach, schedule call",
            EngagementLevel::Champion => "Referral request, case study opportunity",
        }
    }
}

// ----------------------------------------------------------------- trend

/// The direction in which engagement moves.
#[derive(Debug, Clone, Copy, PartialEq, Eq, Structural)]
pub enum EngagementTrend {
    Declining,
    Stable,
    Improving,
}

impl EngagementTrend {
    /// The trend that a difference of scores, recent less earlier, stands
    /// for: improving above 10, declining below -10, stable between them and
    /// for NaN.
    pub open spec fn of_difference(diff: Binary64) -> EngagementTrend {
        if diff.value_above(10) {
            EngagementTrend::Improving
        } else if diff.value_below(-10) {
            EngagementTrend::Declining
        } else {
            EngagementTrend::Stable
        }
    }

    /// The token that stands for the trend when it is stored or sent.
    pub open spec fn token(self) -> Seq<char> {
        match self {
            EngagementTrend::Declining => "declining"@,
            EngagementTrend::Stable => "stable"@,
            EngagementTrend::Improving => "improving"@,
        }
    }

    /// The token that stands for the trend when it is stored or sent.
    pub fn wire_name(&self) -> (r: &'static str)
        ensures
            r@ == self.token(),
    {
        match self {
            EngagementTrend::Declining => "declining",
            EngagementTrend::Stable => "stable",
            EngagementTrend::Improving => "improving",
        }
    }

    /// Reads a difference of scores, recent less earlier, as a trend.
    pub fn from_difference(diff: Binary64) -> (r: EngagementTrend)
        ensures
            r == EngagementTrend::of_difference(diff),
    {
        proof {
            lemma_constants();
            lemma_compare_with_whole(diff, Binary64 { bits: TEN_BITS }, 10);
            lemma_compare_with_whole(diff, Binary64 { bits: MINUS_TEN_BITS }, -10);
        }
        if diff.gt(Binary64 { bits: TEN_BITS }) {
            EngagementTrend::Improving
        } else if diff.lt(Binary64 { bits: MINUS_TEN_BITS }) {
            EngagementTrend::Declining
        } else {
            EngagementTrend::Stable
        }
    }
}

} // verus!
