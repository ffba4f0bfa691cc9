//! The contact aggregate: validated fields, a status that changes only
//! along the lifecycle, tags without repetitions and a clamped score.

use vstd::prelude::*;
use crate::errors::{error_of, invalid, DomainError, DomainErrorView};
use crate::number::{
    lemma_clamped_percentage, lemma_compare_with_whole, lemma_constants, Binary64, FIFTY_BITS,
    HUNDRED_BITS, THIRTY_BITS, ZERO_BITS,
};
use crate::status::{can_transition, display_name, explanation, ContactStatus};
use crate::text::lowercased;
use crate::time::Timestamp;
use crate::validation::{
    email_verdict, holds, is_stored_tag, linkedin_verdict, name_verdict, normalized_tag,
    phone_verdict, tag_problem, texts, validate_tag,
};

verus! {

/// A contact. Values come from `ContactBuilder::build` and change through
/// the methods below, which keep `ContactView::wf`.
#[derive(Debug, Clone)]
pub struct Contact {
    pub first_name: String,
    pub last_name: String,
    pub email: String,
    pub phone: Option<String>,
    pub linkedin_url: Option<String>,
    pub tags: Vec<String>,
    pub status: ContactStatus,
    pub engagement_score: Binary64,
    pub company_id: Option<String>,
    pub created_at: Timestamp,
    pub updated_at: Timestamp,
}

/// A contact with its texts as character sequences.
pub struct ContactView {
    pub first_name: Seq<char>,
    pub last_name: Seq<char>,
    pub email: Seq<char>,
    pub phone: Option<Seq<char>>,
    pub linkedin_url: Option<Seq<char>>,
    pub tags: Seq<Seq<char>>,
    pub status: ContactStatus,
    pub engagement_score: Binary64,
    pub company_id: Option<Seq<char>>,
    pub created_at: Timestamp,
    pub updated_at: Timestamp,
}

/// The view of an optional string.
pub open spec fn optional_text(o: Option<String>) -> Option<Seq<char>> {
    match o {
        Some(s) => Some(s@),
        None => None,
    }
}

impl View for Contact {
    type V = ContactView;

    open spec fn view(&self) -> ContactView {
        ContactView {
            first_name: self.first_name@,
            last_name: self.last_name@,
            email: self.email@,
            phone: optional_text(self.phone),
            linkedin_url: optional_text(self.linkedin_url),
            tags: texts(self.tags@),
            status: self.status,
            engagement_score: self.engagement_score,
            company_id: optional_text(self.company_id),
            created_at: self.created_at,
            updated_at: self.updated_at,
        }
    }
}

/// The texts of `s` that differ from `t`, in order.
pub open spec fn without(s: Seq<Seq<char>>, t: Seq<char>) -> Seq<Seq<char>>
    decreases s.len(),
{
    if s.len() == 0 {
        s
    } else if s.last() == t {
        without(s.drop_last(), t)
    } else {
        without(s.drop_last(), t).push(s.last())
    }
}

/// The error that refuses a change of status.
pub open spec fn transition_refusal(from: ContactStatus, to: ContactStatus) -> DomainErrorView {
    DomainErrorView::InvalidStateTransition {
        from: display_name(from),
        to: display_name(to),
        reason: explanation(from, to),
    }
}

impl ContactView {
    /// What holds of every contact that the library hands out: the fields
    /// pass their checks, every tag is in order and in its stored form, no
    /// tag occurs twice, and the score is a percentage.
    pub open spec fn wf(self) -> bool {
        &&& name_verdict(self.first_name, "first_name"@) is None
        &&& name_verdict(self.last_name, "last_name"@) is None
        &&& email_verdict(self.email) is None
        &&& phone_verdict(self.phone) is None
        &&& linkedin_verdict(self.linkedin_url) is None
        &&& self.tags.no_duplicates()
        &&& forall|i: int|
            0 <= i < self.tags.len() ==> tag_problem(#[trigger] self.tags[i]) is None
                && is_stored_tag(self.tags[i])
        &&& self.engagement_score.is_percentage()
    }

    /// The contact after a change of status at `now`.
    pub open spec fn with_status(self, status: ContactStatus, now: Timestamp) -> ContactView {
        ContactView { status, updated_at: now, ..self }
    }

    /// The contact after a tag in its stored form was added at `now`: as
    /// before where it has the tag already.
    pub open spec fn with_tag(self, tag: Seq<char>, now: Timestamp) -> ContactView {
        if self.tags.contains(tag) {
            self
        } else {
            ContactView { tags: self.tags.push(tag), updated_at: now, ..self }
        }
    }

    /// The contact after a tag in its stored form was removed at `now`: as
    /// before where it does not have the tag.
    pub open spec fn without_tag(self, tag: Seq<char>, now: Timestamp) -> ContactView {
        if self.tags.contains(tag) {
            ContactView { tags: without(self.tags, tag), updated_at: now, ..self }
        } else {
            self
        }
    }

    /// The contact after its score was set at `now`.
    pub open spec fn with_score(self, score: Binary64, now: Timestamp) -> ContactView {
        ContactView {
            engagement_score: score.clamped(
                Binary64 { bits: ZERO_BITS },
                Binary64 { bits: HUNDRED_BITS },
            ),
            updated_at: now,
            ..self
        }
    }

    /// Whether the contact carries the tag that `tag` is the lower-case
    /// form of.
    pub open spec fn has_tag(self, tag: Seq<char>) -> bool {
        self.tags.contains(lowercased(tag))
    }
}

/// `without` keeps the texts that differ from `t`, and nothing else.
pub proof fn lemma_without(s: Seq<Seq<char>>, t: Seq<char>)
    ensures
        !without(s, t).contains(t),
        forall|u: Seq<char>| #[trigger] without(s, t).contains(u) <==> s.contains(u) && u != t,
        s.no_duplicates() ==> without(s, t).no_duplicates(),
        without(s, t).len() <= s.len(),
        s.contains(t) ==> without(s, t).len() < s.len(),
    decreases s.len(),
{
    if s.len() > 0 {
        let head = s.drop_last();
        let last = s.last();
        lemma_without(head, t);
        let before = without(head, t);
        let after = without(s, t);
        assert(after == if last == t {
            before
        } else {
            before.push(last)
        });
        assert forall|u: Seq<char>| #[trigger] after.contains(u) <==> s.contains(u) && u != t by {
            assert(before.contains(u) <==> head.contains(u) && u != t);
            if s.contains(u) && u != t {
                let i = choose|i: int| 0 <= i < s.len() && s[i] == u;
                if i < s.len() - 1 {
                    assert(head[i] == u);
                    assert(head.contains(u));
                    let j = choose|j: int| 0 <= j < before.len() && before[j] == u;
                    assert(after[j] == u);
                } else {
                    assert(after[before.len() as int] == u);
                }
                assert(after.contains(u));
            }
            if after.contains(u) {
                let j = choose|j: int| 0 <= j < after.len() && after[j] == u;
                if j < before.len() {
                    assert(before[j] == u);
                    assert(before.contains(u));
                    let i = choose|i: int| 0 <= i < head.len() && head[i] == u;
                    assert(s[i] == u);
                } else {
                    assert(s[s.len() - 1] == u);
                }
                assert(s.contains(u) && u != t);
            }
        }
        if s.no_duplicates() {
            assert(head.no_duplicates());
            if last != t {
                if before.contains(last) {
                    let i = choose|i: int| 0 <= i < head.len() && head[i] == last;
                    assert(s[i] == s[s.len() - 1]);
                }
                assert forall|i: int, j: int|
                    0 <= i < after.len() && 0 <= j < after.len() && i != j implies after[i]
                    != after[j] by {
                    if i == before.len() {
                        assert(before.contains(after[j]));
                    } else if j == before.len() {
                        assert(before.contains(after[i]));
                    }
                }
            }
        }
        if s.contains(t) && last != t {
            let i = choose|i: int| 0 <= i < s.len() && s[i] == t;
            assert(head[i] == t);
        }
    }
}

/// Adding a tag that the contact has already changes nothing; so adding
/// the same tag twice leaves one copy of it.
pub proof fn lemma_add_tag_twice(c: ContactView, tag: Seq<char>, first: Timestamp, second: Timestamp)
    ensures
        c.with_tag(tag, first).tags.contains(tag),
        c.with_tag(tag, first).with_tag(tag, second) == c.with_tag(tag, first),
{
    if !c.tags.contains(tag) {
        assert(c.tags.push(tag)[c.tags.len() as int] == tag);
    }
}

/// A tag that was added is found again, in whatever case it is asked for:
/// by every text whose lower-case form is the stored form of the tag.
pub proof fn lemma_added_tag_is_found(
    c: ContactView,
    raw: Seq<char>,
    asked: Seq<char>,
    now: Timestamp,
)
    requires
        lowercased(asked) == normalized_tag(raw),
    ensures
        c.with_tag(normalized_tag(raw), now).has_tag(asked),
{
    lemma_add_tag_twice(c, normalized_tag(raw), now, now);
}

/// A tag that was removed is not found any more, and the other tags stay.
pub proof fn lemma_removed_tag_is_gone(c: ContactView, asked: Seq<char>, now: Timestamp)
    ensures
        !c.without_tag(lowercased(asked), now).has_tag(asked),
        forall|t: Seq<char>|
            t != lowercased(asked) ==> (#[trigger] c.without_tag(
                lowercased(asked),
                now,
            ).tags.contains(t) <==> c.tags.contains(t)),
{
    lemma_without(c.tags, lowercased(asked));
}

/// The mutations keep a well-formed contact well formed, whatever the
/// arguments: a change of status, a raw tag whose stored form passes its
/// check, the removal of a tag, and a score that is not NaN.
pub proof fn lemma_mutations_keep_wf(
    c: ContactView,
    status: ContactStatus,
    tag: Seq<char>,
    score: Binary64,
    now: Timestamp,
)
    requires
        c.wf(),
    ensures
        c.with_status(status, now).wf(),
        tag_problem(normalized_tag(tag)) is None ==> c.with_tag(normalized_tag(tag), now).wf(),
        c.without_tag(tag, now).wf(),
        !score.nan() ==> c.with_score(score, now).wf(),
{
    lemma_without(c.tags, tag);
    lemma_clamped_percentage(score);
    let removed = c.without_tag(tag, now);
    assert forall|i: int| 0 <= i < removed.tags.len() implies tag_problem(
        #[trigger] removed.tags[i],
    ) is None && is_stored_tag(removed.tags[i]) by {
        assert(removed.tags.contains(removed.tags[i]));
        assert(c.tags.contains(removed.tags[i]));
    }
    let stored = normalized_tag(tag);
    if tag_problem(stored) is None && !c.tags.contains(stored) {
        let added = c.with_tag(stored, now);
        assert(is_stored_tag(stored));
        assert forall|i: int, j: int|
            0 <= i < added.tags.len() && 0 <= j < added.tags.len() && i != j implies added.tags[i]
            != added.tags[j] by {
            if i == c.tags.len() {
                assert(c.tags.contains(added.tags[j]));
            } else if j == c.tags.len() {
                assert(c.tags.contains(added.tags[i]));
            }
        }
    }
}

impl Contact {
    /// First and last name with a blank between them.
    pub fn full_name(&self) -> (r: String)
        ensures
            r@ == self@.first_name + " "@ + self@.last_name,
    {
        String::from_str(self.first_name.as_str()).concat(" ").concat(self.last_name.as_str())
    }

    /// Whether the contact carries a tag, whatever the case of the letters
    /// it is asked in.
    pub fn has_tag(&self, tag: &str) -> (r: bool)
        ensures
            r == self@.has_tag(tag@),
    {
        let normalized: String = tag.to_lowercase();
        holds(&self.tags, &normalized)
    }

    /// A score of 50 or more.
    pub fn is_engaged(&self) -> (r: bool)
        ensures
            r == self.engagement_score.value_at_least(50),
    {
        proof {
            lemma_constants();
            lemma_compare_with_whole(self.engagement_score, Binary64 { bits: FIFTY_BITS }, 50);
        }
        self.engagement_score.ge(Binary64 { bits: FIFTY_BITS })
    }

    /// A customer with a score under 30.
    pub fn is_at_risk(&self) -> (r: bool)
        ensures
            r == (self.status == ContactStatus::Customer && self.engagement_score.value_below(30)),
    {
        proof {
            lemma_constants();
            lemma_compare_with_whole(self.engagement_score, Binary64 { bits: THIRTY_BITS }, 30);
        }
        self.status == ContactStatus::Customer && self.engagement_score.lt(
            Binary64 { bits: THIRTY_BITS },
        )
    }

    /// Changes the status at the instant `now`, where the lifecycle allows
    /// the change; refuses it and leaves the contact as it is otherwise.
    pub fn transition_status_at(&mut self, new_status: ContactStatus, now: Timestamp) -> (r: Result<
        (),
        DomainError,
    >)
        ensures
            can_transition(old(self).status, new_status) ==> r is Ok && final(self)@ == old(
                self,
            )@.with_status(new_status, now),
            !can_transition(old(self).status, new_status) ==> *final(self) == *old(self)
                && error_of(r) == Some(transition_refusal(old(self).status, new_status)),
            old(self)@.wf() ==> final(self)@.wf(),
    {
        if !self.status.can_transition_to(new_status) {
            return Err(
                DomainError::InvalidStateTransition {
                    from: String::from_str(self.status.name()),
                    to: String::from_str(new_status.name()),
                    reason: String::from_str(self.status.transition_explanation(new_status)),
                },
            );
        }
        self.status = new_status;
        self.updated_at = now;
        Ok(())
    }

    /// Changes the status now. Whatever the clock says, the change is made
    /// exactly where the lifecycle allows it, and nothing but the status
    /// and the time of the last change differs afterwards.
    pub fn transition_status(&mut self, new_status: ContactStatus) -> (r: Result<(), DomainError>)
        ensures
            can_transition(old(self).status, new_status) ==> r is Ok && final(self)@ == old(
                self,
            )@.with_status(new_status, final(self).updated_at),
            !can_transition(old(self).status, new_status) ==> *final(self) == *old(self)
                && error_of(r) == Some(transition_refusal(old(self).status, new_status)),
            old(self)@.wf() ==> final(self)@.wf(),
    {
        let now: Timestamp = Timestamp::now();
        self.transition_status_at(new_status, now)
    }

    /// Adds a tag at the instant `now`. The tag is stored trimmed and in
    /// lower case; one that the contact has already changes nothing, and one
    /// that fails its check is refused.
    pub fn add_tag_at(&mut self, tag: &str, now: Timestamp) -> (r: Result<(), DomainError>)
        ensures
            error_of(r) == tag_problem(normalized_tag(tag@)),
            r is Ok ==> final(self)@ == old(self)@.with_tag(normalized_tag(tag@), now),
            r is Err ==> *final(self) == *old(self),
            old(self)@.wf() ==> final(self)@.wf(),
    {
        proof {
            if old(self)@.wf() {
                lemma_mutations_keep_wf(old(self)@, self.status, tag@, self.engagement_score, now);
            }
        }
        match validate_tag(tag) {
            Err(e) => Err(e),
            Ok(validated) => {
                if !holds(&self.tags, &validated) {
                    let ghost before = texts(self.tags@);
                    self.tags.push(validated);
                    self.updated_at = now;
                    assert(texts(self.tags@) =~= before.push(normalized_tag(tag@)));
                }
                Ok(())
            },
        }
    }

    /// Adds a tag now. Whatever the clock says, the outcome is that of
    /// `add_tag_at` for the instant that `updated_at` shows afterwards.
    pub fn add_tag(&mut self, tag: &str) -> (r: Result<(), DomainError>)
        ensures
            error_of(r) == tag_problem(normalized_tag(tag@)),
            r is Ok ==> final(self)@ == old(self)@.with_tag(
                normalized_tag(tag@),
                final(self).updated_at,
            ),
            r is Err ==> *final(self) == *old(self),
            old(self)@.wf() ==> final(self)@.wf(),
    {
        let now: Timestamp = Timestamp::now();
        self.add_tag_at(tag, now)
    }

    /// Removes the tag that `tag` is the lower-case form of, at the instant
    /// `now`, and says whether the contact had it.
    pub fn remove_tag_at(&mut self, tag: &str, now: Timestamp) -> (r: bool)
        ensures
            r == old(self)@.has_tag(tag@),
            final(self)@ == old(self)@.without_tag(lowercased(tag@), now),
            !r ==> *final(self) == *old(self),
            old(self)@.wf() ==> final(self)@.wf(),
    {
        proof {
            if old(self)@.wf() {
                lemma_mutations_keep_wf(
                    old(self)@,
                    self.status,
                    lowercased(tag@),
                    self.engagement_score,
                    now,
                );
            }
        }
        let normalized: String = tag.to_lowercase();
        if !holds(&self.tags, &normalized) {
            return false;
        }
        let mut kept: Vec<String> = Vec::new();
        let mut i: usize = 0;
        assert(texts(self.tags@).take(0) =~= Seq::<Seq<char>>::empty());
        assert(texts(kept@) =~= Seq::<Seq<char>>::empty());
        while i < self.tags.len()
            invariant
                i <= self.tags.len(),
                texts(kept@) == without(texts(self.tags@).take(i as int), normalized@),
            decreases self.tags.len() - i,
        {
            let ghost all = texts(self.tags@);
            assert(all.take(i + 1).drop_last() =~= all.take(i as int));
            assert(all.take(i + 1).last() == self.tags@[i as int]@);
            if self.tags[i] != normalized {
                let ghost before = texts(kept@);
                let copy: String = self.tags[i].clone();
                kept.push(copy);
                assert(texts(kept@) =~= before.push(self.tags@[i as int]@));
            }
            i = i + 1;
        }
        assert(texts(self.tags@).take(i as int) =~= texts(self.tags@));
        self.tags = kept;
        self.updated_at = now;
        true
    }

    /// Removes a tag now, and says whether the contact had it. Whatever the
    /// clock says, the outcome is that of `remove_tag_at` for the instant
    /// that `updated_at` shows afterwards.
    pub fn remove_tag(&mut self, tag: &str) -> (r: bool)
        ensures
            r == old(self)@.has_tag(tag@),
            final(self)@ == old(self)@.without_tag(lowercased(tag@), final(self).updated_at),
            !r ==> *final(self) == *old(self),
            old(self)@.wf() ==> final(self)@.wf(),
    {
        let now: Timestamp = Timestamp::now();
        self.remove_tag_at(tag, now)
    }

    /// Sets the score at the instant `now`, limited to the interval from 0
    /// to 100. NaN and the infinities are refused.
    pub fn update_engagement_at(&mut self, new_score: Binary64, now: Timestamp) -> (r: Result<
        (),
        DomainError,
    >)
        ensures
            new_score.finite() ==> r is Ok && final(self)@ == old(self)@.with_score(new_score, now)
                && final(self).engagement_score.is_percentage(),
            !new_score.finite() ==> *final(self) == *old(self) && error_of(r) == Some(
                invalid("engagement_score"@, "Score must be a finite number"@),
            ),
            old(self)@.wf() ==> final(self)@.wf(),
    {
        if new_score.is_nan() || new_score.is_infinite() {
            return Err(
                DomainError::invalid_field("engagement_score", "Score must be a finite number"),
            );
        }
        self.engagement_score = new_score.clamp_percentage();
        self.updated_at = now;
        Ok(())
    }

    /// Sets the score now. Whatever the clock says, the outcome is that of
    /// `update_engagement_at` for the instant that `updated_at` shows
    /// afterwards.
    pub fn update_engagement(&mut self, new_score: Binary64) -> (r: Result<(), DomainError>)
        ensures
            new_score.finite() ==> r is Ok && final(self)@ == old(self)@.with_score(
                new_score,
                final(self).updated_at,
            ) && final(self).engagement_score.is_percentage(),
            !new_score.finite() ==> *final(self) == *old(self) && error_of(r) == Some(
                invalid("engagement_score"@, "Score must be a finite number"@),
            ),
            old(self)@.wf() ==> final(self)@.wf(),
    {
        let now: Timestamp = Timestamp::now();
        self.update_engagement_at(new_score, now)
    }
}

} // verus!
