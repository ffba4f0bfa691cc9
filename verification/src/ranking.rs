//! Which kinds of interaction carry a score: the kinds in the order of
//! what they contribute.

use vstd::prelude::*;
use vstd::seq_lib::to_multiset_insert;
use crate::engagement::InteractionType;
use crate::number::{lemma_order_is_order_of_values, Binary64, SIGN_BIT};

verus! {

/// What the interactions of one kind contribute to a score, and how many
/// they are.
#[derive(Debug, Clone, Copy)]
pub struct TypeContribution {
    pub interaction_type: InteractionType,
    pub contribution: Binary64,
    pub count: usize,
}

impl InteractionType {
    /// The place of a kind in the order in which the kinds are declared.
    pub open spec fn position(self) -> int {
        match self {
            InteractionType::EmailSent => 0,
            InteractionType::EmailOpen => 1,
            InteractionType::EmailClick => 2,
            InteractionType::LandingPageVisit => 3,
            InteractionType::FormSubmission => 4,
            InteractionType::EventRegistration => 5,
            InteractionType::EventAttendance => 6,
            InteractionType::MeetingScheduled => 7,
            InteractionType::MeetingAttended => 8,
            InteractionType::CallCompleted => 9,
            InteractionType::NoteAdded => 10,
            InteractionType::SocialInteraction => 11,
        }
    }

    /// The place of the kind in the order in which the kinds are declared.
    pub fn declaration_index(&self) -> (r: u8)
        ensures
            r == self.position(),
    {
        match self {
            InteractionType::EmailSent => 0,
            InteractionType::EmailOpen => 1,
            InteractionType::EmailClick => 2,
            InteractionType::LandingPageVisit => 3,
            InteractionType::FormSubmission => 4,
            InteractionType::EventRegistration => 5,
            InteractionType::EventAttendance => 6,
            InteractionType::MeetingScheduled => 7,
            InteractionType::MeetingAttended => 8,
            InteractionType::CallCompleted => 9,
            InteractionType::NoteAdded => 10,
            InteractionType::SocialInteraction => 11,
        }
    }
}

/// The integer by which contributions are ordered: the rank of a number,
/// and an integer below every rank for NaN.
pub open spec fn sort_key(x: Binary64) -> int {
    if x.nan() {
        -(SIGN_BIT as int)
    } else {
        x.rank()
    }
}

/// Of two numbers that are not NaN, the one with the larger value has the
/// larger key, and NaN has a key below both.
pub proof fn lemma_sort_key_orders_values(a: Binary64, b: Binary64, c: Binary64)
    requires
        !a.nan(),
        !b.nan(),
        c.nan(),
    ensures
        sort_key(a) < sort_key(b) <==> a.scaled() < b.scaled(),
        sort_key(a) == sort_key(b) <==> a.scaled() == b.scaled(),
        sort_key(c) < sort_key(a),
{
    lemma_order_is_order_of_values(a, b);
    lemma_order_is_order_of_values(b, a);
}

/// Whether `a` comes before `b`: by the larger contribution, then by the
/// larger number of interactions, then by the earlier declaration.
pub open spec fn outranks(a: TypeContribution, b: TypeContribution) -> bool {
    let (ka, kb) = (sort_key(a.contribution), sort_key(b.contribution));
    ||| ka > kb
    ||| ka == kb && a.count > b.count
    ||| ka == kb && a.count == b.count && a.interaction_type.position()
        < b.interaction_type.position()
}

/// No entry is outranked by a later one.
pub open spec fn ranked(s: Seq<TypeContribution>) -> bool {
    forall|i: int, j: int| 0 <= i < j < s.len() ==> !outranks(#[trigger] s[j], #[trigger] s[i])
}

/// The first place from `from` on whose entry `x` outranks; the length
/// where there is none.
pub open spec fn place_for(s: Seq<TypeContribution>, x: TypeContribution, from: int) -> int
    decreases s.len() - from,
{
    if from < 0 || from >= s.len() {
        s.len() as int
    } else if outranks(x, s[from]) {
        from
    } else {
        place_for(s, x, from + 1)
    }
}

/// The entries in ranked order; entries that tie stay in the order in
/// which they came.
pub open spec fn ranking(s: Seq<TypeContribution>) -> Seq<TypeContribution>
    decreases s.len(),
{
    if s.len() == 0 {
        s
    } else {
        let before = ranking(s.drop_last());
        before.insert(place_for(before, s.last(), 0), s.last())
    }
}

/// The first `n` entries of the ranking, or all of them where there are
/// fewer.
pub open spec fn top(s: Seq<TypeContribution>, n: int) -> Seq<TypeContribution> {
    if n >= s.len() {
        ranking(s)
    } else {
        ranking(s).take(n)
    }
}

/// `place_for` finds a place in the sequence; `x` outranks no entry
/// between `from` and that place, and outranks the entry at it.
pub proof fn lemma_place_for(s: Seq<TypeContribution>, x: TypeContribution, from: int)
    requires
        0 <= from <= s.len(),
    ensures
        from <= place_for(s, x, from) <= s.len(),
        forall|k: int| from <= k < place_for(s, x, from) ==> !outranks(x, #[trigger] s[k]),
        place_for(s, x, from) < s.len() ==> outranks(x, s[place_for(s, x, from)]),
    decreases s.len() - from,
{
    if from < s.len() && !outranks(x, s[from]) {
        lemma_place_for(s, x, from + 1);
    }
}

/// The ranking holds the same entries, each as often as it was given, and
/// is in ranked order.
pub proof fn lemma_ranking(s: Seq<TypeContribution>)
    ensures
        ranking(s).to_multiset() == s.to_multiset(),
        ranking(s).len() == s.len(),
        ranked(ranking(s)),
    decreases s.len(),
{
    broadcast use vstd::seq_lib::to_multiset_build;

    if s.len() == 0 {
    } else {
        let head = s.drop_last();
        let x = s.last();
        lemma_ranking(head);
        let before = ranking(head);
        let p = place_for(before, x, 0);
        lemma_place_for(before, x, 0);
        let after = before.insert(p, x);
        to_multiset_insert(before, p, x);
        assert(head.push(x) =~= s);
        assert(after.to_multiset() == s.to_multiset());
        assert forall|i: int, j: int| 0 <= i < j < after.len() implies !outranks(
            #[trigger] after[j],
            #[trigger] after[i],
        ) by {
            if j < p {
                assert(after[i] == before[i] && after[j] == before[j]);
            } else if j == p {
                assert(after[i] == before[i]);
            } else if i < p {
                assert(after[i] == before[i] && after[j] == before[j - 1]);
            } else if i == p {
                assert(after[j] == before[j - 1]);
                assert(outranks(x, before[p]));
                if j - 1 > p {
                    assert(!outranks(before[j - 1], before[p]));
                }
            } else {
                assert(after[i] == before[i - 1] && after[j] == before[j - 1]);
            }
        }
    }
}

impl TypeContribution {
    fn key(&self) -> (r: i128)
        ensures
            r == sort_key(self.contribution),
    {
        if self.contribution.is_nan() {
            -(SIGN_BIT as i128)
        } else if self.contribution.bits >= SIGN_BIT {
            -((self.contribution.bits - SIGN_BIT) as i128)
        } else {
            self.contribution.bits as i128
        }
    }

    /// Whether this entry comes before `other` in a ranking.
    pub fn comes_before(&self, other: &TypeContribution) -> (r: bool)
        ensures
            r == outranks(*self, *other),
    {
        let (ka, kb) = (self.key(), other.key());
        ka > kb || (ka == kb && self.count > other.count) || (ka == kb && self.count
            == other.count && self.interaction_type.declaration_index()
            < other.interaction_type.declaration_index())
    }
}

/// Puts the totals of the kinds in ranked order.
pub fn rank_contributions(totals: &[TypeContribution]) -> (r: Vec<TypeContribution>)
    ensures
        r@ == ranking(totals@),
        r@.to_multiset() == totals@.to_multiset(),
        ranked(r@),
{
    let mut out: Vec<TypeContribution> = Vec::new();
    let mut i: usize = 0;
    assert(totals@.take(0) =~= Seq::<TypeContribution>::empty());
    while i < totals.len()
        invariant
            i <= totals.len(),
            out@ == ranking(totals@.take(i as int)),
            out@.len() == i,
        decreases totals.len() - i,
    {
        let x: TypeContribution = totals[i];
        let mut p: usize = 0;
        while p < out.len() && !x.comes_before(&out[p])
            invariant
                p <= out.len(),
                place_for(out@, x, 0) == place_for(out@, x, p as int),
            decreases out.len() - p,
        {
            p = p + 1;
        }
        proof {
            assert(totals@.take(i + 1).drop_last() =~= totals@.take(i as int));
            assert(totals@.take(i + 1).last() == x);
            assert(place_for(out@, x, 0) == p);
        }
        out.insert(p, x);
        i = i + 1;
    }
    proof {
        assert(totals@.take(i as int) =~= totals@);
        lemma_ranking(totals@);
    }
    out
}

/// The `top_n` kinds that contribute most, in ranked order: by the larger
/// contribution, then by the larger number of interactions, then by the
/// earlier declaration. Fewer come back where fewer were given.
pub fn identify_top_interaction_types(totals: &[TypeContribution], top_n: usize) -> (r: Vec<
    TypeContribution,
>)
    ensures
        r@ == top(totals@, top_n as int),
        ranked(r@),
        r@.len() == if top_n <= totals@.len() {
            top_n as int
        } else {
            totals@.len() as int
        },
{
    let mut out: Vec<TypeContribution> = rank_contributions(totals);
    proof {
        lemma_ranking(totals@);
    }
    if top_n < out.len() {
        out.truncate(top_n);
    }
    out
}

} // verus!
