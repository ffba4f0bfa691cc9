//! Format checks for the fields of a contact. Every check is a pure
//! function of its arguments.

use vstd::prelude::*;
use crate::errors::{error_of, invalid, missing, DomainError, DomainErrorView};
use crate::number::{lemma_percentage, Binary64, HUNDRED_BITS, ZERO_BITS};
use crate::pattern::{accepts, is_match};
use crate::text::{
    all_tag_chars, contains_consecutive_dots, contains_control, find_last_dot, has_consecutive_dots,
    has_control, last_dot, lowercased, only_tag_chars, starts_with, trimmed,
};

verus! {

/// The shape of an e-mail address: local part, `@`, a dotted domain and a
/// top-level domain of two letters or more.
pub const EMAIL_PATTERN: &'static str = "^[a-zA-Z0-9._%+-]+@[a-zA-Z0-9.-]+\\.[a-zA-Z]{2,}$";

/// Seven to twenty digits, blanks, hyphens, brackets, plus signs and dots.
pub const PHONE_PATTERN: &'static str = "^[\\d\\s\\-\\(\\)\\+\\.]{7,20}$";

/// A LinkedIn profile address.
pub const LINKEDIN_PATTERN: &'static str = "^https?://(www\\.)?linkedin\\.com/in/[\\w\\-]+/?$";

/// The longest name, in characters.
pub const MAX_NAME_LEN: usize = 100;

/// The longest tag, in characters.
pub const MAX_TAG_LEN: usize = 50;

/// The view of an optional text.
pub open spec fn text_of(o: Option<&str>) -> Option<Seq<char>> {
    match o {
        Some(s) => Some(s@),
        None => None,
    }
}

/// The views of a sequence of strings.
pub open spec fn texts(v: Seq<String>) -> Seq<Seq<char>> {
    Seq::new(v.len(), |i: int| v[i]@)
}

// ---------------------------------------------------------------- e-mail

/// What is wrong with an e-mail address, given whether it has the shape of
/// one; `None` where nothing is.
pub open spec fn email_problem(email: Seq<char>, shape_ok: bool) -> Option<DomainErrorView> {
    if email.len() == 0 {
        Some(missing("email"@))
    } else if !shape_ok {
        Some(invalid("email"@, "Invalid email format"@))
    } else if has_consecutive_dots(email) {
        Some(invalid("email"@, "Email cannot contain consecutive dots"@))
    } else {
        None
    }
}

/// What is wrong with an e-mail address.
pub open spec fn email_verdict(email: Seq<char>) -> Option<DomainErrorView> {
    email_problem(email, accepts(EMAIL_PATTERN@, email))
}

/// Judges an e-mail address whose shape has been tested already.
pub fn check_email(email: &str, shape_ok: bool) -> (r: Result<(), DomainError>)
    ensures
        error_of(r) == email_problem(email@, shape_ok),
{
    if email.is_empty() {
        return Err(DomainError::required("email"));
    }
    if !shape_ok {
        return Err(DomainError::invalid_field("email", "Invalid email format"));
    }
    if contains_consecutive_dots(email) {
        return Err(DomainError::invalid_field("email", "Email cannot contain consecutive dots"));
    }
    Ok(())
}

/// Validates an e-mail address: not empty, of the shape `local@domain.tld`,
/// and free of consecutive dots.
pub fn validate_email(email: &str) -> (r: Result<(), DomainError>)
    ensures
        error_of(r) == email_verdict(email@),
{
    let shape_ok: bool = is_match(EMAIL_PATTERN, email);
    check_email(email, shape_ok)
}

// ----------------------------------------------------------------- phone

/// What is wrong with an optional phone number, given whether it has the
/// shape of one. An absent or empty number is in order.
pub open spec fn phone_problem(phone: Option<Seq<char>>, shape_ok: bool) -> Option<
    DomainErrorView,
> {
    match phone {
        None => None,
        Some(p) => if p.len() == 0 || shape_ok {
            None
        } else {
            Some(invalid("phone"@, "Invalid phone format"@))
        },
    }
}

/// What is wrong with an optional phone number.
pub open spec fn phone_verdict(phone: Option<Seq<char>>) -> Option<DomainErrorView> {
    phone_problem(phone, phone is Some && accepts(PHONE_PATTERN@, phone->0))
}

/// Judges a phone number whose shape has been tested already.
pub fn check_phone(phone: Option<&str>, shape_ok: bool) -> (r: Result<(), DomainError>)
    ensures
        error_of(r) == phone_problem(text_of(phone), shape_ok),
{
    match phone {
        None => Ok(()),
        Some(p) => {
            if p.is_empty() || shape_ok {
                Ok(())
            } else {
                Err(DomainError::invalid_field("phone", "Invalid phone format"))
            }
        },
    }
}

/// Validates an optional phone number.
pub fn validate_phone(phone: Option<&str>) -> (r: Result<(), DomainError>)
    ensures
        error_of(r) == phone_verdict(text_of(phone)),
{
    let shape_ok: bool = match phone {
        Some(p) => is_match(PHONE_PATTERN, p),
        None => false,
    };
    check_phone(phone, shape_ok)
}

// -------------------------------------------------------------- LinkedIn

/// What is wrong with an optional LinkedIn address, given whether it has
/// the shape of a profile address. An absent or empty one is in order.
pub open spec fn linkedin_problem(url: Option<Seq<char>>, shape_ok: bool) -> Option<
    DomainErrorView,
> {
    match url {
        None => None,
        Some(u) => if u.len() == 0 || shape_ok {
            None
        } else {
            Some(
                invalid(
                    "linkedin_url"@,
                    "Must be a valid LinkedIn profile URL (https://linkedin.com/in/username)"@,
                ),
            )
        },
    }
}

/// What is wrong with an optional LinkedIn address.
pub open spec fn linkedin_verdict(url: Option<Seq<char>>) -> Option<DomainErrorView> {
    linkedin_problem(url, url is Some && accepts(LINKEDIN_PATTERN@, url->0))
}

/// Judges a LinkedIn address whose shape has been tested already.
pub fn check_linkedin_url(url: Option<&str>, shape_ok: bool) -> (r: Result<(), DomainError>)
    ensures
        error_of(r) == linkedin_problem(text_of(url), shape_ok),
{
    match url {
        None => Ok(()),
        Some(u) => {
            if u.is_empty() || shape_ok {
                Ok(())
            } else {
                Err(
                    DomainError::invalid_field(
                        "linkedin_url",
                        "Must be a valid LinkedIn profile URL (https://linkedin.com/in/username)",
                    ),
                )
            }
        },
    }
}

/// Validates an optional LinkedIn profile address.
pub fn validate_linkedin_url(url: Option<&str>) -> (r: Result<(), DomainError>)
    ensures
        error_of(r) == linkedin_verdict(text_of(url)),
{
    let shape_ok: bool = match url {
        Some(u) => is_match(LINKEDIN_PATTERN, u),
        None => false,
    };
    check_linkedin_url(url, shape_ok)
}

// ------------------------------------------------------------------ name

/// What is wrong with a name, given what is left of it after trimming.
pub open spec fn name_problem(name: Seq<char>, stripped: Seq<char>, field: Seq<char>) -> Option<
    DomainErrorView,
> {
    if stripped.len() == 0 {
        Some(missing(field))
    } else if name.len() > MAX_NAME_LEN {
        Some(invalid(field, "Name cannot exceed 100 characters"@))
    } else if has_control(name) {
        Some(invalid(field, "Name cannot contain control characters"@))
    } else {
        None
    }
}

/// What is wrong with a name.
pub open spec fn name_verdict(name: Seq<char>, field: Seq<char>) -> Option<DomainErrorView> {
    name_problem(name, trimmed(name), field)
}

/// Judges a name of which the trimmed form is known.
pub fn check_name(name: &str, stripped: &str, field_name: &str) -> (r: Result<(), DomainError>)
    ensures
        error_of(r) == name_problem(name@, stripped@, field_name@),
{
    if stripped.is_empty() {
        return Err(DomainError::required(field_name));
    }
    if name.unicode_len() > MAX_NAME_LEN {
        return Err(DomainError::invalid_field(field_name, "Name cannot exceed 100 characters"));
    }
    if contains_control(name) {
        return Err(
            DomainError::invalid_field(field_name, "Name cannot contain control characters"),
        );
    }
    Ok(())
}

/// Validates a first or last name: something besides white space, at most
/// a hundred characters, no control codes. The error names `field_name`.
pub fn validate_name(name: &str, field_name: &str) -> (r: Result<(), DomainError>)
    ensures
        error_of(r) == name_verdict(name@, field_name@),
{
    check_name(name, name.trim(), field_name)
}

// ------------------------------------------------------------------- tag

/// The stored form of a tag: trimmed, then lower case.
pub open spec fn normalized_tag(raw: Seq<char>) -> Seq<char> {
    lowercased(trimmed(raw))
}

/// Whether a text is the stored form of some raw tag.
pub open spec fn is_stored_tag(tag: Seq<char>) -> bool {
    exists|raw: Seq<char>| tag == #[trigger] normalized_tag(raw)
}

/// What is wrong with a tag in its stored form.
pub open spec fn tag_problem(tag: Seq<char>) -> Option<DomainErrorView> {
    if tag.len() == 0 {
        Some(invalid("tag"@, "Tag cannot be empty"@))
    } else if tag.len() > MAX_TAG_LEN {
        Some(invalid("tag"@, "Tag cannot exceed 50 characters"@))
    } else if !all_tag_chars(tag) {
        Some(invalid("tag"@, "Tag can only contain letters, numbers, hyphens, and underscores"@))
    } else {
        None
    }
}

/// Judges a tag in its stored form, and hands it back where it is in order.
pub fn check_tag(normalized: String) -> (r: Result<String, DomainError>)
    ensures
        error_of(r) == tag_problem(normalized@),
        r matches Ok(t) ==> t@ == normalized@,
{
    if normalized.as_str().is_empty() {
        return Err(DomainError::invalid_field("tag", "Tag cannot be empty"));
    }
    if normalized.as_str().unicode_len() > MAX_TAG_LEN {
        return Err(DomainError::invalid_field("tag", "Tag cannot exceed 50 characters"));
    }
    if !only_tag_chars(normalized.as_str()) {
        return Err(
            DomainError::invalid_field(
                "tag",
                "Tag can only contain letters, numbers, hyphens, and underscores",
            ),
        );
    }
    Ok(normalized)
}

/// Validates a tag and returns its stored form.
pub fn validate_tag(tag: &str) -> (r: Result<String, DomainError>)
    ensures
        error_of(r) == tag_problem(normalized_tag(tag@)),
        r matches Ok(t) ==> t@ == normalized_tag(tag@),
{
    check_tag(tag.trim().to_lowercase())
}

// ------------------------------------------------------------------ tags

/// The error of the first tag that is not in order, if there is one.
pub open spec fn first_tag_problem(tags: Seq<Seq<char>>) -> Option<DomainErrorView>
    decreases tags.len(),
{
    if tags.len() == 0 {
        None
    } else if tag_problem(normalized_tag(tags[0])) is Some {
        tag_problem(normalized_tag(tags[0]))
    } else {
        first_tag_problem(tags.drop_first())
    }
}

/// The texts of `s` without repetitions, each at the place of its first
/// occurrence.
pub open spec fn distinct(s: Seq<Seq<char>>) -> Seq<Seq<char>>
    decreases s.len(),
{
    if s.len() == 0 {
        s
    } else {
        let before = distinct(s.drop_last());
        if before.contains(s.last()) {
            before
        } else {
            before.push(s.last())
        }
    }
}

/// The stored forms of a list of raw tags, in order, repetitions included.
pub open spec fn normalized_tags(tags: Seq<Seq<char>>) -> Seq<Seq<char>> {
    Seq::new(tags.len(), |i: int| normalized_tag(tags[i]))
}

/// `distinct` holds no text twice, and holds the texts of its argument.
pub proof fn lemma_distinct(s: Seq<Seq<char>>)
    ensures
        distinct(s).no_duplicates(),
        forall|t: Seq<char>| #[trigger] distinct(s).contains(t) <==> s.contains(t),
        distinct(s).len() <= s.len(),
    decreases s.len(),
{
    if s.len() > 0 {
        let head = s.drop_last();
        let last = s.last();
        lemma_distinct(head);
        let before = distinct(head);
        let after = distinct(s);
        assert(after == if before.contains(last) {
            before
        } else {
            before.push(last)
        });
        assert forall|t: Seq<char>| #[trigger] after.contains(t) <==> s.contains(t) by {
            assert(before.contains(t) <==> head.contains(t));
            if s.contains(t) {
                let i = choose|i: int| 0 <= i < s.len() && s[i] == t;
                if i < s.len() - 1 {
                    assert(head[i] == t);
                    assert(head.contains(t));
                    let j = choose|j: int| 0 <= j < before.len() && before[j] == t;
                    assert(after[j] == t);
                } else {
                    assert(t == last);
                    if !before.contains(last) {
                        assert(after[before.len() as int] == t);
                    }
                }
                assert(after.contains(t));
            }
            if after.contains(t) {
                let j = choose|j: int| 0 <= j < after.len() && after[j] == t;
                if j < before.len() {
                    assert(before[j] == t);
                    assert(before.contains(t));
                    let i = choose|i: int| 0 <= i < head.len() && head[i] == t;
                    assert(s[i] == t);
                } else {
                    assert(s[s.len() - 1] == t);
                }
                assert(s.contains(t));
            }
        }
    }
}

/// A list of raw tags has no first problem exactly when every one of them
/// is in order in its stored form.
pub proof fn lemma_first_tag_problem(tags: Seq<Seq<char>>)
    ensures
        first_tag_problem(tags) is None <==> forall|i: int|
            0 <= i < tags.len() ==> tag_problem(normalized_tag(#[trigger] tags[i])) is None,
    decreases tags.len(),
{
    if tags.len() > 0 {
        let rest = tags.drop_first();
        lemma_first_tag_problem(rest);
        if first_tag_problem(tags) is None {
            assert forall|i: int| 0 <= i < tags.len() implies tag_problem(
                normalized_tag(#[trigger] tags[i]),
            ) is None by {
                if i > 0 {
                    assert(rest[i - 1] == tags[i]);
                }
            }
        }
        if forall|i: int|
            0 <= i < tags.len() ==> tag_problem(normalized_tag(#[trigger] tags[i])) is None {
            assert(tag_problem(normalized_tag(tags[0])) is None);
            assert forall|i: int| 0 <= i < rest.len() implies tag_problem(
                normalized_tag(#[trigger] rest[i]),
            ) is None by {
                assert(rest[i] == tags[i + 1]);
            }
        }
    }
}

/// Whether a list of strings holds a text.
pub fn holds(list: &Vec<String>, wanted: &String) -> (r: bool)
    ensures
        r == texts(list@).contains(wanted@),
{
    let mut i: usize = 0;
    while i < list.len()
        invariant
            i <= list.len(),
            forall|j: int| 0 <= j < i ==> texts(list@)[j] != wanted@,
        decreases list.len() - i,
    {
        if list[i] == *wanted {
            assert(texts(list@)[i as int] == wanted@);
            return true;
        }
        i = i + 1;
    }
    false
}

/// Validates every tag of a list, in order, and returns their stored forms
/// without repetitions, each at the place where it first occurred. The
/// first tag that is not in order decides the error.
pub fn validate_tags(tags: &[String]) -> (r: Result<Vec<String>, DomainError>)
    ensures
        error_of(r) == first_tag_problem(texts(tags@)),
        r matches Ok(v) ==> texts(v@) == distinct(normalized_tags(texts(tags@))),
{
    let mut out: Vec<String> = Vec::new();
    let mut i: usize = 0;
    assert(texts(tags@).skip(0) =~= texts(tags@));
    assert(normalized_tags(texts(tags@)).take(0) =~= Seq::<Seq<char>>::empty());
    assert(texts(out@) =~= Seq::<Seq<char>>::empty());
    while i < tags.len()
        invariant
            i <= tags.len(),
            first_tag_problem(texts(tags@)) == first_tag_problem(texts(tags@).skip(i as int)),
            texts(out@) == distinct(normalized_tags(texts(tags@)).take(i as int)),
        decreases tags.len() - i,
    {
        let ghost rest = texts(tags@).skip(i as int);
        let ghost all = normalized_tags(texts(tags@));
        assert(rest[0] == tags@[i as int]@);
        assert(rest.drop_first() =~= texts(tags@).skip(i + 1));
        assert(all.take(i + 1).drop_last() =~= all.take(i as int));
        assert(all.take(i + 1).last() == normalized_tag(tags@[i as int]@));
        match validate_tag(tags[i].as_str()) {
            Err(e) => {
                return Err(e);
            },
            Ok(tag) => {
                if !holds(&out, &tag) {
                    let ghost before = texts(out@);
                    out.push(tag);
                    assert(texts(out@) =~= before.push(tag@));
                }
            },
        }
        i = i + 1;
    }
    assert(normalized_tags(texts(tags@)).take(i as int) =~= normalized_tags(texts(tags@)));
    Ok(out)
}

// ------------------------------------------------------------------ score

/// What is wrong with a score: anything but a number from 0 to 100.
pub open spec fn score_problem(score: Binary64) -> Option<DomainErrorView> {
    if score.is_percentage() {
        None
    } else {
        Some(
            invalid(
                "engagement_score"@,
                "Engagement score must be between 0.0 and 100.0 (inclusive)"@,
            ),
        )
    }
}

/// Validates a score strictly: NaN, the infinities and whatever lies
/// outside the interval from 0 to 100 are refused, nothing is clamped.
pub fn validate_engagement_score(score: Binary64) -> (r: Result<(), DomainError>)
    ensures
        error_of(r) == score_problem(score),
{
    let zero = Binary64 { bits: ZERO_BITS };
    let hundred = Binary64 { bits: HUNDRED_BITS };
    proof {
        lemma_percentage(score);
    }
    if score.is_nan() || score.is_infinite() || score.lt(zero) || score.gt(hundred) {
        return Err(
            DomainError::invalid_field(
                "engagement_score",
                "Engagement score must be between 0.0 and 100.0 (inclusive)",
            ),
        );
    }
    Ok(())
}

// -------------------------------------------------------- company domain

/// Whether a domain begins with a web protocol.
pub open spec fn has_protocol_prefix(d: Seq<char>) -> bool {
    "http://"@.is_prefix_of(d) || "https://"@.is_prefix_of(d)
}

/// The number of characters after the last full stop of a text (all of
/// them where there is none).
pub open spec fn tld_len(d: Seq<char>) -> int {
    d.len() - 1 - last_dot(d)
}

/// What is wrong with an optional company domain. An absent one is in
/// order; a present one carries no protocol, holds a full stop, and ends in
/// two to ten characters after the last one.
pub open spec fn domain_problem(domain: Option<Seq<char>>) -> Option<DomainErrorView> {
    match domain {
        None => None,
        Some(d) => if has_protocol_prefix(d) {
            Some(invalid("company_domain"@, "Company domain cannot have protocol prefix"@))
        } else if last_dot(d) == -1 || tld_len(d) < 2 || tld_len(d) > 10 {
            Some(
                invalid(
                    "company_domain"@,
                    "Company domain must have at least one dot and a valid TLD"@,
                ),
            )
        } else {
            None
        },
    }
}

/// Refuses a domain that begins with `http://` or `https://`; `None` where
/// it begins with neither.
pub fn validate_company_domain_protocol(d: &str) -> (r: Option<Result<(), DomainError>>)
    ensures
        r is Some <==> has_protocol_prefix(d@),
        r matches Some(v) ==> error_of(v) == Some(
            invalid("company_domain"@, "Company domain cannot have protocol prefix"@),
        ),
{
    if starts_with(d, "http://") || starts_with(d, "https://") {
        return Some(
            Err(
                DomainError::invalid_field(
                    "company_domain",
                    "Company domain cannot have protocol prefix",
                ),
            ),
        );
    }
    None
}

/// Validates an optional company domain.
pub fn validate_company_domain(domain: Option<&str>) -> (r: Result<(), DomainError>)
    ensures
        error_of(r) == domain_problem(text_of(domain)),
{
    match domain {
        None => Ok(()),
        Some(d) => {
            if let Some(refusal) = validate_company_domain_protocol(d) {
                return refusal;
            }
            let n: usize = d.unicode_len();
            let valid: bool = match find_last_dot(d) {
                None => false,
                Some(dot) => n - 1 - dot >= 2 && n - 1 - dot <= 10,
            };
            if !valid {
                return Err(
                    DomainError::invalid_field(
                        "company_domain",
                        "Company domain must have at least one dot and a valid TLD",
                    ),
                );
            }
            Ok(())
        },
    }
}

} // verus!
