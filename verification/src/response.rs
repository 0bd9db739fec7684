//! What a bridge answers to a call, and what the answer means.
//!
//! A bridge answers with a list of sections, each reporting a success or a
//! failure. A single success makes the call a success, whatever failures are
//! reported beside it.

use crate::error::{ApiError, ApiErrorView};
use vstd::hash_map::StringHashMap;
use vstd::prelude::*;

verus! {

/// A value in the payload of a success.
#[derive(Debug, PartialEq, Eq)]
pub enum PayloadValue {
    /// A JSON string, held by its content.
    Text(String),
    /// Any other JSON value, held by its JSON text.
    Json(String),
}

/// Mathematical content of a [`PayloadValue`].
pub enum PayloadValueView {
    Text(Seq<char>),
    Json(Seq<char>),
}

impl PayloadValueView {
    /// The value as text: a string is its content, anything else its JSON text.
    pub open spec fn text(self) -> Seq<char> {
        match self {
            PayloadValueView::Text(content) => content,
            PayloadValueView::Json(encoded) => encoded,
        }
    }
}

impl View for PayloadValue {
    type V = PayloadValueView;

    open spec fn view(&self) -> PayloadValueView {
        match *self {
            PayloadValue::Text(content) => PayloadValueView::Text(content@),
            PayloadValue::Json(encoded) => PayloadValueView::Json(encoded@),
        }
    }
}

impl PayloadValue {
    /// The value as text: a string is its content, anything else its JSON text.
    pub fn to_text(&self) -> (text: String)
        ensures
            text@ == self@.text(),
    {
        match self {
            PayloadValue::Text(content) => content.clone(),
            PayloadValue::Json(encoded) => encoded.clone(),
        }
    }
}

/// What a success carries: values by their keys.
pub struct Payload {
    entries: StringHashMap<PayloadValue>,
}

impl View for Payload {
    type V = Map<Seq<char>, PayloadValueView>;

    closed spec fn view(&self) -> Map<Seq<char>, PayloadValueView> {
        self.entries@.map_values(|value: PayloadValue| value@)
    }
}

impl Payload {
    /// A payload without entries.
    pub fn new() -> (payload: Self)
        ensures
            payload@ == Map::<Seq<char>, PayloadValueView>::empty(),
    {
        Payload { entries: StringHashMap::new() }
    }

    /// Puts `value` under `key`, in place of what was there.
    pub fn insert(&mut self, key: String, value: PayloadValue)
        ensures
            final(self)@ == old(self)@.insert(key@, value@),
    {
        self.entries.insert(key, value);
    }

    /// The value under `key`, if there is one.
    pub fn get(&self, key: &str) -> (found: Option<&PayloadValue>)
        ensures
            match found {
                Some(value) => self@.contains_key(key@) && value@ == self@[key@],
                None => !self@.contains_key(key@),
            },
    {
        self.entries.get(key)
    }
}

/// One section of a bridge's answer.
pub enum ApiResponseSection {
    /// The bridge reports a failure.
    Error(ApiError),
    /// The bridge reports a success.
    Success(Payload),
}

/// Mathematical content of an [`ApiResponseSection`].
pub enum SectionView {
    Error(ApiErrorView),
    Success(Map<Seq<char>, PayloadValueView>),
}

impl View for ApiResponseSection {
    type V = SectionView;

    open spec fn view(&self) -> SectionView {
        match *self {
            ApiResponseSection::Error(error) => SectionView::Error(error@),
            ApiResponseSection::Success(payload) => SectionView::Success(payload@),
        }
    }
}

impl DeepView for ApiResponseSection {
    type V = SectionView;

    open spec fn deep_view(&self) -> SectionView {
        self@
    }
}

/// The key under which a registration reports the new user.
pub open spec fn username_key() -> Seq<char> {
    "username"@
}

/// The user that a section reports: the value under the user key of a success, as text.
pub open spec fn username_in(section: SectionView) -> Option<Seq<char>> {
    match section {
        SectionView::Success(payload) => {
            if payload.contains_key(username_key()) {
                Some(payload[username_key()].text())
            } else {
                None
            }
        },
        SectionView::Error(_) => None,
    }
}

/// The user that the first section reporting one reports.
pub open spec fn first_username(sections: Seq<SectionView>) -> Option<Seq<char>>
    decreases sections.len(),
{
    if sections.len() == 0 {
        None
    } else {
        match username_in(sections[0]) {
            Some(user) => Some(user),
            None => first_username(sections.drop_first()),
        }
    }
}

/// The failure that a section reports, if it reports one.
pub open spec fn failure_in(section: SectionView) -> Option<ApiErrorView> {
    match section {
        SectionView::Error(error) => Some(error),
        SectionView::Success(_) => None,
    }
}

/// The failures that the sections report, in the order of the sections.
pub open spec fn reported_errors(sections: Seq<SectionView>) -> Seq<ApiErrorView> {
    sections.filter_map(|section: SectionView| failure_in(section))
}

/// Whether any section reports a success.
pub open spec fn has_success(sections: Seq<SectionView>) -> bool {
    exists|i: int| 0 <= i < sections.len() && sections[i] is Success
}

/// What the answer to a registration means: the new user, or the failures reported.
pub open spec fn registration_outcome(sections: Seq<SectionView>) -> Result<
    Seq<char>,
    Seq<ApiErrorView>,
> {
    match first_username(sections) {
        Some(user) => Ok(user),
        None => Err(reported_errors(sections)),
    }
}

/// What the answer to a change means: done, or the failures reported.
pub open spec fn mutation_outcome(sections: Seq<SectionView>) -> Result<(), Seq<ApiErrorView>> {
    if has_success(sections) {
        Ok(())
    } else {
        Err(reported_errors(sections))
    }
}

/// Reads the answer to a registration. The first section that reports a user
/// decides: the call succeeded, and the failures beside it do not count. With
/// no such section the call failed with the failures reported, which may be none.
pub fn interpret_registration(sections: &[ApiResponseSection]) -> (outcome: Result<
    String,
    Vec<ApiError>,
>)
    ensures
        match registration_outcome(sections.deep_view()) {
            Ok(user) => outcome is Ok && outcome->Ok_0@ == user,
            Err(errors) => outcome is Err && outcome->Err_0.deep_view() == errors,
        },
{
    let ghost all = sections.deep_view();
    let mut errors: Vec<ApiError> = Vec::new();
    let mut i: usize = 0;
    assert(all.skip(0) =~= all);
    while i < sections.len()
        invariant
            i <= sections.len(),
            all == sections.deep_view(),
            first_username(all) == first_username(all.skip(i as int)),
            errors.deep_view() == reported_errors(all.take(i as int)),
        decreases sections.len() - i,
    {
        assert(all.skip(i as int).drop_first() =~= all.skip(i + 1));
        assert(all.take(i + 1).drop_last() =~= all.take(i as int));
        match &sections[i] {
            ApiResponseSection::Error(error) => {
                errors.push(error.clone());
            },
            ApiResponseSection::Success(payload) => {
                match payload.get("username") {
                    Some(value) => {
                        return Ok(value.to_text());
                    },
                    None => {},
                }
            },
        }
        i += 1;
    }
    Err(errors)
}

/// Reads the answer to a change of a lamp. Any section that reports a success
/// makes the call a success, whatever it carries and whatever failures stand
/// beside it. With no such section the call failed with the failures
/// reported, which may be none.
pub fn interpret_mutation(sections: &[ApiResponseSection]) -> (outcome: Result<(), Vec<ApiError>>)
    ensures
        outcome is Ok <==> has_success(sections.deep_view()),
        match mutation_outcome(sections.deep_view()) {
            Ok(_) => outcome is Ok,
            Err(errors) => outcome is Err && outcome->Err_0.deep_view() == errors,
        },
{
    let ghost all = sections.deep_view();
    let mut errors: Vec<ApiError> = Vec::new();
    let mut i: usize = 0;
    while i < sections.len()
        invariant
            i <= sections.len(),
            all == sections.deep_view(),
            forall|k: int| 0 <= k < i ==> !(all[k] is Success),
            errors.deep_view() == reported_errors(all.take(i as int)),
        decreases sections.len() - i,
    {
        assert(all.take(i + 1).drop_last() =~= all.take(i as int));
        match &sections[i] {
            ApiResponseSection::Error(error) => {
                errors.push(error.clone());
            },
            ApiResponseSection::Success(_) => {
                assert(all[i as int] is Success);
                return Ok(());
            },
        }
        i += 1;
    }
    assert(all.take(i as int) =~= all);
    Err(errors)
}

/// One success among the sections makes a change a success, however many
/// failures are reported beside it.
pub proof fn lemma_any_success_wins(sections: Seq<SectionView>, at: int)
    requires
        0 <= at < sections.len(),
        sections[at] is Success,
    ensures
        mutation_outcome(sections) == Ok::<(), Seq<ApiErrorView>>(()),
{
}

/// Where every section reports a failure, all of them are reported, each at
/// the place of its section; a change then fails with exactly these.
pub proof fn lemma_only_errors_all_reported(sections: Seq<SectionView>)
    requires
        forall|i: int| 0 <= i < sections.len() ==> sections[i] is Error,
    ensures
        reported_errors(sections).len() == sections.len(),
        forall|i: int|
            0 <= i < sections.len() ==> reported_errors(sections)[i] == sections[i]->Error_0,
        mutation_outcome(sections) == Err::<(), Seq<ApiErrorView>>(reported_errors(sections)),
    decreases sections.len(),
{
    if sections.len() > 0 {
        lemma_only_errors_all_reported(sections.drop_last());
    }
}

/// A success that reports a user decides a registration, wherever it stands
/// among the sections, unless a section before it reports another user:
/// failures before it, and successes that report no user, do not matter.
pub proof fn lemma_reported_user_wins(sections: Seq<SectionView>, at: int, user: Seq<char>)
    requires
        0 <= at < sections.len(),
        username_in(sections[at]) == Some(user),
        forall|j: int|
            0 <= j < at && username_in(sections[j]) is Some ==> username_in(sections[j]) == Some(
                user,
            ),
    ensures
        registration_outcome(sections) == Ok::<Seq<char>, Seq<ApiErrorView>>(user),
    decreases sections.len(),
{
    if at > 0 && username_in(sections[0]) is None {
        lemma_reported_user_wins(sections.drop_first(), at - 1, user);
    }
}

} // verus!
