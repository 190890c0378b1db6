//! Compound identifiers and the references that are told apart by them.

use crate::error::FormatError;
use crate::text::{
    find_char, first_index_of, is_first_index_of, lemma_first_index_exists,
    lemma_first_index_is_unique, lemma_take_is_free,
};
use vstd::prelude::*;
use vstd::std_specs::cmp::PartialEqSpecImpl;
use vstd::string::*;

verus! {

/// The character that joins the two parts of a compound identifier.
pub const SEPARATOR: char = '.';

/// A part of a compound identifier: not empty, and free of the separator.
pub open spec fn is_part(part: Seq<char>) -> bool {
    part.len() > 0 && !part.contains(SEPARATOR)
}

/// The text that names the pair `(first, second)`.
pub open spec fn joined(first: Seq<char>, second: Seq<char>) -> Seq<char> {
    first + seq![SEPARATOR] + second
}

/// The two parts that `text` names, or the reason it names none.
///
/// A text names a pair when it holds exactly one separator, with at least one
/// character on each side of it.
pub open spec fn split_compound(text: Seq<char>) -> Result<(Seq<char>, Seq<char>), FormatError> {
    match first_index_of(text, SEPARATOR) {
        None => Err(FormatError::MissingSeparator),
        Some(at) => {
            let first = text.take(at);
            let second = text.skip(at + 1);
            if second.contains(SEPARATOR) {
                Err(FormatError::ExtraSeparator)
            } else if first.len() == 0 || second.len() == 0 {
                Err(FormatError::EmptyPart)
            } else {
                Ok((first, second))
            }
        },
    }
}

/// The two runway ends that together name one physical runway.
#[derive(Debug, Clone, Eq, Hash)]
pub struct RunwayId(pub String, pub String);

impl PartialEq for RunwayId {
    fn eq(&self, other: &Self) -> (equal: bool) {
        self.0 == other.0 && self.1 == other.1
    }
}

impl PartialEqSpecImpl for RunwayId {
    open spec fn obeys_eq_spec() -> bool {
        true
    }

    open spec fn eq_spec(&self, other: &Self) -> bool {
        self.0@ == other.0@ && self.1@ == other.1@
    }
}

impl View for RunwayId {
    type V = (Seq<char>, Seq<char>);

    open spec fn view(&self) -> (Seq<char>, Seq<char>) {
        (self.0@, self.1@)
    }
}

/// What a decoding of a runway identifier gave, with the identifier taken by its view.
pub open spec fn runway_id_outcome(outcome: Result<RunwayId, FormatError>) -> Result<
    (Seq<char>, Seq<char>),
    FormatError,
> {
    match outcome {
        Ok(id) => Ok(id@),
        Err(e) => Err(e),
    }
}

impl RunwayId {
    /// Both parts are parts of a compound identifier.
    pub open spec fn wf(&self) -> bool {
        is_part(self.0@) && is_part(self.1@)
    }

    /// Decodes a compound identifier such as `09L.27R`.
    pub fn parse(text: String) -> (outcome: Result<RunwayId, FormatError>)
        ensures
            runway_id_outcome(outcome) == split_compound(text@),
            outcome matches Ok(id) ==> id.wf() && text@ == joined(id.0@, id.1@),
    {
        let whole = text.as_str();
        match find_char(whole, SEPARATOR) {
            None => Err(FormatError::MissingSeparator),
            Some(at) => {
                proof {
                    lemma_first_index_is_unique(whole@, SEPARATOR, at as int);
                }
                let length = whole.unicode_len();
                let first = whole.substring_char(0, at);
                let second = whole.substring_char(at + 1, length);
                assert(first@ == whole@.take(at as int));
                assert(second@ == whole@.skip(at + 1));
                if find_char(second, SEPARATOR).is_some() {
                    Err(FormatError::ExtraSeparator)
                } else if at == 0 || at + 1 == length {
                    Err(FormatError::EmptyPart)
                } else {
                    proof {
                        lemma_take_is_free(whole@, SEPARATOR, at as int);
                        assert(whole@ =~= joined(first@, second@));
                    }
                    Ok(RunwayId(first.to_owned(), second.to_owned()))
                }
            },
        }
    }

    /// The text that names this identifier: its parts, joined by the separator.
    pub fn to_string(&self) -> (text: String)
        ensures
            text@ == joined(self.0@, self.1@),
    {
        proof {
            reveal_strlit(".");
        }
        let text = self.0.clone().concat(".").concat(self.1.as_str());
        assert(text@ =~= joined(self.0@, self.1@));
        text
    }
}

/// A text made of two parts and a separator between them names exactly those
/// two parts.
pub proof fn lemma_split_of_joined(first: Seq<char>, second: Seq<char>)
    requires
        is_part(first),
        is_part(second),
    ensures
        split_compound(joined(first, second)) == Ok::<_, FormatError>((first, second)),
{
    let text = joined(first, second);
    let at = first.len() as int;
    assert(text[at] == SEPARATOR);
    assert forall|j: int| 0 <= j < at implies text[j] != SEPARATOR by {
        assert(text[j] == first[j]);
        assert(first.contains(first[j]));
    }
    assert(is_first_index_of(text, SEPARATOR, at));
    lemma_first_index_is_unique(text, SEPARATOR, at);
    assert(text.take(at) =~= first);
    assert(text.skip(at + 1) =~= second);
}

/// A text without a separator names no pair.
pub proof fn lemma_split_needs_separator(text: Seq<char>)
    requires
        !text.contains(SEPARATOR),
    ensures
        split_compound(text) == Err::<(Seq<char>, Seq<char>), _>(FormatError::MissingSeparator),
{
}

/// A text names at most one pair, and the pair it names is made of parts.
pub proof fn lemma_split_is_sound(text: Seq<char>)
    ensures
        split_compound(text) matches Ok(pair) ==> is_part(pair.0) && is_part(pair.1) && text
            == joined(pair.0, pair.1),
{
    if let Ok(pair) = split_compound(text) {
        let at = first_index_of(text, SEPARATOR).unwrap();
        lemma_first_index_exists(text, SEPARATOR);
        lemma_take_is_free(text, SEPARATOR, at);
        assert(text =~= joined(pair.0, pair.1));
    }
}

/// A text names a pair exactly when it is made of two parts and a separator
/// between them.
pub proof fn lemma_split_succeeds_iff(text: Seq<char>)
    ensures
        split_compound(text) is Ok <==> exists|first: Seq<char>, second: Seq<char>|
            is_part(first) && is_part(second) && text == #[trigger] joined(first, second),
{
    lemma_split_is_sound(text);
    if let Ok(pair) = split_compound(text) {
        assert(is_part(pair.0) && is_part(pair.1) && text == joined(pair.0, pair.1));
    }
    if exists|first: Seq<char>, second: Seq<char>|
        is_part(first) && is_part(second) && text == #[trigger] joined(first, second) {
        let (first, second) = choose|first: Seq<char>, second: Seq<char>|
            is_part(first) && is_part(second) && text == #[trigger] joined(first, second);
        lemma_split_of_joined(first, second);
    }
}

/// Each fault of a text is owed to the separators in it: to none, to more
/// than one, or to one at either end of the text.
pub proof fn lemma_split_faults(text: Seq<char>)
    ensures
        split_compound(text) == Err::<(Seq<char>, Seq<char>), _>(FormatError::MissingSeparator)
            <==> !text.contains(SEPARATOR),
        split_compound(text) == Err::<(Seq<char>, Seq<char>), _>(FormatError::ExtraSeparator)
            <==> exists|i: int, j: int|
            0 <= i < j < text.len() && text[i] == SEPARATOR && text[j] == SEPARATOR,
        split_compound(text) == Err::<(Seq<char>, Seq<char>), _>(FormatError::EmptyPart) <==> {
            &&& text.contains(SEPARATOR)
            &&& !(exists|i: int, j: int|
                0 <= i < j < text.len() && text[i] == SEPARATOR && text[j] == SEPARATOR)
            &&& (text[0] == SEPARATOR || text[text.len() - 1] == SEPARATOR)
        },
{
    if text.contains(SEPARATOR) {
        lemma_first_index_exists(text, SEPARATOR);
        let at = first_index_of(text, SEPARATOR).unwrap();
        let second = text.skip(at + 1);
        if second.contains(SEPARATOR) {
            let k = choose|k: int| 0 <= k < second.len() && second[k] == SEPARATOR;
            assert(text[at + 1 + k] == SEPARATOR);
            assert(0 <= at < at + 1 + k < text.len());
        } else {
            assert forall|i: int, j: int|
                0 <= i < j < text.len() && text[i] == SEPARATOR implies text[j] != SEPARATOR by {
                assert(i >= at);
                assert(second[j - at - 1] == text[j]);
                assert(second.contains(second[j - at - 1]));
            }
            if text[text.len() - 1] == SEPARATOR && at != text.len() - 1 {
                assert(second[text.len() - 1 - at - 1] == text[text.len() - 1]);
                assert(second.contains(second[text.len() - 1 - at - 1]));
            }
        }
    }
}

/// What a holding position guards: a taxiway, or a runway given by its two ends.
#[derive(Debug, Clone, Eq, Hash)]
pub enum HoldingPointTarget {
    Taxiway(String),
    Runway(RunwayId),
}

impl PartialEq for HoldingPointTarget {
    fn eq(&self, other: &Self) -> (equal: bool) {
        match (self, other) {
            (HoldingPointTarget::Taxiway(name), HoldingPointTarget::Taxiway(other_name)) => *name
                == *other_name,
            (HoldingPointTarget::Runway(id), HoldingPointTarget::Runway(other_id)) => *id
                == *other_id,
            _ => false,
        }
    }
}

impl PartialEqSpecImpl for HoldingPointTarget {
    open spec fn obeys_eq_spec() -> bool {
        true
    }

    open spec fn eq_spec(&self, other: &Self) -> bool {
        self@ == other@
    }
}

/// The mathematical value of a [`HoldingPointTarget`].
pub enum HoldingPointTargetView {
    Taxiway(Seq<char>),
    Runway((Seq<char>, Seq<char>)),
}

impl View for HoldingPointTarget {
    type V = HoldingPointTargetView;

    open spec fn view(&self) -> HoldingPointTargetView {
        match self {
            HoldingPointTarget::Taxiway(name) => HoldingPointTargetView::Taxiway(name@),
            HoldingPointTarget::Runway(id) => HoldingPointTargetView::Runway(id@),
        }
    }
}

/// The target that `text` refers to: a runway where the text holds the
/// separator, and then only if it names a pair; else the taxiway of that name.
pub open spec fn resolve_target(text: Seq<char>) -> Result<HoldingPointTargetView, FormatError> {
    if text.contains(SEPARATOR) {
        match split_compound(text) {
            Ok(pair) => Ok(HoldingPointTargetView::Runway(pair)),
            Err(e) => Err(e),
        }
    } else {
        Ok(HoldingPointTargetView::Taxiway(text))
    }
}

/// What a decoding of a target gave, with the target taken by its view.
pub open spec fn target_outcome(outcome: Result<HoldingPointTarget, FormatError>) -> Result<
    HoldingPointTargetView,
    FormatError,
> {
    match outcome {
        Ok(target) => Ok(target@),
        Err(e) => Err(e),
    }
}

/// A text made of two parts and a separator between them refers to the runway
/// of those two parts.
pub proof fn lemma_target_of_joined(first: Seq<char>, second: Seq<char>)
    requires
        is_part(first),
        is_part(second),
    ensures
        resolve_target(joined(first, second)) == Ok::<_, FormatError>(
            HoldingPointTargetView::Runway((first, second)),
        ),
{
    lemma_split_of_joined(first, second);
    let text = joined(first, second);
    assert(text[first.len() as int] == SEPARATOR);
}

/// A text without a separator refers to the taxiway of that name.
pub proof fn lemma_target_without_separator(text: Seq<char>)
    requires
        !text.contains(SEPARATOR),
    ensures
        resolve_target(text) == Ok::<_, FormatError>(HoldingPointTargetView::Taxiway(text)),
{
}

impl HoldingPointTarget {
    /// Decodes a reference by its shape: with a separator it is a runway
    /// identifier, without one the name of a taxiway.
    pub fn parse(text: String) -> (outcome: Result<HoldingPointTarget, FormatError>)
        ensures
            target_outcome(outcome) == resolve_target(text@),
    {
        if find_char(text.as_str(), SEPARATOR).is_some() {
            match RunwayId::parse(text) {
                Ok(id) => Ok(HoldingPointTarget::Runway(id)),
                Err(e) => Err(e),
            }
        } else {
            Ok(HoldingPointTarget::Taxiway(text))
        }
    }
}

} // verus!
