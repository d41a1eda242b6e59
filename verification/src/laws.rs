//! Laws relating the classifiers, the category table and the profiles,
//! stated over the spec-level models and proved once for every byte value.

use vstd::prelude::*;
use crate::categories::is_ws;
use crate::categories::is_qtext;
use crate::categories::is_qtext_ws;
use crate::categories::is_dquote_or_escape;
use crate::quoting::QuotingClass;
use crate::quoting::restricted_class;
use crate::quoting::extended_class;
use crate::profiles::ParserState;
use crate::profiles::FwsState;
use crate::profiles::GrammarError;
use crate::profiles::spec_handle_normal;
use crate::profiles::spec_advance;
use crate::profiles::obs_can_be_quoted;
use crate::profiles::modern_can_be_quoted;

verus! {

/// How restrictive a quoting class is: quoted text is weakest, an invalid
/// unit strongest.
pub open spec fn strictness(c: QuotingClass) -> int {
    match c {
        QuotingClass::QText => 0,
        QuotingClass::NeedsQuoting => 1,
        QuotingClass::Invalid => 2,
    }
}

/// Totality: both classifiers place every byte value in exactly one of the
/// three classes, and the extended classifier never yields `Invalid`.
pub proof fn lemma_classify_total(v: u8)
    ensures
        restricted_class(v) is QText || restricted_class(v) is NeedsQuoting || restricted_class(
            v,
        ) is Invalid,
        extended_class(v) is QText || extended_class(v) is NeedsQuoting,
{
}

/// Consistency: every value in the qtext-or-whitespace category is
/// classified as quoted text by the restricted classifier.
pub proof fn lemma_restricted_consistent(v: u8)
    ensures
        is_qtext_ws(v) ==> restricted_class(v) is QText,
{
}

/// Monotonic widening: the extended classifier is never stricter than the
/// restricted one; in particular it never rejects what the restricted one
/// accepts, and quoted text stays quoted text.
pub proof fn lemma_extended_widens(v: u8)
    ensures
        strictness(extended_class(v)) <= strictness(restricted_class(v)),
        restricted_class(v) is QText ==> extended_class(v) is QText,
        restricted_class(v) !is Invalid ==> extended_class(v) !is Invalid,
{
}

/// Predicate agreement: both obsolete profiles share one quoted-pair
/// predicate, which holds exactly of the US-ASCII values, and both modern
/// profiles share one, which holds exactly of the values in whitespace,
/// qtext or the quote-delimiter-or-escape category.
pub proof fn lemma_predicate_agreement(v: u8)
    ensures
        obs_can_be_quoted(v) == (v <= 0x7f),
        modern_can_be_quoted(v) == (is_ws(v) || is_qtext(v) || is_dquote_or_escape(v)),
{
}

/// A non-ASCII unit in normal state is rejected as an illegal code unit
/// exactly when the profile forbids non-ASCII free text; otherwise it is
/// emitted as quoted text.
pub proof fn lemma_non_ascii_normal(v: u8)
    ensures
        v > 0x7f ==> spec_handle_normal(false, v) == Err::<
            (ParserState, bool),
            GrammarError,
        >(GrammarError::IllegalCodeUnit),
        v > 0x7f ==> spec_handle_normal(true, v) == Ok::<
            (ParserState, bool),
            GrammarError,
        >((ParserState::Normal, true)),
{
}

/// Whitespace in normal state is emitted and enters the folding run, under
/// every profile.
pub proof fn lemma_ws_enters_folding(allow_non_ascii: bool, v: u8)
    ensures
        is_ws(v) ==> spec_handle_normal(allow_non_ascii, v) == Ok::<
            (ParserState, bool),
            GrammarError,
        >((ParserState::Folding(FwsState::Ws), true)),
{
}

/// In normal state the transition function and the normal-state handler
/// agree, for every profile and unit.
pub proof fn lemma_advance_normal(allow_non_ascii: bool, v: u8)
    ensures
        spec_advance(allow_non_ascii, ParserState::Normal, v) == spec_handle_normal(
            allow_non_ascii,
            v,
        ),
{
}

} // verus!
