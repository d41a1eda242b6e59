//! The four grammar profiles and the shared folding-whitespace-aware
//! automaton they drive.
//!
//! A profile binds two fixed flags (allow-non-ASCII, obsolete-syntax) and a
//! quoted-pair predicate `can_be_quoted` to one shared per-unit transition
//! function. The profiles diverge exactly where the grammars diverge:
//! obsolete syntax lets any US-ASCII unit stand in a quoted-pair, modern
//! syntax only the visible and whitespace characters already meaningful in
//! the grammar; internationalization admits non-ASCII units as literal
//! quoted text, and never widens `can_be_quoted`.

use vstd::prelude::*;
use crate::categories::is_ws;
use crate::categories::is_qtext;
use crate::categories::is_dquote_or_escape;
use crate::categories::check_ws;
use crate::categories::check_qtext;
use crate::categories::check_dquote_or_escape;

verus! {

/// The failure taxonomy: every inadmissible unit yields one of these, at
/// the point of the offending unit, with no recovery inside the core.
#[derive(Clone, Copy, Debug, PartialEq, Eq, Hash, Structural)]
pub enum GrammarError {
    /// The unit is not admissible under the active profile in the active
    /// state, e.g. a non-ASCII unit while non-ASCII free text is forbidden.
    IllegalCodeUnit,
    /// The whitespace / line-fold sequence is invalid, e.g. a carriage
    /// return not followed by a line feed.
    MalformedFold,
    /// Input ended while a line fold was still open.
    PrematureEnd,
}

/// Position inside a folding-whitespace run.
#[derive(Clone, Copy, Debug, PartialEq, Eq, Hash, Structural)]
pub enum FwsState {
    /// Inside a run of linear whitespace.
    Ws,
    /// Just saw a carriage return: only a line feed may follow.
    HitCr,
    /// Just saw the full line break: the fold must continue with
    /// whitespace.
    HitNl,
}

/// Parser state threaded through `advance`: either plain processing, or
/// inside a folding-whitespace run with its sub-state.
#[derive(Clone, Copy, Debug, PartialEq, Eq, Hash, Structural)]
pub enum ParserState {
    /// Not inside a folding-whitespace run.
    Normal,
    /// Inside a folding-whitespace run.
    Folding(FwsState),
}

/// The carriage return, which opens a line fold.
pub open spec fn is_cr(v: u8) -> bool {
    v == 0x0d
}

/// The line feed, which closes a line break inside a fold.
pub open spec fn is_lf(v: u8) -> bool {
    v == 0x0a
}

/// The normal-state decision, shared by all profiles and parameterized by
/// the allow-non-ASCII flag: quoted text is emitted and stays in normal
/// processing; whitespace is emitted and opens a folding run; a carriage
/// return opens a line fold and is absorbed as formatting; everything else
/// is an illegal code unit here.
pub open spec fn spec_handle_normal(allow_non_ascii: bool, v: u8) -> Result<
    (ParserState, bool),
    GrammarError,
> {
    if is_qtext(v) || (allow_non_ascii && v > 0x7f) {
        Ok((ParserState::Normal, true))
    } else if is_ws(v) {
        Ok((ParserState::Folding(FwsState::Ws), true))
    } else if is_cr(v) {
        Ok((ParserState::Folding(FwsState::HitCr), false))
    } else {
        Err(GrammarError::IllegalCodeUnit)
    }
}

/// One step of the folding sub-automaton. A whitespace run ends the moment
/// a content unit arrives, which is handled exactly as in normal state; an
/// open line break demands its line feed and then whitespace, anything else
/// is a malformed fold. The units of the line break itself are absorbed,
/// whitespace is emitted.
pub open spec fn spec_fws_advance(allow_non_ascii: bool, st: FwsState, v: u8) -> Result<
    (ParserState, bool),
    GrammarError,
> {
    match st {
        FwsState::Ws => spec_handle_normal(allow_non_ascii, v),
        FwsState::HitCr => if is_lf(v) {
            Ok((ParserState::Folding(FwsState::HitNl), false))
        } else {
            Err(GrammarError::MalformedFold)
        },
        FwsState::HitNl => if is_ws(v) {
            Ok((ParserState::Folding(FwsState::Ws), true))
        } else {
            Err(GrammarError::MalformedFold)
        },
    }
}

/// The complete per-unit transition function: the folding sub-automaton
/// takes priority, normal state falls to the normal-state decision.
pub open spec fn spec_advance(allow_non_ascii: bool, st: ParserState, v: u8) -> Result<
    (ParserState, bool),
    GrammarError,
> {
    match st {
        ParserState::Normal => spec_handle_normal(allow_non_ascii, v),
        ParserState::Folding(f) => spec_fws_advance(allow_non_ascii, f, v),
    }
}

/// Whether a state may stand at end-of-input: normal processing and a
/// completed whitespace run may, a half-open line break is a premature
/// end.
pub open spec fn spec_finish(st: ParserState) -> Result<(), GrammarError> {
    match st {
        ParserState::Normal => Ok(()),
        ParserState::Folding(FwsState::Ws) => Ok(()),
        ParserState::Folding(FwsState::HitCr) => Err(GrammarError::PrematureEnd),
        ParserState::Folding(FwsState::HitNl) => Err(GrammarError::PrematureEnd),
    }
}

/// Quoted-pair admissibility under obsolete syntax: any US-ASCII unit may
/// stand behind the escape marker.
pub open spec fn obs_can_be_quoted(v: u8) -> bool {
    v <= 0x7f
}

/// Quoted-pair admissibility under modern syntax: only whitespace, quoted
/// text, or the two characters that structurally require escaping.
pub open spec fn modern_can_be_quoted(v: u8) -> bool {
    is_ws(v) || is_qtext(v) || is_dquote_or_escape(v)
}

/// Shared executable normal-state handler.
pub fn handle_normal_unit(allow_non_ascii: bool, v: u8) -> (r: Result<
    (ParserState, bool),
    GrammarError,
>)
    ensures
        r == spec_handle_normal(allow_non_ascii, v),
{
    if check_qtext(v) || (allow_non_ascii && v > 0x7f) {
        Ok((ParserState::Normal, true))
    } else if check_ws(v) {
        Ok((ParserState::Folding(FwsState::Ws), true))
    } else if v == 0x0d {
        Ok((ParserState::Folding(FwsState::HitCr), false))
    } else {
        Err(GrammarError::IllegalCodeUnit)
    }
}

/// Shared executable step of the folding sub-automaton.
pub fn fws_advance_unit(allow_non_ascii: bool, st: &FwsState, v: u8) -> (r: Result<
    (ParserState, bool),
    GrammarError,
>)
    ensures
        r == spec_fws_advance(allow_non_ascii, *st, v),
{
    match st {
        FwsState::Ws => handle_normal_unit(allow_non_ascii, v),
        FwsState::HitCr => if v == 0x0a {
            Ok((ParserState::Folding(FwsState::HitNl), false))
        } else {
            Err(GrammarError::MalformedFold)
        },
        FwsState::HitNl => if check_ws(v) {
            Ok((ParserState::Folding(FwsState::Ws), true))
        } else {
            Err(GrammarError::MalformedFold)
        },
    }
}

/// Shared executable per-unit transition.
pub fn advance_unit(allow_non_ascii: bool, st: &ParserState, v: u8) -> (r: Result<
    (ParserState, bool),
    GrammarError,
>)
    ensures
        r == spec_advance(allow_non_ascii, *st, v),
{
    match st {
        ParserState::Normal => handle_normal_unit(allow_non_ascii, v),
        ParserState::Folding(f) => fws_advance_unit(allow_non_ascii, f, v),
    }
}

/// Shared executable end-of-input check.
pub fn finish_state(st: &ParserState) -> (r: Result<(), GrammarError>)
    ensures
        r == spec_finish(*st),
{
    match st {
        ParserState::Normal => Ok(()),
        ParserState::Folding(FwsState::Ws) => Ok(()),
        ParserState::Folding(FwsState::HitCr) => Err(GrammarError::PrematureEnd),
        ParserState::Folding(FwsState::HitNl) => Err(GrammarError::PrematureEnd),
    }
}

/// Grammar profile: obsolete syntax, US-ASCII only.
#[derive(Clone, Copy, Debug, PartialEq, Eq, Hash)]
pub struct MimeObsParsing;

impl MimeObsParsing {
    /// Non-ASCII free text is not permitted under this profile.
    pub fn allow_non_ascii() -> (r: bool)
        ensures
            r == false,
    {
        false
    }

    /// This profile follows the obsolete syntax.
    pub fn obsolete_syntax() -> (r: bool)
        ensures
            r == true,
    {
        true
    }

    /// Obsolete syntax allows any US-ASCII unit in a quoted-pair.
    pub fn can_be_quoted(v: u8) -> (r: bool)
        ensures
            r == obs_can_be_quoted(v),
    {
        v <= 0x7f
    }

    /// Entry point when the state is normal.
    pub fn handle_normal_state(v: u8) -> (r: Result<(ParserState, bool), GrammarError>)
        ensures
            r == spec_handle_normal(false, v),
    {
        handle_normal_unit(false, v)
    }

    /// One transition of this profile's automaton.
    pub fn advance(st: &ParserState, v: u8) -> (r: Result<(ParserState, bool), GrammarError>)
        ensures
            r == spec_advance(false, *st, v),
    {
        advance_unit(false, st, v)
    }

    /// End-of-input check for this profile's automaton.
    pub fn finish(st: &ParserState) -> (r: Result<(), GrammarError>)
        ensures
            r == spec_finish(*st),
    {
        finish_state(st)
    }
}

/// Grammar profile: obsolete syntax, internationalized.
#[derive(Clone, Copy, Debug, PartialEq, Eq, Hash)]
pub struct MimeObsParsingUtf8;

impl MimeObsParsingUtf8 {
    /// Non-ASCII free text is permitted under this profile.
    pub fn allow_non_ascii() -> (r: bool)
        ensures
            r == true,
    {
        true
    }

    /// This profile follows the obsolete syntax.
    pub fn obsolete_syntax() -> (r: bool)
        ensures
            r == true,
    {
        true
    }

    /// Internationalization does not widen quoted-pairs: still any
    /// US-ASCII unit, and only those.
    pub fn can_be_quoted(v: u8) -> (r: bool)
        ensures
            r == obs_can_be_quoted(v),
    {
        v <= 0x7f
    }

    /// Entry point when the state is normal.
    pub fn handle_normal_state(v: u8) -> (r: Result<(ParserState, bool), GrammarError>)
        ensures
            r == spec_handle_normal(true, v),
    {
        handle_normal_unit(true, v)
    }

    /// One transition of this profile's automaton.
    pub fn advance(st: &ParserState, v: u8) -> (r: Result<(ParserState, bool), GrammarError>)
        ensures
            r == spec_advance(true, *st, v),
    {
        advance_unit(true, st, v)
    }

    /// End-of-input check for this profile's automaton.
    pub fn finish(st: &ParserState) -> (r: Result<(), GrammarError>)
        ensures
            r == spec_finish(*st),
    {
        finish_state(st)
    }
}

/// Grammar profile: modern syntax, US-ASCII only.
#[derive(Clone, Copy, Debug, PartialEq, Eq, Hash)]
pub struct MimeParsing;

impl MimeParsing {
    /// Non-ASCII free text is not permitted under this profile.
    pub fn allow_non_ascii() -> (r: bool)
        ensures
            r == false,
    {
        false
    }

    /// This profile follows the modern syntax.
    pub fn obsolete_syntax() -> (r: bool)
        ensures
            r == false,
    {
        false
    }

    /// Modern syntax restricts quoted-pairs to whitespace, quoted text and
    /// the two structurally escaped characters.
    pub fn can_be_quoted(v: u8) -> (r: bool)
        ensures
            r == modern_can_be_quoted(v),
    {
        check_ws(v) || check_qtext(v) || check_dquote_or_escape(v)
    }

    /// Entry point when the state is normal.
    pub fn handle_normal_state(v: u8) -> (r: Result<(ParserState, bool), GrammarError>)
        ensures
            r == spec_handle_normal(false, v),
    {
        handle_normal_unit(false, v)
    }

    /// One transition of this profile's automaton.
    pub fn advance(st: &ParserState, v: u8) -> (r: Result<(ParserState, bool), GrammarError>)
        ensures
            r == spec_advance(false, *st, v),
    {
        advance_unit(false, st, v)
    }

    /// End-of-input check for this profile's automaton.
    pub fn finish(st: &ParserState) -> (r: Result<(), GrammarError>)
        ensures
            r == spec_finish(*st),
    {
        finish_state(st)
    }
}

/// Grammar profile: modern syntax, internationalized.
#[derive(Clone, Copy, Debug, PartialEq, Eq, Hash)]
pub struct MimeParsingUtf8;

impl MimeParsingUtf8 {
    /// Non-ASCII free text is permitted under this profile.
    pub fn allow_non_ascii() -> (r: bool)
        ensures
            r == true,
    {
        true
    }

    /// This profile follows the modern syntax.
    pub fn obsolete_syntax() -> (r: bool)
        ensures
            r == false,
    {
        false
    }

    /// Internationalization does not widen quoted-pairs: the modern
    /// predicate, unchanged.
    pub fn can_be_quoted(v: u8) -> (r: bool)
        ensures
            r == modern_can_be_quoted(v),
    {
        check_ws(v) || check_qtext(v) || check_dquote_or_escape(v)
    }

    /// Entry point when the state is normal.
    pub fn handle_normal_state(v: u8) -> (r: Result<(ParserState, bool), GrammarError>)
        ensures
            r == spec_handle_normal(true, v),
    {
        handle_normal_unit(true, v)
    }

    /// One transition of this profile's automaton.
    pub fn advance(st: &ParserState, v: u8) -> (r: Result<(ParserState, bool), GrammarError>)
        ensures
            r == spec_advance(true, *st, v),
    {
        advance_unit(true, st, v)
    }

    /// End-of-input check for this profile's automaton.
    pub fn finish(st: &ParserState) -> (r: Result<(), GrammarError>)
        ensures
            r == spec_finish(*st),
    {
        finish_state(st)
    }
}

} // verus!
