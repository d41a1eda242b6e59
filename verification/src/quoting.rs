//! The two quoting classifiers: stateless policies mapping one code unit to
//! a quoting class, selected by whether non-ASCII content is permitted as
//! free text.

use vstd::prelude::*;
use crate::categories::is_qtext_ws;
use crate::categories::check_qtext_ws;

verus! {

/// How one code unit may appear inside a quoted-string body. Exhaustive and
/// mutually exclusive.
#[derive(Clone, Copy, Debug, PartialEq, Eq, Hash, Structural)]
pub enum QuotingClass {
    /// Safe to include without an escape.
    QText,
    /// Representable, but only behind the escape marker.
    NeedsQuoting,
    /// Not representable under this grammar in any form.
    Invalid,
}

/// Classification under the restricted (US-ASCII only) grammars: qtext or
/// whitespace passes as-is; any other US-ASCII unit can still be
/// force-quoted; anything above 0x7f has no representation at all.
pub open spec fn restricted_class(v: u8) -> QuotingClass {
    if is_qtext_ws(v) {
        QuotingClass::QText
    } else if v <= 0x7f {
        QuotingClass::NeedsQuoting
    } else {
        QuotingClass::Invalid
    }
}

/// Classification under the extended (internationalized) grammars:
/// non-ASCII units are valid free text directly, so no unit is ever
/// invalid.
pub open spec fn extended_class(v: u8) -> QuotingClass {
    if v > 0x7f || is_qtext_ws(v) {
        QuotingClass::QText
    } else {
        QuotingClass::NeedsQuoting
    }
}

/// Quoting classifier for the obsolete, US-ASCII-only grammar.
#[derive(Clone, Copy, Debug, PartialEq, Eq, Hash)]
pub struct MimeObsQuoting;

impl MimeObsQuoting {
    /// Total over all byte values; returns exactly the restricted
    /// classification.
    pub fn classify_for_quoting(v: u8) -> (r: QuotingClass)
        ensures
            r == restricted_class(v),
    {
        if check_qtext_ws(v) {
            QuotingClass::QText
        } else if v <= 0x7f {
            QuotingClass::NeedsQuoting
        } else {
            QuotingClass::Invalid
        }
    }
}

/// Quoting classifier for the obsolete, internationalized grammar.
#[derive(Clone, Copy, Debug, PartialEq, Eq, Hash)]
pub struct MimeObsUtf8Quoting;

impl MimeObsUtf8Quoting {
    /// Total over all byte values; returns exactly the extended
    /// classification, which is never `Invalid`.
    pub fn classify_for_quoting(v: u8) -> (r: QuotingClass)
        ensures
            r == extended_class(v),
            r != QuotingClass::Invalid,
    {
        if v > 0x7f || check_qtext_ws(v) {
            QuotingClass::QText
        } else {
            QuotingClass::NeedsQuoting
        }
    }
}

} // verus!
