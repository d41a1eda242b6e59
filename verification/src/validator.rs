//! The bare-token validator: a streaming check, one call per code unit and
//! one call at end-of-input, answering whether a whole run of units may be
//! emitted as a bare (unquoted) token.

use vstd::prelude::*;
use crate::categories::is_token_char;
use crate::categories::check_token;

verus! {

/// Validator for bare tokens. It carries no state: acceptance of a unit
/// depends on the unit's value alone, and the terminal check always
/// succeeds.
#[derive(Clone, Copy, Debug, PartialEq, Eq, Hash, Structural)]
pub struct MimeTokenValidator;

/// What `next` answers for a validator in state `val`: acceptance depends
/// on the code unit alone, never on the history fed in before.
pub open spec fn validator_accepts(val: MimeTokenValidator, v: u8) -> bool {
    is_token_char(v)
}

/// What `end` answers for a validator in state `val`: the accumulated
/// sequence as a whole is always acceptable.
pub open spec fn validator_end(val: MimeTokenValidator) -> bool {
    true
}

impl MimeTokenValidator {
    /// Create a fresh validator.
    pub fn new() -> (r: Self)
        ensures
            r == MimeTokenValidator,
    {
        Self::default()
    }

    /// Feed one code unit: true iff the value is individually compatible
    /// with a bare token. A `false` is final for the token; the state is
    /// never changed.
    pub fn next(&mut self, v: u8) -> (r: bool)
        ensures
            r == validator_accepts(*old(self), v),
            *final(self) == *old(self),
    {
        check_token(v)
    }

    /// Terminal check at end-of-input: for this validator, always true.
    pub fn end(&self) -> (r: bool)
        ensures
            r == validator_end(*self),
    {
        true
    }
}

impl Default for MimeTokenValidator {
    /// The fresh validator state.
    fn default() -> (r: Self)
        ensures
            r == MimeTokenValidator,
    {
        MimeTokenValidator
    }
}

/// Two validators, whatever was fed into each before, answer alike on every
/// unit and alike at the end. Hence feeding one sequence through two fresh
/// validators yields identical per-unit results and identical terminal
/// results.
pub proof fn lemma_validator_deterministic(a: MimeTokenValidator, b: MimeTokenValidator, v: u8)
    ensures
        validator_accepts(a, v) == validator_accepts(b, v),
        validator_end(a) == validator_end(b),
{
}

} // verus!
