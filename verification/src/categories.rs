//! The category table: per-byte membership in the named grammar categories
//! of the token / quoted-string grammars for structured header values.
//!
//! The sets are grammar constants: `token` excludes space, controls and the
//! tspecials punctuation; `qtext` is the printable US-ASCII range without the
//! quote delimiter and the escape marker; whitespace is space and horizontal
//! tab. Lookup is total over all byte values and never fails.

use vstd::prelude::*;

verus! {

/// Linear whitespace: space or horizontal tab.
pub open spec fn is_ws(v: u8) -> bool {
    v == 0x20 || v == 0x09
}

/// The two characters that themselves require escaping inside a
/// quoted-string body: the quote delimiter and the escape marker.
pub open spec fn is_dquote_or_escape(v: u8) -> bool {
    v == 0x22 || v == 0x5c
}

/// qtext: legal, unescaped, inside a quoted-string body. The visible
/// US-ASCII characters except the quote delimiter and the escape marker.
pub open spec fn is_qtext(v: u8) -> bool {
    v == 0x21 || (0x23 <= v && v <= 0x5b) || (0x5d <= v && v <= 0x7e)
}

/// qtext or linear whitespace.
pub open spec fn is_qtext_ws(v: u8) -> bool {
    is_qtext(v) || is_ws(v)
}

/// tspecials: the punctuation that may not stand in a bare token.
pub open spec fn is_tspecial(v: u8) -> bool {
    ||| v == 0x28  // (
    ||| v == 0x29  // )
    ||| v == 0x3c  // <
    ||| v == 0x3e  // >
    ||| v == 0x40  // @
    ||| v == 0x2c  // ,
    ||| v == 0x3b  // ;
    ||| v == 0x3a  // :
    ||| v == 0x5c  // backslash
    ||| v == 0x22  // double quote
    ||| v == 0x2f  // /
    ||| v == 0x5b  // [
    ||| v == 0x5d  // ]
    ||| v == 0x3f  // ?
    ||| v == 0x3d  // =
}

/// Legal in a bare, unquoted token: visible US-ASCII that is not a
/// tspecial.
pub open spec fn is_token_char(v: u8) -> bool {
    0x21 <= v && v <= 0x7e && !is_tspecial(v)
}

/// The set of named categories one byte value belongs to. A value may
/// belong to several at once.
#[derive(Clone, Copy, Debug, PartialEq, Eq, Structural)]
pub struct CategorySet {
    pub token: bool,
    pub qtext: bool,
    pub qtext_ws: bool,
    pub ws: bool,
    pub dquote_or_escape: bool,
}

/// The category memberships of `v`, as a mathematical value.
pub open spec fn spec_category_of(v: u8) -> CategorySet {
    CategorySet {
        token: is_token_char(v),
        qtext: is_qtext(v),
        qtext_ws: is_qtext_ws(v),
        ws: is_ws(v),
        dquote_or_escape: is_dquote_or_escape(v),
    }
}

/// Whitespace membership check.
pub fn check_ws(v: u8) -> (r: bool)
    ensures
        r == is_ws(v),
{
    v == 0x20 || v == 0x09
}

/// Quote-delimiter-or-escape-marker membership check.
pub fn check_dquote_or_escape(v: u8) -> (r: bool)
    ensures
        r == is_dquote_or_escape(v),
{
    v == 0x22 || v == 0x5c
}

/// qtext membership check.
pub fn check_qtext(v: u8) -> (r: bool)
    ensures
        r == is_qtext(v),
{
    v == 0x21 || (0x23 <= v && v <= 0x5b) || (0x5d <= v && v <= 0x7e)
}

/// qtext-or-whitespace membership check.
pub fn check_qtext_ws(v: u8) -> (r: bool)
    ensures
        r == is_qtext_ws(v),
{
    check_qtext(v) || check_ws(v)
}

/// Bare-token-character membership check.
pub fn check_token(v: u8) -> (r: bool)
    ensures
        r == is_token_char(v),
{
    0x21 <= v && v <= 0x7e && !(v == 0x28 || v == 0x29 || v == 0x3c || v == 0x3e
        || v == 0x40 || v == 0x2c || v == 0x3b || v == 0x3a || v == 0x5c
        || v == 0x22 || v == 0x2f || v == 0x5b || v == 0x5d || v == 0x3f
        || v == 0x3d)
}

/// Full category lookup: total over all byte values, never fails.
pub fn category_of(v: u8) -> (r: CategorySet)
    ensures
        r == spec_category_of(v),
{
    CategorySet {
        token: check_token(v),
        qtext: check_qtext(v),
        qtext_ws: check_qtext_ws(v),
        ws: check_ws(v),
        dquote_or_escape: check_dquote_or_escape(v),
    }
}

/// The table is internally consistent: qtext-or-whitespace contains both
/// qtext and whitespace, for every value.
pub proof fn lemma_qtext_ws_superset(v: u8)
    ensures
        is_qtext(v) ==> is_qtext_ws(v),
        is_ws(v) ==> is_qtext_ws(v),
{
}

/// Neither token characters nor qtext overlap the control characters or
/// DEL.
pub proof fn lemma_no_controls(v: u8)
    ensures
        is_token_char(v) ==> !(v <= 0x1f || v == 0x7f),
        is_qtext(v) ==> !(v <= 0x1f || v == 0x7f),
{
}

} // verus!
