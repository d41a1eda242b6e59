//! Decision core of a quoted-string tokenizer for structured header values
//! (media-type and mail headers): per-byte category lookup, quoting
//! classification, bare-token validation, and the per-unit transition
//! functions of the four grammar profiles.

pub mod categories;
pub mod quoting;
pub mod validator;
pub mod profiles;
pub mod laws;
