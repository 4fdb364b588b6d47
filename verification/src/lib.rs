//! Compile-time code-generation helpers, modelled at the level of source
//! text: a scoped "run on exit" construct, and two pattern-matching
//! shorthands that either panic or produce a `Result` on mismatch.
//!
//! Each public function builds the source text of one expansion from the
//! source text of its parts, and its contract states the output exactly,
//! character by character.

use vstd::prelude::*;

pub mod expand;
pub mod ident;

verus! {

/// A character that may stand in a Rust identifier after the first
/// position: a letter, a digit, or an underscore.
pub open spec fn is_ident_char(c: char) -> bool {
    ('a' <= c && c <= 'z') || ('A' <= c && c <= 'Z') || ('0' <= c && c <= '9') || c == '_'
}

/// Every character of `s` may stand in a Rust identifier.
pub open spec fn all_ident_chars(s: Seq<char>) -> bool {
    forall|i: int| 0 <= i < s.len() ==> is_ident_char(#[trigger] s[i])
}

} // verus!
