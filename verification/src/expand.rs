//! The three source-text rewrites: a scoped "run on exit" construct, a
//! match-or-panic shorthand, and a match-or-result shorthand.
//!
//! Each builder returns the full source text of one expansion, and its
//! contract gives that text exactly, character by character, as a
//! concatenation of fixed segments and the caller's own fragments.

use vstd::prelude::*;
use crate::ident::{fresh_guard_names, is_guard_ident};

verus! {

/// The scope-exit expansion for the expression `expr` and the guard type
/// name `guard`: a guard type, a `Drop` impl that runs `expr`, and a binding
/// of a guard value to a variable named after the type with one more
/// underscore, so that its destruction at the end of the scope runs `expr`.
pub open spec fn defer_text(expr: Seq<char>, guard: Seq<char>) -> Seq<char> {
    "struct "@ + guard + ";\nimpl Drop for "@ + guard
        + " {\n    fn drop(&mut self) {\n        "@ + expr + "\n    }\n}\nlet "@ + guard + "_ = "@
        + guard + ";\n"@
}

/// The match-or-panic expansion for the scrutinee `expr` and the match arm
/// `arm`: a `match` with the given arm first and a fallback arm that
/// panics.
pub open spec fn unwrap_pattern_text(expr: Seq<char>, arm: Seq<char>) -> Seq<char> {
    "match "@ + expr + " {\n    "@ + arm
        + ",\n    _ => panic!(\"unwrap(..) failed\"),\n}\n"@
}

/// The match-or-result expansion for the scrutinee `expr`, the pattern
/// `pattern` (with its guard, if any) and the arm body `body`: a `match`
/// whose first arm wraps the body in `Ok`, with a fallback arm that yields
/// an error value.
pub open spec fn try_pattern_text(expr: Seq<char>, pattern: Seq<char>, body: Seq<char>) -> Seq<
    char,
> {
    "match "@ + expr + " {\n    "@ + pattern + " => Ok("@ + body
        + "),\n    _ => Err(\"try_pattern() failed\"),\n}\n"@
}

/// Builds the scope-exit expansion for `expr` around the given guard type
/// name. The guard variable's name is the type's name followed by one more
/// underscore.
pub fn defer_with_guard(expr: &str, guard: &str) -> (r: String)
    ensures
        r@ == defer_text(expr@, guard@),
{
    let mut r = String::from_str("struct ");
    r.append(guard);
    r.append(";\nimpl Drop for ");
    r.append(guard);
    r.append(" {\n    fn drop(&mut self) {\n        ");
    r.append(expr);
    r.append("\n    }\n}\nlet ");
    r.append(guard);
    r.append("_ = ");
    r.append(guard);
    r.append(";\n");
    r
}

/// Builds the scope-exit expansion for `expr` with a freshly generated
/// guard identifier: some valid identifier derived from a fresh hyphenated
/// UUID, so that it collides with no name in scope.
pub fn defer(expr: &str) -> (r: String)
    ensures
        exists|g: Seq<char>| is_guard_ident(g) && r@ == defer_text(expr@, g),
{
    let names = fresh_guard_names();
    defer_with_guard(expr, names.0.as_str())
}

/// Builds the match-or-panic expansion: `expr` is matched against the one
/// arm `arm`, and every other value panics.
pub fn unwrap_pattern(expr: &str, arm: &str) -> (r: String)
    ensures
        r@ == unwrap_pattern_text(expr@, arm@),
{
    let mut r = String::from_str("match ");
    r.append(expr);
    r.append(" {\n    ");
    r.append(arm);
    r.append(",\n    _ => panic!(\"unwrap(..) failed\"),\n}\n");
    r
}

/// Builds the match-or-result expansion: `expr` is matched against
/// `pattern`, the arm's body is wrapped in `Ok`, and every other value
/// yields an error value instead of panicking.
pub fn try_pattern(expr: &str, pattern: &str, body: &str) -> (r: String)
    ensures
        r@ == try_pattern_text(expr@, pattern@, body@),
{
    let mut r = String::from_str("match ");
    r.append(expr);
    r.append(" {\n    ");
    r.append(pattern);
    r.append(" => Ok(");
    r.append(body);
    r.append("),\n    _ => Err(\"try_pattern() failed\"),\n}\n");
    r
}

} // verus!
