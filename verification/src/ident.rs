//! Generation of the fresh guard identifier that the scope-exit expansion
//! declares, from the text of a freshly drawn UUID.
//!
//! The identifier must not collide with anything in scope at the expansion
//! site, so it is derived from a random UUID; and a UUID's hyphens may not
//! stand in an identifier, so each one is turned into an underscore.

use vstd::prelude::*;
use crate::{all_ident_chars, is_ident_char};

verus! {

/// A lowercase hexadecimal digit.
pub open spec fn is_lower_hex_digit(c: char) -> bool {
    ('0' <= c && c <= '9') || ('a' <= c && c <= 'f')
}

/// The hyphenated rendering of a UUID: 36 characters, hyphens exactly at
/// positions 8, 13, 18 and 23, lowercase hexadecimal digits everywhere else.
pub open spec fn hyphenated_uuid_form(s: Seq<char>) -> bool {
    &&& s.len() == 36
    &&& s[8] == '-' && s[13] == '-' && s[18] == '-' && s[23] == '-'
    &&& forall|i: int|
        0 <= i < 36 && i != 8 && i != 13 && i != 18 && i != 23 ==> is_lower_hex_digit(
            #[trigger] s[i],
        )
}

/// `s` with every hyphen replaced by an underscore, other characters kept.
pub open spec fn dashes_to_underscores(s: Seq<char>) -> Seq<char> {
    s.map_values(|c: char| if c == '-' { '_' } else { c })
}

/// The name of the guard type derived from the UUID text `u`.
pub open spec fn guard_type_ident(u: Seq<char>) -> Seq<char> {
    "__flowutils_"@ + dashes_to_underscores(u)
}

/// A character sequence that `guard_type_ident` produces from the text of
/// some hyphenated UUID.
pub open spec fn is_guard_ident(g: Seq<char>) -> bool {
    exists|u: Seq<char>| hyphenated_uuid_form(u) && g == guard_type_ident(u)
}

/// Relies on `uuid::Uuid::new_v4` and on `uuid::Uuid`'s `Display`: a fresh
/// random UUID printed in hyphenated form, 36 lowercase-hexadecimal
/// characters with hyphens at positions 8, 13, 18 and 23. The value is
/// random, so nothing relates two calls; only the shape of every outcome is
/// stated.
#[verifier::external_body]
fn fresh_uuid_text() -> (r: String)
    ensures
        r.is_ascii(),
        hyphenated_uuid_form(r@),
{
    uuid::Uuid::new_v4().to_string()
}

/// Builds the guard type name from the text of a hyphenated UUID: the fixed
/// prefix, then the UUID text with its four hyphens turned into underscores.
/// Every character of the result may stand in a Rust identifier, and the
/// first is an underscore, so the result is a valid identifier.
pub fn guard_ident_from_uuid(uuid_text: &str) -> (r: String)
    requires
        uuid_text.is_ascii(),
        hyphenated_uuid_form(uuid_text@),
    ensures
        r@ == guard_type_ident(uuid_text@),
        all_ident_chars(r@),
        r@.len() == 48,
        r@[0] == '_',
{
    let mut r = String::from_str("__flowutils_");
    r.append(uuid_text.substring_ascii(0, 8));
    r.append("_");
    r.append(uuid_text.substring_ascii(9, 13));
    r.append("_");
    r.append(uuid_text.substring_ascii(14, 18));
    r.append("_");
    r.append(uuid_text.substring_ascii(19, 23));
    r.append("_");
    r.append(uuid_text.substring_ascii(24, 36));
    proof {
        reveal_strlit("__flowutils_");
        reveal_strlit("_");
        assert(r@ =~= guard_type_ident(uuid_text@));
        assert forall|i: int| 0 <= i < r@.len() implies is_ident_char(#[trigger] r@[i]) by {
            if i >= 12 {
                assert(r@[i] == dashes_to_underscores(uuid_text@)[i - 12]);
            }
        }
    }
    r
}

/// Draws a fresh UUID and returns the pair of generated identifiers that the
/// scope-exit expansion uses: the guard type's name, and the guard
/// variable's name, which is the type's name with one more underscore.
/// Both are valid Rust identifiers of known length and carry the fixed
/// prefix, so they collide with no ordinary name in scope.
pub fn fresh_guard_names() -> (r: (String, String))
    ensures
        is_guard_ident(r.0@),
        r.1@ == r.0@ + "_"@,
        all_ident_chars(r.0@),
        all_ident_chars(r.1@),
        r.0@.len() == 48,
        r.1@.len() == 49,
        r.0@[0] == '_',
{
    let uuid_text = fresh_uuid_text();
    let guard_name: String = guard_ident_from_uuid(uuid_text.as_str());
    let mut var_name = guard_name.clone();
    var_name.append("_");
    proof {
        reveal_strlit("_");
        assert(all_ident_chars(var_name@));
    }
    (guard_name, var_name)
}

} // verus!
