//! The three rewrites, checked against their exact expected source text,
//! and the generated text checked to be well-formed Rust with `syn`.

use flowutils::expand::{defer, defer_with_guard, try_pattern, unwrap_pattern};

const UUID_TEXT: &str = "12345678-9abc-def0-1234-56789abcdef0";
const GUARD: &str = "__flowutils_12345678_9abc_def0_1234_56789abcdef0";

#[test]
fn defer_with_guard_exact() {
    let out = defer_with_guard("println!(\"bye\")", GUARD);
    let expected = format!(
        "struct {g};\n\
         impl Drop for {g} {{\n    \
             fn drop(&mut self) {{\n        \
                 println!(\"bye\")\n    \
             }}\n\
         }}\n\
         let {g}_ = {g};\n",
        g = GUARD
    );
    assert_eq!(out, expected);
}

#[test]
fn defer_with_guard_empty_expr() {
    let out = defer_with_guard("", "G");
    assert_eq!(
        out,
        "struct G;\nimpl Drop for G {\n    fn drop(&mut self) {\n        \n    }\n}\nlet G_ = G;\n"
    );
}

#[test]
fn defer_uses_a_fresh_valid_guard() {
    let expr = "println!(\"bye\")";
    let out = defer(expr);
    // The guard type name stands right after "struct " and is 48 characters.
    assert_eq!(&out[..7], "struct ");
    let guard = &out[7..55];
    assert!(guard.starts_with("__flowutils_"));
    assert!(guard.chars().all(|c| c.is_ascii_alphanumeric() || c == '_'));
    assert!(!guard.contains('-'));
    // The whole output is exactly the deterministic expansion for that guard.
    assert_eq!(out, defer_with_guard(expr, guard));
}

#[test]
fn defer_twice_gives_distinct_guards() {
    let a = defer("f()");
    let b = defer("f()");
    assert_ne!(a[7..55], b[7..55]);
}

#[test]
fn unwrap_pattern_exact() {
    let out = unwrap_pattern("some_enum", "T::A(x) => x");
    assert_eq!(
        out,
        "match some_enum {\n    T::A(x) => x,\n    _ => panic!(\"unwrap(..) failed\"),\n}\n"
    );
}

#[test]
fn try_pattern_exact() {
    let out = try_pattern("some_enum", "T::B(var1, var2)", "(var2, var1)");
    assert_eq!(
        out,
        "match some_enum {\n    T::B(var1, var2) => Ok((var2, var1)),\n    _ => Err(\"try_pattern() failed\"),\n}\n"
    );
}

#[test]
fn defer_expansion_is_well_formed_rust() {
    let out = defer_with_guard("println!(\"bye\")", GUARD);
    let block = format!("{{\n{}}}\n", out);
    syn::parse_str::<syn::Block>(&block).expect("the expansion must be a valid block body");
}

#[test]
fn unwrap_pattern_expansion_is_well_formed_rust() {
    let out = unwrap_pattern("some_enum", "Thing::A(x) => x");
    syn::parse_str::<syn::Expr>(&out).expect("the expansion must be a valid expression");
}

#[test]
fn try_pattern_expansion_is_well_formed_rust() {
    let out = try_pattern("some_enum", "Thing::B(a, b) if a > 0", "(b, a)");
    syn::parse_str::<syn::Expr>(&out).expect("the expansion must be a valid expression");
}

#[test]
fn unwrap_pattern_expansion_runs_as_written() {
    // The text produced for a small enum, expanded by hand here, must pick
    // the arm's value; this pins the shape of the generated match.
    let out = unwrap_pattern("v", "Some(x) => x + 1");
    assert_eq!(
        out,
        "match v {\n    Some(x) => x + 1,\n    _ => panic!(\"unwrap(..) failed\"),\n}\n"
    );
    let v = Some(41);
    let r = match v {
        Some(x) => x + 1,
        _ => panic!("unwrap(..) failed"),
    };
    assert_eq!(r, 42);
}

#[test]
fn guard_from_uuid_matches_defer_guard_shape() {
    let g = flowutils::ident::guard_ident_from_uuid(UUID_TEXT);
    assert_eq!(g, GUARD);
}
