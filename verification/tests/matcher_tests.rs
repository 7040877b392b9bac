use arraygen::types::TypeExpr;
use arraygen::types::are_matching_types;
use arraygen::types::equal_types;
use arraygen::types::ty_inferred_by;

fn named(path: &[&str]) -> TypeExpr {
    TypeExpr::Named { path: path.iter().map(|s| s.to_string()).collect() }
}

fn n1(s: &str) -> TypeExpr {
    named(&[s])
}

fn g1(base: &str, args: Vec<TypeExpr>) -> TypeExpr {
    TypeExpr::Generic { path: vec![base.to_string()], args }
}

fn tup(elems: Vec<TypeExpr>) -> TypeExpr {
    TypeExpr::Tuple { elems }
}

fn wc() -> TypeExpr {
    TypeExpr::Wildcard
}

fn option_i32() -> TypeExpr {
    g1("Option", vec![n1("i32")])
}

fn complex(err_mid: &str, second: &str) -> TypeExpr {
    g1(
        "Option",
        vec![g1(
            "Result",
            vec![tup(vec![n1("i32"), n1(second)]), named(&["std", err_mid, "Error"])],
        )],
    )
}

#[test]
fn equal_types_exactly_same_returns_true() {
    assert_eq!(equal_types(&option_i32(), &option_i32()), true);
}

#[test]
fn equal_types_compared_to_wildcard_returns_true() {
    assert_eq!(equal_types(&option_i32(), &wc()), true);
}

#[test]
fn equal_types_compared_to_option_wildcard_returns_true() {
    assert_eq!(equal_types(&option_i32(), &g1("Option", vec![wc()])), true);
}

#[test]
fn equal_types_exactly_same_returns_true2() {
    assert_eq!(equal_types(&complex("fmt", "f32"), &complex("fmt", "f32")), true);
}

#[test]
fn equal_types_different1_returns_false() {
    assert_eq!(equal_types(&complex("fmt", "f32"), &complex("fmt", "i32")), false);
}

#[test]
fn equal_types_different2_returns_false() {
    assert_eq!(equal_types(&complex("error", "f32"), &complex("fmt", "f32")), false);
}

#[test]
fn equal_types_compared_to_wildcard_returns_true2() {
    assert_eq!(equal_types(&option_i32(), &wc()), true);
}

#[test]
fn equal_types_compared_to_wildcard2_returns_true() {
    assert_eq!(equal_types(&option_i32(), &g1("Option", vec![wc()])), true);
}

#[test]
fn equal_types_compared_to_wildcard3_returns_true() {
    assert_eq!(
        equal_types(
            &g1("Option", vec![g1("Option", vec![n1("i32")])]),
            &g1("Option", vec![g1("Option", vec![wc()])]),
        ),
        true
    );
}

#[test]
fn equal_types_compared_to_wildcard4_returns_true() {
    assert_eq!(
        equal_types(
            &g1("Option", vec![g1("Result", vec![n1("i32"), n1("i32")])]),
            &g1("Option", vec![g1("Result", vec![wc(), n1("i32")])]),
        ),
        true
    );
}

#[test]
fn equal_types_compared_to_wildcard5_returns_true() {
    assert_eq!(
        equal_types(
            &g1("Option", vec![g1("Result", vec![n1("i32"), n1("i32")])]),
            &g1("Option", vec![g1("Result", vec![wc(), n1("f32")])]),
        ),
        false
    );
}

#[test]
fn wildcard_pattern_matches_any_candidate() {
    assert!(ty_inferred_by(&n1("u8"), &wc()));
    assert!(ty_inferred_by(&option_i32(), &wc()));
    assert!(ty_inferred_by(&complex("fmt", "f32"), &wc()));
    assert!(ty_inferred_by(&tup(vec![]), &wc()));
    assert!(are_matching_types(&wc(), &g1("Option", vec![n1("f32")])));
}

#[test]
fn matching_is_reflexive_on_identical_trees() {
    let trees = vec![
        n1("i32"),
        option_i32(),
        complex("fmt", "f32"),
        tup(vec![n1("bool"), option_i32()]),
        TypeExpr::Reference { is_mut: true, inner: Box::new(n1("u64")) },
    ];
    for t in trees.iter() {
        assert!(ty_inferred_by(t, t));
        assert!(are_matching_types(t, t));
    }
}

#[test]
fn option_wildcard_does_not_match_plain_named_type() {
    assert_eq!(ty_inferred_by(&n1("i32"), &g1("Option", vec![wc()])), false);
    assert_eq!(ty_inferred_by(&option_i32(), &g1("Option", vec![wc()])), true);
}

#[test]
fn result_with_one_wildcard_slot_checks_the_other_slot() {
    let pattern = g1("Result", vec![wc(), n1("i32")]);
    assert_eq!(ty_inferred_by(&g1("Result", vec![n1("i32"), n1("i32")]), &pattern), true);
    assert_eq!(ty_inferred_by(&g1("Result", vec![n1("i32"), n1("f32")]), &pattern), false);
}

#[test]
fn mismatched_arity_never_matches() {
    assert_eq!(
        ty_inferred_by(&g1("Result", vec![n1("i32"), n1("i32")]), &g1("Result", vec![wc()])),
        false
    );
    assert_eq!(ty_inferred_by(&tup(vec![n1("i32")]), &tup(vec![n1("i32"), wc()])), false);
}

#[test]
fn reference_markers_must_agree() {
    let shared = TypeExpr::Reference { is_mut: false, inner: Box::new(n1("i32")) };
    let exclusive = TypeExpr::Reference { is_mut: true, inner: Box::new(n1("i32")) };
    assert_eq!(ty_inferred_by(&shared, &exclusive), false);
    assert_eq!(ty_inferred_by(&shared, &shared), true);
    let ref_wild = TypeExpr::Reference { is_mut: false, inner: Box::new(wc()) };
    assert_eq!(ty_inferred_by(&shared, &ref_wild), true);
    assert_eq!(ty_inferred_by(&n1("i32"), &ref_wild), false);
}

#[test]
fn wildcard_on_candidate_side_counts_only_for_unification() {
    let field = g1("Result", vec![wc(), n1("i32")]);
    let pattern = g1("Result", vec![n1("i32"), wc()]);
    assert_eq!(ty_inferred_by(&field, &pattern), false);
    assert_eq!(are_matching_types(&field, &pattern), true);
}

#[test]
fn unification_is_symmetric() {
    let a = g1("Result", vec![n1("i32"), wc()]);
    let b = g1("Result", vec![wc(), n1("i32")]);
    assert_eq!(are_matching_types(&a, &b), are_matching_types(&b, &a));
    let c = g1("Option", vec![n1("f32")]);
    assert_eq!(are_matching_types(&a, &c), are_matching_types(&c, &a));
}

#[test]
fn identical_patterns_with_wildcards_match_without_the_both_sides_flag() {
    let p = g1("Result", vec![wc(), n1("i32")]);
    let q = g1("Result", vec![wc(), n1("i32")]);
    assert_eq!(ty_inferred_by(&p, &q), true);
    let r = g1("Result", vec![n1("i32"), wc()]);
    let r2 = g1("Result", vec![n1("i32"), wc()]);
    assert_eq!(ty_inferred_by(&r, &r2), true);
}
