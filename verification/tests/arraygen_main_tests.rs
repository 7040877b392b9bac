#![allow(dead_code)]

use arraygen::parse_decorator::CastKind;
use arraygen::parse_decorator::Decorator;
use arraygen::parse_gen_array::GenArray;
use arraygen::parse_gen_array::GenArrayDecl;
use arraygen::parse_gen_array::ImplicitClause;
use arraygen::parse_gen_array::Registry;
use arraygen::parse_gen_array::build_registry;
use arraygen::parse_in_array::InArrayAttribute;
use arraygen::parse_in_array::InArrayAttributeEntry;
use arraygen::parse_in_array::InArrayElementKind;
use arraygen::parse_in_array::InArrayField;
use arraygen::resolver::resolve;
use arraygen::types::TypeExpr;

fn named(path: &[&str]) -> TypeExpr {
    TypeExpr::Named { path: path.iter().map(|s| s.to_string()).collect() }
}

fn n1(s: &str) -> TypeExpr {
    named(&[s])
}

fn g1(base: &str, args: Vec<TypeExpr>) -> TypeExpr {
    TypeExpr::Generic { path: vec![base.to_string()], args }
}

fn rf(inner: TypeExpr) -> TypeExpr {
    TypeExpr::Reference { is_mut: false, inner: Box::new(inner) }
}

fn rfm(inner: TypeExpr) -> TypeExpr {
    TypeExpr::Reference { is_mut: true, inner: Box::new(inner) }
}

fn wc() -> TypeExpr {
    TypeExpr::Wildcard
}

fn no_dec() -> Decorator {
    Decorator::new()
}

fn cast_dec() -> Decorator {
    Decorator { override_implicit: false, cast: Some(CastKind::SafeCast) }
}

fn transmute_dec() -> Decorator {
    Decorator { override_implicit: false, cast: Some(CastKind::UnsafeTransmute) }
}

fn decl(vis: &str, name: &str, ty: TypeExpr) -> GenArrayDecl {
    GenArrayDecl {
        vis: vis.to_string(),
        fn_name: name.to_string(),
        fn_ty: ty,
        implicit_select_all: None,
    }
}

fn decl_implicit(
    vis: &str,
    name: &str,
    ty: TypeExpr,
    decorator: Decorator,
    tys: Vec<TypeExpr>,
) -> GenArrayDecl {
    GenArrayDecl {
        vis: vis.to_string(),
        fn_name: name.to_string(),
        fn_ty: ty,
        implicit_select_all: Some(ImplicitClause { decorator, tys }),
    }
}

fn entry(group: &str) -> InArrayAttributeEntry {
    InArrayAttributeEntry { ident: group.to_string(), decorator: Decorator::new() }
}

fn entry_dec(group: &str, decorator: Decorator) -> InArrayAttributeEntry {
    InArrayAttributeEntry { ident: group.to_string(), decorator }
}

fn attrv(entries: Vec<InArrayAttributeEntry>) -> InArrayAttribute {
    InArrayAttribute { entries }
}

fn attr1(e: InArrayAttributeEntry) -> InArrayAttribute {
    InArrayAttribute { entries: vec![e] }
}

fn field(name: &str, ty: TypeExpr) -> InArrayField {
    InArrayField { attrs: vec![], ident: name.to_string(), ty }
}

fn field_in(name: &str, ty: TypeExpr, attrs: Vec<InArrayAttribute>) -> InArrayField {
    InArrayField { attrs, ident: name.to_string(), ty }
}

fn registry(decls: Vec<GenArrayDecl>) -> Registry {
    match build_registry(decls) {
        Ok(r) => r,
        Err(_) => panic!("registry build failed"),
    }
}

fn resolve_ok(reg: Registry, fields: &Vec<InArrayField>) -> Registry {
    match resolve(reg, fields) {
        Ok(r) => r,
        Err(_) => panic!("resolve failed"),
    }
}

fn group<'a>(reg: &'a Registry, name: &str) -> &'a GenArray {
    for g in reg.groups.iter() {
        if g.fn_name == name {
            return g;
        }
    }
    panic!("group not found")
}

#[test]
fn arraygen_main_tests_test_arraygen___with_proper_declarations_and_includes___generates_correct_length_methods()
{
    let decls = vec![decl("", "booleans", rf(n1("bool")))];
    let fields = vec![
        field_in("first", rf(n1("bool")), vec![attr1(entry("booleans"))]),
        field_in("second", rfm(n1("bool")), vec![attr1(entry("booleans"))]),
        field_in("third", n1("bool"), vec![attr1(entry("booleans"))]),
    ];
    let resolved = resolve_ok(registry(decls), &fields);
    assert_eq!(group(&resolved, "booleans").fields.len(), 3);
}

#[test]
fn arraygen_main_tests_test_arraygen___with_proper_declarations_and_duplicated_includes___generates_correct_length_methods()
{
    let decls = vec![
        decl("pub(crate)", "my_bools", rf(n1("bool"))),
        decl("", "booleans", n1("bool")),
    ];
    let fields = vec![
        field_in("first", n1("bool"), vec![attr1(entry("my_bools"))]),
        field_in("second", n1("bool"), vec![attr1(entry("my_bools")), attr1(entry("booleans"))]),
    ];
    let resolved = resolve_ok(registry(decls), &fields);
    assert_eq!(group(&resolved, "booleans").fields.len(), 1);
    assert_eq!(group(&resolved, "my_bools").fields.len(), 2);
}

#[test]
fn arraygen_main_tests_test_arraygen___with_proper_declarations_and_multi_includes___generates_correct_length_methods()
{
    let decls = vec![
        decl("pub(crate)", "my_bools", rf(n1("bool"))),
        decl("", "booleans", n1("bool")),
    ];
    let fields = vec![
        field_in("first", n1("bool"), vec![attr1(entry("my_bools"))]),
        field_in("second", n1("bool"), vec![attrv(vec![entry("booleans"), entry("my_bools")])]),
    ];
    let resolved = resolve_ok(registry(decls), &fields);
    assert_eq!(group(&resolved, "booleans").fields.len(), 1);
    assert_eq!(group(&resolved, "my_bools").fields.len(), 2);
}

#[test]
fn arraygen_main_tests_test_arraygen___with_proper_declarations_and_includes___can_return_generic_types()
{
    let decls = vec![decl("", "some", g1("Option", vec![n1("i32")]))];
    let fields = vec![field_in("a", g1("Option", vec![n1("i32")]), vec![attr1(entry("some"))])];
    let resolved = resolve_ok(registry(decls), &fields);
    assert_eq!(group(&resolved, "some").fields.len(), 1);
}

#[test]
fn arraygen_main_tests_test_arraygen___with_proper_declarations_and_includes___can_return_fn_types()
{
    let decls = vec![decl("", "functions", rf(n1("fn() -> ()")))];
    let fields = vec![field_in("a", n1("fn() -> ()"), vec![attr1(entry("functions"))])];
    let resolved = resolve_ok(registry(decls), &fields);
    assert_eq!(group(&resolved, "functions").fields.len(), 1);
}

#[test]
fn arraygen_main_tests_test_arraygen___without_includes___generates_0_length_arrays() {
    let decls = vec![decl("", "foo", n1("i32"))];
    let fields = vec![field("bar", n1("i32"))];
    let resolved = resolve_ok(registry(decls), &fields);
    assert_eq!(group(&resolved, "foo").fields.len(), 0);
}
