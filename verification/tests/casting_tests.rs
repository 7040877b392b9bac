#![allow(dead_code)]

use arraygen::parse_decorator::CastKind;
use arraygen::parse_decorator::Decorator;
use arraygen::parse_gen_array::GenArray;
use arraygen::parse_gen_array::GenArrayDecl;
use arraygen::parse_gen_array::ImplicitClause;
use arraygen::parse_gen_array::Registry;
use arraygen::parse_gen_array::build_registry;
use arraygen::parse_in_array::InArrayAttribute;
use arraygen::parse_in_array::InArrayAttributeEntry;
use arraygen::parse_in_array::InArrayElementKind;
use arraygen::parse_in_array::InArrayField;
use arraygen::resolver::resolve;
use arraygen::types::TypeExpr;

fn named(path: &[&str]) -> TypeExpr {
    TypeExpr::Named { path: path.iter().map(|s| s.to_string()).collect() }
}

fn n1(s: &str) -> TypeExpr {
    named(&[s])
}

fn g1(base: &str, args: Vec<TypeExpr>) -> TypeExpr {
    TypeExpr::Generic { path: vec![base.to_string()], args }
}

fn rf(inner: TypeExpr) -> TypeExpr {
    TypeExpr::Reference { is_mut: false, inner: Box::new(inner) }
}

fn rfm(inner: TypeExpr) -> TypeExpr {
    TypeExpr::Reference { is_mut: true, inner: Box::new(inner) }
}

fn wc() -> TypeExpr {
    TypeExpr::Wildcard
}

fn no_dec() -> Decorator {
    Decorator::new()
}

fn cast_dec() -> Decorator {
    Decorator { override_implicit: false, cast: Some(CastKind::SafeCast) }
}

fn transmute_dec() -> Decorator {
    Decorator { override_implicit: false, cast: Some(CastKind::UnsafeTransmute) }
}

fn decl(vis: &str, name: &str, ty: TypeExpr) -> GenArrayDecl {
    GenArrayDecl {
        vis: vis.to_string(),
        fn_name: name.to_string(),
        fn_ty: ty,
        implicit_select_all: None,
    }
}

fn decl_implicit(
    vis: &str,
    name: &str,
    ty: TypeExpr,
    decorator: Decorator,
    tys: Vec<TypeExpr>,
) -> GenArrayDecl {
    GenArrayDecl {
        vis: vis.to_string(),
        fn_name: name.to_string(),
        fn_ty: ty,
        implicit_select_all: Some(ImplicitClause { decorator, tys }),
    }
}

fn entry(group: &str) -> InArrayAttributeEntry {
    InArrayAttributeEntry { ident: group.to_string(), decorator: Decorator::new() }
}

fn entry_dec(group: &str, decorator: Decorator) -> InArrayAttributeEntry {
    InArrayAttributeEntry { ident: group.to_string(), decorator }
}

fn attrv(entries: Vec<InArrayAttributeEntry>) -> InArrayAttribute {
    InArrayAttribute { entries }
}

fn attr1(e: InArrayAttributeEntry) -> InArrayAttribute {
    InArrayAttribute { entries: vec![e] }
}

fn field(name: &str, ty: TypeExpr) -> InArrayField {
    InArrayField { attrs: vec![], ident: name.to_string(), ty }
}

fn field_in(name: &str, ty: TypeExpr, attrs: Vec<InArrayAttribute>) -> InArrayField {
    InArrayField { attrs, ident: name.to_string(), ty }
}

fn registry(decls: Vec<GenArrayDecl>) -> Registry {
    match build_registry(decls) {
        Ok(r) => r,
        Err(_) => panic!("registry build failed"),
    }
}

fn resolve_ok(reg: Registry, fields: &Vec<InArrayField>) -> Registry {
    match resolve(reg, fields) {
        Ok(r) => r,
        Err(_) => panic!("resolve failed"),
    }
}

fn group<'a>(reg: &'a Registry, name: &str) -> &'a GenArray {
    for g in reg.groups.iter() {
        if g.fn_name == name {
            return g;
        }
    }
    panic!("group not found")
}

#[test]
fn test_casting_on_in_array___returns_expected_result() {
    let decls = vec![decl("", "bytes", n1("u8"))];
    let fields = vec![field_in("a", n1("i32"), vec![attr1(entry_dec("bytes", cast_dec()))])];
    let resolved = resolve_ok(registry(decls), &fields);
    let g = group(&resolved, "bytes");
    assert_eq!(g.fields.len(), 1);
    assert!(matches!(g.fields[0].cast, Some(CastKind::SafeCast)));
    let a: i32 = -1;
    assert_eq!(a as u8, 255);
}

#[test]
fn test_unsafe_transmute_on_in_array___returns_expected_result() {
    let decls = vec![decl("", "numbers", n1("i32"))];
    let fields = vec![field_in(
        "a",
        n1("f32"),
        vec![attr1(entry_dec("numbers", transmute_dec()))],
    )];
    let resolved = resolve_ok(registry(decls), &fields);
    let g = group(&resolved, "numbers");
    assert_eq!(g.fields.len(), 1);
    assert!(matches!(g.fields[0].cast, Some(CastKind::UnsafeTransmute)));
    let a: f32 = -1.23456789;
    assert_eq!(a.to_bits() as i32, -1080162734);
}

#[test]
fn test_unsafe_transmute_on_in_array___between_refs___returns_expected_result() {
    let decls = vec![decl("", "number_refs", rf(n1("i32")))];
    let fields = vec![field_in(
        "a",
        rf(n1("f32")),
        vec![attr1(entry_dec("number_refs", transmute_dec()))],
    )];
    let resolved = resolve_ok(registry(decls), &fields);
    let g = group(&resolved, "number_refs");
    assert_eq!(g.fields.len(), 1);
    assert!(matches!(g.fields[0].cast, Some(CastKind::UnsafeTransmute)));
    let foo: f32 = -1.23456789;
    assert_eq!(foo.to_bits() as i32, -1080162734);
}

#[test]
fn test_unsafe_transmute_on_in_array___from_number_to_ref___compiles_correctly() {
    let decls = vec![decl("", "number_refs", rf(n1("i32")))];
    let fields = vec![field_in(
        "a",
        n1("f32"),
        vec![attr1(entry_dec("number_refs", transmute_dec()))],
    )];
    let resolved = resolve_ok(registry(decls), &fields);
    let g = group(&resolved, "number_refs");
    assert_eq!(g.fields.len(), 1);
    assert!(matches!(g.fields[0].cast, Some(CastKind::UnsafeTransmute)));
    let a: f32 = -1.23456789;
    assert_eq!(a.to_bits() as i32, -1080162734);
}

#[test]
fn test_casting_on_implicit_select_all___returns_expepcted_sum() {
    let decls = vec![decl_implicit(
        "",
        "number_refs",
        n1("f64"),
        cast_dec(),
        vec![
            n1("i8"),
            n1("u8"),
            n1("i16"),
            n1("u16"),
            n1("i32"),
            n1("u32"),
            n1("f32"),
            n1("f64"),
        ],
    )];
    let fields = vec![
        field("a", n1("i32")),
        field("b", n1("u32")),
        field("c", n1("i16")),
        field("d", n1("u16")),
        field("e", n1("f32")),
    ];
    let resolved = resolve_ok(registry(decls), &fields);
    let g = group(&resolved, "number_refs");
    assert_eq!(g.fields.len(), 5);
    let value = |ident: &str| -> f64 {
        match ident {
            "a" => 1 as f64,
            "b" => 1 as f64,
            "c" => 1 as f64,
            "d" => 1 as f64,
            "e" => 1.0 as f64,
            _ => panic!("unexpected field"),
        }
    };
    let mut sum: f64 = 0.0;
    for m in g.fields.iter() {
        assert!(matches!(m.cast, Some(CastKind::SafeCast)));
        sum += value(&m.ident);
    }
    assert_eq!(sum, 5.0);
}

#[test]
fn test_overrideding_cast___from_implicit_select_all_with_no_decorator___compiles_correctly() {
    let decls = vec![decl_implicit("", "my_array", n1("f32"), no_dec(), vec![n1("f32")])];
    let override_then_cast = Decorator { override_implicit: true, cast: Some(CastKind::SafeCast) };
    let fields = vec![field_in(
        "a",
        n1("i32"),
        vec![attr1(entry_dec("my_array", override_then_cast))],
    )];
    let _ = resolve_ok(registry(decls), &fields);

    let decls2 = vec![decl_implicit("", "my_array", n1("f32"), no_dec(), vec![n1("f32")])];
    let cast_then_override = Decorator { override_implicit: true, cast: Some(CastKind::SafeCast) };
    let fields2 = vec![field_in(
        "a",
        n1("i32"),
        vec![attr1(entry_dec("my_array", cast_then_override))],
    )];
    let _ = resolve_ok(registry(decls2), &fields2);
}
