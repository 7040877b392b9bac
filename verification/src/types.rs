//! Structural type expressions and the wildcard-aware type matcher.

use vstd::prelude::*;

verus! {

/// A structural description of a Rust type, as it appears in a field
/// declaration or in a group's implicit-selection pattern.
///
/// `Wildcard` stands for the `_` placeholder: it unifies with any type
/// standing at its position.
pub enum TypeExpr {
    /// A plain path type such as `i32` or `std::fmt::Error`, one string per
    /// path segment.
    Named { path: Vec<String> },
    /// A generic application such as `Option<i32>`: the base path and the
    /// ordered type arguments.
    Generic { path: Vec<String>, args: Vec<TypeExpr> },
    /// A reference type `&T` or `&mut T`.
    Reference { is_mut: bool, inner: Box<TypeExpr> },
    /// A tuple type `(T1, ..., Tn)`.
    Tuple { elems: Vec<TypeExpr> },
    /// The `_` placeholder.
    Wildcard,
}

/// The mathematical model of a [`TypeExpr`]: the same tree over `Seq`.
pub enum TypeModel {
    Named { path: Seq<Seq<char>> },
    Generic { path: Seq<Seq<char>>, args: Seq<TypeModel> },
    Reference { is_mut: bool, inner: Box<TypeModel> },
    Tuple { elems: Seq<TypeModel> },
    Wildcard,
}

/// The views of a list of strings, in order.
pub open spec fn string_views(path: Seq<String>) -> Seq<Seq<char>> {
    path.map_values(|s: String| s@)
}

/// The model of a [`TypeExpr`] tree.
pub open spec fn type_model(t: TypeExpr) -> TypeModel
    decreases t,
{
    match t {
        TypeExpr::Named { path } => TypeModel::Named { path: string_views(path@) },
        TypeExpr::Generic { path, args } => TypeModel::Generic {
            path: string_views(path@),
            args: type_models(args@),
        },
        TypeExpr::Reference { is_mut, inner } => TypeModel::Reference {
            is_mut,
            inner: Box::new(type_model(*inner)),
        },
        TypeExpr::Tuple { elems } => TypeModel::Tuple { elems: type_models(elems@) },
        TypeExpr::Wildcard => TypeModel::Wildcard,
    }
}

/// The models of a list of type expressions, in order.
pub open spec fn type_models(ts: Seq<TypeExpr>) -> Seq<TypeModel>
    decreases ts,
{
    if ts.len() == 0 {
        Seq::empty()
    } else {
        seq![type_model(ts[0])] + type_models(ts.drop_first())
    }
}

/// `type_models` maps `type_model` over the list.
pub broadcast proof fn lemma_type_models(ts: Seq<TypeExpr>)
    ensures
        (#[trigger] type_models(ts)).len() == ts.len(),
        forall|i: int| 0 <= i < ts.len() ==> type_models(ts)[i] == type_model(ts[i]),
    decreases ts.len(),
{
    if ts.len() > 0 {
        lemma_type_models(ts.drop_first());
    }
}

impl View for TypeExpr {
    type V = TypeModel;

    open spec fn view(&self) -> TypeModel {
        type_model(*self)
    }
}

/// Whether `candidate` is an instance of the possibly-wildcarded `pattern`.
///
/// A wildcard on the pattern side matches any candidate subtree; a wildcard
/// on the candidate side matches only when `wildcard_either_side` is set.
/// Everything else is structural: base paths, reference markers and arities
/// must agree exactly, and argument slots are compared position by position.
pub open spec fn matches_pattern(
    pattern: TypeModel,
    candidate: TypeModel,
    wildcard_either_side: bool,
) -> bool
    decreases pattern,
{
    if pattern is Wildcard {
        true
    } else if wildcard_either_side && candidate is Wildcard {
        true
    } else {
        match (pattern, candidate) {
            (TypeModel::Named { path: p1 }, TypeModel::Named { path: p2 }) => p1 == p2,
            (
                TypeModel::Generic { path: p1, args: a1 },
                TypeModel::Generic { path: p2, args: a2 },
            ) => p1 == p2 && a1.len() == a2.len() && (forall|i: int|
                0 <= i < a1.len() ==> matches_pattern(
                    #[trigger] a1[i],
                    a2[i],
                    wildcard_either_side,
                )),
            (
                TypeModel::Reference { is_mut: m1, inner: i1 },
                TypeModel::Reference { is_mut: m2, inner: i2 },
            ) => m1 == m2 && matches_pattern(*i1, *i2, wildcard_either_side),
            (TypeModel::Tuple { elems: e1 }, TypeModel::Tuple { elems: e2 }) => e1.len()
                == e2.len() && (forall|i: int|
                0 <= i < e1.len() ==> matches_pattern(
                    #[trigger] e1[i],
                    e2[i],
                    wildcard_either_side,
                )),
            _ => false,
        }
    }
}

/// Deep copy of a path, segment by segment.
fn clone_path(path: &Vec<String>) -> (res: Vec<String>)
    ensures
        string_views(res@) == string_views(path@),
{
    let mut out: Vec<String> = Vec::new();
    let mut i: usize = 0;
    while i < path.len()
        invariant
            i <= path.len(),
            out@.len() == i,
            forall|j: int| 0 <= j < i ==> out@[j]@ == path@[j]@,
        decreases path.len() - i,
    {
        out.push(path[i].clone());
        i = i + 1;
    }
    proof {
        assert(string_views(out@) =~= string_views(path@));
    }
    out
}

/// Deep copy of a type expression.
#[verifier::loop_isolation(false)]
fn clone_type(t: &TypeExpr) -> (res: TypeExpr)
    ensures
        res@ == t@,
    decreases *t,
{
    match t {
        TypeExpr::Named { path } => TypeExpr::Named { path: clone_path(path) },
        TypeExpr::Generic { path, args } => {
            let mut new_args: Vec<TypeExpr> = Vec::new();
            let mut i: usize = 0;
            while i < args.len()
                invariant
                    i <= args.len(),
                    new_args@.len() == i,
                    forall|j: int| 0 <= j < i ==> new_args@[j]@ == args@[j]@,
                decreases args.len() - i,
            {
                proof {
                    assert(decreases_to!(*t => args@[i as int])) by {
                        assert(decreases_to!(*t => t->Generic_args));
                        assert(decreases_to!(*args => args@));
                        assert(decreases_to!(args@ => args@[i as int]));
                    }
                }
                new_args.push(clone_type(&args[i]));
                i = i + 1;
            }
            proof {
                lemma_type_models(new_args@);
                lemma_type_models(args@);
                assert(type_models(new_args@) =~= type_models(args@));
            }
            TypeExpr::Generic { path: clone_path(path), args: new_args }
        },
        TypeExpr::Reference { is_mut, inner } => TypeExpr::Reference {
            is_mut: *is_mut,
            inner: Box::new(clone_type(inner)),
        },
        TypeExpr::Tuple { elems } => {
            let mut new_elems: Vec<TypeExpr> = Vec::new();
            let mut i: usize = 0;
            while i < elems.len()
                invariant
                    i <= elems.len(),
                    new_elems@.len() == i,
                    forall|j: int| 0 <= j < i ==> new_elems@[j]@ == elems@[j]@,
                decreases elems.len() - i,
            {
                proof {
                    assert(decreases_to!(*t => elems@[i as int])) by {
                        assert(decreases_to!(*t => t->Tuple_elems));
                        assert(decreases_to!(*elems => elems@));
                        assert(decreases_to!(elems@ => elems@[i as int]));
                    }
                }
                new_elems.push(clone_type(&elems[i]));
                i = i + 1;
            }
            proof {
                lemma_type_models(new_elems@);
                lemma_type_models(elems@);
                assert(type_models(new_elems@) =~= type_models(elems@));
            }
            TypeExpr::Tuple { elems: new_elems }
        },
        TypeExpr::Wildcard => TypeExpr::Wildcard,
    }
}

impl Clone for TypeExpr {
    /// A clone keeps the whole structure of the tree.
    fn clone(&self) -> (res: Self)
        ensures
            res@ == self@,
    {
        clone_type(self)
    }
}

/// Whether two paths spell the same name.
fn eq_path(a: &Vec<String>, b: &Vec<String>) -> (r: bool)
    ensures
        r == (string_views(a@) == string_views(b@)),
{
    if a.len() != b.len() {
        proof {
            assert(string_views(a@).len() != string_views(b@).len());
        }
        return false;
    }
    let mut i: usize = 0;
    while i < a.len()
        invariant
            i <= a.len(),
            a@.len() == b@.len(),
            forall|j: int| 0 <= j < i ==> a@[j]@ == b@[j]@,
        decreases a.len() - i,
    {
        if !(a[i] == b[i]) {
            proof {
                assert(string_views(a@)[i as int] != string_views(b@)[i as int]);
            }
            return false;
        }
        i = i + 1;
    }
    proof {
        assert(string_views(a@) =~= string_views(b@));
    }
    true
}

/// The structural matcher: whether `left` is an instance of the pattern
/// `right`, honouring wildcards on the right side always and on the left
/// side only when `wildcards_on_left` is set.
#[verifier::loop_isolation(false)]
pub fn compare_types(left: &TypeExpr, right: &TypeExpr, wildcards_on_left: bool) -> (r: bool)
    ensures
        r == matches_pattern(right@, left@, wildcards_on_left),
    decreases *right,
{
    match (left, right) {
        (_, TypeExpr::Wildcard) => true,
        (TypeExpr::Wildcard, _) => wildcards_on_left,
        (TypeExpr::Named { path: p1 }, TypeExpr::Named { path: p2 }) => eq_path(p1, p2),
        (
            TypeExpr::Generic { path: p1, args: a1 },
            TypeExpr::Generic { path: p2, args: a2 },
        ) => {
            if !eq_path(p1, p2) {
                return false;
            }
            if a1.len() != a2.len() {
                proof {
                    lemma_type_models(a1@);
                    lemma_type_models(a2@);
                }
                return false;
            }
            let mut i: usize = 0;
            while i < a1.len()
                invariant
                    i <= a1.len(),
                    a1@.len() == a2@.len(),
                    forall|j: int|
                        0 <= j < i ==> matches_pattern(
                            type_model(a2@[j]),
                            type_model(a1@[j]),
                            wildcards_on_left,
                        ),
                decreases a1.len() - i,
            {
                proof {
                    assert(decreases_to!(*right => a2@[i as int])) by {
                        assert(decreases_to!(*right => right->Generic_args));
                        assert(decreases_to!(*a2 => a2@));
                        assert(decreases_to!(a2@ => a2@[i as int]));
                    }
                }
                if !compare_types(&a1[i], &a2[i], wildcards_on_left) {
                    proof {
                        lemma_type_models(a1@);
                        lemma_type_models(a2@);
                        assert(!matches_pattern(
                            type_models(a2@)[i as int],
                            type_models(a1@)[i as int],
                            wildcards_on_left,
                        ));
                    }
                    return false;
                }
                i = i + 1;
            }
            proof {
                lemma_type_models(a1@);
                lemma_type_models(a2@);
            }
            true
        },
        (
            TypeExpr::Reference { is_mut: m1, inner: i1 },
            TypeExpr::Reference { is_mut: m2, inner: i2 },
        ) => {
            if *m1 != *m2 {
                return false;
            }
            compare_types(i1, i2, wildcards_on_left)
        },
        (TypeExpr::Tuple { elems: e1 }, TypeExpr::Tuple { elems: e2 }) => {
            if e1.len() != e2.len() {
                proof {
                    lemma_type_models(e1@);
                    lemma_type_models(e2@);
                }
                return false;
            }
            let mut i: usize = 0;
            while i < e1.len()
                invariant
                    i <= e1.len(),
                    e1@.len() == e2@.len(),
                    forall|j: int|
                        0 <= j < i ==> matches_pattern(
                            type_model(e2@[j]),
                            type_model(e1@[j]),
                            wildcards_on_left,
                        ),
                decreases e1.len() - i,
            {
                proof {
                    assert(decreases_to!(*right => e2@[i as int])) by {
                        assert(decreases_to!(*right => right->Tuple_elems));
                        assert(decreases_to!(*e2 => e2@));
                        assert(decreases_to!(e2@ => e2@[i as int]));
                    }
                }
                if !compare_types(&e1[i], &e2[i], wildcards_on_left) {
                    proof {
                        lemma_type_models(e1@);
                        lemma_type_models(e2@);
                        assert(!matches_pattern(
                            type_models(e2@)[i as int],
                            type_models(e1@)[i as int],
                            wildcards_on_left,
                        ));
                    }
                    return false;
                }
                i = i + 1;
            }
            proof {
                lemma_type_models(e1@);
                lemma_type_models(e2@);
            }
            true
        },
        _ => false,
    }
}

/// Whether `left_ty` and `right_ty` unify, honouring wildcard placeholders
/// on both sides.
pub fn are_matching_types(left_ty: &TypeExpr, right_ty: &TypeExpr) -> (r: bool)
    ensures
        r == matches_pattern(right_ty@, left_ty@, true),
{
    compare_types(left_ty, right_ty, true)
}

/// Whether the concrete field type `field_ty` is an instance of the implicit
/// selection pattern `implicit_ty`; wildcards count only in the pattern.
pub fn ty_inferred_by(field_ty: &TypeExpr, implicit_ty: &TypeExpr) -> (r: bool)
    ensures
        r == matches_pattern(implicit_ty@, field_ty@, false),
{
    compare_types(field_ty, implicit_ty, false)
}

/// Whether `field_ty` is an instance of the implicit selection pattern
/// `implicit_ty`: the same test as [`ty_inferred_by`], under the name the
/// declaration parser uses.
pub fn equal_types(field_ty: &TypeExpr, implicit_ty: &TypeExpr) -> (r: bool)
    ensures
        r == matches_pattern(implicit_ty@, field_ty@, false),
{
    compare_types(field_ty, implicit_ty, false)
}

/// A bare wildcard pattern matches every candidate, whatever the wildcard
/// policy for the candidate side.
pub proof fn lemma_wildcard_matches_all(t: TypeModel, wildcard_either_side: bool)
    ensures
        matches_pattern(TypeModel::Wildcard, t, wildcard_either_side),
{
}

/// Matching is reflexive: every type expression is an instance of itself.
pub proof fn lemma_matches_reflexive(t: TypeModel, wildcard_either_side: bool)
    ensures
        matches_pattern(t, t, wildcard_either_side),
    decreases t,
{
    match t {
        TypeModel::Generic { path, args } => {
            assert forall|i: int| 0 <= i < args.len() implies matches_pattern(
                #[trigger] args[i],
                args[i],
                wildcard_either_side,
            ) by {
                lemma_matches_reflexive(args[i], wildcard_either_side);
            }
        },
        TypeModel::Reference { is_mut, inner } => {
            lemma_matches_reflexive(*inner, wildcard_either_side);
        },
        TypeModel::Tuple { elems } => {
            assert forall|i: int| 0 <= i < elems.len() implies matches_pattern(
                #[trigger] elems[i],
                elems[i],
                wildcard_either_side,
            ) by {
                lemma_matches_reflexive(elems[i], wildcard_either_side);
            }
        },
        _ => {},
    }
}

/// With wildcards honoured on both sides, matching does not depend on which
/// expression plays the pattern: the overlap test between two implicit
/// selection patterns is the same in either direction.
pub proof fn lemma_matches_symmetric(a: TypeModel, b: TypeModel)
    ensures
        matches_pattern(a, b, true) == matches_pattern(b, a, true),
    decreases a,
{
    match (a, b) {
        (TypeModel::Generic { path: p1, args: a1 }, TypeModel::Generic { path: p2, args: a2 }) => {
            if a1.len() == a2.len() {
                assert forall|i: int| 0 <= i < a1.len() implies matches_pattern(
                    #[trigger] a1[i],
                    a2[i],
                    true,
                ) == matches_pattern(a2[i], a1[i], true) by {
                    lemma_matches_symmetric(a1[i], a2[i]);
                }
            }
        },
        (
            TypeModel::Reference { is_mut: m1, inner: i1 },
            TypeModel::Reference { is_mut: m2, inner: i2 },
        ) => {
            lemma_matches_symmetric(*i1, *i2);
        },
        (TypeModel::Tuple { elems: e1 }, TypeModel::Tuple { elems: e2 }) => {
            if e1.len() == e2.len() {
                assert forall|i: int| 0 <= i < e1.len() implies matches_pattern(
                    #[trigger] e1[i],
                    e2[i],
                    true,
                ) == matches_pattern(e2[i], e1[i], true) by {
                    lemma_matches_symmetric(e1[i], e2[i]);
                }
            }
        },
        _ => {},
    }
}

} // verus!
