//! Group declarations: validation of a single declaration and the registry
//! that collects all declared groups under unique names.

use vstd::prelude::*;

use crate::errors::ConfigError;
use crate::errors::ErrorModel;
use crate::errors::error_models;
use crate::parse_decorator::Decorator;
use crate::parse_in_array::InArrayElement;
use crate::parse_in_array::MemberModel;
use crate::parse_in_array::member_models;
use crate::types::TypeExpr;
use crate::types::TypeModel;
use crate::types::are_matching_types;
use crate::types::lemma_type_models;
use crate::types::matches_pattern;
use crate::types::type_models;

verus! {

/// The implicit selection clause of a declaration: the decorator attached to
/// the clause itself and the ordered pattern list.
pub struct ImplicitClause {
    pub decorator: Decorator,
    pub tys: Vec<TypeExpr>,
}

/// The mathematical model of an [`ImplicitClause`].
pub struct ClauseModel {
    pub decorator: Decorator,
    pub tys: Seq<TypeModel>,
}

impl View for ImplicitClause {
    type V = ClauseModel;

    open spec fn view(&self) -> ClauseModel {
        ClauseModel { decorator: self.decorator, tys: type_models(self.tys@) }
    }
}

/// A group declaration as handed over by the ingestion step, before any
/// validation: visibility, group name, element type, and the optional
/// implicit selection clause.
pub struct GenArrayDecl {
    pub vis: String,
    pub fn_name: String,
    pub fn_ty: TypeExpr,
    pub implicit_select_all: Option<ImplicitClause>,
}

/// The mathematical model of a [`GenArrayDecl`].
pub struct DeclModel {
    pub vis: Seq<char>,
    pub fn_name: Seq<char>,
    pub fn_ty: TypeModel,
    pub implicit_select_all: Option<ClauseModel>,
}

impl View for GenArrayDecl {
    type V = DeclModel;

    open spec fn view(&self) -> DeclModel {
        DeclModel {
            vis: self.vis@,
            fn_name: self.fn_name@,
            fn_ty: self.fn_ty@,
            implicit_select_all: match self.implicit_select_all {
                Option::Some(ref c) => Option::Some(c@),
                Option::None => Option::None,
            },
        }
    }
}

/// The views of a declaration list, in order.
pub open spec fn decl_models(ds: Seq<GenArrayDecl>) -> Seq<DeclModel> {
    ds.map_values(|d: GenArrayDecl| d@)
}

/// A validated group: the declaration's data, the derived reference mode,
/// and the members the resolver will append.
pub struct GenArray {
    pub vis: String,
    pub fn_name: String,
    pub fn_ty: TypeExpr,
    pub is_mut: bool,
    pub is_ref: bool,
    pub implicit_select_all_tys: Vec<TypeExpr>,
    pub implicit_select_all_decorator: Decorator,
    pub fields: Vec<InArrayElement>,
}

/// The mathematical model of a [`GenArray`].
pub struct GroupModel {
    pub vis: Seq<char>,
    pub fn_name: Seq<char>,
    pub fn_ty: TypeModel,
    pub is_mut: bool,
    pub is_ref: bool,
    pub implicit_tys: Seq<TypeModel>,
    pub implicit_decorator: Decorator,
    pub members: Seq<MemberModel>,
}

impl View for GenArray {
    type V = GroupModel;

    open spec fn view(&self) -> GroupModel {
        GroupModel {
            vis: self.vis@,
            fn_name: self.fn_name@,
            fn_ty: self.fn_ty@,
            is_mut: self.is_mut,
            is_ref: self.is_ref,
            implicit_tys: type_models(self.implicit_select_all_tys@),
            implicit_decorator: self.implicit_select_all_decorator,
            members: member_models(self.fields@),
        }
    }
}

/// The views of a group list, in order.
pub open spec fn group_models(gs: Seq<GenArray>) -> Seq<GroupModel> {
    gs.map_values(|g: GenArray| g@)
}

/// The group a valid declaration turns into: the reference mode is read off
/// the element type, the implicit clause's data is kept, and no member is
/// resolved yet.
pub open spec fn spec_group_of_decl(d: DeclModel) -> GroupModel {
    GroupModel {
        vis: d.vis,
        fn_name: d.fn_name,
        fn_ty: d.fn_ty,
        is_mut: d.fn_ty is Reference && d.fn_ty->Reference_is_mut,
        is_ref: d.fn_ty is Reference,
        implicit_tys: match d.implicit_select_all {
            Option::Some(c) => c.tys,
            Option::None => Seq::empty(),
        },
        implicit_decorator: match d.implicit_select_all {
            Option::Some(c) => c.decorator,
            Option::None => Decorator { override_implicit: false, cast: None },
        },
        members: Seq::empty(),
    }
}

/// The first index after `i`, starting at `j`, whose pattern unifies with
/// pattern `i` (wildcards on both sides).
pub open spec fn first_match_after(tys: Seq<TypeModel>, i: int, j: int) -> Option<int>
    decreases tys.len() - j,
{
    if j >= tys.len() {
        Option::None
    } else if matches_pattern(tys[j], tys[i], true) {
        Option::Some(j)
    } else {
        first_match_after(tys, i, j + 1)
    }
}

/// Scanning pattern pairs in declaration order (outer index first), the
/// index of the second pattern of the first colliding pair, if any.
pub open spec fn first_collision_from(tys: Seq<TypeModel>, i: int) -> Option<int>
    decreases tys.len() - i,
{
    if i >= tys.len() {
        Option::None
    } else {
        match first_match_after(tys, i, i + 1) {
            Option::Some(j) => Option::Some(j),
            Option::None => first_collision_from(tys, i + 1),
        }
    }
}

/// The first colliding implicit pattern of a declaration, if any.
pub open spec fn spec_first_collision(tys: Seq<TypeModel>) -> Option<int> {
    first_collision_from(tys, 0)
}

/// The errors a single declaration raises, in report order: the forbidden
/// override flag on the clause's own decorator first, then either a missing
/// pattern list or the first duplicated pattern.
pub open spec fn spec_decl_errors(d: DeclModel) -> Seq<ErrorModel> {
    match d.implicit_select_all {
        Option::None => Seq::empty(),
        Option::Some(c) => {
            let forbidden: Seq<ErrorModel> = if c.decorator.override_implicit {
                seq![ErrorModel::ForbiddenDecoratorOnImplicitClause { group: d.fn_name }]
            } else {
                Seq::empty()
            };
            let rest: Seq<ErrorModel> = if c.tys.len() == 0 {
                seq![ErrorModel::MissingPatternType { group: d.fn_name }]
            } else {
                match spec_first_collision(c.tys) {
                    Option::Some(j) => seq![
                        ErrorModel::DuplicateImplicitPattern {
                            group: d.fn_name,
                            pattern: c.tys[j],
                        },
                    ],
                    Option::None => Seq::empty(),
                }
            };
            forbidden + rest
        },
    }
}

/// Whether some group in the list bears `name`.
pub open spec fn group_named(gs: Seq<GroupModel>, name: Seq<char>) -> bool {
    exists|i: int| 0 <= i < gs.len() && gs[i].fn_name == name
}

/// Pairwise distinct group names: the registry behaves as a map keyed by
/// group name.
pub open spec fn unique_group_names(gs: Seq<GroupModel>) -> bool {
    forall|i: int, j: int| 0 <= i < j < gs.len() ==> gs[i].fn_name != gs[j].fn_name
}

/// One step of registry building: a declaration whose name is already taken
/// is refused; otherwise a valid declaration joins the registry, and an
/// invalid one only reports its errors.
pub open spec fn spec_build_step(gs: Seq<GroupModel>, es: Seq<ErrorModel>, d: DeclModel) -> (
    Seq<GroupModel>,
    Seq<ErrorModel>,
) {
    if group_named(gs, d.fn_name) {
        (gs, es.push(ErrorModel::DuplicateGroupName { group: d.fn_name }))
    } else if spec_decl_errors(d).len() == 0 {
        (gs.push(spec_group_of_decl(d)), es)
    } else {
        (gs, es + spec_decl_errors(d))
    }
}

/// Fold [`spec_build_step`] over the declarations from index `i` on.
pub open spec fn spec_build_from(
    ds: Seq<DeclModel>,
    i: int,
    gs: Seq<GroupModel>,
    es: Seq<ErrorModel>,
) -> (Seq<GroupModel>, Seq<ErrorModel>)
    decreases ds.len() - i,
{
    if i < 0 || i >= ds.len() {
        (gs, es)
    } else {
        let step = spec_build_step(gs, es, ds[i]);
        spec_build_from(ds, i + 1, step.0, step.1)
    }
}

/// What building the registry from a declaration list yields: the valid
/// groups, and every error, both in declaration order.
pub open spec fn spec_build_registry(ds: Seq<DeclModel>) -> (Seq<GroupModel>, Seq<ErrorModel>) {
    spec_build_from(ds, 0, Seq::empty(), Seq::empty())
}

/// The well-formedness of a group list: pairwise distinct names, and within
/// each group no two implicit patterns that unify with each other.
pub open spec fn wf_groups(gs: Seq<GroupModel>) -> bool {
    unique_group_names(gs) && forall|i: int|
        0 <= i < gs.len() ==> spec_first_collision(#[trigger] gs[i].implicit_tys) is None
}

/// Registry building never lets two groups share a name, and never admits a
/// group whose implicit patterns overlap.
pub proof fn lemma_build_from_wf(
    ds: Seq<DeclModel>,
    i: int,
    gs: Seq<GroupModel>,
    es: Seq<ErrorModel>,
)
    requires
        wf_groups(gs),
    ensures
        wf_groups(spec_build_from(ds, i, gs, es).0),
    decreases ds.len() - i,
{
    if 0 <= i < ds.len() {
        let step = spec_build_step(gs, es, ds[i]);
        assert(wf_groups(step.0)) by {
            if !group_named(gs, ds[i].fn_name) && spec_decl_errors(ds[i]).len() == 0 {
                let g = spec_group_of_decl(ds[i]);
                assert(spec_first_collision(g.implicit_tys) is None) by {
                    match ds[i].implicit_select_all {
                        Option::Some(c) => {
                            assert(spec_decl_errors(ds[i]).len() == 0);
                        },
                        Option::None => {
                            assert(g.implicit_tys.len() == 0);
                        },
                    }
                }
            }
        }
        lemma_build_from_wf(ds, i + 1, step.0, step.1);
    }
}

/// Registry building hands every group over with no resolved member: the
/// members are the resolver's to append.
pub proof fn lemma_build_from_empty_members(
    ds: Seq<DeclModel>,
    i: int,
    gs: Seq<GroupModel>,
    es: Seq<ErrorModel>,
)
    requires
        forall|k: int| 0 <= k < gs.len() ==> (#[trigger] gs[k]).members.len() == 0,
    ensures
        forall|k: int|
            0 <= k < spec_build_from(ds, i, gs, es).0.len() ==> (#[trigger] spec_build_from(
                ds,
                i,
                gs,
                es,
            ).0[k]).members.len() == 0,
    decreases ds.len() - i,
{
    if 0 <= i < ds.len() {
        let step = spec_build_step(gs, es, ds[i]);
        lemma_build_from_empty_members(ds, i + 1, step.0, step.1);
    }
}

/// The registry: every validated group, in declaration order, under
/// pairwise distinct names.
pub struct Registry {
    pub groups: Vec<GenArray>,
}

impl View for Registry {
    type V = Seq<GroupModel>;

    open spec fn view(&self) -> Seq<GroupModel> {
        group_models(self.groups@)
    }
}

impl Registry {
    /// Well-formedness: group names are pairwise distinct, and no group
    /// holds two implicit patterns that unify with each other.
    pub open spec fn wf(&self) -> bool {
        wf_groups(self@)
    }
}

/// Build the registry from a declaration list.
///
/// Every declaration is validated in order and every error is collected; the
/// registry is returned only when no declaration raised any.
#[verifier::loop_isolation(false)]
pub fn build_registry(decls: Vec<GenArrayDecl>) -> (r: Result<Registry, Vec<ConfigError>>)
    ensures
        match r {
            Ok(reg) => spec_build_registry(decl_models(decls@)).1.len() == 0 && reg@
                == spec_build_registry(decl_models(decls@)).0 && reg.wf() && (forall|k: int|
                0 <= k < reg@.len() ==> (#[trigger] reg@[k]).members.len() == 0),
            Err(es) => es@.len() > 0 && error_models(es@) == spec_build_registry(
                decl_models(decls@),
            ).1,
        },
{
    let ghost ds0 = decl_models(decls@);
    let mut rest = decls;
    let mut groups: Vec<GenArray> = Vec::new();
    let mut errors: Vec<ConfigError> = Vec::new();
    let ghost mut k: int = 0;
    proof {
        assert(group_models(groups@) =~= Seq::<GroupModel>::empty());
        assert(error_models(errors@) =~= Seq::<ErrorModel>::empty());
        assert(rest@ =~= decls@.skip(0));
    }
    while rest.len() > 0
        invariant
            0 <= k <= ds0.len(),
            rest@ == decls@.skip(k),
            rest@.len() == ds0.len() - k,
            spec_build_from(ds0, 0, Seq::empty(), Seq::empty()) == spec_build_from(
                ds0,
                k,
                group_models(groups@),
                error_models(errors@),
            ),
        decreases rest@.len(),
    {
        let d = rest.remove(0);
        proof {
            assert(rest@ =~= decls@.skip(k + 1));
            assert(d == decls@[k]);
            assert(d@ == ds0[k]);
        }
        let ghost gs_before = group_models(groups@);
        let ghost es_before = error_models(errors@);
        let dup = contains_group(&groups, &d.fn_name);
        if dup {
            errors.push(ConfigError::DuplicateGroupName { group: d.fn_name.clone() });
            proof {
                assert(error_models(errors@) =~= es_before.push(
                    ErrorModel::DuplicateGroupName { group: d@.fn_name },
                ));
            }
        } else {
            match parse_gen_array_group(d) {
                Ok(g) => {
                    groups.push(g);
                    proof {
                        assert(group_models(groups@) =~= gs_before.push(
                            spec_group_of_decl(ds0[k]),
                        ));
                    }
                },
                Err(mut es) => {
                    errors.append(&mut es);
                    proof {
                        assert(error_models(errors@) =~= es_before + spec_decl_errors(ds0[k]));
                    }
                },
            }
        }
        proof {
            k = k + 1;
        }
    }
    proof {
        assert(decl_models(decls@) == ds0);
        assert(k == ds0.len());
        lemma_build_from_wf(ds0, 0, Seq::empty(), Seq::empty());
        lemma_build_from_empty_members(ds0, 0, Seq::empty(), Seq::empty());
    }
    if errors.len() == 0 {
        proof {
            assert(spec_build_registry(ds0).1 =~= error_models(errors@));
        }
        Ok(Registry { groups })
    } else {
        Err(errors)
    }
}

/// Whether the accumulated group list already holds `name`.
#[verifier::loop_isolation(false)]
fn contains_group(groups: &Vec<GenArray>, name: &String) -> (r: bool)
    ensures
        r == group_named(group_models(groups@), name@),
{
    let mut i: usize = 0;
    while i < groups.len()
        invariant
            i <= groups@.len(),
            forall|j: int| 0 <= j < i ==> group_models(groups@)[j].fn_name != name@,
        decreases groups@.len() - i,
    {
        if groups[i].fn_name == *name {
            proof {
                assert(group_models(groups@)[i as int].fn_name == name@);
            }
            return true;
        }
        i = i + 1;
    }
    false
}

/// Validate one group declaration.
///
/// A valid declaration becomes a group with no members; an invalid one
/// reports every error the declaration raises, in order.
#[verifier::loop_isolation(false)]
pub fn parse_gen_array_group(decl: GenArrayDecl) -> (r: Result<GenArray, Vec<ConfigError>>)
    ensures
        match r {
            Ok(g) => spec_decl_errors(decl@).len() == 0 && g@ == spec_group_of_decl(decl@),
            Err(es) => es@.len() > 0 && error_models(es@) == spec_decl_errors(decl@),
        },
{
    let GenArrayDecl { vis, fn_name, fn_ty, implicit_select_all } = decl;
    let is_ref: bool;
    let is_mut: bool;
    match &fn_ty {
        TypeExpr::Reference { is_mut: m, .. } => {
            is_ref = true;
            is_mut = *m;
        },
        _ => {
            is_ref = false;
            is_mut = false;
        },
    }
    match implicit_select_all {
        None => {
            let g = GenArray {
                vis,
                fn_name,
                fn_ty,
                is_mut,
                is_ref,
                implicit_select_all_tys: Vec::new(),
                implicit_select_all_decorator: Decorator::new(),
                fields: Vec::new(),
            };
            proof {
                assert(g@.implicit_tys =~= spec_group_of_decl(decl@).implicit_tys);
                assert(g@.members =~= spec_group_of_decl(decl@).members);
            }
            Ok(g)
        },
        Some(clause) => {
            let mut errors: Vec<ConfigError> = Vec::new();
            if clause.decorator.override_implicit {
                errors.push(
                    ConfigError::ForbiddenDecoratorOnImplicitClause { group: fn_name.clone() },
                );
            }
            if clause.tys.len() == 0 {
                errors.push(ConfigError::MissingPatternType { group: fn_name.clone() });
            } else {
                let ghost tys_m = type_models(clause.tys@);
                proof {
                    lemma_type_models(clause.tys@);
                }
                let n = clause.tys.len();
                let mut i: usize = 0;
                let mut collision: Option<usize> = None;
                while i < n && collision.is_none()
                    invariant
                        i <= n,
                        collision is None ==> first_collision_from(tys_m, 0)
                            == first_collision_from(tys_m, i as int),
                        collision matches Some(j0) ==> j0 < n && spec_first_collision(tys_m)
                            == Option::Some(j0 as int),
                    decreases n - i + (if collision is None { 1int } else { 0int }),
                {
                    let mut j: usize = i + 1;
                    while j < n && collision.is_none()
                        invariant
                            i < n,
                            i + 1 <= j <= n,
                            collision is None ==> first_match_after(tys_m, i as int, i as int + 1)
                                == first_match_after(tys_m, i as int, j as int),
                            collision matches Some(j0) ==> j0 < n && spec_first_collision(tys_m)
                                == Option::Some(j0 as int),
                        decreases n - j + (if collision is None { 1int } else { 0int }),
                    {
                        if are_matching_types(&clause.tys[i], &clause.tys[j]) {
                            proof {
                                assert(first_match_after(tys_m, i as int, j as int)
                                    == Option::Some(j as int));
                                assert(spec_first_collision(tys_m) == Option::Some(j as int));
                            }
                            collision = Some(j);
                        } else {
                            j = j + 1;
                        }
                    }
                    if collision.is_none() {
                        proof {
                            assert(first_match_after(tys_m, i as int, j as int) is None);
                        }
                        i = i + 1;
                    }
                }
                match collision {
                    Some(j) => {
                        proof {
                            assert(spec_first_collision(tys_m) == Option::Some(j as int));
                        }
                        errors.push(
                            ConfigError::DuplicateImplicitPattern {
                                group: fn_name.clone(),
                                pattern: clause.tys[j].clone(),
                            },
                        );
                    },
                    None => {
                        proof {
                            assert(spec_first_collision(tys_m) is None);
                        }
                    },
                }
            }
            if errors.len() == 0 {
                let g = GenArray {
                    vis,
                    fn_name,
                    fn_ty,
                    is_mut,
                    is_ref,
                    implicit_select_all_tys: clause.tys,
                    implicit_select_all_decorator: clause.decorator,
                    fields: Vec::new(),
                };
                proof {
                    assert(error_models(errors@) =~= spec_decl_errors(decl@));
                    assert(g@.members =~= spec_group_of_decl(decl@).members);
                }
                Ok(g)
            } else {
                proof {
                    assert(error_models(errors@) =~= spec_decl_errors(decl@));
                }
                Err(errors)
            }
        },
    }
}

} // verus!
