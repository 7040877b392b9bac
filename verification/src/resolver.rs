//! The selection resolver: walks every field of the record in declaration
//! order, applies every group's implicit selection patterns, then the
//! field's explicit membership entries, merging them under the override and
//! conflict rules.

use vstd::prelude::*;

use crate::errors::ConfigError;
use crate::errors::ErrorModel;
use crate::errors::error_models;
use crate::parse_gen_array::GenArray;
use crate::parse_gen_array::GroupModel;
use crate::parse_gen_array::Registry;
use crate::parse_gen_array::group_models;
use crate::parse_gen_array::spec_first_collision;
use crate::parse_gen_array::wf_groups;
use crate::parse_in_array::EntryModel;
use crate::parse_in_array::FieldModel;
use crate::parse_in_array::InArrayAttributeEntry;
use crate::parse_in_array::InArrayElement;
use crate::parse_in_array::InArrayElementKind;
use crate::parse_in_array::InArrayField;
use crate::parse_in_array::MemberModel;
use crate::parse_in_array::field_models;
use crate::parse_in_array::member_models;
use crate::types::TypeExpr;
use crate::types::TypeModel;
use crate::types::lemma_type_models;
use crate::types::matches_pattern;
use crate::types::ty_inferred_by;
use crate::types::type_models;

verus! {

/// Whether one of `g`'s implicit selection patterns selects a field of type
/// `fty`; wildcards count only on the pattern side.
pub open spec fn implicit_selects(g: GroupModel, fty: TypeModel) -> bool {
    exists|p: int| 0 <= p < g.implicit_tys.len() && matches_pattern(g.implicit_tys[p], fty, false)
}

/// The member an implicit selection grants: the group's own implicit cast,
/// implicit origin.
pub open spec fn implicit_member_of(g: GroupModel, f: FieldModel) -> MemberModel {
    MemberModel {
        ident: f.ident,
        ty: f.ty,
        cast: g.implicit_decorator.cast,
        kind: InArrayElementKind::Implicit,
    }
}

/// The member an explicit entry grants: the entry's own cast, explicit
/// origin.
pub open spec fn explicit_member_of(f: FieldModel, e: EntryModel) -> MemberModel {
    MemberModel {
        ident: f.ident,
        ty: f.ty,
        cast: e.decorator.cast,
        kind: InArrayElementKind::InArray,
    }
}

/// One group after the implicit phase of one field: a matching field is
/// appended once, however many patterns select it.
pub open spec fn spec_apply_implicit_one(g: GroupModel, f: FieldModel) -> GroupModel {
    if implicit_selects(g, f.ty) {
        GroupModel { members: g.members.push(implicit_member_of(g, f)), ..g }
    } else {
        g
    }
}

/// All groups after the implicit phase of one field.
pub open spec fn spec_apply_implicit(gs: Seq<GroupModel>, f: FieldModel) -> Seq<GroupModel> {
    gs.map_values(|g: GroupModel| spec_apply_implicit_one(g, f))
}

/// The first member with identifier `ident`, scanning from `i`.
pub open spec fn first_member_from(ms: Seq<MemberModel>, ident: Seq<char>, i: int) -> Option<int>
    decreases ms.len() - i,
{
    if i < 0 || i >= ms.len() {
        Option::None
    } else if ms[i].ident == ident {
        Option::Some(i)
    } else {
        first_member_from(ms, ident, i + 1)
    }
}

/// The first member of the list with identifier `ident`, if any.
pub open spec fn find_member(ms: Seq<MemberModel>, ident: Seq<char>) -> Option<int> {
    first_member_from(ms, ident, 0)
}

/// The first group named `name`, scanning from `i`.
pub open spec fn first_group_from(gs: Seq<GroupModel>, name: Seq<char>, i: int) -> Option<int>
    decreases gs.len() - i,
{
    if i < 0 || i >= gs.len() {
        Option::None
    } else if gs[i].fn_name == name {
        Option::Some(i)
    } else {
        first_group_from(gs, name, i + 1)
    }
}

/// The first group of the list named `name`, if any.
pub open spec fn find_group(gs: Seq<GroupModel>, name: Seq<char>) -> Option<int> {
    first_group_from(gs, name, 0)
}

/// One explicit entry applied to the group list.
///
/// An unknown group name is an error.  A field already resolved in the group
/// is replaced only when the standing member is implicit and the entry
/// carries the override flag; any other repetition is a conflict.  Otherwise
/// the entry appends a new explicit member.
pub open spec fn spec_apply_entry(
    gs: Seq<GroupModel>,
    es: Seq<ErrorModel>,
    f: FieldModel,
    e: EntryModel,
) -> (Seq<GroupModel>, Seq<ErrorModel>) {
    match find_group(gs, e.ident) {
        Option::None => (gs, es.push(ErrorModel::UnknownGroup { group: e.ident, field: f.ident })),
        Option::Some(gi) => {
            let g = gs[gi];
            match find_member(g.members, f.ident) {
                Option::Some(mi) => {
                    if g.members[mi].kind is Implicit && e.decorator.override_implicit {
                        (
                            gs.update(
                                gi,
                                GroupModel {
                                    members: g.members.update(mi, explicit_member_of(f, e)),
                                    ..g
                                },
                            ),
                            es,
                        )
                    } else {
                        (
                            gs,
                            es.push(
                                ErrorModel::DuplicateFieldInGroup {
                                    group: e.ident,
                                    field: f.ident,
                                },
                            ),
                        )
                    }
                },
                Option::None => (
                    gs.update(
                        gi,
                        GroupModel { members: g.members.push(explicit_member_of(f, e)), ..g },
                    ),
                    es,
                ),
            }
        },
    }
}

/// Fold [`spec_apply_entry`] over one annotation's entries from `i` on.
pub open spec fn spec_apply_entries(
    gs: Seq<GroupModel>,
    es: Seq<ErrorModel>,
    f: FieldModel,
    entries: Seq<EntryModel>,
    i: int,
) -> (Seq<GroupModel>, Seq<ErrorModel>)
    decreases entries.len() - i,
{
    if i < 0 || i >= entries.len() {
        (gs, es)
    } else {
        let step = spec_apply_entry(gs, es, f, entries[i]);
        spec_apply_entries(step.0, step.1, f, entries, i + 1)
    }
}

/// Fold the field's annotations from `i` on, each annotation's entries in
/// written order.
pub open spec fn spec_apply_attrs(
    gs: Seq<GroupModel>,
    es: Seq<ErrorModel>,
    f: FieldModel,
    i: int,
) -> (Seq<GroupModel>, Seq<ErrorModel>)
    decreases f.attrs.len() - i,
{
    if i < 0 || i >= f.attrs.len() {
        (gs, es)
    } else {
        let step = spec_apply_entries(gs, es, f, f.attrs[i], 0);
        spec_apply_attrs(step.0, step.1, f, i + 1)
    }
}

/// One field: the implicit phase over every group, then the field's
/// explicit entries.
pub open spec fn spec_apply_field(gs: Seq<GroupModel>, es: Seq<ErrorModel>, f: FieldModel) -> (
    Seq<GroupModel>,
    Seq<ErrorModel>,
) {
    spec_apply_attrs(spec_apply_implicit(gs, f), es, f, 0)
}

/// Fold [`spec_apply_field`] over the fields from `i` on.
pub open spec fn spec_resolve_from(
    gs: Seq<GroupModel>,
    es: Seq<ErrorModel>,
    fs: Seq<FieldModel>,
    i: int,
) -> (Seq<GroupModel>, Seq<ErrorModel>)
    decreases fs.len() - i,
{
    if i < 0 || i >= fs.len() {
        (gs, es)
    } else {
        let step = spec_apply_field(gs, es, fs[i]);
        spec_resolve_from(step.0, step.1, fs, i + 1)
    }
}

/// What resolving a field list against a registry yields: the groups with
/// their resolved members appended in field order, and every error, in
/// field order then entry order.
pub open spec fn spec_resolve(gs: Seq<GroupModel>, fs: Seq<FieldModel>) -> (
    Seq<GroupModel>,
    Seq<ErrorModel>,
) {
    spec_resolve_from(gs, Seq::empty(), fs, 0)
}

/// Whether one of the group's implicit patterns selects a field of type
/// `fty`; scanning stops at the first matching pattern.
#[verifier::loop_isolation(false)]
fn group_implicit_match(g: &GenArray, fty: &TypeExpr) -> (r: bool)
    ensures
        r == implicit_selects(g@, fty@),
{
    let ghost tys_m = type_models(g.implicit_select_all_tys@);
    proof {
        lemma_type_models(g.implicit_select_all_tys@);
    }
    let n = g.implicit_select_all_tys.len();
    let mut p: usize = 0;
    while p < n
        invariant
            p <= n,
            forall|q: int| 0 <= q < p ==> !matches_pattern(tys_m[q], fty@, false),
        decreases n - p,
    {
        if ty_inferred_by(fty, &g.implicit_select_all_tys[p]) {
            proof {
                assert(matches_pattern(g@.implicit_tys[p as int], fty@, false));
            }
            return true;
        }
        p = p + 1;
    }
    false
}

/// The implicit phase of one field: every group whose pattern list selects
/// the field's type appends one implicit member for it.
#[verifier::loop_isolation(false)]
fn apply_implicit_phase(groups: &mut Vec<GenArray>, field: &InArrayField)
    ensures
        group_models(final(groups)@) == spec_apply_implicit(group_models(old(groups)@), field@),
{
    let ghost gs_start = group_models(groups@);
    let n = groups.len();
    let mut gi: usize = 0;
    while gi < n
        invariant
            gi <= n,
            groups@.len() == n,
            forall|j: int|
                0 <= j < gi ==> group_models(groups@)[j] == spec_apply_implicit_one(
                    gs_start[j],
                    field@,
                ),
            forall|j: int| gi <= j < n ==> group_models(groups@)[j] == gs_start[j],
        decreases n - gi,
    {
        let ghost groups_before = groups@;
        let matched = group_implicit_match(&groups[gi], &field.ty);
        if matched {
            let cast = groups[gi].implicit_select_all_decorator.cast;
            let member = InArrayElement {
                ident: field.ident.clone(),
                ty: field.ty.clone(),
                cast,
                kind: InArrayElementKind::Implicit,
            };
            proof {
                assert(member@ == implicit_member_of(gs_start[gi as int], field@));
            }
            let g = &mut groups[gi];
            g.fields.push(member);
            proof {
                assert(member_models(groups@[gi as int].fields@) =~= member_models(
                    groups_before[gi as int].fields@,
                ).push(implicit_member_of(gs_start[gi as int], field@)));
            }
        }
        proof {
            assert forall|j: int| 0 <= j < gi + 1 implies group_models(groups@)[j]
                == spec_apply_implicit_one(gs_start[j], field@) by {
                if j == gi {
                    assert(group_models(groups@)[j] == groups@[j]@);
                } else {
                    assert(groups@[j] == groups_before[j]);
                    assert(group_models(groups_before)[j] == groups_before[j]@);
                }
            }
            assert forall|j: int| gi + 1 <= j < n implies group_models(groups@)[j] == gs_start[j]
                by {
                assert(groups@[j] == groups_before[j]);
                assert(group_models(groups_before)[j] == groups_before[j]@);
            }
        }
        gi = gi + 1;
    }
    proof {
        assert(group_models(groups@) =~= spec_apply_implicit(gs_start, field@));
    }
}

/// Everything of a group but its resolved members: what the resolver may
/// never touch.
pub open spec fn same_frame(a: GroupModel, b: GroupModel) -> bool {
    a.fn_name == b.fn_name && a.vis == b.vis && a.fn_ty == b.fn_ty && a.is_mut == b.is_mut
        && a.is_ref == b.is_ref && a.implicit_tys == b.implicit_tys && a.implicit_decorator
        == b.implicit_decorator
}

/// Two group lists of one length whose groups agree on everything but their
/// members.
pub open spec fn frames_eq(a: Seq<GroupModel>, b: Seq<GroupModel>) -> bool {
    a.len() == b.len() && forall|i: int| 0 <= i < a.len() ==> same_frame(#[trigger] a[i], b[i])
}

proof fn lemma_first_group_from_bounds(gs: Seq<GroupModel>, name: Seq<char>, i: int)
    ensures
        first_group_from(gs, name, i) matches Option::Some(j) ==> 0 <= i <= j < gs.len(),
    decreases gs.len() - i,
{
    if 0 <= i < gs.len() && gs[i].fn_name != name {
        lemma_first_group_from_bounds(gs, name, i + 1);
    }
}

proof fn lemma_entry_frames(gs: Seq<GroupModel>, es: Seq<ErrorModel>, f: FieldModel, e: EntryModel)
    ensures
        frames_eq(gs, spec_apply_entry(gs, es, f, e).0),
{
    let out = spec_apply_entry(gs, es, f, e).0;
    lemma_first_group_from_bounds(gs, e.ident, 0);
    assert forall|i: int| 0 <= i < gs.len() implies same_frame(#[trigger] gs[i], out[i]) by {}
}

proof fn lemma_entries_frames(
    gs: Seq<GroupModel>,
    es: Seq<ErrorModel>,
    f: FieldModel,
    entries: Seq<EntryModel>,
    i: int,
)
    ensures
        frames_eq(gs, spec_apply_entries(gs, es, f, entries, i).0),
    decreases entries.len() - i,
{
    if 0 <= i < entries.len() {
        let step = spec_apply_entry(gs, es, f, entries[i]);
        lemma_entry_frames(gs, es, f, entries[i]);
        lemma_entries_frames(step.0, step.1, f, entries, i + 1);
    }
}

proof fn lemma_attrs_frames(gs: Seq<GroupModel>, es: Seq<ErrorModel>, f: FieldModel, i: int)
    ensures
        frames_eq(gs, spec_apply_attrs(gs, es, f, i).0),
    decreases f.attrs.len() - i,
{
    if 0 <= i < f.attrs.len() {
        let step = spec_apply_entries(gs, es, f, f.attrs[i], 0);
        lemma_entries_frames(gs, es, f, f.attrs[i], 0);
        lemma_attrs_frames(step.0, step.1, f, i + 1);
    }
}

proof fn lemma_field_frames(gs: Seq<GroupModel>, es: Seq<ErrorModel>, f: FieldModel)
    ensures
        frames_eq(gs, spec_apply_field(gs, es, f).0),
{
    let after_implicit = spec_apply_implicit(gs, f);
    assert forall|i: int| 0 <= i < gs.len() implies same_frame(
        #[trigger] gs[i],
        after_implicit[i],
    ) by {}
    lemma_attrs_frames(after_implicit, es, f, 0);
}

proof fn lemma_resolve_from_frames(
    gs: Seq<GroupModel>,
    es: Seq<ErrorModel>,
    fs: Seq<FieldModel>,
    i: int,
)
    ensures
        frames_eq(gs, spec_resolve_from(gs, es, fs, i).0),
    decreases fs.len() - i,
{
    if 0 <= i < fs.len() {
        let step = spec_apply_field(gs, es, fs[i]);
        lemma_field_frames(gs, es, fs[i]);
        lemma_resolve_from_frames(step.0, step.1, fs, i + 1);
    }
}

/// The resolver's output is stable and deterministic: the groups come back
/// as one list of the same length, in the same order, each keeping its
/// name, visibility, element type, reference mode and implicit clause; only
/// the resolved members are appended.  Together with `resolve`'s contract,
/// which pins its result to this one function of the inputs, resolving one
/// declaration set twice yields identical groups in identical order.
pub proof fn lemma_resolve_stable(gs: Seq<GroupModel>, fs: Seq<FieldModel>)
    ensures
        spec_resolve(gs, fs).0.len() == gs.len(),
        forall|i: int|
            0 <= i < gs.len() ==> same_frame(#[trigger] gs[i], spec_resolve(gs, fs).0[i]),
{
    lemma_resolve_from_frames(gs, Seq::empty(), fs, 0);
}

/// No two members of one group name the same field.
pub open spec fn member_idents_unique(g: GroupModel) -> bool {
    forall|i: int, j: int|
        0 <= i < j < g.members.len() ==> g.members[i].ident != g.members[j].ident
}

/// Every member of the group names a field drawn from `s`.
spec fn members_within(g: GroupModel, s: Set<Seq<char>>) -> bool {
    forall|i: int| 0 <= i < g.members.len() ==> s.contains(#[trigger] g.members[i].ident)
}

/// Every group's members name distinct fields, all drawn from `s`.
spec fn groups_ok(gs: Seq<GroupModel>, s: Set<Seq<char>>) -> bool {
    forall|k: int|
        0 <= k < gs.len() ==> member_idents_unique(#[trigger] gs[k]) && members_within(gs[k], s)
}

proof fn lemma_first_member_from_props(ms: Seq<MemberModel>, ident: Seq<char>, i: int)
    requires
        0 <= i,
    ensures
        first_member_from(ms, ident, i) matches Option::Some(j) ==> i <= j < ms.len()
            && ms[j].ident == ident,
        first_member_from(ms, ident, i) is None ==> forall|j: int|
            i <= j < ms.len() ==> ms[j].ident != ident,
    decreases ms.len() - i,
{
    if i < ms.len() && ms[i].ident != ident {
        lemma_first_member_from_props(ms, ident, i + 1);
    }
}

proof fn lemma_entry_members_ok(
    gs: Seq<GroupModel>,
    es: Seq<ErrorModel>,
    f: FieldModel,
    e: EntryModel,
    s: Set<Seq<char>>,
)
    requires
        groups_ok(gs, s),
        s.contains(f.ident),
    ensures
        groups_ok(spec_apply_entry(gs, es, f, e).0, s),
{
    let out = spec_apply_entry(gs, es, f, e).0;
    lemma_first_group_from_bounds(gs, e.ident, 0);
    match find_group(gs, e.ident) {
        Option::None => {},
        Option::Some(gi) => {
            let g = gs[gi];
            lemma_first_member_from_props(g.members, f.ident, 0);
            assert forall|k: int| 0 <= k < out.len() implies member_idents_unique(
                #[trigger] out[k],
            ) && members_within(out[k], s) by {
                if k == gi {
                    match find_member(g.members, f.ident) {
                        Option::Some(mi) => {
                            assert(g.members[mi].ident == f.ident);
                        },
                        Option::None => {
                            assert(forall|j: int|
                                0 <= j < g.members.len() ==> g.members[j].ident != f.ident);
                        },
                    }
                }
            }
        },
    }
}

proof fn lemma_entries_members_ok(
    gs: Seq<GroupModel>,
    es: Seq<ErrorModel>,
    f: FieldModel,
    entries: Seq<EntryModel>,
    i: int,
    s: Set<Seq<char>>,
)
    requires
        groups_ok(gs, s),
        s.contains(f.ident),
    ensures
        groups_ok(spec_apply_entries(gs, es, f, entries, i).0, s),
    decreases entries.len() - i,
{
    if 0 <= i < entries.len() {
        let step = spec_apply_entry(gs, es, f, entries[i]);
        lemma_entry_members_ok(gs, es, f, entries[i], s);
        lemma_entries_members_ok(step.0, step.1, f, entries, i + 1, s);
    }
}

proof fn lemma_attrs_members_ok(
    gs: Seq<GroupModel>,
    es: Seq<ErrorModel>,
    f: FieldModel,
    i: int,
    s: Set<Seq<char>>,
)
    requires
        groups_ok(gs, s),
        s.contains(f.ident),
    ensures
        groups_ok(spec_apply_attrs(gs, es, f, i).0, s),
    decreases f.attrs.len() - i,
{
    if 0 <= i < f.attrs.len() {
        let step = spec_apply_entries(gs, es, f, f.attrs[i], 0);
        lemma_entries_members_ok(gs, es, f, f.attrs[i], 0, s);
        lemma_attrs_members_ok(step.0, step.1, f, i + 1, s);
    }
}

proof fn lemma_implicit_members_ok(gs: Seq<GroupModel>, f: FieldModel, s: Set<Seq<char>>)
    requires
        groups_ok(gs, s),
        !s.contains(f.ident),
    ensures
        groups_ok(spec_apply_implicit(gs, f), s.insert(f.ident)),
{
    let out = spec_apply_implicit(gs, f);
    assert forall|k: int| 0 <= k < out.len() implies member_idents_unique(#[trigger] out[k])
        && members_within(out[k], s.insert(f.ident)) by {
        assert(out[k] == spec_apply_implicit_one(gs[k], f));
        assert(member_idents_unique(gs[k]) && members_within(gs[k], s));
    }
}

proof fn lemma_resolve_from_members_ok(
    gs: Seq<GroupModel>,
    es: Seq<ErrorModel>,
    fs: Seq<FieldModel>,
    i: int,
    s: Set<Seq<char>>,
)
    requires
        groups_ok(gs, s),
        forall|j: int| i <= j < fs.len() ==> !s.contains((#[trigger] fs[j]).ident),
        forall|j: int, k: int| i <= j < k < fs.len() ==> fs[j].ident != fs[k].ident,
    ensures
        forall|k: int|
            0 <= k < spec_resolve_from(gs, es, fs, i).0.len() ==> member_idents_unique(
                #[trigger] spec_resolve_from(gs, es, fs, i).0[k],
            ),
    decreases fs.len() - i,
{
    if 0 <= i < fs.len() {
        let f = fs[i];
        let step = spec_apply_field(gs, es, f);
        lemma_implicit_members_ok(gs, f, s);
        lemma_attrs_members_ok(spec_apply_implicit(gs, f), es, f, 0, s.insert(f.ident));
        assert forall|j: int| i + 1 <= j < fs.len() implies !s.insert(f.ident).contains(
            (#[trigger] fs[j]).ident,
        ) by {
            assert(fs[i].ident != fs[j].ident);
            assert(!s.contains(fs[j].ident));
        }
        lemma_resolve_from_members_ok(step.0, step.1, fs, i + 1, s.insert(f.ident));
        assert(spec_resolve_from(gs, es, fs, i) == spec_resolve_from(step.0, step.1, fs, i + 1));
    }
}

/// A field has at most one resolved member per group: starting from a
/// freshly built registry, whose groups hold no member yet, and a record
/// whose field identifiers are pairwise distinct, no group of the
/// resolver's output holds two members naming one field.
pub proof fn lemma_one_member_per_field(gs: Seq<GroupModel>, fs: Seq<FieldModel>)
    requires
        forall|k: int| 0 <= k < gs.len() ==> (#[trigger] gs[k]).members.len() == 0,
        forall|j: int, k: int| 0 <= j < k < fs.len() ==> fs[j].ident != fs[k].ident,
    ensures
        forall|k: int|
            0 <= k < spec_resolve(gs, fs).0.len() ==> member_idents_unique(
                #[trigger] spec_resolve(gs, fs).0[k],
            ),
{
    let s0 = Set::<Seq<char>>::empty();
    assert(groups_ok(gs, s0));
    lemma_resolve_from_members_ok(gs, Seq::empty(), fs, 0, s0);
}

/// The first group of the list bearing `name`, if any.
#[verifier::loop_isolation(false)]
fn find_group_index(groups: &Vec<GenArray>, name: &String) -> (r: Option<usize>)
    ensures
        match r {
            Some(i) => i < groups@.len() && find_group(group_models(groups@), name@)
                == Option::Some(i as int),
            None => find_group(group_models(groups@), name@) is None,
        },
{
    let mut i: usize = 0;
    while i < groups.len()
        invariant
            i <= groups@.len(),
            find_group(group_models(groups@), name@) == first_group_from(
                group_models(groups@),
                name@,
                i as int,
            ),
        decreases groups@.len() - i,
    {
        if groups[i].fn_name == *name {
            proof {
                assert(group_models(groups@)[i as int].fn_name == name@);
            }
            return Some(i);
        }
        proof {
            assert(group_models(groups@)[i as int].fn_name != name@);
        }
        i = i + 1;
    }
    None
}

/// The first member of the list bearing the field identifier, if any.
#[verifier::loop_isolation(false)]
fn find_member_index(members: &Vec<InArrayElement>, ident: &String) -> (r: Option<usize>)
    ensures
        match r {
            Some(i) => i < members@.len() && find_member(member_models(members@), ident@)
                == Option::Some(i as int),
            None => find_member(member_models(members@), ident@) is None,
        },
{
    let mut i: usize = 0;
    while i < members.len()
        invariant
            i <= members@.len(),
            find_member(member_models(members@), ident@) == first_member_from(
                member_models(members@),
                ident@,
                i as int,
            ),
        decreases members@.len() - i,
    {
        if members[i].ident == *ident {
            proof {
                assert(member_models(members@)[i as int].ident == ident@);
            }
            return Some(i);
        }
        proof {
            assert(member_models(members@)[i as int].ident != ident@);
        }
        i = i + 1;
    }
    None
}

/// Apply one explicit entry of `field` to the group list, collecting an
/// error where the entry names an unknown group or repeats a membership
/// without the right to override.
#[verifier::loop_isolation(false)]
fn apply_entry(
    groups: &mut Vec<GenArray>,
    errors: &mut Vec<ConfigError>,
    field: &InArrayField,
    entry: &InArrayAttributeEntry,
)
    ensures
        group_models(final(groups)@) == spec_apply_entry(
            group_models(old(groups)@),
            error_models(old(errors)@),
            field@,
            entry@,
        ).0,
        error_models(final(errors)@) == spec_apply_entry(
            group_models(old(groups)@),
            error_models(old(errors)@),
            field@,
            entry@,
        ).1,
{
    let ghost gs0 = group_models(groups@);
    let ghost es0 = error_models(errors@);
    match find_group_index(groups, &entry.ident) {
        None => {
            errors.push(
                ConfigError::UnknownGroup {
                    group: entry.ident.clone(),
                    field: field.ident.clone(),
                },
            );
            proof {
                assert(error_models(errors@) =~= es0.push(
                    ErrorModel::UnknownGroup { group: entry@.ident, field: field@.ident },
                ));
            }
        },
        Some(gi) => {
            match find_member_index(&groups[gi].fields, &field.ident) {
                Some(mi) => {
                    let standing_implicit = match groups[gi].fields[mi].kind {
                        InArrayElementKind::Implicit => true,
                        InArrayElementKind::InArray => false,
                    };
                    if standing_implicit && entry.decorator.override_implicit {
                        let member = InArrayElement {
                            ident: field.ident.clone(),
                            ty: field.ty.clone(),
                            cast: entry.decorator.cast,
                            kind: InArrayElementKind::InArray,
                        };
                        proof {
                            assert(member@ == explicit_member_of(field@, entry@));
                        }
                        let ghost before = groups@;
                        let g = &mut groups[gi];
                        let slot = &mut g.fields[mi];
                        *slot = member;
                        proof {
                            assert(member_models(groups@[gi as int].fields@) =~= member_models(
                                before[gi as int].fields@,
                            ).update(mi as int, explicit_member_of(field@, entry@)));
                            assert(group_models(groups@) =~= gs0.update(
                                gi as int,
                                GroupModel {
                                    members: gs0[gi as int].members.update(
                                        mi as int,
                                        explicit_member_of(field@, entry@),
                                    ),
                                    ..gs0[gi as int]
                                },
                            ));
                        }
                    } else {
                        errors.push(
                            ConfigError::DuplicateFieldInGroup {
                                group: entry.ident.clone(),
                                field: field.ident.clone(),
                            },
                        );
                        proof {
                            assert(error_models(errors@) =~= es0.push(
                                ErrorModel::DuplicateFieldInGroup {
                                    group: entry@.ident,
                                    field: field@.ident,
                                },
                            ));
                        }
                    }
                },
                None => {
                    let member = InArrayElement {
                        ident: field.ident.clone(),
                        ty: field.ty.clone(),
                        cast: entry.decorator.cast,
                        kind: InArrayElementKind::InArray,
                    };
                    proof {
                        assert(member@ == explicit_member_of(field@, entry@));
                    }
                    let ghost before = groups@;
                    let g = &mut groups[gi];
                    g.fields.push(member);
                    proof {
                        assert(member_models(groups@[gi as int].fields@) =~= member_models(
                            before[gi as int].fields@,
                        ).push(explicit_member_of(field@, entry@)));
                        assert(group_models(groups@) =~= gs0.update(
                            gi as int,
                            GroupModel {
                                members: gs0[gi as int].members.push(
                                    explicit_member_of(field@, entry@),
                                ),
                                ..gs0[gi as int]
                            },
                        ));
                    }
                },
            }
        },
    }
}

/// Apply every entry of one annotation, in written order.
#[verifier::loop_isolation(false)]
fn apply_attr_entries(
    groups: &mut Vec<GenArray>,
    errors: &mut Vec<ConfigError>,
    field: &InArrayField,
    attr: &crate::parse_in_array::InArrayAttribute,
)
    ensures
        group_models(final(groups)@) == spec_apply_entries(
            group_models(old(groups)@),
            error_models(old(errors)@),
            field@,
            attr@,
            0,
        ).0,
        error_models(final(errors)@) == spec_apply_entries(
            group_models(old(groups)@),
            error_models(old(errors)@),
            field@,
            attr@,
            0,
        ).1,
{
    let ghost gs0 = group_models(groups@);
    let ghost es0 = error_models(errors@);
    let mut ei: usize = 0;
    while ei < attr.entries.len()
        invariant
            ei <= attr.entries@.len(),
            spec_apply_entries(gs0, es0, field@, attr@, 0) == spec_apply_entries(
                group_models(groups@),
                error_models(errors@),
                field@,
                attr@,
                ei as int,
            ),
        decreases attr.entries@.len() - ei,
    {
        proof {
            assert(attr@[ei as int] == attr.entries@[ei as int]@);
        }
        apply_entry(groups, errors, field, &attr.entries[ei]);
        ei = ei + 1;
    }
}

/// Resolve one field: the implicit phase over every group, then the field's
/// explicit entries, annotation by annotation.
#[verifier::loop_isolation(false)]
fn apply_field(groups: &mut Vec<GenArray>, errors: &mut Vec<ConfigError>, field: &InArrayField)
    ensures
        group_models(final(groups)@) == spec_apply_field(
            group_models(old(groups)@),
            error_models(old(errors)@),
            field@,
        ).0,
        error_models(final(errors)@) == spec_apply_field(
            group_models(old(groups)@),
            error_models(old(errors)@),
            field@,
        ).1,
{
    let ghost gs0 = group_models(groups@);
    let ghost es0 = error_models(errors@);
    apply_implicit_phase(groups, field);
    let mut ai: usize = 0;
    while ai < field.attrs.len()
        invariant
            ai <= field.attrs@.len(),
            spec_apply_attrs(spec_apply_implicit(gs0, field@), es0, field@, 0) == spec_apply_attrs(
                group_models(groups@),
                error_models(errors@),
                field@,
                ai as int,
            ),
        decreases field.attrs@.len() - ai,
    {
        proof {
            assert(field@.attrs[ai as int] == field.attrs@[ai as int]@);
        }
        apply_attr_entries(groups, errors, field, &field.attrs[ai]);
        ai = ai + 1;
    }
}

/// Resolve a record's fields against a registry.
///
/// The resolver is a pure fold: the groups come back in their declaration
/// order with their resolved members appended in field order, and every
/// validation failure is collected, so one pass reports them all.  The
/// registry is returned only when no field raised any.
#[verifier::loop_isolation(false)]
pub fn resolve(registry: Registry, fields: &Vec<InArrayField>) -> (r: Result<
    Registry,
    Vec<ConfigError>,
>)
    ensures
        match r {
            Ok(out) => spec_resolve(registry@, field_models(fields@)).1.len() == 0 && out@
                == spec_resolve(registry@, field_models(fields@)).0 && (registry.wf()
                ==> out.wf()),
            Err(es) => es@.len() > 0 && error_models(es@) == spec_resolve(
                registry@,
                field_models(fields@),
            ).1,
        },
{
    let ghost gs0 = registry@;
    let ghost fm = field_models(fields@);
    let Registry { groups } = registry;
    let mut groups = groups;
    let mut errors: Vec<ConfigError> = Vec::new();
    proof {
        assert(error_models(errors@) =~= Seq::<ErrorModel>::empty());
    }
    let mut fi: usize = 0;
    while fi < fields.len()
        invariant
            fi <= fields@.len(),
            spec_resolve_from(gs0, Seq::empty(), fm, 0) == spec_resolve_from(
                group_models(groups@),
                error_models(errors@),
                fm,
                fi as int,
            ),
        decreases fields@.len() - fi,
    {
        proof {
            assert(fm[fi as int] == fields@[fi as int]@);
        }
        apply_field(&mut groups, &mut errors, &fields[fi]);
        fi = fi + 1;
    }
    if errors.len() == 0 {
        proof {
            assert(spec_resolve(gs0, fm).1 =~= error_models(errors@));
            lemma_resolve_stable(gs0, fm);
            let out_gs = spec_resolve(gs0, fm).0;
            if wf_groups(gs0) {
                assert forall|i: int, j: int| 0 <= i < j < out_gs.len() implies out_gs[i].fn_name
                    != out_gs[j].fn_name by {
                    assert(same_frame(gs0[i], out_gs[i]));
                    assert(same_frame(gs0[j], out_gs[j]));
                }
                assert forall|i: int| 0 <= i < out_gs.len() implies spec_first_collision(
                    #[trigger] out_gs[i].implicit_tys,
                ) is None by {
                    assert(same_frame(gs0[i], out_gs[i]));
                }
            }
        }
        Ok(Registry { groups })
    } else {
        Err(errors)
    }
}

} // verus!
