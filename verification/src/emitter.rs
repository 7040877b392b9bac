//! The accessor spec emitter: turns a resolved group into the abstract
//! accessor signature that the code-emission step consumes, and surfaces an
//! advisory for every group that ended up empty.

use vstd::prelude::*;

use crate::errors::Advisory;
use crate::errors::AdvisoryModel;
use crate::errors::advisory_models;
use crate::parse_decorator::CastKind;
use crate::parse_gen_array::GenArray;
use crate::parse_gen_array::GroupModel;
use crate::parse_gen_array::Registry;
use crate::parse_in_array::MemberModel;
use crate::types::TypeExpr;
use crate::types::TypeModel;

verus! {

/// The reference mode of a group's accessor: plain values, shared
/// references or mutable references.
#[derive(Clone, Copy, PartialEq, Eq, Debug)]
pub enum RefMode {
    Direct,
    Ref,
    MutRef,
}

/// One entry of an accessor: the field to read, its declared type and the
/// requested transform.
pub struct AccessorMember {
    pub field: String,
    pub source_type: TypeExpr,
    pub transform: Option<CastKind>,
}

/// The mathematical model of an [`AccessorMember`].
pub struct AccessorMemberModel {
    pub field: Seq<char>,
    pub source_type: TypeModel,
    pub transform: Option<CastKind>,
}

impl View for AccessorMember {
    type V = AccessorMemberModel;

    open spec fn view(&self) -> AccessorMemberModel {
        AccessorMemberModel {
            field: self.field@,
            source_type: self.source_type@,
            transform: self.transform,
        }
    }
}

/// The abstract accessor signature of one resolved group: name, visibility,
/// element type, reference mode, member count and the ordered member list.
pub struct AccessorSpec {
    pub name: String,
    pub vis: String,
    pub element_type: TypeExpr,
    pub ref_mode: RefMode,
    pub count: usize,
    pub members: Vec<AccessorMember>,
}

/// The mathematical model of an [`AccessorSpec`].
pub struct AccessorSpecModel {
    pub name: Seq<char>,
    pub vis: Seq<char>,
    pub element_type: TypeModel,
    pub ref_mode: RefMode,
    pub count: nat,
    pub members: Seq<AccessorMemberModel>,
}

impl View for AccessorSpec {
    type V = AccessorSpecModel;

    open spec fn view(&self) -> AccessorSpecModel {
        AccessorSpecModel {
            name: self.name@,
            vis: self.vis@,
            element_type: self.element_type@,
            ref_mode: self.ref_mode,
            count: self.count as nat,
            members: self.members@.map_values(|m: AccessorMember| m@),
        }
    }
}

/// The reference mode derived from a group's element type markers.
pub open spec fn spec_ref_mode(is_ref: bool, is_mut: bool) -> RefMode {
    if is_ref {
        if is_mut {
            RefMode::MutRef
        } else {
            RefMode::Ref
        }
    } else {
        RefMode::Direct
    }
}

/// The accessor entry a resolved member turns into.
pub open spec fn spec_accessor_member(m: MemberModel) -> AccessorMemberModel {
    AccessorMemberModel { field: m.ident, source_type: m.ty, transform: m.cast }
}

/// The accessor signature a resolved group turns into: the member list in
/// resolution order, and the count equal to its length.
pub open spec fn spec_accessor_of(g: GroupModel) -> AccessorSpecModel {
    AccessorSpecModel {
        name: g.fn_name,
        vis: g.vis,
        element_type: g.fn_ty,
        ref_mode: spec_ref_mode(g.is_ref, g.is_mut),
        count: g.members.len(),
        members: g.members.map_values(|m: MemberModel| spec_accessor_member(m)),
    }
}

/// Emit the abstract accessor signature of one resolved group.
#[verifier::loop_isolation(false)]
pub fn accessor_spec(g: &GenArray) -> (r: AccessorSpec)
    ensures
        r@ == spec_accessor_of(g@),
{
    let mut members: Vec<AccessorMember> = Vec::new();
    let mut i: usize = 0;
    while i < g.fields.len()
        invariant
            i <= g.fields@.len(),
            members@.len() == i,
            forall|j: int|
                0 <= j < i ==> members@[j]@ == spec_accessor_member(g@.members[j]),
        decreases g.fields@.len() - i,
    {
        let m = AccessorMember {
            field: g.fields[i].ident.clone(),
            source_type: g.fields[i].ty.clone(),
            transform: g.fields[i].cast,
        };
        members.push(m);
        i = i + 1;
    }
    let ref_mode = if g.is_ref {
        if g.is_mut {
            RefMode::MutRef
        } else {
            RefMode::Ref
        }
    } else {
        RefMode::Direct
    };
    let r = AccessorSpec {
        name: g.fn_name.clone(),
        vis: g.vis.clone(),
        element_type: g.fn_ty.clone(),
        ref_mode,
        count: g.fields.len(),
        members,
    };
    proof {
        assert(r@.members =~= spec_accessor_of(g@).members);
    }
    r
}

/// The advisories of the groups from `i` on, given those already gathered:
/// one for each group without a member, in registry order.
pub open spec fn spec_advisories_from(
    gs: Seq<GroupModel>,
    i: int,
    acc: Seq<AdvisoryModel>,
) -> Seq<AdvisoryModel>
    decreases gs.len() - i,
{
    if i < 0 || i >= gs.len() {
        acc
    } else if gs[i].members.len() == 0 {
        spec_advisories_from(
            gs,
            i + 1,
            acc.push(AdvisoryModel::EmptyGroupAdvisory { group: gs[i].fn_name }),
        )
    } else {
        spec_advisories_from(gs, i + 1, acc)
    }
}

/// One advisory for every group that ended up empty, in registry order.
pub open spec fn spec_advisories(gs: Seq<GroupModel>) -> Seq<AdvisoryModel> {
    spec_advisories_from(gs, 0, Seq::empty())
}

/// Surface an advisory for every group of the registry that has no member.
#[verifier::loop_isolation(false)]
pub fn advisories(reg: &Registry) -> (r: Vec<Advisory>)
    ensures
        advisory_models(r@) == spec_advisories(reg@),
{
    let mut out: Vec<Advisory> = Vec::new();
    proof {
        assert(advisory_models(out@) =~= Seq::<AdvisoryModel>::empty());
    }
    let mut i: usize = 0;
    while i < reg.groups.len()
        invariant
            i <= reg.groups@.len(),
            spec_advisories(reg@) == spec_advisories_from(reg@, i as int, advisory_models(out@)),
        decreases reg.groups@.len() - i,
    {
        if reg.groups[i].fields.len() == 0 {
            let ghost out_before = advisory_models(out@);
            out.push(Advisory::EmptyGroupAdvisory { group: reg.groups[i].fn_name.clone() });
            proof {
                assert(reg@[i as int].members.len() == 0);
                assert(advisory_models(out@) =~= out_before.push(
                    AdvisoryModel::EmptyGroupAdvisory { group: reg@[i as int].fn_name },
                ));
            }
        } else {
            proof {
                assert(reg@[i as int].members.len() != 0);
            }
        }
        i = i + 1;
    }
    out
}

} // verus!
