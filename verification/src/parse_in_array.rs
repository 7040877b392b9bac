//! The field-side data model: a record field, its explicit group-membership
//! entries, and the resolved member that ends up inside a group.

use vstd::prelude::*;

use crate::parse_decorator::CastKind;
use crate::parse_decorator::Decorator;
use crate::types::TypeExpr;
use crate::types::TypeModel;

verus! {

/// How a field came to be a member of a group: through the group's implicit
/// selection patterns, or through an explicit entry on the field.
#[derive(Clone, Copy, PartialEq, Eq, Debug)]
pub enum InArrayElementKind {
    Implicit,
    InArray,
}

/// A resolved member of a group: the field, its declared type, and the value
/// transform to apply when the accessor is emitted.
pub struct InArrayElement {
    pub ident: String,
    pub ty: TypeExpr,
    pub cast: Option<CastKind>,
    pub kind: InArrayElementKind,
}

/// The mathematical model of an [`InArrayElement`].
pub struct MemberModel {
    pub ident: Seq<char>,
    pub ty: TypeModel,
    pub cast: Option<CastKind>,
    pub kind: InArrayElementKind,
}

impl View for InArrayElement {
    type V = MemberModel;

    open spec fn view(&self) -> MemberModel {
        MemberModel { ident: self.ident@, ty: self.ty@, cast: self.cast, kind: self.kind }
    }
}

/// The views of a member list, in order.
pub open spec fn member_models(ms: Seq<InArrayElement>) -> Seq<MemberModel> {
    ms.map_values(|m: InArrayElement| m@)
}

/// One explicit group-membership entry on a field: the group's name and the
/// decorator attached to the entry.
pub struct InArrayAttributeEntry {
    pub ident: String,
    pub decorator: Decorator,
}

/// The mathematical model of an [`InArrayAttributeEntry`].
pub struct EntryModel {
    pub ident: Seq<char>,
    pub decorator: Decorator,
}

impl View for InArrayAttributeEntry {
    type V = EntryModel;

    open spec fn view(&self) -> EntryModel {
        EntryModel { ident: self.ident@, decorator: self.decorator }
    }
}

/// The views of an entry list, in order.
pub open spec fn entry_models(es: Seq<InArrayAttributeEntry>) -> Seq<EntryModel> {
    es.map_values(|e: InArrayAttributeEntry| e@)
}

/// One membership annotation on a field, holding its entries in written
/// order.
pub struct InArrayAttribute {
    pub entries: Vec<InArrayAttributeEntry>,
}

impl View for InArrayAttribute {
    type V = Seq<EntryModel>;

    open spec fn view(&self) -> Seq<EntryModel> {
        entry_models(self.entries@)
    }
}

/// The views of an annotation list, in order.
pub open spec fn attr_models(attrs: Seq<InArrayAttribute>) -> Seq<Seq<EntryModel>> {
    attrs.map_values(|a: InArrayAttribute| a@)
}

/// A record field: its annotations, its identifier and its declared type.
pub struct InArrayField {
    pub attrs: Vec<InArrayAttribute>,
    pub ident: String,
    pub ty: TypeExpr,
}

/// The mathematical model of an [`InArrayField`].
pub struct FieldModel {
    pub attrs: Seq<Seq<EntryModel>>,
    pub ident: Seq<char>,
    pub ty: TypeModel,
}

impl View for InArrayField {
    type V = FieldModel;

    open spec fn view(&self) -> FieldModel {
        FieldModel { attrs: attr_models(self.attrs@), ident: self.ident@, ty: self.ty@ }
    }
}

/// The views of a field list, in order.
pub open spec fn field_models(fs: Seq<InArrayField>) -> Seq<FieldModel> {
    fs.map_values(|f: InArrayField| f@)
}

} // verus!
