//! Identifiers of HIR entities, and the handles the diagnostics hand out for
//! them.
use vstd::prelude::*;

verus! {

/// An expression of a body.
#[derive(Debug, Clone, Copy, PartialEq, Eq, Structural, Hash)]
pub struct ExprId(pub u32);

/// A pattern of a body.
#[derive(Debug, Clone, Copy, PartialEq, Eq, Structural, Hash)]
pub struct PatId(pub u32);

/// A type reference of a body or of a signature.
#[derive(Debug, Clone, Copy, PartialEq, Eq, Structural, Hash)]
pub struct TypeRefId(pub u32);

/// A binding (local variable) of a body.
#[derive(Debug, Clone, Copy, PartialEq, Eq, Structural, Hash)]
pub struct BindingId(pub u32);

/// A field of a variant, by its position among the variant's fields.
#[derive(Debug, Clone, Copy, PartialEq, Eq, Structural, Hash)]
pub struct LocalFieldId(pub u32);

/// An item that owns a body (a function, a const, a static, an enum variant).
#[derive(Debug, Clone, Copy, PartialEq, Eq, Structural, Hash)]
pub struct DefWithBodyId(pub u32);

/// A function item.
#[derive(Debug, Clone, Copy, PartialEq, Eq, Structural, Hash)]
pub struct FunctionId(pub u32);

/// A const item.
#[derive(Debug, Clone, Copy, PartialEq, Eq, Structural, Hash)]
pub struct ConstId(pub u32);

/// A type alias item.
#[derive(Debug, Clone, Copy, PartialEq, Eq, Structural, Hash)]
pub struct TypeAliasId(pub u32);

/// A trait item.
#[derive(Debug, Clone, Copy, PartialEq, Eq, Structural, Hash)]
pub struct TraitId(pub u32);

/// An inferred type, by its interned id.
#[derive(Debug, Clone, Copy, PartialEq, Eq, Structural, Hash)]
pub struct Ty(pub u32);

/// Either an expression or a pattern of a body.
#[derive(Debug, Clone, Copy, PartialEq, Eq, Structural, Hash)]
pub enum ExprOrPatId {
    ExprId(ExprId),
    PatId(PatId),
}

/// Something with fields: a struct, a union or an enum variant.
#[derive(Debug, Clone, Copy, PartialEq, Eq, Structural, Hash)]
pub enum VariantId {
    EnumVariantId(u32),
    StructId(u32),
    UnionId(u32),
}

/// A field of a variant.
#[derive(Debug, Clone, Copy, PartialEq, Eq, Structural, Hash)]
pub struct FieldId {
    pub parent: VariantId,
    pub local_id: LocalFieldId,
}

/// An associated item of a trait or an impl.
#[derive(Debug, Clone, Copy, PartialEq, Eq, Structural, Hash)]
pub enum AssocItemId {
    FunctionId(FunctionId),
    ConstId(ConstId),
    TypeAliasId(TypeAliasId),
}

/// A name as written in the source.
#[derive(Debug, PartialEq, Eq, Hash)]
pub struct Name {
    pub text: String,
}

impl Clone for Name {
    fn clone(&self) -> (res: Self)
        ensures
            res == *self,
    {
        Name { text: self.text.clone() }
    }
}

/// A function, as the diagnostics name it.
#[derive(Debug, Clone, Copy, PartialEq, Eq, Structural, Hash)]
pub struct Function {
    pub id: FunctionId,
}

/// A const, as the diagnostics name it.
#[derive(Debug, Clone, Copy, PartialEq, Eq, Structural, Hash)]
pub struct Const {
    pub id: ConstId,
}

/// A type alias, as the diagnostics name it.
#[derive(Debug, Clone, Copy, PartialEq, Eq, Structural, Hash)]
pub struct TypeAlias {
    pub id: TypeAliasId,
}

/// A trait, as the diagnostics name it.
#[derive(Debug, Clone, Copy, PartialEq, Eq, Structural, Hash)]
pub struct Trait {
    pub id: TraitId,
}

/// An associated item, as the diagnostics name it.
#[derive(Debug, Clone, Copy, PartialEq, Eq, Structural, Hash)]
pub enum AssocItem {
    Function(Function),
    Const(Const),
    TypeAlias(TypeAlias),
}

/// A field, as the diagnostics name it.
#[derive(Debug, Clone, Copy, PartialEq, Eq, Structural, Hash)]
pub struct Field {
    pub parent: VariantId,
    pub id: LocalFieldId,
}

/// A local variable of a body.
#[derive(Debug, Clone, Copy, PartialEq, Eq, Structural, Hash)]
pub struct Local {
    pub parent: DefWithBodyId,
    pub binding_id: BindingId,
}

/// An inferred type together with the body whose environment it lives in.
#[derive(Debug, Clone, Copy, PartialEq, Eq, Structural, Hash)]
pub struct Type {
    pub owner: DefWithBodyId,
    pub ty: Ty,
}

impl Type {
    /// The type `ty` in the environment of the body of `owner`.
    pub fn new(owner: DefWithBodyId, ty: Ty) -> (res: Type)
        ensures
            res == (Type { owner, ty }),
    {
        Type { owner, ty }
    }
}

impl From<FunctionId> for Function {
    fn from(id: FunctionId) -> (res: Function) {
        Function { id }
    }
}

impl vstd::std_specs::convert::FromSpecImpl<FunctionId> for Function {
    open spec fn obeys_from_spec() -> bool {
        true
    }

    open spec fn from_spec(id: FunctionId) -> Function {
        Function { id }
    }
}

impl From<FieldId> for Field {
    fn from(id: FieldId) -> (res: Field) {
        Field { parent: id.parent, id: id.local_id }
    }
}

impl vstd::std_specs::convert::FromSpecImpl<FieldId> for Field {
    open spec fn obeys_from_spec() -> bool {
        true
    }

    open spec fn from_spec(id: FieldId) -> Field {
        Field { parent: id.parent, id: id.local_id }
    }
}

/// The associated item that `id` identifies.
pub open spec fn assoc_item_of(id: AssocItemId) -> AssocItem {
    match id {
        AssocItemId::FunctionId(id) => AssocItem::Function(Function { id }),
        AssocItemId::ConstId(id) => AssocItem::Const(Const { id }),
        AssocItemId::TypeAliasId(id) => AssocItem::TypeAlias(TypeAlias { id }),
    }
}

impl From<AssocItemId> for AssocItem {
    fn from(id: AssocItemId) -> (res: AssocItem) {
        match id {
            AssocItemId::FunctionId(id) => AssocItem::Function(Function { id }),
            AssocItemId::ConstId(id) => AssocItem::Const(Const { id }),
            AssocItemId::TypeAliasId(id) => AssocItem::TypeAlias(TypeAlias { id }),
        }
    }
}

impl vstd::std_specs::convert::FromSpecImpl<AssocItemId> for AssocItem {
    open spec fn obeys_from_spec() -> bool {
        true
    }

    open spec fn from_spec(id: AssocItemId) -> AssocItem {
        assoc_item_of(id)
    }
}

} // verus!
