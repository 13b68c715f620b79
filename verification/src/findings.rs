//! What the lower layers find and hand to diagnostics lowering: the findings of
//! type inference and of body validation, path and type lowering problems, and
//! the values that diagnostics carry along unchanged.
use vstd::prelude::*;

use crate::ids::{
    AssocItemId, ExprId, ExprOrPatId, FieldId, FunctionId, LocalFieldId, Name, PatId, Ty,
    TypeRefId, VariantId,
};
use crate::syntax::{HirFileId, InFile, SyntaxNodePtr, TextRange};

verus! {

/// Why generic arguments are not allowed on a path segment.
#[derive(Debug, Clone, Copy, PartialEq, Eq, Structural, Hash)]
pub enum GenericArgsProhibitedReason {
    Module,
    TyParam,
    SelfTy,
    PrimitiveTy,
    Const,
    Static,
    /// Within `Enum::Variant`, either `Enum` or `Variant` may have generic
    /// arguments, but not both.
    EnumVariant,
}

/// Why a cast is invalid.
#[derive(Debug, Clone, Copy, PartialEq, Eq, Structural, Hash)]
pub enum CastError {
    Unknown,
    CastToBool,
    CastToChar,
    DifferingKinds,
    SizedUnsizedCast,
    IllegalCast,
    IntToFatCast,
    NeedDeref,
    NeedViaPtr,
    NeedViaThinPtr,
    NeedViaInt,
    NonScalar,
    UnknownCastPtrKind,
    UnknownExprPtrKind,
}

/// Why an operation needs an unsafe context.
#[derive(Debug, Clone, Copy, PartialEq, Eq, Structural, Hash)]
pub enum UnsafetyReason {
    UnionField,
    UnsafeFnCall,
    InlineAsm,
    RawPtrDeref,
    MutableStatic,
    ExternStatic,
}

/// A naming convention.
#[derive(Debug, Clone, Copy, PartialEq, Eq, Structural, Hash)]
pub enum CaseType {
    /// `some_var`
    LowerSnakeCase,
    /// `SOME_CONST`
    UpperSnakeCase,
    /// `SomeStruct`
    UpperCamelCase,
}

/// What a badly cased identifier names.
#[derive(Debug, Clone, Copy, PartialEq, Eq, Structural, Hash)]
pub enum IdentType {
    Constant,
    Enum,
    Field,
    Function,
    Module,
    Parameter,
    StaticVariable,
    Structure,
    Trait,
    TypeAlias,
    Variable,
    Variant,
}

/// An identifier that does not follow its naming convention.
#[derive(Debug, Clone, PartialEq, Eq)]
pub struct IncorrectCase {
    pub file: HirFileId,
    pub ident_type: IdentType,
    /// Points at the `Name` node of the identifier.
    pub ident: SyntaxNodePtr,
    pub expected_case: CaseType,
    pub ident_text: String,
    pub suggested_text: String,
}

/// A single configuration predicate: `feature` or `key = "value"`.
#[derive(Debug, Clone, PartialEq, Eq)]
pub enum CfgAtom {
    Flag(String),
    KeyValue { key: String, value: String },
}

/// A `cfg` condition.
#[derive(Debug, PartialEq, Eq)]
pub enum CfgExpr {
    Invalid,
    Atom(CfgAtom),
    All(Vec<CfgExpr>),
    Any(Vec<CfgExpr>),
    Not(Box<CfgExpr>),
}

/// A copy of a `cfg` condition.
fn clone_cfg_expr(e: &CfgExpr) -> (res: CfgExpr)
    decreases e,
{
    match e {
        CfgExpr::Invalid => CfgExpr::Invalid,
        CfgExpr::Atom(atom) => CfgExpr::Atom(atom.clone()),
        CfgExpr::All(exprs) => CfgExpr::All(clone_cfg_exprs(exprs)),
        CfgExpr::Any(exprs) => CfgExpr::Any(clone_cfg_exprs(exprs)),
        CfgExpr::Not(inner) => CfgExpr::Not(Box::new(clone_cfg_expr(inner))),
    }
}

/// A copy of a list of `cfg` conditions.
fn clone_cfg_exprs(exprs: &Vec<CfgExpr>) -> (res: Vec<CfgExpr>)
    decreases exprs,
{
    let mut res: Vec<CfgExpr> = Vec::new();
    let mut i: usize = 0;
    while i < exprs.len()
        invariant
            i <= exprs@.len(),
        decreases exprs@.len() - i,
    {
        proof {
            assert(decreases_to!(exprs => exprs@[i as int]));
        }
        res.push(clone_cfg_expr(&exprs[i]));
        i = i + 1;
    }
    res
}

impl Clone for CfgExpr {
    fn clone(&self) -> (res: Self) {
        clone_cfg_expr(self)
    }
}

/// The configuration predicates that hold.
#[derive(Debug, Clone, PartialEq, Eq)]
pub struct CfgOptions {
    pub enabled: Vec<CfgAtom>,
}

/// How a module path starts.
#[derive(Debug, Clone, Copy, PartialEq, Eq, Structural, Hash)]
pub enum PathKind {
    Plain,
    /// `self::` is `Super(0)`
    Super(u8),
    Crate,
    /// Absolute path (`::foo`)
    Abs,
    /// `$crate` of the crate with this id
    DollarCrate(u32),
}

/// A path to a module-level item.
#[derive(Debug, Clone, PartialEq, Eq)]
pub struct ModPath {
    pub kind: PathKind,
    pub segments: Vec<Name>,
}

/// A parse error.
#[derive(Debug, Clone, PartialEq, Eq)]
pub struct SyntaxError {
    pub message: String,
    pub range: TextRange,
}

/// A problem found while lowering a path.
#[derive(Debug, Clone, Copy, PartialEq, Eq, Structural, Hash)]
pub enum PathLoweringDiagnostic {
    /// The lowered segment at index `segment` has generic arguments where none
    /// are allowed.
    GenericArgsProhibited { segment: u32, reason: GenericArgsProhibitedReason },
    /// The lowered segment at index `segment` has parenthesized arguments but
    /// does not name an `Fn` trait.
    ParenthesizedGenericArgsWithoutFnTrait { segment: u32 },
}

/// Where a type lowering problem lies: at a type reference of a source map, or
/// at a type node given directly.
#[derive(Debug, Clone, Copy, PartialEq, Eq, Structural, Hash)]
pub enum TyLoweringDiagnosticSource {
    TypeRef(TypeRefId),
    Syntax(InFile<SyntaxNodePtr>),
}

/// What went wrong while lowering a type.
#[derive(Debug, Clone, Copy, PartialEq, Eq, Structural, Hash)]
pub enum TyLoweringDiagnosticKind {
    PathDiagnostic(PathLoweringDiagnostic),
}

/// A problem found while lowering a type.
#[derive(Debug, Clone, Copy, PartialEq, Eq, Structural, Hash)]
pub struct TyLoweringDiagnostic {
    pub source: TyLoweringDiagnosticSource,
    pub kind: TyLoweringDiagnosticKind,
}

/// Which source map a type lowering problem of inference refers to.
#[derive(Debug, Clone, Copy, PartialEq, Eq, Structural, Hash)]
pub enum InferenceTyDiagnosticSource {
    /// The types of the body.
    Body,
    /// The types of the signature of the body's owner.
    Signature,
}

/// A finding of type inference.
#[allow(inconsistent_fields)]
#[derive(Debug, Clone, PartialEq, Eq)]
pub enum InferenceDiagnostic {
    NoSuchField { field: ExprOrPatId, private: bool, variant: VariantId },
    PrivateField { expr: ExprId, field: FieldId },
    PrivateAssocItem { id: ExprOrPatId, item: AssocItemId },
    UnresolvedField {
        expr: ExprId,
        receiver: Ty,
        name: Name,
        method_with_same_name_exists: bool,
    },
    UnresolvedMethodCall {
        expr: ExprId,
        receiver: Ty,
        name: Name,
        field_with_same_name: Option<Ty>,
        assoc_func_with_same_name: Option<FunctionId>,
    },
    UnresolvedAssocItem { id: ExprOrPatId },
    UnresolvedIdent { id: ExprOrPatId },
    BreakOutsideOfLoop { expr: ExprId, is_break: bool, bad_value_break: bool },
    MismatchedArgCount { call_expr: ExprId, expected: usize, found: usize },
    MismatchedTupleStructPatArgCount { pat: ExprOrPatId, expected: usize, found: usize },
    ExpectedFunction { call_expr: ExprId, found: Ty },
    TypedHole { expr: ExprId, expected: Ty },
    CastToUnsized { expr: ExprId, cast_ty: Ty },
    InvalidCast { expr: ExprId, error: CastError, expr_ty: Ty, cast_ty: Ty },
    TyDiagnostic { source: InferenceTyDiagnosticSource, diag: TyLoweringDiagnostic },
    PathDiagnostic { node: ExprOrPatId, diag: PathLoweringDiagnostic },
}

/// A finding of body validation.
#[derive(Debug, Clone, PartialEq, Eq)]
pub enum BodyValidationDiagnostic {
    /// A record expression or pattern (`record`) of `variant` lacks the fields
    /// at the positions `missed_fields`.
    RecordMissingFields { record: ExprOrPatId, variant: VariantId, missed_fields: Vec<LocalFieldId> },
    ReplaceFilterMapNextWithFindMap { method_call_expr: ExprId },
    MissingMatchArms { match_expr: ExprId, uncovered_patterns: String },
    RemoveTrailingReturn { return_expr: ExprId },
    RemoveUnnecessaryElse { if_expr: ExprId },
    NonExhaustiveLet { pat: PatId, uncovered_patterns: String },
}

} // verus!
