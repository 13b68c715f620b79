//! The diagnostics that the HIR layer reports to the IDE layer, and
//! `AnyDiagnostic`, which holds any one of them.
use vstd::prelude::*;

pub use crate::findings::{CaseType, GenericArgsProhibitedReason, IncorrectCase};
pub use crate::ids::VariantId;

use crate::findings::{CastError, CfgExpr, CfgOptions, ModPath, SyntaxError, UnsafetyReason};
use crate::ids::{AssocItem, Field, Function, Local, Name, Trait, Type};
use crate::syntax::{HirFileId, InFile, SyntaxNodePtr, TextRange};

verus! {

#[derive(Debug)]
pub struct BreakOutsideOfLoop {
    pub expr: InFile<SyntaxNodePtr>,
    pub is_break: bool,
    pub bad_value_break: bool,
}

#[derive(Debug)]
pub struct TypedHole {
    pub expr: InFile<SyntaxNodePtr>,
    pub expected: Type,
}

#[derive(Debug)]
pub struct UnresolvedModule {
    pub decl: InFile<SyntaxNodePtr>,
    pub candidates: Vec<String>,
}

#[derive(Debug)]
pub struct UnresolvedExternCrate {
    pub decl: InFile<SyntaxNodePtr>,
}

#[derive(Debug)]
pub struct UnresolvedImport {
    pub decl: InFile<SyntaxNodePtr>,
}

#[derive(Debug, Clone, Eq, PartialEq)]
pub struct UnresolvedMacroCall {
    pub macro_call: InFile<SyntaxNodePtr>,
    pub precise_location: Option<TextRange>,
    pub path: ModPath,
    pub is_bang: bool,
}

#[derive(Debug, Clone, Eq, PartialEq)]
pub struct UnreachableLabel {
    pub node: InFile<SyntaxNodePtr>,
    pub name: Name,
}

#[derive(Debug)]
pub struct AwaitOutsideOfAsync {
    pub node: InFile<SyntaxNodePtr>,
    pub location: String,
}

#[derive(Debug, Clone, Eq, PartialEq)]
pub struct UndeclaredLabel {
    pub node: InFile<SyntaxNodePtr>,
    pub name: Name,
}

#[derive(Debug, Clone, Eq, PartialEq)]
pub struct InactiveCode {
    pub node: InFile<SyntaxNodePtr>,
    pub cfg: CfgExpr,
    pub opts: CfgOptions,
}

#[derive(Debug, Clone, Eq, PartialEq)]
pub struct MacroError {
    pub node: InFile<SyntaxNodePtr>,
    pub precise_location: Option<TextRange>,
    pub message: String,
    pub error: bool,
    pub kind: &'static str,
}

#[derive(Debug, Clone, Eq, PartialEq)]
pub struct MacroExpansionParseError {
    pub node: InFile<SyntaxNodePtr>,
    pub precise_location: Option<TextRange>,
    pub errors: Vec<SyntaxError>,
}

#[derive(Debug, Clone, Eq, PartialEq)]
pub struct MacroDefError {
    pub node: InFile<SyntaxNodePtr>,
    pub message: String,
    pub name: Option<TextRange>,
}

#[derive(Debug)]
pub struct UnimplementedBuiltinMacro {
    pub node: InFile<SyntaxNodePtr>,
}

#[derive(Debug)]
pub struct InvalidDeriveTarget {
    pub node: InFile<SyntaxNodePtr>,
}

#[derive(Debug)]
pub struct MalformedDerive {
    pub node: InFile<SyntaxNodePtr>,
}

#[derive(Debug)]
pub struct NoSuchField {
    /// Points at a record expression field or a record pattern field.
    pub field: InFile<SyntaxNodePtr>,
    pub private: bool,
    pub variant: VariantId,
}

#[derive(Debug)]
pub struct PrivateAssocItem {
    pub expr_or_pat: InFile<SyntaxNodePtr>,
    pub item: AssocItem,
}

#[derive(Debug)]
pub struct MismatchedTupleStructPatArgCount {
    pub expr_or_pat: InFile<SyntaxNodePtr>,
    pub expected: usize,
    pub found: usize,
}

#[derive(Debug)]
pub struct ExpectedFunction {
    pub call: InFile<SyntaxNodePtr>,
    pub found: Type,
}

#[derive(Debug)]
pub struct UnresolvedField {
    pub expr: InFile<SyntaxNodePtr>,
    pub receiver: Type,
    pub name: Name,
    pub method_with_same_name_exists: bool,
}

#[derive(Debug)]
pub struct UnresolvedMethodCall {
    pub expr: InFile<SyntaxNodePtr>,
    pub receiver: Type,
    pub name: Name,
    pub field_with_same_name: Option<Type>,
    pub assoc_func_with_same_name: Option<Function>,
}

#[derive(Debug)]
pub struct UnresolvedAssocItem {
    pub expr_or_pat: InFile<SyntaxNodePtr>,
}

#[derive(Debug)]
pub struct UnresolvedIdent {
    /// The expression or pattern, and, for a variable captured implicitly by a
    /// format string, the range of the capture.
    pub node: InFile<(SyntaxNodePtr, Option<TextRange>)>,
}

#[derive(Debug)]
pub struct PrivateField {
    pub expr: InFile<SyntaxNodePtr>,
    pub field: Field,
}

#[derive(Debug, Clone, Copy, PartialEq, Eq, Structural)]
pub enum UnsafeLint {
    HardError,
    UnsafeOpInUnsafeFn,
    DeprecatedSafe2024,
}

#[derive(Debug)]
pub struct MissingUnsafe {
    pub node: InFile<SyntaxNodePtr>,
    pub lint: UnsafeLint,
    pub reason: UnsafetyReason,
}

#[derive(Debug)]
pub struct MissingFields {
    pub file: HirFileId,
    /// Points at the record expression or record pattern.
    pub field_list_parent: SyntaxNodePtr,
    pub field_list_parent_path: Option<SyntaxNodePtr>,
    pub missed_fields: Vec<Name>,
}

#[derive(Debug)]
pub struct ReplaceFilterMapNextWithFindMap {
    pub file: HirFileId,
    /// This expression is the whole method chain up to and including `.filter_map(..).next()`.
    pub next_expr: SyntaxNodePtr,
}

#[derive(Debug)]
pub struct MismatchedArgCount {
    pub call_expr: InFile<SyntaxNodePtr>,
    pub expected: usize,
    pub found: usize,
}

#[derive(Debug)]
pub struct MissingMatchArms {
    pub scrutinee_expr: InFile<SyntaxNodePtr>,
    pub uncovered_patterns: String,
}

#[derive(Debug)]
pub struct NonExhaustiveLet {
    pub pat: InFile<SyntaxNodePtr>,
    pub uncovered_patterns: String,
}

#[derive(Debug)]
pub struct TypeMismatch {
    pub expr_or_pat: InFile<SyntaxNodePtr>,
    pub expected: Type,
    pub actual: Type,
}

#[derive(Debug)]
pub struct NeedMut {
    pub local: Local,
    pub span: InFile<SyntaxNodePtr>,
}

#[derive(Debug)]
pub struct UnusedMut {
    pub local: Local,
}

#[derive(Debug)]
pub struct UnusedVariable {
    pub local: Local,
}

#[derive(Debug)]
pub struct MovedOutOfRef {
    pub ty: Type,
    pub span: InFile<SyntaxNodePtr>,
}

#[derive(Debug, PartialEq, Eq)]
pub struct IncoherentImpl {
    pub file_id: HirFileId,
    pub impl_: SyntaxNodePtr,
}

#[derive(Debug, PartialEq, Eq)]
pub struct TraitImplOrphan {
    pub file_id: HirFileId,
    pub impl_: SyntaxNodePtr,
}

#[derive(Debug, PartialEq, Eq)]
pub struct TraitImplIncorrectSafety {
    pub file_id: HirFileId,
    pub impl_: SyntaxNodePtr,
    pub should_be_safe: bool,
}

#[derive(Debug, PartialEq, Eq)]
pub struct TraitImplMissingAssocItems {
    pub file_id: HirFileId,
    pub impl_: SyntaxNodePtr,
    pub missing: Vec<(Name, AssocItem)>,
}

#[derive(Debug, PartialEq, Eq)]
pub struct TraitImplRedundantAssocItems {
    pub file_id: HirFileId,
    pub trait_: Trait,
    pub impl_: SyntaxNodePtr,
    pub assoc_item: (Name, AssocItem),
}

#[derive(Debug)]
pub struct RemoveTrailingReturn {
    pub return_expr: InFile<SyntaxNodePtr>,
}

#[derive(Debug)]
pub struct RemoveUnnecessaryElse {
    pub if_expr: InFile<SyntaxNodePtr>,
}

#[derive(Debug)]
pub struct CastToUnsized {
    pub expr: InFile<SyntaxNodePtr>,
    pub cast_ty: Type,
}

#[derive(Debug)]
pub struct InvalidCast {
    pub expr: InFile<SyntaxNodePtr>,
    pub error: CastError,
    pub expr_ty: Type,
    pub cast_ty: Type,
}

#[derive(Debug)]
pub struct GenericArgsProhibited {
    /// Points at a generic argument list or a parenthesized argument list.
    pub args: InFile<SyntaxNodePtr>,
    pub reason: GenericArgsProhibitedReason,
}

#[derive(Debug)]
pub struct ParenthesizedGenericArgsWithoutFnTrait {
    pub args: InFile<SyntaxNodePtr>,
}

/// Any one diagnostic.
#[derive(Debug)]
pub enum AnyDiagnostic {
    AwaitOutsideOfAsync(Box<AwaitOutsideOfAsync>),
    BreakOutsideOfLoop(Box<BreakOutsideOfLoop>),
    CastToUnsized(Box<CastToUnsized>),
    ExpectedFunction(Box<ExpectedFunction>),
    InactiveCode(Box<InactiveCode>),
    IncoherentImpl(Box<IncoherentImpl>),
    IncorrectCase(Box<IncorrectCase>),
    InvalidCast(Box<InvalidCast>),
    InvalidDeriveTarget(Box<InvalidDeriveTarget>),
    MacroDefError(Box<MacroDefError>),
    MacroError(Box<MacroError>),
    MacroExpansionParseError(Box<MacroExpansionParseError>),
    MalformedDerive(Box<MalformedDerive>),
    MismatchedArgCount(Box<MismatchedArgCount>),
    MismatchedTupleStructPatArgCount(Box<MismatchedTupleStructPatArgCount>),
    MissingFields(Box<MissingFields>),
    MissingMatchArms(Box<MissingMatchArms>),
    MissingUnsafe(Box<MissingUnsafe>),
    MovedOutOfRef(Box<MovedOutOfRef>),
    NeedMut(Box<NeedMut>),
    NonExhaustiveLet(Box<NonExhaustiveLet>),
    NoSuchField(Box<NoSuchField>),
    PrivateAssocItem(Box<PrivateAssocItem>),
    PrivateField(Box<PrivateField>),
    RemoveTrailingReturn(Box<RemoveTrailingReturn>),
    RemoveUnnecessaryElse(Box<RemoveUnnecessaryElse>),
    ReplaceFilterMapNextWithFindMap(Box<ReplaceFilterMapNextWithFindMap>),
    TraitImplIncorrectSafety(Box<TraitImplIncorrectSafety>),
    TraitImplMissingAssocItems(Box<TraitImplMissingAssocItems>),
    TraitImplOrphan(Box<TraitImplOrphan>),
    TraitImplRedundantAssocItems(Box<TraitImplRedundantAssocItems>),
    TypedHole(Box<TypedHole>),
    TypeMismatch(Box<TypeMismatch>),
    UndeclaredLabel(Box<UndeclaredLabel>),
    UnimplementedBuiltinMacro(Box<UnimplementedBuiltinMacro>),
    UnreachableLabel(Box<UnreachableLabel>),
    UnresolvedAssocItem(Box<UnresolvedAssocItem>),
    UnresolvedExternCrate(Box<UnresolvedExternCrate>),
    UnresolvedField(Box<UnresolvedField>),
    UnresolvedImport(Box<UnresolvedImport>),
    UnresolvedMacroCall(Box<UnresolvedMacroCall>),
    UnresolvedMethodCall(Box<UnresolvedMethodCall>),
    UnresolvedModule(Box<UnresolvedModule>),
    UnresolvedIdent(Box<UnresolvedIdent>),
    UnusedMut(Box<UnusedMut>),
    UnusedVariable(Box<UnusedVariable>),
    GenericArgsProhibited(Box<GenericArgsProhibited>),
    ParenthesizedGenericArgsWithoutFnTrait(Box<ParenthesizedGenericArgsWithoutFnTrait>),
}

} // verus!
