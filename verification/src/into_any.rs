//! Each diagnostic converts into `AnyDiagnostic` by boxing it in the variant
//! of the same name.
use vstd::prelude::*;

use crate::diagnostics::{
    AnyDiagnostic,
    AwaitOutsideOfAsync,
    BreakOutsideOfLoop,
    CastToUnsized,
    ExpectedFunction,
    InactiveCode,
    IncoherentImpl,
    IncorrectCase,
    InvalidCast,
    InvalidDeriveTarget,
    MacroDefError,
    MacroError,
    MacroExpansionParseError,
    MalformedDerive,
    MismatchedArgCount,
    MismatchedTupleStructPatArgCount,
    MissingFields,
    MissingMatchArms,
    MissingUnsafe,
    MovedOutOfRef,
    NeedMut,
    NonExhaustiveLet,
    NoSuchField,
    PrivateAssocItem,
    PrivateField,
    RemoveTrailingReturn,
    RemoveUnnecessaryElse,
    ReplaceFilterMapNextWithFindMap,
    TraitImplIncorrectSafety,
    TraitImplMissingAssocItems,
    TraitImplOrphan,
    TraitImplRedundantAssocItems,
    TypedHole,
    TypeMismatch,
    UndeclaredLabel,
    UnimplementedBuiltinMacro,
    UnreachableLabel,
    UnresolvedAssocItem,
    UnresolvedExternCrate,
    UnresolvedField,
    UnresolvedImport,
    UnresolvedMacroCall,
    UnresolvedMethodCall,
    UnresolvedModule,
    UnresolvedIdent,
    UnusedMut,
    UnusedVariable,
    GenericArgsProhibited,
    ParenthesizedGenericArgsWithoutFnTrait,
};

verus! {

impl From<AwaitOutsideOfAsync> for AnyDiagnostic {
    fn from(d: AwaitOutsideOfAsync) -> (res: AnyDiagnostic) {
        AnyDiagnostic::AwaitOutsideOfAsync(Box::new(d))
    }
}

impl vstd::std_specs::convert::FromSpecImpl<AwaitOutsideOfAsync> for AnyDiagnostic {
    open spec fn obeys_from_spec() -> bool {
        true
    }

    open spec fn from_spec(d: AwaitOutsideOfAsync) -> AnyDiagnostic {
        AnyDiagnostic::AwaitOutsideOfAsync(Box::new(d))
    }
}

impl From<BreakOutsideOfLoop> for AnyDiagnostic {
    fn from(d: BreakOutsideOfLoop) -> (res: AnyDiagnostic) {
        AnyDiagnostic::BreakOutsideOfLoop(Box::new(d))
    }
}

impl vstd::std_specs::convert::FromSpecImpl<BreakOutsideOfLoop> for AnyDiagnostic {
    open spec fn obeys_from_spec() -> bool {
        true
    }

    open spec fn from_spec(d: BreakOutsideOfLoop) -> AnyDiagnostic {
        AnyDiagnostic::BreakOutsideOfLoop(Box::new(d))
    }
}

impl From<CastToUnsized> for AnyDiagnostic {
    fn from(d: CastToUnsized) -> (res: AnyDiagnostic) {
        AnyDiagnostic::CastToUnsized(Box::new(d))
    }
}

impl vstd::std_specs::convert::FromSpecImpl<CastToUnsized> for AnyDiagnostic {
    open spec fn obeys_from_spec() -> bool {
        true
    }

    open spec fn from_spec(d: CastToUnsized) -> AnyDiagnostic {
        AnyDiagnostic::CastToUnsized(Box::new(d))
    }
}

impl From<ExpectedFunction> for AnyDiagnostic {
    fn from(d: ExpectedFunction) -> (res: AnyDiagnostic) {
        AnyDiagnostic::ExpectedFunction(Box::new(d))
    }
}

impl vstd::std_specs::convert::FromSpecImpl<ExpectedFunction> for AnyDiagnostic {
    open spec fn obeys_from_spec() -> bool {
        true
    }

    open spec fn from_spec(d: ExpectedFunction) -> AnyDiagnostic {
        AnyDiagnostic::ExpectedFunction(Box::new(d))
    }
}

impl From<InactiveCode> for AnyDiagnostic {
    fn from(d: InactiveCode) -> (res: AnyDiagnostic) {
        AnyDiagnostic::InactiveCode(Box::new(d))
    }
}

impl vstd::std_specs::convert::FromSpecImpl<InactiveCode> for AnyDiagnostic {
    open spec fn obeys_from_spec() -> bool {
        true
    }

    open spec fn from_spec(d: InactiveCode) -> AnyDiagnostic {
        AnyDiagnostic::InactiveCode(Box::new(d))
    }
}

impl From<IncoherentImpl> for AnyDiagnostic {
    fn from(d: IncoherentImpl) -> (res: AnyDiagnostic) {
        AnyDiagnostic::IncoherentImpl(Box::new(d))
    }
}

impl vstd::std_specs::convert::FromSpecImpl<IncoherentImpl> for AnyDiagnostic {
    open spec fn obeys_from_spec() -> bool {
        true
    }

    open spec fn from_spec(d: IncoherentImpl) -> AnyDiagnostic {
        AnyDiagnostic::IncoherentImpl(Box::new(d))
    }
}

impl From<IncorrectCase> for AnyDiagnostic {
    fn from(d: IncorrectCase) -> (res: AnyDiagnostic) {
        AnyDiagnostic::IncorrectCase(Box::new(d))
    }
}

impl vstd::std_specs::convert::FromSpecImpl<IncorrectCase> for AnyDiagnostic {
    open spec fn obeys_from_spec() -> bool {
        true
    }

    open spec fn from_spec(d: IncorrectCase) -> AnyDiagnostic {
        AnyDiagnostic::IncorrectCase(Box::new(d))
    }
}

impl From<InvalidCast> for AnyDiagnostic {
    fn from(d: InvalidCast) -> (res: AnyDiagnostic) {
        AnyDiagnostic::InvalidCast(Box::new(d))
    }
}

impl vstd::std_specs::convert::FromSpecImpl<InvalidCast> for AnyDiagnostic {
    open spec fn obeys_from_spec() -> bool {
        true
    }

    open spec fn from_spec(d: InvalidCast) -> AnyDiagnostic {
        AnyDiagnostic::InvalidCast(Box::new(d))
    }
}

impl From<InvalidDeriveTarget> for AnyDiagnostic {
    fn from(d: InvalidDeriveTarget) -> (res: AnyDiagnostic) {
        AnyDiagnostic::InvalidDeriveTarget(Box::new(d))
    }
}

impl vstd::std_specs::convert::FromSpecImpl<InvalidDeriveTarget> for AnyDiagnostic {
    open spec fn obeys_from_spec() -> bool {
        true
    }

    open spec fn from_spec(d: InvalidDeriveTarget) -> AnyDiagnostic {
        AnyDiagnostic::InvalidDeriveTarget(Box::new(d))
    }
}

impl From<MacroDefError> for AnyDiagnostic {
    fn from(d: MacroDefError) -> (res: AnyDiagnostic) {
        AnyDiagnostic::MacroDefError(Box::new(d))
    }
}

impl vstd::std_specs::convert::FromSpecImpl<MacroDefError> for AnyDiagnostic {
    open spec fn obeys_from_spec() -> bool {
        true
    }

    open spec fn from_spec(d: MacroDefError) -> AnyDiagnostic {
        AnyDiagnostic::MacroDefError(Box::new(d))
    }
}

impl From<MacroError> for AnyDiagnostic {
    fn from(d: MacroError) -> (res: AnyDiagnostic) {
        AnyDiagnostic::MacroError(Box::new(d))
    }
}

impl vstd::std_specs::convert::FromSpecImpl<MacroError> for AnyDiagnostic {
    open spec fn obeys_from_spec() -> bool {
        true
    }

    open spec fn from_spec(d: MacroError) -> AnyDiagnostic {
        AnyDiagnostic::MacroError(Box::new(d))
    }
}

impl From<MacroExpansionParseError> for AnyDiagnostic {
    fn from(d: MacroExpansionParseError) -> (res: AnyDiagnostic) {
        AnyDiagnostic::MacroExpansionParseError(Box::new(d))
    }
}

impl vstd::std_specs::convert::FromSpecImpl<MacroExpansionParseError> for AnyDiagnostic {
    open spec fn obeys_from_spec() -> bool {
        true
    }

    open spec fn from_spec(d: MacroExpansionParseError) -> AnyDiagnostic {
        AnyDiagnostic::MacroExpansionParseError(Box::new(d))
    }
}

impl From<MalformedDerive> for AnyDiagnostic {
    fn from(d: MalformedDerive) -> (res: AnyDiagnostic) {
        AnyDiagnostic::MalformedDerive(Box::new(d))
    }
}

impl vstd::std_specs::convert::FromSpecImpl<MalformedDerive> for AnyDiagnostic {
    open spec fn obeys_from_spec() -> bool {
        true
    }

    open spec fn from_spec(d: MalformedDerive) -> AnyDiagnostic {
        AnyDiagnostic::MalformedDerive(Box::new(d))
    }
}

impl From<MismatchedArgCount> for AnyDiagnostic {
    fn from(d: MismatchedArgCount) -> (res: AnyDiagnostic) {
        AnyDiagnostic::MismatchedArgCount(Box::new(d))
    }
}

impl vstd::std_specs::convert::FromSpecImpl<MismatchedArgCount> for AnyDiagnostic {
    open spec fn obeys_from_spec() -> bool {
        true
    }

    open spec fn from_spec(d: MismatchedArgCount) -> AnyDiagnostic {
        AnyDiagnostic::MismatchedArgCount(Box::new(d))
    }
}

impl From<MismatchedTupleStructPatArgCount> for AnyDiagnostic {
    fn from(d: MismatchedTupleStructPatArgCount) -> (res: AnyDiagnostic) {
        AnyDiagnostic::MismatchedTupleStructPatArgCount(Box::new(d))
    }
}

impl vstd::std_specs::convert::FromSpecImpl<MismatchedTupleStructPatArgCount> for AnyDiagnostic {
    open spec fn obeys_from_spec() -> bool {
        true
    }

    open spec fn from_spec(d: MismatchedTupleStructPatArgCount) -> AnyDiagnostic {
        AnyDiagnostic::MismatchedTupleStructPatArgCount(Box::new(d))
    }
}

impl From<MissingFields> for AnyDiagnostic {
    fn from(d: MissingFields) -> (res: AnyDiagnostic) {
        AnyDiagnostic::MissingFields(Box::new(d))
    }
}

impl vstd::std_specs::convert::FromSpecImpl<MissingFields> for AnyDiagnostic {
    open spec fn obeys_from_spec() -> bool {
        true
    }

    open spec fn from_spec(d: MissingFields) -> AnyDiagnostic {
        AnyDiagnostic::MissingFields(Box::new(d))
    }
}

impl From<MissingMatchArms> for AnyDiagnostic {
    fn from(d: MissingMatchArms) -> (res: AnyDiagnostic) {
        AnyDiagnostic::MissingMatchArms(Box::new(d))
    }
}

impl vstd::std_specs::convert::FromSpecImpl<MissingMatchArms> for AnyDiagnostic {
    open spec fn obeys_from_spec() -> bool {
        true
    }

    open spec fn from_spec(d: MissingMatchArms) -> AnyDiagnostic {
        AnyDiagnostic::MissingMatchArms(Box::new(d))
    }
}

impl From<MissingUnsafe> for AnyDiagnostic {
    fn from(d: MissingUnsafe) -> (res: AnyDiagnostic) {
        AnyDiagnostic::MissingUnsafe(Box::new(d))
    }
}

impl vstd::std_specs::convert::FromSpecImpl<MissingUnsafe> for AnyDiagnostic {
    open spec fn obeys_from_spec() -> bool {
        true
    }

    open spec fn from_spec(d: MissingUnsafe) -> AnyDiagnostic {
        AnyDiagnostic::MissingUnsafe(Box::new(d))
    }
}

impl From<MovedOutOfRef> for AnyDiagnostic {
    fn from(d: MovedOutOfRef) -> (res: AnyDiagnostic) {
        AnyDiagnostic::MovedOutOfRef(Box::new(d))
    }
}

impl vstd::std_specs::convert::FromSpecImpl<MovedOutOfRef> for AnyDiagnostic {
    open spec fn obeys_from_spec() -> bool {
        true
    }

    open spec fn from_spec(d: MovedOutOfRef) -> AnyDiagnostic {
        AnyDiagnostic::MovedOutOfRef(Box::new(d))
    }
}

impl From<NeedMut> for AnyDiagnostic {
    fn from(d: NeedMut) -> (res: AnyDiagnostic) {
        AnyDiagnostic::NeedMut(Box::new(d))
    }
}

impl vstd::std_specs::convert::FromSpecImpl<NeedMut> for AnyDiagnostic {
    open spec fn obeys_from_spec() -> bool {
        true
    }

    open spec fn from_spec(d: NeedMut) -> AnyDiagnostic {
        AnyDiagnostic::NeedMut(Box::new(d))
    }
}

impl From<NonExhaustiveLet> for AnyDiagnostic {
    fn from(d: NonExhaustiveLet) -> (res: AnyDiagnostic) {
        AnyDiagnostic::NonExhaustiveLet(Box::new(d))
    }
}

impl vstd::std_specs::convert::FromSpecImpl<NonExhaustiveLet> for AnyDiagnostic {
    open spec fn obeys_from_spec() -> bool {
        true
    }

    open spec fn from_spec(d: NonExhaustiveLet) -> AnyDiagnostic {
        AnyDiagnostic::NonExhaustiveLet(Box::new(d))
    }
}

impl From<NoSuchField> for AnyDiagnostic {
    fn from(d: NoSuchField) -> (res: AnyDiagnostic) {
        AnyDiagnostic::NoSuchField(Box::new(d))
    }
}

impl vstd::std_specs::convert::FromSpecImpl<NoSuchField> for AnyDiagnostic {
    open spec fn obeys_from_spec() -> bool {
        true
    }

    open spec fn from_spec(d: NoSuchField) -> AnyDiagnostic {
        AnyDiagnostic::NoSuchField(Box::new(d))
    }
}

impl From<PrivateAssocItem> for AnyDiagnostic {
    fn from(d: PrivateAssocItem) -> (res: AnyDiagnostic) {
        AnyDiagnostic::PrivateAssocItem(Box::new(d))
    }
}

impl vstd::std_specs::convert::FromSpecImpl<PrivateAssocItem> for AnyDiagnostic {
    open spec fn obeys_from_spec() -> bool {
        true
    }

    open spec fn from_spec(d: PrivateAssocItem) -> AnyDiagnostic {
        AnyDiagnostic::PrivateAssocItem(Box::new(d))
    }
}

impl From<PrivateField> for AnyDiagnostic {
    fn from(d: PrivateField) -> (res: AnyDiagnostic) {
        AnyDiagnostic::PrivateField(Box::new(d))
    }
}

impl vstd::std_specs::convert::FromSpecImpl<PrivateField> for AnyDiagnostic {
    open spec fn obeys_from_spec() -> bool {
        true
    }

    open spec fn from_spec(d: PrivateField) -> AnyDiagnostic {
        AnyDiagnostic::PrivateField(Box::new(d))
    }
}

impl From<RemoveTrailingReturn> for AnyDiagnostic {
    fn from(d: RemoveTrailingReturn) -> (res: AnyDiagnostic) {
        AnyDiagnostic::RemoveTrailingReturn(Box::new(d))
    }
}

impl vstd::std_specs::convert::FromSpecImpl<RemoveTrailingReturn> for AnyDiagnostic {
    open spec fn obeys_from_spec() -> bool {
        true
    }

    open spec fn from_spec(d: RemoveTrailingReturn) -> AnyDiagnostic {
        AnyDiagnostic::RemoveTrailingReturn(Box::new(d))
    }
}

impl From<RemoveUnnecessaryElse> for AnyDiagnostic {
    fn from(d: RemoveUnnecessaryElse) -> (res: AnyDiagnostic) {
        AnyDiagnostic::RemoveUnnecessaryElse(Box::new(d))
    }
}

impl vstd::std_specs::convert::FromSpecImpl<RemoveUnnecessaryElse> for AnyDiagnostic {
    open spec fn obeys_from_spec() -> bool {
        true
    }

    open spec fn from_spec(d: RemoveUnnecessaryElse) -> AnyDiagnostic {
        AnyDiagnostic::RemoveUnnecessaryElse(Box::new(d))
    }
}

impl From<ReplaceFilterMapNextWithFindMap> for AnyDiagnostic {
    fn from(d: ReplaceFilterMapNextWithFindMap) -> (res: AnyDiagnostic) {
        AnyDiagnostic::ReplaceFilterMapNextWithFindMap(Box::new(d))
    }
}

impl vstd::std_specs::convert::FromSpecImpl<ReplaceFilterMapNextWithFindMap> for AnyDiagnostic {
    open spec fn obeys_from_spec() -> bool {
        true
    }

    open spec fn from_spec(d: ReplaceFilterMapNextWithFindMap) -> AnyDiagnostic {
        AnyDiagnostic::ReplaceFilterMapNextWithFindMap(Box::new(d))
    }
}

impl From<TraitImplIncorrectSafety> for AnyDiagnostic {
    fn from(d: TraitImplIncorrectSafety) -> (res: AnyDiagnostic) {
        AnyDiagnostic::TraitImplIncorrectSafety(Box::new(d))
    }
}

impl vstd::std_specs::convert::FromSpecImpl<TraitImplIncorrectSafety> for AnyDiagnostic {
    open spec fn obeys_from_spec() -> bool {
        true
    }

    open spec fn from_spec(d: TraitImplIncorrectSafety) -> AnyDiagnostic {
        AnyDiagnostic::TraitImplIncorrectSafety(Box::new(d))
    }
}

impl From<TraitImplMissingAssocItems> for AnyDiagnostic {
    fn from(d: TraitImplMissingAssocItems) -> (res: AnyDiagnostic) {
        AnyDiagnostic::TraitImplMissingAssocItems(Box::new(d))
    }
}

impl vstd::std_specs::convert::FromSpecImpl<TraitImplMissingAssocItems> for AnyDiagnostic {
    open spec fn obeys_from_spec() -> bool {
        true
    }

    open spec fn from_spec(d: TraitImplMissingAssocItems) -> AnyDiagnostic {
        AnyDiagnostic::TraitImplMissingAssocItems(Box::new(d))
    }
}

impl From<TraitImplOrphan> for AnyDiagnostic {
    fn from(d: TraitImplOrphan) -> (res: AnyDiagnostic) {
        AnyDiagnostic::TraitImplOrphan(Box::new(d))
    }
}

impl vstd::std_specs::convert::FromSpecImpl<TraitImplOrphan> for AnyDiagnostic {
    open spec fn obeys_from_spec() -> bool {
        true
    }

    open spec fn from_spec(d: TraitImplOrphan) -> AnyDiagnostic {
        AnyDiagnostic::TraitImplOrphan(Box::new(d))
    }
}

impl From<TraitImplRedundantAssocItems> for AnyDiagnostic {
    fn from(d: TraitImplRedundantAssocItems) -> (res: AnyDiagnostic) {
        AnyDiagnostic::TraitImplRedundantAssocItems(Box::new(d))
    }
}

impl vstd::std_specs::convert::FromSpecImpl<TraitImplRedundantAssocItems> for AnyDiagnostic {
    open spec fn obeys_from_spec() -> bool {
        true
    }

    open spec fn from_spec(d: TraitImplRedundantAssocItems) -> AnyDiagnostic {
        AnyDiagnostic::TraitImplRedundantAssocItems(Box::new(d))
    }
}

impl From<TypedHole> for AnyDiagnostic {
    fn from(d: TypedHole) -> (res: AnyDiagnostic) {
        AnyDiagnostic::TypedHole(Box::new(d))
    }
}

impl vstd::std_specs::convert::FromSpecImpl<TypedHole> for AnyDiagnostic {
    open spec fn obeys_from_spec() -> bool {
        true
    }

    open spec fn from_spec(d: TypedHole) -> AnyDiagnostic {
        AnyDiagnostic::TypedHole(Box::new(d))
    }
}

impl From<TypeMismatch> for AnyDiagnostic {
    fn from(d: TypeMismatch) -> (res: AnyDiagnostic) {
        AnyDiagnostic::TypeMismatch(Box::new(d))
    }
}

impl vstd::std_specs::convert::FromSpecImpl<TypeMismatch> for AnyDiagnostic {
    open spec fn obeys_from_spec() -> bool {
        true
    }

    open spec fn from_spec(d: TypeMismatch) -> AnyDiagnostic {
        AnyDiagnostic::TypeMismatch(Box::new(d))
    }
}

impl From<UndeclaredLabel> for AnyDiagnostic {
    fn from(d: UndeclaredLabel) -> (res: AnyDiagnostic) {
        AnyDiagnostic::UndeclaredLabel(Box::new(d))
    }
}

impl vstd::std_specs::convert::FromSpecImpl<UndeclaredLabel> for AnyDiagnostic {
    open spec fn obeys_from_spec() -> bool {
        true
    }

    open spec fn from_spec(d: UndeclaredLabel) -> AnyDiagnostic {
        AnyDiagnostic::UndeclaredLabel(Box::new(d))
    }
}

impl From<UnimplementedBuiltinMacro> for AnyDiagnostic {
    fn from(d: UnimplementedBuiltinMacro) -> (res: AnyDiagnostic) {
        AnyDiagnostic::UnimplementedBuiltinMacro(Box::new(d))
    }
}

impl vstd::std_specs::convert::FromSpecImpl<UnimplementedBuiltinMacro> for AnyDiagnostic {
    open spec fn obeys_from_spec() -> bool {
        true
    }

    open spec fn from_spec(d: UnimplementedBuiltinMacro) -> AnyDiagnostic {
        AnyDiagnostic::UnimplementedBuiltinMacro(Box::new(d))
    }
}

impl From<UnreachableLabel> for AnyDiagnostic {
    fn from(d: UnreachableLabel) -> (res: AnyDiagnostic) {
        AnyDiagnostic::UnreachableLabel(Box::new(d))
    }
}

impl vstd::std_specs::convert::FromSpecImpl<UnreachableLabel> for AnyDiagnostic {
    open spec fn obeys_from_spec() -> bool {
        true
    }

    open spec fn from_spec(d: UnreachableLabel) -> AnyDiagnostic {
        AnyDiagnostic::UnreachableLabel(Box::new(d))
    }
}

impl From<UnresolvedAssocItem> for AnyDiagnostic {
    fn from(d: UnresolvedAssocItem) -> (res: AnyDiagnostic) {
        AnyDiagnostic::UnresolvedAssocItem(Box::new(d))
    }
}

impl vstd::std_specs::convert::FromSpecImpl<UnresolvedAssocItem> for AnyDiagnostic {
    open spec fn obeys_from_spec() -> bool {
        true
    }

    open spec fn from_spec(d: UnresolvedAssocItem) -> AnyDiagnostic {
        AnyDiagnostic::UnresolvedAssocItem(Box::new(d))
    }
}

impl From<UnresolvedExternCrate> for AnyDiagnostic {
    fn from(d: UnresolvedExternCrate) -> (res: AnyDiagnostic) {
        AnyDiagnostic::UnresolvedExternCrate(Box::new(d))
    }
}

impl vstd::std_specs::convert::FromSpecImpl<UnresolvedExternCrate> for AnyDiagnostic {
    open spec fn obeys_from_spec() -> bool {
        true
    }

    open spec fn from_spec(d: UnresolvedExternCrate) -> AnyDiagnostic {
        AnyDiagnostic::UnresolvedExternCrate(Box::new(d))
    }
}

impl From<UnresolvedField> for AnyDiagnostic {
    fn from(d: UnresolvedField) -> (res: AnyDiagnostic) {
        AnyDiagnostic::UnresolvedField(Box::new(d))
    }
}

impl vstd::std_specs::convert::FromSpecImpl<UnresolvedField> for AnyDiagnostic {
    open spec fn obeys_from_spec() -> bool {
        true
    }

    open spec fn from_spec(d: UnresolvedField) -> AnyDiagnostic {
        AnyDiagnostic::UnresolvedField(Box::new(d))
    }
}

impl From<UnresolvedImport> for AnyDiagnostic {
    fn from(d: UnresolvedImport) -> (res: AnyDiagnostic) {
        AnyDiagnostic::UnresolvedImport(Box::new(d))
    }
}

impl vstd::std_specs::convert::FromSpecImpl<UnresolvedImport> for AnyDiagnostic {
    open spec fn obeys_from_spec() -> bool {
        true
    }

    open spec fn from_spec(d: UnresolvedImport) -> AnyDiagnostic {
        AnyDiagnostic::UnresolvedImport(Box::new(d))
    }
}

impl From<UnresolvedMacroCall> for AnyDiagnostic {
    fn from(d: UnresolvedMacroCall) -> (res: AnyDiagnostic) {
        AnyDiagnostic::UnresolvedMacroCall(Box::new(d))
    }
}

impl vstd::std_specs::convert::FromSpecImpl<UnresolvedMacroCall> for AnyDiagnostic {
    open spec fn obeys_from_spec() -> bool {
        true
    }

    open spec fn from_spec(d: UnresolvedMacroCall) -> AnyDiagnostic {
        AnyDiagnostic::UnresolvedMacroCall(Box::new(d))
    }
}

impl From<UnresolvedMethodCall> for AnyDiagnostic {
    fn from(d: UnresolvedMethodCall) -> (res: AnyDiagnostic) {
        AnyDiagnostic::UnresolvedMethodCall(Box::new(d))
    }
}

impl vstd::std_specs::convert::FromSpecImpl<UnresolvedMethodCall> for AnyDiagnostic {
    open spec fn obeys_from_spec() -> bool {
        true
    }

    open spec fn from_spec(d: UnresolvedMethodCall) -> AnyDiagnostic {
        AnyDiagnostic::UnresolvedMethodCall(Box::new(d))
    }
}

impl From<UnresolvedModule> for AnyDiagnostic {
    fn from(d: UnresolvedModule) -> (res: AnyDiagnostic) {
        AnyDiagnostic::UnresolvedModule(Box::new(d))
    }
}

impl vstd::std_specs::convert::FromSpecImpl<UnresolvedModule> for AnyDiagnostic {
    open spec fn obeys_from_spec() -> bool {
        true
    }

    open spec fn from_spec(d: UnresolvedModule) -> AnyDiagnostic {
        AnyDiagnostic::UnresolvedModule(Box::new(d))
    }
}

impl From<UnresolvedIdent> for AnyDiagnostic {
    fn from(d: UnresolvedIdent) -> (res: AnyDiagnostic) {
        AnyDiagnostic::UnresolvedIdent(Box::new(d))
    }
}

impl vstd::std_specs::convert::FromSpecImpl<UnresolvedIdent> for AnyDiagnostic {
    open spec fn obeys_from_spec() -> bool {
        true
    }

    open spec fn from_spec(d: UnresolvedIdent) -> AnyDiagnostic {
        AnyDiagnostic::UnresolvedIdent(Box::new(d))
    }
}

impl From<UnusedMut> for AnyDiagnostic {
    fn from(d: UnusedMut) -> (res: AnyDiagnostic) {
        AnyDiagnostic::UnusedMut(Box::new(d))
    }
}

impl vstd::std_specs::convert::FromSpecImpl<UnusedMut> for AnyDiagnostic {
    open spec fn obeys_from_spec() -> bool {
        true
    }

    open spec fn from_spec(d: UnusedMut) -> AnyDiagnostic {
        AnyDiagnostic::UnusedMut(Box::new(d))
    }
}

impl From<UnusedVariable> for AnyDiagnostic {
    fn from(d: UnusedVariable) -> (res: AnyDiagnostic) {
        AnyDiagnostic::UnusedVariable(Box::new(d))
    }
}

impl vstd::std_specs::convert::FromSpecImpl<UnusedVariable> for AnyDiagnostic {
    open spec fn obeys_from_spec() -> bool {
        true
    }

    open spec fn from_spec(d: UnusedVariable) -> AnyDiagnostic {
        AnyDiagnostic::UnusedVariable(Box::new(d))
    }
}

impl From<GenericArgsProhibited> for AnyDiagnostic {
    fn from(d: GenericArgsProhibited) -> (res: AnyDiagnostic) {
        AnyDiagnostic::GenericArgsProhibited(Box::new(d))
    }
}

impl vstd::std_specs::convert::FromSpecImpl<GenericArgsProhibited> for AnyDiagnostic {
    open spec fn obeys_from_spec() -> bool {
        true
    }

    open spec fn from_spec(d: GenericArgsProhibited) -> AnyDiagnostic {
        AnyDiagnostic::GenericArgsProhibited(Box::new(d))
    }
}

impl From<ParenthesizedGenericArgsWithoutFnTrait> for AnyDiagnostic {
    fn from(d: ParenthesizedGenericArgsWithoutFnTrait) -> (res: AnyDiagnostic) {
        AnyDiagnostic::ParenthesizedGenericArgsWithoutFnTrait(Box::new(d))
    }
}

impl vstd::std_specs::convert::FromSpecImpl<ParenthesizedGenericArgsWithoutFnTrait> for AnyDiagnostic {
    open spec fn obeys_from_spec() -> bool {
        true
    }

    open spec fn from_spec(d: ParenthesizedGenericArgsWithoutFnTrait) -> AnyDiagnostic {
        AnyDiagnostic::ParenthesizedGenericArgsWithoutFnTrait(Box::new(d))
    }
}

} // verus!
