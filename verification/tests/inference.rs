use hir_diagnostics::db::HirDatabase;
use hir_diagnostics::diagnostics::{AnyDiagnostic, GenericArgsProhibitedReason};
use hir_diagnostics::findings::{
    CastError, InferenceDiagnostic, InferenceTyDiagnosticSource, PathLoweringDiagnostic,
    TyLoweringDiagnostic, TyLoweringDiagnosticKind, TyLoweringDiagnosticSource,
};
use hir_diagnostics::ids::{
    AssocItem, AssocItemId, ConstId, DefWithBodyId, ExprId, ExprOrPatId, Field, FieldId, Function,
    FunctionId, LocalFieldId, Name, PatId, Ty, Type, TypeRefId, VariantId,
};
use hir_diagnostics::source_map::{BodySourceMap, TypesSourceMap};
use hir_diagnostics::syntax::{HirFileId, InFile, SyntaxKind, SyntaxNode, SyntaxNodePtr, TextRange};

const FILE: HirFileId = HirFileId(3);
const DEF: DefWithBodyId = DefWithBodyId(11);

fn ptr(kind: SyntaxKind, start: u32, end: u32) -> SyntaxNodePtr {
    SyntaxNodePtr { kind, range: TextRange { start, end } }
}

fn node(p: SyntaxNodePtr, children: Vec<SyntaxNodePtr>) -> SyntaxNode {
    SyntaxNode { file_id: FILE, ptr: p, children, hir_segments: vec![] }
}

fn path_node(
    p: SyntaxNodePtr,
    children: Vec<SyntaxNodePtr>,
    hir_segments: Vec<Option<SyntaxNodePtr>>,
) -> SyntaxNode {
    SyntaxNode { file_id: FILE, ptr: p, children, hir_segments }
}

fn in_file<T>(value: T) -> InFile<T> {
    InFile { file_id: FILE, value }
}

fn call_expr() -> SyntaxNodePtr {
    ptr(SyntaxKind::CallExpr, 10, 20)
}
// `a::b<T>` at 30..40; the second segment has generic arguments
fn path_expr() -> SyntaxNodePtr {
    ptr(SyntaxKind::PathExpr, 30, 40)
}
fn generic_args() -> SyntaxNodePtr {
    ptr(SyntaxKind::GenericArgList, 36, 40)
}
// `Fn(u8)` at 50..60, lowered to two segments of which the first has no syntax
fn path_type() -> SyntaxNodePtr {
    ptr(SyntaxKind::PathType, 50, 60)
}
fn type_paren_args() -> SyntaxNodePtr {
    ptr(SyntaxKind::ParenthesizedArgList, 52, 60)
}
fn ref_type() -> SyntaxNodePtr {
    ptr(SyntaxKind::RefType, 70, 75)
}
fn record_field() -> SyntaxNodePtr {
    ptr(SyntaxKind::RecordExprField, 80, 85)
}
fn format_args() -> SyntaxNodePtr {
    ptr(SyntaxKind::FormatArgsExpr, 90, 100)
}
fn ident_pat() -> SyntaxNodePtr {
    ptr(SyntaxKind::IdentPat, 110, 111)
}
// `f(u8)` at 120..130, a single segment with parenthesized arguments
fn paren_path_expr() -> SyntaxNodePtr {
    ptr(SyntaxKind::PathExpr, 120, 130)
}
fn expr_paren_args() -> SyntaxNodePtr {
    ptr(SyntaxKind::ParenthesizedArgList, 124, 130)
}

fn db() -> HirDatabase {
    let seg0 = ptr(SyntaxKind::PathSegment, 30, 33);
    let seg1 = ptr(SyntaxKind::PathSegment, 35, 40);
    let path = ptr(SyntaxKind::Path, 30, 40);
    let tpath = ptr(SyntaxKind::Path, 50, 60);
    let tseg = ptr(SyntaxKind::PathSegment, 50, 60);
    let ppath = ptr(SyntaxKind::Path, 120, 130);
    let pseg = ptr(SyntaxKind::PathSegment, 120, 130);
    HirDatabase {
        nodes: vec![
            node(call_expr(), vec![]),
            node(path_expr(), vec![path]),
            path_node(path, vec![seg0, seg1], vec![Some(seg0), Some(seg1)]),
            node(seg0, vec![ptr(SyntaxKind::NameRef, 30, 33)]),
            node(ptr(SyntaxKind::NameRef, 30, 33), vec![]),
            node(seg1, vec![ptr(SyntaxKind::NameRef, 35, 36), generic_args()]),
            node(ptr(SyntaxKind::NameRef, 35, 36), vec![]),
            node(generic_args(), vec![]),
            node(path_type(), vec![tpath]),
            path_node(tpath, vec![tseg], vec![None, Some(tseg)]),
            node(tseg, vec![type_paren_args()]),
            node(type_paren_args(), vec![]),
            node(ref_type(), vec![]),
            node(record_field(), vec![]),
            node(format_args(), vec![]),
            node(ident_pat(), vec![]),
            node(paren_path_expr(), vec![ppath]),
            path_node(ppath, vec![pseg], vec![Some(pseg)]),
            node(pseg, vec![expr_paren_args()]),
            node(expr_paren_args(), vec![]),
        ],
        variants: vec![],
    }
}

fn source_map() -> BodySourceMap {
    let mut field_map_back = vec![None; 7];
    field_map_back.push(Some(in_file(record_field())));
    BodySourceMap {
        expr_map_back: vec![
            Some(in_file(call_expr())),
            None,
            Some(in_file(path_expr())),
            Some(in_file(paren_path_expr())),
        ],
        pat_map_back: vec![Some(in_file(ident_pat())), None],
        field_map_back,
        pat_field_map_back: vec![],
        implicit_captures: vec![None, Some(in_file((format_args(), TextRange { start: 95, end: 96 })))],
        types: TypesSourceMap { types_map_back: vec![Some(in_file(path_type())), Some(in_file(ref_type()))] },
    }
}

fn signature_types() -> TypesSourceMap {
    TypesSourceMap { types_map_back: vec![Some(in_file(ref_type()))] }
}

fn lower(d: &InferenceDiagnostic) -> Option<AnyDiagnostic> {
    AnyDiagnostic::inference_diagnostic(&db(), DEF, d, &signature_types(), &source_map())
}

#[test]
fn mismatched_arg_count_reported_at_call() {
    let d = InferenceDiagnostic::MismatchedArgCount { call_expr: ExprId(0), expected: 2, found: 3 };
    match lower(&d) {
        Some(AnyDiagnostic::MismatchedArgCount(m)) => {
            assert_eq!(m.call_expr, in_file(call_expr()));
            assert_eq!(m.expected, 2);
            assert_eq!(m.found, 3);
        }
        other => panic!("unexpected {:?}", other),
    }
}

#[test]
fn desugared_expression_not_reported() {
    let d = InferenceDiagnostic::MismatchedArgCount { call_expr: ExprId(1), expected: 2, found: 3 };
    assert!(lower(&d).is_none());
    let d = InferenceDiagnostic::TypedHole { expr: ExprId(9), expected: Ty(1) };
    assert!(lower(&d).is_none());
    let d = InferenceDiagnostic::BreakOutsideOfLoop { expr: ExprId(1), is_break: true, bad_value_break: false };
    assert!(lower(&d).is_none());
}

#[test]
fn no_such_field_reported_at_record_field() {
    let d = InferenceDiagnostic::NoSuchField {
        field: ExprOrPatId::ExprId(ExprId(7)),
        private: true,
        variant: VariantId::UnionId(4),
    };
    match lower(&d) {
        Some(AnyDiagnostic::NoSuchField(n)) => {
            assert_eq!(n.field, in_file(record_field()));
            assert!(n.private);
            assert_eq!(n.variant, VariantId::UnionId(4));
        }
        other => panic!("unexpected {:?}", other),
    }
}

#[test]
fn unresolved_ident_reported_at_format_capture() {
    let d = InferenceDiagnostic::UnresolvedIdent { id: ExprOrPatId::ExprId(ExprId(1)) };
    match lower(&d) {
        Some(AnyDiagnostic::UnresolvedIdent(u)) => {
            assert_eq!(
                u.node,
                in_file((format_args(), Some(TextRange { start: 95, end: 96 })))
            );
        }
        other => panic!("unexpected {:?}", other),
    }
    // neither syntax nor capture
    let d = InferenceDiagnostic::UnresolvedIdent { id: ExprOrPatId::ExprId(ExprId(5)) };
    assert!(lower(&d).is_none());
}

#[test]
fn unresolved_ident_reported_at_syntax() {
    let d = InferenceDiagnostic::UnresolvedIdent { id: ExprOrPatId::PatId(PatId(0)) };
    match lower(&d) {
        Some(AnyDiagnostic::UnresolvedIdent(u)) => {
            assert_eq!(u.node, in_file((ident_pat(), None)));
        }
        other => panic!("unexpected {:?}", other),
    }
    let d = InferenceDiagnostic::UnresolvedIdent { id: ExprOrPatId::ExprId(ExprId(0)) };
    match lower(&d) {
        Some(AnyDiagnostic::UnresolvedIdent(u)) => {
            assert_eq!(u.node, in_file((call_expr(), None)));
        }
        other => panic!("unexpected {:?}", other),
    }
    let d = InferenceDiagnostic::UnresolvedIdent { id: ExprOrPatId::PatId(PatId(1)) };
    assert!(lower(&d).is_none());
}

#[test]
fn unresolved_method_call_carries_types_of_the_body() {
    let d = InferenceDiagnostic::UnresolvedMethodCall {
        expr: ExprId(0),
        receiver: Ty(5),
        name: Name { text: "frobnicate".to_string() },
        field_with_same_name: Some(Ty(6)),
        assoc_func_with_same_name: Some(FunctionId(8)),
    };
    match lower(&d) {
        Some(AnyDiagnostic::UnresolvedMethodCall(u)) => {
            assert_eq!(u.expr, in_file(call_expr()));
            assert_eq!(u.name, Name { text: "frobnicate".to_string() });
            assert_eq!(u.receiver, Type { owner: DEF, ty: Ty(5) });
            assert_eq!(u.field_with_same_name, Some(Type { owner: DEF, ty: Ty(6) }));
            assert_eq!(u.assoc_func_with_same_name, Some(Function { id: FunctionId(8) }));
        }
        other => panic!("unexpected {:?}", other),
    }
}

#[test]
fn unresolved_field_reported() {
    let d = InferenceDiagnostic::UnresolvedField {
        expr: ExprId(0),
        receiver: Ty(2),
        name: Name { text: "len".to_string() },
        method_with_same_name_exists: true,
    };
    match lower(&d) {
        Some(AnyDiagnostic::UnresolvedField(u)) => {
            assert_eq!(u.receiver, Type { owner: DEF, ty: Ty(2) });
            assert_eq!(u.name.text, "len");
            assert!(u.method_with_same_name_exists);
        }
        other => panic!("unexpected {:?}", other),
    }
}

#[test]
fn private_items_are_named_by_handles() {
    let d = InferenceDiagnostic::PrivateField {
        expr: ExprId(0),
        field: FieldId { parent: VariantId::StructId(1), local_id: LocalFieldId(3) },
    };
    match lower(&d) {
        Some(AnyDiagnostic::PrivateField(p)) => {
            assert_eq!(p.field, Field { parent: VariantId::StructId(1), id: LocalFieldId(3) });
        }
        other => panic!("unexpected {:?}", other),
    }
    let d = InferenceDiagnostic::PrivateAssocItem {
        id: ExprOrPatId::PatId(PatId(0)),
        item: AssocItemId::ConstId(ConstId(9)),
    };
    match lower(&d) {
        Some(AnyDiagnostic::PrivateAssocItem(p)) => {
            assert_eq!(p.expr_or_pat, in_file(ident_pat()));
            assert!(matches!(p.item, AssocItem::Const(c) if c.id == ConstId(9)));
        }
        other => panic!("unexpected {:?}", other),
    }
}

#[test]
fn casts_reported_with_both_types() {
    let d = InferenceDiagnostic::InvalidCast {
        expr: ExprId(0),
        error: CastError::NeedViaPtr,
        expr_ty: Ty(1),
        cast_ty: Ty(2),
    };
    match lower(&d) {
        Some(AnyDiagnostic::InvalidCast(c)) => {
            assert_eq!(c.error, CastError::NeedViaPtr);
            assert_eq!(c.expr_ty, Type { owner: DEF, ty: Ty(1) });
            assert_eq!(c.cast_ty, Type { owner: DEF, ty: Ty(2) });
        }
        other => panic!("unexpected {:?}", other),
    }
    let d = InferenceDiagnostic::CastToUnsized { expr: ExprId(0), cast_ty: Ty(4) };
    match lower(&d) {
        Some(AnyDiagnostic::CastToUnsized(c)) => assert_eq!(c.cast_ty, Type { owner: DEF, ty: Ty(4) }),
        other => panic!("unexpected {:?}", other),
    }
}

#[test]
fn tuple_struct_pattern_count_reported() {
    let d = InferenceDiagnostic::MismatchedTupleStructPatArgCount {
        pat: ExprOrPatId::PatId(PatId(0)),
        expected: 1,
        found: 0,
    };
    match lower(&d) {
        Some(AnyDiagnostic::MismatchedTupleStructPatArgCount(m)) => {
            assert_eq!(m.expr_or_pat, in_file(ident_pat()));
            assert_eq!((m.expected, m.found), (1, 0));
        }
        other => panic!("unexpected {:?}", other),
    }
}

#[test]
fn prohibited_generic_args_reported_at_segment_arguments() {
    let d = InferenceDiagnostic::PathDiagnostic {
        node: ExprOrPatId::ExprId(ExprId(2)),
        diag: PathLoweringDiagnostic::GenericArgsProhibited {
            segment: 1,
            reason: GenericArgsProhibitedReason::Module,
        },
    };
    match lower(&d) {
        Some(AnyDiagnostic::GenericArgsProhibited(g)) => {
            assert_eq!(g.args, in_file(generic_args()));
            assert_eq!(g.reason, GenericArgsProhibitedReason::Module);
        }
        other => panic!("unexpected {:?}", other),
    }
}

#[test]
fn prohibited_generic_args_fall_back_to_parenthesized() {
    let d = InferenceDiagnostic::PathDiagnostic {
        node: ExprOrPatId::ExprId(ExprId(3)),
        diag: PathLoweringDiagnostic::GenericArgsProhibited {
            segment: 0,
            reason: GenericArgsProhibitedReason::TyParam,
        },
    };
    match lower(&d) {
        Some(AnyDiagnostic::GenericArgsProhibited(g)) => {
            assert_eq!(g.args, in_file(expr_paren_args()));
        }
        other => panic!("unexpected {:?}", other),
    }
}

#[test]
fn path_problem_without_arguments_not_reported() {
    // the first segment has no arguments at all
    let d = InferenceDiagnostic::PathDiagnostic {
        node: ExprOrPatId::ExprId(ExprId(2)),
        diag: PathLoweringDiagnostic::GenericArgsProhibited {
            segment: 0,
            reason: GenericArgsProhibitedReason::Module,
        },
    };
    assert!(lower(&d).is_none());
    // a segment lowering does not give
    let d = InferenceDiagnostic::PathDiagnostic {
        node: ExprOrPatId::ExprId(ExprId(2)),
        diag: PathLoweringDiagnostic::ParenthesizedGenericArgsWithoutFnTrait { segment: 4 },
    };
    assert!(lower(&d).is_none());
    // generic, not parenthesized, arguments
    let d = InferenceDiagnostic::PathDiagnostic {
        node: ExprOrPatId::ExprId(ExprId(2)),
        diag: PathLoweringDiagnostic::ParenthesizedGenericArgsWithoutFnTrait { segment: 1 },
    };
    assert!(lower(&d).is_none());
}

#[test]
fn path_problem_outside_path_owner_not_reported() {
    let d = InferenceDiagnostic::PathDiagnostic {
        node: ExprOrPatId::ExprId(ExprId(0)),
        diag: PathLoweringDiagnostic::GenericArgsProhibited {
            segment: 0,
            reason: GenericArgsProhibitedReason::Module,
        },
    };
    assert!(lower(&d).is_none());
}

#[test]
fn parenthesized_args_reported_in_body_type() {
    let d = InferenceDiagnostic::TyDiagnostic {
        source: InferenceTyDiagnosticSource::Body,
        diag: TyLoweringDiagnostic {
            source: TyLoweringDiagnosticSource::TypeRef(TypeRefId(0)),
            kind: TyLoweringDiagnosticKind::PathDiagnostic(
                PathLoweringDiagnostic::ParenthesizedGenericArgsWithoutFnTrait { segment: 1 },
            ),
        },
    };
    match lower(&d) {
        Some(AnyDiagnostic::ParenthesizedGenericArgsWithoutFnTrait(p)) => {
            assert_eq!(p.args, in_file(type_paren_args()));
        }
        other => panic!("unexpected {:?}", other),
    }
}

#[test]
fn signature_type_problem_uses_signature_types() {
    // the signature's type reference 0 is a reference type, not a path type
    let d = InferenceDiagnostic::TyDiagnostic {
        source: InferenceTyDiagnosticSource::Signature,
        diag: TyLoweringDiagnostic {
            source: TyLoweringDiagnosticSource::TypeRef(TypeRefId(0)),
            kind: TyLoweringDiagnosticKind::PathDiagnostic(
                PathLoweringDiagnostic::ParenthesizedGenericArgsWithoutFnTrait { segment: 1 },
            ),
        },
    };
    assert!(lower(&d).is_none());
}

#[test]
fn type_problem_lowering() {
    let sm = source_map();
    let db = db();
    let path_problem = TyLoweringDiagnosticKind::PathDiagnostic(
        PathLoweringDiagnostic::GenericArgsProhibited {
            segment: 1,
            reason: GenericArgsProhibitedReason::PrimitiveTy,
        },
    );
    // given as syntax
    let d = TyLoweringDiagnostic {
        source: TyLoweringDiagnosticSource::Syntax(in_file(path_type())),
        kind: path_problem,
    };
    match AnyDiagnostic::ty_diagnostic(&d, &sm.types, &db) {
        Some(AnyDiagnostic::GenericArgsProhibited(g)) => {
            assert_eq!(g.args, in_file(type_paren_args()));
            assert_eq!(g.reason, GenericArgsProhibitedReason::PrimitiveTy);
        }
        other => panic!("unexpected {:?}", other),
    }
    // not a path type
    let d = TyLoweringDiagnostic { source: TyLoweringDiagnosticSource::TypeRef(TypeRefId(1)), kind: path_problem };
    assert!(AnyDiagnostic::ty_diagnostic(&d, &sm.types, &db).is_none());
    // a type reference without syntax
    let d = TyLoweringDiagnostic { source: TyLoweringDiagnosticSource::TypeRef(TypeRefId(8)), kind: path_problem };
    assert!(AnyDiagnostic::ty_diagnostic(&d, &sm.types, &db).is_none());
    // a lowered segment without syntax
    let d = TyLoweringDiagnostic {
        source: TyLoweringDiagnosticSource::TypeRef(TypeRefId(0)),
        kind: TyLoweringDiagnosticKind::PathDiagnostic(
            PathLoweringDiagnostic::ParenthesizedGenericArgsWithoutFnTrait { segment: 0 },
        ),
    };
    assert!(AnyDiagnostic::ty_diagnostic(&d, &sm.types, &db).is_none());
}

#[test]
fn path_diagnostic_on_given_path() {
    let db = db();
    let d = PathLoweringDiagnostic::GenericArgsProhibited {
        segment: 0,
        reason: GenericArgsProhibitedReason::SelfTy,
    };
    match AnyDiagnostic::path_diagnostic(&d, in_file(ptr(SyntaxKind::Path, 120, 130)), &db) {
        Some(AnyDiagnostic::GenericArgsProhibited(g)) => {
            assert_eq!(g.args, in_file(expr_paren_args()));
            assert_eq!(g.reason, GenericArgsProhibitedReason::SelfTy);
        }
        other => panic!("unexpected {:?}", other),
    }
}

#[test]
fn inference_report_sites_are_found_in_db() {
    let db = db();
    let findings = vec![
        InferenceDiagnostic::MismatchedArgCount { call_expr: ExprId(0), expected: 0, found: 1 },
        InferenceDiagnostic::PathDiagnostic {
            node: ExprOrPatId::ExprId(ExprId(2)),
            diag: PathLoweringDiagnostic::GenericArgsProhibited {
                segment: 1,
                reason: GenericArgsProhibitedReason::Static,
            },
        },
        InferenceDiagnostic::TyDiagnostic {
            source: InferenceTyDiagnosticSource::Body,
            diag: TyLoweringDiagnostic {
                source: TyLoweringDiagnosticSource::TypeRef(TypeRefId(0)),
                kind: TyLoweringDiagnosticKind::PathDiagnostic(
                    PathLoweringDiagnostic::ParenthesizedGenericArgsWithoutFnTrait { segment: 1 },
                ),
            },
        },
    ];
    for d in findings.iter() {
        let site = match lower(d) {
            Some(AnyDiagnostic::MismatchedArgCount(m)) => m.call_expr,
            Some(AnyDiagnostic::GenericArgsProhibited(g)) => g.args,
            Some(AnyDiagnostic::ParenthesizedGenericArgsWithoutFnTrait(p)) => p.args,
            other => panic!("unexpected {:?}", other),
        };
        assert_eq!(db.to_node(site).ptr, site.value);
        assert_eq!(db.to_node(site).file_id, site.file_id);
    }
}

#[test]
fn reported_arguments_lie_within_the_path() {
    let cases = vec![
        (ExprId(2), PathLoweringDiagnostic::GenericArgsProhibited { segment: 1, reason: GenericArgsProhibitedReason::Const }),
        (ExprId(3), PathLoweringDiagnostic::ParenthesizedGenericArgsWithoutFnTrait { segment: 0 }),
    ];
    for (expr, diag) in cases {
        let d = InferenceDiagnostic::PathDiagnostic { node: ExprOrPatId::ExprId(expr), diag };
        let args = match lower(&d) {
            Some(AnyDiagnostic::GenericArgsProhibited(g)) => g.args,
            Some(AnyDiagnostic::ParenthesizedGenericArgsWithoutFnTrait(p)) => p.args,
            other => panic!("unexpected {:?}", other),
        };
        let owner = source_map().expr_syntax(expr).unwrap();
        assert_eq!(args.file_id, owner.file_id);
        assert!(owner.value.range.start <= args.value.range.start);
        assert!(args.value.range.end <= owner.value.range.end);
    }
}

#[test]
fn signature_types_matter_only_to_signature_type_problems() {
    let other = TypesSourceMap { types_map_back: vec![Some(in_file(path_type()))] };
    let body_problem = InferenceDiagnostic::TyDiagnostic {
        source: InferenceTyDiagnosticSource::Body,
        diag: TyLoweringDiagnostic {
            source: TyLoweringDiagnosticSource::TypeRef(TypeRefId(1)),
            kind: TyLoweringDiagnosticKind::PathDiagnostic(
                PathLoweringDiagnostic::ParenthesizedGenericArgsWithoutFnTrait { segment: 1 },
            ),
        },
    };
    let call = InferenceDiagnostic::MismatchedArgCount { call_expr: ExprId(0), expected: 1, found: 2 };
    for d in [body_problem, call] {
        let a = AnyDiagnostic::inference_diagnostic(&db(), DEF, &d, &signature_types(), &source_map());
        let b = AnyDiagnostic::inference_diagnostic(&db(), DEF, &d, &other, &source_map());
        assert_eq!(format!("{:?}", a), format!("{:?}", b));
    }
    // a signature type problem does depend on it
    let sig_problem = InferenceDiagnostic::TyDiagnostic {
        source: InferenceTyDiagnosticSource::Signature,
        diag: TyLoweringDiagnostic {
            source: TyLoweringDiagnosticSource::TypeRef(TypeRefId(0)),
            kind: TyLoweringDiagnosticKind::PathDiagnostic(
                PathLoweringDiagnostic::ParenthesizedGenericArgsWithoutFnTrait { segment: 1 },
            ),
        },
    };
    assert!(AnyDiagnostic::inference_diagnostic(&db(), DEF, &sig_problem, &signature_types(), &source_map()).is_none());
    assert!(AnyDiagnostic::inference_diagnostic(&db(), DEF, &sig_problem, &other, &source_map()).is_some());
}
