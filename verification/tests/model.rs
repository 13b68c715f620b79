use hir_diagnostics::diagnostics::InactiveCode;
use hir_diagnostics::findings::{CfgAtom, CfgExpr, CfgOptions};
use hir_diagnostics::db::{HirDatabase, VariantFields};
use hir_diagnostics::diagnostics::{
    AnyDiagnostic, MissingUnsafe, UnsafeLint, UnusedMut, UnusedVariable,
};
use hir_diagnostics::findings::UnsafetyReason;
use hir_diagnostics::ids::{
    AssocItem, AssocItemId, BindingId, DefWithBodyId, Field, FieldId, Function, FunctionId,
    LocalFieldId, Local, Name, Ty, Type, TypeAliasId, VariantId,
};
use hir_diagnostics::lower_path::hir_segment_to_ast_segment;
use hir_diagnostics::source_map::{BodySourceMap, SyntheticSyntax, TypesSourceMap};
use hir_diagnostics::ids::{ExprId, PatId, TypeRefId};
use hir_diagnostics::syntax::{HirFileId, InFile, SyntaxKind, SyntaxNode, SyntaxNodePtr, TextRange};

fn ptr(kind: SyntaxKind, start: u32, end: u32) -> SyntaxNodePtr {
    SyntaxNodePtr { kind, range: TextRange { start, end } }
}

fn local() -> Local {
    Local { parent: DefWithBodyId(1), binding_id: BindingId(2) }
}

#[test]
fn unused_diagnostics_convert_to_any() {
    match AnyDiagnostic::from(UnusedMut { local: local() }) {
        AnyDiagnostic::UnusedMut(u) => assert_eq!(u.local, local()),
        other => panic!("unexpected {:?}", other),
    }
    match AnyDiagnostic::from(UnusedVariable { local: local() }) {
        AnyDiagnostic::UnusedVariable(u) => assert_eq!(u.local, local()),
        other => panic!("unexpected {:?}", other),
    }
}

#[test]
fn missing_unsafe_keeps_its_lint() {
    let d = MissingUnsafe {
        node: InFile { file_id: HirFileId(0), value: ptr(SyntaxKind::CallExpr, 0, 4) },
        lint: UnsafeLint::UnsafeOpInUnsafeFn,
        reason: UnsafetyReason::UnsafeFnCall,
    };
    match AnyDiagnostic::from(d) {
        AnyDiagnostic::MissingUnsafe(m) => {
            assert_eq!(m.lint, UnsafeLint::UnsafeOpInUnsafeFn);
            assert_ne!(m.lint, UnsafeLint::HardError);
            assert_eq!(m.reason, UnsafetyReason::UnsafeFnCall);
        }
        other => panic!("unexpected {:?}", other),
    }
}

#[test]
fn handles_from_ids() {
    assert_eq!(Function::from(FunctionId(4)), Function { id: FunctionId(4) });
    assert_eq!(
        Field::from(FieldId { parent: VariantId::EnumVariantId(2), local_id: LocalFieldId(1) }),
        Field { parent: VariantId::EnumVariantId(2), id: LocalFieldId(1) }
    );
    assert!(matches!(
        AssocItem::from(AssocItemId::TypeAliasId(TypeAliasId(6))),
        AssocItem::TypeAlias(t) if t.id == TypeAliasId(6)
    ));
    assert!(matches!(
        AssocItem::from(AssocItemId::FunctionId(FunctionId(6))),
        AssocItem::Function(f) if f.id == FunctionId(6)
    ));
    assert_eq!(Type::new(DefWithBodyId(3), Ty(9)), Type { owner: DefWithBodyId(3), ty: Ty(9) });
}

#[test]
fn kinds_are_classified() {
    assert!(SyntaxKind::MatchExpr.is_expr());
    assert!(!SyntaxKind::MatchExpr.is_pat());
    assert!(SyntaxKind::TupleStructPat.is_pat());
    assert!(!SyntaxKind::PathType.is_expr());
    assert!(!SyntaxKind::Path.is_pat());
}

#[test]
fn child_queries_take_the_first_match() {
    let n = SyntaxNode {
        file_id: HirFileId(0),
        ptr: ptr(SyntaxKind::MatchExpr, 0, 30),
        children: vec![
            ptr(SyntaxKind::Other, 0, 5),
            ptr(SyntaxKind::PathExpr, 6, 7),
            ptr(SyntaxKind::Literal, 8, 9),
            ptr(SyntaxKind::MatchArmList, 10, 30),
        ],
        hir_segments: vec![],
    };
    assert_eq!(n.expr_child(), Some(ptr(SyntaxKind::PathExpr, 6, 7)));
    assert_eq!(n.child_of_kind(SyntaxKind::MatchArmList), Some(ptr(SyntaxKind::MatchArmList, 10, 30)));
    assert_eq!(n.child_of_kind(SyntaxKind::Path), None);
}

#[test]
fn nodes_and_fields_are_looked_up() {
    let p = ptr(SyntaxKind::Path, 0, 10);
    let seg = ptr(SyntaxKind::PathSegment, 5, 10);
    let db = HirDatabase {
        nodes: vec![
            SyntaxNode { file_id: HirFileId(1), ptr: p, children: vec![], hir_segments: vec![] },
            SyntaxNode { file_id: HirFileId(2), ptr: p, children: vec![seg], hir_segments: vec![None, Some(seg)] },
            SyntaxNode { file_id: HirFileId(2), ptr: seg, children: vec![], hir_segments: vec![] },
        ],
        variants: vec![VariantFields {
            variant: VariantId::StructId(0),
            field_names: vec![Name { text: "x".to_string() }, Name { text: "y".to_string() }],
        }],
    };
    let src = InFile { file_id: HirFileId(2), value: p };
    assert_eq!(db.to_node(src).children, vec![seg]);
    assert_eq!(hir_segment_to_ast_segment(&db, src, 1), Some(seg));
    assert_eq!(hir_segment_to_ast_segment(&db, src, 0), None);
    assert_eq!(hir_segment_to_ast_segment(&db, src, 2), None);
    assert_eq!(hir_segment_to_ast_segment(&db, InFile { file_id: HirFileId(1), value: p }, 0), None);
    assert_eq!(
        db.field_names(VariantId::StructId(0), &vec![LocalFieldId(1), LocalFieldId(1), LocalFieldId(0)]),
        vec![
            Name { text: "y".to_string() },
            Name { text: "y".to_string() },
            Name { text: "x".to_string() }
        ]
    );
}

#[test]
fn source_maps_report_synthetic_syntax() {
    let at = InFile { file_id: HirFileId(0), value: ptr(SyntaxKind::IdentPat, 1, 2) };
    let sm = BodySourceMap {
        expr_map_back: vec![None, Some(at)],
        pat_map_back: vec![Some(at)],
        field_map_back: vec![],
        pat_field_map_back: vec![],
        implicit_captures: vec![],
        types: TypesSourceMap { types_map_back: vec![None] },
    };
    assert_eq!(sm.expr_syntax(ExprId(0)), Err(SyntheticSyntax));
    assert_eq!(sm.expr_syntax(ExprId(1)), Ok(at));
    assert_eq!(sm.expr_syntax(ExprId(2)), Err(SyntheticSyntax));
    assert_eq!(sm.pat_syntax(PatId(0)), Ok(at));
    assert_eq!(sm.types.type_syntax(TypeRefId(0)), Err(SyntheticSyntax));
    assert_eq!(sm.format_args_implicit_capture(ExprId(0)), None);
}

#[test]
fn inactive_code_clones() {
    let cfg = CfgExpr::All(vec![
        CfgExpr::Atom(CfgAtom::Flag("test".to_string())),
        CfgExpr::Not(Box::new(CfgExpr::Any(vec![CfgExpr::Atom(CfgAtom::KeyValue {
            key: "target_os".to_string(),
            value: "linux".to_string(),
        })]))),
        CfgExpr::Invalid,
    ]);
    let d = InactiveCode {
        node: InFile { file_id: HirFileId(0), value: ptr(SyntaxKind::Other, 0, 9) },
        cfg,
        opts: CfgOptions { enabled: vec![CfgAtom::Flag("test".to_string())] },
    };
    let copy = d.clone();
    assert_eq!(copy, d);
}
