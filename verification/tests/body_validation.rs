use hir_diagnostics::db::{HirDatabase, VariantFields};
use hir_diagnostics::diagnostics::AnyDiagnostic;
use hir_diagnostics::findings::BodyValidationDiagnostic;
use hir_diagnostics::ids::{ExprId, ExprOrPatId, LocalFieldId, Name, PatId, VariantId};
use hir_diagnostics::source_map::{BodySourceMap, TypesSourceMap};
use hir_diagnostics::syntax::{HirFileId, InFile, SyntaxKind, SyntaxNode, SyntaxNodePtr, TextRange};

const FILE: HirFileId = HirFileId(1);

fn ptr(kind: SyntaxKind, start: u32, end: u32) -> SyntaxNodePtr {
    SyntaxNodePtr { kind, range: TextRange { start, end } }
}

fn node(p: SyntaxNodePtr, children: Vec<SyntaxNodePtr>) -> SyntaxNode {
    SyntaxNode { file_id: FILE, ptr: p, children, hir_segments: vec![] }
}

fn name(s: &str) -> Name {
    Name { text: s.to_string() }
}

// `Foo { x: 1 }` at 10..30, `match e { }` at 40..60, a record pattern without
// field list at 70..75, a return at 80..90, an if at 100..120, a method chain
// at 130..150, an identifier pattern at 160..161, a literal at 170..171.
fn record_expr() -> SyntaxNodePtr {
    ptr(SyntaxKind::RecordExpr, 10, 30)
}
fn record_path() -> SyntaxNodePtr {
    ptr(SyntaxKind::Path, 10, 13)
}
fn match_expr() -> SyntaxNodePtr {
    ptr(SyntaxKind::MatchExpr, 40, 60)
}
fn scrutinee() -> SyntaxNodePtr {
    ptr(SyntaxKind::PathExpr, 46, 47)
}
fn record_pat() -> SyntaxNodePtr {
    ptr(SyntaxKind::RecordPat, 70, 75)
}
fn return_expr() -> SyntaxNodePtr {
    ptr(SyntaxKind::ReturnExpr, 80, 90)
}
fn if_expr() -> SyntaxNodePtr {
    ptr(SyntaxKind::IfExpr, 100, 120)
}
fn method_call() -> SyntaxNodePtr {
    ptr(SyntaxKind::MethodCallExpr, 130, 150)
}
fn ident_pat() -> SyntaxNodePtr {
    ptr(SyntaxKind::IdentPat, 160, 161)
}
fn literal() -> SyntaxNodePtr {
    ptr(SyntaxKind::Literal, 170, 171)
}

fn variant() -> VariantId {
    VariantId::StructId(7)
}

fn db() -> HirDatabase {
    HirDatabase {
        nodes: vec![
            node(
                record_expr(),
                vec![record_path(), ptr(SyntaxKind::RecordExprFieldList, 14, 30)],
            ),
            node(record_path(), vec![]),
            node(ptr(SyntaxKind::RecordExprFieldList, 14, 30), vec![]),
            node(
                match_expr(),
                vec![scrutinee(), ptr(SyntaxKind::MatchArmList, 48, 60)],
            ),
            node(scrutinee(), vec![]),
            node(ptr(SyntaxKind::MatchArmList, 48, 60), vec![]),
            node(record_pat(), vec![ptr(SyntaxKind::Path, 70, 73)]),
            node(ptr(SyntaxKind::Path, 70, 73), vec![]),
            node(return_expr(), vec![]),
            node(if_expr(), vec![]),
            node(method_call(), vec![]),
            node(ident_pat(), vec![]),
            node(literal(), vec![]),
        ],
        variants: vec![VariantFields {
            variant: variant(),
            field_names: vec![name("a"), name("b"), name("c")],
        }],
    }
}

fn source_map() -> BodySourceMap {
    let at = |p| Some(InFile { file_id: FILE, value: p });
    BodySourceMap {
        expr_map_back: vec![
            at(record_expr()),
            at(match_expr()),
            None,
            at(return_expr()),
            at(if_expr()),
            at(method_call()),
            at(ident_pat()),
        ],
        pat_map_back: vec![at(ident_pat()), at(record_pat()), at(literal())],
        field_map_back: vec![],
        pat_field_map_back: vec![],
        implicit_captures: vec![],
        types: TypesSourceMap { types_map_back: vec![] },
    }
}

fn lower(d: BodyValidationDiagnostic) -> Option<AnyDiagnostic> {
    AnyDiagnostic::body_validation_diagnostic(&db(), d, &source_map())
}

#[test]
fn missing_fields_reported_at_record_expression() {
    let d = BodyValidationDiagnostic::RecordMissingFields {
        record: ExprOrPatId::ExprId(ExprId(0)),
        variant: variant(),
        missed_fields: vec![LocalFieldId(2), LocalFieldId(0)],
    };
    match lower(d) {
        Some(AnyDiagnostic::MissingFields(m)) => {
            assert_eq!(m.file, FILE);
            assert_eq!(m.field_list_parent, record_expr());
            assert_eq!(m.field_list_parent_path, Some(record_path()));
            assert_eq!(m.missed_fields, vec![name("c"), name("a")]);
        }
        other => panic!("unexpected {:?}", other),
    }
}

#[test]
fn missing_fields_without_field_list_not_reported() {
    let d = BodyValidationDiagnostic::RecordMissingFields {
        record: ExprOrPatId::PatId(PatId(1)),
        variant: variant(),
        missed_fields: vec![LocalFieldId(1)],
    };
    assert!(lower(d).is_none());
}

#[test]
fn missing_fields_of_desugared_record_not_reported() {
    let d = BodyValidationDiagnostic::RecordMissingFields {
        record: ExprOrPatId::ExprId(ExprId(2)),
        variant: variant(),
        missed_fields: vec![LocalFieldId(1)],
    };
    assert!(lower(d).is_none());
}

#[test]
fn missing_fields_at_non_record_not_reported() {
    let d = BodyValidationDiagnostic::RecordMissingFields {
        record: ExprOrPatId::ExprId(ExprId(3)),
        variant: variant(),
        missed_fields: vec![],
    };
    assert!(lower(d).is_none());
}

#[test]
fn missing_match_arms_reported_at_scrutinee() {
    let d = BodyValidationDiagnostic::MissingMatchArms {
        match_expr: ExprId(1),
        uncovered_patterns: "None".to_string(),
    };
    match lower(d) {
        Some(AnyDiagnostic::MissingMatchArms(m)) => {
            assert_eq!(m.scrutinee_expr, InFile { file_id: FILE, value: scrutinee() });
            assert_eq!(m.uncovered_patterns, "None");
        }
        other => panic!("unexpected {:?}", other),
    }
}

#[test]
fn missing_match_arms_outside_match_not_reported() {
    let d = BodyValidationDiagnostic::MissingMatchArms {
        match_expr: ExprId(0),
        uncovered_patterns: "_".to_string(),
    };
    assert!(lower(d).is_none());
    let d = BodyValidationDiagnostic::MissingMatchArms {
        match_expr: ExprId(9),
        uncovered_patterns: "_".to_string(),
    };
    assert!(lower(d).is_none());
}

#[test]
fn trailing_return_reported_only_at_return() {
    match lower(BodyValidationDiagnostic::RemoveTrailingReturn { return_expr: ExprId(3) }) {
        Some(AnyDiagnostic::RemoveTrailingReturn(r)) => {
            assert_eq!(r.return_expr, InFile { file_id: FILE, value: return_expr() });
        }
        other => panic!("unexpected {:?}", other),
    }
    // a desugared return, here lowered from an `if`
    assert!(lower(BodyValidationDiagnostic::RemoveTrailingReturn { return_expr: ExprId(4) }).is_none());
    assert!(lower(BodyValidationDiagnostic::RemoveTrailingReturn { return_expr: ExprId(2) }).is_none());
}

#[test]
fn unnecessary_else_reported_only_at_if() {
    match lower(BodyValidationDiagnostic::RemoveUnnecessaryElse { if_expr: ExprId(4) }) {
        Some(AnyDiagnostic::RemoveUnnecessaryElse(r)) => {
            assert_eq!(r.if_expr, InFile { file_id: FILE, value: if_expr() });
        }
        other => panic!("unexpected {:?}", other),
    }
    assert!(lower(BodyValidationDiagnostic::RemoveUnnecessaryElse { if_expr: ExprId(3) }).is_none());
}

#[test]
fn filter_map_next_reported_at_expression() {
    match lower(BodyValidationDiagnostic::ReplaceFilterMapNextWithFindMap {
        method_call_expr: ExprId(5),
    }) {
        Some(AnyDiagnostic::ReplaceFilterMapNextWithFindMap(r)) => {
            assert_eq!(r.file, FILE);
            assert_eq!(r.next_expr, method_call());
        }
        other => panic!("unexpected {:?}", other),
    }
    // expression lowered from pattern syntax
    assert!(lower(BodyValidationDiagnostic::ReplaceFilterMapNextWithFindMap {
        method_call_expr: ExprId(6),
    })
    .is_none());
    assert!(lower(BodyValidationDiagnostic::ReplaceFilterMapNextWithFindMap {
        method_call_expr: ExprId(2),
    })
    .is_none());
}

#[test]
fn non_exhaustive_let_reported_at_pattern() {
    let d = BodyValidationDiagnostic::NonExhaustiveLet {
        pat: PatId(0),
        uncovered_patterns: "Err(_)".to_string(),
    };
    match lower(d) {
        Some(AnyDiagnostic::NonExhaustiveLet(n)) => {
            assert_eq!(n.pat, InFile { file_id: FILE, value: ident_pat() });
            assert_eq!(n.uncovered_patterns, "Err(_)");
        }
        other => panic!("unexpected {:?}", other),
    }
    // a pattern lowered from expression syntax
    let d = BodyValidationDiagnostic::NonExhaustiveLet {
        pat: PatId(2),
        uncovered_patterns: "_".to_string(),
    };
    assert!(lower(d).is_none());
    let d = BodyValidationDiagnostic::NonExhaustiveLet {
        pat: PatId(5),
        uncovered_patterns: "_".to_string(),
    };
    assert!(lower(d).is_none());
}

#[test]
fn body_report_sites_are_found_in_db() {
    let db = db();
    match lower(BodyValidationDiagnostic::MissingMatchArms {
        match_expr: ExprId(1),
        uncovered_patterns: "_".to_string(),
    }) {
        Some(AnyDiagnostic::MissingMatchArms(m)) => {
            assert_eq!(db.to_node(m.scrutinee_expr).ptr, scrutinee());
        }
        other => panic!("unexpected {:?}", other),
    }
    let d = BodyValidationDiagnostic::RecordMissingFields {
        record: ExprOrPatId::ExprId(ExprId(0)),
        variant: variant(),
        missed_fields: vec![LocalFieldId(1)],
    };
    match lower(d) {
        Some(AnyDiagnostic::MissingFields(m)) => {
            let parent = InFile { file_id: m.file, value: m.field_list_parent };
            assert_eq!(db.to_node(parent).ptr, record_expr());
            let path = InFile { file_id: m.file, value: m.field_list_parent_path.unwrap() };
            assert_eq!(db.to_node(path).ptr, record_path());
            assert_eq!(m.missed_fields, vec![name("b")]);
        }
        other => panic!("unexpected {:?}", other),
    }
}

#[test]
fn scrutinee_lies_within_the_match() {
    match lower(BodyValidationDiagnostic::MissingMatchArms {
        match_expr: ExprId(1),
        uncovered_patterns: "_".to_string(),
    }) {
        Some(AnyDiagnostic::MissingMatchArms(m)) => {
            let owner = match_expr();
            assert!(owner.range.start <= m.scrutinee_expr.value.range.start);
            assert!(m.scrutinee_expr.value.range.end <= owner.range.end);
        }
        other => panic!("unexpected {:?}", other),
    }
}
