//! Lowering of the findings of body validation into diagnostics that point at
//! the syntax they concern.
use vstd::prelude::*;

use crate::db::{lemma_find_node_member, HirDatabase};
use crate::diagnostics::{
    AnyDiagnostic, MissingFields, MissingMatchArms, NonExhaustiveLet, RemoveTrailingReturn,
    RemoveUnnecessaryElse, ReplaceFilterMapNextWithFindMap,
};
use crate::findings::BodyValidationDiagnostic;
use crate::ids::ExprOrPatId;
use crate::source_map::BodySourceMap;
use crate::syntax::{first_child_of_kind, first_expr_child, InFile, SyntaxKind, SyntaxNodePtr};

verus! {

/// A body validation finding can be lowered against this source map: for
/// missing record fields the variant is known and every missing position is
/// one of its fields; for missing record fields and missing match arms the
/// expression or pattern syntax the finding lies at, if any, is an expression
/// or pattern node of `db`.
pub open spec fn body_validation_lowerable(
    db: &HirDatabase,
    diagnostic: BodyValidationDiagnostic,
    source_map: &BodySourceMap,
) -> bool {
    match diagnostic {
        BodyValidationDiagnostic::RecordMissingFields { record, variant, missed_fields } => {
            &&& db.has_variant(variant)
            &&& forall|k: int|
                0 <= k < missed_fields@.len() ==> (#[trigger] missed_fields@[k]).0
                    < db.field_names_of(variant).len()
            &&& source_map.spec_expr_or_pat_syntax(record) matches Ok(src) ==> db.resolves(src)
                && src.value.kind.is_expr_or_pat_kind()
        },
        BodyValidationDiagnostic::MissingMatchArms { match_expr, .. } => {
            source_map.spec_expr_syntax(match_expr) matches Ok(src) ==> db.resolves(src)
                && src.value.kind.is_expr_or_pat_kind()
        },
        _ => true,
    }
}

/// A node of kind `kind` with these children is a record with a field list:
/// a record expression with a record expression field list, or a record
/// pattern with a record pattern field list.
pub open spec fn is_record_with_field_list(kind: SyntaxKind, children: Seq<SyntaxNodePtr>) -> bool {
    ||| kind == SyntaxKind::RecordExpr && first_child_of_kind(children, SyntaxKind::RecordExprFieldList) is Some
    ||| kind == SyntaxKind::RecordPat && first_child_of_kind(children, SyntaxKind::RecordPatFieldList) is Some
}

/// `res` is what a body validation finding lowers to.
///
/// A finding anchored at an expression or pattern that has no syntax (it came
/// from desugaring) lowers to none. Missing record fields are reported at a
/// record expression or pattern that has a field list, with its path and the
/// names of the missing fields; a missing match arm at the scrutinee of a
/// match expression that has one and has an arm list; a non-exhaustive `let`
/// at pattern syntax; a `filter_map(..).next()` chain at expression syntax; a
/// trailing `return` only at `return` syntax (a desugared return, such as that
/// of `?`, is not reported); an unnecessary `else` only at `if` syntax.
pub open spec fn is_body_validation_result(
    db: &HirDatabase,
    diagnostic: BodyValidationDiagnostic,
    source_map: &BodySourceMap,
    res: Option<AnyDiagnostic>,
) -> bool {
    match diagnostic {
        BodyValidationDiagnostic::RecordMissingFields { record, variant, missed_fields } => {
            match source_map.spec_expr_or_pat_syntax(record) {
                Err(_) => res is None,
                Ok(s) => {
                    let node = db.node_at(s);
                    if is_record_with_field_list(node.ptr.kind, node.children@) {
                        &&& res matches Some(AnyDiagnostic::MissingFields(m))
                        &&& m.file == s.file_id
                        &&& m.field_list_parent == s.value
                        &&& m.field_list_parent_path == first_child_of_kind(node.children@, SyntaxKind::Path)
                        &&& m.missed_fields@ == db.names_of_fields(variant, missed_fields@)
                    } else {
                        res is None
                    }
                },
            }
        },
        BodyValidationDiagnostic::ReplaceFilterMapNextWithFindMap { method_call_expr } => {
            match source_map.spec_expr_syntax(method_call_expr) {
                Ok(s) => if s.value.kind.is_expr_kind() {
                    res == Some(
                        AnyDiagnostic::ReplaceFilterMapNextWithFindMap(
                            Box::new(ReplaceFilterMapNextWithFindMap { file: s.file_id, next_expr: s.value }),
                        ),
                    )
                } else {
                    res is None
                },
                Err(_) => res is None,
            }
        },
        BodyValidationDiagnostic::MissingMatchArms { match_expr, uncovered_patterns } => {
            match source_map.spec_expr_syntax(match_expr) {
                Ok(s) => {
                    let node = db.node_at(s);
                    if node.ptr.kind == SyntaxKind::MatchExpr && first_expr_child(node.children@) is Some
                        && first_child_of_kind(node.children@, SyntaxKind::MatchArmList) is Some {
                        res == Some(
                            AnyDiagnostic::MissingMatchArms(
                                Box::new(
                                    MissingMatchArms {
                                        scrutinee_expr: InFile {
                                            file_id: s.file_id,
                                            value: first_expr_child(node.children@).unwrap(),
                                        },
                                        uncovered_patterns,
                                    },
                                ),
                            ),
                        )
                    } else {
                        res is None
                    }
                },
                Err(_) => res is None,
            }
        },
        BodyValidationDiagnostic::NonExhaustiveLet { pat, uncovered_patterns } => {
            match source_map.spec_pat_syntax(pat) {
                Ok(s) => if s.value.kind.is_pat_kind() {
                    res == Some(
                        AnyDiagnostic::NonExhaustiveLet(
                            Box::new(NonExhaustiveLet { pat: s, uncovered_patterns }),
                        ),
                    )
                } else {
                    res is None
                },
                Err(_) => res is None,
            }
        },
        BodyValidationDiagnostic::RemoveTrailingReturn { return_expr } => {
            match source_map.spec_expr_syntax(return_expr) {
                Ok(s) => if s.value.kind == SyntaxKind::ReturnExpr {
                    res == Some(
                        AnyDiagnostic::RemoveTrailingReturn(
                            Box::new(RemoveTrailingReturn { return_expr: s }),
                        ),
                    )
                } else {
                    res is None
                },
                Err(_) => res is None,
            }
        },
        BodyValidationDiagnostic::RemoveUnnecessaryElse { if_expr } => {
            match source_map.spec_expr_syntax(if_expr) {
                Ok(s) => if s.value.kind == SyntaxKind::IfExpr {
                    res == Some(
                        AnyDiagnostic::RemoveUnnecessaryElse(
                            Box::new(RemoveUnnecessaryElse { if_expr: s }),
                        ),
                    )
                } else {
                    res is None
                },
                Err(_) => res is None,
            }
        },
    }
}

impl AnyDiagnostic {
    /// Lowers a finding of the validation of a body whose syntax is that of
    /// `source_map`.
    pub fn body_validation_diagnostic(
        db: &HirDatabase,
        diagnostic: BodyValidationDiagnostic,
        source_map: &BodySourceMap,
    ) -> (res: Option<AnyDiagnostic>)
        requires
            body_validation_lowerable(db, diagnostic, source_map),
        ensures
            is_body_validation_result(db, diagnostic, source_map, res),
    {
        match diagnostic {
            BodyValidationDiagnostic::RecordMissingFields { record, variant, missed_fields } => {
                let missed_fields = db.field_names(variant, &missed_fields);
                let record = match record {
                    ExprOrPatId::ExprId(record_expr) => match source_map.expr_syntax(record_expr) {
                        Ok(s) => s,
                        Err(_) => return None,
                    },
                    ExprOrPatId::PatId(record_pat) => match source_map.pat_syntax(record_pat) {
                        Ok(s) => s,
                        Err(_) => return None,
                    },
                };
                let file = record.file_id;
                let node = db.to_node(record);
                proof {
                    lemma_find_node_member(db.nodes@, record.file_id, record.value);
                }
                if node.ptr.kind == SyntaxKind::RecordExpr {
                    if node.child_of_kind(SyntaxKind::RecordExprFieldList).is_some() {
                        let field_list_parent_path = node.child_of_kind(SyntaxKind::Path);
                        return Some(
                            AnyDiagnostic::from(
                                MissingFields {
                                    file,
                                    field_list_parent: node.ptr,
                                    field_list_parent_path,
                                    missed_fields,
                                },
                            ),
                        );
                    }
                } else if node.ptr.kind == SyntaxKind::RecordPat {
                    if node.child_of_kind(SyntaxKind::RecordPatFieldList).is_some() {
                        let field_list_parent_path = node.child_of_kind(SyntaxKind::Path);
                        return Some(
                            AnyDiagnostic::from(
                                MissingFields {
                                    file,
                                    field_list_parent: node.ptr,
                                    field_list_parent_path,
                                    missed_fields,
                                },
                            ),
                        );
                    }
                }
            },
            BodyValidationDiagnostic::ReplaceFilterMapNextWithFindMap { method_call_expr } => {
                if let Ok(next_source_ptr) = source_map.expr_syntax(method_call_expr) {
                    if !next_source_ptr.value.kind.is_expr() {
                        return None;
                    }
                    return Some(
                        AnyDiagnostic::from(
                            ReplaceFilterMapNextWithFindMap {
                                file: next_source_ptr.file_id,
                                next_expr: next_source_ptr.value,
                            },
                        ),
                    );
                }
            },
            BodyValidationDiagnostic::MissingMatchArms { match_expr, uncovered_patterns } => {
                match source_map.expr_syntax(match_expr) {
                    Ok(source_ptr) => {
                        let node = db.to_node(source_ptr);
                        if node.ptr.kind == SyntaxKind::MatchExpr {
                            match node.expr_child() {
                                Some(scrut_expr) => {
                                    if node.child_of_kind(SyntaxKind::MatchArmList).is_some() {
                                        return Some(
                                            AnyDiagnostic::from(
                                                MissingMatchArms {
                                                    scrutinee_expr: InFile::new(
                                                        source_ptr.file_id,
                                                        scrut_expr,
                                                    ),
                                                    uncovered_patterns,
                                                },
                                            ),
                                        );
                                    }
                                },
                                None => {},
                            }
                        }
                    },
                    Err(_) => {},
                }
            },
            BodyValidationDiagnostic::NonExhaustiveLet { pat, uncovered_patterns } => {
                match source_map.pat_syntax(pat) {
                    Ok(source_ptr) => {
                        if source_ptr.value.kind.is_pat() {
                            return Some(
                                AnyDiagnostic::from(
                                    NonExhaustiveLet { pat: source_ptr, uncovered_patterns },
                                ),
                            );
                        }
                    },
                    Err(_) => {},
                }
            },
            BodyValidationDiagnostic::RemoveTrailingReturn { return_expr } => {
                if let Ok(source_ptr) = source_map.expr_syntax(return_expr) {
                    // desugared returns, such as those of `?`, have other syntax
                    if source_ptr.value.kind == SyntaxKind::ReturnExpr {
                        return Some(
                            AnyDiagnostic::from(RemoveTrailingReturn { return_expr: source_ptr }),
                        );
                    }
                }
            },
            BodyValidationDiagnostic::RemoveUnnecessaryElse { if_expr } => {
                if let Ok(source_ptr) = source_map.expr_syntax(if_expr) {
                    if source_ptr.value.kind == SyntaxKind::IfExpr {
                        return Some(AnyDiagnostic::from(RemoveUnnecessaryElse { if_expr: source_ptr }));
                    }
                }
            },
        }
        None
    }
}

} // verus!
