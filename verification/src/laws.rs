//! Properties that hold of diagnostics lowering as a whole.
use vstd::prelude::*;

use crate::db::HirDatabase;
use crate::diagnostics::AnyDiagnostic;
use crate::findings::{
    BodyValidationDiagnostic, InferenceDiagnostic, InferenceTyDiagnosticSource, PathLoweringDiagnostic,
    TyLoweringDiagnostic, TyLoweringDiagnosticKind,
};
use crate::ids::{DefWithBodyId, ExprOrPatId};
use crate::lower_body::is_body_validation_result;
use crate::lower_inference::{inference_diagnostic_lowerable, spec_inference_diagnostic, ty_source_map};
use crate::lower_path::{
    lemma_path_diagnostic_points_at_arguments, path_reported_as, spec_ty_diagnostic, spec_ty_source,
};
use crate::source_map::{BodySourceMap, TypesSourceMap};
use crate::syntax::{first_child_of_kind, first_expr_child, InFile, SyntaxKind, SyntaxNodePtr};

verus! {

/// The path lowering problem inside a type lowering problem.
pub open spec fn path_problem_of(diag: TyLoweringDiagnostic) -> PathLoweringDiagnostic {
    match diag.kind {
        TyLoweringDiagnosticKind::PathDiagnostic(pd) => pd,
    }
}

/// `a` is the diagnostic that an inference finding is reported as: the one of
/// the same name, or for type and path problems the one their path problem is
/// reported as.
pub open spec fn inference_reported_as(d: InferenceDiagnostic, a: AnyDiagnostic) -> bool {
    match d {
        InferenceDiagnostic::NoSuchField { .. } => a is NoSuchField,
        InferenceDiagnostic::PrivateField { .. } => a is PrivateField,
        InferenceDiagnostic::PrivateAssocItem { .. } => a is PrivateAssocItem,
        InferenceDiagnostic::UnresolvedField { .. } => a is UnresolvedField,
        InferenceDiagnostic::UnresolvedMethodCall { .. } => a is UnresolvedMethodCall,
        InferenceDiagnostic::UnresolvedAssocItem { .. } => a is UnresolvedAssocItem,
        InferenceDiagnostic::UnresolvedIdent { .. } => a is UnresolvedIdent,
        InferenceDiagnostic::BreakOutsideOfLoop { .. } => a is BreakOutsideOfLoop,
        InferenceDiagnostic::MismatchedArgCount { .. } => a is MismatchedArgCount,
        InferenceDiagnostic::MismatchedTupleStructPatArgCount { .. } => {
            a is MismatchedTupleStructPatArgCount
        },
        InferenceDiagnostic::ExpectedFunction { .. } => a is ExpectedFunction,
        InferenceDiagnostic::TypedHole { .. } => a is TypedHole,
        InferenceDiagnostic::CastToUnsized { .. } => a is CastToUnsized,
        InferenceDiagnostic::InvalidCast { .. } => a is InvalidCast,
        InferenceDiagnostic::TyDiagnostic { diag, .. } => path_reported_as(path_problem_of(diag), a),
        InferenceDiagnostic::PathDiagnostic { diag, .. } => path_reported_as(diag, a),
    }
}

/// `a` is the diagnostic that a body validation finding is reported as: the
/// one of the same name, missing record fields as `MissingFields`.
pub open spec fn body_validation_reported_as(d: BodyValidationDiagnostic, a: AnyDiagnostic) -> bool {
    match d {
        BodyValidationDiagnostic::RecordMissingFields { .. } => a is MissingFields,
        BodyValidationDiagnostic::ReplaceFilterMapNextWithFindMap { .. } => {
            a is ReplaceFilterMapNextWithFindMap
        },
        BodyValidationDiagnostic::MissingMatchArms { .. } => a is MissingMatchArms,
        BodyValidationDiagnostic::RemoveTrailingReturn { .. } => a is RemoveTrailingReturn,
        BodyValidationDiagnostic::RemoveUnnecessaryElse { .. } => a is RemoveUnnecessaryElse,
        BodyValidationDiagnostic::NonExhaustiveLet { .. } => a is NonExhaustiveLet,
    }
}

/// The expression or pattern an inference finding is anchored at, if any
/// (type lowering problems are anchored at a type).
pub open spec fn inference_anchor(d: InferenceDiagnostic) -> Option<ExprOrPatId> {
    match d {
        InferenceDiagnostic::NoSuchField { field, .. } => Some(field),
        InferenceDiagnostic::PrivateField { expr, .. } => Some(ExprOrPatId::ExprId(expr)),
        InferenceDiagnostic::PrivateAssocItem { id, .. } => Some(id),
        InferenceDiagnostic::UnresolvedField { expr, .. } => Some(ExprOrPatId::ExprId(expr)),
        InferenceDiagnostic::UnresolvedMethodCall { expr, .. } => Some(ExprOrPatId::ExprId(expr)),
        InferenceDiagnostic::UnresolvedAssocItem { id } => Some(id),
        InferenceDiagnostic::UnresolvedIdent { id } => Some(id),
        InferenceDiagnostic::BreakOutsideOfLoop { expr, .. } => Some(ExprOrPatId::ExprId(expr)),
        InferenceDiagnostic::MismatchedArgCount { call_expr, .. } => Some(ExprOrPatId::ExprId(call_expr)),
        InferenceDiagnostic::MismatchedTupleStructPatArgCount { pat, .. } => Some(pat),
        InferenceDiagnostic::ExpectedFunction { call_expr, .. } => Some(ExprOrPatId::ExprId(call_expr)),
        InferenceDiagnostic::TypedHole { expr, .. } => Some(ExprOrPatId::ExprId(expr)),
        InferenceDiagnostic::CastToUnsized { expr, .. } => Some(ExprOrPatId::ExprId(expr)),
        InferenceDiagnostic::InvalidCast { expr, .. } => Some(ExprOrPatId::ExprId(expr)),
        InferenceDiagnostic::TyDiagnostic { .. } => None,
        InferenceDiagnostic::PathDiagnostic { node, .. } => Some(node),
    }
}

/// The expression or pattern a body validation finding is anchored at.
pub open spec fn body_validation_anchor(d: BodyValidationDiagnostic) -> ExprOrPatId {
    match d {
        BodyValidationDiagnostic::RecordMissingFields { record, .. } => record,
        BodyValidationDiagnostic::ReplaceFilterMapNextWithFindMap { method_call_expr } => {
            ExprOrPatId::ExprId(method_call_expr)
        },
        BodyValidationDiagnostic::MissingMatchArms { match_expr, .. } => ExprOrPatId::ExprId(match_expr),
        BodyValidationDiagnostic::RemoveTrailingReturn { return_expr } => ExprOrPatId::ExprId(return_expr),
        BodyValidationDiagnostic::RemoveUnnecessaryElse { if_expr } => ExprOrPatId::ExprId(if_expr),
        BodyValidationDiagnostic::NonExhaustiveLet { pat, .. } => ExprOrPatId::PatId(pat),
    }
}

/// A type lowering problem is reported, if at all, as its path problem is.
pub proof fn lemma_ty_diagnostic_kind(db: &HirDatabase, diag: TyLoweringDiagnostic, source_map: &TypesSourceMap)
    ensures
        spec_ty_diagnostic(db, diag, source_map) matches Some(a) ==> path_reported_as(
            path_problem_of(diag),
            a,
        ),
{
}

/// The syntax a diagnostic produced by inference lowering points at: the
/// expression, pattern, call, record field, format string or argument list.
pub open spec fn inference_report_site(a: AnyDiagnostic) -> Option<InFile<SyntaxNodePtr>> {
    match a {
        AnyDiagnostic::NoSuchField(x) => Some(x.field),
        AnyDiagnostic::MismatchedArgCount(x) => Some(x.call_expr),
        AnyDiagnostic::PrivateField(x) => Some(x.expr),
        AnyDiagnostic::PrivateAssocItem(x) => Some(x.expr_or_pat),
        AnyDiagnostic::ExpectedFunction(x) => Some(x.call),
        AnyDiagnostic::UnresolvedField(x) => Some(x.expr),
        AnyDiagnostic::UnresolvedMethodCall(x) => Some(x.expr),
        AnyDiagnostic::UnresolvedAssocItem(x) => Some(x.expr_or_pat),
        AnyDiagnostic::UnresolvedIdent(x) => Some(InFile { file_id: x.node.file_id, value: x.node.value.0 }),
        AnyDiagnostic::BreakOutsideOfLoop(x) => Some(x.expr),
        AnyDiagnostic::TypedHole(x) => Some(x.expr),
        AnyDiagnostic::MismatchedTupleStructPatArgCount(x) => Some(x.expr_or_pat),
        AnyDiagnostic::CastToUnsized(x) => Some(x.expr),
        AnyDiagnostic::InvalidCast(x) => Some(x.expr),
        AnyDiagnostic::GenericArgsProhibited(x) => Some(x.args),
        AnyDiagnostic::ParenthesizedGenericArgsWithoutFnTrait(x) => Some(x.args),
        _ => None,
    }
}

/// A reported inference diagnostic points at syntax that `db` has, when the
/// source map's expressions and patterns point into `db`; the exceptions are
/// a missing field, whose record field syntax comes from elsewhere, and an
/// unresolved identifier reported at the format string that captured it.
pub proof fn lemma_inference_points_into_db(
    db: &HirDatabase,
    def: DefWithBodyId,
    d: InferenceDiagnostic,
    outer_types_source_map: &TypesSourceMap,
    source_map: &BodySourceMap,
)
    requires
        db.wf(),
        source_map.agrees_with(db),
        inference_diagnostic_lowerable(db, d, outer_types_source_map, source_map),
        !(d is NoSuchField),
        !(d matches InferenceDiagnostic::UnresolvedIdent { id: ExprOrPatId::ExprId(e) }
            && source_map.spec_expr_syntax(e) is Err),
    ensures
        spec_inference_diagnostic(db, def, d, outer_types_source_map, source_map) matches Some(a)
            ==> inference_report_site(a) matches Some(site) && db.resolves(site),
{
    match inference_anchor(d) {
        Some(ExprOrPatId::ExprId(e)) => {
            if source_map.spec_expr_syntax(e) is Ok {
                assert(source_map.expr_map_back@[e.0 as int] is Some);
            }
        },
        Some(ExprOrPatId::PatId(p)) => {
            if source_map.spec_pat_syntax(p) is Ok {
                assert(source_map.pat_map_back@[p.0 as int] is Some);
            }
        },
        None => {},
    }
    match d {
        InferenceDiagnostic::PathDiagnostic { node, diag } => {
            if let Ok(src) = source_map.spec_expr_or_pat_syntax(node) {
                let children = db.node_at(src).children@;
                if let Some(path) = first_child_of_kind(children, SyntaxKind::Path) {
                    db.lemma_child_resolves(src, SyntaxKind::Path);
                    lemma_path_diagnostic_points_at_arguments(
                        db,
                        diag,
                        InFile { file_id: src.file_id, value: path },
                    );
                }
            }
        },
        InferenceDiagnostic::TyDiagnostic { source, diag } => {
            let map = ty_source_map(source, outer_types_source_map, source_map);
            if let Ok(src) = spec_ty_source(diag, map) {
                let children = db.node_at(src).children@;
                if let Some(path) = first_child_of_kind(children, SyntaxKind::Path) {
                    db.lemma_child_resolves(src, SyntaxKind::Path);
                    lemma_path_diagnostic_points_at_arguments(
                        db,
                        path_problem_of(diag),
                        InFile { file_id: src.file_id, value: path },
                    );
                }
            }
        },
        _ => {},
    }
}

/// The types map of the signature matters only to type problems of the
/// signature: for every other inference finding, lowering against one
/// signature types map or another asks the same and gives the same.
pub proof fn lemma_inference_ignores_signature_types(
    db: &HirDatabase,
    def: DefWithBodyId,
    d: InferenceDiagnostic,
    signature_types: &TypesSourceMap,
    other_signature_types: &TypesSourceMap,
    source_map: &BodySourceMap,
)
    requires
        !(d matches InferenceDiagnostic::TyDiagnostic { source: InferenceTyDiagnosticSource::Signature, .. }),
    ensures
        inference_diagnostic_lowerable(db, d, signature_types, source_map)
            == inference_diagnostic_lowerable(db, d, other_signature_types, source_map),
        spec_inference_diagnostic(db, def, d, signature_types, source_map)
            == spec_inference_diagnostic(db, def, d, other_signature_types, source_map),
{
}

/// Every inference finding is reported, if at all, as the diagnostic of the
/// same name (type and path problems as their path problem is).
pub proof fn lemma_inference_diagnostic_kind(
    db: &HirDatabase,
    def: DefWithBodyId,
    d: InferenceDiagnostic,
    outer_types_source_map: &TypesSourceMap,
    source_map: &BodySourceMap,
)
    ensures
        spec_inference_diagnostic(db, def, d, outer_types_source_map, source_map) matches Some(a)
            ==> inference_reported_as(d, a),
{
    if let InferenceDiagnostic::TyDiagnostic { source, diag } = d {
        lemma_ty_diagnostic_kind(db, diag, ty_source_map(source, outer_types_source_map, source_map));
    }
}

/// An inference finding whose expression or pattern has no syntax of its own
/// (it came from desugaring) is not reported; the exceptions are a missing
/// field, reported at its record field, and an unresolved identifier that a
/// format string captured, reported at the format string.
pub proof fn lemma_inference_synthetic_not_reported(
    db: &HirDatabase,
    def: DefWithBodyId,
    d: InferenceDiagnostic,
    outer_types_source_map: &TypesSourceMap,
    source_map: &BodySourceMap,
)
    requires
        inference_anchor(d) matches Some(anchor) && source_map.spec_expr_or_pat_syntax(anchor) is Err,
        !(d is NoSuchField),
        d matches InferenceDiagnostic::UnresolvedIdent { id: ExprOrPatId::ExprId(e) }
            ==> source_map.spec_format_args_implicit_capture(e) is None,
    ensures
        spec_inference_diagnostic(db, def, d, outer_types_source_map, source_map) is None,
{
}

/// Every body validation finding is reported, if at all, as the diagnostic of
/// the same name.
pub proof fn lemma_body_validation_kind(
    db: &HirDatabase,
    d: BodyValidationDiagnostic,
    source_map: &BodySourceMap,
    res: Option<AnyDiagnostic>,
)
    requires
        is_body_validation_result(db, d, source_map, res),
    ensures
        res matches Some(a) ==> body_validation_reported_as(d, a),
{
}

/// A reported body validation diagnostic points at syntax that `db` has: the
/// record and its path, the method chain, the scrutinee, the pattern, the
/// `return` or the `if`; the record's path lies within the record, and the
/// scrutinee within the match expression, in its file.
pub proof fn lemma_body_validation_points_into_db(
    db: &HirDatabase,
    d: BodyValidationDiagnostic,
    source_map: &BodySourceMap,
    res: Option<AnyDiagnostic>,
)
    requires
        db.wf(),
        source_map.agrees_with(db),
        is_body_validation_result(db, d, source_map, res),
    ensures
        res matches Some(a) ==> match a {
            AnyDiagnostic::MissingFields(m) => {
                &&& db.resolves(InFile { file_id: m.file, value: m.field_list_parent })
                &&& m.field_list_parent_path matches Some(p) ==> db.resolves(
                    InFile { file_id: m.file, value: p },
                )
            },
            AnyDiagnostic::ReplaceFilterMapNextWithFindMap(r) => db.resolves(
                InFile { file_id: r.file, value: r.next_expr },
            ),
            AnyDiagnostic::MissingMatchArms(m) => db.resolves(m.scrutinee_expr),
            AnyDiagnostic::NonExhaustiveLet(n) => db.resolves(n.pat),
            AnyDiagnostic::RemoveTrailingReturn(r) => db.resolves(r.return_expr),
            AnyDiagnostic::RemoveUnnecessaryElse(r) => db.resolves(r.if_expr),
            _ => true,
        },
        res matches Some(AnyDiagnostic::MissingFields(m)) ==> (m.field_list_parent_path matches Some(
            p,
        ) ==> m.field_list_parent.range.covers(p.range)),
        d matches BodyValidationDiagnostic::MissingMatchArms { match_expr, .. } ==> (res matches Some(
            AnyDiagnostic::MissingMatchArms(m),
        ) ==> source_map.spec_expr_syntax(match_expr) matches Ok(s) && m.scrutinee_expr.file_id
            == s.file_id && s.value.range.covers(m.scrutinee_expr.value.range)),
{
    let src = source_map.spec_expr_or_pat_syntax(body_validation_anchor(d));
    if let Ok(s) = src {
        match body_validation_anchor(d) {
            ExprOrPatId::ExprId(e) => {
                assert(source_map.expr_map_back@[e.0 as int] is Some);
            },
            ExprOrPatId::PatId(p) => {
                assert(source_map.pat_map_back@[p.0 as int] is Some);
            },
        }
        assert(db.resolves(s));
        let children = db.node_at(s).children@;
        if first_child_of_kind(children, SyntaxKind::Path) is Some {
            db.lemma_child_resolves(s, SyntaxKind::Path);
        }
        if first_expr_child(children) is Some {
            db.lemma_expr_child_resolves(s);
        }
    }
}

/// A body validation finding whose expression or pattern has no syntax of its
/// own (it came from desugaring) is not reported.
pub proof fn lemma_body_validation_synthetic_not_reported(
    db: &HirDatabase,
    d: BodyValidationDiagnostic,
    source_map: &BodySourceMap,
    res: Option<AnyDiagnostic>,
)
    requires
        is_body_validation_result(db, d, source_map, res),
        source_map.spec_expr_or_pat_syntax(body_validation_anchor(d)) is Err,
    ensures
        res is None,
{
}

} // verus!
