//! What a reported diagnostic carries: where it is reported, and that the data
//! of the finding reaches it unchanged.
use vstd::prelude::*;

use crate::db::{find_node, HirDatabase};
use crate::diagnostics::AnyDiagnostic;
use crate::findings::{
    BodyValidationDiagnostic, InferenceDiagnostic, InferenceTyDiagnosticSource,
    PathLoweringDiagnostic,
};
use crate::ids::{assoc_item_of, DefWithBodyId, ExprId, ExprOrPatId, Function, Type, VariantId};
use crate::laws::{inference_anchor, inference_report_site, path_problem_of};
use crate::lower_body::{body_validation_lowerable, is_body_validation_result};
use crate::lower_inference::spec_inference_diagnostic;
use crate::lower_path::{path_reported_as, spec_path_diagnostic, spec_ty_diagnostic, spec_ty_source};
use crate::source_map::{BodySourceMap, TypesSourceMap};
use crate::syntax::{first_child_of_kind, first_expr_child, InFile, SyntaxKind, SyntaxNodePtr};

verus! {

/// `a` carries the data of the inference finding `d` of the body of `def`
/// unchanged: flags, counts, names, variants, the cast error, and every type
/// taken in the environment of `def`.
pub open spec fn carries_inference_data(d: InferenceDiagnostic, def: DefWithBodyId, a: AnyDiagnostic) -> bool {
    match d {
        InferenceDiagnostic::NoSuchField { private, variant, .. } => {
            a matches AnyDiagnostic::NoSuchField(x) && x.private == private && x.variant == variant
        },
        InferenceDiagnostic::PrivateField { field, .. } => {
            a matches AnyDiagnostic::PrivateField(x) && x.field.parent == field.parent && x.field.id
                == field.local_id
        },
        InferenceDiagnostic::PrivateAssocItem { item, .. } => {
            a matches AnyDiagnostic::PrivateAssocItem(x) && x.item == assoc_item_of(item)
        },
        InferenceDiagnostic::UnresolvedField { receiver, name, method_with_same_name_exists, .. } => {
            &&& a matches AnyDiagnostic::UnresolvedField(x)
            &&& x.receiver == (Type { owner: def, ty: receiver })
            &&& x.name == name
            &&& x.method_with_same_name_exists == method_with_same_name_exists
        },
        InferenceDiagnostic::UnresolvedMethodCall {
            receiver,
            name,
            field_with_same_name,
            assoc_func_with_same_name,
            ..
        } => {
            &&& a matches AnyDiagnostic::UnresolvedMethodCall(x)
            &&& x.receiver == (Type { owner: def, ty: receiver })
            &&& x.name == name
            &&& (x.field_with_same_name is Some <==> field_with_same_name is Some)
            &&& field_with_same_name matches Some(ty) ==> x.field_with_same_name == Some(
                Type { owner: def, ty },
            )
            &&& (x.assoc_func_with_same_name is Some <==> assoc_func_with_same_name is Some)
            &&& assoc_func_with_same_name matches Some(id) ==> x.assoc_func_with_same_name == Some(
                Function { id },
            )
        },
        InferenceDiagnostic::UnresolvedAssocItem { .. } => a is UnresolvedAssocItem,
        InferenceDiagnostic::UnresolvedIdent { .. } => a is UnresolvedIdent,
        InferenceDiagnostic::BreakOutsideOfLoop { is_break, bad_value_break, .. } => {
            a matches AnyDiagnostic::BreakOutsideOfLoop(x) && x.is_break == is_break
                && x.bad_value_break == bad_value_break
        },
        InferenceDiagnostic::MismatchedArgCount { expected, found, .. } => {
            a matches AnyDiagnostic::MismatchedArgCount(x) && x.expected == expected && x.found == found
        },
        InferenceDiagnostic::MismatchedTupleStructPatArgCount { expected, found, .. } => {
            a matches AnyDiagnostic::MismatchedTupleStructPatArgCount(x) && x.expected == expected
                && x.found == found
        },
        InferenceDiagnostic::ExpectedFunction { found, .. } => {
            a matches AnyDiagnostic::ExpectedFunction(x) && x.found == (Type { owner: def, ty: found })
        },
        InferenceDiagnostic::TypedHole { expected, .. } => {
            a matches AnyDiagnostic::TypedHole(x) && x.expected == (Type { owner: def, ty: expected })
        },
        InferenceDiagnostic::CastToUnsized { cast_ty, .. } => {
            a matches AnyDiagnostic::CastToUnsized(x) && x.cast_ty == (Type { owner: def, ty: cast_ty })
        },
        InferenceDiagnostic::InvalidCast { error, expr_ty, cast_ty, .. } => {
            &&& a matches AnyDiagnostic::InvalidCast(x)
            &&& x.error == error
            &&& x.expr_ty == (Type { owner: def, ty: expr_ty })
            &&& x.cast_ty == (Type { owner: def, ty: cast_ty })
        },
        InferenceDiagnostic::TyDiagnostic { diag, .. } => path_reported_as(path_problem_of(diag), a),
        InferenceDiagnostic::PathDiagnostic { diag, .. } => path_reported_as(diag, a),
    }
}

/// A reported inference finding carries its data unchanged into the
/// diagnostic of its name.
pub proof fn lemma_inference_carries_finding_data(
    db: &HirDatabase,
    def: DefWithBodyId,
    d: InferenceDiagnostic,
    outer_types_source_map: &TypesSourceMap,
    source_map: &BodySourceMap,
)
    ensures
        spec_inference_diagnostic(db, def, d, outer_types_source_map, source_map) matches Some(a)
            ==> carries_inference_data(d, def, a),
{
    crate::laws::lemma_inference_diagnostic_kind(db, def, d, outer_types_source_map, source_map);
}

/// An inference finding anchored at expression or pattern syntax is reported,
/// at that syntax; type and path problems, which also depend on the shape of
/// the syntax, and missing fields, reported at their record field, are the
/// exceptions.
pub proof fn lemma_inference_reported_at_anchor(
    db: &HirDatabase,
    def: DefWithBodyId,
    d: InferenceDiagnostic,
    outer_types_source_map: &TypesSourceMap,
    source_map: &BodySourceMap,
)
    requires
        !(d is TyDiagnostic),
        !(d is PathDiagnostic),
        !(d is NoSuchField),
        inference_anchor(d) matches Some(anchor) && source_map.spec_expr_or_pat_syntax(anchor) matches Ok(
            s,
        ) && s.value.kind.is_expr_or_pat_kind(),
    ensures
        ({
            let s = source_map.spec_expr_or_pat_syntax(inference_anchor(d).unwrap()).unwrap();
            spec_inference_diagnostic(db, def, d, outer_types_source_map, source_map) matches Some(a)
                && inference_report_site(a) == Some(s) && carries_inference_data(d, def, a)
                && (a matches AnyDiagnostic::UnresolvedIdent(x) ==> x.node.value.1 is None)
        }),
{
}

/// A missing field is always reported, at the record field it was written
/// in, with its privacy and variant.
pub proof fn lemma_no_such_field_reported_at_field(
    db: &HirDatabase,
    def: DefWithBodyId,
    field: ExprOrPatId,
    private: bool,
    variant: VariantId,
    outer_types_source_map: &TypesSourceMap,
    source_map: &BodySourceMap,
)
    ensures
        spec_inference_diagnostic(
            db,
            def,
            InferenceDiagnostic::NoSuchField { field, private, variant },
            outer_types_source_map,
            source_map,
        ) matches Some(AnyDiagnostic::NoSuchField(x)) && x.private == private && x.variant == variant
            && x.field == match field {
            ExprOrPatId::ExprId(e) => source_map.spec_field_syntax(e),
            ExprOrPatId::PatId(p) => source_map.spec_pat_field_syntax(p),
        },
{
}

/// Missing record fields are reported at every record expression and every
/// record pattern that has a field list of its own: at that record, with its
/// path, naming the missing fields of the variant in the order given.
pub proof fn lemma_missing_fields_reported_at_record(
    db: &HirDatabase,
    d: BodyValidationDiagnostic,
    source_map: &BodySourceMap,
    res: Option<AnyDiagnostic>,
)
    requires
        is_body_validation_result(db, d, source_map, res),
        d is RecordMissingFields,
        source_map.spec_expr_or_pat_syntax(d->record) matches Ok(s) && ({
            let node = db.node_at(s);
            ||| node.ptr.kind == SyntaxKind::RecordExpr && first_child_of_kind(
                node.children@,
                SyntaxKind::RecordExprFieldList,
            ) is Some
            ||| node.ptr.kind == SyntaxKind::RecordPat && first_child_of_kind(
                node.children@,
                SyntaxKind::RecordPatFieldList,
            ) is Some
        }),
    ensures
        ({
            let s = source_map.spec_expr_or_pat_syntax(d->record).unwrap();
            let missed = d->missed_fields@;
            &&& res matches Some(AnyDiagnostic::MissingFields(m))
            &&& m.file == s.file_id
            &&& m.field_list_parent == s.value
            &&& m.field_list_parent_path == first_child_of_kind(db.node_at(s).children@, SyntaxKind::Path)
            &&& m.missed_fields@.len() == missed.len()
            &&& forall|k: int|
                0 <= k < missed.len() ==> m.missed_fields@[k] == db.field_names_of(d->variant)[(
                #[trigger] missed[k]).0 as int]
        }),
{
}

/// A body validation finding at syntax of the expected shape is reported
/// there, carrying the uncovered patterns unchanged: a non-exhaustive `let` at
/// pattern syntax, a `filter_map(..).next()` chain at expression syntax, a
/// trailing return at `return` syntax, an unnecessary `else` at `if` syntax,
/// and missing match arms at the scrutinee of a match expression with a
/// scrutinee and an arm list.
pub proof fn lemma_body_validation_reported_at_syntax(
    db: &HirDatabase,
    d: BodyValidationDiagnostic,
    source_map: &BodySourceMap,
    res: Option<AnyDiagnostic>,
)
    requires
        is_body_validation_result(db, d, source_map, res),
    ensures
        d matches BodyValidationDiagnostic::NonExhaustiveLet { pat, uncovered_patterns } ==> (
        source_map.spec_pat_syntax(pat) matches Ok(s) ==> (s.value.kind.is_pat_kind() ==> (
        res matches Some(AnyDiagnostic::NonExhaustiveLet(x)) && x.pat == s && x.uncovered_patterns
            == uncovered_patterns))),
        d matches BodyValidationDiagnostic::ReplaceFilterMapNextWithFindMap { method_call_expr } ==> (
        source_map.spec_expr_syntax(method_call_expr) matches Ok(s) ==> (s.value.kind.is_expr_kind() ==> (
        res matches Some(AnyDiagnostic::ReplaceFilterMapNextWithFindMap(x)) && x.file == s.file_id
            && x.next_expr == s.value))),
        d matches BodyValidationDiagnostic::RemoveTrailingReturn { return_expr } ==> (
        source_map.spec_expr_syntax(return_expr) matches Ok(s) ==> (s.value.kind == SyntaxKind::ReturnExpr
            ==> (res matches Some(AnyDiagnostic::RemoveTrailingReturn(x)) && x.return_expr == s))),
        d matches BodyValidationDiagnostic::RemoveUnnecessaryElse { if_expr } ==> (
        source_map.spec_expr_syntax(if_expr) matches Ok(s) ==> (s.value.kind == SyntaxKind::IfExpr ==> (
        res matches Some(AnyDiagnostic::RemoveUnnecessaryElse(x)) && x.if_expr == s))),
        d matches BodyValidationDiagnostic::MissingMatchArms { match_expr, uncovered_patterns } ==> (
        source_map.spec_expr_syntax(match_expr) matches Ok(s) ==> (first_expr_child(
            db.node_at(s).children@,
        ) matches Some(scrut) ==> ((db.node_at(s).ptr.kind == SyntaxKind::MatchExpr
            && first_child_of_kind(db.node_at(s).children@, SyntaxKind::MatchArmList) is Some) ==> (
        res matches Some(AnyDiagnostic::MissingMatchArms(x)) && x.scrutinee_expr.file_id == s.file_id
            && x.scrutinee_expr.value == scrut && x.uncovered_patterns == uncovered_patterns)))),
{
}

/// An unresolved identifier without syntax of its own that a format string
/// captured is reported at that format string, with the range of the capture.
pub proof fn lemma_unresolved_ident_reported_at_capture(
    db: &HirDatabase,
    def: DefWithBodyId,
    e: ExprId,
    outer_types_source_map: &TypesSourceMap,
    source_map: &BodySourceMap,
)
    requires
        source_map.spec_expr_syntax(e) is Err,
        source_map.spec_format_args_implicit_capture(e) is Some,
    ensures
        ({
            let c = source_map.spec_format_args_implicit_capture(e).unwrap();
            spec_inference_diagnostic(
                db,
                def,
                InferenceDiagnostic::UnresolvedIdent { id: ExprOrPatId::ExprId(e) },
                outer_types_source_map,
                source_map,
            ) matches Some(AnyDiagnostic::UnresolvedIdent(x)) && x.node.file_id == c.file_id
                && x.node.value.0 == c.value.0 && x.node.value.1 == Some(c.value.1)
        }),
{
}

/// A path problem at the segment `segment` of a path is reported at the
/// segment's generic argument list when it has one; when generic arguments
/// are prohibited and it has none, at its parenthesized argument list; when
/// parenthesized arguments are not allowed, at its parenthesized argument
/// list. The reason for prohibiting generic arguments is kept.
pub proof fn lemma_path_diagnostic_picks_argument_list(
    db: &HirDatabase,
    diag: PathLoweringDiagnostic,
    path: InFile<SyntaxNodePtr>,
)
    ensures
        ({
            let segment = match diag {
                PathLoweringDiagnostic::GenericArgsProhibited { segment, .. } => segment,
                PathLoweringDiagnostic::ParenthesizedGenericArgsWithoutFnTrait { segment } => segment,
            };
            let lowered = db.node_at(path).hir_segments@;
            (segment < lowered.len() && lowered[segment as int] is Some) ==> {
                let seg = lowered[segment as int].unwrap();
                let children = db.node_at(InFile { file_id: path.file_id, value: seg }).children@;
                let generic = first_child_of_kind(children, SyntaxKind::GenericArgList);
                let parenthesized = first_child_of_kind(children, SyntaxKind::ParenthesizedArgList);
                &&& diag matches PathLoweringDiagnostic::GenericArgsProhibited { reason, .. } ==> {
                    &&& generic matches Some(g) ==> (spec_path_diagnostic(db, diag, path) matches Some(
                        AnyDiagnostic::GenericArgsProhibited(x),
                    ) && x.args == InFile { file_id: path.file_id, value: g } && x.reason == reason)
                    &&& (generic is None && parenthesized is Some) ==> (spec_path_diagnostic(
                        db,
                        diag,
                        path,
                    ) matches Some(AnyDiagnostic::GenericArgsProhibited(x)) && x.args == InFile {
                        file_id: path.file_id,
                        value: parenthesized.unwrap(),
                    } && x.reason == reason)
                }
                &&& diag is ParenthesizedGenericArgsWithoutFnTrait ==> (parenthesized matches Some(p)
                    ==> (spec_path_diagnostic(db, diag, path) matches Some(
                    AnyDiagnostic::ParenthesizedGenericArgsWithoutFnTrait(x),
                ) && x.args == InFile { file_id: path.file_id, value: p }))
            }
        }),
{
}

/// A type problem at a path type is reported exactly as the path problem of
/// its path; at any other type, or at a path type without path, it is not
/// reported. Inference reports a type problem of the body against the body's
/// types and one of the signature against the signature's types, and a path
/// problem at a record, tuple-struct or path expression or pattern as the path
/// problem of its path.
pub proof fn lemma_type_and_path_problems_follow_their_path(
    db: &HirDatabase,
    def: DefWithBodyId,
    d: InferenceDiagnostic,
    outer_types_source_map: &TypesSourceMap,
    source_map: &BodySourceMap,
)
    ensures
        d matches InferenceDiagnostic::TyDiagnostic { source, diag } ==> spec_inference_diagnostic(
            db,
            def,
            d,
            outer_types_source_map,
            source_map,
        ) == spec_ty_diagnostic(
            db,
            diag,
            match source {
                InferenceTyDiagnosticSource::Body => &source_map.types,
                InferenceTyDiagnosticSource::Signature => outer_types_source_map,
            },
        ),
        d matches InferenceDiagnostic::TyDiagnostic { source, diag } ==> ({
            let types = match source {
                InferenceTyDiagnosticSource::Body => &source_map.types,
                InferenceTyDiagnosticSource::Signature => outer_types_source_map,
            };
            spec_ty_source(diag, types) matches Ok(src) ==> {
                let node = db.node_at(src);
                &&& node.ptr.kind != SyntaxKind::PathType ==> spec_ty_diagnostic(db, diag, types) is None
                &&& node.ptr.kind == SyntaxKind::PathType ==> match first_child_of_kind(
                    node.children@,
                    SyntaxKind::Path,
                ) {
                    Some(p) => spec_ty_diagnostic(db, diag, types) == spec_path_diagnostic(
                        db,
                        path_problem_of(diag),
                        InFile { file_id: src.file_id, value: p },
                    ),
                    None => spec_ty_diagnostic(db, diag, types) is None,
                }
            }
        }),
        d matches InferenceDiagnostic::PathDiagnostic { node, diag } ==> (
        source_map.spec_expr_or_pat_syntax(node) matches Ok(src) ==> ({
            let n = db.node_at(src);
            let owner = n.ptr.kind == SyntaxKind::RecordExpr || n.ptr.kind == SyntaxKind::RecordPat
                || n.ptr.kind == SyntaxKind::TupleStructPat || n.ptr.kind == SyntaxKind::PathExpr
                || n.ptr.kind == SyntaxKind::PathPat;
            &&& !owner ==> spec_inference_diagnostic(db, def, d, outer_types_source_map, source_map) is None
            &&& owner ==> match first_child_of_kind(n.children@, SyntaxKind::Path) {
                Some(p) => spec_inference_diagnostic(db, def, d, outer_types_source_map, source_map)
                    == spec_path_diagnostic(db, diag, InFile { file_id: src.file_id, value: p }),
                None => spec_inference_diagnostic(db, def, d, outer_types_source_map, source_map) is None,
            }
        })),
{
}

/// A body validation finding is reported only at syntax of the expected
/// shape: missing fields at a record expression or pattern, missing match arms
/// inside a match expression, a non-exhaustive `let` at a pattern, a
/// `filter_map(..).next()` chain at an expression, a trailing return at a
/// `return`, an unnecessary `else` at an `if`; always in the file of the
/// finding's syntax.
pub proof fn lemma_body_validation_only_at_expected_syntax(
    db: &HirDatabase,
    d: BodyValidationDiagnostic,
    source_map: &BodySourceMap,
    res: Option<AnyDiagnostic>,
)
    requires
        body_validation_lowerable(db, d, source_map),
        is_body_validation_result(db, d, source_map, res),
    ensures
        res matches Some(AnyDiagnostic::MissingFields(m)) ==> (m.field_list_parent.kind
            == SyntaxKind::RecordExpr || m.field_list_parent.kind == SyntaxKind::RecordPat),
        res matches Some(AnyDiagnostic::MissingMatchArms(m)) ==> (m.scrutinee_expr.value.kind.is_expr_kind()
            && (source_map.spec_expr_syntax(d->match_expr) matches Ok(s) && db.node_at(s).ptr.kind
            == SyntaxKind::MatchExpr && m.scrutinee_expr.file_id == s.file_id)),
        res matches Some(AnyDiagnostic::NonExhaustiveLet(x)) ==> x.pat.value.kind.is_pat_kind(),
        res matches Some(AnyDiagnostic::ReplaceFilterMapNextWithFindMap(x)) ==> x.next_expr.kind.is_expr_kind(),
        res matches Some(AnyDiagnostic::RemoveTrailingReturn(x)) ==> x.return_expr.value.kind
            == SyntaxKind::ReturnExpr,
        res matches Some(AnyDiagnostic::RemoveUnnecessaryElse(x)) ==> x.if_expr.value.kind
            == SyntaxKind::IfExpr,
{
    if let BodyValidationDiagnostic::MissingMatchArms { match_expr, .. } = d {
        if let Ok(s) = source_map.spec_expr_syntax(match_expr) {
            if first_expr_child(db.node_at(s).children@) is Some {
                crate::db::lemma_first_expr_child_member(db.node_at(s).children@);
            }
        }
    }
    if let BodyValidationDiagnostic::RecordMissingFields { record, .. } = d {
        if let Ok(s) = source_map.spec_expr_or_pat_syntax(record) {
            if find_node(db.nodes@, s.file_id, s.value) is Some {
                crate::db::lemma_find_node_member(db.nodes@, s.file_id, s.value);
            }
        }
    }
}

} // verus!
