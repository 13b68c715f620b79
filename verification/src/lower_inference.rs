//! Lowering of the findings of type inference into diagnostics that point at
//! the syntax they concern.
use vstd::prelude::*;

use crate::db::HirDatabase;
use crate::diagnostics::{
    AnyDiagnostic, BreakOutsideOfLoop, CastToUnsized, ExpectedFunction, InvalidCast,
    MismatchedArgCount, MismatchedTupleStructPatArgCount, NoSuchField, PrivateAssocItem,
    PrivateField, TypedHole, UnresolvedAssocItem, UnresolvedField, UnresolvedIdent,
    UnresolvedMethodCall,
};
use crate::findings::{InferenceDiagnostic, InferenceTyDiagnosticSource};
use crate::ids::{assoc_item_of, AssocItem, DefWithBodyId, ExprOrPatId, Field, Function, Type};
use crate::lower_path::{spec_path_diagnostic, spec_ty_diagnostic, ty_diagnostic_lowerable};
use crate::source_map::{BodySourceMap, SyntheticSyntax, TypesSourceMap};
use crate::syntax::{first_child_of_kind, InFile, SyntaxKind, SyntaxNodePtr, TextRange};

verus! {

/// A node of this kind may own a path that inference reports on: record
/// expressions and patterns, tuple-struct patterns, path expressions and path
/// patterns.
pub open spec fn owns_reported_path(kind: SyntaxKind) -> bool {
    kind == SyntaxKind::RecordExpr || kind == SyntaxKind::RecordPat || kind
        == SyntaxKind::TupleStructPat || kind == SyntaxKind::PathExpr || kind
        == SyntaxKind::PathPat
}

/// Whether a node of this kind may own a path that inference reports on.
pub fn is_reported_path_owner(kind: SyntaxKind) -> (b: bool)
    ensures
        b == owns_reported_path(kind),
{
    match kind {
        SyntaxKind::RecordExpr | SyntaxKind::RecordPat | SyntaxKind::TupleStructPat
        | SyntaxKind::PathExpr | SyntaxKind::PathPat => true,
        _ => false,
    }
}

/// The types source map that a type lowering problem of inference refers to.
pub open spec fn ty_source_map<'a>(
    source: InferenceTyDiagnosticSource,
    outer_types_source_map: &'a TypesSourceMap,
    source_map: &'a BodySourceMap,
) -> &'a TypesSourceMap {
    match source {
        InferenceTyDiagnosticSource::Body => &source_map.types,
        InferenceTyDiagnosticSource::Signature => outer_types_source_map,
    }
}

/// An inference finding can be lowered against these maps: the record-field
/// syntax of a missing field is recorded; a type problem can be lowered
/// against the types map it refers to; for a path problem the syntax trees of
/// `db` are well formed and the expression or pattern syntax it lies at, if
/// any, is an expression or pattern node of `db`.
pub open spec fn inference_diagnostic_lowerable(
    db: &HirDatabase,
    d: InferenceDiagnostic,
    outer_types_source_map: &TypesSourceMap,
    source_map: &BodySourceMap,
) -> bool {
    match d {
        InferenceDiagnostic::NoSuchField { field, .. } => match field {
            ExprOrPatId::ExprId(e) => source_map.has_field_syntax(e),
            ExprOrPatId::PatId(p) => source_map.has_pat_field_syntax(p),
        },
        InferenceDiagnostic::TyDiagnostic { source, diag } => ty_diagnostic_lowerable(
            db,
            diag,
            ty_source_map(source, outer_types_source_map, source_map),
        ),
        InferenceDiagnostic::PathDiagnostic { node, .. } => {
            &&& db.wf()
            &&& source_map.spec_expr_or_pat_syntax(node) matches Ok(src) ==> db.resolves(src)
                && src.value.kind.is_expr_or_pat_kind()
        },
        _ => true,
    }
}

/// The diagnostic for a finding anchored at an expression or pattern whose
/// syntax is `src`, if it has syntax.
pub open spec fn at_syntax(
    src: Result<InFile<SyntaxNodePtr>, SyntheticSyntax>,
    make: spec_fn(InFile<SyntaxNodePtr>) -> AnyDiagnostic,
) -> Option<AnyDiagnostic> {
    match src {
        Ok(s) => Some(make(s)),
        Err(_) => None,
    }
}

/// The diagnostic that an inference finding of the body of `def` lowers to.
///
/// A finding anchored at an expression or pattern that has no syntax (it came
/// from desugaring) lowers to none; otherwise the diagnostic of the same name
/// points at that syntax and carries the finding's data, types being taken in
/// the environment of `def`. Special cases: a missing field always lowers, at
/// its record field; an unresolved identifier without syntax of its own may
/// still lower at the format string that captured it; a tuple-struct pattern
/// lowers only at expression or pattern syntax; type and path problems lower
/// as `spec_ty_diagnostic` and `spec_path_diagnostic` say, a path problem at
/// the path of the record, tuple-struct or path expression or pattern it lies
/// in.
pub open spec fn spec_inference_diagnostic(
    db: &HirDatabase,
    def: DefWithBodyId,
    d: InferenceDiagnostic,
    outer_types_source_map: &TypesSourceMap,
    source_map: &BodySourceMap,
) -> Option<AnyDiagnostic> {
    match d {
        InferenceDiagnostic::NoSuchField { field, private, variant } => {
            let field = match field {
                ExprOrPatId::ExprId(e) => source_map.spec_field_syntax(e),
                ExprOrPatId::PatId(p) => source_map.spec_pat_field_syntax(p),
            };
            Some(AnyDiagnostic::NoSuchField(Box::new(NoSuchField { field, private, variant })))
        },
        InferenceDiagnostic::MismatchedArgCount { call_expr, expected, found } => at_syntax(
            source_map.spec_expr_syntax(call_expr),
            |s: InFile<SyntaxNodePtr>|
                AnyDiagnostic::MismatchedArgCount(
                    Box::new(MismatchedArgCount { call_expr: s, expected, found }),
                ),
        ),
        InferenceDiagnostic::PrivateField { expr, field } => at_syntax(
            source_map.spec_expr_syntax(expr),
            |s: InFile<SyntaxNodePtr>|
                AnyDiagnostic::PrivateField(
                    Box::new(PrivateField { expr: s, field: Field { parent: field.parent, id: field.local_id } }),
                ),
        ),
        InferenceDiagnostic::PrivateAssocItem { id, item } => at_syntax(
            source_map.spec_expr_or_pat_syntax(id),
            |s: InFile<SyntaxNodePtr>|
                AnyDiagnostic::PrivateAssocItem(
                    Box::new(PrivateAssocItem { expr_or_pat: s, item: assoc_item_of(item) }),
                ),
        ),
        InferenceDiagnostic::ExpectedFunction { call_expr, found } => at_syntax(
            source_map.spec_expr_syntax(call_expr),
            |s: InFile<SyntaxNodePtr>|
                AnyDiagnostic::ExpectedFunction(
                    Box::new(ExpectedFunction { call: s, found: Type { owner: def, ty: found } }),
                ),
        ),
        InferenceDiagnostic::UnresolvedField {
            expr,
            receiver,
            name,
            method_with_same_name_exists,
        } => at_syntax(
            source_map.spec_expr_syntax(expr),
            |s: InFile<SyntaxNodePtr>|
                AnyDiagnostic::UnresolvedField(
                    Box::new(
                        UnresolvedField {
                            expr: s,
                            name,
                            receiver: Type { owner: def, ty: receiver },
                            method_with_same_name_exists,
                        },
                    ),
                ),
        ),
        InferenceDiagnostic::UnresolvedMethodCall {
            expr,
            receiver,
            name,
            field_with_same_name,
            assoc_func_with_same_name,
        } => at_syntax(
            source_map.spec_expr_syntax(expr),
            |s: InFile<SyntaxNodePtr>|
                AnyDiagnostic::UnresolvedMethodCall(
                    Box::new(
                        UnresolvedMethodCall {
                            expr: s,
                            name,
                            receiver: Type { owner: def, ty: receiver },
                            field_with_same_name: match field_with_same_name {
                                Some(ty) => Some(Type { owner: def, ty }),
                                None => None,
                            },
                            assoc_func_with_same_name: match assoc_func_with_same_name {
                                Some(id) => Some(Function { id }),
                                None => None,
                            },
                        },
                    ),
                ),
        ),
        InferenceDiagnostic::UnresolvedAssocItem { id } => at_syntax(
            source_map.spec_expr_or_pat_syntax(id),
            |s: InFile<SyntaxNodePtr>|
                AnyDiagnostic::UnresolvedAssocItem(Box::new(UnresolvedAssocItem { expr_or_pat: s })),
        ),
        InferenceDiagnostic::UnresolvedIdent { id } => match id {
            ExprOrPatId::ExprId(e) => match source_map.spec_expr_syntax(e) {
                Ok(s) => Some(
                    AnyDiagnostic::UnresolvedIdent(
                        Box::new(
                            UnresolvedIdent {
                                node: InFile { file_id: s.file_id, value: (s.value, None) },
                            },
                        ),
                    ),
                ),
                Err(_) => match source_map.spec_format_args_implicit_capture(e) {
                    Some(c) => Some(
                        AnyDiagnostic::UnresolvedIdent(
                            Box::new(
                                UnresolvedIdent {
                                    node: InFile {
                                        file_id: c.file_id,
                                        value: (c.value.0, Some(c.value.1)),
                                    },
                                },
                            ),
                        ),
                    ),
                    None => None,
                },
            },
            ExprOrPatId::PatId(p) => at_syntax(
                source_map.spec_pat_syntax(p),
                |s: InFile<SyntaxNodePtr>|
                    AnyDiagnostic::UnresolvedIdent(
                        Box::new(
                            UnresolvedIdent {
                                node: InFile { file_id: s.file_id, value: (s.value, None) },
                            },
                        ),
                    ),
            ),
        },
        InferenceDiagnostic::BreakOutsideOfLoop { expr, is_break, bad_value_break } => at_syntax(
            source_map.spec_expr_syntax(expr),
            |s: InFile<SyntaxNodePtr>|
                AnyDiagnostic::BreakOutsideOfLoop(
                    Box::new(BreakOutsideOfLoop { expr: s, is_break, bad_value_break }),
                ),
        ),
        InferenceDiagnostic::TypedHole { expr, expected } => at_syntax(
            source_map.spec_expr_syntax(expr),
            |s: InFile<SyntaxNodePtr>|
                AnyDiagnostic::TypedHole(
                    Box::new(TypedHole { expr: s, expected: Type { owner: def, ty: expected } }),
                ),
        ),
        InferenceDiagnostic::MismatchedTupleStructPatArgCount { pat, expected, found } => {
            match pat {
                ExprOrPatId::ExprId(e) => at_syntax(
                    source_map.spec_expr_syntax(e),
                    |s: InFile<SyntaxNodePtr>|
                        AnyDiagnostic::MismatchedTupleStructPatArgCount(
                            Box::new(MismatchedTupleStructPatArgCount { expr_or_pat: s, expected, found }),
                        ),
                ),
                ExprOrPatId::PatId(p) => match source_map.spec_pat_syntax(p) {
                    Ok(s) => if s.value.kind.is_expr_or_pat_kind() {
                        Some(
                            AnyDiagnostic::MismatchedTupleStructPatArgCount(
                                Box::new(
                                    MismatchedTupleStructPatArgCount { expr_or_pat: s, expected, found },
                                ),
                            ),
                        )
                    } else {
                        None
                    },
                    Err(_) => None,
                },
            }
        },
        InferenceDiagnostic::CastToUnsized { expr, cast_ty } => at_syntax(
            source_map.spec_expr_syntax(expr),
            |s: InFile<SyntaxNodePtr>|
                AnyDiagnostic::CastToUnsized(
                    Box::new(CastToUnsized { expr: s, cast_ty: Type { owner: def, ty: cast_ty } }),
                ),
        ),
        InferenceDiagnostic::InvalidCast { expr, error, expr_ty, cast_ty } => at_syntax(
            source_map.spec_expr_syntax(expr),
            |s: InFile<SyntaxNodePtr>|
                AnyDiagnostic::InvalidCast(
                    Box::new(
                        InvalidCast {
                            expr: s,
                            error,
                            expr_ty: Type { owner: def, ty: expr_ty },
                            cast_ty: Type { owner: def, ty: cast_ty },
                        },
                    ),
                ),
        ),
        InferenceDiagnostic::TyDiagnostic { source, diag } => spec_ty_diagnostic(
            db,
            diag,
            ty_source_map(source, outer_types_source_map, source_map),
        ),
        InferenceDiagnostic::PathDiagnostic { node, diag } => {
            match source_map.spec_expr_or_pat_syntax(node) {
                Err(_) => None,
                Ok(s) => {
                    let syntax = db.node_at(s);
                    if owns_reported_path(syntax.ptr.kind) {
                        match first_child_of_kind(syntax.children@, SyntaxKind::Path) {
                            Some(path) => spec_path_diagnostic(
                                db,
                                diag,
                                InFile { file_id: s.file_id, value: path },
                            ),
                            None => None,
                        }
                    } else {
                        None
                    }
                },
            }
        },
    }
}

impl AnyDiagnostic {
    /// Lowers a finding of the inference of the body of `def`, whose
    /// signature's type references are those of `outer_types_source_map` and
    /// whose own syntax is that of `source_map`.
    pub fn inference_diagnostic(
        db: &HirDatabase,
        def: DefWithBodyId,
        d: &InferenceDiagnostic,
        outer_types_source_map: &TypesSourceMap,
        source_map: &BodySourceMap,
    ) -> (res: Option<AnyDiagnostic>)
        requires
            inference_diagnostic_lowerable(db, *d, outer_types_source_map, source_map),
        ensures
            res == spec_inference_diagnostic(db, def, *d, outer_types_source_map, source_map),
    {
        Some(
            match d {
                InferenceDiagnostic::NoSuchField { field, private, variant } => {
                    let expr_or_pat = match *field {
                        ExprOrPatId::ExprId(expr) => source_map.field_syntax(expr),
                        ExprOrPatId::PatId(pat) => source_map.pat_field_syntax(pat),
                    };
                    AnyDiagnostic::from(
                        NoSuchField { field: expr_or_pat, private: *private, variant: *variant },
                    )
                },
                InferenceDiagnostic::MismatchedArgCount { call_expr, expected, found } => {
                    let call_expr = match source_map.expr_syntax(*call_expr) {
                        Ok(s) => s,
                        Err(_) => return None,
                    };
                    AnyDiagnostic::from(
                        MismatchedArgCount { call_expr, expected: *expected, found: *found },
                    )
                },
                InferenceDiagnostic::PrivateField { expr, field } => {
                    let expr = match source_map.expr_syntax(*expr) {
                        Ok(s) => s,
                        Err(_) => return None,
                    };
                    let field = Field::from(*field);
                    AnyDiagnostic::from(PrivateField { expr, field })
                },
                InferenceDiagnostic::PrivateAssocItem { id, item } => {
                    let expr_or_pat = match source_map.expr_or_pat_syntax(*id) {
                        Ok(s) => s,
                        Err(_) => return None,
                    };
                    let item = AssocItem::from(*item);
                    AnyDiagnostic::from(PrivateAssocItem { expr_or_pat, item })
                },
                InferenceDiagnostic::ExpectedFunction { call_expr, found } => {
                    let call_expr = match source_map.expr_syntax(*call_expr) {
                        Ok(s) => s,
                        Err(_) => return None,
                    };
                    AnyDiagnostic::from(
                        ExpectedFunction { call: call_expr, found: Type::new(def, *found) },
                    )
                },
                InferenceDiagnostic::UnresolvedField {
                    expr,
                    receiver,
                    name,
                    method_with_same_name_exists,
                } => {
                    let expr = match source_map.expr_syntax(*expr) {
                        Ok(s) => s,
                        Err(_) => return None,
                    };
                    AnyDiagnostic::from(
                        UnresolvedField {
                            expr,
                            name: name.clone(),
                            receiver: Type::new(def, *receiver),
                            method_with_same_name_exists: *method_with_same_name_exists,
                        },
                    )
                },
                InferenceDiagnostic::UnresolvedMethodCall {
                    expr,
                    receiver,
                    name,
                    field_with_same_name,
                    assoc_func_with_same_name,
                } => {
                    let expr = match source_map.expr_syntax(*expr) {
                        Ok(s) => s,
                        Err(_) => return None,
                    };
                    let field_with_same_name = match *field_with_same_name {
                        Some(ty) => Some(Type::new(def, ty)),
                        None => None,
                    };
                    let assoc_func_with_same_name = match *assoc_func_with_same_name {
                        Some(id) => Some(Function::from(id)),
                        None => None,
                    };
                    AnyDiagnostic::from(
                        UnresolvedMethodCall {
                            expr,
                            name: name.clone(),
                            receiver: Type::new(def, *receiver),
                            field_with_same_name,
                            assoc_func_with_same_name,
                        },
                    )
                },
                InferenceDiagnostic::UnresolvedAssocItem { id } => {
                    let expr_or_pat = match source_map.expr_or_pat_syntax(*id) {
                        Ok(s) => s,
                        Err(_) => return None,
                    };
                    AnyDiagnostic::from(UnresolvedAssocItem { expr_or_pat })
                },
                InferenceDiagnostic::UnresolvedIdent { id } => {
                    let node: InFile<(SyntaxNodePtr, Option<TextRange>)> = match *id {
                        ExprOrPatId::ExprId(id) => match source_map.expr_syntax(id) {
                            Ok(syntax) => syntax.with_value((syntax.value, None)),
                            Err(_) => match source_map.format_args_implicit_capture(id) {
                                Some(capture) => capture.with_value(
                                    (capture.value.0, Some(capture.value.1)),
                                ),
                                None => return None,
                            },
                        },
                        ExprOrPatId::PatId(id) => match source_map.pat_syntax(id) {
                            Ok(syntax) => syntax.with_value((syntax.value, None)),
                            Err(_) => return None,
                        },
                    };
                    AnyDiagnostic::from(UnresolvedIdent { node })
                },
                InferenceDiagnostic::BreakOutsideOfLoop { expr, is_break, bad_value_break } => {
                    let expr = match source_map.expr_syntax(*expr) {
                        Ok(s) => s,
                        Err(_) => return None,
                    };
                    AnyDiagnostic::from(
                        BreakOutsideOfLoop {
                            expr,
                            is_break: *is_break,
                            bad_value_break: *bad_value_break,
                        },
                    )
                },
                InferenceDiagnostic::TypedHole { expr, expected } => {
                    let expr = match source_map.expr_syntax(*expr) {
                        Ok(s) => s,
                        Err(_) => return None,
                    };
                    AnyDiagnostic::from(TypedHole { expr, expected: Type::new(def, *expected) })
                },
                InferenceDiagnostic::MismatchedTupleStructPatArgCount { pat, expected, found } => {
                    let expr_or_pat = match *pat {
                        ExprOrPatId::ExprId(expr) => match source_map.expr_syntax(expr) {
                            Ok(s) => s,
                            Err(_) => return None,
                        },
                        ExprOrPatId::PatId(pat) => {
                            let src = match source_map.pat_syntax(pat) {
                                Ok(s) => s,
                                Err(_) => return None,
                            };
                            // only expression or pattern syntax can be reported here
                            if !(src.value.kind.is_expr() || src.value.kind.is_pat()) {
                                return None;
                            }
                            src
                        },
                    };
                    AnyDiagnostic::from(
                        MismatchedTupleStructPatArgCount {
                            expr_or_pat,
                            expected: *expected,
                            found: *found,
                        },
                    )
                },
                InferenceDiagnostic::CastToUnsized { expr, cast_ty } => {
                    let expr = match source_map.expr_syntax(*expr) {
                        Ok(s) => s,
                        Err(_) => return None,
                    };
                    AnyDiagnostic::from(CastToUnsized { expr, cast_ty: Type::new(def, *cast_ty) })
                },
                InferenceDiagnostic::InvalidCast { expr, error, expr_ty, cast_ty } => {
                    let expr = match source_map.expr_syntax(*expr) {
                        Ok(s) => s,
                        Err(_) => return None,
                    };
                    let expr_ty = Type::new(def, *expr_ty);
                    let cast_ty = Type::new(def, *cast_ty);
                    AnyDiagnostic::from(InvalidCast { expr, error: *error, expr_ty, cast_ty })
                },
                InferenceDiagnostic::TyDiagnostic { source, diag } => {
                    let types_map = match source {
                        InferenceTyDiagnosticSource::Body => &source_map.types,
                        InferenceTyDiagnosticSource::Signature => outer_types_source_map,
                    };
                    match AnyDiagnostic::ty_diagnostic(diag, types_map, db) {
                        Some(it) => it,
                        None => return None,
                    }
                },
                InferenceDiagnostic::PathDiagnostic { node, diag } => {
                    let source = match source_map.expr_or_pat_syntax(*node) {
                        Ok(s) => s,
                        Err(_) => return None,
                    };
                    let syntax = db.to_node(source);
                    if !is_reported_path_owner(syntax.ptr.kind) {
                        return None;
                    }
                    let path = match syntax.child_of_kind(SyntaxKind::Path) {
                        Some(path) => path,
                        None => return None,
                    };
                    proof {
                        db.lemma_child_resolves(source, SyntaxKind::Path);
                    }
                    match AnyDiagnostic::path_diagnostic(diag, source.with_value(path), db) {
                        Some(it) => it,
                        None => return None,
                    }
                },
            },
        )
    }
}

} // verus!
