//! Lowering of path and type lowering problems into diagnostics that point at
//! the offending argument list.
use vstd::prelude::*;

use crate::db::{lemma_first_child_member, HirDatabase};
use crate::diagnostics::{AnyDiagnostic, GenericArgsProhibited, ParenthesizedGenericArgsWithoutFnTrait};
use crate::findings::{
    PathLoweringDiagnostic, TyLoweringDiagnostic, TyLoweringDiagnosticKind,
    TyLoweringDiagnosticSource,
};
use crate::source_map::{entry_at, get_entry, SyntheticSyntax, TypesSourceMap};
use crate::syntax::{first_child_of_kind, InFile, SyntaxKind, SyntaxNodePtr};

verus! {

/// The syntax segment of the path at `path` that lowering turns into the
/// lowered segment number `segment`, if there is one.
pub open spec fn spec_hir_segment(db: &HirDatabase, path: InFile<SyntaxNodePtr>, segment: u32) -> Option<
    SyntaxNodePtr,
> {
    entry_at(db.node_at(path).hir_segments@, segment)
}

/// Finds the syntax segment of the path at `path` that lowering turns into the
/// lowered segment number `segment_idx`.
pub fn hir_segment_to_ast_segment(db: &HirDatabase, path: InFile<SyntaxNodePtr>, segment_idx: u32) -> (res:
    Option<SyntaxNodePtr>)
    requires
        db.resolves(path),
    ensures
        res == spec_hir_segment(db, path, segment_idx),
{
    let node = db.to_node(path);
    get_entry(&node.hir_segments, segment_idx)
}

/// The diagnostic for a path lowering problem of the path at `path`: it points
/// at the argument list of the offending segment; generic arguments are
/// preferred over parenthesized ones. There is none when the segment or the
/// argument list has no syntax.
pub open spec fn spec_path_diagnostic(
    db: &HirDatabase,
    diag: PathLoweringDiagnostic,
    path: InFile<SyntaxNodePtr>,
) -> Option<AnyDiagnostic> {
    match diag {
        PathLoweringDiagnostic::GenericArgsProhibited { segment, reason } => {
            match spec_hir_segment(db, path, segment) {
                None => None,
                Some(seg) => {
                    let children = db.node_at(InFile { file_id: path.file_id, value: seg }).children@;
                    match first_child_of_kind(children, SyntaxKind::GenericArgList) {
                        Some(args) => Some(
                            AnyDiagnostic::GenericArgsProhibited(
                                Box::new(
                                    GenericArgsProhibited {
                                        args: InFile { file_id: path.file_id, value: args },
                                        reason,
                                    },
                                ),
                            ),
                        ),
                        None => match first_child_of_kind(children, SyntaxKind::ParenthesizedArgList) {
                            Some(args) => Some(
                                AnyDiagnostic::GenericArgsProhibited(
                                    Box::new(
                                        GenericArgsProhibited {
                                            args: InFile { file_id: path.file_id, value: args },
                                            reason,
                                        },
                                    ),
                                ),
                            ),
                            None => None,
                        },
                    }
                },
            }
        },
        PathLoweringDiagnostic::ParenthesizedGenericArgsWithoutFnTrait { segment } => {
            match spec_hir_segment(db, path, segment) {
                None => None,
                Some(seg) => {
                    let children = db.node_at(InFile { file_id: path.file_id, value: seg }).children@;
                    match first_child_of_kind(children, SyntaxKind::ParenthesizedArgList) {
                        Some(args) => Some(
                            AnyDiagnostic::ParenthesizedGenericArgsWithoutFnTrait(
                                Box::new(
                                    ParenthesizedGenericArgsWithoutFnTrait {
                                        args: InFile { file_id: path.file_id, value: args },
                                    },
                                ),
                            ),
                        ),
                        None => None,
                    }
                },
            }
        },
    }
}

/// Where a type lowering problem lies, given the types source map it refers to.
pub open spec fn spec_ty_source(diag: TyLoweringDiagnostic, source_map: &TypesSourceMap) -> Result<
    InFile<SyntaxNodePtr>,
    SyntheticSyntax,
> {
    match diag.source {
        TyLoweringDiagnosticSource::TypeRef(id) => source_map.spec_type_syntax(id),
        TyLoweringDiagnosticSource::Syntax(src) => Ok(src),
    }
}

/// A type lowering problem can be lowered against this types source map: the
/// syntax trees of `db` are well formed, and the type node the problem lies
/// at, if it has syntax, is a type node of `db`.
pub open spec fn ty_diagnostic_lowerable(
    db: &HirDatabase,
    diag: TyLoweringDiagnostic,
    source_map: &TypesSourceMap,
) -> bool {
    &&& db.wf()
    &&& spec_ty_source(diag, source_map) matches Ok(src) ==> db.resolves(src)
        && src.value.kind.is_type_kind()
}

/// The diagnostic for a type lowering problem: for a path type, that of the
/// path problem of its path; none when the type reference has no syntax, the
/// type is not a path type, or the path type has no path.
pub open spec fn spec_ty_diagnostic(
    db: &HirDatabase,
    diag: TyLoweringDiagnostic,
    source_map: &TypesSourceMap,
) -> Option<AnyDiagnostic> {
    match spec_ty_source(diag, source_map) {
        Err(_) => None,
        Ok(src) => {
            let node = db.node_at(src);
            if node.ptr.kind == SyntaxKind::PathType {
                match first_child_of_kind(node.children@, SyntaxKind::Path) {
                    Some(path) => match diag.kind {
                        TyLoweringDiagnosticKind::PathDiagnostic(pd) => spec_path_diagnostic(
                            db,
                            pd,
                            InFile { file_id: src.file_id, value: path },
                        ),
                    },
                    None => None,
                }
            } else {
                None
            }
        },
    }
}

/// `a` is the diagnostic that a path lowering problem is reported as: a
/// prohibited generic argument list with the same reason, or parenthesized
/// arguments on a non-`Fn` trait.
pub open spec fn path_reported_as(diag: PathLoweringDiagnostic, a: AnyDiagnostic) -> bool {
    match diag {
        PathLoweringDiagnostic::GenericArgsProhibited { reason, .. } => {
            a matches AnyDiagnostic::GenericArgsProhibited(g) && g.reason == reason
        },
        PathLoweringDiagnostic::ParenthesizedGenericArgsWithoutFnTrait { .. } => {
            a is ParenthesizedGenericArgsWithoutFnTrait
        },
    }
}

/// A path lowering problem is reported, if at all, as the diagnostic it
/// names, pointing into the path's file at an argument list of the offending
/// segment: a generic or parenthesized argument list when generic arguments
/// are prohibited, a parenthesized one otherwise; that list is a node of `db`
/// and lies within the path's range.
pub proof fn lemma_path_diagnostic_points_at_arguments(
    db: &HirDatabase,
    diag: PathLoweringDiagnostic,
    path: InFile<SyntaxNodePtr>,
)
    requires
        db.wf(),
        db.resolves(path),
    ensures
        spec_path_diagnostic(db, diag, path) matches Some(a) ==> {
            &&& path_reported_as(diag, a)
            &&& a matches AnyDiagnostic::GenericArgsProhibited(g) ==> {
                &&& g.args.file_id == path.file_id
                &&& (g.args.value.kind == SyntaxKind::GenericArgList || g.args.value.kind
                    == SyntaxKind::ParenthesizedArgList)
                &&& db.resolves(g.args)
                &&& path.value.range.covers(g.args.value.range)
            }
            &&& a matches AnyDiagnostic::ParenthesizedGenericArgsWithoutFnTrait(p) ==> {
                &&& p.args.file_id == path.file_id
                &&& p.args.value.kind == SyntaxKind::ParenthesizedArgList
                &&& db.resolves(p.args)
                &&& path.value.range.covers(p.args.value.range)
            }
        },
{
    let segment = match diag {
        PathLoweringDiagnostic::GenericArgsProhibited { segment, .. } => segment,
        PathLoweringDiagnostic::ParenthesizedGenericArgsWithoutFnTrait { segment } => segment,
    };
    if let Some(seg) = spec_hir_segment(db, path, segment) {
        db.lemma_segment_resolves(path, segment as int);
        let seg_src = InFile { file_id: path.file_id, value: seg };
        let children = db.node_at(seg_src).children@;
        if first_child_of_kind(children, SyntaxKind::GenericArgList) is Some {
            lemma_first_child_member(children, SyntaxKind::GenericArgList);
            db.lemma_child_resolves(seg_src, SyntaxKind::GenericArgList);
        }
        if first_child_of_kind(children, SyntaxKind::ParenthesizedArgList) is Some {
            lemma_first_child_member(children, SyntaxKind::ParenthesizedArgList);
            db.lemma_child_resolves(seg_src, SyntaxKind::ParenthesizedArgList);
        }
    }
}

impl AnyDiagnostic {
    /// Lowers a path lowering problem of the path at `path`.
    pub fn path_diagnostic(diag: &PathLoweringDiagnostic, path: InFile<SyntaxNodePtr>, db: &HirDatabase) -> (res:
        Option<AnyDiagnostic>)
        requires
            db.wf(),
            db.resolves(path),
        ensures
            res == spec_path_diagnostic(db, *diag, path),
            res matches Some(a) ==> path_reported_as(*diag, a),
            res matches Some(AnyDiagnostic::GenericArgsProhibited(g)) ==> g.args.file_id
                == path.file_id && path.value.range.covers(g.args.value.range),
            res matches Some(AnyDiagnostic::ParenthesizedGenericArgsWithoutFnTrait(p))
                ==> p.args.file_id == path.file_id && path.value.range.covers(p.args.value.range),
    {
        proof {
            lemma_path_diagnostic_points_at_arguments(db, *diag, path);
        }
        match *diag {
            PathLoweringDiagnostic::GenericArgsProhibited { segment, reason } => {
                let seg = match hir_segment_to_ast_segment(db, path, segment) {
                    Some(seg) => seg,
                    None => return None,
                };
                proof {
                    db.lemma_segment_resolves(path, segment as int);
                }
                let seg_node = db.to_node(path.with_value(seg));
                let args = match seg_node.child_of_kind(SyntaxKind::GenericArgList) {
                    Some(generics) => generics,
                    None => match seg_node.child_of_kind(SyntaxKind::ParenthesizedArgList) {
                        Some(parenthesized) => parenthesized,
                        None => return None,
                    },
                };
                let args = path.with_value(args);
                Some(AnyDiagnostic::from(GenericArgsProhibited { args, reason }))
            },
            PathLoweringDiagnostic::ParenthesizedGenericArgsWithoutFnTrait { segment } => {
                let seg = match hir_segment_to_ast_segment(db, path, segment) {
                    Some(seg) => seg,
                    None => return None,
                };
                proof {
                    db.lemma_segment_resolves(path, segment as int);
                }
                let seg_node = db.to_node(path.with_value(seg));
                let args = match seg_node.child_of_kind(SyntaxKind::ParenthesizedArgList) {
                    Some(parenthesized) => parenthesized,
                    None => return None,
                };
                let args = path.with_value(args);
                Some(AnyDiagnostic::from(ParenthesizedGenericArgsWithoutFnTrait { args }))
            },
        }
    }

    /// Lowers a type lowering problem whose type references are those of
    /// `source_map`.
    pub fn ty_diagnostic(diag: &TyLoweringDiagnostic, source_map: &TypesSourceMap, db: &HirDatabase) -> (res:
        Option<AnyDiagnostic>)
        requires
            ty_diagnostic_lowerable(db, *diag, source_map),
        ensures
            res == spec_ty_diagnostic(db, *diag, source_map),
    {
        let source = match diag.source {
            TyLoweringDiagnosticSource::TypeRef(type_ref_id) => {
                match source_map.type_syntax(type_ref_id) {
                    Ok(source) => source,
                    Err(_) => return None,
                }
            },
            TyLoweringDiagnosticSource::Syntax(source) => source,
        };
        match &diag.kind {
            TyLoweringDiagnosticKind::PathDiagnostic(path_diag) => {
                let syntax = db.to_node(source);
                if syntax.ptr.kind != SyntaxKind::PathType {
                    return None;
                }
                let path = match syntax.child_of_kind(SyntaxKind::Path) {
                    Some(path) => path,
                    None => return None,
                };
                proof {
                    db.lemma_child_resolves(source, SyntaxKind::Path);
                }
                AnyDiagnostic::path_diagnostic(path_diag, source.with_value(path), db)
            },
        }
    }
}

} // verus!
