//! Source maps: from the expressions, patterns and type references of a body
//! back to the syntax they were lowered from.
use vstd::prelude::*;

use crate::db::HirDatabase;
use crate::ids::{ExprId, ExprOrPatId, PatId, TypeRefId};
use crate::syntax::{InFile, SyntaxNodePtr, TextRange};

verus! {

/// The entity was produced by desugaring and has no syntax of its own.
#[derive(Debug, Clone, Copy, PartialEq, Eq, Structural)]
pub struct SyntheticSyntax;

/// The entry at `idx` of an id-indexed table, if there is one.
pub open spec fn entry_at<V>(table: Seq<Option<V>>, idx: u32) -> Option<V> {
    if idx < table.len() {
        table[idx as int]
    } else {
        None
    }
}

/// Looks up the entry at `idx` of an id-indexed table.
pub fn get_entry<V: Copy>(table: &Vec<Option<V>>, idx: u32) -> (res: Option<V>)
    ensures
        res == entry_at(table@, idx),
{
    let i = idx as usize;
    if i < table.len() {
        match &table[i] {
            Some(v) => Some(*v),
            None => None,
        }
    } else {
        None
    }
}

/// Turns a missing entry into `SyntheticSyntax`.
pub open spec fn ok_or_synthetic<V>(entry: Option<V>) -> Result<V, SyntheticSyntax> {
    match entry {
        Some(v) => Ok(v),
        None => Err(SyntheticSyntax),
    }
}

/// The syntax of the type references of a body or of a signature.
#[derive(Debug, Clone)]
pub struct TypesSourceMap {
    /// Indexed by `TypeRefId`.
    pub types_map_back: Vec<Option<InFile<SyntaxNodePtr>>>,
}

impl TypesSourceMap {
    pub open spec fn spec_type_syntax(&self, id: TypeRefId) -> Result<
        InFile<SyntaxNodePtr>,
        SyntheticSyntax,
    > {
        ok_or_synthetic(entry_at(self.types_map_back@, id.0))
    }

    /// The syntax a type reference was lowered from.
    pub fn type_syntax(&self, id: TypeRefId) -> (res: Result<InFile<SyntaxNodePtr>, SyntheticSyntax>)
        ensures
            res == self.spec_type_syntax(id),
    {
        match get_entry(&self.types_map_back, id.0) {
            Some(v) => Ok(v),
            None => Err(SyntheticSyntax),
        }
    }
}

/// The syntax of the expressions, patterns, record fields and type references
/// of a body.
#[derive(Debug, Clone)]
pub struct BodySourceMap {
    /// Indexed by `ExprId`: the expression or pattern syntax of an expression.
    pub expr_map_back: Vec<Option<InFile<SyntaxNodePtr>>>,
    /// Indexed by `PatId`: the pattern or expression syntax of a pattern.
    pub pat_map_back: Vec<Option<InFile<SyntaxNodePtr>>>,
    /// Indexed by `ExprId`: the record expression field a field expression came from.
    pub field_map_back: Vec<Option<InFile<SyntaxNodePtr>>>,
    /// Indexed by `PatId`: the record pattern field a field pattern came from.
    pub pat_field_map_back: Vec<Option<InFile<SyntaxNodePtr>>>,
    /// Indexed by `ExprId`: for a variable captured implicitly by a format
    /// string, the format-args expression and the range of the capture in it.
    pub implicit_captures: Vec<Option<InFile<(SyntaxNodePtr, TextRange)>>>,
    /// The type references of the body.
    pub types: TypesSourceMap,
}

impl BodySourceMap {
    /// Every recorded expression and pattern pointer finds a node of `db`.
    pub open spec fn agrees_with(&self, db: &HirDatabase) -> bool {
        &&& forall|i: int|
            0 <= i < self.expr_map_back@.len() && #[trigger] self.expr_map_back@[i] is Some
                ==> db.resolves(self.expr_map_back@[i].unwrap())
        &&& forall|i: int|
            0 <= i < self.pat_map_back@.len() && #[trigger] self.pat_map_back@[i] is Some
                ==> db.resolves(self.pat_map_back@[i].unwrap())
    }

    pub open spec fn spec_expr_syntax(&self, expr: ExprId) -> Result<
        InFile<SyntaxNodePtr>,
        SyntheticSyntax,
    > {
        ok_or_synthetic(entry_at(self.expr_map_back@, expr.0))
    }

    pub open spec fn spec_pat_syntax(&self, pat: PatId) -> Result<
        InFile<SyntaxNodePtr>,
        SyntheticSyntax,
    > {
        ok_or_synthetic(entry_at(self.pat_map_back@, pat.0))
    }

    pub open spec fn spec_expr_or_pat_syntax(&self, id: ExprOrPatId) -> Result<
        InFile<SyntaxNodePtr>,
        SyntheticSyntax,
    > {
        match id {
            ExprOrPatId::ExprId(e) => self.spec_expr_syntax(e),
            ExprOrPatId::PatId(p) => self.spec_pat_syntax(p),
        }
    }

    /// The record-field syntax of a field expression is recorded.
    pub open spec fn has_field_syntax(&self, expr: ExprId) -> bool {
        entry_at(self.field_map_back@, expr.0) is Some
    }

    /// The record-field syntax of a field pattern is recorded.
    pub open spec fn has_pat_field_syntax(&self, pat: PatId) -> bool {
        entry_at(self.pat_field_map_back@, pat.0) is Some
    }

    pub open spec fn spec_field_syntax(&self, expr: ExprId) -> InFile<SyntaxNodePtr> {
        entry_at(self.field_map_back@, expr.0).unwrap()
    }

    pub open spec fn spec_pat_field_syntax(&self, pat: PatId) -> InFile<SyntaxNodePtr> {
        entry_at(self.pat_field_map_back@, pat.0).unwrap()
    }

    pub open spec fn spec_format_args_implicit_capture(&self, expr: ExprId) -> Option<
        InFile<(SyntaxNodePtr, TextRange)>,
    > {
        entry_at(self.implicit_captures@, expr.0)
    }

    /// The syntax an expression was lowered from.
    pub fn expr_syntax(&self, expr: ExprId) -> (res: Result<InFile<SyntaxNodePtr>, SyntheticSyntax>)
        ensures
            res == self.spec_expr_syntax(expr),
    {
        match get_entry(&self.expr_map_back, expr.0) {
            Some(v) => Ok(v),
            None => Err(SyntheticSyntax),
        }
    }

    /// The syntax a pattern was lowered from.
    pub fn pat_syntax(&self, pat: PatId) -> (res: Result<InFile<SyntaxNodePtr>, SyntheticSyntax>)
        ensures
            res == self.spec_pat_syntax(pat),
    {
        match get_entry(&self.pat_map_back, pat.0) {
            Some(v) => Ok(v),
            None => Err(SyntheticSyntax),
        }
    }

    /// The syntax an expression or a pattern was lowered from.
    pub fn expr_or_pat_syntax(&self, id: ExprOrPatId) -> (res: Result<
        InFile<SyntaxNodePtr>,
        SyntheticSyntax,
    >)
        ensures
            res == self.spec_expr_or_pat_syntax(id),
    {
        match id {
            ExprOrPatId::ExprId(e) => self.expr_syntax(e),
            ExprOrPatId::PatId(p) => self.pat_syntax(p),
        }
    }

    /// The record-expression field a field expression was lowered from.
    pub fn field_syntax(&self, expr: ExprId) -> (res: InFile<SyntaxNodePtr>)
        requires
            self.has_field_syntax(expr),
        ensures
            res == self.spec_field_syntax(expr),
    {
        get_entry(&self.field_map_back, expr.0).unwrap()
    }

    /// The record-pattern field a field pattern was lowered from.
    pub fn pat_field_syntax(&self, pat: PatId) -> (res: InFile<SyntaxNodePtr>)
        requires
            self.has_pat_field_syntax(pat),
        ensures
            res == self.spec_pat_field_syntax(pat),
    {
        get_entry(&self.pat_field_map_back, pat.0).unwrap()
    }

    /// For a variable captured implicitly by a format string, the format-args
    /// expression and the range of the capture.
    pub fn format_args_implicit_capture(&self, expr: ExprId) -> (res: Option<
        InFile<(SyntaxNodePtr, TextRange)>,
    >)
        ensures
            res == self.spec_format_args_implicit_capture(expr),
    {
        get_entry(&self.implicit_captures, expr.0)
    }
}

} // verus!
