//! A plain-value picture of parsed syntax: node kinds, ranges, node pointers,
//! and the parsed nodes of every file, with the few tree queries that
//! diagnostics lowering performs on them.
use vstd::prelude::*;

verus! {

/// A file known to the HIR layer (a source file or a macro expansion).
#[derive(Debug, Clone, Copy, PartialEq, Eq, Structural, Hash)]
pub struct HirFileId(pub u32);

/// A half-open range of text offsets.
#[derive(Debug, Clone, Copy, PartialEq, Eq, Structural, Hash)]
pub struct TextRange {
    pub start: u32,
    pub end: u32,
}

impl TextRange {
    /// `inner` lies within this range.
    pub open spec fn covers(self, inner: TextRange) -> bool {
        self.start <= inner.start && inner.end <= self.end
    }
}

/// The kind of a syntax node.
///
/// Every expression, pattern and type node of the grammar has its own kind;
/// of the remaining nodes only those that diagnostics point at or look for
/// are told apart, all others are `Other`.
#[derive(Debug, Clone, Copy, PartialEq, Eq, Structural, Hash)]
pub enum SyntaxKind {
    // expressions
    ArrayExpr,
    AsmExpr,
    AwaitExpr,
    BecomeExpr,
    BinExpr,
    BlockExpr,
    BreakExpr,
    CallExpr,
    CastExpr,
    ClosureExpr,
    ContinueExpr,
    FieldExpr,
    ForExpr,
    FormatArgsExpr,
    IfExpr,
    IndexExpr,
    LetExpr,
    Literal,
    LoopExpr,
    MacroExpr,
    MatchExpr,
    MethodCallExpr,
    OffsetOfExpr,
    ParenExpr,
    PathExpr,
    PrefixExpr,
    RangeExpr,
    RecordExpr,
    RefExpr,
    ReturnExpr,
    TryExpr,
    TupleExpr,
    UnderscoreExpr,
    WhileExpr,
    YeetExpr,
    YieldExpr,
    // patterns
    BoxPat,
    ConstBlockPat,
    IdentPat,
    LiteralPat,
    MacroPat,
    OrPat,
    ParenPat,
    PathPat,
    RangePat,
    RecordPat,
    RefPat,
    RestPat,
    SlicePat,
    TuplePat,
    TupleStructPat,
    WildcardPat,
    // types
    ArrayType,
    DynTraitType,
    FnPtrType,
    ForType,
    ImplTraitType,
    InferType,
    MacroType,
    NeverType,
    ParenType,
    PathType,
    PtrType,
    RefType,
    SliceType,
    TupleType,
    // other nodes
    Path,
    PathSegment,
    GenericArgList,
    ParenthesizedArgList,
    RecordExprFieldList,
    RecordExprField,
    RecordPatFieldList,
    RecordPatField,
    MatchArmList,
    MatchArm,
    SelfParam,
    Name,
    NameRef,
    Lifetime,
    Module,
    ExternCrate,
    UseTree,
    MacroRules,
    MacroDef,
    Impl,
    SourceFile,
    Other,
}

impl SyntaxKind {
    /// The kind is that of an expression node.
    pub open spec fn is_expr_kind(self) -> bool {
        match self {
            SyntaxKind::ArrayExpr | SyntaxKind::AsmExpr | SyntaxKind::AwaitExpr
            | SyntaxKind::BecomeExpr | SyntaxKind::BinExpr | SyntaxKind::BlockExpr
            | SyntaxKind::BreakExpr | SyntaxKind::CallExpr | SyntaxKind::CastExpr
            | SyntaxKind::ClosureExpr | SyntaxKind::ContinueExpr | SyntaxKind::FieldExpr
            | SyntaxKind::ForExpr | SyntaxKind::FormatArgsExpr | SyntaxKind::IfExpr
            | SyntaxKind::IndexExpr | SyntaxKind::LetExpr | SyntaxKind::Literal
            | SyntaxKind::LoopExpr | SyntaxKind::MacroExpr | SyntaxKind::MatchExpr
            | SyntaxKind::MethodCallExpr | SyntaxKind::OffsetOfExpr | SyntaxKind::ParenExpr
            | SyntaxKind::PathExpr | SyntaxKind::PrefixExpr | SyntaxKind::RangeExpr
            | SyntaxKind::RecordExpr | SyntaxKind::RefExpr | SyntaxKind::ReturnExpr
            | SyntaxKind::TryExpr | SyntaxKind::TupleExpr | SyntaxKind::UnderscoreExpr
            | SyntaxKind::WhileExpr | SyntaxKind::YeetExpr | SyntaxKind::YieldExpr => true,
            _ => false,
        }
    }

    /// The kind is that of a pattern node.
    pub open spec fn is_pat_kind(self) -> bool {
        match self {
            SyntaxKind::BoxPat | SyntaxKind::ConstBlockPat | SyntaxKind::IdentPat
            | SyntaxKind::LiteralPat | SyntaxKind::MacroPat | SyntaxKind::OrPat
            | SyntaxKind::ParenPat | SyntaxKind::PathPat | SyntaxKind::RangePat
            | SyntaxKind::RecordPat | SyntaxKind::RefPat | SyntaxKind::RestPat
            | SyntaxKind::SlicePat | SyntaxKind::TuplePat | SyntaxKind::TupleStructPat
            | SyntaxKind::WildcardPat => true,
            _ => false,
        }
    }

    /// The kind is that of a type node.
    pub open spec fn is_type_kind(self) -> bool {
        match self {
            SyntaxKind::ArrayType | SyntaxKind::DynTraitType | SyntaxKind::FnPtrType
            | SyntaxKind::ForType | SyntaxKind::ImplTraitType | SyntaxKind::InferType
            | SyntaxKind::MacroType | SyntaxKind::NeverType | SyntaxKind::ParenType
            | SyntaxKind::PathType | SyntaxKind::PtrType | SyntaxKind::RefType
            | SyntaxKind::SliceType | SyntaxKind::TupleType => true,
            _ => false,
        }
    }

    /// The kind is that of an expression or of a pattern node.
    pub open spec fn is_expr_or_pat_kind(self) -> bool {
        self.is_expr_kind() || self.is_pat_kind()
    }

    /// Whether this is an expression kind.
    pub fn is_expr(self) -> (b: bool)
        ensures
            b == self.is_expr_kind(),
    {
        match self {
            SyntaxKind::ArrayExpr | SyntaxKind::AsmExpr | SyntaxKind::AwaitExpr
            | SyntaxKind::BecomeExpr | SyntaxKind::BinExpr | SyntaxKind::BlockExpr
            | SyntaxKind::BreakExpr | SyntaxKind::CallExpr | SyntaxKind::CastExpr
            | SyntaxKind::ClosureExpr | SyntaxKind::ContinueExpr | SyntaxKind::FieldExpr
            | SyntaxKind::ForExpr | SyntaxKind::FormatArgsExpr | SyntaxKind::IfExpr
            | SyntaxKind::IndexExpr | SyntaxKind::LetExpr | SyntaxKind::Literal
            | SyntaxKind::LoopExpr | SyntaxKind::MacroExpr | SyntaxKind::MatchExpr
            | SyntaxKind::MethodCallExpr | SyntaxKind::OffsetOfExpr | SyntaxKind::ParenExpr
            | SyntaxKind::PathExpr | SyntaxKind::PrefixExpr | SyntaxKind::RangeExpr
            | SyntaxKind::RecordExpr | SyntaxKind::RefExpr | SyntaxKind::ReturnExpr
            | SyntaxKind::TryExpr | SyntaxKind::TupleExpr | SyntaxKind::UnderscoreExpr
            | SyntaxKind::WhileExpr | SyntaxKind::YeetExpr | SyntaxKind::YieldExpr => true,
            _ => false,
        }
    }

    /// Whether this is a pattern kind.
    pub fn is_pat(self) -> (b: bool)
        ensures
            b == self.is_pat_kind(),
    {
        match self {
            SyntaxKind::BoxPat | SyntaxKind::ConstBlockPat | SyntaxKind::IdentPat
            | SyntaxKind::LiteralPat | SyntaxKind::MacroPat | SyntaxKind::OrPat
            | SyntaxKind::ParenPat | SyntaxKind::PathPat | SyntaxKind::RangePat
            | SyntaxKind::RecordPat | SyntaxKind::RefPat | SyntaxKind::RestPat
            | SyntaxKind::SlicePat | SyntaxKind::TuplePat | SyntaxKind::TupleStructPat
            | SyntaxKind::WildcardPat => true,
            _ => false,
        }
    }
}

/// A pointer to a syntax node: its kind and its range, which together find the
/// node again in the tree of its file.
#[derive(Debug, Clone, Copy, PartialEq, Eq, Structural, Hash)]
pub struct SyntaxNodePtr {
    pub kind: SyntaxKind,
    pub range: TextRange,
}

/// A value together with the file it belongs to.
#[derive(Debug, Clone, Copy, PartialEq, Eq, Structural, Hash)]
pub struct InFile<T> {
    pub file_id: HirFileId,
    pub value: T,
}

impl<T> InFile<T> {
    /// Pairs `value` with `file_id`.
    pub fn new(file_id: HirFileId, value: T) -> (res: InFile<T>)
        ensures
            res.file_id == file_id,
            res.value == value,
    {
        InFile { file_id, value }
    }

    /// Replaces the value, keeping the file.
    pub fn with_value<U>(&self, value: U) -> (res: InFile<U>)
        ensures
            res.file_id == self.file_id,
            res.value == value,
    {
        InFile { file_id: self.file_id, value }
    }
}

/// The first pointer of `children` whose kind is `kind`.
pub open spec fn first_child_of_kind(children: Seq<SyntaxNodePtr>, kind: SyntaxKind) -> Option<
    SyntaxNodePtr,
>
    decreases children.len(),
{
    if children.len() == 0 {
        None
    } else if children[0].kind == kind {
        Some(children[0])
    } else {
        first_child_of_kind(children.drop_first(), kind)
    }
}

/// The first pointer of `children` whose kind is an expression kind.
pub open spec fn first_expr_child(children: Seq<SyntaxNodePtr>) -> Option<SyntaxNodePtr>
    decreases children.len(),
{
    if children.len() == 0 {
        None
    } else if children[0].kind.is_expr_kind() {
        Some(children[0])
    } else {
        first_expr_child(children.drop_first())
    }
}

/// A parsed syntax node: where it is, and the pointers to its child nodes in
/// order.
///
/// For a `Path` node, `hir_segments` holds, for each segment that lowering the
/// path to HIR gives, the syntax segment it came from (`None` where a lowered
/// segment has no syntax of its own); for other nodes it is empty.
#[derive(Debug, Clone)]
pub struct SyntaxNode {
    pub file_id: HirFileId,
    pub ptr: SyntaxNodePtr,
    pub children: Vec<SyntaxNodePtr>,
    pub hir_segments: Vec<Option<SyntaxNodePtr>>,
}

impl SyntaxNode {
    /// The first child of the given kind (a typed child accessor of the tree).
    pub fn child_of_kind(&self, kind: SyntaxKind) -> (res: Option<SyntaxNodePtr>)
        ensures
            res == first_child_of_kind(self.children@, kind),
    {
        let mut i: usize = 0;
        proof {
            assert(self.children@.skip(0) =~= self.children@);
        }
        while i < self.children.len()
            invariant
                i <= self.children@.len(),
                first_child_of_kind(self.children@, kind) == first_child_of_kind(
                    self.children@.skip(i as int),
                    kind,
                ),
            decreases self.children@.len() - i,
        {
            let c = self.children[i];
            proof {
                assert(self.children@.skip(i as int).drop_first() =~= self.children@.skip(
                    i + 1,
                ));
            }
            if c.kind == kind {
                return Some(c);
            }
            i = i + 1;
        }
        proof {
            assert(self.children@.skip(i as int).len() == 0);
        }
        None
    }

    /// The first child that is an expression.
    pub fn expr_child(&self) -> (res: Option<SyntaxNodePtr>)
        ensures
            res == first_expr_child(self.children@),
    {
        let mut i: usize = 0;
        proof {
            assert(self.children@.skip(0) =~= self.children@);
        }
        while i < self.children.len()
            invariant
                i <= self.children@.len(),
                first_expr_child(self.children@) == first_expr_child(
                    self.children@.skip(i as int),
                ),
            decreases self.children@.len() - i,
        {
            let c = self.children[i];
            proof {
                assert(self.children@.skip(i as int).drop_first() =~= self.children@.skip(
                    i + 1,
                ));
            }
            if c.kind.is_expr() {
                return Some(c);
            }
            i = i + 1;
        }
        proof {
            assert(self.children@.skip(i as int).len() == 0);
        }
        None
    }
}

} // verus!
