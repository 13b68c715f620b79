//! What diagnostics lowering reads from the database: the parsed nodes of every
//! file and the field names of every variant.
use vstd::prelude::*;

use crate::ids::{LocalFieldId, Name, VariantId};
use crate::syntax::{first_child_of_kind, first_expr_child, HirFileId, InFile, SyntaxKind, SyntaxNode, SyntaxNodePtr};

verus! {

/// The field names of a variant, in declaration order.
#[derive(Debug, Clone)]
pub struct VariantFields {
    pub variant: VariantId,
    pub field_names: Vec<Name>,
}

/// The database as diagnostics lowering sees it.
#[derive(Debug, Clone)]
pub struct HirDatabase {
    /// The parsed nodes of all files.
    pub nodes: Vec<SyntaxNode>,
    /// The fields of all variants.
    pub variants: Vec<VariantFields>,
}

/// The first node of `nodes` that lies in `file_id` and is found by `ptr`.
pub open spec fn find_node(nodes: Seq<SyntaxNode>, file_id: HirFileId, ptr: SyntaxNodePtr) -> Option<
    SyntaxNode,
>
    decreases nodes.len(),
{
    if nodes.len() == 0 {
        None
    } else if nodes[0].file_id == file_id && nodes[0].ptr == ptr {
        Some(nodes[0])
    } else {
        find_node(nodes.drop_first(), file_id, ptr)
    }
}

/// The first entry of `variants` that describes `variant`.
pub open spec fn find_variant(variants: Seq<VariantFields>, variant: VariantId) -> Option<
    VariantFields,
>
    decreases variants.len(),
{
    if variants.len() == 0 {
        None
    } else if variants[0].variant == variant {
        Some(variants[0])
    } else {
        find_variant(variants.drop_first(), variant)
    }
}

/// A node that `find_node` finds is one of the nodes, in the file and at the
/// pointer asked for.
pub proof fn lemma_find_node_member(nodes: Seq<SyntaxNode>, file_id: HirFileId, ptr: SyntaxNodePtr) -> (i: int)
    requires
        find_node(nodes, file_id, ptr) is Some,
    ensures
        0 <= i < nodes.len(),
        nodes[i] == find_node(nodes, file_id, ptr).unwrap(),
        nodes[i].file_id == file_id,
        nodes[i].ptr == ptr,
    decreases nodes.len(),
{
    if nodes[0].file_id == file_id && nodes[0].ptr == ptr {
        0
    } else {
        let j = lemma_find_node_member(nodes.drop_first(), file_id, ptr);
        j + 1
    }
}

/// A child that `first_child_of_kind` picks is one of the children, of that kind.
pub proof fn lemma_first_child_member(children: Seq<SyntaxNodePtr>, kind: SyntaxKind) -> (i: int)
    requires
        first_child_of_kind(children, kind) is Some,
    ensures
        0 <= i < children.len(),
        children[i] == first_child_of_kind(children, kind).unwrap(),
        children[i].kind == kind,
    decreases children.len(),
{
    if children[0].kind == kind {
        0
    } else {
        let j = lemma_first_child_member(children.drop_first(), kind);
        j + 1
    }
}

/// A child that `first_expr_child` picks is one of the children, an expression.
pub proof fn lemma_first_expr_child_member(children: Seq<SyntaxNodePtr>) -> (i: int)
    requires
        first_expr_child(children) is Some,
    ensures
        0 <= i < children.len(),
        children[i] == first_expr_child(children).unwrap(),
        children[i].kind.is_expr_kind(),
    decreases children.len(),
{
    if children[0].kind.is_expr_kind() {
        0
    } else {
        let j = lemma_first_expr_child_member(children.drop_first());
        j + 1
    }
}

impl HirDatabase {
    /// The pointer `src` finds a node of its file.
    pub open spec fn resolves(&self, src: InFile<SyntaxNodePtr>) -> bool {
        find_node(self.nodes@, src.file_id, src.value) is Some
    }

    /// The node that `src` finds.
    pub open spec fn node_at(&self, src: InFile<SyntaxNodePtr>) -> SyntaxNode {
        find_node(self.nodes@, src.file_id, src.value).unwrap()
    }

    /// Every child pointer and every lowered path segment of every node finds
    /// a node of the same file and lies within the node's range.
    pub open spec fn wf(&self) -> bool {
        &&& forall|i: int, j: int|
            0 <= i < self.nodes@.len() && 0 <= j < self.nodes@[i].children@.len() ==> self.resolves(
                InFile { file_id: self.nodes@[i].file_id, value: #[trigger] self.nodes@[i].children@[j] },
            )
        &&& forall|i: int, j: int|
            0 <= i < self.nodes@.len() && 0 <= j < self.nodes@[i].hir_segments@.len()
                && #[trigger] self.nodes@[i].hir_segments@[j] is Some ==> self.resolves(
                InFile { file_id: self.nodes@[i].file_id, value: self.nodes@[i].hir_segments@[j].unwrap() },
            )
        &&& forall|i: int, j: int|
            0 <= i < self.nodes@.len() && 0 <= j < self.nodes@[i].children@.len()
                ==> self.nodes@[i].ptr.range.covers((#[trigger] self.nodes@[i].children@[j]).range)
        &&& forall|i: int, j: int|
            0 <= i < self.nodes@.len() && 0 <= j < self.nodes@[i].hir_segments@.len()
                && #[trigger] self.nodes@[i].hir_segments@[j] is Some
                ==> self.nodes@[i].ptr.range.covers(self.nodes@[i].hir_segments@[j].unwrap().range)
    }

    /// The database knows the fields of `variant`.
    pub open spec fn has_variant(&self, variant: VariantId) -> bool {
        find_variant(self.variants@, variant) is Some
    }

    /// The field names of `variant`.
    pub open spec fn field_names_of(&self, variant: VariantId) -> Seq<Name> {
        find_variant(self.variants@, variant).unwrap().field_names@
    }

    /// The names of the fields at the positions `fields` of `variant`, in the
    /// order of `fields`.
    pub open spec fn names_of_fields(&self, variant: VariantId, fields: Seq<LocalFieldId>) -> Seq<
        Name,
    > {
        fields.map_values(|f: LocalFieldId| self.field_names_of(variant)[f.0 as int])
    }

    /// Finds the node that `src` points at.
    pub fn to_node(&self, src: InFile<SyntaxNodePtr>) -> (res: &SyntaxNode)
        requires
            self.resolves(src),
        ensures
            *res == self.node_at(src),
    {
        let mut i: usize = 0;
        proof {
            assert(self.nodes@.skip(0) =~= self.nodes@);
        }
        while i < self.nodes.len()
            invariant
                i <= self.nodes@.len(),
                find_node(self.nodes@, src.file_id, src.value) == find_node(
                    self.nodes@.skip(i as int),
                    src.file_id,
                    src.value,
                ),
                find_node(self.nodes@, src.file_id, src.value) is Some,
            decreases self.nodes@.len() - i,
        {
            proof {
                assert(self.nodes@.skip(i as int).drop_first() =~= self.nodes@.skip(i + 1));
            }
            if self.nodes[i].file_id == src.file_id && self.nodes[i].ptr == src.value {
                return &self.nodes[i];
            }
            i = i + 1;
        }
        proof {
            assert(self.nodes@.skip(i as int).len() == 0);
        }
        &self.nodes[0]
    }

    /// The fields of `variant`.
    pub fn variant_data(&self, variant: VariantId) -> (res: &VariantFields)
        requires
            self.has_variant(variant),
        ensures
            *res == find_variant(self.variants@, variant).unwrap(),
    {
        let mut i: usize = 0;
        proof {
            assert(self.variants@.skip(0) =~= self.variants@);
        }
        while i < self.variants.len()
            invariant
                i <= self.variants@.len(),
                find_variant(self.variants@, variant) == find_variant(
                    self.variants@.skip(i as int),
                    variant,
                ),
                find_variant(self.variants@, variant) is Some,
            decreases self.variants@.len() - i,
        {
            proof {
                assert(self.variants@.skip(i as int).drop_first() =~= self.variants@.skip(i + 1));
            }
            if self.variants[i].variant == variant {
                return &self.variants[i];
            }
            i = i + 1;
        }
        proof {
            assert(self.variants@.skip(i as int).len() == 0);
        }
        &self.variants[0]
    }

    /// The names of the fields at the positions `fields` of `variant`.
    pub fn field_names(&self, variant: VariantId, fields: &Vec<LocalFieldId>) -> (res: Vec<Name>)
        requires
            self.has_variant(variant),
            forall|k: int|
                0 <= k < fields@.len() ==> (#[trigger] fields@[k]).0 < self.field_names_of(
                    variant,
                ).len(),
        ensures
            res@ == self.names_of_fields(variant, fields@),
    {
        let data = self.variant_data(variant);
        let mut res: Vec<Name> = Vec::new();
        let mut k: usize = 0;
        while k < fields.len()
            invariant
                k <= fields@.len(),
                data.field_names@ == self.field_names_of(variant),
                forall|m: int|
                    0 <= m < fields@.len() ==> (#[trigger] fields@[m]).0 < self.field_names_of(
                        variant,
                    ).len(),
                res@ =~= self.names_of_fields(variant, fields@).take(k as int),
            decreases fields@.len() - k,
        {
            let idx = fields[k].0 as usize;
            let name = data.field_names[idx].clone();
            res.push(name);
            k = k + 1;
        }
        proof {
            assert(self.names_of_fields(variant, fields@).take(k as int) =~= self.names_of_fields(
                variant,
                fields@,
            ));
        }
        res
    }

    /// A child of a node that a pointer finds is itself found, in the same file.
    pub proof fn lemma_child_resolves(&self, src: InFile<SyntaxNodePtr>, kind: SyntaxKind)
        requires
            self.wf(),
            self.resolves(src),
            first_child_of_kind(self.node_at(src).children@, kind) is Some,
        ensures
            self.resolves(
                InFile {
                    file_id: src.file_id,
                    value: first_child_of_kind(self.node_at(src).children@, kind).unwrap(),
                },
            ),
            src.value.range.covers(first_child_of_kind(self.node_at(src).children@, kind).unwrap().range),
    {
        let i = lemma_find_node_member(self.nodes@, src.file_id, src.value);
        let j = lemma_first_child_member(self.node_at(src).children@, kind);
        assert(self.nodes@[i].children@[j] == first_child_of_kind(
            self.node_at(src).children@,
            kind,
        ).unwrap());
    }

    /// The first expression child of a node that a pointer finds is itself
    /// found, in the same file.
    pub proof fn lemma_expr_child_resolves(&self, src: InFile<SyntaxNodePtr>)
        requires
            self.wf(),
            self.resolves(src),
            first_expr_child(self.node_at(src).children@) is Some,
        ensures
            self.resolves(
                InFile { file_id: src.file_id, value: first_expr_child(self.node_at(src).children@).unwrap() },
            ),
            src.value.range.covers(first_expr_child(self.node_at(src).children@).unwrap().range),
    {
        let i = lemma_find_node_member(self.nodes@, src.file_id, src.value);
        let j = lemma_first_expr_child_member(self.node_at(src).children@);
        assert(self.nodes@[i].children@[j] == first_expr_child(self.node_at(src).children@).unwrap());
    }

    /// A lowered segment of a path that a pointer finds is itself found, in the
    /// same file.
    pub proof fn lemma_segment_resolves(&self, src: InFile<SyntaxNodePtr>, j: int)
        requires
            self.wf(),
            self.resolves(src),
            0 <= j < self.node_at(src).hir_segments@.len(),
            self.node_at(src).hir_segments@[j] is Some,
        ensures
            self.resolves(
                InFile { file_id: src.file_id, value: self.node_at(src).hir_segments@[j].unwrap() },
            ),
            src.value.range.covers(self.node_at(src).hir_segments@[j].unwrap().range),
    {
        let i = lemma_find_node_member(self.nodes@, src.file_id, src.value);
        assert(self.nodes@[i].hir_segments@[j] is Some);
    }
}

} // verus!
