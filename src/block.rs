use vstd::prelude::*;
use vstd::string::*;
use crate::ast::TypeAstNode;

verus! {

broadcast use vstd::std_specs::vec::group_vec_axioms, vstd::seq::group_seq_axioms;

/// Identifies a block on the canvas.
#[derive(Clone, Debug, PartialEq, Eq)]
pub struct BlockId(pub String);

/// A block of the visual editor. Leaf blocks name a primitive type, a path or
/// an alias; the others hold slots, each empty or holding a block: one per
/// type parameter of a constructor, one per tuple element, and one per
/// parameter of a function pointer plus one for its return type.
pub enum TypeBlock {
    Primitive { name: String },
    Path { path: String },
    AliasRef { alias: String },
    Constructor { name: String, slots: Vec<Option<TypeBlock>> },
    Tuple { slots: Vec<Option<TypeBlock>> },
    FnPointer { params: Vec<Option<TypeBlock>>, return_slot: Option<Box<TypeBlock>> },
}

/// Whether the block, or any block nested in it, still has an empty slot.
pub open spec fn has_empty_slot(b: TypeBlock) -> bool
    decreases b,
{
    match b {
        TypeBlock::Constructor { slots, .. } => any_slot_open(slots@),
        TypeBlock::Tuple { slots } => any_slot_open(slots@),
        TypeBlock::FnPointer { params, return_slot } => any_slot_open(params@) || match return_slot {
            None => true,
            Some(r) => has_empty_slot(*r),
        },
        _ => false,
    }
}

/// Whether some slot of the list is empty, or holds a block with an empty
/// slot.
pub open spec fn any_slot_open(slots: Seq<Option<TypeBlock>>) -> bool
    decreases slots,
{
    exists|i: int|
        0 <= i < slots.len() && match #[trigger] slots[i] {
            None => true,
            Some(child) => has_empty_slot(child),
        }
}

/// Whether `ast` is the type expression that the block tree `b` stands for.
pub open spec fn assembles_to(b: TypeBlock, ast: TypeAstNode) -> bool
    decreases b,
{
    match (b, ast) {
        (TypeBlock::Primitive { name }, TypeAstNode::Primitive { name: n }) => n@ == name@,
        (TypeBlock::Path { path }, TypeAstNode::Path { path: p }) => p@ == path@,
        (TypeBlock::AliasRef { alias }, TypeAstNode::AliasRef { alias: a }) => a@ == alias@,
        (TypeBlock::Constructor { name, slots }, TypeAstNode::Constructor { name: n, params }) =>
            n@ == name@ && slots_assemble(slots@, params@),
        (TypeBlock::Tuple { slots }, TypeAstNode::Tuple { elements }) => slots_assemble(
            slots@,
            elements@,
        ),
        (
            TypeBlock::FnPointer { params, return_slot },
            TypeAstNode::FnPointer { params: ps, return_type },
        ) => slots_assemble(params@, ps@) && match return_slot {
            None => false,
            Some(r) => assembles_to(*r, *return_type),
        },
        _ => false,
    }
}

/// Whether every slot of the list is filled, and the blocks in them stand,
/// in order, for `asts`.
pub open spec fn slots_assemble(slots: Seq<Option<TypeBlock>>, asts: Seq<TypeAstNode>) -> bool
    decreases slots,
{
    &&& asts.len() == slots.len()
    &&& forall|i: int|
        0 <= i < slots.len() ==> match #[trigger] slots[i] {
            None => false,
            Some(child) => assembles_to(child, asts[i]),
        }
}

/// Whether `b` is a block for the primitive type `name`.
pub open spec fn is_primitive_block(b: TypeBlock, name: Seq<char>) -> bool {
    b matches TypeBlock::Primitive { name: n } && n@ == name
}

/// Whether `b` is a block for the constructor `name` with `count` slots, all
/// of them empty.
pub open spec fn is_fresh_constructor_block(b: TypeBlock, name: Seq<char>, count: nat) -> bool {
    b matches TypeBlock::Constructor { name: n, slots } && n@ == name && slots@.len() == count
        && forall|i: int| 0 <= i < count ==> #[trigger] slots@[i] is None
}

/// Whether two type expressions are the same node for node, names compared
/// by their text.
pub open spec fn ast_equiv(a: TypeAstNode, b: TypeAstNode) -> bool
    decreases a,
{
    match (a, b) {
        (TypeAstNode::Primitive { name: x }, TypeAstNode::Primitive { name: y }) => x@ == y@,
        (TypeAstNode::Path { path: x }, TypeAstNode::Path { path: y }) => x@ == y@,
        (TypeAstNode::AliasRef { alias: x }, TypeAstNode::AliasRef { alias: y }) => x@ == y@,
        (
            TypeAstNode::Constructor { name: x, params: p },
            TypeAstNode::Constructor { name: y, params: q },
        ) => x@ == y@ && p@.len() == q@.len() && forall|i: int|
            0 <= i < p@.len() ==> ast_equiv(#[trigger] p@[i], q@[i]),
        (TypeAstNode::Tuple { elements: p }, TypeAstNode::Tuple { elements: q }) => p@.len()
            == q@.len() && forall|i: int| 0 <= i < p@.len() ==> ast_equiv(#[trigger] p@[i], q@[i]),
        (
            TypeAstNode::FnPointer { params: p, return_type: x },
            TypeAstNode::FnPointer { params: q, return_type: y },
        ) => p@.len() == q@.len() && (forall|i: int|
            0 <= i < p@.len() ==> ast_equiv(#[trigger] p@[i], q@[i])) && ast_equiv(*x, *y),
        _ => false,
    }
}

impl BlockId {
    /// A copy of this id.
    pub fn duplicate(&self) -> (r: BlockId)
        ensures
            r == *self,
    {
        BlockId(self.0.clone())
    }
}

/// The type expressions the blocks of a slot list stand for; `None` while
/// any slot, at any depth, is empty.
fn slots_to_asts(slots: &Vec<Option<TypeBlock>>) -> (r: Option<Vec<TypeAstNode>>)
    ensures
        r is None <==> any_slot_open(slots@),
        r matches Some(v) ==> slots_assemble(slots@, v@),
    decreases slots,
{
    let mut out: Vec<TypeAstNode> = Vec::new();
    let mut i: usize = 0;
    while i < slots.len()
        invariant
            i <= slots@.len(),
            out@.len() == i,
            forall|j: int|
                0 <= j < i ==> match #[trigger] slots@[j] {
                    None => false,
                    Some(child) => !has_empty_slot(child) && assembles_to(child, out@[j]),
                },
        decreases slots@.len() - i,
    {
        match &slots[i] {
            None => {
                assert(match slots@[i as int] {
                    None => true,
                    Some(child) => has_empty_slot(child),
                });
                return None;
            },
            Some(child) => {
                proof {
                    assert(decreases_to!(*slots => slots[i as int]));
                    assert(decreases_to!(slots[i as int] => *child));
                }
                match child.to_ast() {
                    None => {
                        assert(match slots@[i as int] {
                            None => true,
                            Some(child) => has_empty_slot(child),
                        });
                        return None;
                    },
                    Some(a) => {
                        out.push(a);
                    },
                }
            },
        }
        i = i + 1;
    }
    Some(out)
}

/// A slot list holding, in order, the block trees for `asts`.
fn asts_to_slots(asts: &Vec<TypeAstNode>) -> (r: Vec<Option<TypeBlock>>)
    ensures
        slots_assemble(r@, asts@),
        !any_slot_open(r@),
    decreases asts,
{
    let mut slots: Vec<Option<TypeBlock>> = Vec::new();
    let mut i: usize = 0;
    while i < asts.len()
        invariant
            i <= asts@.len(),
            slots@.len() == i,
            forall|j: int|
                0 <= j < i ==> match #[trigger] slots@[j] {
                    None => false,
                    Some(child) => !has_empty_slot(child) && assembles_to(child, asts@[j]),
                },
        decreases asts@.len() - i,
    {
        proof {
            assert(decreases_to!(*asts => asts[i as int]));
        }
        slots.push(Some(TypeBlock::from_ast(&asts[i])));
        i = i + 1;
    }
    slots
}

impl TypeBlock {
    /// A block for the primitive type `name`.
    pub fn primitive(name: &str) -> (r: TypeBlock)
        ensures
            is_primitive_block(r, name@),
    {
        TypeBlock::Primitive { name: String::from_str(name) }
    }

    /// A block for the constructor `name`, with `params_count` empty slots.
    pub fn constructor(name: &str, params_count: usize) -> (r: TypeBlock)
        ensures
            is_fresh_constructor_block(r, name@, params_count as nat),
    {
        let mut slots: Vec<Option<TypeBlock>> = Vec::new();
        let mut i: usize = 0;
        while i < params_count
            invariant
                i <= params_count,
                slots@.len() == i,
                forall|j: int| 0 <= j < i ==> #[trigger] slots@[j] is None,
            decreases params_count - i,
        {
            slots.push(None);
            i = i + 1;
        }
        TypeBlock::Constructor { name: String::from_str(name), slots }
    }

    /// The block tree for `ast`, with every slot filled.
    pub fn from_ast(ast: &TypeAstNode) -> (r: TypeBlock)
        ensures
            assembles_to(r, *ast),
            !has_empty_slot(r),
        decreases ast,
    {
        match ast {
            TypeAstNode::Primitive { name } => TypeBlock::Primitive { name: name.clone() },
            TypeAstNode::Path { path } => TypeBlock::Path { path: path.clone() },
            TypeAstNode::AliasRef { alias } => TypeBlock::AliasRef { alias: alias.clone() },
            TypeAstNode::Constructor { name, params } => {
                proof {
                    assert(decreases_to!(*ast => *params));
                }
                TypeBlock::Constructor { name: name.clone(), slots: asts_to_slots(params) }
            },
            TypeAstNode::Tuple { elements } => {
                proof {
                    assert(decreases_to!(*ast => *elements));
                }
                TypeBlock::Tuple { slots: asts_to_slots(elements) }
            },
            TypeAstNode::FnPointer { params, return_type } => {
                proof {
                    assert(decreases_to!(*ast => *params));
                    assert(decreases_to!(*ast => *return_type));
                }
                let ret = TypeBlock::from_ast(&**return_type);
                TypeBlock::FnPointer {
                    params: asts_to_slots(params),
                    return_slot: Some(Box::new(ret)),
                }
            },
        }
    }

    /// The type expression this block tree stands for; `None` while any slot,
    /// at any depth, is empty.
    pub fn to_ast(&self) -> (r: Option<TypeAstNode>)
        ensures
            r is None <==> has_empty_slot(*self),
            r matches Some(ast) ==> assembles_to(*self, ast),
        decreases self,
    {
        match self {
            TypeBlock::Primitive { name } => Some(TypeAstNode::Primitive { name: name.clone() }),
            TypeBlock::Path { path } => Some(TypeAstNode::Path { path: path.clone() }),
            TypeBlock::AliasRef { alias } => Some(TypeAstNode::AliasRef { alias: alias.clone() }),
            TypeBlock::Constructor { name, slots } => {
                proof {
                    assert(decreases_to!(*self => *slots));
                }
                match slots_to_asts(slots) {
                    None => None,
                    Some(params) => Some(TypeAstNode::Constructor { name: name.clone(), params }),
                }
            },
            TypeBlock::Tuple { slots } => {
                proof {
                    assert(decreases_to!(*self => *slots));
                }
                match slots_to_asts(slots) {
                    None => None,
                    Some(elements) => Some(TypeAstNode::Tuple { elements }),
                }
            },
            TypeBlock::FnPointer { params, return_slot } => {
                proof {
                    assert(decreases_to!(*self => *params));
                }
                match slots_to_asts(params) {
                    None => None,
                    Some(ps) => match return_slot {
                        None => None,
                        Some(r) => {
                            proof {
                                assert(decreases_to!(*self => *return_slot));
                                assert(decreases_to!(*return_slot => *r));
                            }
                            match r.to_ast() {
                                None => None,
                                Some(ret) => Some(
                                    TypeAstNode::FnPointer { params: ps, return_type: Box::new(ret) },
                                ),
                            }
                        },
                    },
                }
            },
        }
    }
}

/// A block tree stands for one type expression only. So the expression that
/// `to_ast` gives for a tree made by `from_ast` matches, node for node, the
/// one the tree was made from.
pub proof fn lemma_assembled_expression_unique(ast: TypeAstNode, b: TypeBlock, back: TypeAstNode)
    requires
        assembles_to(b, ast),
        assembles_to(b, back),
    ensures
        ast_equiv(ast, back),
    decreases b,
{
    match b {
        TypeBlock::Constructor { slots, .. } => {
            lemma_slots_unique(ast->Constructor_params@, slots, back->Constructor_params@);
        },
        TypeBlock::Tuple { slots } => {
            lemma_slots_unique(ast->Tuple_elements@, slots, back->Tuple_elements@);
        },
        TypeBlock::FnPointer { params, return_slot } => {
            lemma_slots_unique(ast->FnPointer_params@, params, back->FnPointer_params@);
            assert(decreases_to!(b => return_slot));
            let r = return_slot->Some_0;
            lemma_assembled_expression_unique(
                *ast->FnPointer_return_type,
                *r,
                *back->FnPointer_return_type,
            );
        },
        _ => {},
    }
}

/// A filled slot list stands for one list of type expressions only.
proof fn lemma_slots_unique(p: Seq<TypeAstNode>, slots: Vec<Option<TypeBlock>>, q: Seq<TypeAstNode>)
    requires
        slots_assemble(slots@, p),
        slots_assemble(slots@, q),
    ensures
        p.len() == q.len(),
        forall|i: int| 0 <= i < p.len() ==> ast_equiv(#[trigger] p[i], q[i]),
    decreases slots,
{
    assert forall|i: int| 0 <= i < p.len() implies ast_equiv(#[trigger] p[i], q[i]) by {
        assert(decreases_to!(slots => slots[i]));
        let child = slots@[i]->Some_0;
        lemma_assembled_expression_unique(p[i], child, q[i]);
    }
}

} // verus!
