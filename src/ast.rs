use vstd::prelude::*;
use vstd::string::*;

verus! {

broadcast use vstd::std_specs::vec::group_vec_axioms, vstd::seq::group_seq_axioms;

/// A type expression, as assembled from a finished block tree.
pub enum TypeAstNode {
    Primitive { name: String },
    Path { path: String },
    AliasRef { alias: String },
    Constructor { name: String, params: Vec<TypeAstNode> },
    Tuple { elements: Vec<TypeAstNode> },
    FnPointer { params: Vec<TypeAstNode>, return_type: Box<TypeAstNode> },
}

/// The separator placed between the members of a parameter list.
pub open spec fn list_sep() -> Seq<char> {
    seq![',', ' ']
}

/// The texts of `parts`, in order, with a separator between neighbours.
pub open spec fn join_texts(parts: Seq<Seq<char>>) -> Seq<char>
    decreases parts.len(),
{
    if parts.len() == 0 {
        Seq::empty()
    } else if parts.len() == 1 {
        parts[0]
    } else {
        join_texts(parts.drop_last()) + list_sep() + parts.last()
    }
}

/// The source text of each node of `nodes`, in order.
pub open spec fn texts_of(nodes: Seq<TypeAstNode>) -> Seq<Seq<char>>
    decreases nodes,
{
    if nodes.len() == 0 {
        Seq::empty()
    } else {
        texts_of(nodes.drop_last()).push(rust_text(nodes.last()))
    }
}

/// The comma-separated source text of a list of type expressions.
pub open spec fn list_text(nodes: Seq<TypeAstNode>) -> Seq<char> {
    join_texts(texts_of(nodes))
}

/// How a type expression is written in Rust source.
pub open spec fn rust_text(ast: TypeAstNode) -> Seq<char>
    decreases ast,
{
    match ast {
        TypeAstNode::Primitive { name } => name@,
        TypeAstNode::Path { path } => path@,
        TypeAstNode::AliasRef { alias } => alias@,
        TypeAstNode::Constructor { name, params } =>
            name@ + seq!['<'] + join_texts(texts_of(params@)) + seq!['>'],
        TypeAstNode::Tuple { elements } =>
            seq!['('] + join_texts(texts_of(elements@)) + seq![')'],
        TypeAstNode::FnPointer { params, return_type } =>
            seq!['f', 'n', '('] + join_texts(texts_of(params@)) + seq![')', ' ', '-', '>', ' ']
                + rust_text(*return_type),
    }
}

/// Writes a list of type expressions separated by ", ".
fn list_to_rust_string(nodes: &Vec<TypeAstNode>) -> (r: String)
    ensures
        r@ == list_text(nodes@),
    decreases nodes,
{
    let mut acc = String::new();
    let mut i: usize = 0;
    while i < nodes.len()
        invariant
            i <= nodes@.len(),
            acc@ == join_texts(texts_of(nodes@.subrange(0, i as int))),
        decreases nodes@.len() - i,
    {
        let part = ast_to_rust_string(&nodes[i]);
        let ghost prev = nodes@.subrange(0, i as int);
        let ghost next = nodes@.subrange(0, i + 1);
        proof {
            assert(next.drop_last() =~= prev);
            assert(texts_of(next) == texts_of(prev).push(rust_text(nodes@[i as int])));
            assert(texts_of(next).drop_last() =~= texts_of(prev));
        }
        if i > 0 {
            acc.append(", ");
            proof {
                reveal_strlit(", ");
            }
        }
        acc.append(part.as_str());
        i = i + 1;
    }
    assert(nodes@.subrange(0, nodes@.len() as int) =~= nodes@);
    acc
}

/// Writes a type expression as Rust source text: primitives, paths and alias
/// references as their names, `Name<A, B>` for constructors, `(A, B)` for
/// tuples and `fn(A, B) -> R` for function pointers.
pub fn ast_to_rust_string(ast: &TypeAstNode) -> (r: String)
    ensures
        r@ == rust_text(*ast),
    decreases ast,
{
    match ast {
        TypeAstNode::Primitive { name } => name.clone(),
        TypeAstNode::Path { path } => path.clone(),
        TypeAstNode::AliasRef { alias } => alias.clone(),
        TypeAstNode::Constructor { name, params } => {
            let inner = list_to_rust_string(params);
            let mut s = name.clone();
            s.append("<");
            s.append(inner.as_str());
            s.append(">");
            proof {
                reveal_strlit("<");
                reveal_strlit(">");
            }
            s
        },
        TypeAstNode::Tuple { elements } => {
            let inner = list_to_rust_string(elements);
            let mut s = String::from_str("(");
            s.append(inner.as_str());
            s.append(")");
            proof {
                reveal_strlit("(");
                reveal_strlit(")");
            }
            s
        },
        TypeAstNode::FnPointer { params, return_type } => {
            let inner = list_to_rust_string(params);
            let ret = ast_to_rust_string(return_type);
            let mut s = String::from_str("fn(");
            s.append(inner.as_str());
            s.append(") -> ");
            s.append(ret.as_str());
            proof {
                reveal_strlit("fn(");
                reveal_strlit(") -> ");
            }
            s
        },
    }
}

} // verus!
