use ui_alias_editor::ast::{ast_to_rust_string, TypeAstNode};

fn prim(name: &str) -> TypeAstNode {
    TypeAstNode::Primitive { name: name.to_string() }
}

fn ctor(name: &str, params: Vec<TypeAstNode>) -> TypeAstNode {
    TypeAstNode::Constructor { name: name.to_string(), params }
}

#[test]
fn primitive_is_written_as_its_name() {
    assert_eq!(ast_to_rust_string(&prim("i32")), "i32");
}

#[test]
fn path_and_alias_are_written_as_given() {
    let p = TypeAstNode::Path { path: "std::path::PathBuf".to_string() };
    let a = TypeAstNode::AliasRef { alias: "UserId".to_string() };
    assert_eq!(ast_to_rust_string(&p), "std::path::PathBuf");
    assert_eq!(ast_to_rust_string(&a), "UserId");
}

#[test]
fn constructor_lists_params_in_angle_brackets() {
    assert_eq!(ast_to_rust_string(&ctor("Vec", vec![prim("i32")])), "Vec<i32>");
    let map = ctor("HashMap", vec![prim("String"), ctor("Vec", vec![prim("u8")])]);
    assert_eq!(ast_to_rust_string(&map), "HashMap<String, Vec<u8>>");
}

#[test]
fn constructor_without_params_keeps_brackets() {
    assert_eq!(ast_to_rust_string(&ctor("Marker", vec![])), "Marker<>");
}

#[test]
fn tuple_is_parenthesised() {
    let t = TypeAstNode::Tuple { elements: vec![prim("i32"), prim("bool"), prim("char")] };
    assert_eq!(ast_to_rust_string(&t), "(i32, bool, char)");
    assert_eq!(ast_to_rust_string(&TypeAstNode::Tuple { elements: vec![] }), "()");
}

#[test]
fn fn_pointer_has_params_and_return() {
    let f = TypeAstNode::FnPointer {
        params: vec![prim("i32"), ctor("Option", vec![prim("bool")])],
        return_type: Box::new(prim("String")),
    };
    assert_eq!(ast_to_rust_string(&f), "fn(i32, Option<bool>) -> String");
    let g = TypeAstNode::FnPointer {
        params: vec![],
        return_type: Box::new(TypeAstNode::Tuple { elements: vec![] }),
    };
    assert_eq!(ast_to_rust_string(&g), "fn() -> ()");
}
