use ui_alias_editor::ast::TypeAstNode;
use ui_alias_editor::block::{BlockId, TypeBlock};
use ui_alias_editor::editor::{
    generate_preview_code, heading, placement_for, prepare_save, preview_text, title,
    click_action, AliasAsset, AliasDocument, ClickAction, Placement, PlacementState, SaveError,
};
use ui_alias_editor::ast::ast_to_rust_string;

fn option_of_i32() -> TypeBlock {
    TypeBlock::Constructor {
        name: "Option".to_string(),
        slots: vec![Some(TypeBlock::primitive("i32"))],
    }
}

#[test]
fn preview_code_is_exact() {
    let ast = TypeAstNode::Constructor {
        name: "Vec".to_string(),
        params: vec![TypeAstNode::Primitive { name: "u8".to_string() }],
    };
    assert_eq!(
        generate_preview_code("Bytes", &ast),
        "// Auto-generated Rust type alias\npub type Bytes = Vec<u8>;\n\n// Usage example:\n// let value: Bytes = ...;"
    );
}

#[test]
fn preview_hints() {
    assert_eq!(preview_text("X", None), "// Click to add a type or use the Add Type button");
    let open = TypeBlock::constructor("Option", 1);
    assert_eq!(preview_text("X", Some(&open)), "// Fill all slots to see generated code");
    let full = option_of_i32();
    assert_eq!(
        preview_text("MaybeInt", Some(&full)),
        "// Auto-generated Rust type alias\npub type MaybeInt = Option<i32>;\n\n// Usage example:\n// let value: MaybeInt = ...;"
    );
}

#[test]
fn heading_and_title() {
    assert_eq!(heading(""), "New Type Alias");
    assert_eq!(heading("UserId"), "UserId");
    assert_eq!(title(""), "\u{1F517} New Type Alias");
    assert_eq!(title("UserId"), "\u{1F517} UserId");
}

#[test]
fn save_refuses_empty_canvas() {
    let r = prepare_save("a", "A", "", None);
    assert_eq!(r.err(), Some(SaveError::EmptyType));
    assert_eq!(SaveError::EmptyType.message(), "Cannot save empty type");
}

#[test]
fn save_refuses_open_slots() {
    let open = TypeBlock::constructor("Result", 2);
    let r = prepare_save("a", "A", "", Some(&open));
    assert_eq!(r.err(), Some(SaveError::EmptySlots));
    assert_eq!(
        SaveError::EmptySlots.message(),
        "Type has empty slots - fill all slots before saving"
    );
}

#[test]
fn save_builds_the_asset() {
    let full = option_of_i32();
    let a = prepare_save("maybe_int", "MaybeInt", "An optional integer", Some(&full))
        .ok()
        .expect("complete tree saves");
    assert_eq!(a.schema_version, 1);
    assert_eq!(a.name, "maybe_int");
    assert_eq!(a.display_name, "MaybeInt");
    assert_eq!(a.description, Some("An optional integer".to_string()));
    assert_eq!(ast_to_rust_string(&a.ast), "Option<i32>");
    let b = prepare_save("n", "N", "", Some(&full)).ok().expect("complete tree saves");
    assert_eq!(b.description, None);
}

#[test]
fn placement_rules() {
    assert_eq!(placement_for(false, &None), Placement::AsRoot);
    assert_eq!(
        placement_for(false, &Some((BlockId("b1".to_string()), 0))),
        Placement::AsRoot
    );
    assert_eq!(placement_for(true, &None), Placement::Pending);
    assert_eq!(
        placement_for(true, &Some((BlockId("b1".to_string()), 2))),
        Placement::IntoSlot(BlockId("b1".to_string()), 2)
    );
}

#[test]
fn blank_and_failed_documents() {
    let d = AliasDocument::blank();
    assert_eq!(d.name, "");
    assert_eq!(d.display_name, "New Alias");
    assert!(d.root.is_none());
    assert!(d.error_message.is_none());
    let f = AliasDocument::parse_failed("expected value at line 1 column 1");
    assert_eq!(
        f.error_message,
        Some("Failed to parse: expected value at line 1 column 1".to_string())
    );
    assert_eq!(f.display_name, "New Alias");
}

#[test]
fn document_from_asset() {
    let asset = AliasAsset {
        schema_version: 1,
        name: "ids".to_string(),
        display_name: "Ids".to_string(),
        description: None,
        ast: TypeAstNode::Constructor {
            name: "Vec".to_string(),
            params: vec![TypeAstNode::Primitive { name: "u64".to_string() }],
        },
    };
    let d = AliasDocument::from_asset(&asset);
    assert_eq!(d.name, "ids");
    assert_eq!(d.display_name, "Ids");
    assert_eq!(d.description, "");
    assert!(d.error_message.is_none());
    let root = d.root.expect("block form exists");
    assert!(preview_text("Ids", Some(&root)).contains("pub type Ids = Vec<u64>;"));

    let tuple = AliasAsset {
        schema_version: 1,
        name: "pair".to_string(),
        display_name: "Pair".to_string(),
        description: Some("Two ints".to_string()),
        ast: TypeAstNode::Tuple {
            elements: vec![
                TypeAstNode::Primitive { name: "i32".to_string() },
                TypeAstNode::Primitive { name: "i32".to_string() },
            ],
        },
    };
    let t = AliasDocument::from_asset(&tuple);
    assert_eq!(t.description, "Two ints");
    assert!(t.error_message.is_none());
    let root = t.root.expect("every type has a block form");
    assert!(preview_text("Pair", Some(&root)).contains("pub type Pair = (i32, i32);"));
}

#[test]
fn click_routing() {
    assert_eq!(click_action(BlockId(String::new()), 0), ClickAction::PickRoot);
    assert_eq!(
        click_action(BlockId("b3".to_string()), 1),
        ClickAction::SelectSlot(BlockId("b3".to_string()), 1)
    );
}

#[test]
fn pending_block_goes_to_selected_slot() {
    let mut st = PlacementState::new();
    assert!(!st.preview_needs_update);
    st.hold_pending(TypeBlock::primitive("i32"));
    assert_eq!(
        st.error_message.as_deref(),
        Some("Click on an empty slot to place this type")
    );
    assert!(st.preview_needs_update);
    let handed = st.select_slot(BlockId("b1".to_string()), 0);
    assert!(handed.is_some());
    assert!(st.pending_block.is_none());
    assert_eq!(st.selected_slot, Some((BlockId("b1".to_string()), 0)));
    st.filled_selected_slot(true);
    assert!(st.selected_slot.is_none());
    assert!(st.error_message.is_none());
}

#[test]
fn failed_fill_keeps_selection() {
    let mut st = PlacementState::new();
    assert!(st.select_slot(BlockId("b2".to_string()), 3).is_none());
    st.filled_selected_slot(false);
    assert_eq!(st.error_message.as_deref(), Some("Failed to fill slot"));
    assert_eq!(st.selected_slot, Some((BlockId("b2".to_string()), 3)));
    st.filled_target_slot(false);
    assert_eq!(st.error_message.as_deref(), Some("Failed to fill slot"));
    st.hold_pending(TypeBlock::primitive("u8"));
    st.filled_target_slot(true);
    assert!(st.selected_slot.is_none());
    assert!(st.error_message.is_none());
    assert!(st.pending_block.is_some());
    st.placed_as_root();
    assert!(st.pending_block.is_none());
}

#[test]
fn add_block_on_empty_canvas_sets_root() {
    let mut st = PlacementState::new();
    let mut root: Option<TypeBlock> = None;
    let handed = st.add_block(&mut root, TypeBlock::primitive("u32"));
    assert!(handed.is_none());
    assert!(preview_text("N", root.as_ref()).contains("pub type N = u32;"));
    assert!(st.error_message.is_none());
    assert!(st.preview_needs_update);
}

#[test]
fn add_block_with_selected_slot_hands_it_back() {
    let mut st = PlacementState::new();
    let mut root = Some(TypeBlock::constructor("Option", 1));
    assert!(st.select_slot(BlockId("b9".to_string()), 0).is_none());
    let (id, i, block) = st
        .add_block(&mut root, TypeBlock::primitive("u8"))
        .expect("a slot is selected");
    assert_eq!(id, BlockId("b9".to_string()));
    assert_eq!(i, 0);
    assert!(preview_text("X", Some(&block)).contains("pub type X = u8;"));
    assert!(root.as_ref().map(|r| r.to_ast().is_none()).unwrap_or(false));
}

#[test]
fn add_block_without_slot_waits() {
    let mut st = PlacementState::new();
    let mut root = Some(TypeBlock::constructor("Option", 1));
    assert!(st.add_block(&mut root, TypeBlock::primitive("u8")).is_none());
    assert!(st.pending_block.is_some());
    assert_eq!(
        st.error_message.as_deref(),
        Some("Click on an empty slot to place this type")
    );
}
