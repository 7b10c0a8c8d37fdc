use ui_alias_editor::block::BlockId;
use ui_alias_editor::palette::{TypeConstructorEntry, TypeItem, TypeLibraryPalette};

fn entry(name: &str, category: &str, params_count: usize) -> TypeConstructorEntry {
    TypeConstructorEntry {
        name: name.to_string(),
        category: category.to_string(),
        params_count,
        description: format!("{} type", name),
    }
}

fn names(items: &[TypeItem]) -> Vec<String> {
    items.iter().map(|i| i.name().to_string()).collect()
}

#[test]
fn categories_are_grouped_and_sorted() {
    let prims = vec!["i32".to_string(), "bool".to_string()];
    let ctors = vec![
        entry("Vec", "Collections", 1),
        entry("Option", "Core", 1),
        entry("HashMap", "Collections", 2),
        entry("Arc", "Pointers", 1),
        entry("Result", "Core", 2),
    ];
    let palette = TypeLibraryPalette::new(&prims, &ctors, None);
    let cats = palette.categories();
    let labels: Vec<&str> = cats.iter().map(|(l, _)| l.as_str()).collect();
    assert_eq!(labels, vec!["Primitives", "Collections", "Core", "Pointers"]);
    assert_eq!(names(&cats[0].1), vec!["i32", "bool"]);
    assert_eq!(names(&cats[1].1), vec!["Vec", "HashMap"]);
    assert_eq!(names(&cats[2].1), vec!["Option", "Result"]);
    assert_eq!(names(&cats[3].1), vec!["Arc"]);
    assert_eq!(
        cats[1].1[1],
        TypeItem::Constructor {
            name: "HashMap".to_string(),
            params_count: 2,
            description: "HashMap type".to_string(),
        }
    );
}

#[test]
fn empty_registry_lists_primitives_only() {
    let palette = TypeLibraryPalette::new(&vec![], &vec![], None);
    let cats = palette.categories();
    assert_eq!(cats.len(), 1);
    assert_eq!(cats[0].0, "Primitives");
    assert!(cats[0].1.is_empty());
}

#[test]
fn category_order_is_by_code_point() {
    let ctors = vec![
        entry("A", "maps", 1),
        entry("B", "Map", 1),
        entry("C", "Maps", 1),
        entry("D", "Zeta", 1),
        entry("E", "Map", 1),
    ];
    let palette = TypeLibraryPalette::new(&vec![], &ctors, None);
    let labels: Vec<String> = palette.categories().into_iter().map(|(l, _)| l).collect();
    assert_eq!(labels, vec!["Primitives", "Map", "Maps", "Zeta", "maps"]);
}

#[test]
fn confirm_then_take() {
    let mut palette = TypeLibraryPalette::new(&vec!["i32".to_string()], &vec![], None);
    assert_eq!(palette.take_selected_item(), None);
    let item = TypeItem::Primitive("i32".to_string());
    palette.confirm(&item);
    palette.confirm(&TypeItem::Primitive("u8".to_string()));
    assert_eq!(palette.take_selected_item(), Some(TypeItem::Primitive("u8".to_string())));
    assert_eq!(palette.take_selected_item(), None);
}

#[test]
fn target_slot_is_kept() {
    let slot = Some((BlockId("block-7".to_string()), 1usize));
    let palette = TypeLibraryPalette::new(&vec![], &vec![], slot.clone());
    assert_eq!(palette.target_slot(), slot);
    let none = TypeLibraryPalette::new(&vec![], &vec![], None);
    assert_eq!(none.target_slot(), None);
}

#[test]
fn item_names_and_descriptions() {
    let p = TypeItem::Primitive("f64".to_string());
    assert_eq!(p.name(), "f64");
    assert_eq!(p.description(), "Primitive type");
    let c = TypeItem::Constructor {
        name: "Box".to_string(),
        params_count: 1,
        description: "Heap allocation".to_string(),
    };
    assert_eq!(c.name(), "Box");
    assert_eq!(c.description(), "Heap allocation");
}

#[test]
fn palette_settings() {
    let palette = TypeLibraryPalette::new(&vec![], &vec![], None);
    assert_eq!(palette.placeholder(), "Search for types...");
    assert!(palette.categories_collapsed_by_default());
    assert!(!palette.supports_docs());
}
