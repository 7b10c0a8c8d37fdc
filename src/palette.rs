use vstd::prelude::*;
use vstd::string::*;
use crate::block::{BlockId, TypeBlock, is_primitive_block, is_fresh_constructor_block};
use crate::text_order::{text_lt, text_less, lemma_text_lt_total, lemma_text_lt_transitive};

verus! {

broadcast use vstd::std_specs::vec::group_vec_axioms, vstd::seq::group_seq_axioms;

/// An entry of the type library: a primitive type, or a type constructor
/// with its number of type parameters.
#[derive(Clone, Debug, PartialEq, Eq)]
pub enum TypeItem {
    Primitive(String),
    Constructor { name: String, params_count: usize, description: String },
}

/// One entry of the registry of type constructors.
#[derive(Clone, Debug)]
pub struct TypeConstructorEntry {
    pub name: String,
    pub category: String,
    pub params_count: usize,
    pub description: String,
}

/// The name under which an item is listed.
pub open spec fn item_name(item: TypeItem) -> Seq<char> {
    match item {
        TypeItem::Primitive(name) => name@,
        TypeItem::Constructor { name, .. } => name@,
    }
}

/// The description shown beside a primitive type.
pub open spec fn primitive_description() -> Seq<char> {
    "Primitive type"@
}

/// The description shown beside an item.
pub open spec fn item_description(item: TypeItem) -> Seq<char> {
    match item {
        TypeItem::Primitive(_) => primitive_description(),
        TypeItem::Constructor { description, .. } => description@,
    }
}

/// The label of the category that lists the primitive types.
pub open spec fn primitives_label() -> Seq<char> {
    "Primitives"@
}

/// The item that lists a registry entry.
pub open spec fn constructor_item(c: TypeConstructorEntry) -> TypeItem {
    TypeItem::Constructor { name: c.name, params_count: c.params_count, description: c.description }
}

/// The items listing the primitive types, in order.
pub open spec fn primitive_items(prims: Seq<String>) -> Seq<TypeItem> {
    prims.map_values(|p: String| TypeItem::Primitive(p))
}

/// The items of the registry entries of category `cat`, in registry order.
pub open spec fn category_items(ctors: Seq<TypeConstructorEntry>, cat: Seq<char>) -> Seq<TypeItem>
    decreases ctors.len(),
{
    if ctors.len() == 0 {
        Seq::empty()
    } else {
        let rest = category_items(ctors.drop_last(), cat);
        if ctors.last().category@ == cat {
            rest.push(constructor_item(ctors.last()))
        } else {
            rest
        }
    }
}

/// Whether one of the first `n` entries of `ctors` has category `name`.
pub open spec fn has_category(ctors: Seq<TypeConstructorEntry>, n: int, name: Seq<char>) -> bool {
    exists|j: int| 0 <= j < n && (#[trigger] ctors[j]).category@ == name
}

/// Whether `name` is one of `names`.
pub open spec fn lists_name(names: Seq<String>, name: Seq<char>) -> bool {
    exists|k: int| 0 <= k < names.len() && (#[trigger] names[k])@ == name
}

/// Whether one of the categories after the first is labelled `name`.
pub open spec fn lists_category(cats: Seq<(String, Vec<TypeItem>)>, name: Seq<char>) -> bool {
    exists|k: int| 1 <= k < cats.len() && (#[trigger] cats[k]).0@ == name
}

/// Each text comes strictly before the next.
pub open spec fn strictly_sorted(s: Seq<String>) -> bool {
    forall|a: int, b: int| 0 <= a < b < s.len() ==> text_lt(#[trigger] s[a]@, #[trigger] s[b]@)
}

/// The layout of the palette's categories: first the primitive types, then
/// one category per distinct registry category, ordered by name, each
/// listing its entries in registry order.
pub open spec fn grouped(
    cats: Seq<(String, Vec<TypeItem>)>,
    prims: Seq<String>,
    ctors: Seq<TypeConstructorEntry>,
) -> bool {
    &&& cats.len() >= 1
    &&& cats[0].0@ == primitives_label()
    &&& cats[0].1@ == primitive_items(prims)
    &&& forall|k: int, l: int|
        1 <= k < l < cats.len() ==> text_lt(#[trigger] cats[k].0@, #[trigger] cats[l].0@)
    &&& forall|k: int|
        1 <= k < cats.len() ==> has_category(ctors, ctors.len() as int, (#[trigger] cats[k]).0@)
    &&& forall|i: int| 0 <= i < ctors.len() ==> lists_category(cats, (#[trigger] ctors[i]).category@)
    &&& forall|k: int|
        1 <= k < cats.len() ==> (#[trigger] cats[k]).1@ == category_items(ctors, cats[k].0@)
}

/// An exact copy of an item.
fn copy_item(item: &TypeItem) -> (r: TypeItem)
    ensures
        r == *item,
{
    match item {
        TypeItem::Primitive(name) => TypeItem::Primitive(name.clone()),
        TypeItem::Constructor { name, params_count, description } => TypeItem::Constructor {
            name: name.clone(),
            params_count: *params_count,
            description: description.clone(),
        },
    }
}

/// An exact copy of a target slot.
fn copy_slot(slot: &Option<(BlockId, usize)>) -> (r: Option<(BlockId, usize)>)
    ensures
        r == *slot,
{
    match slot {
        None => None,
        Some((id, index)) => Some((id.duplicate(), *index)),
    }
}

/// Inserts `cat` into a strictly sorted list of names, unless it is there.
fn insert_sorted(names: &mut Vec<String>, cat: &String)
    requires
        strictly_sorted(old(names)@),
    ensures
        strictly_sorted(final(names)@),
        lists_name(final(names)@, cat@),
        forall|m: int|
            0 <= m < old(names)@.len() ==> lists_name(final(names)@, (#[trigger] old(names)@[m])@),
        forall|k: int|
            0 <= k < final(names)@.len() ==> (#[trigger] final(names)@[k])@ == cat@ || lists_name(
                old(names)@,
                final(names)@[k]@,
            ),
{
    let ghost start = names@;
    let mut p: usize = 0;
    let mut at_place = false;
    while !at_place && p < names.len()
        invariant
            names@ == start,
            strictly_sorted(start),
            p <= names@.len(),
            forall|q: int| 0 <= q < p ==> text_lt(#[trigger] names@[q]@, cat@),
            at_place ==> p < names@.len() && !text_lt(names@[p as int]@, cat@),
        decreases names@.len() - p + (if at_place {
            0int
        } else {
            1int
        }),
    {
        if text_less(names[p].as_str(), cat.as_str()) {
            p = p + 1;
        } else {
            at_place = true;
        }
    }
    if p < names.len() && names[p] == *cat {
        assert(lists_name(names@, cat@)) by {
            assert(names@[p as int]@ == cat@);
        }
        assert forall|m: int| 0 <= m < start.len() implies lists_name(
            names@,
            (#[trigger] start[m])@,
        ) by {
            assert(names@[m] == start[m]);
        }
        assert forall|k: int| 0 <= k < names@.len() implies (#[trigger] names@[k])@ == cat@
            || lists_name(start, names@[k]@) by {
            assert(start[k] == names@[k]);
        }
        return;
    }
    proof {
        assert forall|q: int| p <= q < start.len() implies text_lt(cat@, #[trigger] start[q]@) by {
            lemma_text_lt_total(start[p as int]@, cat@);
            if q > p {
                assert(text_lt(start[p as int]@, start[q]@));
                lemma_text_lt_transitive(cat@, start[p as int]@, start[q]@);
            }
        }
    }
    names.insert(p, cat.clone());
    proof {
        let fin = names@;
        assert(fin =~= start.insert(p as int, *cat));
        assert forall|a: int, b: int| 0 <= a < b < fin.len() implies text_lt(
            #[trigger] fin[a]@,
            #[trigger] fin[b]@,
        ) by {
            if b < p {
                assert(text_lt(start[a]@, start[b]@));
            } else if a > p {
                assert(text_lt(start[a - 1]@, start[b - 1]@));
            } else if a == p {
                assert(fin[b] == start[b - 1]);
            } else if b == p {
                assert(fin[a] == start[a]);
            } else {
                assert(text_lt(start[a]@, start[p as int]@));
                assert(text_lt(cat@, start[p as int]@));
                assert(text_lt(start[p as int]@, start[b - 1]@) || p == b - 1);
                lemma_text_lt_transitive(start[a]@, cat@, start[b - 1]@);
            }
        }
        assert(fin[p as int]@ == cat@);
        assert forall|m: int| 0 <= m < start.len() implies lists_name(
            fin,
            (#[trigger] start[m])@,
        ) by {
            if m < p {
                assert(fin[m] == start[m]);
            } else {
                assert(fin[m + 1] == start[m]);
            }
        }
        assert forall|k: int| 0 <= k < fin.len() implies (#[trigger] fin[k])@ == cat@ || lists_name(
            start,
            fin[k]@,
        ) by {
            if k < p {
                assert(start[k] == fin[k]);
            } else if k > p {
                assert(start[k - 1] == fin[k]);
            }
        }
    }
}

/// The distinct categories of the registry, strictly sorted by name.
fn sorted_categories(ctors: &Vec<TypeConstructorEntry>) -> (names: Vec<String>)
    ensures
        strictly_sorted(names@),
        forall|k: int|
            0 <= k < names@.len() ==> has_category(
                ctors@,
                ctors@.len() as int,
                (#[trigger] names@[k])@,
            ),
        forall|i: int| 0 <= i < ctors@.len() ==> lists_name(names@, (#[trigger] ctors@[i]).category@),
{
    let mut names: Vec<String> = Vec::new();
    let mut i: usize = 0;
    while i < ctors.len()
        invariant
            i <= ctors@.len(),
            strictly_sorted(names@),
            forall|k: int|
                0 <= k < names@.len() ==> has_category(ctors@, i as int, (#[trigger] names@[k])@),
            forall|j: int| 0 <= j < i ==> lists_name(names@, (#[trigger] ctors@[j]).category@),
        decreases ctors@.len() - i,
    {
        let ghost before = names@;
        insert_sorted(&mut names, &ctors[i].category);
        proof {
            assert forall|k: int| 0 <= k < names@.len() implies has_category(
                ctors@,
                i + 1,
                (#[trigger] names@[k])@,
            ) by {
                if names@[k]@ == ctors@[i as int].category@ {
                    assert(ctors@[i as int].category@ == names@[k]@);
                } else {
                    let m = choose|m: int| 0 <= m < before.len() && (#[trigger] before[m])@ == names@[k]@;
                    assert(has_category(ctors@, i as int, before[m]@));
                    let j = choose|j: int| 0 <= j < i && (#[trigger] ctors@[j]).category@ == before[m]@;
                    assert(ctors@[j].category@ == names@[k]@);
                }
            }
            assert forall|j: int| 0 <= j < i + 1 implies lists_name(
                names@,
                (#[trigger] ctors@[j]).category@,
            ) by {
                if j < i {
                    assert(lists_name(before, ctors@[j].category@));
                    let m = choose|m: int|
                        0 <= m < before.len() && (#[trigger] before[m])@ == ctors@[j].category@;
                    assert(lists_name(names@, before[m]@));
                }
            }
        }
        i = i + 1;
    }
    names
}

/// The item listing a registry entry.
fn entry_item(c: &TypeConstructorEntry) -> (r: TypeItem)
    ensures
        r == constructor_item(*c),
{
    TypeItem::Constructor {
        name: c.name.clone(),
        params_count: c.params_count,
        description: c.description.clone(),
    }
}

/// The items of the registry entries of category `cat`, in registry order.
fn items_in_category(ctors: &Vec<TypeConstructorEntry>, cat: &String) -> (r: Vec<TypeItem>)
    ensures
        r@ == category_items(ctors@, cat@),
{
    let mut items: Vec<TypeItem> = Vec::new();
    let mut i: usize = 0;
    while i < ctors.len()
        invariant
            i <= ctors@.len(),
            items@ == category_items(ctors@.subrange(0, i as int), cat@),
        decreases ctors@.len() - i,
    {
        proof {
            assert(ctors@.subrange(0, i + 1).drop_last() =~= ctors@.subrange(0, i as int));
        }
        if ctors[i].category == *cat {
            items.push(entry_item(&ctors[i]));
        }
        i = i + 1;
    }
    assert(ctors@.subrange(0, ctors@.len() as int) =~= ctors@);
    items
}

/// The items listing the primitive types, in order.
fn primitives_as_items(prims: &Vec<String>) -> (r: Vec<TypeItem>)
    ensures
        r@ == primitive_items(prims@),
{
    let mut items: Vec<TypeItem> = Vec::new();
    let mut i: usize = 0;
    while i < prims.len()
        invariant
            i <= prims@.len(),
            items@ == primitive_items(prims@.subrange(0, i as int)),
        decreases prims@.len() - i,
    {
        items.push(TypeItem::Primitive(prims[i].clone()));
        proof {
            assert(primitive_items(prims@.subrange(0, i + 1)) =~= primitive_items(
                prims@.subrange(0, i as int),
            ).push(TypeItem::Primitive(prims@[i as int])));
        }
        i = i + 1;
    }
    assert(prims@.subrange(0, prims@.len() as int) =~= prims@);
    items
}

/// The palette's categories: the primitive types first, then the registry's
/// entries grouped by category, categories in name order.
fn group_categories(prims: &Vec<String>, ctors: &Vec<TypeConstructorEntry>) -> (r: Vec<
    (String, Vec<TypeItem>),
>)
    ensures
        grouped(r@, prims@, ctors@),
{
    let names = sorted_categories(ctors);
    let mut cats: Vec<(String, Vec<TypeItem>)> = Vec::new();
    cats.push((String::from_str("Primitives"), primitives_as_items(prims)));
    let mut k: usize = 0;
    while k < names.len()
        invariant
            k <= names@.len(),
            cats@.len() == k + 1,
            cats@[0].0@ == primitives_label(),
            cats@[0].1@ == primitive_items(prims@),
            forall|m: int|
                0 <= m < k ==> (#[trigger] cats@[m + 1]).0 == names@[m] && cats@[m + 1].1@
                    == category_items(ctors@, names@[m]@),
        decreases names@.len() - k,
    {
        let items = items_in_category(ctors, &names[k]);
        cats.push((names[k].clone(), items));
        k = k + 1;
    }
    proof {
        let c = cats@;
        assert forall|k: int, l: int| 1 <= k < l < c.len() implies text_lt(
            #[trigger] c[k].0@,
            #[trigger] c[l].0@,
        ) by {
            assert(c[(k - 1) + 1].0 == names@[k - 1]);
            assert(c[(l - 1) + 1].0 == names@[l - 1]);
        }
        assert forall|k: int| 1 <= k < c.len() implies has_category(
            ctors@,
            ctors@.len() as int,
            (#[trigger] c[k]).0@,
        ) by {
            assert(c[(k - 1) + 1].0 == names@[k - 1]);
        }
        assert forall|i: int| 0 <= i < ctors@.len() implies lists_category(
            c,
            (#[trigger] ctors@[i]).category@,
        ) by {
            assert(lists_name(names@, ctors@[i].category@));
            let m = choose|m: int|
                0 <= m < names@.len() && (#[trigger] names@[m])@ == ctors@[i].category@;
            assert(c[m + 1].0 == names@[m]);
        }
        assert forall|k: int| 1 <= k < c.len() implies (#[trigger] c[k]).1@ == category_items(
            ctors@,
            c[k].0@,
        ) by {
            assert(c[(k - 1) + 1].0 == names@[k - 1]);
        }
    }
    cats
}

/// The palette for picking a type: its categories of items, the item last
/// confirmed, and the slot it was opened for.
pub struct TypeLibraryPalette {
    categories: Vec<(String, Vec<TypeItem>)>,
    selected_item: Option<TypeItem>,
    target_slot: Option<(BlockId, usize)>,
}

impl TypeItem {
    /// The name under which the item is listed.
    pub fn name(&self) -> (r: &str)
        ensures
            r@ == item_name(*self),
    {
        match self {
            TypeItem::Primitive(name) => name.as_str(),
            TypeItem::Constructor { name, .. } => name.as_str(),
        }
    }

    /// The description shown beside the item.
    pub fn description(&self) -> (r: &str)
        ensures
            r@ == item_description(*self),
    {
        match self {
            TypeItem::Primitive(_) => "Primitive type",
            TypeItem::Constructor { description, .. } => description.as_str(),
        }
    }

    /// A new block for this item: a primitive block, or a constructor block
    /// with one empty slot per type parameter.
    pub fn to_block(&self) -> (r: TypeBlock)
        ensures
            match *self {
                TypeItem::Primitive(name) => is_primitive_block(r, name@),
                TypeItem::Constructor { name, params_count, .. } => is_fresh_constructor_block(
                    r,
                    name@,
                    params_count as nat,
                ),
            },
    {
        match self {
            TypeItem::Primitive(name) => TypeBlock::primitive(name.as_str()),
            TypeItem::Constructor { name, params_count, .. } => TypeBlock::constructor(
                name.as_str(),
                *params_count,
            ),
        }
    }
}

impl TypeLibraryPalette {
    /// The categories the palette lists.
    pub closed spec fn category_list(&self) -> Seq<(String, Vec<TypeItem>)> {
        self.categories@
    }

    /// The item last confirmed and not yet taken.
    pub closed spec fn selection(&self) -> Option<TypeItem> {
        self.selected_item
    }

    /// The slot the palette was opened for.
    pub closed spec fn slot(&self) -> Option<(BlockId, usize)> {
        self.target_slot
    }

    /// A palette over the given primitive types and constructor registry,
    /// opened for `target_slot`: the primitive types come first, under
    /// "Primitives", then one category per registry category, in name order,
    /// each listing its entries in registry order. Nothing is selected.
    pub fn new(
        primitives: &Vec<String>,
        constructors: &Vec<TypeConstructorEntry>,
        target_slot: Option<(BlockId, usize)>,
    ) -> (r: Self)
        ensures
            grouped(r.category_list(), primitives@, constructors@),
            r.selection() is None,
            r.slot() == target_slot,
    {
        TypeLibraryPalette {
            categories: group_categories(primitives, constructors),
            selected_item: None,
            target_slot,
        }
    }

    /// Takes the confirmed item, leaving none selected.
    pub fn take_selected_item(&mut self) -> (r: Option<TypeItem>)
        ensures
            r == old(self).selection(),
            final(self).selection() is None,
            final(self).category_list() == old(self).category_list(),
            final(self).slot() == old(self).slot(),
    {
        self.selected_item.take()
    }

    /// The slot the palette was opened for.
    pub fn target_slot(&self) -> (r: Option<(BlockId, usize)>)
        ensures
            r == self.slot(),
    {
        copy_slot(&self.target_slot)
    }

    /// The hint shown in the empty search field.
    pub fn placeholder(&self) -> (r: &str)
        ensures
            r@ == "Search for types..."@,
    {
        "Search for types..."
    }

    /// A copy of the palette's categories.
    pub fn categories(&self) -> (r: Vec<(String, Vec<TypeItem>)>)
        ensures
            r@.len() == self.category_list().len(),
            forall|k: int|
                0 <= k < r@.len() ==> (#[trigger] r@[k]).0 == self.category_list()[k].0
                    && r@[k].1@ == self.category_list()[k].1@,
    {
        let mut out: Vec<(String, Vec<TypeItem>)> = Vec::new();
        let mut k: usize = 0;
        while k < self.categories.len()
            invariant
                k <= self.categories@.len(),
                out@.len() == k,
                forall|m: int|
                    0 <= m < k ==> (#[trigger] out@[m]).0 == self.categories@[m].0
                        && out@[m].1@ == self.categories@[m].1@,
            decreases self.categories@.len() - k,
        {
            let items = &self.categories[k].1;
            let mut copy: Vec<TypeItem> = Vec::new();
            let mut i: usize = 0;
            while i < items.len()
                invariant
                    i <= items@.len(),
                    copy@ == items@.subrange(0, i as int),
                decreases items@.len() - i,
            {
                copy.push(copy_item(&items[i]));
                proof {
                    assert(copy@ =~= items@.subrange(0, i + 1));
                }
                i = i + 1;
            }
            assert(copy@ =~= items@);
            out.push((self.categories[k].0.clone(), copy));
            k = k + 1;
        }
        out
    }

    /// Records `item` as the selection, replacing any earlier one.
    pub fn confirm(&mut self, item: &TypeItem)
        ensures
            final(self).selection() == Some(*item),
            final(self).category_list() == old(self).category_list(),
            final(self).slot() == old(self).slot(),
    {
        self.selected_item = Some(copy_item(item));
    }

    /// Categories start collapsed.
    pub fn categories_collapsed_by_default(&self) -> (r: bool)
        ensures
            r,
    {
        true
    }

    /// Items carry no documentation pane.
    pub fn supports_docs(&self) -> (r: bool)
        ensures
            !r,
    {
        false
    }
}

} // verus!
