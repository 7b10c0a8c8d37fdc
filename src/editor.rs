use vstd::prelude::*;
use vstd::string::*;
use crate::ast::{TypeAstNode, ast_to_rust_string, rust_text};
use crate::block::{BlockId, TypeBlock, has_empty_slot, assembles_to};

verus! {

/// A type alias as stored on disk.
pub struct AliasAsset {
    pub schema_version: u32,
    pub name: String,
    pub display_name: String,
    pub description: Option<String>,
    pub ast: TypeAstNode,
}

/// What the editor holds of an alias: its names, its description, the root
/// block of its canvas, and the message shown to the user, if any.
pub struct AliasDocument {
    pub name: String,
    pub display_name: String,
    pub description: String,
    pub root: Option<TypeBlock>,
    pub error_message: Option<String>,
}

/// Why an alias cannot be saved.
#[derive(Debug, PartialEq, Eq, Structural)]
pub enum SaveError {
    /// The canvas holds no block.
    EmptyType,
    /// Some slot of the block tree is still empty.
    EmptySlots,
}

/// Where a block picked without a target slot goes.
#[derive(Debug, PartialEq, Eq)]
pub enum Placement {
    /// The canvas is empty: the block becomes its root.
    AsRoot,
    /// A slot is selected: the block fills it.
    IntoSlot(BlockId, usize),
    /// The block waits until the user clicks an empty slot.
    Pending,
}

/// The editor's placement state: the slot selected for filling, a block
/// waiting for a slot, the message shown to the user, and whether the code
/// preview must be refreshed.
pub struct PlacementState {
    pub selected_slot: Option<(BlockId, usize)>,
    pub pending_block: Option<TypeBlock>,
    pub error_message: Option<String>,
    pub preview_needs_update: bool,
}

/// What a click on the canvas asks for.
#[derive(Debug, PartialEq, Eq)]
pub enum ClickAction {
    /// The empty canvas was clicked: open the type picker for the root.
    PickRoot,
    /// A slot of block `.0` at index `.1` was clicked.
    SelectSlot(BlockId, usize),
}

/// The schema version written into saved assets.
pub const SCHEMA_VERSION: u32 = 1;

/// The text of the code preview for an alias named `display` of type `ast`.
pub open spec fn preview_code_text(display: Seq<char>, ast: TypeAstNode) -> Seq<char> {
    "// Auto-generated Rust type alias\npub type "@ + display + " = "@ + rust_text(ast)
        + ";\n\n// Usage example:\n// let value: "@ + display + " = ...;"@
}

/// The preview shown while the canvas is empty.
pub open spec fn empty_canvas_hint() -> Seq<char> {
    "// Click to add a type or use the Add Type button"@
}

/// The preview shown while a slot is empty.
pub open spec fn open_slots_hint() -> Seq<char> {
    "// Fill all slots to see generated code"@
}

/// The name shown for an alias that has none yet.
pub open spec fn unnamed_alias() -> Seq<char> {
    "New Type Alias"@
}

/// The marker in front of an alias's tab title.
pub open spec fn title_marker() -> Seq<char> {
    "\u{1F517} "@
}

/// The heading shown for an alias named `display`.
pub open spec fn heading_text(display: Seq<char>) -> Seq<char> {
    if display.len() == 0 {
        unnamed_alias()
    } else {
        display
    }
}

/// Whether `a` is the asset saved for an alias with these names and
/// description whose block tree is `b`.
pub open spec fn saved_asset(
    a: AliasAsset,
    name: Seq<char>,
    display: Seq<char>,
    description: Seq<char>,
    b: TypeBlock,
) -> bool {
    &&& a.schema_version == SCHEMA_VERSION
    &&& a.name@ == name
    &&& a.display_name@ == display
    &&& if description.len() == 0 {
        a.description is None
    } else {
        a.description matches Some(d) && d@ == description
    }
    &&& assembles_to(b, a.ast)
}

/// The code preview for an alias named `display_name` of type `ast`: a
/// `pub type` declaration followed by a usage example.
pub fn generate_preview_code(display_name: &str, ast: &TypeAstNode) -> (r: String)
    ensures
        r@ == preview_code_text(display_name@, *ast),
{
    let type_str = ast_to_rust_string(ast);
    let mut s = String::from_str("// Auto-generated Rust type alias\npub type ");
    s.append(display_name);
    s.append(" = ");
    s.append(type_str.as_str());
    s.append(";\n\n// Usage example:\n// let value: ");
    s.append(display_name);
    s.append(" = ...;");
    s
}

/// The code preview for the canvas whose root block is `root`: a hint while
/// the canvas is empty or a slot is open, else the generated declaration.
pub fn preview_text(display_name: &str, root: Option<&TypeBlock>) -> (r: String)
    ensures
        match root {
            None => r@ == empty_canvas_hint(),
            Some(b) => if has_empty_slot(*b) {
                r@ == open_slots_hint()
            } else {
                exists|ast: TypeAstNode|
                    assembles_to(*b, ast) && r@ == preview_code_text(display_name@, ast)
            },
        },
{
    match root {
        None => String::from_str("// Click to add a type or use the Add Type button"),
        Some(b) => match b.to_ast() {
            None => String::from_str("// Fill all slots to see generated code"),
            Some(ast) => generate_preview_code(display_name, &ast),
        },
    }
}

/// The heading shown for an alias: its display name, or a stand-in while it
/// has none.
pub fn heading(display_name: &str) -> (r: String)
    ensures
        r@ == heading_text(display_name@),
{
    if display_name.unicode_len() == 0 {
        String::from_str("New Type Alias")
    } else {
        String::from_str(display_name)
    }
}

/// The tab title of an alias: a link marker and its heading.
pub fn title(display_name: &str) -> (r: String)
    ensures
        r@ == title_marker() + heading_text(display_name@),
{
    let mut s = String::from_str("\u{1F517} ");
    let h = heading(display_name);
    s.append(h.as_str());
    s
}

impl SaveError {
    /// The message shown to the user.
    pub fn message(&self) -> (r: &str)
        ensures
            *self == SaveError::EmptyType ==> r@ == "Cannot save empty type"@,
            *self == SaveError::EmptySlots ==> r@
                == "Type has empty slots - fill all slots before saving"@,
    {
        match self {
            SaveError::EmptyType => "Cannot save empty type",
            SaveError::EmptySlots => "Type has empty slots - fill all slots before saving",
        }
    }
}

/// The asset to save for an alias whose canvas has root block `root`. It
/// fails while the canvas is empty or any slot is open. A saved asset has
/// the current schema version, the alias's names, its description (none when
/// empty) and the type the block tree stands for.
pub fn prepare_save(name: &str, display_name: &str, description: &str, root: Option<&TypeBlock>) -> (r:
    Result<AliasAsset, SaveError>)
    ensures
        match root {
            None => r == Err::<AliasAsset, SaveError>(SaveError::EmptyType),
            Some(b) => if has_empty_slot(*b) {
                r == Err::<AliasAsset, SaveError>(SaveError::EmptySlots)
            } else {
                r matches Ok(a) && saved_asset(a, name@, display_name@, description@, *b)
            },
        },
{
    match root {
        None => Err(SaveError::EmptyType),
        Some(b) => match b.to_ast() {
            None => Err(SaveError::EmptySlots),
            Some(ast) => {
                let desc = if description.unicode_len() == 0 {
                    None
                } else {
                    Some(String::from_str(description))
                };
                Ok(
                    AliasAsset {
                        schema_version: SCHEMA_VERSION,
                        name: String::from_str(name),
                        display_name: String::from_str(display_name),
                        description: desc,
                        ast,
                    },
                )
            },
        },
    }
}

/// Where a block picked with no target slot goes: the root of an empty
/// canvas, else the selected slot, else it waits for a slot to be clicked.
pub fn placement_for(has_root: bool, selected_slot: &Option<(BlockId, usize)>) -> (r: Placement)
    ensures
        !has_root ==> r is AsRoot,
        has_root ==> match *selected_slot {
            None => r is Pending,
            Some((id, i)) => r == Placement::IntoSlot(id, i),
        },
{
    if !has_root {
        Placement::AsRoot
    } else {
        match selected_slot {
            None => Placement::Pending,
            Some((id, i)) => Placement::IntoSlot(id.duplicate(), *i),
        }
    }
}

/// The display name given to an alias that has none yet.
pub open spec fn new_alias_name() -> Seq<char> {
    "New Alias"@
}

/// The message shown when a stored alias cannot be read.
pub open spec fn parse_failure_text(detail: Seq<char>) -> Seq<char> {
    "Failed to parse: "@ + detail
}

impl AliasDocument {
    /// A new, empty alias: no names but the stand-in display name, no
    /// description, an empty canvas and no message.
    pub fn blank() -> (r: AliasDocument)
        ensures
            r.name@.len() == 0,
            r.display_name@ == new_alias_name(),
            r.description@.len() == 0,
            r.root is None,
            r.error_message is None,
    {
        AliasDocument {
            name: String::new(),
            display_name: String::from_str("New Alias"),
            description: String::new(),
            root: None,
            error_message: None,
        }
    }

    /// A new, empty alias that reports why the stored one could not be read.
    pub fn parse_failed(detail: &str) -> (r: AliasDocument)
        ensures
            r.name@.len() == 0,
            r.display_name@ == new_alias_name(),
            r.description@.len() == 0,
            r.root is None,
            r.error_message matches Some(m) && m@ == parse_failure_text(detail@),
    {
        let mut m = String::from_str("Failed to parse: ");
        m.append(detail);
        let mut d = AliasDocument::blank();
        d.error_message = Some(m);
        d
    }

    /// The alias stored in `asset`, its type laid out as a complete block
    /// tree on the canvas, with no message.
    pub fn from_asset(asset: &AliasAsset) -> (r: AliasDocument)
        ensures
            r.name@ == asset.name@,
            r.display_name@ == asset.display_name@,
            match asset.description {
                None => r.description@.len() == 0,
                Some(d) => r.description@ == d@,
            },
            r.error_message is None,
            r.root matches Some(b) && assembles_to(b, asset.ast) && !has_empty_slot(b),
    {
        let description = match &asset.description {
            None => String::new(),
            Some(d) => d.clone(),
        };
        AliasDocument {
            name: asset.name.clone(),
            display_name: asset.display_name.clone(),
            description,
            root: Some(TypeBlock::from_ast(&asset.ast)),
            error_message: None,
        }
    }
}

/// The message shown when a slot could not be filled.
pub open spec fn fill_failed_text() -> Seq<char> {
    "Failed to fill slot"@
}

/// The message shown while a block waits for a slot.
pub open spec fn choose_slot_text() -> Seq<char> {
    "Click on an empty slot to place this type"@
}

/// What a click on the canvas asks for: the empty canvas is reported with an
/// empty block id.
pub fn click_action(block_id: BlockId, slot_index: usize) -> (r: ClickAction)
    ensures
        block_id.0@.len() == 0 ==> r is PickRoot,
        block_id.0@.len() > 0 ==> r == ClickAction::SelectSlot(block_id, slot_index),
{
    if block_id.0.unicode_len() == 0 {
        ClickAction::PickRoot
    } else {
        ClickAction::SelectSlot(block_id, slot_index)
    }
}

impl PlacementState {
    /// No slot selected, no block waiting, no message, preview up to date.
    pub fn new() -> (r: PlacementState)
        ensures
            r.selected_slot is None,
            r.pending_block is None,
            r.error_message is None,
            !r.preview_needs_update,
    {
        PlacementState {
            selected_slot: None,
            pending_block: None,
            error_message: None,
            preview_needs_update: false,
        }
    }

    /// A block became the root of the empty canvas: selection, waiting block
    /// and message are cleared.
    pub fn placed_as_root(&mut self)
        ensures
            final(self).selected_slot is None,
            final(self).pending_block is None,
            final(self).error_message is None,
            final(self).preview_needs_update,
    {
        self.selected_slot = None;
        self.pending_block = None;
        self.error_message = None;
        self.preview_needs_update = true;
    }

    /// A block was placed into the selected slot, or failed to be. On success
    /// selection, waiting block and message are cleared; on failure only the
    /// message changes.
    pub fn filled_selected_slot(&mut self, filled: bool)
        ensures
            final(self).preview_needs_update,
            filled ==> final(self).selected_slot is None && final(self).pending_block is None
                && final(self).error_message is None,
            !filled ==> final(self).selected_slot == old(self).selected_slot
                && final(self).pending_block == old(self).pending_block
                && (final(self).error_message matches Some(m) && m@ == fill_failed_text()),
    {
        if filled {
            self.selected_slot = None;
            self.pending_block = None;
            self.error_message = None;
        } else {
            self.error_message = Some(String::from_str("Failed to fill slot"));
        }
        self.preview_needs_update = true;
    }

    /// A block picked with no slot selected waits for a slot to be clicked.
    pub fn hold_pending(&mut self, block: TypeBlock)
        ensures
            final(self).pending_block == Some(block),
            final(self).selected_slot == old(self).selected_slot,
            final(self).error_message matches Some(m) && m@ == choose_slot_text(),
            final(self).preview_needs_update,
    {
        self.pending_block = Some(block);
        self.error_message = Some(String::from_str("Click on an empty slot to place this type"));
        self.preview_needs_update = true;
    }

    /// A block picked for a given slot was placed there, or failed to be. On
    /// success the selection and message are cleared; a waiting block stays.
    pub fn filled_target_slot(&mut self, filled: bool)
        ensures
            final(self).preview_needs_update,
            final(self).pending_block == old(self).pending_block,
            filled ==> final(self).selected_slot is None && final(self).error_message is None,
            !filled ==> final(self).selected_slot == old(self).selected_slot
                && (final(self).error_message matches Some(m) && m@ == fill_failed_text()),
    {
        if filled {
            self.selected_slot = None;
            self.error_message = None;
        } else {
            self.error_message = Some(String::from_str("Failed to fill slot"));
        }
        self.preview_needs_update = true;
    }

    /// Places a block picked with no target slot on the canvas whose root is
    /// `root`. On an empty canvas it becomes the root. With a slot selected
    /// it is handed back with that slot, for the canvas to fill; the outcome
    /// then goes to `filled_selected_slot`. Otherwise it waits for a slot.
    pub fn add_block(&mut self, root: &mut Option<TypeBlock>, block: TypeBlock) -> (r: Option<
        (BlockId, usize, TypeBlock),
    >)
        ensures
            *old(root) is None ==> *final(root) == Some(block) && r is None
                && final(self).selected_slot is None && final(self).pending_block is None
                && final(self).error_message is None && final(self).preview_needs_update,
            *old(root) is Some ==> *final(root) == *old(root) && match old(self).selected_slot {
                Some((id, i)) => r == Some((id, i, block)) && *final(self) == *old(self),
                None => r is None && final(self).pending_block == Some(block)
                    && final(self).selected_slot is None && final(self).preview_needs_update
                    && (final(self).error_message matches Some(m) && m@ == choose_slot_text()),
            },
    {
        match placement_for(root.is_some(), &self.selected_slot) {
            Placement::AsRoot => {
                *root = Some(block);
                self.placed_as_root();
                None
            },
            Placement::IntoSlot(id, i) => Some((id, i, block)),
            Placement::Pending => {
                self.hold_pending(block);
                None
            },
        }
    }

    /// Selects slot `slot_index` of block `parent` and hands out the waiting
    /// block, if any, to be placed there; with none, the type picker opens.
    pub fn select_slot(&mut self, parent: BlockId, slot_index: usize) -> (r: Option<TypeBlock>)
        ensures
            final(self).selected_slot == Some((parent, slot_index)),
            r == old(self).pending_block,
            final(self).pending_block is None,
            final(self).error_message == old(self).error_message,
            final(self).preview_needs_update == old(self).preview_needs_update,
    {
        self.selected_slot = Some((parent, slot_index));
        self.pending_block.take()
    }
}

} // verus!
