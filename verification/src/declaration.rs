//! What a module declares: its imports and exports, and what it means for a
//! binding table to satisfy the imports.

use vstd::prelude::*;

use crate::binding::{Signature, SignatureView};

verus! {

/// The mathematical content of an [`ItemKind`].
pub enum ItemView {
    /// A function, with its signature.
    Function(SignatureView),
    /// A global variable.
    Global,
    /// A table of references.
    Table,
    /// A linear memory.
    Memory,
    /// A tag for exceptions.
    Tag,
}

/// What a module imports or exports under one name: a function with its
/// signature, or one of the other kinds of item.
#[derive(Clone, Debug, PartialEq, Eq)]
pub enum ItemKind {
    /// A function, with its signature.
    Function(Signature),
    /// A global variable.
    Global,
    /// A table of references.
    Table,
    /// A linear memory.
    Memory,
    /// A tag for exceptions.
    Tag,
}

impl View for ItemKind {
    type V = ItemView;

    open spec fn view(&self) -> ItemView {
        match self {
            ItemKind::Function(signature) => ItemView::Function(signature@),
            ItemKind::Global => ItemView::Global,
            ItemKind::Table => ItemView::Table,
            ItemKind::Memory => ItemView::Memory,
            ItemKind::Tag => ItemView::Tag,
        }
    }
}

impl ItemKind {
    /// Whether the item is a procedure: a function without parameters and
    /// results.
    pub fn is_procedure(&self) -> (b: bool)
        ensures
            b == (self@ == ItemView::Function(SignatureView::procedure())),
    {
        match self {
            ItemKind::Function(signature) => signature.is_procedure(),
            _ => false,
        }
    }
}

/// The mathematical content of an [`ImportDecl`].
pub struct ImportView {
    pub namespace: Seq<char>,
    pub name: Seq<char>,
    pub item: ItemView,
}

/// One import that a module declares: where it expects the item, and what
/// item it expects there.
#[derive(Clone, Debug, PartialEq, Eq)]
pub struct ImportDecl {
    pub namespace: String,
    pub name: String,
    pub item: ItemKind,
}

impl View for ImportDecl {
    type V = ImportView;

    open spec fn view(&self) -> ImportView {
        ImportView { namespace: self.namespace@, name: self.name@, item: self.item@ }
    }
}

impl DeepView for ImportDecl {
    type V = ImportView;

    open spec fn deep_view(&self) -> ImportView {
        self@
    }
}

/// The mathematical content of an [`ExportDecl`].
pub struct ExportView {
    pub name: Seq<char>,
    pub item: ItemView,
}

/// One export that a module declares: its name and the item that it exposes.
#[derive(Clone, Debug, PartialEq, Eq)]
pub struct ExportDecl {
    pub name: String,
    pub item: ItemKind,
}

impl View for ExportDecl {
    type V = ExportView;

    open spec fn view(&self) -> ExportView {
        ExportView { name: self.name@, item: self.item@ }
    }
}

impl DeepView for ExportDecl {
    type V = ExportView;

    open spec fn deep_view(&self) -> ExportView {
        self@
    }
}

/// A binding table in the abstract: what stands at each namespace and name.
pub type TableView = Map<(Seq<char>, Seq<char>), ItemView>;

/// Whether the table has an entry where the import expects one.
pub open spec fn is_bound(import: ImportView, table: TableView) -> bool {
    table.dom().contains((import.namespace, import.name))
}

/// Whether the table has, where the import expects it, the very item that
/// the import expects.
pub open spec fn is_satisfied(import: ImportView, table: TableView) -> bool {
    is_bound(import, table) && table[(import.namespace, import.name)] == import.item
}

/// Whether the table has an entry for every import.
pub open spec fn all_bound(imports: Seq<ImportView>, table: TableView) -> bool {
    forall|i: int| 0 <= i < imports.len() ==> is_bound(#[trigger] imports[i], table)
}

/// Whether the table satisfies every import.
pub open spec fn all_satisfied(imports: Seq<ImportView>, table: TableView) -> bool {
    forall|i: int| 0 <= i < imports.len() ==> is_satisfied(#[trigger] imports[i], table)
}

/// What an instance exports, name by name, given the exports that its
/// module declares: under each name the item that was declared last.
pub open spec fn export_entries(exports: Seq<ExportView>) -> Map<Seq<char>, ItemView>
    decreases exports.len(),
{
    if exports.len() == 0 {
        Map::empty()
    } else {
        export_entries(exports.drop_last()).insert(exports.last().name, exports.last().item)
    }
}

/// The names that an instance exports are the names that its module
/// declares, and no others.
pub proof fn lemma_exported_names(exports: Seq<ExportView>, name: Seq<char>)
    ensures
        export_entries(exports).dom().contains(name) <==> exists|i: int|
            0 <= i < exports.len() && (#[trigger] exports[i]).name == name,
    decreases exports.len(),
{
    if exports.len() > 0 {
        let front = exports.drop_last();
        lemma_exported_names(front, name);
        if export_entries(exports).dom().contains(name) {
            if exports.last().name == name {
                assert(exports[exports.len() - 1].name == name);
            } else {
                let i = choose|i: int| 0 <= i < front.len() && (#[trigger] front[i]).name == name;
                assert(exports[i].name == name);
            }
        }
        if exists|i: int| 0 <= i < exports.len() && (#[trigger] exports[i]).name == name {
            let i = choose|i: int| 0 <= i < exports.len() && (#[trigger] exports[i]).name == name;
            if i < front.len() {
                assert(front[i].name == name);
            }
        }
    }
}

/// Where no two exports share a name, the instance exports under each
/// declared name the item that was declared with it.
pub proof fn lemma_exported_item(exports: Seq<ExportView>, i: int)
    requires
        0 <= i < exports.len(),
        forall|j: int, k: int|
            0 <= j < k < exports.len() ==> (#[trigger] exports[j]).name != (
            #[trigger] exports[k]).name,
    ensures
        export_entries(exports).dom().contains(exports[i].name),
        export_entries(exports)[exports[i].name] == exports[i].item,
    decreases exports.len(),
{
    let front = exports.drop_last();
    if i < exports.len() - 1 {
        assert forall|j: int, k: int| 0 <= j < k < front.len() implies (#[trigger] front[j]).name
            != (#[trigger] front[k]).name by {
            assert(front[j] == exports[j]);
            assert(front[k] == exports[k]);
        }
        lemma_exported_item(front, i);
    }
}

} // verus!
