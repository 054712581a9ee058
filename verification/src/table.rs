//! The binding table: what the host offers to the guest.

use vstd::prelude::*;

use crate::binding::{BindingView, HostBinding};
use crate::declaration::{
    all_bound, all_satisfied, is_bound, is_satisfied, ImportView, ItemView, TableView,
};
use crate::runtime::{host_function, new_table, table_define, table_entries};

verus! {

/// What a binding table holds that offers the host procedure under the given
/// binding, or nothing at all.
pub open spec fn bound_entries(binding: Option<BindingView>) -> TableView {
    match binding {
        None => Map::empty(),
        Some(b) => Map::empty().insert((b.namespace, b.name), ItemView::Function(b.signature)),
    }
}

/// The content of an optional binding.
pub open spec fn binding_view(binding: Option<&HostBinding>) -> Option<BindingView> {
    match binding {
        None => None,
        Some(b) => Some(b@),
    }
}

/// Stage three: builds the binding table for one instantiation. With a
/// binding, the table offers the host procedure at the binding's namespace
/// and name, with the binding's signature, and holds nothing else; without
/// one it is empty and the procedure is dropped.
pub fn import_table<F: Fn() + Send + Sync + 'static>(
    store: &mut wasmer::Store,
    binding: Option<&HostBinding>,
    host: F,
) -> (table: wasmer::Imports)
    requires
        call_requires(host, ()),
    ensures
        table_entries(table) == bound_entries(binding_view(binding)),
{
    let mut table = new_table();
    match binding {
        None => {},
        Some(b) => {
            let function = host_function(store, &b.signature, host);
            table_define(&mut table, b.namespace.as_str(), b.name.as_str(), function);
        },
    }
    table
}

/// An empty binding table leaves every import unbound: it binds all the
/// imports of a module only where the module declares none.
pub proof fn lemma_empty_table(imports: Seq<ImportView>)
    ensures
        all_bound(imports, bound_entries(None)) <==> imports.len() == 0,
{
    if imports.len() > 0 {
        assert(!is_bound(imports[0], bound_entries(None)));
    }
}

/// A table with one binding binds the imports that are declared at the
/// namespace and name of the binding, and no others.
pub proof fn lemma_bound_by_place(imports: Seq<ImportView>, binding: BindingView)
    ensures
        all_bound(imports, bound_entries(Some(binding))) <==> forall|i: int|
            0 <= i < imports.len() ==> (#[trigger] imports[i]).namespace == binding.namespace
                && imports[i].name == binding.name,
{
    let table = bound_entries(Some(binding));
    assert forall|i: int| 0 <= i < imports.len() implies (is_bound(#[trigger] imports[i], table)
        <==> imports[i].namespace == binding.namespace && imports[i].name == binding.name) by {
        assert(table.dom().contains((imports[i].namespace, imports[i].name)) <==> (
            imports[i].namespace,
            imports[i].name,
        ) == (binding.namespace, binding.name));
    }
}

/// A table with one binding satisfies the imports that are declared at the
/// namespace and name of the binding as functions of the binding's
/// signature, and no others.
pub proof fn lemma_satisfied_by_signature(imports: Seq<ImportView>, binding: BindingView)
    ensures
        all_satisfied(imports, bound_entries(Some(binding))) <==> forall|i: int|
            0 <= i < imports.len() ==> (#[trigger] imports[i]).namespace == binding.namespace
                && imports[i].name == binding.name && imports[i].item == ItemView::Function(
                binding.signature,
            ),
{
    let table = bound_entries(Some(binding));
    assert forall|i: int| 0 <= i < imports.len() implies (is_satisfied(
        #[trigger] imports[i],
        table,
    ) <==> imports[i].namespace == binding.namespace && imports[i].name == binding.name
        && imports[i].item == ItemView::Function(binding.signature)) by {
        assert(table.dom().contains((imports[i].namespace, imports[i].name)) <==> (
            imports[i].namespace,
            imports[i].name,
        ) == (binding.namespace, binding.name));
    }
}

} // verus!
