//! The interface under construction: an ordered, append-only list of items
//! in which type definitions are found by name.
use crate::types::{InterfaceItem, ItemModel, TypeDef};
use vstd::prelude::*;

verus! {

/// Models of a sequence of items, in order.
pub open spec fn item_models(v: Seq<InterfaceItem>) -> Seq<ItemModel> {
    v.map_values(|item: InterfaceItem| item@)
}

/// The name under which an item is found as a type definition; a function
/// is never found.
pub open spec fn def_name(item: ItemModel) -> Option<Seq<char>> {
    match item {
        ItemModel::TypeDef(td) => Some(td.name),
        ItemModel::Function(_) => None,
    }
}

/// Whether some type definition among the items has the name.
pub open spec fn has_type_def(items: Seq<ItemModel>, name: Seq<char>) -> bool {
    exists|i: int| 0 <= i < items.len() && #[trigger] def_name(items[i]) == Some(name)
}

/// Appending an item adds its name, if it has one, to those found, and
/// loses none.
pub proof fn lemma_has_after_push(items: Seq<ItemModel>, item: ItemModel, name: Seq<char>)
    ensures
        has_type_def(items.push(item), name) <==> has_type_def(items, name) || def_name(item)
            == Some(name),
{
    let after = items.push(item);
    if has_type_def(items, name) {
        let i = choose|i: int| 0 <= i < items.len() && #[trigger] def_name(items[i]) == Some(name);
        assert(def_name(after[i]) == Some(name));
    }
    if def_name(item) == Some(name) {
        assert(def_name(after[items.len() as int]) == Some(name));
    }
    if has_type_def(after, name) {
        let i = choose|i: int| 0 <= i < after.len() && #[trigger] def_name(after[i]) == Some(name);
        if i < items.len() {
            assert(def_name(items[i]) == Some(name));
        }
    }
}

/// The WIT interface under construction.
#[derive(Debug, PartialEq, Eq)]
pub struct Interface {
    pub items: Vec<InterfaceItem>,
}

impl View for Interface {
    type V = Seq<ItemModel>;

    open spec fn view(&self) -> Seq<ItemModel> {
        item_models(self.items@)
    }
}

impl Interface {
    /// An interface without items.
    pub fn new() -> (r: Interface)
        ensures
            r@ == Seq::<ItemModel>::empty(),
    {
        let r = Interface { items: Vec::new() };
        assert(r@ =~= Seq::<ItemModel>::empty());
        r
    }

    /// Appends a type definition after all present items.
    pub fn push_type_def(&mut self, td: TypeDef)
        ensures
            final(self)@ == old(self)@.push(ItemModel::TypeDef(td@)),
    {
        let item = InterfaceItem::TypeDef(td);
        self.items.push(item);
        assert(self@ =~= old(self)@.push(item@));
    }

    /// Appends a free function after all present items.
    pub fn push_function(&mut self, name: String)
        ensures
            final(self)@ == old(self)@.push(ItemModel::Function(name@)),
    {
        let item = InterfaceItem::Function(name);
        self.items.push(item);
        assert(self@ =~= old(self)@.push(item@));
    }

    /// Whether a type definition of that name is present: a linear scan
    /// that compares names and passes over functions.
    pub fn type_def_exists(&self, name: &String) -> (found: bool)
        ensures
            found == has_type_def(self@, name@),
    {
        let mut i: usize = 0;
        while i < self.items.len()
            invariant
                i <= self.items.len(),
                forall|j: int| 0 <= j < i ==> #[trigger] def_name(self@[j]) != Some(name@),
            decreases self.items.len() - i,
        {
            match &self.items[i] {
                InterfaceItem::TypeDef(td) => {
                    if td.name == *name {
                        assert(def_name(self@[i as int]) == Some(name@));
                        return true;
                    }
                },
                InterfaceItem::Function(_) => {},
            }
            i += 1;
        }
        false
    }
}

} // verus!
