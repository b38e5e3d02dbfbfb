//! Referential integrity: the names that definitions refer to are names of
//! definitions in the same interface.
use crate::interface::{has_type_def, lemma_has_after_push};
use crate::kinds::TypedArrayKind;
use crate::laws::lemma_three_pushes;
use crate::shapes::{
    array_buffer_def, array_buffer_funcs, array_buffer_options_def, record_def, record_funcs,
    typed_array_def,
    typed_array_funcs, typed_array_options_def, typed_array_set_src_def,
};
use crate::synth::{after_array_buffer, after_record, after_typed_array};
use crate::text::{
    array_buffer_name, array_buffer_options_name, array_name, options_name, set_src_name,
    shared_array_buffer_name,
};
use crate::types::{CaseModel, FuncModel, ItemModel, KindModel, SlotModel, TypeModel};
use vstd::prelude::*;

verus! {

/// Whether every name in the type is that of a definition among the
/// items. The shared array buffer is the one name that is expected from
/// elsewhere.
pub open spec fn type_resolved(t: TypeModel, items: Seq<ItemModel>) -> bool
    decreases t,
{
    match t {
        TypeModel::Prim(_) => true,
        TypeModel::ErrorContext => true,
        TypeModel::Named(n) => has_type_def(items, n) || n == shared_array_buffer_name(),
        TypeModel::Borrow(n) => has_type_def(items, n) || n == shared_array_buffer_name(),
        TypeModel::Optional(b) => type_resolved(*b, items),
        TypeModel::List(b) => type_resolved(*b, items),
        TypeModel::FixedList(b, _) => type_resolved(*b, items),
        TypeModel::MapOf(k, v) => type_resolved(*k, items) && type_resolved(*v, items),
        TypeModel::ResultOf(ok, err) => (match ok {
            Some(b) => type_resolved(*b, items),
            None => true,
        }) && (match err {
            Some(b) => type_resolved(*b, items),
            None => true,
        }),
        TypeModel::Future(o) => match o {
            Some(b) => type_resolved(*b, items),
            None => true,
        },
        TypeModel::Stream(o) => match o {
            Some(b) => type_resolved(*b, items),
            None => true,
        },
        TypeModel::Tuple(ts) => forall|i: int|
            0 <= i < ts.len() ==> type_resolved(#[trigger] ts[i], items),
    }
}

/// Whether the types of all slots are resolved.
pub open spec fn slots_resolved(slots: Seq<SlotModel>, items: Seq<ItemModel>) -> bool {
    forall|i: int| 0 <= i < slots.len() ==> type_resolved((#[trigger] slots[i]).ty, items)
}

/// Whether an optional type is resolved where it is present.
pub open spec fn opt_resolved(t: Option<TypeModel>, items: Seq<ItemModel>) -> bool {
    match t {
        Some(t) => type_resolved(t, items),
        None => true,
    }
}

/// Whether the parameters and the result of a function are resolved.
pub open spec fn func_resolved(f: FuncModel, items: Seq<ItemModel>) -> bool {
    slots_resolved(f.params, items) && opt_resolved(f.result, items)
}

/// Whether the payload of a case is resolved.
pub open spec fn case_resolved(c: CaseModel, items: Seq<ItemModel>) -> bool {
    opt_resolved(c.payload, items)
}

/// Whether everything inside a definition is resolved.
pub open spec fn kind_resolved(kind: KindModel, items: Seq<ItemModel>) -> bool {
    match kind {
        KindModel::Record(fields) => slots_resolved(fields, items),
        KindModel::Resource(funcs) => forall|i: int|
            0 <= i < funcs.len() ==> func_resolved(#[trigger] funcs[i], items),
        KindModel::Variant(cases) => forall|i: int|
            0 <= i < cases.len() ==> case_resolved(#[trigger] cases[i], items),
    }
}

/// Whether an item refers only to definitions among the items.
pub open spec fn item_resolved(item: ItemModel, items: Seq<ItemModel>) -> bool {
    match item {
        ItemModel::TypeDef(td) => kind_resolved(td.kind, items),
        ItemModel::Function(_) => true,
    }
}

/// No definition of the interface refers to a name that the interface
/// lacks.
pub open spec fn references_resolved(items: Seq<ItemModel>) -> bool {
    forall|i: int| 0 <= i < items.len() ==> item_resolved(#[trigger] items[i], items)
}

/// A resolved type stays resolved when the interface grows.
pub proof fn lemma_type_stays_resolved(t: TypeModel, items: Seq<ItemModel>, item: ItemModel)
    requires
        type_resolved(t, items),
    ensures
        type_resolved(t, items.push(item)),
    decreases t,
{
    match t {
        TypeModel::Prim(_) => {},
        TypeModel::ErrorContext => {},
        TypeModel::Named(n) => {
            lemma_has_after_push(items, item, n);
        },
        TypeModel::Borrow(n) => {
            lemma_has_after_push(items, item, n);
        },
        TypeModel::Optional(b) => {
            lemma_type_stays_resolved(*b, items, item);
        },
        TypeModel::List(b) => {
            lemma_type_stays_resolved(*b, items, item);
        },
        TypeModel::FixedList(b, _) => {
            lemma_type_stays_resolved(*b, items, item);
        },
        TypeModel::MapOf(k, v) => {
            lemma_type_stays_resolved(*k, items, item);
            lemma_type_stays_resolved(*v, items, item);
        },
        TypeModel::ResultOf(ok, err) => {
            if let Some(b) = ok {
                lemma_type_stays_resolved(*b, items, item);
            }
            if let Some(b) = err {
                lemma_type_stays_resolved(*b, items, item);
            }
        },
        TypeModel::Future(o) => {
            if let Some(b) = o {
                lemma_type_stays_resolved(*b, items, item);
            }
        },
        TypeModel::Stream(o) => {
            if let Some(b) = o {
                lemma_type_stays_resolved(*b, items, item);
            }
        },
        TypeModel::Tuple(ts) => {
            assert forall|i: int| 0 <= i < ts.len() implies type_resolved(
                #[trigger] ts[i],
                items.push(item),
            ) by {
                lemma_type_stays_resolved(ts[i], items, item);
            }
        },
    }
}

/// A resolved item stays resolved when the interface grows.
pub proof fn lemma_item_stays_resolved(x: ItemModel, items: Seq<ItemModel>, item: ItemModel)
    requires
        item_resolved(x, items),
    ensures
        item_resolved(x, items.push(item)),
{
    let after = items.push(item);
    match x {
        ItemModel::Function(_) => {},
        ItemModel::TypeDef(td) => {
            match td.kind {
                KindModel::Record(fields) => {
                    assert forall|i: int| 0 <= i < fields.len() implies type_resolved(
                        (#[trigger] fields[i]).ty,
                        after,
                    ) by {
                        lemma_type_stays_resolved(fields[i].ty, items, item);
                    }
                },
                KindModel::Resource(funcs) => {
                    assert forall|i: int| 0 <= i < funcs.len() implies func_resolved(
                        #[trigger] funcs[i],
                        after,
                    ) by {
                        let f = funcs[i];
                        assert(func_resolved(f, items));
                        assert forall|j: int| 0 <= j < f.params.len() implies type_resolved(
                            (#[trigger] f.params[j]).ty,
                            after,
                        ) by {
                            lemma_type_stays_resolved(f.params[j].ty, items, item);
                        }
                        if let Some(t) = f.result {
                            lemma_type_stays_resolved(t, items, item);
                        }
                    }
                },
                KindModel::Variant(cases) => {
                    assert forall|i: int| 0 <= i < cases.len() implies case_resolved(
                        #[trigger] cases[i],
                        after,
                    ) by {
                        assert(case_resolved(cases[i], items));
                        if let Some(t) = cases[i].payload {
                            lemma_type_stays_resolved(t, items, item);
                        }
                    }
                },
            }
        },
    }
}

/// Appending an item that is resolved in the grown interface keeps all
/// references resolved.
pub proof fn lemma_push_keeps_resolved(items: Seq<ItemModel>, item: ItemModel)
    requires
        references_resolved(items),
        item_resolved(item, items.push(item)),
    ensures
        references_resolved(items.push(item)),
{
    let after = items.push(item);
    assert forall|i: int| 0 <= i < after.len() implies item_resolved(
        #[trigger] after[i],
        after,
    ) by {
        if i < items.len() {
            assert(item_resolved(items[i], items));
            lemma_item_stays_resolved(items[i], items, item);
        }
    }
}

/// Asking for the array buffer never leaves a reference unresolved.
pub proof fn lemma_array_buffer_keeps_resolved(items: Seq<ItemModel>)
    requires
        references_resolved(items),
    ensures
        references_resolved(after_array_buffer(items)),
{
    if !has_type_def(items, array_buffer_name()) {
        let options = ItemModel::TypeDef(array_buffer_options_def());
        let buffer = ItemModel::TypeDef(array_buffer_def());
        let mid = items.push(options);
        let after = mid.push(buffer);
        reveal_with_fuel(type_resolved, 3);
        lemma_push_keeps_resolved(items, options);
        lemma_has_after_push(items, options, array_buffer_options_name());
        lemma_has_after_push(mid, buffer, array_buffer_options_name());
        lemma_has_after_push(mid, buffer, array_buffer_name());
        let funcs = array_buffer_funcs();
        assert(funcs.len() == 3);
        assert(func_resolved(funcs[0], after));
        assert(func_resolved(funcs[1], after));
        assert(func_resolved(funcs[2], after));
        lemma_push_keeps_resolved(mid, buffer);
    }
}

/// Asking for a typed array never leaves a reference unresolved, provided
/// that the array buffer, to which every typed array refers, is present.
pub proof fn lemma_typed_array_keeps_resolved(items: Seq<ItemModel>, k: TypedArrayKind)
    requires
        references_resolved(items),
        has_type_def(items, array_buffer_name()),
    ensures
        references_resolved(after_typed_array(items, k)),
{
    if !has_type_def(items, array_name(k)) {
        let options = ItemModel::TypeDef(typed_array_options_def(k));
        let set_src = ItemModel::TypeDef(typed_array_set_src_def(k));
        let array = ItemModel::TypeDef(typed_array_def(k));
        let one = items.push(options);
        let two = one.push(set_src);
        let after = two.push(array);
        lemma_three_pushes(items, options, set_src, array, array_buffer_name());
        lemma_three_pushes(items, options, set_src, array, array_name(k));
        lemma_three_pushes(items, options, set_src, array, options_name(k));
        lemma_three_pushes(items, options, set_src, array, set_src_name(k));
        lemma_typed_array_defs_resolved(after, k);
        assert forall|i: int| 0 <= i < after.len() implies item_resolved(
            #[trigger] after[i],
            after,
        ) by {
            if i < items.len() {
                assert(item_resolved(items[i], items));
                lemma_item_stays_resolved(items[i], items, options);
                lemma_item_stays_resolved(items[i], one, set_src);
                lemma_item_stays_resolved(items[i], two, array);
            }
        }
    }
}

/// The three definitions of a typed array are resolved wherever they and
/// the array buffer are present.
pub proof fn lemma_typed_array_defs_resolved(items: Seq<ItemModel>, k: TypedArrayKind)
    requires
        has_type_def(items, array_buffer_name()),
        has_type_def(items, array_name(k)),
        has_type_def(items, options_name(k)),
        has_type_def(items, set_src_name(k)),
    ensures
        kind_resolved(typed_array_options_def(k).kind, items),
        kind_resolved(typed_array_set_src_def(k).kind, items),
        kind_resolved(typed_array_def(k).kind, items),
{
    reveal_with_fuel(type_resolved, 3);
    let cases = typed_array_options_def(k).kind->Variant_0;
    assert(cases.len() == 4);
    assert(case_resolved(cases[0], items));
    assert(case_resolved(cases[1], items));
    assert(case_resolved(cases[2], items));
    assert(case_resolved(cases[3], items));
    let sources = typed_array_set_src_def(k).kind->Variant_0;
    assert(sources.len() == 2);
    assert(case_resolved(sources[0], items));
    assert(case_resolved(sources[1], items));
    let funcs = typed_array_funcs(k);
    assert(funcs.len() == 14);
    assert(func_resolved(funcs[0], items));
    assert(func_resolved(funcs[1], items));
    assert(func_resolved(funcs[2], items));
    assert(func_resolved(funcs[3], items));
    assert(func_resolved(funcs[4], items));
    assert(func_resolved(funcs[5], items));
    assert(func_resolved(funcs[6], items));
    assert(func_resolved(funcs[7], items));
    assert(func_resolved(funcs[8], items));
    assert(func_resolved(funcs[9], items));
    assert(func_resolved(funcs[10], items));
    assert(func_resolved(funcs[11], items));
    assert(func_resolved(funcs[12], items));
    assert(func_resolved(funcs[13], items));
}

/// Asking for a record resource never leaves a reference unresolved,
/// provided that the value type itself is resolved.
pub proof fn lemma_record_keeps_resolved(items: Seq<ItemModel>, name: Seq<char>, v: TypeModel)
    requires
        references_resolved(items),
        type_resolved(v, items),
    ensures
        references_resolved(after_record(items, name, v)),
{
    if !has_type_def(items, name) {
        let record = ItemModel::TypeDef(record_def(name, v));
        let after = items.push(record);
        lemma_type_stays_resolved(v, items, record);
        reveal_with_fuel(type_resolved, 3);
        let funcs = record_funcs(v);
        assert(funcs.len() == 8);
        assert(func_resolved(funcs[0], after));
        assert(func_resolved(funcs[1], after));
        assert(func_resolved(funcs[2], after));
        assert(func_resolved(funcs[3], after));
        assert(func_resolved(funcs[4], after));
        assert(func_resolved(funcs[5], after));
        assert(func_resolved(funcs[6], after));
        assert(func_resolved(funcs[7], after));
        lemma_push_keeps_resolved(items, record);
    }
}

} // verus!
