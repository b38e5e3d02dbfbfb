//! What holds of the names and of the synthesizers taken together.
use crate::interface::{def_name, has_type_def, lemma_has_after_push};
use crate::kinds::TypedArrayKind;
use crate::shapes::{
    array_buffer_def, array_buffer_options_def, record_def, typed_array_def, typed_array_funcs,
    typed_array_options_def, typed_array_set_src_def,
};
use crate::synth::{after_array_buffer, after_record, after_typed_array};
use crate::text::{
    array_buffer_name, array_buffer_options_name, array_name, options_name, record_name,
    record_name_of_text, set_src_name, type_text,
};
use crate::types::{ItemModel, Primitive, TypeDefModel, TypeModel};
use vstd::prelude::*;

verus! {

/// Whether a name begins like the prefix of a typed-array kind.
pub open spec fn starts_like_kind(s: Seq<char>) -> bool {
    s.len() > 0 && (s[0] == 'u' || s[0] == 'i' || s[0] == 'f')
}

/// Text that ends in the same suffix is equal only where what stands
/// before the suffix is equal.
pub proof fn lemma_suffix_cancels(a: Seq<char>, b: Seq<char>, suffix: Seq<char>)
    requires
        a + suffix == b + suffix,
    ensures
        a == b,
{
    assert((a + suffix).len() == a.len() + suffix.len());
    assert((b + suffix).len() == b.len() + suffix.len());
    assert(a =~= (a + suffix).subrange(0, a.len() as int));
    assert(b =~= (b + suffix).subrange(0, b.len() as int));
}

/// Text that begins with the same prefix is equal only where what
/// follows the prefix is equal.
pub proof fn lemma_prefix_cancels(prefix: Seq<char>, a: Seq<char>, b: Seq<char>)
    requires
        prefix + a == prefix + b,
    ensures
        a == b,
{
    assert((prefix + a).len() == prefix.len() + a.len());
    assert((prefix + b).len() == prefix.len() + b.len());
    assert(a =~= (prefix + a).subrange(prefix.len() as int, (prefix + a).len() as int));
    assert(b =~= (prefix + b).subrange(prefix.len() as int, (prefix + b).len() as int));
}

/// The kind that a prefix stands for, read off its length and a few of
/// its characters.
pub open spec fn kind_of_prefix(s: Seq<char>) -> TypedArrayKind {
    if s.len() == 4 {
        TypedArrayKind::Int8
    } else if s.len() == 5 {
        if s[0] == 'u' {
            TypedArrayKind::UInt8
        } else if s[3] == '1' {
            TypedArrayKind::Int16
        } else {
            TypedArrayKind::Int32
        }
    } else if s.len() == 6 {
        if s[4] == '1' {
            TypedArrayKind::UInt16
        } else {
            TypedArrayKind::UInt32
        }
    } else if s.len() == 7 {
        if s[5] == '3' {
            TypedArrayKind::Float32
        } else {
            TypedArrayKind::Float64
        }
    } else {
        TypedArrayKind::UInt8Clamped
    }
}

/// A kind can be read back from its prefix.
pub proof fn lemma_prefix_decodes(k: TypedArrayKind)
    ensures
        kind_of_prefix(k.prefix()) == k,
{
    reveal_strlit("uint8");
    reveal_strlit("uint8-clamped");
    reveal_strlit("uint16");
    reveal_strlit("uint32");
    reveal_strlit("int8");
    reveal_strlit("int16");
    reveal_strlit("int32");
    reveal_strlit("float32");
    reveal_strlit("float64");
}

/// The prefixes of two different kinds differ.
pub proof fn lemma_prefix_injective(k1: TypedArrayKind, k2: TypedArrayKind)
    requires
        k1.prefix() == k2.prefix(),
    ensures
        k1 == k2,
{
    lemma_prefix_decodes(k1);
    lemma_prefix_decodes(k2);
}

/// How the three names of a kind begin and end.
pub proof fn lemma_kind_names(k: TypedArrayKind)
    ensures
        starts_like_kind(array_name(k)),
        starts_like_kind(options_name(k)),
        starts_like_kind(set_src_name(k)),
        array_name(k).last() == 'y',
        options_name(k).last() == 's',
        set_src_name(k).last() == 'c',
{
    reveal_strlit("uint8");
    reveal_strlit("uint8-clamped");
    reveal_strlit("uint16");
    reveal_strlit("uint32");
    reveal_strlit("int8");
    reveal_strlit("int16");
    reveal_strlit("int32");
    reveal_strlit("float32");
    reveal_strlit("float64");
    reveal_strlit("-array");
    reveal_strlit("-constructor-options");
    reveal_strlit("-set-src");
    let p = k.prefix();
    assert(p.len() > 0 && (p[0] == 'u' || p[0] == 'i' || p[0] == 'f'));
    let n = array_name(k);
    assert(n.len() == p.len() + 6);
    assert(n[0] == p[0]);
    assert(n[n.len() - 1] == "-array"@[5]);
    let o = options_name(k);
    assert(o.len() == n.len() + 20);
    assert(o[0] == n[0]);
    assert(o[o.len() - 1] == "-constructor-options"@[19]);
    let s = set_src_name(k);
    assert(s.len() == n.len() + 8);
    assert(s[0] == n[0]);
    assert(s[s.len() - 1] == "-set-src"@[7]);
}

/// Two different kinds share none of their names, and the three names of
/// one kind differ from each other.
pub proof fn lemma_kind_names_disjoint(k1: TypedArrayKind, k2: TypedArrayKind)
    ensures
        array_name(k1) != options_name(k2),
        array_name(k1) != set_src_name(k2),
        options_name(k1) != set_src_name(k2),
        k1 != k2 ==> array_name(k1) != array_name(k2),
        k1 != k2 ==> options_name(k1) != options_name(k2),
        k1 != k2 ==> set_src_name(k1) != set_src_name(k2),
{
    lemma_kind_names(k1);
    lemma_kind_names(k2);
    if array_name(k1) == array_name(k2) {
        lemma_suffix_cancels(k1.prefix(), k2.prefix(), "-array"@);
        lemma_prefix_injective(k1, k2);
    }
    if options_name(k1) == options_name(k2) {
        lemma_suffix_cancels(array_name(k1), array_name(k2), "-constructor-options"@);
    }
    if set_src_name(k1) == set_src_name(k2) {
        lemma_suffix_cancels(array_name(k1), array_name(k2), "-set-src"@);
    }
}

/// The names of the array buffer and of every record resource do not
/// begin like a name of a typed-array kind, and differ from each other.
pub proof fn lemma_family_names_disjoint(text: Seq<char>)
    ensures
        !starts_like_kind(array_buffer_name()),
        !starts_like_kind(array_buffer_options_name()),
        !starts_like_kind(record_name_of_text(text)),
        array_buffer_name() != array_buffer_options_name(),
        record_name_of_text(text) != array_buffer_name(),
        record_name_of_text(text) != array_buffer_options_name(),
{
    reveal_strlit("array-buffer");
    reveal_strlit("array-buffer-constructor-options");
    reveal_strlit("record-");
    let r = record_name_of_text(text);
    assert(array_buffer_name().len() == 12);
    assert(array_buffer_options_name().len() == 32);
    assert(r.len() == 7 + text.len());
    assert(r[0] == "record-"@[0]);
    assert(array_buffer_name()[0] == 'a');
    assert(array_buffer_options_name()[0] == 'a');
}

/// Two value types get the same record name exactly where `wit_encoder`
/// renders them to the same text; the same value type always gets the
/// same name.
pub proof fn lemma_record_names(v1: TypeModel, v2: TypeModel)
    ensures
        record_name(v1) == record_name(v2) <==> type_text(v1) == type_text(v2),
        v1 == v2 ==> record_name(v1) == record_name(v2),
{
    if record_name(v1) == record_name(v2) {
        lemma_prefix_cancels("record-"@, type_text(v1), type_text(v2));
    }
}

/// The clamped and the plain byte kind have the same element type, `u8`,
/// so their definitions agree wherever an element is taken or returned:
/// in the list case of the set source, in the value that `fill` takes,
/// and in `at`, `values`, `get-index` and `set-index`.
pub proof fn lemma_clamped_bytes_are_bytes()
    ensures
        TypedArrayKind::UInt8.element() == Primitive::U8,
        TypedArrayKind::UInt8Clamped.element() == Primitive::U8,
        typed_array_set_src_def(TypedArrayKind::UInt8Clamped).kind->Variant_0[0]
            == typed_array_set_src_def(TypedArrayKind::UInt8).kind->Variant_0[0],
        typed_array_funcs(TypedArrayKind::UInt8Clamped)[1].params[0] == typed_array_funcs(
            TypedArrayKind::UInt8,
        )[1].params[0],
        typed_array_funcs(TypedArrayKind::UInt8Clamped)[6] == typed_array_funcs(
            TypedArrayKind::UInt8,
        )[6],
        typed_array_funcs(TypedArrayKind::UInt8Clamped)[11] == typed_array_funcs(
            TypedArrayKind::UInt8,
        )[11],
        typed_array_funcs(TypedArrayKind::UInt8Clamped)[12] == typed_array_funcs(
            TypedArrayKind::UInt8,
        )[12],
        typed_array_funcs(TypedArrayKind::UInt8Clamped)[13] == typed_array_funcs(
            TypedArrayKind::UInt8,
        )[13],
{
}

/// In a well-formed interface a name is found at one place only.
pub proof fn lemma_found_once(items: Seq<ItemModel>, name: Seq<char>, i: int, j: int)
    requires
        well_formed(items),
        0 <= i < items.len(),
        0 <= j < items.len(),
        def_name(items[i]) == Some(name),
        def_name(items[j]) == Some(name),
    ensures
        i == j,
{
    if i < j {
        assert(def_name(items[i]) != def_name(items[j]));
    }
    if j < i {
        assert(def_name(items[j]) != def_name(items[i]));
    }
}

/// No two type definitions among the items share a name.
pub open spec fn distinct_names(items: Seq<ItemModel>) -> bool {
    forall|i: int, j: int|
        0 <= i < j < items.len() && def_name(items[i]) is Some ==> #[trigger] def_name(items[i])
            != #[trigger] def_name(items[j])
}

/// Wherever an auxiliary type of a synthesized resource is present, the
/// resource itself is present.
pub open spec fn auxiliaries_follow(items: Seq<ItemModel>) -> bool {
    &&& has_type_def(items, array_buffer_options_name()) ==> has_type_def(
        items,
        array_buffer_name(),
    )
    &&& forall|k: TypedArrayKind| #[trigger]
        has_type_def(items, options_name(k)) ==> has_type_def(items, array_name(k))
    &&& forall|k: TypedArrayKind| #[trigger]
        has_type_def(items, set_src_name(k)) ==> has_type_def(items, array_name(k))
}

/// The invariant of an interface that the synthesizers fill: names are
/// unique, and auxiliary types come with their resource.
pub open spec fn well_formed(items: Seq<ItemModel>) -> bool {
    distinct_names(items) && auxiliaries_follow(items)
}

/// The empty interface is well formed.
pub proof fn lemma_empty_well_formed()
    ensures
        well_formed(Seq::<ItemModel>::empty()),
{
}

/// Appending a definition under a name that is not yet taken keeps the
/// names unique.
pub proof fn lemma_push_keeps_distinct(items: Seq<ItemModel>, td: TypeDefModel)
    requires
        distinct_names(items),
        !has_type_def(items, td.name),
    ensures
        distinct_names(items.push(ItemModel::TypeDef(td))),
{
    let after = items.push(ItemModel::TypeDef(td));
    assert forall|i: int, j: int|
        0 <= i < j < after.len() && def_name(after[i]) is Some implies #[trigger] def_name(
        after[i],
    ) != #[trigger] def_name(after[j]) by {
        if j == items.len() {
            if def_name(items[i]) == Some(td.name) {
                assert(has_type_def(items, td.name));
            }
        } else {
            assert(def_name(items[i]) != def_name(items[j]));
        }
    }
}

/// Asking for the array buffer keeps the interface well formed, leaves
/// the resource present, and a second request changes nothing.
pub proof fn lemma_array_buffer_once(items: Seq<ItemModel>)
    ensures
        has_type_def(after_array_buffer(items), array_buffer_name()),
        after_array_buffer(after_array_buffer(items)) == after_array_buffer(items),
        well_formed(items) ==> well_formed(after_array_buffer(items)),
{
    let options = ItemModel::TypeDef(array_buffer_options_def());
    let buffer = ItemModel::TypeDef(array_buffer_def());
    let mid = items.push(options);
    let after = mid.push(buffer);
    lemma_has_after_push(mid, buffer, array_buffer_name());
    if well_formed(items) && !has_type_def(items, array_buffer_name()) {
        lemma_family_names_disjoint(Seq::empty());
        lemma_push_keeps_distinct(items, array_buffer_options_def());
        lemma_has_after_push(items, options, array_buffer_name());
        lemma_push_keeps_distinct(mid, array_buffer_def());
        lemma_has_after_push(items, options, array_buffer_options_name());
        lemma_has_after_push(mid, buffer, array_buffer_options_name());
        assert forall|k: TypedArrayKind| #[trigger]
            has_type_def(after, options_name(k)) implies has_type_def(after, array_name(k)) by {
            lemma_kind_names(k);
            lemma_has_after_push(items, options, options_name(k));
            lemma_has_after_push(mid, buffer, options_name(k));
            lemma_has_after_push(items, options, array_name(k));
            lemma_has_after_push(mid, buffer, array_name(k));
        }
        assert forall|k: TypedArrayKind| #[trigger]
            has_type_def(after, set_src_name(k)) implies has_type_def(after, array_name(k)) by {
            lemma_kind_names(k);
            lemma_has_after_push(items, options, set_src_name(k));
            lemma_has_after_push(mid, buffer, set_src_name(k));
            lemma_has_after_push(items, options, array_name(k));
            lemma_has_after_push(mid, buffer, array_name(k));
        }
    }
}

/// Asking for a typed array on an interface that lacks it appends exactly
/// three definitions, the resource last; in any case the resource is
/// present afterwards, the interface stays well formed, and a second
/// request for the same kind changes nothing.
pub proof fn lemma_typed_array_once(items: Seq<ItemModel>, k: TypedArrayKind)
    ensures
        !has_type_def(items, array_name(k)) ==> {
            let after = after_typed_array(items, k);
            let n: int = items.len() as int;
            &&& after.len() == n + 3
            &&& after.subrange(0, n) == items
            &&& after[n] == ItemModel::TypeDef(typed_array_options_def(k))
            &&& after[n + 1] == ItemModel::TypeDef(typed_array_set_src_def(k))
            &&& after[n + 2] == ItemModel::TypeDef(typed_array_def(k))
        },
        has_type_def(after_typed_array(items, k), array_name(k)),
        after_typed_array(after_typed_array(items, k), k) == after_typed_array(items, k),
        well_formed(items) ==> well_formed(after_typed_array(items, k)),
{
    let options = ItemModel::TypeDef(typed_array_options_def(k));
    let set_src = ItemModel::TypeDef(typed_array_set_src_def(k));
    let array = ItemModel::TypeDef(typed_array_def(k));
    let one = items.push(options);
    let two = one.push(set_src);
    let after = two.push(array);
    assert(after.subrange(0, items.len() as int) =~= items);
    lemma_has_after_push(two, array, array_name(k));
    if well_formed(items) && !has_type_def(items, array_name(k)) {
        lemma_kind_names(k);
        lemma_kind_names_disjoint(k, k);
        lemma_family_names_disjoint(Seq::empty());
        assert(!has_type_def(items, options_name(k)));
        assert(!has_type_def(items, set_src_name(k)));
        lemma_push_keeps_distinct(items, typed_array_options_def(k));
        lemma_has_after_push(items, options, set_src_name(k));
        lemma_push_keeps_distinct(one, typed_array_set_src_def(k));
        lemma_has_after_push(items, options, array_name(k));
        lemma_has_after_push(one, set_src, array_name(k));
        lemma_push_keeps_distinct(two, typed_array_def(k));
        lemma_three_pushes(items, options, set_src, array, array_buffer_options_name());
        lemma_three_pushes(items, options, set_src, array, array_buffer_name());
        assert forall|q: TypedArrayKind| #[trigger]
            has_type_def(after, options_name(q)) implies has_type_def(after, array_name(q)) by {
            lemma_kind_names_disjoint(q, k);
            lemma_kind_names_disjoint(k, q);
            lemma_three_pushes(items, options, set_src, array, options_name(q));
            lemma_three_pushes(items, options, set_src, array, array_name(q));
            if options_name(q) == options_name(k) {
                lemma_suffix_cancels(array_name(q), array_name(k), "-constructor-options"@);
            }
        }
        assert forall|q: TypedArrayKind| #[trigger]
            has_type_def(after, set_src_name(q)) implies has_type_def(after, array_name(q)) by {
            lemma_kind_names_disjoint(q, k);
            lemma_kind_names_disjoint(k, q);
            lemma_three_pushes(items, options, set_src, array, set_src_name(q));
            lemma_three_pushes(items, options, set_src, array, array_name(q));
            if set_src_name(q) == set_src_name(k) {
                lemma_suffix_cancels(array_name(q), array_name(k), "-set-src"@);
            }
        }
    }
}

/// What is found after three items have been appended.
pub proof fn lemma_three_pushes(
    items: Seq<ItemModel>,
    a: ItemModel,
    b: ItemModel,
    c: ItemModel,
    name: Seq<char>,
)
    ensures
        has_type_def(items.push(a).push(b).push(c), name) <==> has_type_def(items, name)
            || def_name(a) == Some(name) || def_name(b) == Some(name) || def_name(c) == Some(
            name,
        ),
{
    lemma_has_after_push(items, a, name);
    lemma_has_after_push(items.push(a), b, name);
    lemma_has_after_push(items.push(a).push(b), c, name);
}

/// Asking for a record resource keeps the interface well formed, leaves
/// the resource present, and a second request for a value type with the
/// same rendering changes nothing.
pub proof fn lemma_record_once(items: Seq<ItemModel>, text: Seq<char>, v: TypeModel, w: TypeModel)
    ensures
        has_type_def(after_record(items, record_name_of_text(text), v), record_name_of_text(text)),
        after_record(
            after_record(items, record_name_of_text(text), v),
            record_name_of_text(text),
            w,
        ) == after_record(items, record_name_of_text(text), v),
        well_formed(items) ==> well_formed(after_record(items, record_name_of_text(text), v)),
{
    let name = record_name_of_text(text);
    let record = ItemModel::TypeDef(record_def(name, v));
    let after = items.push(record);
    lemma_has_after_push(items, record, name);
    if well_formed(items) && !has_type_def(items, name) {
        lemma_family_names_disjoint(text);
        lemma_push_keeps_distinct(items, record_def(name, v));
        lemma_has_after_push(items, record, array_buffer_options_name());
        lemma_has_after_push(items, record, array_buffer_name());
        assert forall|k: TypedArrayKind| #[trigger]
            has_type_def(after, options_name(k)) implies has_type_def(after, array_name(k)) by {
            lemma_kind_names(k);
            lemma_has_after_push(items, record, options_name(k));
            lemma_has_after_push(items, record, array_name(k));
        }
        assert forall|k: TypedArrayKind| #[trigger]
            has_type_def(after, set_src_name(k)) implies has_type_def(after, array_name(k)) by {
            lemma_kind_names(k);
            lemma_has_after_push(items, record, set_src_name(k));
            lemma_has_after_push(items, record, array_name(k));
        }
    }
}

} // verus!
