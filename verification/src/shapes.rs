//! What each synthesized definition looks like, as a model, and the code
//! that builds it.
use crate::kinds::TypedArrayKind;
use crate::text::{
    array_buffer_name, array_buffer_options_name, array_name, options_name, set_src_name,
    shared_array_buffer_name, join, typed_array_name,
};
use crate::types::{
    list, named, no_cases, no_funcs, no_slots, optional, prim, push_case, push_func, push_slot,
    tuple, CaseModel, FuncKind, FuncModel, KindModel, Primitive, SlotModel, TypeDef, TypeDefKind,
    TypeDefModel, TypeModel, WitType,
};
use vstd::prelude::*;

verus! {

/// A slot of that name and type.
pub open spec fn slot(name: Seq<char>, ty: TypeModel) -> SlotModel {
    SlotModel { name, ty }
}

/// A variant case of that name with one payload.
pub open spec fn case(name: Seq<char>, payload: TypeModel) -> CaseModel {
    CaseModel { name, payload: Some(payload) }
}

/// A constructor with the given parameters.
pub open spec fn constructor(params: Seq<SlotModel>) -> FuncModel {
    FuncModel { kind: FuncKind::Constructor, name: ""@, params, result: None }
}

/// A method with the given name, parameters and result.
pub open spec fn method(
    name: Seq<char>,
    params: Seq<SlotModel>,
    result: Option<TypeModel>,
) -> FuncModel {
    FuncModel { kind: FuncKind::Method, name, params, result }
}

/// `u32`.
pub open spec fn u32_model() -> TypeModel {
    prim(Primitive::U32)
}

/// `string`.
pub open spec fn string_model() -> TypeModel {
    prim(Primitive::Str)
}

/// No parameters.
pub open spec fn params0() -> Seq<SlotModel> {
    Seq::empty()
}

/// One parameter.
pub open spec fn params1(a: SlotModel) -> Seq<SlotModel> {
    Seq::empty().push(a)
}

/// Two parameters, in order.
pub open spec fn params2(a: SlotModel, b: SlotModel) -> Seq<SlotModel> {
    Seq::empty().push(a).push(b)
}

/// Three parameters, in order.
pub open spec fn params3(a: SlotModel, b: SlotModel, c: SlotModel) -> Seq<SlotModel> {
    Seq::empty().push(a).push(b).push(c)
}

/// The record `array-buffer-constructor-options`.
pub open spec fn array_buffer_options_def() -> TypeDefModel {
    TypeDefModel {
        name: array_buffer_options_name(),
        kind: KindModel::Record(params1(slot("max-byte-length"@, u32_model()))),
    }
}

/// The operations of the resource `array-buffer`, in order: a constructor
/// and the methods `byte-length` and `slice`, the latter returning the
/// resource itself.
pub open spec fn array_buffer_funcs() -> Seq<FuncModel> {
    let u = u32_model();
    Seq::empty()
        .push(
            constructor(
                params2(
                    slot("length"@, u),
                    slot("options"@, optional(named(array_buffer_options_name()))),
                ),
            ),
        )
        .push(method("byte-length"@, params0(), Some(u)))
        .push(
            method(
                "slice"@,
                params2(slot("begin"@, u), slot("end"@, optional(u))),
                Some(named(array_buffer_name())),
            ),
        )
}

/// The resource `array-buffer`.
pub open spec fn array_buffer_def() -> TypeDefModel {
    TypeDefModel { name: array_buffer_name(), kind: KindModel::Resource(array_buffer_funcs()) }
}

/// A buffer together with an optional offset and an optional length.
pub open spec fn buffer_window(buffer: Seq<char>) -> TypeModel {
    tuple(Seq::empty().push(named(buffer)).push(optional(u32_model())).push(optional(u32_model())))
}

/// The variant of what a typed array of kind `k` can be constructed from.
pub open spec fn typed_array_options_def(k: TypedArrayKind) -> TypeDefModel {
    TypeDefModel {
        name: options_name(k),
        kind: KindModel::Variant(
            Seq::empty()
                .push(case(array_name(k), named(array_name(k))))
                .push(case("length"@, u32_model()))
                .push(case("array-buffer"@, buffer_window(array_buffer_name())))
                .push(case("shared-array-buffer"@, buffer_window(shared_array_buffer_name()))),
        ),
    }
}

/// The variant of what `set` copies from: a list of elements or another
/// array of the same kind.
pub open spec fn typed_array_set_src_def(k: TypedArrayKind) -> TypeDefModel {
    TypeDefModel {
        name: set_src_name(k),
        kind: KindModel::Variant(
            Seq::empty()
                .push(case("list"@, list(prim(k.element()))))
                .push(case(array_name(k), named(array_name(k)))),
        ),
    }
}

/// The operations of the typed-array resource of kind `k`, in order.
/// Indexed access stands as the named operations `get-index` and
/// `set-index`; `set` takes its source as one sum-typed parameter.
pub open spec fn typed_array_funcs(k: TypedArrayKind) -> Seq<FuncModel> {
    let me = named(array_name(k));
    let elem = prim(k.element());
    let u = u32_model();
    let range = params2(slot("begin"@, u), slot("end"@, u));
    Seq::empty()
        .push(constructor(params1(slot("options"@, optional(named(options_name(k)))))))
        .push(
            method(
                "fill"@,
                params3(
                    slot("value"@, elem),
                    slot("start"@, optional(u)),
                    slot("end"@, optional(u)),
                ),
                Some(me),
            ),
        )
        .push(method("buffer"@, params0(), Some(named(array_buffer_name()))))
        .push(method("length"@, params0(), Some(u)))
        .push(method("byte-offset"@, params0(), Some(u)))
        .push(method("byte-length"@, params0(), Some(u)))
        .push(method("at"@, params1(slot("index"@, prim(Primitive::S32))), Some(optional(elem))))
        .push(
            method(
                "copy-within"@,
                params3(slot("target"@, u), slot("start"@, u), slot("end"@, optional(u))),
                Some(me),
            ),
        )
        .push(
            method(
                "set"@,
                params2(slot("src"@, named(set_src_name(k))), slot("offset"@, u)),
                None,
            ),
        )
        .push(method("slice"@, range, Some(me)))
        .push(method("subarray"@, range, Some(me)))
        .push(method("values"@, params0(), Some(list(elem))))
        .push(method("get-index"@, params1(slot("index"@, u)), Some(elem)))
        .push(method("set-index"@, params2(slot("index"@, u), slot("value"@, elem)), None))
}

/// The typed-array resource of kind `k`.
pub open spec fn typed_array_def(k: TypedArrayKind) -> TypeDefModel {
    TypeDefModel { name: array_name(k), kind: KindModel::Resource(typed_array_funcs(k)) }
}

/// The operations of a record resource with values of type `v`, in order.
/// Keys are strings whatever the key type of the source was.
pub open spec fn record_funcs(v: TypeModel) -> Seq<FuncModel> {
    let key = string_model();
    let by_key = params1(slot("key"@, key));
    Seq::empty()
        .push(constructor(params0()))
        .push(method("add"@, params2(slot("key"@, key), slot("value"@, v)), None))
        .push(method("get"@, by_key, Some(v)))
        .push(method("has"@, by_key, Some(prim(Primitive::Bool))))
        .push(method("remove"@, by_key, None))
        .push(method("keys"@, params0(), Some(list(key))))
        .push(method("values"@, params0(), Some(list(v))))
        .push(method("entries"@, params0(), Some(list(tuple(Seq::empty().push(key).push(v))))))
}

/// The record resource of that name with values of type `v`.
pub open spec fn record_def(name: Seq<char>, v: TypeModel) -> TypeDefModel {
    TypeDefModel { name, kind: KindModel::Resource(record_funcs(v)) }
}

fn u32_type() -> (r: WitType)
    ensures
        r@ == u32_model(),
{
    WitType::primitive(Primitive::U32)
}

fn opt_u32() -> (r: WitType)
    ensures
        r@ == optional(u32_model()),
{
    WitType::optional(u32_type())
}

fn string_type() -> (r: WitType)
    ensures
        r@ == string_model(),
{
    WitType::primitive(Primitive::Str)
}

/// Builds the record `array-buffer-constructor-options`.
pub fn build_array_buffer_options() -> (r: TypeDef)
    ensures
        r@ == array_buffer_options_def(),
{
    let mut fields = no_slots();
    push_slot(&mut fields, "max-byte-length", u32_type());
    TypeDef {
        name: "array-buffer-constructor-options".to_owned(),
        kind: TypeDefKind::Record(fields),
    }
}

/// Builds the resource `array-buffer`.
pub fn build_array_buffer() -> (r: TypeDef)
    ensures
        r@ == array_buffer_def(),
{
    let mut funcs = no_funcs();

    let mut params = no_slots();
    push_slot(&mut params, "length", u32_type());
    push_slot(
        &mut params,
        "options",
        WitType::optional(WitType::named("array-buffer-constructor-options")),
    );
    push_func(&mut funcs, FuncKind::Constructor, "", params, None);

    push_func(&mut funcs, FuncKind::Method, "byte-length", no_slots(), Some(u32_type()));

    let mut params = no_slots();
    push_slot(&mut params, "begin", u32_type());
    push_slot(&mut params, "end", opt_u32());
    push_func(&mut funcs, FuncKind::Method, "slice", params, Some(WitType::named("array-buffer")));

    TypeDef { name: "array-buffer".to_owned(), kind: TypeDefKind::Resource(funcs) }
}

fn build_buffer_window(buffer: &str) -> (r: WitType)
    ensures
        r@ == buffer_window(buffer@),
{
    WitType::triple(WitType::named(buffer), opt_u32(), opt_u32())
}

/// Builds the constructor-options variant of a typed array.
pub fn build_typed_array_options(kind: TypedArrayKind) -> (r: TypeDef)
    ensures
        r@ == typed_array_options_def(kind),
{
    let array = typed_array_name(kind);
    let mut cases = no_cases();
    push_case(&mut cases, array.as_str(), WitType::named(array.as_str()));
    push_case(&mut cases, "length", u32_type());
    push_case(&mut cases, "array-buffer", build_buffer_window("array-buffer"));
    push_case(&mut cases, "shared-array-buffer", build_buffer_window("shared-array-buffer"));
    TypeDef {
        name: join(array.as_str(), "-constructor-options"),
        kind: TypeDefKind::Variant(cases),
    }
}

/// Builds the set-source variant of a typed array.
pub fn build_typed_array_set_src(kind: TypedArrayKind) -> (r: TypeDef)
    ensures
        r@ == typed_array_set_src_def(kind),
{
    let array = typed_array_name(kind);
    let mut cases = no_cases();
    push_case(&mut cases, "list", WitType::list(kind.element_type()));
    push_case(&mut cases, array.as_str(), WitType::named(array.as_str()));
    TypeDef { name: join(array.as_str(), "-set-src"), kind: TypeDefKind::Variant(cases) }
}

/// Builds the typed-array resource.
pub fn build_typed_array(kind: TypedArrayKind) -> (r: TypeDef)
    ensures
        r@ == typed_array_def(kind),
{
    let array = typed_array_name(kind);
    let name = array.as_str();
    let options = join(name, "-constructor-options");
    let set_src = join(name, "-set-src");
    let mut funcs = no_funcs();

    let mut params = no_slots();
    push_slot(&mut params, "options", WitType::optional(WitType::named(options.as_str())));
    push_func(&mut funcs, FuncKind::Constructor, "", params, None);

    let mut params = no_slots();
    push_slot(&mut params, "value", kind.element_type());
    push_slot(&mut params, "start", opt_u32());
    push_slot(&mut params, "end", opt_u32());
    push_func(&mut funcs, FuncKind::Method, "fill", params, Some(WitType::named(name)));

    push_func(
        &mut funcs,
        FuncKind::Method,
        "buffer",
        no_slots(),
        Some(WitType::named("array-buffer")),
    );
    push_func(&mut funcs, FuncKind::Method, "length", no_slots(), Some(u32_type()));
    push_func(&mut funcs, FuncKind::Method, "byte-offset", no_slots(), Some(u32_type()));
    push_func(&mut funcs, FuncKind::Method, "byte-length", no_slots(), Some(u32_type()));

    let mut params = no_slots();
    push_slot(&mut params, "index", WitType::primitive(Primitive::S32));
    push_func(
        &mut funcs,
        FuncKind::Method,
        "at",
        params,
        Some(WitType::optional(kind.element_type())),
    );

    let mut params = no_slots();
    push_slot(&mut params, "target", u32_type());
    push_slot(&mut params, "start", u32_type());
    push_slot(&mut params, "end", opt_u32());
    push_func(&mut funcs, FuncKind::Method, "copy-within", params, Some(WitType::named(name)));

    let mut params = no_slots();
    push_slot(&mut params, "src", WitType::named(set_src.as_str()));
    push_slot(&mut params, "offset", u32_type());
    push_func(&mut funcs, FuncKind::Method, "set", params, None);

    let mut params = no_slots();
    push_slot(&mut params, "begin", u32_type());
    push_slot(&mut params, "end", u32_type());
    push_func(&mut funcs, FuncKind::Method, "slice", params, Some(WitType::named(name)));

    let mut params = no_slots();
    push_slot(&mut params, "begin", u32_type());
    push_slot(&mut params, "end", u32_type());
    push_func(&mut funcs, FuncKind::Method, "subarray", params, Some(WitType::named(name)));

    push_func(
        &mut funcs,
        FuncKind::Method,
        "values",
        no_slots(),
        Some(WitType::list(kind.element_type())),
    );

    let mut params = no_slots();
    push_slot(&mut params, "index", u32_type());
    push_func(&mut funcs, FuncKind::Method, "get-index", params, Some(kind.element_type()));

    let mut params = no_slots();
    push_slot(&mut params, "index", u32_type());
    push_slot(&mut params, "value", kind.element_type());
    push_func(&mut funcs, FuncKind::Method, "set-index", params, None);

    let name = typed_array_name(kind);
    TypeDef { name, kind: TypeDefKind::Resource(funcs) }
}

/// Builds the record resource of that name with values of the given type.
pub fn build_record(name: &String, value: &WitType) -> (r: TypeDef)
    ensures
        r@ == record_def(name@, value@),
{
    let mut funcs = no_funcs();
    push_func(&mut funcs, FuncKind::Constructor, "", no_slots(), None);

    let mut params = no_slots();
    push_slot(&mut params, "key", string_type());
    push_slot(&mut params, "value", value.duplicate());
    push_func(&mut funcs, FuncKind::Method, "add", params, None);

    let mut params = no_slots();
    push_slot(&mut params, "key", string_type());
    push_func(&mut funcs, FuncKind::Method, "get", params, Some(value.duplicate()));

    let mut params = no_slots();
    push_slot(&mut params, "key", string_type());
    push_func(
        &mut funcs,
        FuncKind::Method,
        "has",
        params,
        Some(WitType::primitive(Primitive::Bool)),
    );

    let mut params = no_slots();
    push_slot(&mut params, "key", string_type());
    push_func(&mut funcs, FuncKind::Method, "remove", params, None);

    push_func(&mut funcs, FuncKind::Method, "keys", no_slots(), Some(WitType::list(string_type())));
    push_func(
        &mut funcs,
        FuncKind::Method,
        "values",
        no_slots(),
        Some(WitType::list(value.duplicate())),
    );
    push_func(
        &mut funcs,
        FuncKind::Method,
        "entries",
        no_slots(),
        Some(WitType::list(WitType::pair(string_type(), value.duplicate()))),
    );

    TypeDef { name: name.clone(), kind: TypeDefKind::Resource(funcs) }
}

} // verus!
