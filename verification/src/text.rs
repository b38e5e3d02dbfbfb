//! Canonical names of the synthesized definitions, and the rendering of a
//! WIT type as text, which `wit_encoder` performs.
use crate::kinds::TypedArrayKind;
use crate::types::{Primitive, TypeModel, WitType};
use vstd::prelude::*;

verus! {

/// `String::push_str` of std appends the given text to the string.
pub assume_specification[ String::push_str ](s: &mut String, t: &str)
    ensures
        final(s)@ == old(s)@ + t@,
;

/// `wit_encoder::Type`, carried through as an opaque value.
#[verifier::external_type_specification]
#[verifier::external_body]
pub struct ExEncoderType(wit_encoder::Type);

/// What a `wit_encoder::Type` holds, as a model.
pub uninterp spec fn encoded(t: wit_encoder::Type) -> TypeModel;

/// The text that `wit_encoder` writes for a type through its `Display`
/// impl, as a function of the type alone.
pub uninterp spec fn type_text(t: TypeModel) -> Seq<char>;

/// What an optional `wit_encoder::Type` holds.
pub open spec fn encoded_opt(t: Option<wit_encoder::Type>) -> Option<Box<TypeModel>> {
    match t {
        Some(e) => Some(Box::new(encoded(e))),
        None => None,
    }
}

/// What a sequence of `wit_encoder::Type` holds, in order.
pub open spec fn encoded_all(v: Seq<wit_encoder::Type>) -> Seq<TypeModel> {
    v.map_values(|e: wit_encoder::Type| encoded(e))
}

/// The unit variants of `wit_encoder::Type`: each holds the primitive that
/// it is named after.
#[verifier::external_body]
fn encoder_primitive(p: Primitive) -> (r: wit_encoder::Type)
    ensures
        encoded(r) == TypeModel::Prim(p),
{
    match p {
        Primitive::Bool => wit_encoder::Type::Bool,
        Primitive::U8 => wit_encoder::Type::U8,
        Primitive::U16 => wit_encoder::Type::U16,
        Primitive::U32 => wit_encoder::Type::U32,
        Primitive::U64 => wit_encoder::Type::U64,
        Primitive::S8 => wit_encoder::Type::S8,
        Primitive::S16 => wit_encoder::Type::S16,
        Primitive::S32 => wit_encoder::Type::S32,
        Primitive::S64 => wit_encoder::Type::S64,
        Primitive::F32 => wit_encoder::Type::F32,
        Primitive::F64 => wit_encoder::Type::F64,
        Primitive::Char => wit_encoder::Type::Char,
        Primitive::Str => wit_encoder::Type::String,
    }
}

/// The unit variant `wit_encoder::Type::ErrorContext`.
#[verifier::external_body]
fn encoder_error_context() -> (r: wit_encoder::Type)
    ensures
        encoded(r) == TypeModel::ErrorContext,
{
    wit_encoder::Type::ErrorContext
}

/// `wit_encoder::Type::named` holds a reference by the given name.
#[verifier::external_body]
fn encoder_named(name: &String) -> (r: wit_encoder::Type)
    ensures
        encoded(r) == TypeModel::Named(name@),
{
    wit_encoder::Type::named(name.clone())
}

/// `wit_encoder::Type::borrow` holds a borrow of the named resource.
#[verifier::external_body]
fn encoder_borrow(name: &String) -> (r: wit_encoder::Type)
    ensures
        encoded(r) == TypeModel::Borrow(name@),
{
    wit_encoder::Type::borrow(name.clone())
}

/// `wit_encoder::Type::option` holds the given type as its payload.
#[verifier::external_body]
fn encoder_option(inner: wit_encoder::Type) -> (r: wit_encoder::Type)
    ensures
        encoded(r) == TypeModel::Optional(Box::new(encoded(inner))),
{
    wit_encoder::Type::option(inner)
}

/// `wit_encoder::Type::list` holds the given type as its element type.
#[verifier::external_body]
fn encoder_list(inner: wit_encoder::Type) -> (r: wit_encoder::Type)
    ensures
        encoded(r) == TypeModel::List(Box::new(encoded(inner))),
{
    wit_encoder::Type::list(inner)
}

/// `wit_encoder::Type::fixed_length_list` holds the element type and the
/// length.
#[verifier::external_body]
fn encoder_fixed_list(inner: wit_encoder::Type, size: u32) -> (r: wit_encoder::Type)
    ensures
        encoded(r) == TypeModel::FixedList(Box::new(encoded(inner)), size),
{
    wit_encoder::Type::fixed_length_list(inner, size)
}

/// `wit_encoder::Type::map` holds the key type and the value type.
#[verifier::external_body]
fn encoder_map(key: wit_encoder::Type, value: wit_encoder::Type) -> (r: wit_encoder::Type)
    ensures
        encoded(r) == TypeModel::MapOf(Box::new(encoded(key)), Box::new(encoded(value))),
{
    wit_encoder::Type::map(key, value)
}

/// `wit_encoder::Type::tuple` holds the given types in their order.
#[verifier::external_body]
fn encoder_tuple(types: Vec<wit_encoder::Type>) -> (r: wit_encoder::Type)
    ensures
        encoded(r) == TypeModel::Tuple(encoded_all(types@)),
{
    wit_encoder::Type::tuple(types)
}

/// `wit_encoder::Type::result_both` holds a success and an error type.
#[verifier::external_body]
fn encoder_result_both(ok: wit_encoder::Type, err: wit_encoder::Type) -> (r: wit_encoder::Type)
    ensures
        encoded(r) == TypeModel::ResultOf(
            Some(Box::new(encoded(ok))),
            Some(Box::new(encoded(err))),
        ),
{
    wit_encoder::Type::result_both(ok, err)
}

/// `wit_encoder::Type::result_ok` holds a success type only.
#[verifier::external_body]
fn encoder_result_ok(ok: wit_encoder::Type) -> (r: wit_encoder::Type)
    ensures
        encoded(r) == TypeModel::ResultOf(Some(Box::new(encoded(ok))), None),
{
    wit_encoder::Type::result_ok(ok)
}

/// `wit_encoder::Type::result_err` holds an error type only.
#[verifier::external_body]
fn encoder_result_err(err: wit_encoder::Type) -> (r: wit_encoder::Type)
    ensures
        encoded(r) == TypeModel::ResultOf(None, Some(Box::new(encoded(err)))),
{
    wit_encoder::Type::result_err(err)
}

/// `wit_encoder::Type::result_empty` holds neither type.
#[verifier::external_body]
fn encoder_result_empty() -> (r: wit_encoder::Type)
    ensures
        encoded(r) == TypeModel::ResultOf(None, None),
{
    wit_encoder::Type::result_empty()
}

/// `wit_encoder::Type::future` holds the given payload type, if any.
#[verifier::external_body]
fn encoder_future(inner: Option<wit_encoder::Type>) -> (r: wit_encoder::Type)
    ensures
        encoded(r) == TypeModel::Future(encoded_opt(inner)),
{
    wit_encoder::Type::future(inner)
}

/// `wit_encoder::Type::stream` holds the given payload type, if any.
#[verifier::external_body]
fn encoder_stream(inner: Option<wit_encoder::Type>) -> (r: wit_encoder::Type)
    ensures
        encoded(r) == TypeModel::Stream(encoded_opt(inner)),
{
    wit_encoder::Type::stream(inner)
}

/// Calls `Display` of `wit_encoder::Type` (through `to_string`). The
/// contract claims only that the text is the one named `type_text` for
/// what the type holds: what it looks like is not stated.
#[verifier::external_body]
fn encoder_text(t: &wit_encoder::Type) -> (r: String)
    ensures
        r@ == type_text(encoded(*t)),
{
    t.to_string()
}

fn encode_opt(t: &Option<Box<WitType>>) -> (e: Option<wit_encoder::Type>)
    ensures
        encoded_opt(e) == (match t {
            Some(b) => Some(Box::new((**b)@)),
            None => None::<Box<TypeModel>>,
        }),
    decreases t,
{
    match t {
        Some(b) => Some(encode(b)),
        None => None,
    }
}

/// The same type as a `wit_encoder::Type`.
pub fn encode(t: &WitType) -> (e: wit_encoder::Type)
    ensures
        encoded(e) == t@,
    decreases t,
{
    match t {
        WitType::Prim(p) => encoder_primitive(*p),
        WitType::ErrorContext => encoder_error_context(),
        WitType::Named(n) => encoder_named(n),
        WitType::Borrow(n) => encoder_borrow(n),
        WitType::Optional(b) => encoder_option(encode(b)),
        WitType::List(b) => encoder_list(encode(b)),
        WitType::FixedList(b, n) => encoder_fixed_list(encode(b), *n),
        WitType::MapOf(k, v) => encoder_map(encode(k), encode(v)),
        WitType::Tuple(v) => {
            let mut out: Vec<wit_encoder::Type> = Vec::new();
            let mut i: usize = 0;
            while i < v.len()
                invariant
                    i <= v.len(),
                    out@.len() == i,
                    decreases_to!(t => v),
                    forall|j: int| 0 <= j < i ==> encoded(#[trigger] out@[j]) == v@[j]@,
                decreases v.len() - i,
            {
                proof {
                    vstd::std_specs::vec::axiom_vec_index_decreases(*v, i as int);
                }
                let item = encode(&v[i]);
                out.push(item);
                i += 1;
            }
            let e = encoder_tuple(out);
            assert(encoded(e)->Tuple_0 =~= t@->Tuple_0);
            e
        },
        WitType::ResultOf(ok, err) => {
            match ok {
                Some(o) => match err {
                    Some(e) => encoder_result_both(encode(o), encode(e)),
                    None => encoder_result_ok(encode(o)),
                },
                None => match err {
                    Some(e) => encoder_result_err(encode(e)),
                    None => encoder_result_empty(),
                },
            }
        },
        WitType::Future(o) => encoder_future(encode_opt(o)),
        WitType::Stream(o) => encoder_stream(encode_opt(o)),
    }
}

/// The text that `wit_encoder` writes for the type.
pub fn render_type(t: &WitType) -> (r: String)
    ensures
        r@ == type_text(t@),
{
    let e = encode(t);
    encoder_text(&e)
}

/// Name of the array-buffer resource.
pub open spec fn array_buffer_name() -> Seq<char> {
    "array-buffer"@
}

/// Name of the record of options that the array-buffer constructor takes.
pub open spec fn array_buffer_options_name() -> Seq<char> {
    "array-buffer-constructor-options"@
}

/// Name of the shared array buffer, which is referred to and defined
/// elsewhere.
pub open spec fn shared_array_buffer_name() -> Seq<char> {
    "shared-array-buffer"@
}

/// Name of the typed-array resource of a kind.
pub open spec fn array_name(k: TypedArrayKind) -> Seq<char> {
    k.prefix() + "-array"@
}

/// Name of the variant of options that a typed-array constructor takes.
pub open spec fn options_name(k: TypedArrayKind) -> Seq<char> {
    array_name(k) + "-constructor-options"@
}

/// Name of the variant of sources that a typed array's `set` takes.
pub open spec fn set_src_name(k: TypedArrayKind) -> Seq<char> {
    array_name(k) + "-set-src"@
}

/// Name of the record resource whose values have the given rendering.
pub open spec fn record_name_of_text(text: Seq<char>) -> Seq<char> {
    "record-"@ + text
}

/// Name of the record resource for a value type.
pub open spec fn record_name(v: TypeModel) -> Seq<char> {
    record_name_of_text(type_text(v))
}

/// The two texts, one after the other.
pub fn join(a: &str, b: &str) -> (r: String)
    ensures
        r@ == a@ + b@,
{
    let mut r = a.to_owned();
    r.push_str(b);
    r
}

/// The name of the typed-array resource of a kind, as text.
pub fn typed_array_name(kind: TypedArrayKind) -> (r: String)
    ensures
        r@ == array_name(kind),
{
    join(kind.prefix_name(), "-array")
}

/// The name of the record resource for a rendered value type.
pub fn record_name_for(text: &str) -> (r: String)
    ensures
        r@ == record_name_of_text(text@),
{
    join("record-", text)
}

} // verus!
