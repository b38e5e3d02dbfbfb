use wit_synth::interface::Interface;
use wit_synth::kinds::TypedArrayKind;
use wit_synth::synth::{State, SynthError};
use wit_synth::text::{encode, join, render_type};
use wit_synth::types::{
    FuncKind, InterfaceItem, NamedType, Primitive, ResourceFunc, TypeDef, TypeDefKind,
    VariantCase, WitType,
};

const KINDS: [TypedArrayKind; 9] = [
    TypedArrayKind::UInt8,
    TypedArrayKind::UInt8Clamped,
    TypedArrayKind::UInt16,
    TypedArrayKind::UInt32,
    TypedArrayKind::Int8,
    TypedArrayKind::Int16,
    TypedArrayKind::Int32,
    TypedArrayKind::Float32,
    TypedArrayKind::Float64,
];

fn def_names(state: &State) -> Vec<String> {
    let mut names = Vec::new();
    for item in &state.interface.items {
        if let InterfaceItem::TypeDef(td) = item {
            names.push(td.name.clone());
        }
    }
    names
}

fn find<'a>(state: &'a State, name: &str) -> &'a TypeDef {
    for item in &state.interface.items {
        if let InterfaceItem::TypeDef(td) = item {
            if td.name == name {
                return td;
            }
        }
    }
    panic!("no type definition named {}", name)
}

fn funcs(td: &TypeDef) -> &Vec<ResourceFunc> {
    match &td.kind {
        TypeDefKind::Resource(funcs) => funcs,
        _ => panic!("{} is not a resource", td.name),
    }
}

fn cases(td: &TypeDef) -> &Vec<VariantCase> {
    match &td.kind {
        TypeDefKind::Variant(cases) => cases,
        _ => panic!("{} is not a variant", td.name),
    }
}

fn u32_type() -> WitType {
    WitType::Prim(Primitive::U32)
}

fn opt(t: WitType) -> WitType {
    WitType::Optional(Box::new(t))
}

fn named(name: &str) -> WitType {
    WitType::Named(name.to_string())
}

fn slot(name: &str, ty: WitType) -> NamedType {
    NamedType { name: name.to_string(), ty }
}

fn method(name: &str, params: Vec<NamedType>, result: Option<WitType>) -> ResourceFunc {
    ResourceFunc { kind: FuncKind::Method, name: name.to_string(), params, result }
}

fn constructor(params: Vec<NamedType>) -> ResourceFunc {
    ResourceFunc { kind: FuncKind::Constructor, name: String::new(), params, result: None }
}

#[test]
fn prefix_names_are_the_canonical_ones() {
    let expected = [
        "uint8",
        "uint8-clamped",
        "uint16",
        "uint32",
        "int8",
        "int16",
        "int32",
        "float32",
        "float64",
    ];
    for (kind, want) in KINDS.iter().zip(expected.iter()) {
        assert_eq!(kind.prefix_name(), *want);
    }
}

#[test]
fn element_types_follow_the_kind() {
    let expected = [
        Primitive::U8,
        Primitive::U8,
        Primitive::U16,
        Primitive::U32,
        Primitive::S8,
        Primitive::S16,
        Primitive::S32,
        Primitive::F32,
        Primitive::F64,
    ];
    let encoded = [
        wit_encoder::Type::U8,
        wit_encoder::Type::U8,
        wit_encoder::Type::U16,
        wit_encoder::Type::U32,
        wit_encoder::Type::S8,
        wit_encoder::Type::S16,
        wit_encoder::Type::S32,
        wit_encoder::Type::F32,
        wit_encoder::Type::F64,
    ];
    for i in 0..KINDS.len() {
        assert_eq!(KINDS[i].element_type(), WitType::Prim(expected[i]));
        assert_eq!(KINDS[i].to_wit_encoder_type(), encoded[i]);
    }
}

#[test]
fn new_state_is_empty() {
    let state = State::new();
    assert!(state.interface.items.is_empty());
    assert!(!state.type_def_exists(&"array-buffer".to_string()));
}

#[test]
fn array_buffer_is_defined_once() {
    let mut state = State::new();
    let first = state.add_array_buffer();
    let after_first = def_names(&state);
    let second = state.add_array_buffer();
    assert_eq!(first, Ok("array-buffer".to_string()));
    assert_eq!(second, first);
    assert_eq!(after_first, vec!["array-buffer-constructor-options", "array-buffer"]);
    assert_eq!(def_names(&state), after_first);
    let count = def_names(&state).iter().filter(|n| n.as_str() == "array-buffer").count();
    assert_eq!(count, 1);
}

#[test]
fn array_buffer_has_the_documented_shape() {
    let mut state = State::new();
    state.add_array_buffer().unwrap();
    let options = find(&state, "array-buffer-constructor-options");
    assert_eq!(options.kind, TypeDefKind::Record(vec![slot("max-byte-length", u32_type())]));
    let buffer = find(&state, "array-buffer");
    assert_eq!(
        buffer.kind,
        TypeDefKind::Resource(vec![
            constructor(vec![
                slot("length", u32_type()),
                slot("options", opt(named("array-buffer-constructor-options"))),
            ]),
            method("byte-length", vec![], Some(u32_type())),
            method(
                "slice",
                vec![slot("begin", u32_type()), slot("end", opt(u32_type()))],
                Some(named("array-buffer")),
            ),
        ])
    );
}

#[test]
fn every_kind_adds_three_definitions_once() {
    for kind in KINDS.iter() {
        let mut state = State::new();
        let name = state.add_typed_array(*kind).unwrap();
        let prefix = kind.prefix_name();
        assert_eq!(name, format!("{}-array", prefix));
        assert_eq!(
            def_names(&state),
            vec![
                format!("{}-array-constructor-options", prefix),
                format!("{}-array-set-src", prefix),
                format!("{}-array", prefix),
            ]
        );
        let again = state.add_typed_array(*kind).unwrap();
        assert_eq!(again, name);
        assert_eq!(state.interface.items.len(), 3);
    }
}

#[test]
fn distinct_kinds_do_not_collide() {
    let mut state = State::new();
    for kind in KINDS.iter() {
        state.add_typed_array(*kind).unwrap();
    }
    let names = def_names(&state);
    assert_eq!(names.len(), 27);
    for i in 0..names.len() {
        for j in 0..i {
            assert_ne!(names[i], names[j]);
        }
    }
    assert!(names.contains(&"uint8-array".to_string()));
    assert!(names.contains(&"int32-array".to_string()));
}

#[test]
fn typed_array_has_the_documented_shape() {
    let mut state = State::new();
    state.add_typed_array(TypedArrayKind::Int16).unwrap();
    let elem = || WitType::Prim(Primitive::S16);
    let me = || named("int16-array");
    let window = |buffer: &str| {
        WitType::Tuple(vec![named(buffer), opt(u32_type()), opt(u32_type())])
    };
    let case = |name: &str, ty: WitType| VariantCase { name: name.to_string(), payload: Some(ty) };

    let options = find(&state, "int16-array-constructor-options");
    assert_eq!(
        *cases(options),
        vec![
            case("int16-array", me()),
            case("length", u32_type()),
            case("array-buffer", window("array-buffer")),
            case("shared-array-buffer", window("shared-array-buffer")),
        ]
    );
    let set_src = find(&state, "int16-array-set-src");
    assert_eq!(
        *cases(set_src),
        vec![case("list", WitType::List(Box::new(elem()))), case("int16-array", me())]
    );
    let array = find(&state, "int16-array");
    assert_eq!(
        *funcs(array),
        vec![
            constructor(vec![slot("options", opt(named("int16-array-constructor-options")))]),
            method(
                "fill",
                vec![
                    slot("value", elem()),
                    slot("start", opt(u32_type())),
                    slot("end", opt(u32_type())),
                ],
                Some(me()),
            ),
            method("buffer", vec![], Some(named("array-buffer"))),
            method("length", vec![], Some(u32_type())),
            method("byte-offset", vec![], Some(u32_type())),
            method("byte-length", vec![], Some(u32_type())),
            method("at", vec![slot("index", WitType::Prim(Primitive::S32))], Some(opt(elem()))),
            method(
                "copy-within",
                vec![
                    slot("target", u32_type()),
                    slot("start", u32_type()),
                    slot("end", opt(u32_type())),
                ],
                Some(me()),
            ),
            method(
                "set",
                vec![slot("src", named("int16-array-set-src")), slot("offset", u32_type())],
                None,
            ),
            method("slice", vec![slot("begin", u32_type()), slot("end", u32_type())], Some(me())),
            method(
                "subarray",
                vec![slot("begin", u32_type()), slot("end", u32_type())],
                Some(me()),
            ),
            method("values", vec![], Some(WitType::List(Box::new(elem())))),
            method("get-index", vec![slot("index", u32_type())], Some(elem())),
            method("set-index", vec![slot("index", u32_type()), slot("value", elem())], None),
        ]
    );
}

#[test]
fn clamped_and_plain_bytes_share_the_element_type() {
    let mut state = State::new();
    state.add_typed_array(TypedArrayKind::UInt8).unwrap();
    state.add_typed_array(TypedArrayKind::UInt8Clamped).unwrap();
    let byte = WitType::Prim(Primitive::U8);
    for array in ["uint8-array", "uint8-clamped-array"] {
        let fs = funcs(find(&state, array));
        let op = |name: &str| fs.iter().find(|f| f.name == name).unwrap();
        assert_eq!(op("fill").params[0].ty, byte);
        assert_eq!(op("at").result, Some(opt(WitType::Prim(Primitive::U8))));
        assert_eq!(op("values").result, Some(WitType::List(Box::new(WitType::Prim(Primitive::U8)))));
        assert_eq!(op("get-index").result, Some(WitType::Prim(Primitive::U8)));
        assert_eq!(op("set-index").params[1].ty, byte);
    }
    for set_src in ["uint8-array-set-src", "uint8-clamped-array-set-src"] {
        let list = &cases(find(&state, set_src))[0];
        assert_eq!(list.name, "list");
        assert_eq!(list.payload, Some(WitType::List(Box::new(WitType::Prim(Primitive::U8)))));
    }
}

#[test]
fn array_buffer_then_bytes_gives_five_definitions_in_order() {
    let mut state = State::new();
    state.add_array_buffer().unwrap();
    state.add_typed_array(TypedArrayKind::UInt8).unwrap();
    assert_eq!(
        def_names(&state),
        vec![
            "array-buffer-constructor-options",
            "array-buffer",
            "uint8-array-constructor-options",
            "uint8-array-set-src",
            "uint8-array",
        ]
    );
    assert_eq!(state.interface.items.len(), 5);
}

#[test]
fn record_name_comes_from_the_rendered_value_type() {
    let mut state = State::new();
    let signed = state.add_record(Ok(WitType::Prim(Primitive::S32)));
    let unsigned = state.add_record(Ok(WitType::Prim(Primitive::U32)));
    let signed_again = state.add_record(Ok(WitType::Prim(Primitive::S32)));
    assert_eq!(signed, Ok("record-s32".to_string()));
    assert_eq!(unsigned, Ok("record-u32".to_string()));
    assert_eq!(signed_again, signed);
    assert_eq!(def_names(&state), vec!["record-s32", "record-u32"]);
}

#[test]
fn record_name_of_nested_value_types() {
    let mut state = State::new();
    let nested = WitType::Optional(Box::new(WitType::List(Box::new(named("point")))));
    assert_eq!(state.add_record(Ok(nested)), Ok("record-option<list<point>>".to_string()));
    let pair = WitType::Tuple(vec![WitType::Prim(Primitive::Str), WitType::Prim(Primitive::U8)]);
    assert_eq!(state.add_record(Ok(pair)), Ok("record-tuple<string, u8>".to_string()));
    let all = [
        (Primitive::Bool, "record-bool"),
        (Primitive::U8, "record-u8"),
        (Primitive::U16, "record-u16"),
        (Primitive::U64, "record-u64"),
        (Primitive::S8, "record-s8"),
        (Primitive::S16, "record-s16"),
        (Primitive::S64, "record-s64"),
        (Primitive::F32, "record-f32"),
        (Primitive::F64, "record-f64"),
        (Primitive::Char, "record-char"),
        (Primitive::Str, "record-string"),
    ];
    for (p, want) in all.iter() {
        assert_eq!(state.add_record(Ok(WitType::Prim(*p))), Ok(want.to_string()));
    }
}

#[test]
fn record_has_the_documented_shape() {
    let mut state = State::new();
    let name = state.add_record(Ok(named("point"))).unwrap();
    assert_eq!(name, "record-point");
    let key = || WitType::Prim(Primitive::Str);
    let value = || named("point");
    assert_eq!(
        *funcs(find(&state, "record-point")),
        vec![
            constructor(vec![]),
            method("add", vec![slot("key", key()), slot("value", value())], None),
            method("get", vec![slot("key", key())], Some(value())),
            method("has", vec![slot("key", key())], Some(WitType::Prim(Primitive::Bool))),
            method("remove", vec![slot("key", key())], None),
            method("keys", vec![], Some(WitType::List(Box::new(key())))),
            method("values", vec![], Some(WitType::List(Box::new(value())))),
            method(
                "entries",
                vec![],
                Some(WitType::List(Box::new(WitType::Tuple(vec![key(), value()])))),
            ),
        ]
    );
}

#[test]
fn rendered_text_decides_the_record_name() {
    let mut state = State::new();
    let value = WitType::Prim(Primitive::U8);
    let name = state.add_record_rendered("u8", &value);
    assert_eq!(name, "record-u8");
    assert_eq!(state.add_record_rendered("u8", &value), "record-u8");
    assert_eq!(state.interface.items.len(), 1);
    assert_eq!(state.add_record_rendered("", &value), "record-");
    assert_eq!(state.interface.items.len(), 2);
}

#[test]
fn unresolved_value_type_registers_nothing() {
    let mut state = State::new();
    state.add_array_buffer().unwrap();
    let r = state.add_record(Err(SynthError::UnresolvedType));
    assert_eq!(r, Err(SynthError::UnresolvedType));
    assert_eq!(def_names(&state), vec!["array-buffer-constructor-options", "array-buffer"]);
}

#[test]
fn functions_are_never_found_as_type_definitions() {
    let mut interface = Interface::new();
    interface.push_function("array-buffer".to_string());
    let mut state = State { interface };
    assert!(!state.type_def_exists(&"array-buffer".to_string()));
    state.add_array_buffer().unwrap();
    assert!(state.type_def_exists(&"array-buffer".to_string()));
    assert_eq!(state.interface.items.len(), 3);
}

#[test]
fn existing_definition_of_that_name_is_kept() {
    let mut interface = Interface::new();
    interface.push_type_def(TypeDef {
        name: "float64-array".to_string(),
        kind: TypeDefKind::Record(vec![]),
    });
    let mut state = State { interface };
    assert_eq!(state.add_typed_array(TypedArrayKind::Float64), Ok("float64-array".to_string()));
    assert_eq!(state.interface.items.len(), 1);
    assert_eq!(find(&state, "float64-array").kind, TypeDefKind::Record(vec![]));
}

#[test]
fn duplicate_keeps_the_type() {
    let t = WitType::Tuple(vec![
        named("a"),
        opt(WitType::List(Box::new(u32_type()))),
        WitType::Tuple(vec![]),
    ]);
    assert_eq!(t.duplicate(), t);
}

#[test]
fn record_name_of_rarer_value_types() {
    let mut state = State::new();
    let u8_type = || Box::new(WitType::Prim(Primitive::U8));
    let text = || Box::new(WitType::Prim(Primitive::Str));
    let cases = vec![
        (WitType::Borrow("blob".to_string()), "record-borrow<blob>"),
        (WitType::FixedList(u8_type(), 4), "record-list<u8, 4>"),
        (WitType::MapOf(text(), u8_type()), "record-map<string, u8>"),
        (WitType::ResultOf(Some(u8_type()), Some(text())), "record-result<u8, string>"),
        (WitType::ResultOf(Some(u8_type()), None), "record-result<u8>"),
        (WitType::ResultOf(None, Some(text())), "record-result<_, string>"),
        (WitType::ResultOf(None, None), "record-result"),
        (WitType::Future(None), "record-future"),
        (WitType::Future(Some(u8_type())), "record-future<u8>"),
        (WitType::Stream(None), "record-stream"),
        (WitType::Stream(Some(text())), "record-stream<string>"),
        (WitType::ErrorContext, "record-error-context"),
        (WitType::Tuple(vec![]), "record-tuple<>"),
        (WitType::Named("record".to_string()), "record-%record"),
    ];
    let n = cases.len();
    for (value, want) in cases {
        assert_eq!(state.add_record(Ok(value)), Ok(want.to_string()));
    }
    assert_eq!(state.interface.items.len(), n);
}

#[test]
fn same_rendering_gives_the_same_record() {
    let mut state = State::new();
    let structured = WitType::Optional(Box::new(WitType::Prim(Primitive::U8)));
    let by_name = WitType::Named("option<u8>".to_string());
    let first = state.add_record(Ok(structured)).unwrap();
    let second = state.add_record(Ok(by_name)).unwrap();
    assert_eq!(first, "record-option<u8>");
    assert_eq!(second, first);
    assert_eq!(state.interface.items.len(), 1);
}

#[test]
fn duplicate_keeps_the_rarer_types() {
    let t = WitType::ResultOf(
        Some(Box::new(WitType::MapOf(
            Box::new(WitType::Prim(Primitive::Str)),
            Box::new(WitType::FixedList(Box::new(WitType::Borrow("b".to_string())), 3)),
        ))),
        Some(Box::new(WitType::Future(Some(Box::new(WitType::Stream(None)))))),
    );
    assert_eq!(t.duplicate(), t);
    assert_eq!(WitType::ErrorContext.duplicate(), WitType::ErrorContext);
}

#[test]
fn typed_array_alone_refers_to_an_absent_array_buffer() {
    let mut state = State::new();
    state.add_typed_array(TypedArrayKind::Float32).unwrap();
    assert!(!state.type_def_exists(&"array-buffer".to_string()));
    let buffer = funcs(find(&state, "float32-array")).iter().find(|f| f.name == "buffer").unwrap();
    assert_eq!(buffer.result, Some(named("array-buffer")));
}

fn names_in(t: &WitType, out: &mut Vec<String>) {
    match t {
        WitType::Prim(_) | WitType::ErrorContext => {}
        WitType::Named(n) | WitType::Borrow(n) => out.push(n.clone()),
        WitType::Optional(b) | WitType::List(b) | WitType::FixedList(b, _) => names_in(b, out),
        WitType::MapOf(k, v) => {
            names_in(k, out);
            names_in(v, out);
        }
        WitType::Tuple(ts) => {
            for t in ts {
                names_in(t, out);
            }
        }
        WitType::ResultOf(ok, err) => {
            if let Some(b) = ok {
                names_in(b, out);
            }
            if let Some(b) = err {
                names_in(b, out);
            }
        }
        WitType::Future(o) | WitType::Stream(o) => {
            if let Some(b) = o {
                names_in(b, out);
            }
        }
    }
}

fn referenced_names(state: &State) -> Vec<String> {
    let mut out = Vec::new();
    for item in &state.interface.items {
        if let InterfaceItem::TypeDef(td) = item {
            match &td.kind {
                TypeDefKind::Record(fields) => {
                    for f in fields {
                        names_in(&f.ty, &mut out);
                    }
                }
                TypeDefKind::Resource(fs) => {
                    for f in fs {
                        for p in &f.params {
                            names_in(&p.ty, &mut out);
                        }
                        if let Some(r) = &f.result {
                            names_in(r, &mut out);
                        }
                    }
                }
                TypeDefKind::Variant(cs) => {
                    for c in cs {
                        if let Some(t) = &c.payload {
                            names_in(t, &mut out);
                        }
                    }
                }
            }
        }
    }
    out
}

#[test]
fn no_reference_dangles_when_the_buffer_comes_first() {
    let mut state = State::new();
    state.add_array_buffer().unwrap();
    for kind in KINDS.iter() {
        state.add_typed_array(*kind).unwrap();
    }
    state.add_record(Ok(named("uint8-array"))).unwrap();
    state.add_record(Ok(WitType::List(Box::new(named("record-uint8-array"))))).unwrap();
    let defined = def_names(&state);
    let referenced = referenced_names(&state);
    assert!(referenced.contains(&"shared-array-buffer".to_string()));
    for name in referenced {
        assert!(defined.contains(&name) || name == "shared-array-buffer", "dangling {}", name);
    }
    for i in 0..defined.len() {
        for j in 0..i {
            assert_ne!(defined[i], defined[j]);
        }
    }
    assert_eq!(defined.len(), 2 + 27 + 2);
}

#[test]
fn earlier_items_stay_in_place() {
    let mut state = State::new();
    state.add_typed_array(TypedArrayKind::UInt32).unwrap();
    let before = def_names(&state);
    state.add_array_buffer().unwrap();
    state.add_record(Ok(WitType::Prim(Primitive::Bool))).unwrap();
    state.add_typed_array(TypedArrayKind::UInt32).unwrap();
    let after = def_names(&state);
    assert_eq!(after[..before.len()], before[..]);
    assert_eq!(
        after[before.len()..],
        ["array-buffer-constructor-options", "array-buffer", "record-bool"]
    );
}

#[test]
fn encode_builds_the_same_type() {
    let u8_type = || Box::new(WitType::Prim(Primitive::U8));
    let text = || Box::new(WitType::Prim(Primitive::Str));
    assert_eq!(encode(&WitType::Prim(Primitive::Bool)), wit_encoder::Type::Bool);
    assert_eq!(encode(&WitType::Prim(Primitive::U8)), wit_encoder::Type::U8);
    assert_eq!(encode(&WitType::Prim(Primitive::U16)), wit_encoder::Type::U16);
    assert_eq!(encode(&WitType::Prim(Primitive::U32)), wit_encoder::Type::U32);
    assert_eq!(encode(&WitType::Prim(Primitive::U64)), wit_encoder::Type::U64);
    assert_eq!(encode(&WitType::Prim(Primitive::S8)), wit_encoder::Type::S8);
    assert_eq!(encode(&WitType::Prim(Primitive::S16)), wit_encoder::Type::S16);
    assert_eq!(encode(&WitType::Prim(Primitive::S32)), wit_encoder::Type::S32);
    assert_eq!(encode(&WitType::Prim(Primitive::S64)), wit_encoder::Type::S64);
    assert_eq!(encode(&WitType::Prim(Primitive::F32)), wit_encoder::Type::F32);
    assert_eq!(encode(&WitType::Prim(Primitive::F64)), wit_encoder::Type::F64);
    assert_eq!(encode(&WitType::Prim(Primitive::Char)), wit_encoder::Type::Char);
    assert_eq!(encode(&WitType::Prim(Primitive::Str)), wit_encoder::Type::String);
    assert_eq!(encode(&WitType::ErrorContext), wit_encoder::Type::ErrorContext);
    assert_eq!(encode(&named("point")), wit_encoder::Type::named("point"));
    assert_eq!(encode(&WitType::Borrow("blob".to_string())), wit_encoder::Type::borrow("blob"));
    assert_eq!(
        encode(&WitType::Optional(u8_type())),
        wit_encoder::Type::option(wit_encoder::Type::U8)
    );
    assert_eq!(encode(&WitType::List(text())), wit_encoder::Type::list(wit_encoder::Type::String));
    assert_eq!(
        encode(&WitType::FixedList(u8_type(), 7)),
        wit_encoder::Type::fixed_length_list(wit_encoder::Type::U8, 7)
    );
    assert_eq!(
        encode(&WitType::MapOf(text(), u8_type())),
        wit_encoder::Type::map(wit_encoder::Type::String, wit_encoder::Type::U8)
    );
    assert_eq!(
        encode(&WitType::Tuple(vec![named("a"), WitType::Prim(Primitive::U8), named("b")])),
        wit_encoder::Type::tuple([
            wit_encoder::Type::named("a"),
            wit_encoder::Type::U8,
            wit_encoder::Type::named("b"),
        ])
    );
    assert_eq!(
        encode(&WitType::ResultOf(Some(u8_type()), Some(text()))),
        wit_encoder::Type::result_both(wit_encoder::Type::U8, wit_encoder::Type::String)
    );
    assert_eq!(
        encode(&WitType::ResultOf(Some(u8_type()), None)),
        wit_encoder::Type::result_ok(wit_encoder::Type::U8)
    );
    assert_eq!(
        encode(&WitType::ResultOf(None, Some(text()))),
        wit_encoder::Type::result_err(wit_encoder::Type::String)
    );
    assert_eq!(encode(&WitType::ResultOf(None, None)), wit_encoder::Type::result_empty());
    assert_eq!(encode(&WitType::Future(None)), wit_encoder::Type::future(None));
    assert_eq!(
        encode(&WitType::Future(Some(u8_type()))),
        wit_encoder::Type::future(Some(wit_encoder::Type::U8))
    );
    assert_eq!(encode(&WitType::Stream(None)), wit_encoder::Type::stream(None));
    assert_eq!(
        encode(&WitType::Stream(Some(text()))),
        wit_encoder::Type::stream(Some(wit_encoder::Type::String))
    );
}

#[test]
fn render_type_is_the_display_of_the_encoded_type() {
    let t = WitType::Optional(Box::new(WitType::Tuple(vec![
        named("point"),
        WitType::List(Box::new(WitType::Prim(Primitive::S64))),
    ])));
    assert_eq!(render_type(&t), "option<tuple<point, list<s64>>>");
    assert_eq!(render_type(&t), encode(&t).to_string());
    assert_eq!(render_type(&named("string")), "%string");
}

#[test]
fn join_puts_one_text_after_the_other() {
    assert_eq!(join("uint8", "-array"), "uint8-array");
    assert_eq!(join("", "x"), "x");
    assert_eq!(join("x", ""), "x");
}
