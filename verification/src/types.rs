//! The data that a WIT interface under construction is made of, and the
//! mathematical model of each piece.
use vstd::prelude::*;

verus! {

/// A WIT primitive type.
#[derive(Clone, Copy, Debug, PartialEq, Eq)]
pub enum Primitive {
    Bool,
    U8,
    U16,
    U32,
    U64,
    S8,
    S16,
    S32,
    S64,
    F32,
    F64,
    Char,
    Str,
}

/// A WIT type as it appears in a signature. Other definitions are referred
/// to by name only, never by a direct link.
#[derive(Debug, PartialEq, Eq)]
pub enum WitType {
    Prim(Primitive),
    /// A reference to the definition of that name.
    Named(String),
    /// A borrowed handle of the resource of that name.
    Borrow(String),
    Optional(Box<WitType>),
    List(Box<WitType>),
    /// A list of a fixed number of elements.
    FixedList(Box<WitType>, u32),
    /// A map from keys to values.
    MapOf(Box<WitType>, Box<WitType>),
    Tuple(Vec<WitType>),
    /// A result with an optional success type and an optional error type.
    ResultOf(Option<Box<WitType>>, Option<Box<WitType>>),
    Future(Option<Box<WitType>>),
    Stream(Option<Box<WitType>>),
    ErrorContext,
}

/// Model of a `WitType`.
pub enum TypeModel {
    Prim(Primitive),
    Named(Seq<char>),
    Borrow(Seq<char>),
    Optional(Box<TypeModel>),
    List(Box<TypeModel>),
    FixedList(Box<TypeModel>, u32),
    MapOf(Box<TypeModel>, Box<TypeModel>),
    Tuple(Seq<TypeModel>),
    ResultOf(Option<Box<TypeModel>>, Option<Box<TypeModel>>),
    Future(Option<Box<TypeModel>>),
    Stream(Option<Box<TypeModel>>),
    ErrorContext,
}

impl WitType {
    /// The model of this type.
    pub open spec fn model(&self) -> TypeModel
        decreases self,
    {
        match self {
            WitType::Prim(p) => TypeModel::Prim(*p),
            WitType::Named(n) => TypeModel::Named(n@),
            WitType::Borrow(n) => TypeModel::Borrow(n@),
            WitType::Optional(b) => TypeModel::Optional(Box::new((**b).model())),
            WitType::List(b) => TypeModel::List(Box::new((**b).model())),
            WitType::FixedList(b, n) => TypeModel::FixedList(Box::new((**b).model()), *n),
            WitType::MapOf(k, v) => TypeModel::MapOf(
                Box::new((**k).model()),
                Box::new((**v).model()),
            ),
            WitType::ResultOf(ok, err) => TypeModel::ResultOf(
                match ok {
                    Some(b) => Some(Box::new((**b).model())),
                    None => None,
                },
                match err {
                    Some(b) => Some(Box::new((**b).model())),
                    None => None,
                },
            ),
            WitType::Future(o) => TypeModel::Future(
                match o {
                    Some(b) => Some(Box::new((**b).model())),
                    None => None,
                },
            ),
            WitType::Stream(o) => TypeModel::Stream(
                match o {
                    Some(b) => Some(Box::new((**b).model())),
                    None => None,
                },
            ),
            WitType::ErrorContext => TypeModel::ErrorContext,
            WitType::Tuple(v) => TypeModel::Tuple(
                Seq::new(
                    v@.len(),
                    |i: int|
                        if 0 <= i < v@.len() {
                            v@[i].model()
                        } else {
                            TypeModel::Tuple(Seq::empty())
                        },
                ),
            ),
        }
    }
}

impl View for WitType {
    type V = TypeModel;

    open spec fn view(&self) -> TypeModel {
        self.model()
    }
}

impl WitType {
    /// A deep copy with the same model.
    pub fn duplicate(&self) -> (r: WitType)
        ensures
            r@ == self@,
        decreases self,
    {
        match self {
            WitType::Prim(p) => WitType::Prim(*p),
            WitType::Named(n) => WitType::Named(n.clone()),
            WitType::Borrow(n) => WitType::Borrow(n.clone()),
            WitType::Optional(b) => WitType::Optional(Box::new(b.duplicate())),
            WitType::List(b) => WitType::List(Box::new(b.duplicate())),
            WitType::FixedList(b, n) => WitType::FixedList(Box::new(b.duplicate()), *n),
            WitType::MapOf(k, v) => WitType::MapOf(
                Box::new(k.duplicate()),
                Box::new(v.duplicate()),
            ),
            WitType::ResultOf(ok, err) => {
                let ok_copy = match ok {
                    Some(b) => Some(Box::new(b.duplicate())),
                    None => None,
                };
                let err_copy = match err {
                    Some(b) => Some(Box::new(b.duplicate())),
                    None => None,
                };
                WitType::ResultOf(ok_copy, err_copy)
            },
            WitType::Future(o) => WitType::Future(
                match o {
                    Some(b) => Some(Box::new(b.duplicate())),
                    None => None,
                },
            ),
            WitType::Stream(o) => WitType::Stream(
                match o {
                    Some(b) => Some(Box::new(b.duplicate())),
                    None => None,
                },
            ),
            WitType::ErrorContext => WitType::ErrorContext,
            WitType::Tuple(v) => {
                let mut out: Vec<WitType> = Vec::new();
                let mut i: usize = 0;
                while i < v.len()
                    invariant
                        i <= v.len(),
                        out@.len() == i,
                        decreases_to!(self => v),
                        forall|j: int| 0 <= j < i ==> (#[trigger] out@[j])@ == v@[j]@,
                    decreases v.len() - i,
                {
                    proof {
                        vstd::std_specs::vec::axiom_vec_index_decreases(*v, i as int);
                    }
                    let item = v[i].duplicate();
                    out.push(item);
                    i += 1;
                }
                let r = WitType::Tuple(out);
                assert(r@ =~= self@) by {
                    assert(r@->Tuple_0 =~= self@->Tuple_0);
                }
                r
            }
        }
    }
}

/// Model of an optional type.
pub open spec fn opt_model(t: Option<WitType>) -> Option<TypeModel> {
    match t {
        Some(t) => Some(t@),
        None => None,
    }
}

/// A named slot: a record field or a function parameter.
#[derive(Debug, PartialEq, Eq)]
pub struct NamedType {
    pub name: String,
    pub ty: WitType,
}

/// Model of a `NamedType`.
pub struct SlotModel {
    pub name: Seq<char>,
    pub ty: TypeModel,
}

impl View for NamedType {
    type V = SlotModel;

    open spec fn view(&self) -> SlotModel {
        SlotModel { name: self.name@, ty: self.ty@ }
    }
}

/// One case of a variant, with at most one payload type.
#[derive(Debug, PartialEq, Eq)]
pub struct VariantCase {
    pub name: String,
    pub payload: Option<WitType>,
}

/// Model of a `VariantCase`.
pub struct CaseModel {
    pub name: Seq<char>,
    pub payload: Option<TypeModel>,
}

impl View for VariantCase {
    type V = CaseModel;

    open spec fn view(&self) -> CaseModel {
        CaseModel { name: self.name@, payload: opt_model(self.payload) }
    }
}

/// Whether a resource function is the constructor or a method.
#[derive(Clone, Copy, Debug, PartialEq, Eq)]
pub enum FuncKind {
    Constructor,
    Method,
}

/// One operation of a resource. A constructor has the empty name.
#[derive(Debug, PartialEq, Eq)]
pub struct ResourceFunc {
    pub kind: FuncKind,
    pub name: String,
    pub params: Vec<NamedType>,
    pub result: Option<WitType>,
}

/// Model of a `ResourceFunc`.
pub struct FuncModel {
    pub kind: FuncKind,
    pub name: Seq<char>,
    pub params: Seq<SlotModel>,
    pub result: Option<TypeModel>,
}

/// Models of a sequence of slots, in order.
pub open spec fn slot_models(v: Seq<NamedType>) -> Seq<SlotModel> {
    v.map_values(|s: NamedType| s@)
}

/// Models of a sequence of cases, in order.
pub open spec fn case_models(v: Seq<VariantCase>) -> Seq<CaseModel> {
    v.map_values(|c: VariantCase| c@)
}

impl View for ResourceFunc {
    type V = FuncModel;

    open spec fn view(&self) -> FuncModel {
        FuncModel {
            kind: self.kind,
            name: self.name@,
            params: slot_models(self.params@),
            result: opt_model(self.result),
        }
    }
}

/// Models of a sequence of resource functions, in order.
pub open spec fn func_models(v: Seq<ResourceFunc>) -> Seq<FuncModel> {
    v.map_values(|f: ResourceFunc| f@)
}

/// What a type definition defines.
#[derive(Debug, PartialEq, Eq)]
pub enum TypeDefKind {
    Record(Vec<NamedType>),
    Resource(Vec<ResourceFunc>),
    Variant(Vec<VariantCase>),
}

/// Model of a `TypeDefKind`.
pub enum KindModel {
    Record(Seq<SlotModel>),
    Resource(Seq<FuncModel>),
    Variant(Seq<CaseModel>),
}

impl View for TypeDefKind {
    type V = KindModel;

    open spec fn view(&self) -> KindModel {
        match self {
            TypeDefKind::Record(fields) => KindModel::Record(slot_models(fields@)),
            TypeDefKind::Resource(funcs) => KindModel::Resource(func_models(funcs@)),
            TypeDefKind::Variant(cases) => KindModel::Variant(case_models(cases@)),
        }
    }
}

/// A named type definition.
#[derive(Debug, PartialEq, Eq)]
pub struct TypeDef {
    pub name: String,
    pub kind: TypeDefKind,
}

/// Model of a `TypeDef`.
pub struct TypeDefModel {
    pub name: Seq<char>,
    pub kind: KindModel,
}

impl View for TypeDef {
    type V = TypeDefModel;

    open spec fn view(&self) -> TypeDefModel {
        TypeDefModel { name: self.name@, kind: self.kind@ }
    }
}

/// One entry of an interface: a type definition, or a free function of
/// which only the name matters here.
#[derive(Debug, PartialEq, Eq)]
pub enum InterfaceItem {
    TypeDef(TypeDef),
    Function(String),
}

/// Model of an `InterfaceItem`.
pub enum ItemModel {
    TypeDef(TypeDefModel),
    Function(Seq<char>),
}

impl View for InterfaceItem {
    type V = ItemModel;

    open spec fn view(&self) -> ItemModel {
        match self {
            InterfaceItem::TypeDef(td) => ItemModel::TypeDef(td@),
            InterfaceItem::Function(name) => ItemModel::Function(name@),
        }
    }
}

/// Appends a slot; the models grow by the slot's model.
pub fn push_slot(v: &mut Vec<NamedType>, name: &str, ty: WitType)
    ensures
        slot_models(final(v)@) == slot_models(old(v)@).push(SlotModel { name: name@, ty: ty@ }),
{
    let slot = NamedType { name: name.to_owned(), ty };
    v.push(slot);
    assert(slot_models(v@) =~= slot_models(old(v)@).push(slot@));
}

/// Appends a variant case; the models grow by the case's model.
pub fn push_case(v: &mut Vec<VariantCase>, name: &str, payload: WitType)
    ensures
        case_models(final(v)@) == case_models(old(v)@).push(
            CaseModel { name: name@, payload: Some(payload@) },
        ),
{
    let case = VariantCase { name: name.to_owned(), payload: Some(payload) };
    v.push(case);
    assert(case_models(v@) =~= case_models(old(v)@).push(case@));
}

/// Appends a resource function; the models grow by the function's model.
pub fn push_func(
    v: &mut Vec<ResourceFunc>,
    kind: FuncKind,
    name: &str,
    params: Vec<NamedType>,
    result: Option<WitType>,
)
    ensures
        func_models(final(v)@) == func_models(old(v)@).push(
            FuncModel {
                kind,
                name: name@,
                params: slot_models(params@),
                result: opt_model(result),
            },
        ),
{
    let func = ResourceFunc { kind, name: name.to_owned(), params, result };
    v.push(func);
    assert(func_models(v@) =~= func_models(old(v)@).push(func@));
}

/// Models of a sequence of types, in order.
pub open spec fn type_models(v: Seq<WitType>) -> Seq<TypeModel> {
    v.map_values(|t: WitType| t@)
}

/// The model of a primitive type.
pub open spec fn prim(p: Primitive) -> TypeModel {
    TypeModel::Prim(p)
}

/// The model of a reference by name.
pub open spec fn named(name: Seq<char>) -> TypeModel {
    TypeModel::Named(name)
}

/// The model of `option<t>`.
pub open spec fn optional(t: TypeModel) -> TypeModel {
    TypeModel::Optional(Box::new(t))
}

/// The model of `list<t>`.
pub open spec fn list(t: TypeModel) -> TypeModel {
    TypeModel::List(Box::new(t))
}

/// The model of a tuple of the given types.
pub open spec fn tuple(ts: Seq<TypeModel>) -> TypeModel {
    TypeModel::Tuple(ts)
}

impl WitType {
    /// A primitive type.
    pub fn primitive(p: Primitive) -> (r: WitType)
        ensures
            r@ == prim(p),
    {
        WitType::Prim(p)
    }

    /// A reference to the definition of that name.
    pub fn named(name: &str) -> (r: WitType)
        ensures
            r@ == named(name@),
    {
        WitType::Named(name.to_owned())
    }

    /// `option<t>`.
    pub fn optional(t: WitType) -> (r: WitType)
        ensures
            r@ == optional(t@),
    {
        WitType::Optional(Box::new(t))
    }

    /// `list<t>`.
    pub fn list(t: WitType) -> (r: WitType)
        ensures
            r@ == list(t@),
    {
        WitType::List(Box::new(t))
    }

    /// The tuple of two types.
    pub fn pair(a: WitType, b: WitType) -> (r: WitType)
        ensures
            r@ == tuple(Seq::empty().push(a@).push(b@)),
    {
        let mut v: Vec<WitType> = Vec::new();
        v.push(a);
        v.push(b);
        let r = WitType::Tuple(v);
        assert(r@->Tuple_0 =~= Seq::empty().push(a@).push(b@));
        r
    }

    /// The tuple of three types.
    pub fn triple(a: WitType, b: WitType, c: WitType) -> (r: WitType)
        ensures
            r@ == tuple(Seq::empty().push(a@).push(b@).push(c@)),
    {
        let mut v: Vec<WitType> = Vec::new();
        v.push(a);
        v.push(b);
        v.push(c);
        let r = WitType::Tuple(v);
        assert(r@->Tuple_0 =~= Seq::empty().push(a@).push(b@).push(c@));
        r
    }
}

/// No slots yet.
pub fn no_slots() -> (v: Vec<NamedType>)
    ensures
        slot_models(v@) == Seq::<SlotModel>::empty(),
{
    let v: Vec<NamedType> = Vec::new();
    assert(slot_models(v@) =~= Seq::<SlotModel>::empty());
    v
}

/// No cases yet.
pub fn no_cases() -> (v: Vec<VariantCase>)
    ensures
        case_models(v@) == Seq::<CaseModel>::empty(),
{
    let v: Vec<VariantCase> = Vec::new();
    assert(case_models(v@) =~= Seq::<CaseModel>::empty());
    v
}

/// No functions yet.
pub fn no_funcs() -> (v: Vec<ResourceFunc>)
    ensures
        func_models(v@) == Seq::<FuncModel>::empty(),
{
    let v: Vec<ResourceFunc> = Vec::new();
    assert(func_models(v@) =~= Seq::<FuncModel>::empty());
    v
}

} // verus!
