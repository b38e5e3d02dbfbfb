//! The three synthesizers. Each looks its resource up by name, defines it
//! with its auxiliary types on first use, and returns the name either way.
use crate::interface::{has_type_def, Interface};
use crate::kinds::TypedArrayKind;
use crate::shapes::{
    array_buffer_def, array_buffer_options_def, build_array_buffer, build_array_buffer_options,
    build_record, build_typed_array, build_typed_array_options, build_typed_array_set_src,
    record_def, typed_array_def, typed_array_options_def, typed_array_set_src_def,
};
use crate::text::{
    array_buffer_name, array_name, record_name, record_name_for, record_name_of_text,
    render_type, typed_array_name,
};
use crate::integrity::{
    lemma_array_buffer_keeps_resolved, lemma_record_keeps_resolved,
    lemma_typed_array_keeps_resolved, references_resolved, type_resolved,
};
use crate::laws::{
    lemma_array_buffer_once, lemma_empty_well_formed, lemma_record_once, lemma_typed_array_once,
    well_formed,
};
use crate::types::{ItemModel, TypeModel, WitType};
use vstd::prelude::*;

verus! {

/// Why a synthesis did not take place.
#[derive(Clone, Copy, Debug, PartialEq, Eq)]
pub enum SynthError {
    /// The value type of a record could not be resolved to a WIT type.
    UnresolvedType,
}

/// The items after the array buffer has been asked for.
pub open spec fn after_array_buffer(items: Seq<ItemModel>) -> Seq<ItemModel> {
    if has_type_def(items, array_buffer_name()) {
        items
    } else {
        items.push(ItemModel::TypeDef(array_buffer_options_def())).push(
            ItemModel::TypeDef(array_buffer_def()),
        )
    }
}

/// The items after the typed array of kind `k` has been asked for.
pub open spec fn after_typed_array(items: Seq<ItemModel>, k: TypedArrayKind) -> Seq<ItemModel> {
    if has_type_def(items, array_name(k)) {
        items
    } else {
        items.push(ItemModel::TypeDef(typed_array_options_def(k))).push(
            ItemModel::TypeDef(typed_array_set_src_def(k)),
        ).push(ItemModel::TypeDef(typed_array_def(k)))
    }
}

/// The items after the record resource `name` with values of type `v` has
/// been asked for.
pub open spec fn after_record(items: Seq<ItemModel>, name: Seq<char>, v: TypeModel) -> Seq<
    ItemModel,
> {
    if has_type_def(items, name) {
        items
    } else {
        items.push(ItemModel::TypeDef(record_def(name, v)))
    }
}

/// The state of one session: the interface that the
/// synthesizers fill.
#[derive(Debug, PartialEq, Eq)]
pub struct State {
    pub interface: Interface,
}

impl View for State {
    type V = Seq<ItemModel>;

    open spec fn view(&self) -> Seq<ItemModel> {
        self.interface@
    }
}

impl State {
    /// A session with an empty interface.
    pub fn new() -> (r: State)
        ensures
            r@ == Seq::<ItemModel>::empty(),
            well_formed(r@),
            references_resolved(r@),
    {
        proof {
            lemma_empty_well_formed();
        }
        State { interface: Interface::new() }
    }

    /// Whether a type definition of that name has been registered.
    pub fn type_def_exists(&self, name: &String) -> (found: bool)
        ensures
            found == has_type_def(self@, name@),
    {
        self.interface.type_def_exists(name)
    }

    /// Makes sure that the resource `array-buffer` exists and returns its
    /// name. On first use the record of constructor options is defined
    /// before the resource.
    pub fn add_array_buffer(&mut self) -> (r: Result<String, SynthError>)
        ensures
            final(self)@ == after_array_buffer(old(self)@),
            r matches Ok(name) && name@ == array_buffer_name(),
            has_type_def(final(self)@, array_buffer_name()),
            well_formed(old(self)@) ==> well_formed(final(self)@),
            references_resolved(old(self)@) ==> references_resolved(final(self)@),
    {
        proof {
            lemma_array_buffer_once(self@);
            if references_resolved(self@) {
                lemma_array_buffer_keeps_resolved(self@);
            }
        }
        let buffer_name = "array-buffer".to_owned();
        if !self.type_def_exists(&buffer_name) {
            self.interface.push_type_def(build_array_buffer_options());
            self.interface.push_type_def(build_array_buffer());
        }
        Ok(buffer_name)
    }

    /// Makes sure that the typed-array resource of the kind exists and
    /// returns its name. On first use the two variants that its operations
    /// refer to are defined before the resource.
    pub fn add_typed_array(&mut self, kind: TypedArrayKind) -> (r: Result<String, SynthError>)
        ensures
            final(self)@ == after_typed_array(old(self)@, kind),
            r matches Ok(name) && name@ == array_name(kind),
            has_type_def(final(self)@, array_name(kind)),
            well_formed(old(self)@) ==> well_formed(final(self)@),
            references_resolved(old(self)@) && has_type_def(old(self)@, array_buffer_name())
                ==> references_resolved(final(self)@),
    {
        proof {
            lemma_typed_array_once(self@, kind);
            if references_resolved(self@) && has_type_def(self@, array_buffer_name()) {
                lemma_typed_array_keeps_resolved(self@, kind);
            }
        }
        let array = typed_array_name(kind);
        if !self.type_def_exists(&array) {
            self.interface.push_type_def(build_typed_array_options(kind));
            self.interface.push_type_def(build_typed_array_set_src(kind));
            self.interface.push_type_def(build_typed_array(kind));
        }
        Ok(array)
    }

    /// Makes sure that the record resource for a value type exists, given
    /// the text that the value type renders to, and returns the resource's
    /// name.
    pub fn add_record_rendered(&mut self, text: &str, value: &WitType) -> (name: String)
        ensures
            name@ == record_name_of_text(text@),
            final(self)@ == after_record(old(self)@, record_name_of_text(text@), value@),
            has_type_def(final(self)@, record_name_of_text(text@)),
            well_formed(old(self)@) ==> well_formed(final(self)@),
            references_resolved(old(self)@) && type_resolved(value@, old(self)@)
                ==> references_resolved(final(self)@),
    {
        proof {
            lemma_record_once(self@, text@, value@, value@);
            if references_resolved(self@) && type_resolved(value@, self@) {
                lemma_record_keeps_resolved(self@, record_name_of_text(text@), value@);
            }
        }
        let name = record_name_for(text);
        if !self.type_def_exists(&name) {
            self.interface.push_type_def(build_record(&name, value));
        }
        name
    }

    /// Makes sure that the record resource for the resolved value type
    /// exists and returns its name. Where the value type could not be
    /// resolved, that failure is returned and nothing is registered.
    pub fn add_record(&mut self, value: Result<WitType, SynthError>) -> (r: Result<
        String,
        SynthError,
    >)
        ensures
            match value {
                Ok(v) => final(self)@ == after_record(old(self)@, record_name(v@), v@) && (
                r matches Ok(name) && name@ == record_name(v@)),
                Err(e) => final(self)@ == old(self)@ && r == Err::<String, SynthError>(e),
            },
            well_formed(old(self)@) ==> well_formed(final(self)@),
            value matches Ok(v) && references_resolved(old(self)@) && type_resolved(v@, old(self)@)
                ==> references_resolved(final(self)@),
    {
        match value {
            Ok(v) => {
                let text = render_type(&v);
                Ok(self.add_record_rendered(text.as_str(), &v))
            },
            Err(e) => Err(e),
        }
    }
}

} // verus!
