//! The fields of a device that is nothing but its fields.

use vstd::prelude::*;
use crate::deserializer::Deserializer;
use crate::devices::names::configured_name;
use crate::devices::names::name_in;
use crate::devices::names::pascal_name;
use crate::devices::names::to_pascal;
use crate::devices::renamed;
use crate::field::Field;
use crate::field::FieldModel;
use crate::field::lemma_position_is;
use crate::field::lemma_position_none;
use crate::field::position;
use crate::field::with_value;
use crate::text::str_equal;
use crate::value::YololValue;

verus! {

/// A field as a device declares it: the field, and the name that it has
/// unless a document gives it another.
#[derive(Debug)]
pub struct Declared {
    default_name: String,
    field: Field,
}

/// The fields that a device declares, in lookup order.
#[derive(Debug)]
pub struct FieldSet {
    entries: Vec<Declared>,
}

/// The default names of the fields declared as `identifiers`: each identifier
/// in Pascal case.
pub open spec fn default_names(identifiers: Seq<Seq<char>>) -> Seq<Seq<char>> {
    Seq::new(identifiers.len(), |i: int| pascal_name(identifiers[i]))
}

/// As many fields as `n`, each the number zero under the empty name.
pub open spec fn unnamed(n: nat) -> Seq<FieldModel> {
    Seq::new(n, |i: int| Field::default_model())
}

impl FieldSet {
    /// The default name of each field.
    pub closed spec fn defaults(&self) -> Seq<Seq<char>> {
        Seq::new(self.entries.len() as nat, |i: int| self.entries[i].default_name@)
    }

    /// The fields.
    pub closed spec fn fields(&self) -> Seq<FieldModel> {
        Seq::new(self.entries.len() as nat, |i: int| self.entries[i].field@)
    }

    /// Every field has a default name.
    pub proof fn lemma_lengths(&self)
        ensures
            self.defaults().len() == self.fields().len(),
    {
    }

    /// Whether `after` is this set with every field named from `doc`.
    pub open spec fn configures<D: Deserializer>(&self, doc: &D, after: &Self) -> bool {
        &&& after.defaults() == self.defaults()
        &&& after.fields() == renamed(self.fields(), self.defaults(), doc)
    }

    /// One unnamed field for each identifier.
    pub fn declare(identifiers: &Vec<&'static str>) -> (r: Self)
        requires
            forall|i: int| 0 <= i < identifiers.len() ==> (#[trigger] identifiers[i]).is_ascii(),
        ensures
            r.defaults() == Seq::new(
                identifiers.len() as nat,
                |i: int| pascal_name(identifiers[i]@),
            ),
            r.fields() == unnamed(identifiers.len() as nat),
    {
        let mut entries: Vec<Declared> = Vec::new();
        let mut i: usize = 0;
        while i < identifiers.len()
            invariant
                i <= identifiers.len(),
                entries.len() == i,
                forall|j: int| 0 <= j < identifiers.len() ==> (#[trigger] identifiers[j]).is_ascii(),
                forall|j: int|
                    0 <= j < i ==> (#[trigger] entries[j]).default_name@ == pascal_name(
                        identifiers[j]@,
                    ) && entries[j].field@ == Field::default_model(),
            decreases identifiers.len() - i,
        {
            entries.push(Declared { default_name: to_pascal(identifiers[i]), field: Field::default() });
            i += 1;
        }
        let r = FieldSet { entries };
        assert(r.defaults() =~= Seq::new(
            identifiers.len() as nat,
            |i: int| pascal_name(identifiers[i]@),
        ));
        r
    }

    /// The value of the first field named `name`.
    pub fn get_field(&self, name: &str) -> (r: Option<&YololValue>)
        ensures
            match r {
                Some(v) => position(self.fields(), name@) matches Some(i) && v@
                    == self.fields()[i].value,
                None => position(self.fields(), name@) is None,
            },
    {
        let mut i: usize = 0;
        while i < self.entries.len()
            invariant
                i <= self.entries.len(),
                forall|j: int| 0 <= j < i ==> self.fields()[j].name != name@,
            decreases self.entries.len() - i,
        {
            if str_equal(self.entries[i].field.name(), name) {
                proof {
                    lemma_position_is(self.fields(), name@, i as int);
                }
                return Some(self.entries[i].field.value());
            }
            i += 1;
        }
        proof {
            lemma_position_none(self.fields(), name@);
        }
        None
    }

    /// The value of the first field named `name`, to be changed in place.
    pub fn get_field_mut(&mut self, name: &str) -> (r: Option<&mut YololValue>)
        ensures
            final(self).defaults() == old(self).defaults(),
            match r {
                Some(v) => position(old(self).fields(), name@) matches Some(i) && v@ == old(
                    self,
                ).fields()[i].value && final(self).fields() == with_value(
                    old(self).fields(),
                    i,
                    final(v)@,
                ),
                None => position(old(self).fields(), name@) is None && final(self).fields()
                    == old(self).fields(),
            },
    {
        let mut i: usize = 0;
        while i < self.entries.len()
            invariant
                i <= self.entries.len(),
                *self == *old(self),
                forall|j: int| 0 <= j < i ==> self.fields()[j].name != name@,
            decreases self.entries.len() - i,
        {
            if str_equal(self.entries[i].field.name(), name) {
                proof {
                    lemma_position_is(self.fields(), name@, i as int);
                }
                return Some(self.entries[i].field.value_mut());
            }
            i += 1;
        }
        proof {
            lemma_position_none(self.fields(), name@);
        }
        None
    }

    /// Names every field from `doc`: the name that the document gives it, or
    /// else its default name.
    pub fn configure<D: Deserializer>(&mut self, doc: &D)
        ensures
            old(self).configures(doc, final(self)),
    {
        let mut i: usize = 0;
        while i < self.entries.len()
            invariant
                i <= self.entries.len(),
                self.entries.len() == old(self).entries.len(),
                forall|j: int|
                    0 <= j < self.entries.len() ==> (#[trigger] self.entries[j]).default_name@
                        == old(self).entries[j].default_name@,
                forall|j: int|
                    0 <= j < i ==> (#[trigger] self.entries[j]).field@ == (FieldModel {
                        name: configured_name(doc, old(self).entries[j].default_name@),
                        value: old(self).entries[j].field@.value,
                    }),
                forall|j: int|
                    i <= j < self.entries.len() ==> (#[trigger] self.entries[j]).field@ == old(
                        self,
                    ).entries[j].field@,
            decreases self.entries.len() - i,
        {
            let name = name_in(doc, self.entries[i].default_name.as_str());
            self.entries[i].field.set_name(name);
            i += 1;
        }
        assert(self.defaults() =~= old(self).defaults());
        assert(self.fields() =~= renamed(old(self).fields(), old(self).defaults(), doc));
    }
}

} // verus!
