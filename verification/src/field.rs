//! Named values: the fields of devices and the entries of a network's bus.

use vstd::prelude::*;
use std::ops::Deref;
use std::ops::DerefMut;
use crate::text::lowercase;
use crate::text::same_name;
use crate::text::to_lowercase;
use crate::value::ValueModel;
use crate::value::YololValue;

verus! {

/// What a field is: its name and the model of its value.
pub struct FieldModel {
    pub name: Seq<char>,
    pub value: ValueModel,
}

/// A value under a name.
#[derive(Debug)]
pub struct Field {
    name: String,
    value: YololValue,
}

impl View for Field {
    type V = FieldModel;

    closed spec fn view(&self) -> FieldModel {
        FieldModel { name: self.name@, value: self.value@ }
    }
}

/// The models of a sequence of fields, in order.
pub open spec fn models(fields: Seq<Field>) -> Seq<FieldModel> {
    Seq::new(fields.len(), |i: int| fields[i]@)
}

impl Clone for Field {
    fn clone(&self) -> (r: Self)
        ensures
            r@ == self@,
    {
        Field { name: self.name.clone(), value: self.value.clone() }
    }
}

impl Default for Field {
    /// The number zero under the empty name.
    fn default() -> (r: Self)
        ensures
            r@ == Field::default_model(),
    {
        Field { name: String::new(), value: YololValue::default() }
    }
}

impl Field {
    /// What a field is before it is named: the number zero under the empty name.
    pub open spec fn default_model() -> FieldModel {
        FieldModel { name: Seq::<char>::empty(), value: ValueModel::Number(0) }
    }

    /// A field with the given name and value.
    pub fn new(name: String, value: YololValue) -> (r: Self)
        ensures
            r@ == (FieldModel { name: name@, value: value@ }),
    {
        Field { name, value }
    }

    /// The field's name.
    pub fn name(&self) -> (r: &str)
        ensures
            r@ == self@.name,
    {
        self.name.as_str()
    }

    /// Gives the field another name; the value stays.
    pub fn set_name(&mut self, name: String)
        ensures
            final(self)@ == (FieldModel { name: name@, value: old(self)@.value }),
    {
        self.name = name;
    }

    /// The field's value.
    pub fn value(&self) -> (r: &YololValue)
        ensures
            r@ == self@.value,
    {
        &self.value
    }

    /// The field's value, to be changed in place.
    pub fn value_mut(&mut self) -> (r: &mut YololValue)
        ensures
            r@ == old(self)@.value,
            final(self)@ == (FieldModel { name: old(self)@.name, value: final(r)@ }),
    {
        &mut self.value
    }

    /// Gives the field another value; the name stays.
    pub fn set_value(&mut self, value: YololValue)
        ensures
            final(self)@ == (FieldModel { name: old(self)@.name, value: value@ }),
    {
        self.value = value;
    }
}

impl Deref for Field {
    type Target = YololValue;

    fn deref(&self) -> (r: &YololValue)
        ensures
            r@ == self@.value,
    {
        &self.value
    }
}

impl DerefMut for Field {
    fn deref_mut(&mut self) -> (r: &mut YololValue)
        ensures
            r@ == old(self)@.value,
            final(self)@ == (FieldModel { name: old(self)@.name, value: final(r)@ }),
    {
        &mut self.value
    }
}

/// Where the first field named `name` stands among `fields`.
pub open spec fn position(fields: Seq<FieldModel>, name: Seq<char>) -> Option<int>
    decreases fields.len(),
{
    if fields.len() == 0 {
        None
    } else if fields[0].name == name {
        Some(0)
    } else {
        match position(fields.drop_first(), name) {
            Some(i) => Some(i + 1),
            None => None,
        }
    }
}

/// `position` finds a field of that name, and none of that name stands before
/// it; it finds none only where no field has the name.
pub proof fn lemma_position(fields: Seq<FieldModel>, name: Seq<char>)
    ensures
        match position(fields, name) {
            Some(i) => 0 <= i < fields.len() && fields[i].name == name && forall|j: int|
                0 <= j < i ==> fields[j].name != name,
            None => forall|j: int| 0 <= j < fields.len() ==> fields[j].name != name,
        },
    decreases fields.len(),
{
    if fields.len() > 0 && fields[0].name != name {
        lemma_position(fields.drop_first(), name);
        match position(fields.drop_first(), name) {
            Some(i) => {
                assert forall|j: int| 0 <= j < i + 1 implies fields[j].name != name by {
                    if j > 0 {
                        assert(fields[j] == fields.drop_first()[j - 1]);
                    }
                }
            },
            None => {
                assert forall|j: int| 0 <= j < fields.len() implies fields[j].name != name by {
                    if j > 0 {
                        assert(fields[j] == fields.drop_first()[j - 1]);
                    }
                }
            },
        }
    }
}

/// The first field of a name is found at `i` where the field at `i` has the
/// name and none before it has.
pub proof fn lemma_position_is(fields: Seq<FieldModel>, name: Seq<char>, i: int)
    requires
        0 <= i < fields.len(),
        fields[i].name == name,
        forall|j: int| 0 <= j < i ==> fields[j].name != name,
    ensures
        position(fields, name) == Some(i),
{
    lemma_position(fields, name);
}

/// No field of a name is found where no field has the name.
pub proof fn lemma_position_none(fields: Seq<FieldModel>, name: Seq<char>)
    requires
        forall|j: int| 0 <= j < fields.len() ==> fields[j].name != name,
    ensures
        position(fields, name) is None,
{
    lemma_position(fields, name);
}

/// `fields` with the value at `i` replaced by `value`.
pub open spec fn with_value(fields: Seq<FieldModel>, i: int, value: ValueModel) -> Seq<FieldModel> {
    fields.update(i, FieldModel { name: fields[i].name, value })
}

/// Where the first field whose name is `name`, letter case aside, stands among
/// `fields`.
pub open spec fn position_any_case(fields: Seq<FieldModel>, name: Seq<char>) -> Option<int>
    decreases fields.len(),
{
    if fields.len() == 0 {
        None
    } else if same_name(fields[0].name, name) {
        Some(0)
    } else {
        match position_any_case(fields.drop_first(), name) {
            Some(i) => Some(i + 1),
            None => None,
        }
    }
}

/// `position_any_case` finds a field of that name, and none of that name
/// stands before it; it finds none only where no field has the name.
pub proof fn lemma_position_any_case(fields: Seq<FieldModel>, name: Seq<char>)
    ensures
        match position_any_case(fields, name) {
            Some(i) => 0 <= i < fields.len() && same_name(fields[i].name, name) && forall|j: int|
                0 <= j < i ==> !same_name(fields[j].name, name),
            None => forall|j: int| 0 <= j < fields.len() ==> !same_name(fields[j].name, name),
        },
    decreases fields.len(),
{
    if fields.len() > 0 && !same_name(fields[0].name, name) {
        lemma_position_any_case(fields.drop_first(), name);
        match position_any_case(fields.drop_first(), name) {
            Some(i) => {
                assert forall|j: int| 0 <= j < i + 1 implies !same_name(fields[j].name, name) by {
                    if j > 0 {
                        assert(fields[j] == fields.drop_first()[j - 1]);
                    }
                }
            },
            None => {
                assert forall|j: int| 0 <= j < fields.len() implies !same_name(
                    fields[j].name,
                    name,
                ) by {
                    if j > 0 {
                        assert(fields[j] == fields.drop_first()[j - 1]);
                    }
                }
            },
        }
    }
}

/// The bus after one incoming field: the first entry of that name, letter
/// case aside, takes the incoming value; a field that matches no entry is
/// dropped.
pub open spec fn merge_one(bus: Seq<FieldModel>, incoming: FieldModel) -> Seq<FieldModel> {
    match position_any_case(bus, incoming.name) {
        Some(i) => with_value(bus, i, incoming.value),
        None => bus,
    }
}

/// The bus after the incoming fields were merged into it one after the other:
/// of two incoming fields that match the same entry, the later one stays.
pub open spec fn merge(bus: Seq<FieldModel>, incoming: Seq<FieldModel>) -> Seq<FieldModel>
    decreases incoming.len(),
{
    if incoming.len() == 0 {
        bus
    } else {
        merge(merge_one(bus, incoming.first()), incoming.drop_first())
    }
}

/// The names of the fields, in order.
pub open spec fn names(fields: Seq<FieldModel>) -> Seq<Seq<char>> {
    Seq::new(fields.len(), |i: int| fields[i].name)
}

/// Merging one field changes no name.
pub proof fn lemma_merge_one_names(bus: Seq<FieldModel>, incoming: FieldModel)
    ensures
        names(merge_one(bus, incoming)) == names(bus),
{
    lemma_position_any_case(bus, incoming.name);
}

/// Merging changes no name: the bus neither gains nor loses an entry.
pub proof fn lemma_merge_names(bus: Seq<FieldModel>, incoming: Seq<FieldModel>)
    ensures
        names(merge(bus, incoming)) == names(bus),
    decreases incoming.len(),
{
    if incoming.len() > 0 {
        lemma_merge_one_names(bus, incoming.first());
        lemma_merge_names(merge_one(bus, incoming.first()), incoming.drop_first());
    }
}

/// No two of the fields have the same name, letter case aside.
pub open spec fn distinct_names(fields: Seq<FieldModel>) -> bool {
    forall|i: int, j: int|
        0 <= i < j < fields.len() ==> !same_name(
            (#[trigger] fields[i]).name,
            (#[trigger] fields[j]).name,
        )
}

/// A bus that has the names of a bus without repeated names has none either.
pub proof fn lemma_distinct_by_names(before: Seq<FieldModel>, after: Seq<FieldModel>)
    requires
        distinct_names(before),
        names(after) == names(before),
    ensures
        distinct_names(after),
{
    assert(before.len() == names(before).len());
    assert forall|i: int, j: int| 0 <= i < j < after.len() implies !same_name(
        (#[trigger] after[i]).name,
        (#[trigger] after[j]).name,
    ) by {
        assert(before[i].name == names(before)[i]);
        assert(before[j].name == names(before)[j]);
    }
}

/// Merging the fields and one more field is merging the fields and then that
/// field.
pub proof fn lemma_merge_push(bus: Seq<FieldModel>, incoming: Seq<FieldModel>, last: FieldModel)
    ensures
        merge(bus, incoming.push(last)) == merge_one(merge(bus, incoming), last),
    decreases incoming.len(),
{
    let all = incoming.push(last);
    if incoming.len() == 0 {
        assert(all.first() == last);
        assert(all.drop_first() =~= Seq::<FieldModel>::empty());
        assert(merge(merge_one(bus, last), all.drop_first()) == merge_one(bus, last));
    } else {
        assert(all.first() == incoming.first());
        assert(all.drop_first() =~= incoming.drop_first().push(last));
        lemma_merge_push(merge_one(bus, incoming.first()), incoming.drop_first(), last);
    }
}

/// Where the last field whose name is `name`, letter case aside, stands among
/// `fields`.
pub open spec fn last_any_case(fields: Seq<FieldModel>, name: Seq<char>) -> Option<int>
    decreases fields.len(),
{
    if fields.len() == 0 {
        None
    } else if same_name(fields.last().name, name) {
        Some(fields.len() - 1)
    } else {
        last_any_case(fields.drop_last(), name)
    }
}

/// On a bus without repeated names, merging leaves each entry with the value
/// of the last incoming field of its name, letter case aside, and with its own
/// value where no incoming field has its name.
pub proof fn lemma_merge_last_wins(bus: Seq<FieldModel>, incoming: Seq<FieldModel>, i: int)
    requires
        distinct_names(bus),
        0 <= i < bus.len(),
    ensures
        merge(bus, incoming).len() == bus.len(),
        merge(bus, incoming)[i].name == bus[i].name,
        merge(bus, incoming)[i].value == (match last_any_case(incoming, bus[i].name) {
            Some(k) => incoming[k].value,
            None => bus[i].value,
        }),
    decreases incoming.len(),
{
    lemma_merge_names(bus, incoming);
    assert(merge(bus, incoming).len() == names(merge(bus, incoming)).len());
    assert(bus.len() == names(bus).len());
    assert(merge(bus, incoming)[i].name == names(merge(bus, incoming))[i]);
    assert(bus[i].name == names(bus)[i]);
    if incoming.len() > 0 {
        let front = incoming.drop_last();
        let last = incoming.last();
        let mid = merge(bus, front);
        assert(incoming =~= front.push(last));
        lemma_merge_push(bus, front, last);
        lemma_merge_last_wins(bus, front, i);
        lemma_merge_names(bus, front);
        lemma_distinct_by_names(bus, mid);
        lemma_position_any_case(mid, last.name);
        if same_name(bus[i].name, last.name) {
            assert(position_any_case(mid, last.name) == Some(i)) by {
                let j = position_any_case(mid, last.name)->0;
                if j < i {
                    assert(same_name(mid[j].name, mid[i].name));
                }
            }
        } else if position_any_case(mid, last.name) is Some {
            assert(position_any_case(mid, last.name)->0 != i);
        }
        if last_any_case(front, bus[i].name) is Some {
            let k = last_any_case(front, bus[i].name)->0;
            lemma_last_any_case(front, bus[i].name);
            assert(front[k] == incoming[k]);
        }
    }
}

/// The last field of a name stands within the fields.
pub proof fn lemma_last_any_case(fields: Seq<FieldModel>, name: Seq<char>)
    ensures
        last_any_case(fields, name) matches Some(k) ==> 0 <= k < fields.len() && same_name(
            fields[k].name,
            name,
        ),
    decreases fields.len(),
{
    if fields.len() > 0 && !same_name(fields.last().name, name) {
        lemma_last_any_case(fields.drop_last(), name);
    }
}

/// Merges the incoming fields into the bus, one after the other: the first
/// entry of an incoming field's name, letter case aside, takes its value.
pub fn merge_into(bus: &mut Vec<Field>, incoming: &Vec<Field>)
    ensures
        models(final(bus)@) == merge(models(old(bus)@), models(incoming@)),
{
    let mut i: usize = 0;
    assert(models(incoming@).subrange(0, incoming.len() as int) =~= models(incoming@));
    while i < incoming.len()
        invariant
            i <= incoming.len(),
            merge(models(bus@), models(incoming@).subrange(i as int, incoming.len() as int))
                == merge(models(old(bus)@), models(incoming@)),
        decreases incoming.len() - i,
    {
        let ghost rest = models(incoming@).subrange(i as int, incoming.len() as int);
        assert(rest.drop_first() =~= models(incoming@).subrange(i + 1, incoming.len() as int));
        let ghost before = models(bus@);
        let key = to_lowercase(incoming[i].name());
        let mut j: usize = 0;
        let mut found = false;
        while j < bus.len() && !found
            invariant
                j <= bus.len(),
                key@ == lowercase(incoming[i as int]@.name),
                i < incoming.len(),
                !found ==> models(bus@) == before,
                !found ==> forall|k: int|
                    0 <= k < j ==> !same_name(before[k].name, incoming[i as int]@.name),
                found ==> models(bus@) == merge_one(before, incoming[i as int]@),
            decreases bus.len() - j, if found { 0int } else { 1int },
        {
            let name = to_lowercase(bus[j].name());
            if name == key {
                proof {
                    lemma_position_any_case(before, incoming[i as int]@.name);
                }
                bus[j].set_value(incoming[i].value().clone());
                found = true;
            } else {
                assert(before[j as int].name == bus[j as int]@.name);
                j += 1;
            }
        }
        proof {
            if !found {
                lemma_position_any_case(before, incoming[i as int]@.name);
            }
        }
        i += 1;
    }
}

/// The parts joined into one sequence, in order.
pub open spec fn joined(parts: Seq<Seq<FieldModel>>) -> Seq<FieldModel>
    decreases parts.len(),
{
    if parts.len() == 0 {
        Seq::empty()
    } else {
        joined(parts.drop_last()) + parts.last()
    }
}

/// Joining the parts and one more part is joining the parts and then adding
/// that part.
pub proof fn lemma_joined_push(parts: Seq<Seq<FieldModel>>, part: Seq<FieldModel>)
    ensures
        joined(parts.push(part)) == joined(parts) + part,
{
    assert(parts.push(part).drop_last() =~= parts);
}

/// Parts that are all empty join into nothing.
pub proof fn lemma_joined_nothing(parts: Seq<Seq<FieldModel>>)
    requires
        forall|i: int| 0 <= i < parts.len() ==> (#[trigger] parts[i]).len() == 0,
    ensures
        joined(parts) == Seq::<FieldModel>::empty(),
    decreases parts.len(),
{
    if parts.len() > 0 {
        let front = parts.drop_last();
        assert forall|i: int| 0 <= i < front.len() implies (#[trigger] front[i]).len() == 0 by {
            assert(front[i] == parts[i]);
        }
        lemma_joined_nothing(front);
        assert(parts.last() == parts[parts.len() - 1]);
        assert(joined(parts.drop_last()) + parts.last() =~= Seq::<FieldModel>::empty());
    }
}

/// The models of two sequences joined are the models of each, joined.
pub proof fn lemma_models_add(a: Seq<Field>, b: Seq<Field>)
    ensures
        models(a + b) == models(a) + models(b),
{
    assert(models(a + b) =~= models(a) + models(b));
}

/// A copy of each field, in order.
pub fn clone_fields(fields: &Vec<Field>) -> (r: Vec<Field>)
    ensures
        models(r@) == models(fields@),
{
    let mut out: Vec<Field> = Vec::new();
    let mut i: usize = 0;
    while i < fields.len()
        invariant
            i <= fields.len(),
            out.len() == i,
            forall|j: int| 0 <= j < i ==> out[j]@ == fields[j]@,
        decreases fields.len() - i,
    {
        out.push(fields[i].clone());
        i += 1;
    }
    out
}

} // verus!
