//! Networks of devices, the bus of values that the devices of a network share,
//! and the tick that moves values along relays from network to network.

use vstd::prelude::*;
use crate::deserializer::Deserializer;
use crate::devices::chip::CodeRunner;
use crate::devices::Device;
use crate::devices::kind_tagged;
use crate::devices::kinds::DeviceKind;
use crate::devices::Rack;
use crate::field::clone_fields;
use crate::field::distinct_names;
use crate::field::Field;
use crate::field::FieldModel;
use crate::field::joined;
use crate::field::lemma_distinct_by_names;
use crate::field::lemma_joined_nothing;
use crate::field::lemma_joined_push;
use crate::field::lemma_merge_names;
use crate::field::lemma_models_add;
use crate::field::lemma_position_any_case;
use crate::field::merge;
use crate::field::merge_into;
use crate::field::models;
use crate::field::names;
use crate::field::position_any_case;
use crate::text::lowercase;
use crate::text::same_name;
use crate::text::to_lowercase;

verus! {

/// The kind of device that a document describes, if it names one.
pub open spec fn kind_in<D: Deserializer>(doc: &D) -> Option<DeviceKind> {
    match doc.type_tag() {
        Some(tag) => kind_tagged(tag),
        None => None,
    }
}

/// Whether `devices` are the devices that the documents `items` describe, in
/// order: one device for each document that names a kind, set up from that
/// document, and none for a document that names no kind.
pub open spec fn described<R: CodeRunner, D: Deserializer>(
    items: Seq<D>,
    devices: Seq<Device<R>>,
) -> bool
    decreases items.len(),
{
    if items.len() == 0 {
        devices.len() == 0
    } else {
        match kind_in(&items.last()) {
            Some(kind) => devices.len() > 0 && devices.last().set_up(kind, &items.last())
                && described(items.drop_last(), devices.drop_last()),
            None => described(items.drop_last(), devices),
        }
    }
}

/// How many of the documents name a kind of device.
pub open spec fn known<D: Deserializer>(items: Seq<D>) -> nat
    decreases items.len(),
{
    if items.len() == 0 {
        0
    } else {
        known(items.drop_last()) + (if kind_in(&items.last()) is Some {
            1nat
        } else {
            0nat
        })
    }
}

/// There is one device for each document that names a kind: a document with
/// an unknown type tag is left out, and the others are not affected by it.
pub proof fn lemma_described_len<R: CodeRunner, D: Deserializer>(
    items: Seq<D>,
    devices: Seq<Device<R>>,
)
    requires
        described(items, devices),
    ensures
        devices.len() == known(items),
    decreases items.len(),
{
    if items.len() > 0 {
        match kind_in(&items.last()) {
            Some(_) => lemma_described_len(items.drop_last(), devices.drop_last()),
            None => lemma_described_len(items.drop_last(), devices),
        }
    }
}

/// A network: its devices, and the bus of named values that they share.
#[derive(Debug)]
pub struct Network<R: CodeRunner> {
    devices: Vec<Device<R>>,
    globals: Vec<Field>,
}

impl<R: CodeRunner> Network<R> {
    /// No two entries of the bus have the same name, letter case aside.
    #[verifier::type_invariant]
    spec fn distinct(&self) -> bool {
        distinct_names(models(self.globals@))
    }

    /// The devices, in the order in which they were declared.
    pub closed spec fn devices(&self) -> Seq<Device<R>> {
        self.devices@
    }

    /// The bus: the named values that the devices share.
    pub closed spec fn bus(&self) -> Seq<FieldModel> {
        models(self.globals@)
    }

    /// Whether `after` is this network with every rack taken to a state that
    /// `to` accepts, and nothing else changed.
    pub open spec fn racks_move(&self, after: &Self, to: spec_fn(Rack<R>, Rack<R>) -> bool) -> bool {
        &&& after.bus() == self.bus()
        &&& after.devices().len() == self.devices().len()
        &&& forall|i: int|
            0 <= i < self.devices().len() ==> self.devices()[i].rack_moves(
                #[trigger] &after.devices()[i],
                to,
            )
    }

    /// What `parse_all_chip_file` does: the chips of every rack are loaded.
    pub open spec fn loads(&self, after: &Self) -> bool {
        self.racks_move(after, |r: Rack<R>, q: Rack<R>| r.loads(&q))
    }

    /// What `step` does: every rack is stepped.
    pub open spec fn steps(&self, after: &Self) -> bool {
        self.racks_move(after, |r: Rack<R>, q: Rack<R>| r.steps(&q))
    }

    /// What `update_globals` does: every rack takes over the bus.
    pub open spec fn pushes(&self, after: &Self) -> bool {
        self.racks_move(after, |r: Rack<R>, q: Rack<R>| r.updates(self.bus(), &q))
    }

    /// Whether `out` is `parts` joined, each part being what the device in
    /// its place can share.
    pub open spec fn collects_via(
        &self,
        parts: Seq<Seq<FieldModel>>,
        out: Seq<FieldModel>,
    ) -> bool {
        &&& parts.len() == self.devices().len()
        &&& forall|i: int| 0 <= i < parts.len() ==> self.devices()[i].shares(#[trigger] parts[i])
        &&& out == joined(parts)
    }

    /// Whether `out` can be collected from the network: what its racks can
    /// share, joined in the order of the devices.
    pub open spec fn collects(&self, out: Seq<FieldModel>) -> bool {
        exists|parts: Seq<Seq<FieldModel>>| #[trigger] self.collects_via(parts, out)
    }

    /// What `update` does: the bus takes in, by merging, values that can be
    /// collected from the network; the devices stay as they are.
    pub open spec fn pulls(&self, after: &Self) -> bool {
        &&& after.devices() == self.devices()
        &&& exists|collected: Seq<FieldModel>| #[trigger]
            self.collects(collected) && after.bus() == merge(self.bus(), collected)
    }

    /// Whether no device of the network is a rack.
    pub open spec fn rackless(&self) -> bool {
        forall|i: int| 0 <= i < self.devices().len() ==> !(#[trigger] self.devices()[i] is Rack)
    }

    /// A network without racks stays as it is wherever only racks move.
    pub proof fn lemma_rackless_stays(&self, after: &Self, to: spec_fn(Rack<R>, Rack<R>) -> bool)
        requires
            self.rackless(),
            self.racks_move(after, to),
        ensures
            after.devices() == self.devices(),
            after.bus() == self.bus(),
    {
        assert forall|i: int| 0 <= i < self.devices().len() implies after.devices()[i]
            == self.devices()[i] by {
            assert(self.devices()[i].rack_moves(&after.devices()[i], to));
            assert(!(self.devices()[i] is Rack));
        }
        assert(after.devices() =~= self.devices());
    }

    /// A network without racks collects nothing, so that its bus takes in
    /// nothing.
    pub proof fn lemma_rackless_pulls(&self, after: &Self)
        requires
            self.rackless(),
            self.pulls(after),
        ensures
            after.devices() == self.devices(),
            after.bus() == self.bus(),
    {
        let collected = choose|collected: Seq<FieldModel>| #[trigger]
            self.collects(collected) && after.bus() == merge(self.bus(), collected);
        let parts = choose|parts: Seq<Seq<FieldModel>>| #[trigger]
            self.collects_via(parts, collected);
        assert forall|i: int| 0 <= i < parts.len() implies (#[trigger] parts[i]).len() == 0 by {
            assert(self.devices()[i].shares(parts[i]));
            assert(!(self.devices()[i] is Rack));
        }
        lemma_joined_nothing(parts);
    }

    /// A network of the given devices with an empty bus.
    pub fn new(devices: Vec<Device<R>>) -> (r: Self)
        ensures
            r.devices() == devices@,
            r.bus() == Seq::<FieldModel>::empty(),
    {
        let globals: Vec<Field> = Vec::new();
        Network { devices, globals }
    }

    /// Loads the chips of every rack.
    pub fn parse_all_chip_file(&mut self)
        ensures
            old(self).loads(final(self)),
    {
        proof {
            use_type_invariant(&*self);
        }
        let n = self.devices.len();
        let mut i: usize = 0;
        while i < n
            invariant
                i <= n,
                n == self.devices.len(),
                n == old(self).devices.len(),
                self.globals == old(self).globals,
                distinct_names(models(self.globals@)),
                forall|j: int|
                    0 <= j < i ==> old(self).devices[j].rack_moves(
                        #[trigger] &self.devices[j],
                        |r: Rack<R>, q: Rack<R>| r.loads(&q),
                    ),
                forall|j: int| i <= j < n ==> self.devices[j] == old(self).devices[j],
            decreases n - i,
        {
            match &mut self.devices[i] {
                Device::Rack(rack) => {
                    rack.parse_all_chip_file();
                },
                _ => {},
            }
            i += 1;
        }
    }

    /// Steps every rack.
    pub fn step(&mut self)
        ensures
            old(self).steps(final(self)),
    {
        proof {
            use_type_invariant(&*self);
        }
        let n = self.devices.len();
        let mut i: usize = 0;
        while i < n
            invariant
                i <= n,
                n == self.devices.len(),
                n == old(self).devices.len(),
                self.globals == old(self).globals,
                distinct_names(models(self.globals@)),
                forall|j: int|
                    0 <= j < i ==> old(self).devices[j].rack_moves(
                        #[trigger] &self.devices[j],
                        |r: Rack<R>, q: Rack<R>| r.steps(&q),
                    ),
                forall|j: int| i <= j < n ==> self.devices[j] == old(self).devices[j],
            decreases n - i,
        {
            match &mut self.devices[i] {
                Device::Rack(rack) => {
                    rack.step();
                },
                _ => {},
            }
            i += 1;
        }
    }

    /// Hands the bus to every rack.
    pub fn update_globals(&mut self)
        ensures
            old(self).pushes(final(self)),
    {
        proof {
            use_type_invariant(&*self);
        }
        let n = self.devices.len();
        let mut i: usize = 0;
        while i < n
            invariant
                i <= n,
                n == self.devices.len(),
                n == old(self).devices.len(),
                self.globals == old(self).globals,
                distinct_names(models(self.globals@)),
                forall|j: int|
                    0 <= j < i ==> old(self).devices[j].rack_moves(
                        #[trigger] &self.devices[j],
                        |r: Rack<R>, q: Rack<R>| r.updates(old(self).bus(), &q),
                    ),
                forall|j: int| i <= j < n ==> self.devices[j] == old(self).devices[j],
            decreases n - i,
        {
            let values = clone_fields(&self.globals);
            match &mut self.devices[i] {
                Device::Rack(rack) => {
                    rack.update_globals(values);
                },
                _ => {},
            }
            i += 1;
        }
    }

    /// Collects the values that the racks share, in the order of the devices,
    /// and merges them into the bus. The bus keeps its names.
    pub fn update(&mut self)
        ensures
            old(self).pulls(final(self)),
            names(final(self).bus()) == names(old(self).bus()),
    {
        let mut collected: Vec<Field> = Vec::new();
        let ghost mut parts = Seq::<Seq<FieldModel>>::empty();
        let mut i: usize = 0;
        while i < self.devices.len()
            invariant
                i <= self.devices.len(),
                *self == *old(self),
                parts.len() == i,
                forall|j: int| 0 <= j < i ==> self.devices()[j].shares(#[trigger] parts[j]),
                models(collected@) == joined(parts),
            decreases self.devices.len() - i,
        {
            let ghost before = parts;
            match &self.devices[i] {
                Device::Rack(rack) => {
                    let mut shared = rack.get_global();
                    proof {
                        lemma_models_add(collected@, shared@);
                        lemma_joined_push(parts, models(shared@));
                        parts = parts.push(models(shared@));
                    }
                    collected.append(&mut shared);
                },
                _ => {
                    proof {
                        lemma_joined_push(parts, Seq::<FieldModel>::empty());
                        parts = parts.push(Seq::<FieldModel>::empty());
                        assert(models(collected@) + Seq::<FieldModel>::empty() =~= models(
                            collected@,
                        ));
                    }
                },
            }
            assert forall|j: int| 0 <= j < i + 1 implies self.devices()[j].shares(
                #[trigger] parts[j],
            ) by {
                if j < i {
                    assert(parts[j] == before[j]);
                }
            }
            i += 1;
        }
        let ghost gathered = models(collected@);
        self.set_globals(collected);
        proof {
            assert(old(self).collects_via(parts, gathered));
            assert(old(self).collects(gathered));
        }
    }

    /// A copy of the bus.
    pub fn globals(&self) -> (r: Vec<Field>)
        ensures
            models(r@) == self.bus(),
            distinct_names(self.bus()),
    {
        proof {
            use_type_invariant(self);
        }
        clone_fields(&self.globals)
    }

    /// Merges the given fields into the bus, one after the other: the entry of
    /// a field's name, letter case aside, takes the field's value, and a field
    /// that matches no entry is dropped. The bus keeps its names.
    pub fn set_globals(&mut self, globals: Vec<Field>)
        ensures
            final(self).devices() == old(self).devices(),
            final(self).bus() == merge(old(self).bus(), models(globals@)),
            names(final(self).bus()) == names(old(self).bus()),
            distinct_names(final(self).bus()),
    {
        proof {
            use_type_invariant(&*self);
            lemma_merge_names(self.bus(), models(globals@));
            lemma_distinct_by_names(
                self.bus(),
                merge(self.bus(), models(globals@)),
            );
        }
        let mut bus: Vec<Field> = Vec::new();
        std::mem::swap(&mut self.globals, &mut bus);
        merge_into(&mut bus, &globals);
        std::mem::swap(&mut self.globals, &mut bus);
    }

    /// Puts a new entry on the bus, unless the bus has an entry of that name,
    /// letter case aside; tells whether it did.
    pub fn add_global(&mut self, field: Field) -> (r: bool)
        ensures
            final(self).devices() == old(self).devices(),
            r == (position_any_case(old(self).bus(), field@.name) is None),
            final(self).bus() == (if r {
                old(self).bus().push(field@)
            } else {
                old(self).bus()
            }),
            distinct_names(final(self).bus()),
    {
        proof {
            use_type_invariant(&*self);
            lemma_position_any_case(self.bus(), field@.name);
        }
        let key = to_lowercase(field.name());
        let mut j: usize = 0;
        while j < self.globals.len()
            invariant
                j <= self.globals.len(),
                *self == *old(self),
                key@ == lowercase(field@.name),
                forall|k: int| 0 <= k < j ==> !same_name(self.bus()[k].name, field@.name),
            decreases self.globals.len() - j,
        {
            let name = to_lowercase(self.globals[j].name());
            if name == key {
                proof {
                    use_type_invariant(&*self);
                    assert(same_name(self.bus()[j as int].name, field@.name));
                    lemma_position_any_case(self.bus(), field@.name);
                }
                return false;
            }
            j += 1;
        }
        let ghost before = self.bus();
        let ghost added = field@;
        proof {
            assert forall|a: int, b: int| 0 <= a < b < before.push(added).len() implies !same_name(
                (#[trigger] before.push(added)[a]).name,
                (#[trigger] before.push(added)[b]).name,
            ) by {
                if b < before.len() {
                    assert(before.push(added)[b] == before[b]);
                }
            }
        }
        let mut bus: Vec<Field> = Vec::new();
        std::mem::swap(&mut self.globals, &mut bus);
        bus.push(field);
        assert(models(bus@) =~= before.push(added));
        std::mem::swap(&mut self.globals, &mut bus);
        true
    }

    /// How many devices the network holds.
    pub fn device_count(&self) -> (r: usize)
        ensures
            r == self.devices().len(),
    {
        self.devices.len()
    }

    /// The device at `index`, in the order in which the devices were declared.
    pub fn device(&self, index: usize) -> (r: Option<&Device<R>>)
        ensures
            match r {
                Some(d) => index < self.devices().len() && *d == self.devices()[index as int],
                None => index >= self.devices().len(),
            },
    {
        if index < self.devices.len() {
            Some(&self.devices[index])
        } else {
            None
        }
    }

    /// The device at `index`, to be changed in place; nothing else of the
    /// network changes.
    pub fn device_mut(&mut self, index: usize) -> (r: Option<&mut Device<R>>)
        ensures
            final(self).bus() == old(self).bus(),
            match r {
                Some(d) => index < old(self).devices().len() && *d == old(
                    self,
                ).devices()[index as int] && final(self).devices() == old(self).devices().update(
                    index as int,
                    *final(d),
                ),
                None => index >= old(self).devices().len() && final(self).devices() == old(
                    self,
                ).devices(),
            },
    {
        proof {
            use_type_invariant(&*self);
        }
        if index < self.devices.len() {
            Some(&mut self.devices[index])
        } else {
            None
        }
    }

    /// The network that a document describes: the devices that the items
    /// under `devices` describe, in order, and an empty bus. An item that
    /// names no kind of device is left out.
    pub fn deserialize<D: Deserializer>(doc: &D) -> (r: Self)
        ensures
            describes(doc, &r),
    {
        let mut devices: Vec<Device<R>> = Vec::new();
        match doc.get_field("devices") {
            Some(list) => match list.as_set() {
                Some(items) => {
                    let ghost all = list.items()->0;
                    let mut i: usize = 0;
                    while i < items.len()
                        invariant
                            i <= items.len(),
                            items.len() == all.len(),
                            forall|j: int| 0 <= j < items.len() ==> *items[j] == all[j],
                            described(all.subrange(0, i as int), devices@),
                        decreases items.len() - i,
                    {
                        let ghost upto = all.subrange(0, i + 1);
                        assert(upto.drop_last() =~= all.subrange(0, i as int));
                        let ghost before = devices@;
                        match Device::deserialize(items[i]) {
                            Some(device) => {
                                devices.push(device);
                                assert(devices@.drop_last() =~= before);
                            },
                            None => {},
                        }
                        i += 1;
                    }
                    assert(all.subrange(0, all.len() as int) =~= all);
                },
                None => {},
            },
            None => {},
        }
        Network::new(devices)
    }
}

/// The documents of a network's devices: the items of the sequence under
/// `devices`.
pub open spec fn device_items<D: Deserializer>(doc: &D) -> Option<Seq<D>> {
    match doc.field_of("devices"@) {
        Some(list) => list.items(),
        None => None,
    }
}

/// Whether `network` is the network that `doc` describes: its bus is empty,
/// and its devices are those that the document's device items describe.
pub open spec fn describes<R: CodeRunner, D: Deserializer>(doc: &D, network: &Network<R>) -> bool {
    &&& network.bus() == Seq::<FieldModel>::empty()
    &&& match device_items(doc) {
        Some(items) => described(items, network.devices()),
        None => network.devices().len() == 0,
    }
}

} // verus!
