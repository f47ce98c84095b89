//! The rack: a device that holds one to three chips.

use vstd::prelude::*;
use crate::deserializer::Deserializer;
use crate::devices::chip::Chip;
use crate::devices::chip::CodeRunner;
use crate::devices::DeviceTrait;
use crate::devices::names::field_name;
use crate::devices::names::pascal_name;
use crate::devices::panel::unnamed;
use crate::devices::renamed;
use crate::field::clone_fields;
use crate::field::Field;
use crate::field::FieldModel;
use crate::field::joined;
use crate::field::lemma_joined_push;
use crate::field::lemma_models_add;
use crate::field::lemma_position_is;
use crate::field::lemma_position_none;
use crate::field::models;
use crate::text::str_equal;
use crate::value::YololValue;

verus! {

/// The module of a rack, which decides how many chips it holds.
#[derive(Debug)]
enum RackModule<R: CodeRunner> {
    Core(Chip<R>, Chip<R>, Chip<R>),
    Socket(Chip<R>, Chip<R>),
    Reader(Chip<R>),
}

impl<R: CodeRunner> RackModule<R> {
    /// The chips of the module, in slot order.
    spec fn chips(&self) -> Seq<Chip<R>> {
        match self {
            RackModule::Core(a, b, c) => seq![*a, *b, *c],
            RackModule::Socket(a, b) => seq![*a, *b],
            RackModule::Reader(a) => seq![*a],
        }
    }
}

/// The default names of a rack's control fields, in lookup order: their
/// identifiers in Pascal case.
pub open spec fn rack_defaults() -> Seq<Seq<char>> {
    seq![
        pascal_name("current_state"@),
        pascal_name("on_state"@),
        pascal_name("off_state"@),
        pascal_name("button"@),
    ]
}

/// How many chips the module with type tag `tag` holds; `None` for a tag that
/// names no module.
pub open spec fn module_arity(tag: Seq<char>) -> Option<nat> {
    if tag == "socket_core"@ {
        Some(2)
    } else if tag == "chip_core"@ {
        Some(3)
    } else if tag == "chip_reader"@ {
        Some(1)
    } else {
        None
    }
}

/// A chip core holds three chips, a socket core two, a chip reader one.
pub proof fn lemma_module_arity()
    ensures
        module_arity("chip_core"@) == Some(3nat),
        module_arity("socket_core"@) == Some(2nat),
        module_arity("chip_reader"@) == Some(1nat),
{
    reveal_strlit("chip_core");
    reveal_strlit("socket_core");
    reveal_strlit("chip_reader");
    assert("chip_core"@ != "socket_core"@) by {
        assert("chip_core"@.len() != "socket_core"@.len());
    }
    assert("chip_reader"@ != "socket_core"@) by {
        assert("chip_reader"@[0] != "socket_core"@[0]);
    }
    assert("chip_reader"@ != "chip_core"@) by {
        assert("chip_reader"@.len() != "chip_core"@.len());
    }
}

/// How many chips a rack holds once it was set up from `doc`: as many as the
/// module that the document selects, and one where it selects none.
pub open spec fn slots_for<D: Deserializer>(doc: &D) -> nat {
    match module_of(doc) {
        Some((_, n)) => n,
        None => 1,
    }
}

/// The key under which a module's document holds the chip of slot `i`.
pub open spec fn slot_key(i: int) -> Seq<char> {
    if i == 0 {
        "slot1"@
    } else if i == 1 {
        "slot2"@
    } else {
        "slot3"@
    }
}

/// Whether `chip` is what the module's document `module` puts into slot `i`:
/// the chip that the slot's type tag names, or the empty slot where the
/// document has no such slot or the slot has no tag.
pub open spec fn slot_configured<R: CodeRunner, D: Deserializer>(
    chip: &Chip<R>,
    module: &D,
    i: int,
) -> bool {
    match module.field_of(slot_key(i)) {
        Some(slot) => match slot.type_tag() {
            Some(tag) => chip.configured(tag, &slot),
            None => chip is Empty,
        },
        None => chip is Empty,
    }
}

/// The module that a rack's document selects: the node under `module` and the
/// number of chips that its type tag stands for.
pub open spec fn module_of<D: Deserializer>(doc: &D) -> Option<(D, nat)> {
    match doc.field_of("module"@) {
        Some(module) => match module.type_tag() {
            Some(tag) => match module_arity(tag) {
                Some(n) => Some((module, n)),
                None => None,
            },
            None => None,
        },
        None => None,
    }
}

/// A rack: four control fields and a module with its chips.
#[derive(Debug)]
pub struct Rack<R: CodeRunner> {
    current_state: Field,
    on_state: Field,
    off_state: Field,
    button: Field,
    module: RackModule<R>,
}

impl<R: CodeRunner> Default for Rack<R> {
    /// A rack with unnamed fields and a reader with an empty slot.
    fn default() -> (r: Self)
        ensures
            r.chips() == seq![Chip::<R>::Empty],
            r.controls() == unnamed(4),
    {
        Rack {
            current_state: Field::default(),
            on_state: Field::default(),
            off_state: Field::default(),
            button: Field::default(),
            module: RackModule::Reader(Chip::default()),
        }
    }
}

impl<R: CodeRunner> Rack<R> {
    /// The four control fields: current state, on state, off state, button.
    pub closed spec fn controls(&self) -> Seq<FieldModel> {
        seq![self.current_state@, self.on_state@, self.off_state@, self.button@]
    }

    /// The chips of the rack's module, in slot order.
    pub closed spec fn chips(&self) -> Seq<Chip<R>> {
        self.module.chips()
    }

    /// A rack has four control fields and one to three chips.
    pub proof fn lemma_shape(&self)
        ensures
            self.controls().len() == 4,
            1 <= self.chips().len() <= 3,
    {
    }

    /// Whether `after` is this rack with each chip taken to a state that `to`
    /// accepts for its slot, and nothing else changed.
    pub open spec fn chips_move(&self, after: &Self, to: spec_fn(Chip<R>, Chip<R>) -> bool) -> bool {
        &&& after.controls() == self.controls()
        &&& after.chips().len() == self.chips().len()
        &&& forall|i: int|
            0 <= i < self.chips().len() ==> to(self.chips()[i], #[trigger] after.chips()[i])
    }

    /// What `parse_all_chip_file` does: every chip is loaded.
    pub open spec fn loads(&self, after: &Self) -> bool {
        self.chips_move(after, |c: Chip<R>, d: Chip<R>| c.loads(&d))
    }

    /// What `step` does: every chip is stepped.
    pub open spec fn steps(&self, after: &Self) -> bool {
        self.chips_move(after, |c: Chip<R>, d: Chip<R>| c.steps(&d))
    }

    /// What `update_globals` does: every chip takes over the values.
    pub open spec fn updates(&self, globals: Seq<FieldModel>, after: &Self) -> bool {
        self.chips_move(after, |c: Chip<R>, d: Chip<R>| c.updates(globals, &d))
    }

    /// Whether `out` is `parts` joined, each part being what the chip of its
    /// slot can share.
    pub open spec fn shares_via(&self, parts: Seq<Seq<FieldModel>>, out: Seq<FieldModel>) -> bool {
        &&& parts.len() == self.chips().len()
        &&& forall|i: int| 0 <= i < parts.len() ==> self.chips()[i].shares(#[trigger] parts[i])
        &&& out == joined(parts)
    }

    /// Whether the rack can share the named values `out`: what its chips can
    /// share, joined in slot order.
    pub open spec fn shares(&self, out: Seq<FieldModel>) -> bool {
        exists|parts: Seq<Seq<FieldModel>>| #[trigger] self.shares_via(parts, out)
    }

    /// How many chips the rack holds.
    pub fn slot_count(&self) -> (r: usize)
        ensures
            r == self.chips().len(),
    {
        match &self.module {
            RackModule::Core(_, _, _) => 3,
            RackModule::Socket(_, _) => 2,
            RackModule::Reader(_) => 1,
        }
    }

    /// The chip in slot `index`, counted from zero.
    pub fn slot(&self, index: usize) -> (r: Option<&Chip<R>>)
        ensures
            match r {
                Some(c) => index < self.chips().len() && *c == self.chips()[index as int],
                None => index >= self.chips().len(),
            },
    {
        match &self.module {
            RackModule::Core(a, b, c) => if index == 0 {
                Some(a)
            } else if index == 1 {
                Some(b)
            } else if index == 2 {
                Some(c)
            } else {
                None
            },
            RackModule::Socket(a, b) => if index == 0 {
                Some(a)
            } else if index == 1 {
                Some(b)
            } else {
                None
            },
            RackModule::Reader(a) => if index == 0 {
                Some(a)
            } else {
                None
            },
        }
    }

    /// The chip in slot `index`, counted from zero, to be changed in place;
    /// nothing else of the rack changes.
    pub fn slot_mut(&mut self, index: usize) -> (r: Option<&mut Chip<R>>)
        ensures
            final(self).controls() == old(self).controls(),
            match r {
                Some(c) => index < old(self).chips().len() && *c == old(self).chips()[index as int]
                    && final(self).chips() == old(self).chips().update(index as int, *final(c)),
                None => index >= old(self).chips().len() && final(self).chips() == old(
                    self,
                ).chips(),
            },
    {
        match &mut self.module {
            RackModule::Core(a, b, c) => if index == 0 {
                Some(a)
            } else if index == 1 {
                Some(b)
            } else if index == 2 {
                Some(c)
            } else {
                None
            },
            RackModule::Socket(a, b) => if index == 0 {
                Some(a)
            } else if index == 1 {
                Some(b)
            } else {
                None
            },
            RackModule::Reader(a) => if index == 0 {
                Some(a)
            } else {
                None
            },
        }
    }

    /// Loads the source of every chip.
    pub fn parse_all_chip_file(&mut self)
        ensures
            old(self).loads(final(self)),
    {
        match &mut self.module {
            RackModule::Core(a, b, c) => {
                a.load();
                b.load();
                c.load();
            },
            RackModule::Socket(a, b) => {
                a.load();
                b.load();
            },
            RackModule::Reader(a) => {
                a.load();
            },
        }
    }

    /// Steps every chip.
    pub fn step(&mut self)
        ensures
            old(self).steps(final(self)),
    {
        match &mut self.module {
            RackModule::Core(a, b, c) => {
                a.step();
                b.step();
                c.step();
            },
            RackModule::Socket(a, b) => {
                a.step();
                b.step();
            },
            RackModule::Reader(a) => {
                a.step();
            },
        }
    }

    /// Hands the bus values to every chip.
    pub fn update_globals(&mut self, globals: Vec<Field>)
        ensures
            old(self).updates(models(globals@), final(self)),
    {
        match &mut self.module {
            RackModule::Core(a, b, c) => {
                a.update_globals(clone_fields(&globals));
                b.update_globals(clone_fields(&globals));
                c.update_globals(globals);
            },
            RackModule::Socket(a, b) => {
                a.update_globals(clone_fields(&globals));
                b.update_globals(globals);
            },
            RackModule::Reader(a) => {
                a.update_globals(globals);
            },
        }
    }

    /// The named values that the chips share, joined in slot order.
    pub fn get_global(&self) -> (r: Vec<Field>)
        ensures
            self.shares(models(r@)),
    {
        let ghost none = Seq::<Seq<FieldModel>>::empty();
        match &self.module {
            RackModule::Core(a, b, c) => {
                let mut out = a.get_global();
                let mut second = b.get_global();
                let mut third = c.get_global();
                let ghost parts = seq![models(out@), models(second@), models(third@)];
                proof {
                    lemma_models_add(out@, second@);
                    lemma_models_add(out@ + second@, third@);
                    lemma_joined_push(none, models(out@));
                    lemma_joined_push(none.push(models(out@)), models(second@));
                    lemma_joined_push(
                        none.push(models(out@)).push(models(second@)),
                        models(third@),
                    );
                    assert(parts =~= none.push(models(out@)).push(models(second@)).push(
                        models(third@),
                    ));
                }
                out.append(&mut second);
                out.append(&mut third);
                assert(self.shares_via(parts, models(out@)));
                out
            },
            RackModule::Socket(a, b) => {
                let mut out = a.get_global();
                let mut second = b.get_global();
                let ghost parts = seq![models(out@), models(second@)];
                proof {
                    lemma_models_add(out@, second@);
                    lemma_joined_push(none, models(out@));
                    lemma_joined_push(none.push(models(out@)), models(second@));
                    assert(parts =~= none.push(models(out@)).push(models(second@)));
                }
                out.append(&mut second);
                assert(self.shares_via(parts, models(out@)));
                out
            },
            RackModule::Reader(a) => {
                let out = a.get_global();
                let ghost parts = seq![models(out@)];
                proof {
                    lemma_joined_push(none, models(out@));
                }
                assert(self.shares_via(parts, models(out@)));
                out
            },
        }
    }

    /// Whether `after` is a rack set up from `doc`, starting from the given
    /// control fields and chips: the control fields are named from the
    /// document; where the document selects a module, the rack has that module
    /// with a chip for each slot, and otherwise the chips it started from.
    pub open spec fn configured<D: Deserializer>(
        controls: Seq<FieldModel>,
        chips: Seq<Chip<R>>,
        doc: &D,
        after: &Self,
    ) -> bool {
        &&& after.controls() == renamed(controls, rack_defaults(), doc)
        &&& match module_of(doc) {
            Some((module, n)) => after.chips().len() == n && forall|i: int|
                0 <= i < n ==> slot_configured(#[trigger] &after.chips()[i], &module, i),
            None => after.chips() == chips,
        }
    }

    /// A rack that was set up from a document, starting with one chip, holds
    /// as many chips as the module that the document selects, and one where
    /// the document selects no module.
    pub proof fn lemma_slot_count<D: Deserializer>(
        controls: Seq<FieldModel>,
        chips: Seq<Chip<R>>,
        doc: &D,
        after: &Self,
    )
        requires
            Self::configured(controls, chips, doc, after),
            chips.len() == 1,
        ensures
            after.chips().len() == slots_for(doc),
    {
    }

    /// Whether `after` is this rack set up from `doc`.
    pub open spec fn configures<D: Deserializer>(&self, doc: &D, after: &Self) -> bool {
        Self::configured(self.controls(), self.chips(), doc, after)
    }

    /// The chip that a module's document puts into the slot under `key`.
    fn read_slot<D: Deserializer>(module: &D, key: &str) -> (r: Chip<R>)
        ensures
            match module.field_of(key@) {
                Some(slot) => match slot.type_tag() {
                    Some(tag) => r.configured(tag, &slot),
                    None => r is Empty,
                },
                None => r is Empty,
            },
    {
        match module.get_field(key) {
            Some(slot) => match slot.get_type() {
                Some(tag) => Chip::new(tag, slot),
                None => Chip::Empty,
            },
            None => Chip::Empty,
        }
    }
}

impl<R: CodeRunner> DeviceTrait for Rack<R> {
    open spec fn fields(&self) -> Seq<FieldModel> {
        self.controls()
    }

    open spec fn default_names(&self) -> Seq<Seq<char>> {
        rack_defaults()
    }

    open spec fn kind_name(&self) -> Seq<char> {
        "rack"@
    }

    fn get_field(&self, field: &str) -> (r: Option<&YololValue>) {
        let ghost fields = self.controls();
        if str_equal(self.current_state.name(), field) {
            proof {
                lemma_position_is(fields, field@, 0);
            }
            return Some(self.current_state.value());
        }
        if str_equal(self.on_state.name(), field) {
            proof {
                lemma_position_is(fields, field@, 1);
            }
            return Some(self.on_state.value());
        }
        if str_equal(self.off_state.name(), field) {
            proof {
                lemma_position_is(fields, field@, 2);
            }
            return Some(self.off_state.value());
        }
        if str_equal(self.button.name(), field) {
            proof {
                lemma_position_is(fields, field@, 3);
            }
            return Some(self.button.value());
        }
        proof {
            lemma_position_none(fields, field@);
        }
        None
    }

    fn get_field_mut(&mut self, field: &str) -> (r: Option<&mut YololValue>)
        ensures
            final(self).chips() == old(self).chips(),
    {
        let ghost fields = self.controls();
        if str_equal(self.current_state.name(), field) {
            proof {
                lemma_position_is(fields, field@, 0);
            }
            return Some(self.current_state.value_mut());
        }
        if str_equal(self.on_state.name(), field) {
            proof {
                lemma_position_is(fields, field@, 1);
            }
            return Some(self.on_state.value_mut());
        }
        if str_equal(self.off_state.name(), field) {
            proof {
                lemma_position_is(fields, field@, 2);
            }
            return Some(self.off_state.value_mut());
        }
        if str_equal(self.button.name(), field) {
            proof {
                lemma_position_is(fields, field@, 3);
            }
            return Some(self.button.value_mut());
        }
        proof {
            lemma_position_none(fields, field@);
        }
        None
    }

    fn get_device_name(&self) -> (r: String) {
        "rack".to_string()
    }

    fn deserialize<D: Deserializer>(&mut self, doc: &D)
        ensures
            old(self).configures(doc, final(self)),
    {
        proof {
            reveal_strlit("current_state");
            reveal_strlit("on_state");
            reveal_strlit("off_state");
            reveal_strlit("button");
            reveal_strlit("slot1");
            reveal_strlit("slot2");
            reveal_strlit("slot3");
        }
        self.current_state.set_name(field_name(doc, "current_state"));
        self.on_state.set_name(field_name(doc, "on_state"));
        self.off_state.set_name(field_name(doc, "off_state"));
        self.button.set_name(field_name(doc, "button"));
        assert(self.controls() =~= renamed(old(self).controls(), rack_defaults(), doc));
        match doc.get_field("module") {
            Some(module) => match module.get_type() {
                Some(tag) => {
                    if str_equal(tag.as_str(), "socket_core") {
                        let first = Self::read_slot(module, "slot1");
                        let second = Self::read_slot(module, "slot2");
                        self.module = RackModule::Socket(first, second);
                    } else if str_equal(tag.as_str(), "chip_core") {
                        let first = Self::read_slot(module, "slot1");
                        let second = Self::read_slot(module, "slot2");
                        let third = Self::read_slot(module, "slot3");
                        self.module = RackModule::Core(first, second, third);
                    } else if str_equal(tag.as_str(), "chip_reader") {
                        let first = Self::read_slot(module, "slot1");
                        self.module = RackModule::Reader(first);
                    }
                },
                None => {},
            },
            None => {},
        }
    }
}

} // verus!
