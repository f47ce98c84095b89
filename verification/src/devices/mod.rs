//! The devices of a ship.

pub mod chip;
pub mod kinds;
pub mod names;
pub mod panel;
pub mod rack;

pub use self::rack::Rack;

use vstd::prelude::*;
use crate::deserializer::Deserializer;
use crate::devices::chip::Chip;
use crate::devices::chip::CodeRunner;
use crate::devices::kinds::all_kinds;
use crate::devices::kinds::DeviceKind;
use crate::devices::kinds::field_identifiers;
use crate::devices::kinds::identifiers;
use crate::devices::kinds::kinds;
use crate::devices::kinds::type_ident;
use crate::devices::kinds::type_identifier;
use crate::devices::names::configured_name;
use crate::devices::names::snake_name;
use crate::devices::names::to_snake;
use crate::devices::panel::default_names;
use crate::devices::panel::FieldSet;
use crate::devices::panel::unnamed;
use crate::field::FieldModel;
use crate::field::position;
use crate::field::with_value;
use crate::text::str_equal;
use crate::value::YololValue;

verus! {

/// `fields` with each name replaced by the one that `doc` gives to the field
/// with that default name; the values stay.
pub open spec fn renamed<D: Deserializer>(
    fields: Seq<FieldModel>,
    default_names: Seq<Seq<char>>,
    doc: &D,
) -> Seq<FieldModel> {
    Seq::new(
        fields.len(),
        |i: int| FieldModel { name: configured_name(doc, default_names[i]), value: fields[i].value },
    )
}

/// What every device offers: its fields by name, the name of its kind, and
/// its set-up from a document.
pub trait DeviceTrait {
    /// The device's fields, in the order in which a lookup tries them.
    spec fn fields(&self) -> Seq<FieldModel>;

    /// The name that each field has unless a document gives it another.
    spec fn default_names(&self) -> Seq<Seq<char>>;

    /// The name of the device's kind, which is its type tag in a document.
    spec fn kind_name(&self) -> Seq<char>;

    /// The value of the first field named `field`.
    fn get_field(&self, field: &str) -> (r: Option<&YololValue>)
        ensures
            match r {
                Some(v) => position(self.fields(), field@) matches Some(i) && v@
                    == self.fields()[i].value,
                None => position(self.fields(), field@) is None,
            },
    ;

    /// The value of the first field named `field`, to be changed in place.
    fn get_field_mut(&mut self, field: &str) -> (r: Option<&mut YololValue>)
        ensures
            match r {
                Some(v) => position(old(self).fields(), field@) matches Some(i) && v@ == old(
                    self,
                ).fields()[i].value && final(self).fields() == with_value(
                    old(self).fields(),
                    i,
                    final(v)@,
                ),
                None => position(old(self).fields(), field@) is None && final(self).fields()
                    == old(self).fields(),
            },
    ;

    /// The name of the device's kind.
    fn get_device_name(&self) -> (r: String)
        ensures
            r@ == self.kind_name(),
    ;

    /// Sets the device up from its document: every field gets the name that
    /// the document gives it, or else its default name, and keeps its value.
    /// A kind of device that takes more from the document says so in its own
    /// contract.
    fn deserialize<D: Deserializer>(&mut self, doc: &D)
        ensures
            final(self).fields() == renamed(old(self).fields(), old(self).default_names(), doc),
            final(self).default_names() == old(self).default_names(),
            final(self).kind_name() == old(self).kind_name(),
    ;
}

/// A device: one of the kinds that a ship can hold. A rack holds chips; every
/// other kind is its declared fields.
#[derive(Debug)]
pub enum Device<R: CodeRunner> {
    Button(FieldSet),
    CargoBeam(FieldSet),
    CargoLockFrame(FieldSet),
    ChipSocket(FieldSet),
    FixedMount(FieldSet),
    FlightControlUnit(FieldSet),
    Generator(FieldSet),
    Hinge(FieldSet),
    InformationScreen(FieldSet),
    Lamp(FieldSet),
    Lever(FieldSet),
    MainFlightComputer(FieldSet),
    MiningLaser(FieldSet),
    ModularDisplay(FieldSet),
    Rack(Rack<R>),
    RadioReceiver(FieldSet),
    RadioTransmitter(FieldSet),
    RailRelay(FieldSet),
    RailSensorStrip(FieldSet),
    RailTrigger(FieldSet),
    RangeFinder(FieldSet),
    Relay(FieldSet),
    Tank(FieldSet),
    Thruster(FieldSet),
    Turntable(FieldSet),
}

/// The name of a kind, which is its type tag in a document: `rack` for the
/// rack, and for every other kind the identifier of its type in snake case.
pub open spec fn kind_name(kind: DeviceKind) -> Seq<char> {
    if kind == DeviceKind::Rack {
        "rack"@
    } else {
        snake_name(type_identifier(kind))
    }
}

/// The first of `kinds` whose name is `tag`.
pub open spec fn first_named(kinds: Seq<DeviceKind>, tag: Seq<char>) -> Option<DeviceKind>
    decreases kinds.len(),
{
    if kinds.len() == 0 {
        None
    } else if kind_name(kinds[0]) == tag {
        Some(kinds[0])
    } else {
        first_named(kinds.drop_first(), tag)
    }
}

/// The kind that the type tag `tag` names.
pub open spec fn kind_tagged(tag: Seq<char>) -> Option<DeviceKind> {
    first_named(all_kinds(), tag)
}

/// The name of a kind.
pub fn name_of(kind: DeviceKind) -> (r: String)
    ensures
        r@ == kind_name(kind),
{
    match kind {
        DeviceKind::Rack => "rack".to_string(),
        _ => to_snake(type_ident(kind)),
    }
}

impl<R: CodeRunner> Device<R> {
    /// The device's kind.
    pub open spec fn spec_kind(&self) -> DeviceKind {
        match self {
            Device::Button(_) => DeviceKind::Button,
            Device::CargoBeam(_) => DeviceKind::CargoBeam,
            Device::CargoLockFrame(_) => DeviceKind::CargoLockFrame,
            Device::ChipSocket(_) => DeviceKind::ChipSocket,
            Device::FixedMount(_) => DeviceKind::FixedMount,
            Device::FlightControlUnit(_) => DeviceKind::FlightControlUnit,
            Device::Generator(_) => DeviceKind::Generator,
            Device::Hinge(_) => DeviceKind::Hinge,
            Device::InformationScreen(_) => DeviceKind::InformationScreen,
            Device::Lamp(_) => DeviceKind::Lamp,
            Device::Lever(_) => DeviceKind::Lever,
            Device::MainFlightComputer(_) => DeviceKind::MainFlightComputer,
            Device::MiningLaser(_) => DeviceKind::MiningLaser,
            Device::ModularDisplay(_) => DeviceKind::ModularDisplay,
            Device::Rack(_) => DeviceKind::Rack,
            Device::RadioReceiver(_) => DeviceKind::RadioReceiver,
            Device::RadioTransmitter(_) => DeviceKind::RadioTransmitter,
            Device::RailRelay(_) => DeviceKind::RailRelay,
            Device::RailSensorStrip(_) => DeviceKind::RailSensorStrip,
            Device::RailTrigger(_) => DeviceKind::RailTrigger,
            Device::RangeFinder(_) => DeviceKind::RangeFinder,
            Device::Relay(_) => DeviceKind::Relay,
            Device::Tank(_) => DeviceKind::Tank,
            Device::Thruster(_) => DeviceKind::Thruster,
            Device::Turntable(_) => DeviceKind::Turntable,
        }
    }

    /// The device's kind.
    #[verifier::when_used_as_spec(spec_kind)]
    pub fn kind(&self) -> (r: DeviceKind)
        ensures
            r == self.spec_kind(),
    {
        match self {
            Device::Button(_) => DeviceKind::Button,
            Device::CargoBeam(_) => DeviceKind::CargoBeam,
            Device::CargoLockFrame(_) => DeviceKind::CargoLockFrame,
            Device::ChipSocket(_) => DeviceKind::ChipSocket,
            Device::FixedMount(_) => DeviceKind::FixedMount,
            Device::FlightControlUnit(_) => DeviceKind::FlightControlUnit,
            Device::Generator(_) => DeviceKind::Generator,
            Device::Hinge(_) => DeviceKind::Hinge,
            Device::InformationScreen(_) => DeviceKind::InformationScreen,
            Device::Lamp(_) => DeviceKind::Lamp,
            Device::Lever(_) => DeviceKind::Lever,
            Device::MainFlightComputer(_) => DeviceKind::MainFlightComputer,
            Device::MiningLaser(_) => DeviceKind::MiningLaser,
            Device::ModularDisplay(_) => DeviceKind::ModularDisplay,
            Device::Rack(_) => DeviceKind::Rack,
            Device::RadioReceiver(_) => DeviceKind::RadioReceiver,
            Device::RadioTransmitter(_) => DeviceKind::RadioTransmitter,
            Device::RailRelay(_) => DeviceKind::RailRelay,
            Device::RailSensorStrip(_) => DeviceKind::RailSensorStrip,
            Device::RailTrigger(_) => DeviceKind::RailTrigger,
            Device::RangeFinder(_) => DeviceKind::RangeFinder,
            Device::Relay(_) => DeviceKind::Relay,
            Device::Tank(_) => DeviceKind::Tank,
            Device::Thruster(_) => DeviceKind::Thruster,
            Device::Turntable(_) => DeviceKind::Turntable,
        }
    }

    /// The declared fields of a device that is not a rack.
    pub open spec fn panel(&self) -> Option<FieldSet> {
        match self {
            Device::Rack(_) => None,
            Device::Button(f)
            | Device::CargoBeam(f)
            | Device::CargoLockFrame(f)
            | Device::ChipSocket(f)
            | Device::FixedMount(f)
            | Device::FlightControlUnit(f)
            | Device::Generator(f)
            | Device::Hinge(f)
            | Device::InformationScreen(f)
            | Device::Lamp(f)
            | Device::Lever(f)
            | Device::MainFlightComputer(f)
            | Device::MiningLaser(f)
            | Device::ModularDisplay(f)
            | Device::RadioReceiver(f)
            | Device::RadioTransmitter(f)
            | Device::RailRelay(f)
            | Device::RailSensorStrip(f)
            | Device::RailTrigger(f)
            | Device::RangeFinder(f)
            | Device::Relay(f)
            | Device::Tank(f)
            | Device::Thruster(f)
            | Device::Turntable(f) => Some(*f),
        }
    }

    /// The rack, where the device is one.
    pub open spec fn rack(&self) -> Option<Rack<R>> {
        match self {
            Device::Rack(r) => Some(*r),
            _ => None,
        }
    }

    /// Whether `after` is this device with its rack taken to a state that `to`
    /// accepts; a device that is no rack stays as it is.
    pub open spec fn rack_moves(&self, after: &Self, to: spec_fn(Rack<R>, Rack<R>) -> bool) -> bool {
        match self {
            Device::Rack(r) => after matches Device::Rack(q) && to(*r, *q),
            _ => *after == *self,
        }
    }

    /// Whether the device can share the named values `out`: what a rack can
    /// share, and none for any other device.
    pub open spec fn shares(&self, out: Seq<FieldModel>) -> bool {
        match self {
            Device::Rack(r) => r.shares(out),
            _ => out == Seq::<FieldModel>::empty(),
        }
    }

    /// Whether the device is one of kind `kind` set up from `doc`, starting
    /// from unnamed fields and, for a rack, a reader with an empty slot.
    pub open spec fn set_up<D: Deserializer>(&self, kind: DeviceKind, doc: &D) -> bool {
        &&& self.kind() == kind
        &&& match self {
            Device::Rack(r) => Rack::configured(unnamed(4), seq![Chip::<R>::Empty], doc, r),
            _ => {
                let declared = default_names(field_identifiers(kind));
                &&& self.panel() matches Some(f)
                &&& f.defaults() == declared
                &&& f.fields() == renamed(unnamed(declared.len()), declared, doc)
            },
        }
    }

    /// Whether the device is a new one of kind `kind`: its fields unnamed and
    /// zero, and a rack with a reader and an empty slot.
    pub open spec fn is_fresh(&self, kind: DeviceKind) -> bool {
        &&& self.kind() == kind
        &&& match self {
            Device::Rack(r) => r.controls() == unnamed(4) && r.chips() == seq![Chip::<R>::Empty],
            _ => {
                let declared = default_names(field_identifiers(kind));
                &&& self.panel() matches Some(f)
                &&& f.defaults() == declared
                &&& f.fields() == unnamed(declared.len())
            },
        }
    }

    /// Whether `after` is this device set up from `doc`.
    pub open spec fn configures<D: Deserializer>(&self, doc: &D, after: &Self) -> bool {
        &&& after.kind() == self.kind()
        &&& match self {
            Device::Rack(r) => after matches Device::Rack(q) && r.configures(doc, q),
            _ => self.panel() matches Some(f) && after.panel() matches Some(g) && f.configures(
                doc,
                &g,
            ),
        }
    }

    /// The fields that a device of the given kind declares, unnamed and zero.
    fn declared(kind: DeviceKind) -> (r: FieldSet)
        ensures
            r.defaults() == default_names(field_identifiers(kind)),
            r.fields() == unnamed(field_identifiers(kind).len()),
    {
        let names = identifiers(kind);
        FieldSet::declare(&names)
    }

    /// A new device of the given kind.
    pub fn new(kind: DeviceKind) -> (r: Self)
        ensures
            r.is_fresh(kind),
    {
        match kind {
            DeviceKind::Button => Device::Button(Self::declared(kind)),
            DeviceKind::CargoBeam => Device::CargoBeam(Self::declared(kind)),
            DeviceKind::CargoLockFrame => Device::CargoLockFrame(Self::declared(kind)),
            DeviceKind::ChipSocket => Device::ChipSocket(Self::declared(kind)),
            DeviceKind::FixedMount => Device::FixedMount(Self::declared(kind)),
            DeviceKind::FlightControlUnit => Device::FlightControlUnit(Self::declared(kind)),
            DeviceKind::Generator => Device::Generator(Self::declared(kind)),
            DeviceKind::Hinge => Device::Hinge(Self::declared(kind)),
            DeviceKind::InformationScreen => Device::InformationScreen(Self::declared(kind)),
            DeviceKind::Lamp => Device::Lamp(Self::declared(kind)),
            DeviceKind::Lever => Device::Lever(Self::declared(kind)),
            DeviceKind::MainFlightComputer => Device::MainFlightComputer(Self::declared(kind)),
            DeviceKind::MiningLaser => Device::MiningLaser(Self::declared(kind)),
            DeviceKind::ModularDisplay => Device::ModularDisplay(Self::declared(kind)),
            DeviceKind::Rack => Device::Rack(Rack::default()),
            DeviceKind::RadioReceiver => Device::RadioReceiver(Self::declared(kind)),
            DeviceKind::RadioTransmitter => Device::RadioTransmitter(Self::declared(kind)),
            DeviceKind::RailRelay => Device::RailRelay(Self::declared(kind)),
            DeviceKind::RailSensorStrip => Device::RailSensorStrip(Self::declared(kind)),
            DeviceKind::RailTrigger => Device::RailTrigger(Self::declared(kind)),
            DeviceKind::RangeFinder => Device::RangeFinder(Self::declared(kind)),
            DeviceKind::Relay => Device::Relay(Self::declared(kind)),
            DeviceKind::Tank => Device::Tank(Self::declared(kind)),
            DeviceKind::Thruster => Device::Thruster(Self::declared(kind)),
            DeviceKind::Turntable => Device::Turntable(Self::declared(kind)),
        }
    }

    /// The device that a document describes: one of the kind that the
    /// document's type tag names, set up from the document. There is none
    /// where the document has no type tag or the tag names no kind.
    pub fn deserialize<D: Deserializer>(doc: &D) -> (r: Option<Self>)
        ensures
            match r {
                Some(d) => doc.type_tag() matches Some(tag) && kind_tagged(tag) matches Some(kind)
                    && d.set_up(kind, doc),
                None => doc.type_tag() matches Some(tag) ==> kind_tagged(tag) is None,
            },
    {
        let tag = match doc.get_type() {
            Some(tag) => tag,
            None => {
                return None;
            },
        };
        let all = kinds();
        let mut i: usize = 0;
        assert(all@.subrange(0, all.len() as int) =~= all@);
        while i < all.len()
            invariant
                i <= all.len(),
                all@ == all_kinds(),
                doc.type_tag() == Some(tag@),
                kind_tagged(tag@) == first_named(all@.subrange(i as int, all.len() as int), tag@),
            decreases all.len() - i,
        {
            let ghost rest = all@.subrange(i as int, all.len() as int);
            assert(rest.drop_first() =~= all@.subrange(i + 1, all.len() as int));
            let kind = all[i];
            let name = name_of(kind);
            if str_equal(name.as_str(), tag.as_str()) {
                let mut device = Device::new(kind);
                let ghost fresh = device;
                device.deserialize(doc);
                proof {
                    fresh.lemma_set_up(kind, doc, &device);
                }
                return Some(device);
            }
            i += 1;
        }
        None
    }

    /// A new device that was set up from a document is a device set up from
    /// that document.
    pub proof fn lemma_set_up<D: Deserializer>(&self, kind: DeviceKind, doc: &D, after: &Self)
        requires
            self.is_fresh(kind),
            self.configures(doc, after),
        ensures
            after.set_up(kind, doc),
    {
    }
}

impl<R: CodeRunner> DeviceTrait for Device<R> {
    open spec fn fields(&self) -> Seq<FieldModel> {
        match self {
            Device::Rack(r) => r.fields(),
            Device::Button(f)
            | Device::CargoBeam(f)
            | Device::CargoLockFrame(f)
            | Device::ChipSocket(f)
            | Device::FixedMount(f)
            | Device::FlightControlUnit(f)
            | Device::Generator(f)
            | Device::Hinge(f)
            | Device::InformationScreen(f)
            | Device::Lamp(f)
            | Device::Lever(f)
            | Device::MainFlightComputer(f)
            | Device::MiningLaser(f)
            | Device::ModularDisplay(f)
            | Device::RadioReceiver(f)
            | Device::RadioTransmitter(f)
            | Device::RailRelay(f)
            | Device::RailSensorStrip(f)
            | Device::RailTrigger(f)
            | Device::RangeFinder(f)
            | Device::Relay(f)
            | Device::Tank(f)
            | Device::Thruster(f)
            | Device::Turntable(f) => f.fields(),
        }
    }

    open spec fn default_names(&self) -> Seq<Seq<char>> {
        match self {
            Device::Rack(r) => r.default_names(),
            Device::Button(f)
            | Device::CargoBeam(f)
            | Device::CargoLockFrame(f)
            | Device::ChipSocket(f)
            | Device::FixedMount(f)
            | Device::FlightControlUnit(f)
            | Device::Generator(f)
            | Device::Hinge(f)
            | Device::InformationScreen(f)
            | Device::Lamp(f)
            | Device::Lever(f)
            | Device::MainFlightComputer(f)
            | Device::MiningLaser(f)
            | Device::ModularDisplay(f)
            | Device::RadioReceiver(f)
            | Device::RadioTransmitter(f)
            | Device::RailRelay(f)
            | Device::RailSensorStrip(f)
            | Device::RailTrigger(f)
            | Device::RangeFinder(f)
            | Device::Relay(f)
            | Device::Tank(f)
            | Device::Thruster(f)
            | Device::Turntable(f) => f.defaults(),
        }
    }

    open spec fn kind_name(&self) -> Seq<char> {
        kind_name(self.kind())
    }

    fn get_field(&self, field: &str) -> (r: Option<&YololValue>) {
        match self {
            Device::Rack(r) => r.get_field(field),
            Device::Button(f)
            | Device::CargoBeam(f)
            | Device::CargoLockFrame(f)
            | Device::ChipSocket(f)
            | Device::FixedMount(f)
            | Device::FlightControlUnit(f)
            | Device::Generator(f)
            | Device::Hinge(f)
            | Device::InformationScreen(f)
            | Device::Lamp(f)
            | Device::Lever(f)
            | Device::MainFlightComputer(f)
            | Device::MiningLaser(f)
            | Device::ModularDisplay(f)
            | Device::RadioReceiver(f)
            | Device::RadioTransmitter(f)
            | Device::RailRelay(f)
            | Device::RailSensorStrip(f)
            | Device::RailTrigger(f)
            | Device::RangeFinder(f)
            | Device::Relay(f)
            | Device::Tank(f)
            | Device::Thruster(f)
            | Device::Turntable(f) => f.get_field(field),
        }
    }

    fn get_field_mut(&mut self, field: &str) -> (r: Option<&mut YololValue>)
        ensures
            final(self).kind() == old(self).kind(),
            final(self).default_names() == old(self).default_names(),
            match (old(self).rack(), final(self).rack()) {
                (Some(before), Some(after)) => after.chips() == before.chips(),
                (Some(_), None) => false,
                (None, _) => true,
            },
    {
        match self {
            Device::Rack(r) => r.get_field_mut(field),
            Device::Button(f) => f.get_field_mut(field),
            Device::CargoBeam(f) => f.get_field_mut(field),
            Device::CargoLockFrame(f) => f.get_field_mut(field),
            Device::ChipSocket(f) => f.get_field_mut(field),
            Device::FixedMount(f) => f.get_field_mut(field),
            Device::FlightControlUnit(f) => f.get_field_mut(field),
            Device::Generator(f) => f.get_field_mut(field),
            Device::Hinge(f) => f.get_field_mut(field),
            Device::InformationScreen(f) => f.get_field_mut(field),
            Device::Lamp(f) => f.get_field_mut(field),
            Device::Lever(f) => f.get_field_mut(field),
            Device::MainFlightComputer(f) => f.get_field_mut(field),
            Device::MiningLaser(f) => f.get_field_mut(field),
            Device::ModularDisplay(f) => f.get_field_mut(field),
            Device::RadioReceiver(f) => f.get_field_mut(field),
            Device::RadioTransmitter(f) => f.get_field_mut(field),
            Device::RailRelay(f) => f.get_field_mut(field),
            Device::RailSensorStrip(f) => f.get_field_mut(field),
            Device::RailTrigger(f) => f.get_field_mut(field),
            Device::RangeFinder(f) => f.get_field_mut(field),
            Device::Relay(f) => f.get_field_mut(field),
            Device::Tank(f) => f.get_field_mut(field),
            Device::Thruster(f) => f.get_field_mut(field),
            Device::Turntable(f) => f.get_field_mut(field),
        }
    }

    fn get_device_name(&self) -> (r: String) {
        match self {
            Device::Rack(r) => r.get_device_name(),
            _ => name_of(self.kind()),
        }
    }

    fn deserialize<D: Deserializer>(&mut self, doc: &D)
        ensures
            old(self).configures(doc, final(self)),
    {
        match self {
            Device::Rack(r) => r.deserialize(doc),
            Device::Button(f) => f.configure(doc),
            Device::CargoBeam(f) => f.configure(doc),
            Device::CargoLockFrame(f) => f.configure(doc),
            Device::ChipSocket(f) => f.configure(doc),
            Device::FixedMount(f) => f.configure(doc),
            Device::FlightControlUnit(f) => f.configure(doc),
            Device::Generator(f) => f.configure(doc),
            Device::Hinge(f) => f.configure(doc),
            Device::InformationScreen(f) => f.configure(doc),
            Device::Lamp(f) => f.configure(doc),
            Device::Lever(f) => f.configure(doc),
            Device::MainFlightComputer(f) => f.configure(doc),
            Device::MiningLaser(f) => f.configure(doc),
            Device::ModularDisplay(f) => f.configure(doc),
            Device::RadioReceiver(f) => f.configure(doc),
            Device::RadioTransmitter(f) => f.configure(doc),
            Device::RailRelay(f) => f.configure(doc),
            Device::RailSensorStrip(f) => f.configure(doc),
            Device::RailTrigger(f) => f.configure(doc),
            Device::RangeFinder(f) => f.configure(doc),
            Device::Relay(f) => f.configure(doc),
            Device::Tank(f) => f.configure(doc),
            Device::Thruster(f) => f.configure(doc),
            Device::Turntable(f) => f.configure(doc),
        }
    }
}

} // verus!
