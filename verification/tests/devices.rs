use yolol_devices::deserializer::Deserializer;
use yolol_devices::deserializer::Document;
use yolol_devices::devices::chip::Chip;
use yolol_devices::devices::chip::CodeRunner;
use yolol_devices::devices::chip::NoneRunner;
use yolol_devices::devices::kinds::identifiers;
use yolol_devices::devices::kinds::kinds;
use yolol_devices::devices::kinds::type_ident;
use yolol_devices::devices::kinds::DeviceKind;
use yolol_devices::devices::name_of;
use yolol_devices::devices::Device;
use yolol_devices::devices::DeviceTrait;
use yolol_devices::devices::Rack;
use yolol_devices::field::clone_fields;
use yolol_devices::field::Field;
use yolol_devices::value::YololInt;
use yolol_devices::value::YololValue;

/// A runner that loads any path ending in `.yolol`, counts its ticks, and
/// shares what it was handed, followed by its count under `Ticks`.
#[derive(Debug, Default)]
struct Counter {
    globals: Vec<Field>,
    ticks: i64,
}

impl CodeRunner for Counter {
    fn parse(&mut self, path: &str) -> Option<()> {
        if path.ends_with(".yolol") {
            Some(())
        } else {
            None
        }
    }

    fn step(&mut self) {
        self.ticks += 1;
    }

    fn update_globals(&mut self, globals: Vec<Field>) {
        self.globals = globals;
    }

    fn get_global(&self) -> Vec<Field> {
        let mut out = clone_fields(&self.globals);
        out.push(Field::new("Ticks".to_string(), YololValue::from(self.ticks)));
        out
    }
}

fn number(v: i64) -> YololValue {
    YololValue::Int(YololInt::new_raw(v))
}

fn map(entries: Vec<(&str, Document)>) -> Document {
    let mut out: Vec<(String, Document)> = Vec::new();
    for (key, doc) in entries {
        out.push((key.to_string(), doc));
    }
    Document::map(out)
}

fn scripted(path: &str) -> Document {
    map(vec![("script", Document::text(path))]).tagged("yolol_chip")
}

fn rack_with(module: Document) -> Rack<Counter> {
    let doc = map(vec![("module", module)]).tagged("rack");
    match Device::<Counter>::deserialize(&doc) {
        Some(Device::Rack(rack)) => rack,
        _ => panic!("the document describes a rack"),
    }
}

fn names(fields: &Vec<Field>) -> Vec<String> {
    let mut out: Vec<String> = Vec::new();
    for field in fields {
        out.push(field.name().to_string());
    }
    out
}

#[test]
fn kinds_are_named_in_snake_case() {
    let expected = vec![
        "button",
        "cargo_beam",
        "cargo_lock_frame",
        "chip_socket",
        "fixed_mount",
        "flight_control_unit",
        "generator",
        "hinge",
        "information_screen",
        "lamp",
        "lever",
        "main_flight_computer",
        "mining_laser",
        "modular_display",
        "rack",
        "radio_receiver",
        "radio_transmitter",
        "rail_relay",
        "rail_sensor_strip",
        "rail_trigger",
        "range_finder",
        "relay",
        "tank",
        "thruster",
        "turntable",
    ];
    let all = kinds();
    assert_eq!(expected.len(), all.len());
    for (kind, name) in all.iter().zip(expected.iter()) {
        assert_eq!(*name, name_of(*kind));
        let device: Device<NoneRunner> = Device::new(*kind);
        assert_eq!(*name, device.get_device_name());
        assert_eq!(*kind, device.kind());
    }
}

#[test]
fn kinds_declare_their_fields() {
    assert_eq!("CargoBeam", type_ident(DeviceKind::CargoBeam));
    assert_eq!(
        vec!["cargo_beam_on_state", "cargo_beam_search_length"],
        identifiers(DeviceKind::CargoBeam)
    );
    assert_eq!(52, identifiers(DeviceKind::MainFlightComputer).len());
    assert_eq!(12, identifiers(DeviceKind::Generator).len());
    assert_eq!(
        vec!["current_state", "on_state", "off_state", "button"],
        identifiers(DeviceKind::Rack)
    );
    let mut total: usize = 0;
    for kind in kinds() {
        total += identifiers(kind).len();
    }
    assert_eq!(153, total);
}

#[test]
fn fields_are_named_in_pascal_case_by_default() {
    let doc = Document::empty().tagged("button");
    let button: Device<NoneRunner> = Device::deserialize(&doc).unwrap();
    assert_eq!(DeviceKind::Button, button.kind());
    assert_eq!(Some(&number(0)), button.get_field("ButtonState"));
    assert_eq!(Some(&number(0)), button.get_field("ButtonOnStateValue"));
    assert_eq!(Some(&number(0)), button.get_field("ButtonOffStateValue"));
    assert_eq!(Some(&number(0)), button.get_field("ButtonStyle"));
    assert_eq!(None, button.get_field("button_state"));
    assert_eq!(None, button.get_field("buttonstate"));
    assert_eq!(None, button.get_field(""));
}

#[test]
fn fields_with_digits_are_named_in_pascal_case() {
    let doc = Document::empty().tagged("main_flight_computer");
    let computer: Device<NoneRunner> = Device::deserialize(&doc).unwrap();
    assert!(computer.get_field("FcuMfcIo1").is_some());
    assert!(computer.get_field("FcuMfcIo2").is_some());
    assert!(computer.get_field("ThrusterPowerLevel01").is_some());
    assert!(computer.get_field("ThrusterPowerLevel50").is_some());
    assert!(computer.get_field("ThrusterPowerLevel51").is_none());
}

#[test]
fn a_document_can_rename_a_field() {
    let doc = map(vec![
        ("ThrusterState", Document::text("MainEngine")),
        ("Unrelated", Document::text("Ignored")),
    ])
    .tagged("thruster");
    let thruster: Device<NoneRunner> = Device::deserialize(&doc).unwrap();
    assert!(thruster.get_field("MainEngine").is_some());
    assert!(thruster.get_field("ThrusterState").is_none());
    assert!(thruster.get_field("ThrusterCurrentThrust").is_some());
    assert!(thruster.get_field("Ignored").is_none());
}

#[test]
fn a_name_that_is_no_string_is_not_taken() {
    let doc = map(vec![("ThrusterState", Document::list(vec![]))]).tagged("thruster");
    let thruster: Device<NoneRunner> = Device::deserialize(&doc).unwrap();
    assert!(thruster.get_field("ThrusterState").is_some());
}

#[test]
fn a_field_is_changed_by_name() {
    let mut lamp: Device<NoneRunner> = Device::new(DeviceKind::Lamp);
    lamp.deserialize(&Document::empty());
    match lamp.get_field_mut("LampLumens") {
        Some(value) => *value = number(450_000),
        None => panic!("a lamp has lumens"),
    }
    assert_eq!(Some(&number(450_000)), lamp.get_field("LampLumens"));
    assert_eq!(Some(&number(0)), lamp.get_field("LampOn"));
    assert!(lamp.get_field_mut("Missing").is_none());
}

#[test]
fn the_first_field_of_a_name_is_found() {
    let doc = map(vec![
        ("LampOn", Document::text("Same")),
        ("LampLumens", Document::text("Same")),
    ])
    .tagged("lamp");
    let mut lamp: Device<NoneRunner> = Device::deserialize(&doc).unwrap();
    *lamp.get_field_mut("Same").unwrap() = number(1000);
    assert_eq!(Some(&number(1000)), lamp.get_field("Same"));
    let doc = map(vec![("LampOn", Document::text("On"))]);
    lamp.deserialize(&doc);
    assert_eq!(Some(&number(1000)), lamp.get_field("On"));
    assert_eq!(Some(&number(0)), lamp.get_field("LampLumens"));
}

#[test]
fn an_unknown_type_tag_gives_no_device() {
    let unknown = Document::empty().tagged("warp_drive");
    assert!(Device::<NoneRunner>::deserialize(&unknown).is_none());
    let untagged = Document::empty();
    assert!(Device::<NoneRunner>::deserialize(&untagged).is_none());
    let pascal = Document::empty().tagged("Button");
    assert!(Device::<NoneRunner>::deserialize(&pascal).is_none());
    let marked = Document::empty().tagged("!button");
    assert!(Device::<NoneRunner>::deserialize(&marked).is_none());
}

#[test]
fn a_rack_has_four_control_fields() {
    let doc = map(vec![("OnState", Document::text("Power"))]).tagged("rack");
    let mut rack: Device<NoneRunner> = Device::deserialize(&doc).unwrap();
    assert_eq!("rack", rack.get_device_name());
    assert_eq!(DeviceKind::Rack, rack.kind());
    *rack.get_field_mut("CurrentState").unwrap() = number(1000);
    *rack.get_field_mut("Power").unwrap() = number(2000);
    *rack.get_field_mut("OffState").unwrap() = number(3000);
    *rack.get_field_mut("Button").unwrap() = number(4000);
    assert_eq!(Some(&number(1000)), rack.get_field("CurrentState"));
    assert_eq!(Some(&number(2000)), rack.get_field("Power"));
    assert_eq!(Some(&number(3000)), rack.get_field("OffState"));
    assert_eq!(Some(&number(4000)), rack.get_field("Button"));
    assert_eq!(None, rack.get_field("OnState"));
    assert_eq!(None, rack.get_field("ChipWait"));
}

#[test]
fn a_chip_core_has_three_slots() {
    let rack = rack_with(Document::empty().tagged("chip_core"));
    assert_eq!(3, rack.slot_count());
    assert!(rack.slot(2).is_some());
    assert!(rack.slot(3).is_none());
}

#[test]
fn a_socket_core_has_two_slots() {
    let rack = rack_with(Document::empty().tagged("socket_core"));
    assert_eq!(2, rack.slot_count());
    assert!(rack.slot(1).is_some());
    assert!(rack.slot(2).is_none());
}

#[test]
fn a_chip_reader_has_one_slot() {
    let rack = rack_with(Document::empty().tagged("chip_reader"));
    assert_eq!(1, rack.slot_count());
    assert!(rack.slot(0).is_some());
    assert!(rack.slot(1).is_none());
}

#[test]
fn a_rack_without_a_module_has_one_empty_slot() {
    let doc = Document::empty().tagged("rack");
    let rack = match Device::<Counter>::deserialize(&doc) {
        Some(Device::Rack(rack)) => rack,
        _ => panic!("the document describes a rack"),
    };
    assert_eq!(1, rack.slot_count());
    assert!(matches!(rack.slot(0), Some(Chip::Empty)));
    let unknown = rack_with(Document::empty().tagged("chip_tower"));
    assert_eq!(1, unknown.slot_count());
    let untagged = rack_with(map(vec![("slot1", scripted("a.yolol"))]));
    assert_eq!(1, untagged.slot_count());
    assert!(matches!(untagged.slot(0), Some(Chip::Empty)));
    let default_rack: Rack<Counter> = Rack::default();
    assert_eq!(1, default_rack.slot_count());
}

#[test]
fn slots_take_the_chips_of_the_document() {
    let module = map(vec![
        ("slot1", scripted("one.yolol")),
        ("slot2", Document::empty().tagged("memory_chip")),
        ("slot3", Document::empty().tagged("quantum_chip")),
    ])
    .tagged("chip_core");
    let rack = rack_with(module);
    assert!(matches!(rack.slot(0), Some(Chip::Yolol(_))));
    assert!(matches!(rack.slot(1), Some(Chip::Memory(_))));
    assert!(matches!(rack.slot(2), Some(Chip::Empty)));
    assert_eq!(Some("one.yolol"), rack.slot(0).unwrap().path());
    let module = map(vec![
        ("slot2", scripted("two.yolol")),
        ("slot3", scripted("three.yolol")),
        ("slot1", map(vec![("script", Document::text("untagged.yolol"))])),
    ])
    .tagged("socket_core");
    let rack = rack_with(module);
    assert_eq!(2, rack.slot_count());
    assert!(matches!(rack.slot(0), Some(Chip::Empty)));
    assert_eq!(Some("two.yolol"), rack.slot(1).unwrap().path());
}

#[test]
fn a_chip_is_made_from_its_type_tag() {
    let doc = map(vec![
        ("script", Document::text("main.yolol")),
        ("ChipWait", Document::text("Pause")),
    ]);
    let memory: Chip<NoneRunner> = Chip::new("memory_chip".to_string(), &doc);
    assert!(matches!(memory, Chip::Memory(_)));
    assert!(memory.wait().is_none());
    assert!(memory.path().is_none());
    let scripted: Chip<NoneRunner> = Chip::new("yolol_chip".to_string(), &doc);
    assert!(matches!(scripted, Chip::Yolol(_)));
    assert_eq!(Some("main.yolol"), scripted.path());
    assert_eq!("Pause", scripted.wait().unwrap().name());
    assert_eq!(&number(0), scripted.wait().unwrap().value());
    assert!(!scripted.is_loaded());
    let other: Chip<NoneRunner> = Chip::new("!yolol_chip".to_string(), &doc);
    assert!(matches!(other, Chip::Empty));
    let default_chip: Chip<NoneRunner> = Chip::default();
    assert!(matches!(default_chip, Chip::Empty));
}

#[test]
fn the_wait_field_has_a_default_name() {
    let scripted: Chip<NoneRunner> = Chip::new("yolol_chip".to_string(), &Document::empty());
    assert_eq!("ChipWait", scripted.wait().unwrap().name());
    assert_eq!(None, scripted.path());
}

#[test]
fn a_chip_that_cannot_be_loaded_stays_unloaded() {
    let doc = map(vec![("script", Document::text("main.yolol"))]);
    let mut never: Chip<NoneRunner> = Chip::new("yolol_chip".to_string(), &doc);
    never.load();
    assert!(!never.is_loaded());
    never.wait_mut().unwrap().set_value(number(1000));
    never.step();
    never.update_globals(vec![Field::new("X".to_string(), number(1000))]);
    assert!(never.get_global().is_empty());
    let doc = map(vec![("script", Document::text("main.txt"))]);
    let mut refused: Chip<Counter> = Chip::new("yolol_chip".to_string(), &doc);
    refused.load();
    assert!(!refused.is_loaded());
    let mut pathless: Chip<Counter> = Chip::new("yolol_chip".to_string(), &Document::empty());
    pathless.load();
    assert!(!pathless.is_loaded());
    let mut memory: Chip<Counter> = Chip::new("memory_chip".to_string(), &doc);
    memory.load();
    memory.step();
    assert!(!memory.is_loaded());
    assert!(memory.get_global().is_empty());
}

#[test]
fn a_loaded_chip_steps_only_while_its_wait_field_is_true() {
    let doc = map(vec![("script", Document::text("main.yolol"))]);
    let mut chip: Chip<Counter> = Chip::new("yolol_chip".to_string(), &doc);
    chip.load();
    assert!(chip.is_loaded());
    chip.step();
    assert_eq!(vec!["Ticks"], names(&chip.get_global()));
    assert_eq!(&number(0), chip.get_global()[0].value());
    chip.wait_mut().unwrap().set_value(number(1));
    chip.step();
    chip.step();
    assert_eq!(&number(2000), chip.get_global()[0].value());
    chip.wait_mut().unwrap().set_value(YololValue::from("yes"));
    chip.step();
    assert_eq!(&number(2000), chip.get_global()[0].value());
}

#[test]
fn a_loaded_chip_exchanges_globals() {
    let doc = map(vec![("script", Document::text("main.yolol"))]);
    let mut chip: Chip<Counter> = Chip::new("yolol_chip".to_string(), &doc);
    chip.load();
    chip.update_globals(vec![
        Field::new("A".to_string(), number(1000)),
        Field::new("B".to_string(), YololValue::from("b")),
    ]);
    let shared = chip.get_global();
    assert_eq!(vec!["A", "B", "Ticks"], names(&shared));
    assert_eq!(&number(1000), shared[0].value());
    assert_eq!(&YololValue::from("b"), shared[1].value());
}

#[test]
fn a_rack_applies_every_operation_to_every_slot() {
    let module = map(vec![
        ("slot1", scripted("one.yolol")),
        ("slot2", scripted("two.txt")),
        ("slot3", scripted("three.yolol")),
    ])
    .tagged("chip_core");
    let mut rack = rack_with(module);
    rack.parse_all_chip_file();
    assert!(rack.slot(0).unwrap().is_loaded());
    assert!(!rack.slot(1).unwrap().is_loaded());
    assert!(rack.slot(2).unwrap().is_loaded());
    rack.slot_mut(2).unwrap().wait_mut().unwrap().set_value(number(1000));
    rack.update_globals(vec![Field::new("X".to_string(), number(5000))]);
    rack.step();
    let shared = rack.get_global();
    assert_eq!(vec!["X", "Ticks", "X", "Ticks"], names(&shared));
    assert_eq!(&number(5000), shared[0].value());
    assert_eq!(&number(0), shared[1].value());
    assert_eq!(&number(5000), shared[2].value());
    assert_eq!(&number(1000), shared[3].value());
    assert!(rack.slot_mut(3).is_none());
}

#[test]
fn a_document_is_read_by_key() {
    let doc = map(vec![
        ("a", Document::text("first")),
        ("b", Document::list(vec![Document::text("x"), Document::empty()])),
        ("a", Document::text("second")),
    ])
    .tagged("thing");
    assert_eq!(Some("first"), doc.get_field("a").unwrap().as_str());
    assert_eq!(2, doc.get_field("b").unwrap().as_set().unwrap().len());
    assert!(doc.get_field("c").is_none());
    assert!(doc.get_field("A").is_none());
    assert_eq!(Some("thing".to_string()), doc.get_type());
    assert!(doc.as_map().is_some());
    assert!(doc.as_set().is_none());
    assert!(doc.as_str().is_none());
    let text = Document::text("t");
    assert!(text.get_field("a").is_none());
    assert!(text.as_map().is_none());
    assert!(text.get_type().is_none());
    assert!(Document::empty().as_str().is_none());
}

#[test]
fn fields_carry_a_name_and_a_value() {
    let mut field = Field::default();
    assert_eq!("", field.name());
    assert_eq!(&number(0), field.value());
    field.set_name("Speed".to_string());
    field.set_value(number(2500));
    assert_eq!("Speed", field.name());
    assert_eq!(number(2500), *field);
    *field = YololValue::from("fast");
    assert_eq!(&YololValue::from("fast"), field.value());
    *field.value_mut() = number(1);
    let copy = field.clone();
    assert_eq!("Speed", copy.name());
    assert_eq!(&number(1), copy.value());
}
