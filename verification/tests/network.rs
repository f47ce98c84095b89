use yolol_devices::deserializer::Document;
use yolol_devices::devices::chip::CodeRunner;
use yolol_devices::devices::chip::NoneRunner;
use yolol_devices::devices::kinds::DeviceKind;
use yolol_devices::devices::Device;
use yolol_devices::devices::DeviceTrait;
use yolol_devices::field::clone_fields;
use yolol_devices::field::merge_into;
use yolol_devices::field::Field;
use yolol_devices::value::ValueTrait;
use yolol_devices::value::YololInt;
use yolol_devices::value::YololValue;
use yolol_devices::Network;
use yolol_devices::Networks;

/// A runner that loads any path, and on each tick increments every value it
/// was handed.
#[derive(Debug, Default)]
struct Incrementer {
    globals: Vec<Field>,
}

impl CodeRunner for Incrementer {
    fn parse(&mut self, _: &str) -> Option<()> {
        Some(())
    }

    fn step(&mut self) {
        for field in self.globals.iter_mut() {
            field.value_mut().pre_inc();
        }
    }

    fn update_globals(&mut self, globals: Vec<Field>) {
        self.globals = globals;
    }

    fn get_global(&self) -> Vec<Field> {
        clone_fields(&self.globals)
    }
}

fn number(v: i64) -> YololValue {
    YololValue::Int(YololInt::new_raw(v))
}

fn field(name: &str, value: YololValue) -> Field {
    Field::new(name.to_string(), value)
}

fn map(entries: Vec<(&str, Document)>) -> Document {
    let mut out: Vec<(String, Document)> = Vec::new();
    for (key, doc) in entries {
        out.push((key.to_string(), doc));
    }
    Document::map(out)
}

fn named(name: &str) -> Document {
    map(vec![("name", Document::text(name))])
}

fn relay(src: &str, dst: &str) -> Document {
    map(vec![("src", named(src)), ("dst", named(dst))])
}

fn edge(src: &str, dst: &str) -> (String, String) {
    (src.to_string(), dst.to_string())
}

fn bus_with<R: CodeRunner>(entries: Vec<(&str, i64)>) -> Network<R> {
    let mut network = Network::new(Vec::new());
    for (name, value) in entries {
        assert!(network.add_global(field(name, number(value))));
    }
    network
}

fn value_of<R: CodeRunner>(network: &Network<R>, name: &str) -> YololValue {
    for entry in network.globals() {
        if entry.name() == name {
            return entry.value().clone();
        }
    }
    panic!("the bus has no entry of that name")
}

fn scripted_rack() -> Document {
    let chip = map(vec![("script", Document::text("main.yolol"))]).tagged("yolol_chip");
    let module = map(vec![("slot1", chip)]).tagged("chip_reader");
    map(vec![("module", module)]).tagged("rack")
}

fn run_chip<R: CodeRunner>(network: &mut Network<R>, device: usize) {
    match network.device_mut(device) {
        Some(Device::Rack(rack)) => {
            let chip = rack.slot_mut(0).unwrap();
            chip.wait_mut().unwrap().set_value(number(1000));
        }
        _ => panic!("the device is a rack"),
    }
}

#[test]
fn a_relay_copies_matching_globals() {
    let mut networks: Networks<NoneRunner> = Networks::new();
    networks.insert("A".to_string(), bus_with(vec![("X", 5000)]));
    networks.insert("B".to_string(), bus_with(vec![("X", 0)]));
    networks.set_relays(vec![edge("A", "B")]);
    networks.step();
    assert_eq!(number(5000), value_of(networks.get("B").unwrap(), "X"));
    assert_eq!(number(5000), value_of(networks.get("A").unwrap(), "X"));
}

#[test]
fn without_the_relay_the_value_stays() {
    let mut networks: Networks<NoneRunner> = Networks::new();
    networks.insert("A".to_string(), bus_with(vec![("X", 5000)]));
    networks.insert("B".to_string(), bus_with(vec![("X", 0)]));
    networks.set_relays(vec![edge("A", "B")]);
    networks.step();
    networks.set_relays(Vec::new());
    let replaced = networks.insert("A".to_string(), bus_with(vec![("X", 7000)]));
    assert_eq!(number(5000), value_of(&replaced.unwrap(), "X"));
    networks.step();
    networks.step();
    assert_eq!(number(5000), value_of(networks.get("B").unwrap(), "X"));
    assert_eq!(number(7000), value_of(networks.get("A").unwrap(), "X"));
    networks.set_relays(vec![edge("A", "B")]);
    networks.step();
    assert_eq!(number(7000), value_of(networks.get("B").unwrap(), "X"));
}

#[test]
fn relays_read_the_buses_as_they_were() {
    let mut networks: Networks<NoneRunner> = Networks::new();
    networks.insert("A".to_string(), bus_with(vec![("X", 1000)]));
    networks.insert("B".to_string(), bus_with(vec![("X", 2000)]));
    networks.insert("C".to_string(), bus_with(vec![("X", 3000)]));
    networks.set_relays(vec![edge("A", "B"), edge("B", "C")]);
    networks.step();
    assert_eq!(number(1000), value_of(networks.get("B").unwrap(), "X"));
    assert_eq!(number(2000), value_of(networks.get("C").unwrap(), "X"));
    networks.step();
    assert_eq!(number(1000), value_of(networks.get("C").unwrap(), "X"));
}

#[test]
fn relays_are_applied_in_order() {
    let mut networks: Networks<NoneRunner> = Networks::new();
    networks.insert("A".to_string(), bus_with(vec![("X", 1000)]));
    networks.insert("B".to_string(), bus_with(vec![("X", 2000)]));
    networks.insert("C".to_string(), bus_with(vec![("X", 3000)]));
    networks.set_relays(vec![edge("A", "C"), edge("B", "C")]);
    networks.step();
    assert_eq!(number(2000), value_of(networks.get("C").unwrap(), "X"));
    networks.set_relays(vec![edge("A", "B"), edge("B", "A")]);
    networks.step();
    assert_eq!(number(2000), value_of(networks.get("A").unwrap(), "X"));
    assert_eq!(number(1000), value_of(networks.get("B").unwrap(), "X"));
}

#[test]
fn a_relay_to_or_from_nowhere_does_nothing() {
    let mut networks: Networks<NoneRunner> = Networks::new();
    networks.insert("A".to_string(), bus_with(vec![("X", 1000)]));
    networks.set_relays(vec![edge("A", "Z"), edge("Z", "A"), edge("a", "A")]);
    networks.step();
    assert_eq!(number(1000), value_of(networks.get("A").unwrap(), "X"));
    assert!(networks.get("Z").is_none());
    assert!(networks.get("a").is_none());
}

#[test]
fn a_relay_copies_only_names_that_the_destination_has() {
    let mut networks: Networks<NoneRunner> = Networks::new();
    networks.insert("A".to_string(), bus_with(vec![("X", 1000), ("Y", 2000)]));
    networks.insert("B".to_string(), bus_with(vec![("y", 0), ("Z", 9000)]));
    networks.set_relays(vec![edge("A", "B")]);
    networks.step();
    let bus = networks.get("B").unwrap().globals();
    assert_eq!(2, bus.len());
    assert_eq!("y", bus[0].name());
    assert_eq!(&number(2000), bus[0].value());
    assert_eq!("Z", bus[1].name());
    assert_eq!(&number(9000), bus[1].value());
}

#[test]
fn names_on_a_bus_differ_beyond_letter_case() {
    let mut network: Network<NoneRunner> = Network::new(Vec::new());
    assert!(network.add_global(field("Speed", number(1000))));
    assert!(!network.add_global(field("speed", number(2000))));
    assert!(!network.add_global(field("SPEED", number(3000))));
    assert!(network.add_global(field("Speed2", number(4000))));
    assert!(network.add_global(field("\u{c9}t\u{e9}", number(5000))));
    assert!(!network.add_global(field("\u{e9}T\u{c9}", number(6000))));
    let bus = network.globals();
    assert_eq!(3, bus.len());
    assert_eq!(&number(1000), bus[0].value());
}

#[test]
fn set_globals_overwrites_by_name() {
    let mut network: Network<NoneRunner> = bus_with(vec![("Alpha", 1000), ("Beta", 2000)]);
    network.set_globals(vec![
        field("BETA", number(5000)),
        field("Gamma", number(6000)),
        field("alpha", YololValue::from("text")),
        field("beta", number(7000)),
    ]);
    let bus = network.globals();
    assert_eq!(2, bus.len());
    assert_eq!("Alpha", bus[0].name());
    assert_eq!(&YololValue::from("text"), bus[0].value());
    assert_eq!("Beta", bus[1].name());
    assert_eq!(&number(7000), bus[1].value());
}

#[test]
fn merging_takes_the_first_entry_of_a_name() {
    let mut bus = vec![field("X", number(1000)), field("x", number(2000))];
    let incoming = vec![field("X", number(9000)), field("Y", number(3000))];
    merge_into(&mut bus, &incoming);
    assert_eq!(2, bus.len());
    assert_eq!(&number(9000), bus[0].value());
    assert_eq!(&number(2000), bus[1].value());
    merge_into(&mut bus, &Vec::new());
    assert_eq!(&number(9000), bus[0].value());
}

#[test]
fn a_tick_pushes_steps_and_pulls() {
    let doc = map(vec![("devices", Document::list(vec![scripted_rack()]))]);
    let mut network: Network<Incrementer> = Network::deserialize(&doc);
    assert!(network.add_global(field("Count", number(0))));
    assert!(network.add_global(field("Label", YololValue::from("a"))));
    network.parse_all_chip_file();
    run_chip(&mut network, 0);
    let mut networks: Networks<Incrementer> = Networks::new();
    networks.insert("ship".to_string(), network);
    networks.step();
    let ship = networks.get("ship").unwrap();
    assert_eq!(number(1000), value_of(ship, "Count"));
    assert_eq!(YololValue::from("a "), value_of(ship, "Label"));
    networks.step();
    networks.step();
    let ship = networks.get("ship").unwrap();
    assert_eq!(number(3000), value_of(ship, "Count"));
    assert_eq!(YololValue::from("a   "), value_of(ship, "Label"));
}

#[test]
fn a_waiting_chip_leaves_the_bus_alone() {
    let doc = map(vec![("devices", Document::list(vec![scripted_rack()]))]);
    let mut network: Network<Incrementer> = Network::deserialize(&doc);
    assert!(network.add_global(field("Count", number(0))));
    network.parse_all_chip_file();
    let mut networks: Networks<Incrementer> = Networks::new();
    networks.insert("ship".to_string(), network);
    networks.step();
    networks.step();
    assert_eq!(number(0), value_of(networks.get("ship").unwrap(), "Count"));
}

#[test]
fn an_unloaded_chip_leaves_the_bus_alone() {
    let doc = map(vec![("devices", Document::list(vec![scripted_rack()]))]);
    let mut network: Network<Incrementer> = Network::deserialize(&doc);
    assert!(network.add_global(field("Count", number(0))));
    run_chip(&mut network, 0);
    network.update_globals();
    network.step();
    network.update();
    assert_eq!(number(0), value_of(&network, "Count"));
}

#[test]
fn the_phases_of_a_network_can_be_run_one_by_one() {
    let doc = map(vec![("devices", Document::list(vec![scripted_rack(), scripted_rack()]))]);
    let mut network: Network<Incrementer> = Network::deserialize(&doc);
    assert!(network.add_global(field("Count", number(0))));
    network.parse_all_chip_file();
    run_chip(&mut network, 0);
    run_chip(&mut network, 1);
    network.update_globals();
    network.step();
    assert_eq!(number(0), value_of(&network, "Count"));
    network.update();
    assert_eq!(number(1000), value_of(&network, "Count"));
    network.step();
    network.update();
    assert_eq!(number(2000), value_of(&network, "Count"));
}

#[test]
fn the_last_rack_to_share_a_name_wins() {
    let doc = map(vec![("devices", Document::list(vec![scripted_rack(), scripted_rack()]))]);
    let mut network: Network<Incrementer> = Network::deserialize(&doc);
    assert!(network.add_global(field("Count", number(0))));
    network.parse_all_chip_file();
    run_chip(&mut network, 0);
    network.update_globals();
    network.step();
    network.update();
    assert_eq!(number(0), value_of(&network, "Count"));
    let doc = map(vec![("devices", Document::list(vec![scripted_rack(), scripted_rack()]))]);
    let mut network: Network<Incrementer> = Network::deserialize(&doc);
    assert!(network.add_global(field("Count", number(0))));
    network.parse_all_chip_file();
    run_chip(&mut network, 1);
    network.update_globals();
    network.step();
    network.update();
    assert_eq!(number(1000), value_of(&network, "Count"));
}

#[test]
fn a_tick_flows_from_chip_to_relay() {
    let doc = map(vec![("devices", Document::list(vec![scripted_rack()]))]);
    let mut source: Network<Incrementer> = Network::deserialize(&doc);
    assert!(source.add_global(field("Count", number(0))));
    source.parse_all_chip_file();
    run_chip(&mut source, 0);
    let mut networks: Networks<Incrementer> = Networks::new();
    networks.insert("source".to_string(), source);
    networks.insert("sink".to_string(), bus_with(vec![("count", -1000)]));
    networks.set_relays(vec![edge("source", "sink")]);
    networks.step();
    assert_eq!(number(1000), value_of(networks.get("sink").unwrap(), "count"));
    networks.step();
    assert_eq!(number(2000), value_of(networks.get("sink").unwrap(), "count"));
}

#[test]
fn an_entry_with_an_unknown_type_tag_is_left_out() {
    let devices = Document::list(vec![
        Document::empty().tagged("button"),
        Document::empty().tagged("warp_drive"),
        Document::empty(),
        Document::empty().tagged("thruster"),
        Document::text("lamp"),
        Document::empty().tagged("rack"),
    ]);
    let doc = map(vec![("name", Document::text("ship")), ("devices", devices)]);
    let network: Network<NoneRunner> = Network::deserialize(&doc);
    assert_eq!(3, network.device_count());
    assert_eq!(DeviceKind::Button, network.device(0).unwrap().kind());
    assert_eq!(DeviceKind::Thruster, network.device(1).unwrap().kind());
    assert_eq!(DeviceKind::Rack, network.device(2).unwrap().kind());
    assert!(network.device(3).is_none());
    assert!(network.device(1).unwrap().get_field("ThrusterState").is_some());
    assert!(network.globals().is_empty());
}

#[test]
fn a_network_without_devices_is_empty() {
    let network: Network<NoneRunner> = Network::deserialize(&named("ship"));
    assert_eq!(0, network.device_count());
    let doc = map(vec![("devices", Document::text("none"))]);
    let network: Network<NoneRunner> = Network::deserialize(&doc);
    assert_eq!(0, network.device_count());
}

#[test]
fn networks_stand_in_the_order_of_their_names() {
    let mut networks: Networks<NoneRunner> = Networks::new();
    assert!(networks.insert("delta".to_string(), bus_with(vec![])).is_none());
    assert!(networks.insert("alpha".to_string(), bus_with(vec![])).is_none());
    assert!(networks.insert("charlie".to_string(), bus_with(vec![])).is_none());
    assert!(networks.insert("Bravo".to_string(), bus_with(vec![])).is_none());
    assert!(networks.insert("alpha".to_string(), bus_with(vec![("X", 1000)])).is_some());
    assert!(networks.insert("alphabet".to_string(), bus_with(vec![])).is_none());
    assert!(networks.insert("".to_string(), bus_with(vec![])).is_none());
    assert_eq!(
        vec!["", "Bravo", "alpha", "alphabet", "charlie", "delta"],
        networks.network_names()
    );
    assert_eq!(number(1000), value_of(networks.get("alpha").unwrap(), "X"));
    assert!(networks.get("Alpha").is_none());
}

#[test]
fn a_document_describes_networks_and_relays() {
    let doc = map(vec![
        ("version", Document::text("1")),
        (
            "networks",
            Document::list(vec![
                map(vec![
                    ("name", Document::text("engine")),
                    (
                        "devices",
                        Document::list(vec![
                            Document::empty().tagged("thruster"),
                            Document::empty().tagged("unknown"),
                        ]),
                    ),
                ]),
                map(vec![("devices", Document::list(vec![Document::empty().tagged("lamp")]))]),
                map(vec![
                    ("name", Document::text("bridge")),
                    (
                        "devices",
                        Document::list(vec![scripted_rack(), Document::empty().tagged("lever")]),
                    ),
                ]),
                map(vec![("name", Document::text("engine"))]),
            ]),
        ),
        (
            "relays",
            Document::list(vec![
                relay("bridge", "engine"),
                map(vec![("src", named("bridge"))]),
                Document::text("bridge"),
                map(vec![("src", named("engine")), ("dst", Document::text("bridge"))]),
                relay("engine", "nowhere"),
            ]),
        ),
    ]);
    let networks: Networks<NoneRunner> = Networks::deserialize(&doc).unwrap();
    assert_eq!(vec!["bridge", "engine"], networks.network_names());
    assert_eq!(2, networks.get("bridge").unwrap().device_count());
    assert_eq!(0, networks.get("engine").unwrap().device_count());
    assert_eq!(
        vec![edge("bridge", "engine"), edge("engine", "nowhere")],
        networks.relay_names()
    );
}

#[test]
fn a_document_without_its_required_sections_is_not_loaded() {
    let networks = Document::list(vec![named("a")]);
    let doc = map(vec![("networks", networks)]);
    assert!(Networks::<NoneRunner>::deserialize(&doc).is_none());
    let doc = map(vec![("version", Document::text("1"))]);
    assert!(Networks::<NoneRunner>::deserialize(&doc).is_none());
    let doc = map(vec![("version", Document::text("1")), ("networks", named("a"))]);
    assert!(Networks::<NoneRunner>::deserialize(&doc).is_none());
    assert!(Networks::<NoneRunner>::deserialize(&Document::empty()).is_none());
    let doc = map(vec![
        ("version", Document::empty()),
        ("networks", Document::list(vec![])),
    ]);
    let loaded: Networks<NoneRunner> = Networks::deserialize(&doc).unwrap();
    assert!(loaded.network_names().is_empty());
    assert!(loaded.relay_names().is_empty());
}

#[test]
fn loading_chips_reaches_every_network() {
    let doc = map(vec![
        ("version", Document::text("1")),
        (
            "networks",
            Document::list(vec![
                map(vec![
                    ("name", Document::text("a")),
                    ("devices", Document::list(vec![scripted_rack()])),
                ]),
                map(vec![
                    ("name", Document::text("b")),
                    ("devices", Document::list(vec![Document::empty().tagged("lamp"), scripted_rack()])),
                ]),
            ]),
        ),
    ]);
    let mut networks: Networks<Incrementer> = Networks::deserialize(&doc).unwrap();
    networks.parse_all_chip_file();
    for (name, index) in vec![("a", 0usize), ("b", 1usize)] {
        match networks.get(name).unwrap().device(index) {
            Some(Device::Rack(rack)) => assert!(rack.slot(0).unwrap().is_loaded()),
            _ => panic!("the device is a rack"),
        }
    }
    let mut unloaded: Networks<NoneRunner> = Networks::deserialize(&doc).unwrap();
    unloaded.parse_all_chip_file();
    match unloaded.get("a").unwrap().device(0) {
        Some(Device::Rack(rack)) => assert!(!rack.slot(0).unwrap().is_loaded()),
        _ => panic!("the device is a rack"),
    }
}
