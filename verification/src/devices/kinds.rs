//! The kinds of device, and what each kind declares: the identifier of its
//! type and the identifiers of its fields.

use vstd::prelude::*;

verus! {

/// The kinds of device that a ship can hold.
#[derive(Clone, Copy, Debug, PartialEq, Eq, Structural)]
pub enum DeviceKind {
    Button,
    CargoBeam,
    CargoLockFrame,
    ChipSocket,
    FixedMount,
    FlightControlUnit,
    Generator,
    Hinge,
    InformationScreen,
    Lamp,
    Lever,
    MainFlightComputer,
    MiningLaser,
    ModularDisplay,
    Rack,
    RadioReceiver,
    RadioTransmitter,
    RailRelay,
    RailSensorStrip,
    RailTrigger,
    RangeFinder,
    Relay,
    Tank,
    Thruster,
    Turntable,
}

/// Every kind, in the order in which a type tag is looked up.
pub open spec fn all_kinds() -> Seq<DeviceKind> {
    seq![
        DeviceKind::Button,
        DeviceKind::CargoBeam,
        DeviceKind::CargoLockFrame,
        DeviceKind::ChipSocket,
        DeviceKind::FixedMount,
        DeviceKind::FlightControlUnit,
        DeviceKind::Generator,
        DeviceKind::Hinge,
        DeviceKind::InformationScreen,
        DeviceKind::Lamp,
        DeviceKind::Lever,
        DeviceKind::MainFlightComputer,
        DeviceKind::MiningLaser,
        DeviceKind::ModularDisplay,
        DeviceKind::Rack,
        DeviceKind::RadioReceiver,
        DeviceKind::RadioTransmitter,
        DeviceKind::RailRelay,
        DeviceKind::RailSensorStrip,
        DeviceKind::RailTrigger,
        DeviceKind::RangeFinder,
        DeviceKind::Relay,
        DeviceKind::Tank,
        DeviceKind::Thruster,
        DeviceKind::Turntable,
    ]
}

/// Every kind, in the order in which a type tag is looked up.
pub fn kinds() -> (r: Vec<DeviceKind>)
    ensures
        r@ == all_kinds(),
{
    let mut out: Vec<DeviceKind> = Vec::new();
    out.push(DeviceKind::Button);
    out.push(DeviceKind::CargoBeam);
    out.push(DeviceKind::CargoLockFrame);
    out.push(DeviceKind::ChipSocket);
    out.push(DeviceKind::FixedMount);
    out.push(DeviceKind::FlightControlUnit);
    out.push(DeviceKind::Generator);
    out.push(DeviceKind::Hinge);
    out.push(DeviceKind::InformationScreen);
    out.push(DeviceKind::Lamp);
    out.push(DeviceKind::Lever);
    out.push(DeviceKind::MainFlightComputer);
    out.push(DeviceKind::MiningLaser);
    out.push(DeviceKind::ModularDisplay);
    out.push(DeviceKind::Rack);
    out.push(DeviceKind::RadioReceiver);
    out.push(DeviceKind::RadioTransmitter);
    out.push(DeviceKind::RailRelay);
    out.push(DeviceKind::RailSensorStrip);
    out.push(DeviceKind::RailTrigger);
    out.push(DeviceKind::RangeFinder);
    out.push(DeviceKind::Relay);
    out.push(DeviceKind::Tank);
    out.push(DeviceKind::Thruster);
    out.push(DeviceKind::Turntable);
    assert(out@ =~= all_kinds());
    out
}

/// The identifier of the kind's type.
pub open spec fn type_identifier(kind: DeviceKind) -> Seq<char> {
    match kind {
        DeviceKind::Button => "Button"@,
        DeviceKind::CargoBeam => "CargoBeam"@,
        DeviceKind::CargoLockFrame => "CargoLockFrame"@,
        DeviceKind::ChipSocket => "ChipSocket"@,
        DeviceKind::FixedMount => "FixedMount"@,
        DeviceKind::FlightControlUnit => "FlightControlUnit"@,
        DeviceKind::Generator => "Generator"@,
        DeviceKind::Hinge => "Hinge"@,
        DeviceKind::InformationScreen => "InformationScreen"@,
        DeviceKind::Lamp => "Lamp"@,
        DeviceKind::Lever => "Lever"@,
        DeviceKind::MainFlightComputer => "MainFlightComputer"@,
        DeviceKind::MiningLaser => "MiningLaser"@,
        DeviceKind::ModularDisplay => "ModularDisplay"@,
        DeviceKind::Rack => "Rack"@,
        DeviceKind::RadioReceiver => "RadioReceiver"@,
        DeviceKind::RadioTransmitter => "RadioTransmitter"@,
        DeviceKind::RailRelay => "RailRelay"@,
        DeviceKind::RailSensorStrip => "RailSensorStrip"@,
        DeviceKind::RailTrigger => "RailTrigger"@,
        DeviceKind::RangeFinder => "RangeFinder"@,
        DeviceKind::Relay => "Relay"@,
        DeviceKind::Tank => "Tank"@,
        DeviceKind::Thruster => "Thruster"@,
        DeviceKind::Turntable => "Turntable"@,
    }
}

/// The identifier of the kind's type.
pub fn type_ident(kind: DeviceKind) -> (r: &'static str)
    ensures
        r@ == type_identifier(kind),
        r.is_ascii(),
{
    match kind {
        DeviceKind::Button => {
            proof {
                reveal_strlit("Button");
            }
            "Button"
        },
        DeviceKind::CargoBeam => {
            proof {
                reveal_strlit("CargoBeam");
            }
            "CargoBeam"
        },
        DeviceKind::CargoLockFrame => {
            proof {
                reveal_strlit("CargoLockFrame");
            }
            "CargoLockFrame"
        },
        DeviceKind::ChipSocket => {
            proof {
                reveal_strlit("ChipSocket");
            }
            "ChipSocket"
        },
        DeviceKind::FixedMount => {
            proof {
                reveal_strlit("FixedMount");
            }
            "FixedMount"
        },
        DeviceKind::FlightControlUnit => {
            proof {
                reveal_strlit("FlightControlUnit");
            }
            "FlightControlUnit"
        },
        DeviceKind::Generator => {
            proof {
                reveal_strlit("Generator");
            }
            "Generator"
        },
        DeviceKind::Hinge => {
            proof {
                reveal_strlit("Hinge");
            }
            "Hinge"
        },
        DeviceKind::InformationScreen => {
            proof {
                reveal_strlit("InformationScreen");
            }
            "InformationScreen"
        },
        DeviceKind::Lamp => {
            proof {
                reveal_strlit("Lamp");
            }
            "Lamp"
        },
        DeviceKind::Lever => {
            proof {
                reveal_strlit("Lever");
            }
            "Lever"
        },
        DeviceKind::MainFlightComputer => {
            proof {
                reveal_strlit("MainFlightComputer");
            }
            "MainFlightComputer"
        },
        DeviceKind::MiningLaser => {
            proof {
                reveal_strlit("MiningLaser");
            }
            "MiningLaser"
        },
        DeviceKind::ModularDisplay => {
            proof {
                reveal_strlit("ModularDisplay");
            }
            "ModularDisplay"
        },
        DeviceKind::Rack => {
            proof {
                reveal_strlit("Rack");
            }
            "Rack"
        },
        DeviceKind::RadioReceiver => {
            proof {
                reveal_strlit("RadioReceiver");
            }
            "RadioReceiver"
        },
        DeviceKind::RadioTransmitter => {
            proof {
                reveal_strlit("RadioTransmitter");
            }
            "RadioTransmitter"
        },
        DeviceKind::RailRelay => {
            proof {
                reveal_strlit("RailRelay");
            }
            "RailRelay"
        },
        DeviceKind::RailSensorStrip => {
            proof {
                reveal_strlit("RailSensorStrip");
            }
            "RailSensorStrip"
        },
        DeviceKind::RailTrigger => {
            proof {
                reveal_strlit("RailTrigger");
            }
            "RailTrigger"
        },
        DeviceKind::RangeFinder => {
            proof {
                reveal_strlit("RangeFinder");
            }
            "RangeFinder"
        },
        DeviceKind::Relay => {
            proof {
                reveal_strlit("Relay");
            }
            "Relay"
        },
        DeviceKind::Tank => {
            proof {
                reveal_strlit("Tank");
            }
            "Tank"
        },
        DeviceKind::Thruster => {
            proof {
                reveal_strlit("Thruster");
            }
            "Thruster"
        },
        DeviceKind::Turntable => {
            proof {
                reveal_strlit("Turntable");
            }
            "Turntable"
        },
    }
}

/// Whether `list` holds the identifiers `identifiers`, all of them ASCII.
pub open spec fn listed(list: Seq<&'static str>, identifiers: Seq<Seq<char>>) -> bool {
    &&& list.len() == identifiers.len()
    &&& forall|i: int|
        0 <= i < list.len() ==> (#[trigger] list[i])@ == identifiers[i] && list[i].is_ascii()
}

/// The identifiers of the fields that the kind declares, in lookup order.
pub open spec fn field_identifiers(kind: DeviceKind) -> Seq<Seq<char>> {
    match kind {
        DeviceKind::Button => button_fields(),
        DeviceKind::CargoBeam => cargo_beam_fields(),
        DeviceKind::CargoLockFrame => cargo_lock_frame_fields(),
        DeviceKind::ChipSocket => chip_socket_fields(),
        DeviceKind::FixedMount => fixed_mount_fields(),
        DeviceKind::FlightControlUnit => flight_control_unit_fields(),
        DeviceKind::Generator => generator_fields(),
        DeviceKind::Hinge => hinge_fields(),
        DeviceKind::InformationScreen => information_screen_fields(),
        DeviceKind::Lamp => lamp_fields(),
        DeviceKind::Lever => lever_fields(),
        DeviceKind::MainFlightComputer => main_flight_computer_fields(),
        DeviceKind::MiningLaser => mining_laser_fields(),
        DeviceKind::ModularDisplay => modular_display_fields(),
        DeviceKind::Rack => rack_fields(),
        DeviceKind::RadioReceiver => radio_receiver_fields(),
        DeviceKind::RadioTransmitter => radio_transmitter_fields(),
        DeviceKind::RailRelay => rail_relay_fields(),
        DeviceKind::RailSensorStrip => rail_sensor_strip_fields(),
        DeviceKind::RailTrigger => rail_trigger_fields(),
        DeviceKind::RangeFinder => range_finder_fields(),
        DeviceKind::Relay => relay_fields(),
        DeviceKind::Tank => tank_fields(),
        DeviceKind::Thruster => thruster_fields(),
        DeviceKind::Turntable => turntable_fields(),
    }
}

/// The identifiers of the fields that the kind declares, in lookup order.
pub fn identifiers(kind: DeviceKind) -> (r: Vec<&'static str>)
    ensures
        listed(r@, field_identifiers(kind)),
{
    match kind {
        DeviceKind::Button => button_identifiers(),
        DeviceKind::CargoBeam => cargo_beam_identifiers(),
        DeviceKind::CargoLockFrame => cargo_lock_frame_identifiers(),
        DeviceKind::ChipSocket => chip_socket_identifiers(),
        DeviceKind::FixedMount => fixed_mount_identifiers(),
        DeviceKind::FlightControlUnit => flight_control_unit_identifiers(),
        DeviceKind::Generator => generator_identifiers(),
        DeviceKind::Hinge => hinge_identifiers(),
        DeviceKind::InformationScreen => information_screen_identifiers(),
        DeviceKind::Lamp => lamp_identifiers(),
        DeviceKind::Lever => lever_identifiers(),
        DeviceKind::MainFlightComputer => main_flight_computer_identifiers(),
        DeviceKind::MiningLaser => mining_laser_identifiers(),
        DeviceKind::ModularDisplay => modular_display_identifiers(),
        DeviceKind::Rack => rack_identifiers(),
        DeviceKind::RadioReceiver => radio_receiver_identifiers(),
        DeviceKind::RadioTransmitter => radio_transmitter_identifiers(),
        DeviceKind::RailRelay => rail_relay_identifiers(),
        DeviceKind::RailSensorStrip => rail_sensor_strip_identifiers(),
        DeviceKind::RailTrigger => rail_trigger_identifiers(),
        DeviceKind::RangeFinder => range_finder_identifiers(),
        DeviceKind::Relay => relay_identifiers(),
        DeviceKind::Tank => tank_identifiers(),
        DeviceKind::Thruster => thruster_identifiers(),
        DeviceKind::Turntable => turntable_identifiers(),
    }
}

/// The fields of a button.
pub open spec fn button_fields() -> Seq<Seq<char>> {
    seq![
        "button_state"@,
        "button_on_state_value"@,
        "button_off_state_value"@,
        "button_style"@,
    ]
}

fn button_identifiers() -> (r: Vec<&'static str>)
    ensures
        listed(r@, button_fields()),
{
    proof {
        reveal_strlit("button_state");
        reveal_strlit("button_on_state_value");
        reveal_strlit("button_off_state_value");
        reveal_strlit("button_style");
    }
    let mut out: Vec<&'static str> = Vec::new();
    out.push("button_state");
    out.push("button_on_state_value");
    out.push("button_off_state_value");
    out.push("button_style");
    out
}

/// The fields of a cargo beam.
pub open spec fn cargo_beam_fields() -> Seq<Seq<char>> {
    seq![
        "cargo_beam_on_state"@,
        "cargo_beam_search_length"@,
    ]
}

fn cargo_beam_identifiers() -> (r: Vec<&'static str>)
    ensures
        listed(r@, cargo_beam_fields()),
{
    proof {
        reveal_strlit("cargo_beam_on_state");
        reveal_strlit("cargo_beam_search_length");
    }
    let mut out: Vec<&'static str> = Vec::new();
    out.push("cargo_beam_on_state");
    out.push("cargo_beam_search_length");
    out
}

/// The fields of a cargo lock frame.
pub open spec fn cargo_lock_frame_fields() -> Seq<Seq<char>> {
    seq![
        "cargo_frame_state"@,
    ]
}

fn cargo_lock_frame_identifiers() -> (r: Vec<&'static str>)
    ensures
        listed(r@, cargo_lock_frame_fields()),
{
    proof {
        reveal_strlit("cargo_frame_state");
    }
    let mut out: Vec<&'static str> = Vec::new();
    out.push("cargo_frame_state");
    out
}

/// The fields of a chip socket.
pub open spec fn chip_socket_fields() -> Seq<Seq<char>> {
    seq![
        "button_state"@,
        "button_on_state_value"@,
        "button_off_state_value"@,
        "button_style"@,
    ]
}

fn chip_socket_identifiers() -> (r: Vec<&'static str>)
    ensures
        listed(r@, chip_socket_fields()),
{
    proof {
        reveal_strlit("button_state");
        reveal_strlit("button_on_state_value");
        reveal_strlit("button_off_state_value");
        reveal_strlit("button_style");
    }
    let mut out: Vec<&'static str> = Vec::new();
    out.push("button_state");
    out.push("button_on_state_value");
    out.push("button_off_state_value");
    out.push("button_style");
    out
}

/// The fields of a fixed mount.
pub open spec fn fixed_mount_fields() -> Seq<Seq<char>> {
    seq![
        "current_state"@,
        "on_state"@,
        "off_state"@,
        "button_style"@,
    ]
}

fn fixed_mount_identifiers() -> (r: Vec<&'static str>)
    ensures
        listed(r@, fixed_mount_fields()),
{
    proof {
        reveal_strlit("current_state");
        reveal_strlit("on_state");
        reveal_strlit("off_state");
        reveal_strlit("button_style");
    }
    let mut out: Vec<&'static str> = Vec::new();
    out.push("current_state");
    out.push("on_state");
    out.push("off_state");
    out.push("button_style");
    out
}

/// The fields of a flight control unit.
pub open spec fn flight_control_unit_fields() -> Seq<Seq<char>> {
    seq![
        "fcu_mfc_io"@,
        "fcu_general_multiplier"@,
        "fcu_forward"@,
        "fcu_backward"@,
        "fcu_rotational_pitch"@,
        "fcu_rotational_yaw"@,
        "fcu_rotational_roll"@,
        "fcu_up_down"@,
        "fcu_right_left"@,
        "fcu_fwd_bwd_pitch"@,
        "fcu_fwd_bwd_yaw"@,
        "fcu_fwd_bwd_roll"@,
    ]
}

fn flight_control_unit_identifiers() -> (r: Vec<&'static str>)
    ensures
        listed(r@, flight_control_unit_fields()),
{
    proof {
        reveal_strlit("fcu_mfc_io");
        reveal_strlit("fcu_general_multiplier");
        reveal_strlit("fcu_forward");
        reveal_strlit("fcu_backward");
        reveal_strlit("fcu_rotational_pitch");
        reveal_strlit("fcu_rotational_yaw");
        reveal_strlit("fcu_rotational_roll");
        reveal_strlit("fcu_up_down");
        reveal_strlit("fcu_right_left");
        reveal_strlit("fcu_fwd_bwd_pitch");
        reveal_strlit("fcu_fwd_bwd_yaw");
        reveal_strlit("fcu_fwd_bwd_roll");
    }
    let mut out: Vec<&'static str> = Vec::new();
    out.push("fcu_mfc_io");
    out.push("fcu_general_multiplier");
    out.push("fcu_forward");
    out.push("fcu_backward");
    out.push("fcu_rotational_pitch");
    out.push("fcu_rotational_yaw");
    out.push("fcu_rotational_roll");
    out.push("fcu_up_down");
    out.push("fcu_right_left");
    out.push("fcu_fwd_bwd_pitch");
    out.push("fcu_fwd_bwd_yaw");
    out.push("fcu_fwd_bwd_roll");
    out
}

/// The fields of a generator.
pub open spec fn generator_fields() -> Seq<Seq<char>> {
    seq![
        "fuel_chamber_fuel"@,
        "fuel_chamber_max_fuel"@,
        "fuel_chamber_unit_rate_limit"@,
        "fuel_chamber_unit_rate"@,
        "generator_unit_rate_limit"@,
        "generator_unit_rate"@,
        "stored_coolant"@,
        "max_coolant"@,
        "cooler_unit_rate_limit"@,
        "cooler_unit_rate"@,
        "socket_unit_rate_limit"@,
        "socket_unit_rate"@,
    ]
}

fn generator_identifiers() -> (r: Vec<&'static str>)
    ensures
        listed(r@, generator_fields()),
{
    proof {
        reveal_strlit("fuel_chamber_fuel");
        reveal_strlit("fuel_chamber_max_fuel");
        reveal_strlit("fuel_chamber_unit_rate_limit");
        reveal_strlit("fuel_chamber_unit_rate");
        reveal_strlit("generator_unit_rate_limit");
        reveal_strlit("generator_unit_rate");
        reveal_strlit("stored_coolant");
        reveal_strlit("max_coolant");
        reveal_strlit("cooler_unit_rate_limit");
        reveal_strlit("cooler_unit_rate");
        reveal_strlit("socket_unit_rate_limit");
        reveal_strlit("socket_unit_rate");
    }
    let mut out: Vec<&'static str> = Vec::new();
    out.push("fuel_chamber_fuel");
    out.push("fuel_chamber_max_fuel");
    out.push("fuel_chamber_unit_rate_limit");
    out.push("fuel_chamber_unit_rate");
    out.push("generator_unit_rate_limit");
    out.push("generator_unit_rate");
    out.push("stored_coolant");
    out.push("max_coolant");
    out.push("cooler_unit_rate_limit");
    out.push("cooler_unit_rate");
    out.push("socket_unit_rate_limit");
    out.push("socket_unit_rate");
    out
}

/// The fields of a hinge.
pub open spec fn hinge_fields() -> Seq<Seq<char>> {
    seq![
        "door_open_state"@,
        "door_current_state"@,
        "end_rotation"@,
        "start_rotation"@,
        "target_velocity"@,
    ]
}

fn hinge_identifiers() -> (r: Vec<&'static str>)
    ensures
        listed(r@, hinge_fields()),
{
    proof {
        reveal_strlit("door_open_state");
        reveal_strlit("door_current_state");
        reveal_strlit("end_rotation");
        reveal_strlit("start_rotation");
        reveal_strlit("target_velocity");
    }
    let mut out: Vec<&'static str> = Vec::new();
    out.push("door_open_state");
    out.push("door_current_state");
    out.push("end_rotation");
    out.push("start_rotation");
    out.push("target_velocity");
    out
}

/// The fields of an information screen.
pub open spec fn information_screen_fields() -> Seq<Seq<char>> {
    seq![
        "info_screen_content"@,
    ]
}

fn information_screen_identifiers() -> (r: Vec<&'static str>)
    ensures
        listed(r@, information_screen_fields()),
{
    proof {
        reveal_strlit("info_screen_content");
    }
    let mut out: Vec<&'static str> = Vec::new();
    out.push("info_screen_content");
    out
}

/// The fields of a lamp.
pub open spec fn lamp_fields() -> Seq<Seq<char>> {
    seq![
        "lamp_on"@,
        "lamp_lumens"@,
        "lamp_color_hue"@,
        "lamp_color_saturation"@,
        "lamp_color_value"@,
        "lamp_range"@,
    ]
}

fn lamp_identifiers() -> (r: Vec<&'static str>)
    ensures
        listed(r@, lamp_fields()),
{
    proof {
        reveal_strlit("lamp_on");
        reveal_strlit("lamp_lumens");
        reveal_strlit("lamp_color_hue");
        reveal_strlit("lamp_color_saturation");
        reveal_strlit("lamp_color_value");
        reveal_strlit("lamp_range");
    }
    let mut out: Vec<&'static str> = Vec::new();
    out.push("lamp_on");
    out.push("lamp_lumens");
    out.push("lamp_color_hue");
    out.push("lamp_color_saturation");
    out.push("lamp_color_value");
    out.push("lamp_range");
    out
}

/// The fields of a lever.
pub open spec fn lever_fields() -> Seq<Seq<char>> {
    seq![
        "lever_state"@,
        "lever_min_output"@,
        "lever_max_output"@,
        "lever_center_output"@,
        "lever_center_dead_zone"@,
        "lever_centering_speed"@,
        "lever_binds_move_speed"@,
    ]
}

fn lever_identifiers() -> (r: Vec<&'static str>)
    ensures
        listed(r@, lever_fields()),
{
    proof {
        reveal_strlit("lever_state");
        reveal_strlit("lever_min_output");
        reveal_strlit("lever_max_output");
        reveal_strlit("lever_center_output");
        reveal_strlit("lever_center_dead_zone");
        reveal_strlit("lever_centering_speed");
        reveal_strlit("lever_binds_move_speed");
    }
    let mut out: Vec<&'static str> = Vec::new();
    out.push("lever_state");
    out.push("lever_min_output");
    out.push("lever_max_output");
    out.push("lever_center_output");
    out.push("lever_center_dead_zone");
    out.push("lever_centering_speed");
    out.push("lever_binds_move_speed");
    out
}

/// The fields of a main flight computer.
pub open spec fn main_flight_computer_fields() -> Seq<Seq<char>> {
    seq![
        "fcu_mfc_io1"@,
        "fcu_mfc_io2"@,
        "thruster_power_level01"@,
        "thruster_power_level02"@,
        "thruster_power_level03"@,
        "thruster_power_level04"@,
        "thruster_power_level05"@,
        "thruster_power_level06"@,
        "thruster_power_level07"@,
        "thruster_power_level08"@,
        "thruster_power_level09"@,
        "thruster_power_level10"@,
        "thruster_power_level11"@,
        "thruster_power_level12"@,
        "thruster_power_level13"@,
        "thruster_power_level14"@,
        "thruster_power_level15"@,
        "thruster_power_level16"@,
        "thruster_power_level17"@,
        "thruster_power_level18"@,
        "thruster_power_level19"@,
        "thruster_power_level20"@,
        "thruster_power_level21"@,
        "thruster_power_level22"@,
        "thruster_power_level23"@,
        "thruster_power_level24"@,
        "thruster_power_level25"@,
        "thruster_power_level26"@,
        "thruster_power_level27"@,
        "thruster_power_level28"@,
        "thruster_power_level29"@,
        "thruster_power_level30"@,
        "thruster_power_level31"@,
        "thruster_power_level32"@,
        "thruster_power_level33"@,
        "thruster_power_level34"@,
        "thruster_power_level35"@,
        "thruster_power_level36"@,
        "thruster_power_level37"@,
        "thruster_power_level38"@,
        "thruster_power_level39"@,
        "thruster_power_level40"@,
        "thruster_power_level41"@,
        "thruster_power_level42"@,
        "thruster_power_level43"@,
        "thruster_power_level44"@,
        "thruster_power_level45"@,
        "thruster_power_level46"@,
        "thruster_power_level47"@,
        "thruster_power_level48"@,
        "thruster_power_level49"@,
        "thruster_power_level50"@,
    ]
}

fn main_flight_computer_identifiers() -> (r: Vec<&'static str>)
    ensures
        listed(r@, main_flight_computer_fields()),
{
    proof {
        reveal_strlit("fcu_mfc_io1");
        reveal_strlit("fcu_mfc_io2");
        reveal_strlit("thruster_power_level01");
        reveal_strlit("thruster_power_level02");
        reveal_strlit("thruster_power_level03");
        reveal_strlit("thruster_power_level04");
        reveal_strlit("thruster_power_level05");
        reveal_strlit("thruster_power_level06");
        reveal_strlit("thruster_power_level07");
        reveal_strlit("thruster_power_level08");
        reveal_strlit("thruster_power_level09");
        reveal_strlit("thruster_power_level10");
        reveal_strlit("thruster_power_level11");
        reveal_strlit("thruster_power_level12");
        reveal_strlit("thruster_power_level13");
        reveal_strlit("thruster_power_level14");
        reveal_strlit("thruster_power_level15");
        reveal_strlit("thruster_power_level16");
        reveal_strlit("thruster_power_level17");
        reveal_strlit("thruster_power_level18");
        reveal_strlit("thruster_power_level19");
        reveal_strlit("thruster_power_level20");
        reveal_strlit("thruster_power_level21");
        reveal_strlit("thruster_power_level22");
        reveal_strlit("thruster_power_level23");
        reveal_strlit("thruster_power_level24");
        reveal_strlit("thruster_power_level25");
        reveal_strlit("thruster_power_level26");
        reveal_strlit("thruster_power_level27");
        reveal_strlit("thruster_power_level28");
        reveal_strlit("thruster_power_level29");
        reveal_strlit("thruster_power_level30");
        reveal_strlit("thruster_power_level31");
        reveal_strlit("thruster_power_level32");
        reveal_strlit("thruster_power_level33");
        reveal_strlit("thruster_power_level34");
        reveal_strlit("thruster_power_level35");
        reveal_strlit("thruster_power_level36");
        reveal_strlit("thruster_power_level37");
        reveal_strlit("thruster_power_level38");
        reveal_strlit("thruster_power_level39");
        reveal_strlit("thruster_power_level40");
        reveal_strlit("thruster_power_level41");
        reveal_strlit("thruster_power_level42");
        reveal_strlit("thruster_power_level43");
        reveal_strlit("thruster_power_level44");
        reveal_strlit("thruster_power_level45");
        reveal_strlit("thruster_power_level46");
        reveal_strlit("thruster_power_level47");
        reveal_strlit("thruster_power_level48");
        reveal_strlit("thruster_power_level49");
        reveal_strlit("thruster_power_level50");
    }
    let mut out: Vec<&'static str> = Vec::new();
    out.push("fcu_mfc_io1");
    out.push("fcu_mfc_io2");
    out.push("thruster_power_level01");
    out.push("thruster_power_level02");
    out.push("thruster_power_level03");
    out.push("thruster_power_level04");
    out.push("thruster_power_level05");
    out.push("thruster_power_level06");
    out.push("thruster_power_level07");
    out.push("thruster_power_level08");
    out.push("thruster_power_level09");
    out.push("thruster_power_level10");
    out.push("thruster_power_level11");
    out.push("thruster_power_level12");
    out.push("thruster_power_level13");
    out.push("thruster_power_level14");
    out.push("thruster_power_level15");
    out.push("thruster_power_level16");
    out.push("thruster_power_level17");
    out.push("thruster_power_level18");
    out.push("thruster_power_level19");
    out.push("thruster_power_level20");
    out.push("thruster_power_level21");
    out.push("thruster_power_level22");
    out.push("thruster_power_level23");
    out.push("thruster_power_level24");
    out.push("thruster_power_level25");
    out.push("thruster_power_level26");
    out.push("thruster_power_level27");
    out.push("thruster_power_level28");
    out.push("thruster_power_level29");
    out.push("thruster_power_level30");
    out.push("thruster_power_level31");
    out.push("thruster_power_level32");
    out.push("thruster_power_level33");
    out.push("thruster_power_level34");
    out.push("thruster_power_level35");
    out.push("thruster_power_level36");
    out.push("thruster_power_level37");
    out.push("thruster_power_level38");
    out.push("thruster_power_level39");
    out.push("thruster_power_level40");
    out.push("thruster_power_level41");
    out.push("thruster_power_level42");
    out.push("thruster_power_level43");
    out.push("thruster_power_level44");
    out.push("thruster_power_level45");
    out.push("thruster_power_level46");
    out.push("thruster_power_level47");
    out.push("thruster_power_level48");
    out.push("thruster_power_level49");
    out.push("thruster_power_level50");
    out
}

/// The fields of a mining laser.
pub open spec fn mining_laser_fields() -> Seq<Seq<char>> {
    seq![
        "mining_laser_on"@,
        "mining_laser_beam_length"@,
    ]
}

fn mining_laser_identifiers() -> (r: Vec<&'static str>)
    ensures
        listed(r@, mining_laser_fields()),
{
    proof {
        reveal_strlit("mining_laser_on");
        reveal_strlit("mining_laser_beam_length");
    }
    let mut out: Vec<&'static str> = Vec::new();
    out.push("mining_laser_on");
    out.push("mining_laser_beam_length");
    out
}

/// The fields of a modular display.
pub open spec fn modular_display_fields() -> Seq<Seq<char>> {
    seq![
        "panel_value"@,
    ]
}

fn modular_display_identifiers() -> (r: Vec<&'static str>)
    ensures
        listed(r@, modular_display_fields()),
{
    proof {
        reveal_strlit("panel_value");
    }
    let mut out: Vec<&'static str> = Vec::new();
    out.push("panel_value");
    out
}

/// The fields of a rack.
pub open spec fn rack_fields() -> Seq<Seq<char>> {
    seq![
        "current_state"@,
        "on_state"@,
        "off_state"@,
        "button"@,
    ]
}

fn rack_identifiers() -> (r: Vec<&'static str>)
    ensures
        listed(r@, rack_fields()),
{
    proof {
        reveal_strlit("current_state");
        reveal_strlit("on_state");
        reveal_strlit("off_state");
        reveal_strlit("button");
    }
    let mut out: Vec<&'static str> = Vec::new();
    out.push("current_state");
    out.push("on_state");
    out.push("off_state");
    out.push("button");
    out
}

/// The fields of a radio receiver.
pub open spec fn radio_receiver_fields() -> Seq<Seq<char>> {
    seq![
        "message"@,
        "signal_strength"@,
        "listen_angle"@,
        "target_message"@,
        "target_frequency"@,
        "frequency"@,
        "receiver_pitch"@,
        "receiver_current_pitch"@,
        "max_rotation"@,
        "min_rotation"@,
        "target_velocity"@,
    ]
}

fn radio_receiver_identifiers() -> (r: Vec<&'static str>)
    ensures
        listed(r@, radio_receiver_fields()),
{
    proof {
        reveal_strlit("message");
        reveal_strlit("signal_strength");
        reveal_strlit("listen_angle");
        reveal_strlit("target_message");
        reveal_strlit("target_frequency");
        reveal_strlit("frequency");
        reveal_strlit("receiver_pitch");
        reveal_strlit("receiver_current_pitch");
        reveal_strlit("max_rotation");
        reveal_strlit("min_rotation");
        reveal_strlit("target_velocity");
    }
    let mut out: Vec<&'static str> = Vec::new();
    out.push("message");
    out.push("signal_strength");
    out.push("listen_angle");
    out.push("target_message");
    out.push("target_frequency");
    out.push("frequency");
    out.push("receiver_pitch");
    out.push("receiver_current_pitch");
    out.push("max_rotation");
    out.push("min_rotation");
    out.push("target_velocity");
    out
}

/// The fields of a radio transmitter.
pub open spec fn radio_transmitter_fields() -> Seq<Seq<char>> {
    seq![
        "transmit_message"@,
        "transmit_range"@,
        "frequency"@,
    ]
}

fn radio_transmitter_identifiers() -> (r: Vec<&'static str>)
    ensures
        listed(r@, radio_transmitter_fields()),
{
    proof {
        reveal_strlit("transmit_message");
        reveal_strlit("transmit_range");
        reveal_strlit("frequency");
    }
    let mut out: Vec<&'static str> = Vec::new();
    out.push("transmit_message");
    out.push("transmit_range");
    out.push("frequency");
    out
}

/// The fields of a rail relay.
pub open spec fn rail_relay_fields() -> Seq<Seq<char>> {
    seq![
        "is_enabled"@,
    ]
}

fn rail_relay_identifiers() -> (r: Vec<&'static str>)
    ensures
        listed(r@, rail_relay_fields()),
{
    proof {
        reveal_strlit("is_enabled");
    }
    let mut out: Vec<&'static str> = Vec::new();
    out.push("is_enabled");
    out
}

/// The fields of a rail sensor strip.
pub open spec fn rail_sensor_strip_fields() -> Seq<Seq<char>> {
    seq![
        "rail_sensor_output"@,
        "rail_sensor_delta"@,
        "rail_sensor_mover_filter"@,
    ]
}

fn rail_sensor_strip_identifiers() -> (r: Vec<&'static str>)
    ensures
        listed(r@, rail_sensor_strip_fields()),
{
    proof {
        reveal_strlit("rail_sensor_output");
        reveal_strlit("rail_sensor_delta");
        reveal_strlit("rail_sensor_mover_filter");
    }
    let mut out: Vec<&'static str> = Vec::new();
    out.push("rail_sensor_output");
    out.push("rail_sensor_delta");
    out.push("rail_sensor_mover_filter");
    out
}

/// The fields of a rail trigger.
pub open spec fn rail_trigger_fields() -> Seq<Seq<char>> {
    seq![
        "rail_trigger_output"@,
        "rail_trigger_value"@,
        "rail_trigger_read_mover"@,
    ]
}

fn rail_trigger_identifiers() -> (r: Vec<&'static str>)
    ensures
        listed(r@, rail_trigger_fields()),
{
    proof {
        reveal_strlit("rail_trigger_output");
        reveal_strlit("rail_trigger_value");
        reveal_strlit("rail_trigger_read_mover");
    }
    let mut out: Vec<&'static str> = Vec::new();
    out.push("rail_trigger_output");
    out.push("rail_trigger_value");
    out.push("rail_trigger_read_mover");
    out
}

/// The fields of a range finder.
pub open spec fn range_finder_fields() -> Seq<Seq<char>> {
    seq![
        "range_finder_on_state"@,
        "range_finder_search_length"@,
        "range_finder_distance"@,
    ]
}

fn range_finder_identifiers() -> (r: Vec<&'static str>)
    ensures
        listed(r@, range_finder_fields()),
{
    proof {
        reveal_strlit("range_finder_on_state");
        reveal_strlit("range_finder_search_length");
        reveal_strlit("range_finder_distance");
    }
    let mut out: Vec<&'static str> = Vec::new();
    out.push("range_finder_on_state");
    out.push("range_finder_search_length");
    out.push("range_finder_distance");
    out
}

/// The fields of a relay.
pub open spec fn relay_fields() -> Seq<Seq<char>> {
    seq![
        "is_enabled"@,
    ]
}

fn relay_identifiers() -> (r: Vec<&'static str>)
    ensures
        listed(r@, relay_fields()),
{
    proof {
        reveal_strlit("is_enabled");
    }
    let mut out: Vec<&'static str> = Vec::new();
    out.push("is_enabled");
    out
}

/// The fields of a tank.
pub open spec fn tank_fields() -> Seq<Seq<char>> {
    seq![
        "gas_container_stored_resource"@,
        "gas_container_max_resource"@,
        "is_open_id"@,
        "flow_id"@,
    ]
}

fn tank_identifiers() -> (r: Vec<&'static str>)
    ensures
        listed(r@, tank_fields()),
{
    proof {
        reveal_strlit("gas_container_stored_resource");
        reveal_strlit("gas_container_max_resource");
        reveal_strlit("is_open_id");
        reveal_strlit("flow_id");
    }
    let mut out: Vec<&'static str> = Vec::new();
    out.push("gas_container_stored_resource");
    out.push("gas_container_max_resource");
    out.push("is_open_id");
    out.push("flow_id");
    out
}

/// The fields of a thruster.
pub open spec fn thruster_fields() -> Seq<Seq<char>> {
    seq![
        "thruster_state"@,
        "thruster_current_thrust"@,
    ]
}

fn thruster_identifiers() -> (r: Vec<&'static str>)
    ensures
        listed(r@, thruster_fields()),
{
    proof {
        reveal_strlit("thruster_state");
        reveal_strlit("thruster_current_thrust");
    }
    let mut out: Vec<&'static str> = Vec::new();
    out.push("thruster_state");
    out.push("thruster_current_thrust");
    out
}

/// The fields of a turntable.
pub open spec fn turntable_fields() -> Seq<Seq<char>> {
    seq![
        "turret_rotation"@,
        "turret_current_rotation"@,
        "max_rotation"@,
        "min_rotation"@,
        "target_velocity"@,
    ]
}

fn turntable_identifiers() -> (r: Vec<&'static str>)
    ensures
        listed(r@, turntable_fields()),
{
    proof {
        reveal_strlit("turret_rotation");
        reveal_strlit("turret_current_rotation");
        reveal_strlit("max_rotation");
        reveal_strlit("min_rotation");
        reveal_strlit("target_velocity");
    }
    let mut out: Vec<&'static str> = Vec::new();
    out.push("turret_rotation");
    out.push("turret_current_rotation");
    out.push("max_rotation");
    out.push("min_rotation");
    out.push("target_velocity");
    out
}

} // verus!
