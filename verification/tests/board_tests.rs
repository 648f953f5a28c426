use iron_coder::board::is_manifest_file;
use iron_coder::board::toml_info::{add_entry, delete_entry, ensure_entry};
use iron_coder::board::order::{compare, sort_boards, BoardOrder};
use iron_coder::board::parsing::{crate_ident, field_ident, BspParseError, FieldDecl};
use iron_coder::board::pinout::{Interface, InterfaceDirection, InterfaceMapping, InterfaceType};
use iron_coder::board::toml_info::{BoardTomlInfo, PinoutTomlInfo};
use iron_coder::board::{Board, BoardStandards, BoardType};

fn board(name: &str, board_type: BoardType) -> Board {
    Board::new(
        name.to_string(),
        "Maker".to_string(),
        board_type,
        None,
        None,
        None,
        None,
        Vec::new(),
        None,
        None,
        None,
    )
}

fn strings(items: &[&str]) -> Vec<String> {
    items.iter().map(|s| s.to_string()).collect()
}

#[test]
fn board_type_and_standard_labels() {
    assert_eq!(BoardType::Main.to_string(), "Main");
    assert_eq!(BoardType::Peripheral.to_string(), "Peripheral");
    assert_eq!(BoardType::Discrete.to_string(), "Discrete");
    assert_eq!(BoardStandards::NoStandard.to_string(), "None");
    assert_eq!(BoardStandards::Feather.to_string(), "Feather");
    assert_eq!(BoardStandards::RaspberryPi.to_string(), "RaspberryPi");
    assert_eq!(BoardStandards::default(), BoardStandards::NoStandard);
    assert_eq!(BoardType::default(), BoardType::Main);
}

#[test]
fn interface_labels_and_default() {
    assert_eq!(InterfaceType::GPIO.to_string(), "GPIO");
    assert_eq!(InterfaceType::NONE.to_string(), "NONE");
    assert_eq!(InterfaceDirection::Bidirectional.to_string(), "Bidirectional");
    let d = Interface::default();
    assert_eq!(d.iface_type, InterfaceType::NONE);
    assert_eq!(d.direction, InterfaceDirection::Unknown);
    assert_eq!(InterfaceType::all().len(), 7);
    let legacy = iron_coder::board::interface::Interface::I2C(
        iron_coder::board::interface::InterfaceDirection::Controller,
    );
    assert_eq!(legacy.to_string(), "I2C(Controller)");
    assert_eq!(iron_coder::board::interface::Interface::GPIO.to_string(), "GPIO");
}

#[test]
fn board_kinds_and_identity() {
    let m = board("Feather RP2040", BoardType::Main);
    let p = board("OLED", BoardType::Peripheral);
    let d = board("LED", BoardType::Discrete);
    assert!(m.is_main_board() && !m.is_discrete());
    assert!(!p.is_main_board() && !p.is_discrete());
    assert!(!d.is_main_board() && d.is_discrete());
    assert_eq!(m.get_name(), "Feather RP2040");
    let c = m.clone();
    assert!(c.same_board(&m));
    assert!(!c.same_board(&p));
    assert!(m.get_template_dir().is_none());
    assert!(m.required_crates().is_none());
}

#[test]
fn pinout_toml_lines() {
    let p = PinoutTomlInfo {
        pins: strings(&["D0", "D1"]),
        iface_type: InterfaceType::GPIO,
        direction: InterfaceDirection::Input,
    };
    assert_eq!(p.get_pins(), "pins = [\"D0\", \"D1\"]\n");
    assert_eq!(
        p.get_interface(),
        "interface = { iface_type = \"GPIO\", direction = \"Input\" }\n\n"
    );
    let e = PinoutTomlInfo::default();
    assert_eq!(e.get_pins(), "pins = []\n");
    assert_eq!(
        e.get_interface(),
        "interface = { iface_type = \"NONE\", direction = \"Unknown\" }\n\n"
    );
}

fn sample_info(board_type: BoardType) -> BoardTomlInfo {
    BoardTomlInfo {
        name: "Arduino Dos".to_string(),
        manufacturer: "Arduino".to_string(),
        board_type,
        standard: "Arduino".to_string(),
        cpu: "ATmega328P".to_string(),
        ram: -5,
        flash: 32,
        required_crates: strings(&["arduino-hal"]),
        related_crates: strings(&["ufmt", "panic-halt"]),
        bsp: String::new(),
        pinouts: vec![PinoutTomlInfo {
            pins: strings(&["A0"]),
            iface_type: InterfaceType::ADC,
            direction: InterfaceDirection::Input,
        }],
    }
}

#[test]
fn board_toml_getters() {
    let info = sample_info(BoardType::Main);
    assert_eq!(info.get_name(), "name = \"Arduino Dos\"\n");
    assert_eq!(info.get_manufacturer(), "manufacturer = \"Arduino\"\n");
    assert_eq!(info.get_board_type(), "board_type = \"Main\"\n");
    assert_eq!(info.get_standard(), "standard = \"Arduino\"\n");
    assert_eq!(info.get_cpu(), "cpu = \"ATmega328P\"\n");
    assert_eq!(info.get_ram(), "ram = -5\n");
    assert_eq!(info.get_flash(), "flash = 32\n");
    assert_eq!(info.get_required_crates(), "required_crates = [\"arduino-hal\"]\n");
    assert_eq!(
        info.get_related_crates(),
        "related_crates = [\"ufmt\", \"panic-halt\"]\n\n"
    );
    assert_eq!(info.get_bsp(), "bsp = \"iron-coder-Arduino-Dos-bsp\"\n\n");
    assert_eq!(
        info.get_pinouts(),
        "[[pinout]]\npins = [\"A0\"]\ninterface = { iface_type = \"ADC\", direction = \"Input\" }\n\n"
    );
    assert_eq!(info.get_all_pin_names(), strings(&["A0"]));
    info.cleanup("unused");
}

#[test]
fn generate_toml_main_and_discrete() {
    let main = sample_info(BoardType::Main);
    let expected_main = "name = \"Arduino Dos\"\nmanufacturer = \"Arduino\"\nboard_type = \"Main\"\nstandard = \"Arduino\"\ncpu = \"ATmega328P\"\nram = -5\nflash = 32\nrequired_crates = [\"arduino-hal\"]\nrelated_crates = [\"ufmt\", \"panic-halt\"]\n\nbsp = \"iron-coder-Arduino-Dos-bsp\"\n\n[[pinout]]\npins = [\"A0\"]\ninterface = { iface_type = \"ADC\", direction = \"Input\" }\n\n";
    assert_eq!(main.generate_toml_string(), expected_main);
    let discrete = sample_info(BoardType::Discrete);
    let expected_discrete = "name = \"Arduino Dos\"\nmanufacturer = \"Arduino\"\nboard_type = \"Discrete\"\nstandard = \"Arduino\"\nrequired_crates = [\"arduino-hal\"]\nrelated_crates = [\"ufmt\", \"panic-halt\"]\n\nbsp = \"iron-coder-Arduino-Dos-bsp\"\n\n[[pinout]]\npins = [\"A0\"]\ninterface = { iface_type = \"ADC\", direction = \"Input\" }\n\n";
    assert_eq!(discrete.generate_toml_string(), expected_discrete);
}

#[test]
fn all_pin_names_in_order() {
    let mut info = BoardTomlInfo::default();
    info.pinouts = vec![
        PinoutTomlInfo {
            pins: strings(&["SDA", "SCL"]),
            iface_type: InterfaceType::I2C,
            direction: InterfaceDirection::Bidirectional,
        },
        PinoutTomlInfo {
            pins: strings(&["TX"]),
            iface_type: InterfaceType::UART,
            direction: InterfaceDirection::Output,
        },
    ];
    assert_eq!(info.get_all_pin_names(), strings(&["SDA", "SCL", "TX"]));
    assert_eq!(BoardTomlInfo::default().generate_toml_string().starts_with("name = \"\"\n"), true);
}

#[test]
fn board_order_main_first_discrete_last() {
    let a_main = board("Alpha", BoardType::Main);
    let b_main = board("Beta", BoardType::Main);
    let a_per = board("Alpha", BoardType::Peripheral);
    let z_per = board("Zeta", BoardType::Peripheral);
    let c_dis = board("Cap", BoardType::Discrete);
    assert_eq!(compare(&a_main, &b_main), BoardOrder::Less);
    assert_eq!(compare(&b_main, &a_per), BoardOrder::Less);
    assert_eq!(compare(&c_dis, &z_per), BoardOrder::Greater);
    assert_eq!(compare(&a_per, &a_per.clone()), BoardOrder::Equal);
    assert_eq!(compare(&z_per, &a_per), BoardOrder::Greater);
}

#[test]
fn sort_boards_by_kind_then_name() {
    let v = vec![
        board("Cap", BoardType::Discrete),
        board("Zeta", BoardType::Peripheral),
        board("Beta", BoardType::Main),
        board("Alpha", BoardType::Peripheral),
        board("Alpha", BoardType::Main),
    ];
    let sorted = sort_boards(v);
    let names: Vec<(String, BoardType)> = sorted
        .iter()
        .map(|b| (b.name.clone(), b.board_type))
        .collect();
    assert_eq!(
        names,
        vec![
            ("Alpha".to_string(), BoardType::Main),
            ("Beta".to_string(), BoardType::Main),
            ("Alpha".to_string(), BoardType::Peripheral),
            ("Zeta".to_string(), BoardType::Peripheral),
            ("Cap".to_string(), BoardType::Discrete),
        ]
    );
}

#[test]
fn identifiers_from_names() {
    assert_eq!(crate_ident("feather-rp2040"), "feather_rp2040");
    assert_eq!(crate_ident("a.b(c)-d"), "abc_d");
    assert_eq!(field_ident("OLED Featherwing (128x64)"), "oled_featherwing_128x64");
    assert_eq!(field_ident("Adafruit Feather-RP2040 v1.0"), "adafruit_feather_rp2040_v10");
}

#[test]
fn load_bsp_info_errors() {
    let mut b = board("Feather", BoardType::Main);
    assert_eq!(b.load_bsp_info(Some("pub struct Board;")), Err(BspParseError::BspMissingError));
    b.bsp = Some("feather-bsp".to_string());
    assert_eq!(b.load_bsp_info(None), Err(BspParseError::OtherError));
    assert_eq!(b.load_bsp_info(Some("this is not rust {")), Err(BspParseError::OtherError));
    assert!(b.bsp_parse_info.is_none());
}

#[test]
fn load_bsp_info_binds_i2c_bus() {
    let mut b = board("Adafruit Feather RP2040", BoardType::Main);
    b.bsp = Some("feather-rp2040".to_string());
    let source = "pub type I2CBus = u8;\npub struct Board<I2C> { pub i2c: I2C }\nfn helper() {}\n";
    assert_eq!(b.load_bsp_info(Some(source)), Ok(()));
    let info = b.bsp_parse_info.expect("inspected");
    assert_eq!(info.bsp_crate_identifier, Some("feather_rp2040".to_string()));
    assert_eq!(info.board_field_identifiers, strings(&["adafruit_feather_rp2040"]));
    assert!(info.board_field_type_identifiers.is_empty());
    assert_eq!(info.available_types, strings(&["I2CBus"]));
    assert_eq!(
        info.type_substitutions,
        vec![("I2C".to_string(), Some("I2CBus".to_string()))]
    );
    let typed: Vec<(String, String, String, Option<String>)> = info
        .field_types
        .iter()
        .map(|d: &FieldDecl| (d.field.clone(), d.crate_name.clone(), d.field_type.clone(), d.generic.clone()))
        .collect();
    assert_eq!(
        typed,
        vec![(
            "adafruit_feather_rp2040".to_string(),
            "feather_rp2040".to_string(),
            "Board".to_string(),
            Some("I2CBus".to_string())
        )]
    );
    let made: Vec<(String, Option<String>)> = info
        .field_constructors
        .iter()
        .map(|d: &FieldDecl| (d.field_type.clone(), d.generic.clone()))
        .collect();
    assert_eq!(made, vec![("Board".to_string(), None)]);
}

#[test]
fn load_bsp_info_without_bus_leaves_parameter_unbound() {
    let mut b = board("Uno", BoardType::Main);
    b.bsp = Some("arduino-hal".to_string());
    assert_eq!(b.load_bsp_info(Some("pub struct Board<I2C, SPI> {}\npub struct Other;\n")), Ok(()));
    let info = b.bsp_parse_info.expect("inspected");
    assert_eq!(info.board_field_type_identifiers, strings(&["Board"]));
    assert_eq!(
        info.type_substitutions,
        vec![("I2C".to_string(), None), ("SPI".to_string(), None)]
    );
    assert_eq!(info.field_types.len(), 1);
    assert_eq!(info.field_types[0].generic, None);
}

#[test]
fn load_bsp_info_refuses_second_bound_board() {
    let mut b = board("Uno", BoardType::Main);
    b.bsp = Some("hal".to_string());
    let source = "pub type I2CBus = u8;\npub struct Board<I2C, I2C2> {}\npub struct Board<I2C> {}\n";
    // Two boards, each binding one I2C parameter: the second has a field type to bind.
    assert_eq!(b.load_bsp_info(Some(source)), Ok(()));
    let mut c = board("Uno", BoardType::Main);
    c.bsp = Some("hal".to_string());
    // A board whose parameters bind the bus twice has only one field type to replace.
    let twice = "pub type I2CBus = u8;\npub struct Board<I2C, I2C> {}\n";
    assert_eq!(c.load_bsp_info(Some(twice)), Err(BspParseError::OtherError));
    assert!(c.bsp_parse_info.is_none());
}

#[test]
fn interface_mapping_default_is_empty() {
    let m = InterfaceMapping::default();
    assert!(m.pins.is_empty());
    assert_eq!(m.interface, Interface::default());
}

#[test]
fn manifest_file_names() {
    assert!(is_manifest_file("feather.toml"));
    assert!(is_manifest_file("a.b.toml"));
    assert!(!is_manifest_file(".toml"));
    assert!(!is_manifest_file("feather.svg"));
    assert!(!is_manifest_file("toml"));
    assert!(!is_manifest_file("feather.toml.bak"));
    assert!(!is_manifest_file(""));
}

#[test]
fn attach_found_files_inspects_local_bsp() {
    let mut b = board("Adafruit Feather RP2040", BoardType::Main);
    b.bsp = Some("feather-rp2040".to_string());
    let r = b.attach_found_files(
        Some("/boards/Adafruit/Feather_RP2040/template".to_string()),
        Some("/boards/Adafruit/Feather_RP2040/bsp".to_string()),
        Some("pub struct Board {}\n"),
    );
    assert_eq!(r, Some(Ok(())));
    assert_eq!(b.get_template_dir(), Some("/boards/Adafruit/Feather_RP2040/template".to_string()));
    assert_eq!(b.bsp_path, Some("/boards/Adafruit/Feather_RP2040/bsp".to_string()));
    assert!(b.bsp_parse_info.is_some());
    let mut c = board("Uno", BoardType::Main);
    assert_eq!(c.attach_found_files(None, None, None), None);
    assert!(c.template_dir.is_none() && c.bsp_path.is_none());
    assert_eq!(
        c.attach_found_files(None, Some("/bsp".to_string()), None),
        Some(Err(BspParseError::BspMissingError))
    );
    assert_eq!(c.bsp_path, Some("/bsp".to_string()));
}

#[test]
fn form_lists_keep_one_entry() {
    let mut v: Vec<String> = Vec::new();
    ensure_entry(&mut v);
    assert_eq!(v, vec!["".to_string()]);
    assert!(!delete_entry(&mut v, 0));
    assert_eq!(v.len(), 1);
    v[0] = "embedded-hal".to_string();
    add_entry(&mut v);
    assert_eq!(v, vec!["embedded-hal".to_string(), "".to_string()]);
    assert!(delete_entry(&mut v, 0));
    assert_eq!(v, vec!["".to_string()]);
    ensure_entry(&mut v);
    assert_eq!(v.len(), 1);
}

#[test]
fn sort_keeps_order_of_equal_boards() {
    let mut first = board("LED", BoardType::Discrete);
    first.manufacturer = "First".to_string();
    let mut second = board("LED", BoardType::Discrete);
    second.manufacturer = "Second".to_string();
    let mut third = board("LED", BoardType::Discrete);
    third.manufacturer = "Third".to_string();
    let sorted = sort_boards(vec![first, board("Uno", BoardType::Main), second, third]);
    let makers: Vec<String> = sorted.iter().map(|b| b.manufacturer.clone()).collect();
    assert_eq!(makers, vec!["Maker", "First", "Second", "Third"]);
}

#[test]
fn board_pinout_copy() {
    let mut b = board("Feather", BoardType::Main);
    b.pinout = vec![InterfaceMapping {
        interface: Interface { iface_type: InterfaceType::SPI, direction: InterfaceDirection::Output },
        pins: strings(&["MOSI", "SCK"]),
    }];
    let p = b.get_pinout();
    assert_eq!(p.len(), 1);
    assert_eq!(p[0].pins, strings(&["MOSI", "SCK"]));
    assert_eq!(p[0].interface.iface_type, InterfaceType::SPI);
}

#[test]
fn general_form_frame_keeps_lists_and_standard() {
    let mut info = BoardTomlInfo::default();
    info.board_type = BoardType::Peripheral;
    info.standard = "Feather".to_string();
    info.cpu = "M0".to_string();
    info.general_form_frame();
    assert_eq!(info.standard, "None");
    assert_eq!(info.required_crates, vec!["".to_string()]);
    assert_eq!(info.related_crates, vec!["".to_string()]);
    assert_eq!(info.cpu, "M0");
    let mut main = BoardTomlInfo::default();
    main.standard = "Feather".to_string();
    main.required_crates = strings(&["embedded-hal"]);
    main.general_form_frame();
    assert_eq!(main.standard, "Feather");
    assert_eq!(main.required_crates, strings(&["embedded-hal"]));
}
