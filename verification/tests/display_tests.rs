use iron_coder::board::toml_info::{standard_for, BoardTomlInfo, PinoutTomlInfo};
use iron_coder::board::pinout::{InterfaceDirection, InterfaceType};
use iron_coder::board::BoardStandards;
use iron_coder::board::{Board, BoardType};
use iron_coder::project::display::{
    check_general_form, elf_debug_dir, insert_pin_marks, new_board_files, normalize_name,
    new_board_step, package_name, pins_missing, project_build_target, project_editor_frame,
    renode_script, FormCheck, NewBoardEvent, NewBoardFlags, NewBoardForm, PinMarkError,
};

fn board(name: &str) -> Board {
    Board::new(
        name.to_string(),
        "Maker".to_string(),
        BoardType::Peripheral,
        None,
        None,
        None,
        None,
        Vec::new(),
        None,
        None,
        None,
    )
}

#[test]
fn renode_script_loads_the_elf() {
    let s = renode_script("target/app");
    let expected = "# Renode script for ELF file\nusing sysbus\nmach create\nmachine LoadPlatformDescription @platforms/boards/stm32f4_discovery-kit.repl\ncpu PerformanceInMips 125\nmacro reset\n\"\"\"\nsysbus LoadELF $CWD/target/app\n\"\"\"\nrunMacro $reset\nlogFile $ORIGIN/output.txt\nshowAnalyzer sysbus.usart2\nstart\n# New Testing for obtaining peripherals\nlogLevel -1 gpioPortD\nperipherals\nlogFile $ORIGIN/../../logs/output.txt\n# Simulation ends\n";
    assert_eq!(s, expected);
}

#[test]
fn names_compare_without_case_and_spaces() {
    assert_eq!(normalize_name("  My Board  "), "myboard");
    assert_eq!(normalize_name("OLED Featherwing"), "oledfeatherwing");
    assert_eq!(normalize_name(""), "");
}

#[test]
fn general_form_flags() {
    let known = vec![board("OLED Featherwing")];
    let mut info = BoardTomlInfo::default();
    let r = check_general_form(&info, &known);
    assert!(r.name_required && r.manufacturer_required && r.standard_required);
    assert!(r.cpu_required && r.flash_required && r.ram_required);
    assert!(!r.name_duplicated && !r.req_crates_required && !r.rel_crates_required);
    assert!(!r.is_valid());
    info.name = "oled featherwing".to_string();
    info.manufacturer = "Adafruit".to_string();
    info.standard = "Feather".to_string();
    info.board_type = BoardType::Peripheral;
    info.required_crates = vec!["".to_string()];
    let r = check_general_form(&info, &known);
    assert!(r.name_duplicated);
    assert!(!r.cpu_required && !r.flash_required && !r.ram_required);
    assert!(r.req_crates_required);
    info.name = "New Board".to_string();
    info.required_crates = vec!["embedded-hal".to_string()];
    let r = check_general_form(&info, &known);
    assert!(r.is_valid());
}

#[test]
fn new_board_files_from_form() {
    let mut info = BoardTomlInfo::default();
    info.name = " Big Board ".to_string();
    info.manufacturer = " Acme ".to_string();
    let f = new_board_files(&info);
    assert_eq!(f.manufacturer_folder, "Acme");
    assert_eq!(f.board_folder, "Big_Board");
    assert_eq!(f.toml_file, "big_board.toml");
    assert_eq!(f.svg_file, "big_board.svg");
}

#[test]
fn pin_marks_inserted_before_group_close() {
    let svg = "<svg>\n  <g>\n  </g>\n</svg>";
    let (out, err) = insert_pin_marks(svg, "<circle/>\n");
    assert_eq!(out, "<svg>\n  <g>\n<circle/>\n  </g>\n</svg>");
    assert_eq!(err, None);
}

#[test]
fn pin_marks_inserted_before_svg_close() {
    let (out, err) = insert_pin_marks("<svg><rect/></svg>", "<circle/>");
    assert_eq!(out, "<svg><rect/><circle/></svg>");
    assert_eq!(err, None);
}

#[test]
fn pin_marks_errors() {
    let (out, err) = insert_pin_marks("", "<circle/>");
    assert_eq!(out, "");
    assert_eq!(err, Some(PinMarkError::ReadSvgFailed));
    assert_eq!(PinMarkError::ReadSvgFailed.message(), "Read SVG from String failed.");
    let (out, err) = insert_pin_marks("<svg>", "<circle/>");
    assert_eq!(out, "<svg>");
    assert_eq!(err, Some(PinMarkError::CopyPinRectsFailed));
    assert_eq!(PinMarkError::CopyPinRectsFailed.message(), "Copy Pin Rects failed.");
}

#[test]
fn package_name_from_cargo_toml() {
    assert_eq!(
        package_name("[package]\nname = \"blinky\"\nversion = \"0.1.0\"\n"),
        Some("blinky".to_string())
    );
    assert_eq!(package_name("[dependencies]\nserde = \"1\"\n"), None);
    assert_eq!(package_name("not = [toml"), None);
    assert_eq!(package_name("[package]\nname = 3\n"), None);
}

#[test]
fn build_target_from_config_first() {
    let config = "[build]\ntarget = \"thumbv7em-none-eabihf\"\n";
    let cargo = "[package]\nname = \"x\"\n[package.metadata]\nbuild-target = \"avr-unknown-gnu-atmega328\"\n";
    assert_eq!(
        project_build_target(Some(config), Some(cargo)),
        Some("thumbv7em-none-eabihf".to_string())
    );
    // A config without a target is not completed from Cargo.toml.
    assert_eq!(project_build_target(Some("[build]\n"), Some(cargo)), None);
    assert_eq!(
        project_build_target(None, Some(cargo)),
        Some("avr-unknown-gnu-atmega328".to_string())
    );
    assert_eq!(project_build_target(None, None), None);
}

#[test]
fn elf_folder_defaults_target() {
    assert_eq!(elf_debug_dir(None, None), "target/thumbv6m-none-eabi/debug");
    assert_eq!(
        elf_debug_dir(Some("[build]\ntarget = \"riscv32imc-unknown-none-elf\"\n"), None),
        "target/riscv32imc-unknown-none-elf/debug"
    );
}

#[test]
fn pinout_needs_named_and_marked_pins() {
    let named = vec!["SDA".to_string(), "SCL".to_string()];
    assert!(!pins_missing(&named, 2));
    assert!(pins_missing(&named, 0));
    assert!(pins_missing(&Vec::new(), 3));
    assert!(pins_missing(&vec!["SDA".to_string(), "".to_string()], 2));
    assert!(pins_missing(&vec!["".to_string()], 1));
    assert!(FormCheck::cleared().is_valid());
}

fn unit_testing_info(name: &str) -> BoardTomlInfo {
    let pin1 = PinoutTomlInfo {
        pins: vec![String::from("rx"), String::from("tx")],
        iface_type: InterfaceType::UART,
        direction: InterfaceDirection::Bidirectional,
    };
    let pin2 = PinoutTomlInfo {
        pins: vec![String::from("d0"), String::from("d1")],
        iface_type: InterfaceType::GPIO,
        direction: InterfaceDirection::Bidirectional,
    };
    BoardTomlInfo {
        name: String::from(name),
        manufacturer: "UnitTesting".to_string(),
        board_type: BoardType::Main,
        standard: BoardStandards::Arduino.to_string(),
        cpu: "Cortex".to_string(),
        ram: 32,
        flash: 16,
        required_crates: vec![String::from("embedded-hal"), String::from("ravedude"), String::from("panic-halt")],
        related_crates: vec![String::from("smart-leds")],
        bsp: "".to_string(),
        pinouts: vec![pin1, pin2],
    }
}

const SAMPLE_SVG: &str = "<svg>\n  <g>\n    <rect/>\n  </g>\n</svg>";

#[test]
fn save_new_board_base_case() {
    let info = unit_testing_info("ArduinoOne");
    let files = new_board_files(&info);
    assert_eq!(files.manufacturer_folder, "UnitTesting");
    assert_eq!(files.board_folder, "ArduinoOne");
    assert_eq!(files.toml_file, "arduinoone.toml");
    assert_eq!(files.svg_file, "arduinoone.svg");
    let toml_string = info.generate_toml_string();
    let (svg_string, err) = insert_pin_marks(SAMPLE_SVG, "    <circle id=\"rx\" />\n");
    assert!(!toml_string.is_empty());
    assert!(!svg_string.is_empty());
    assert_eq!(err, None);
    assert_eq!(toml_string, "name = \"ArduinoOne\"\n\
        manufacturer = \"UnitTesting\"\n\
        board_type = \"Main\"\n\
        standard = \"Arduino\"\n\
        cpu = \"Cortex\"\n\
        ram = 32\n\
        flash = 16\n\
        required_crates = [\"embedded-hal\", \"ravedude\", \"panic-halt\"]\n\
        related_crates = [\"smart-leds\"]\n\n\

        bsp = \"iron-coder-ArduinoOne-bsp\"\n\n\

        [[pinout]]\n\
        pins = [\"rx\", \"tx\"]\n\
        interface = { iface_type = \"UART\", direction = \"Bidirectional\" }\n\n\

        [[pinout]]\n\
        pins = [\"d0\", \"d1\"]\n\
        interface = { iface_type = \"GPIO\", direction = \"Bidirectional\" }\n\n");
}

#[test]
fn save_new_board_contains_spaces() {
    let info = unit_testing_info("Arduino Dos");
    let files = new_board_files(&info);
    assert_eq!(files.manufacturer_folder, "UnitTesting");
    assert_eq!(files.board_folder, "Arduino_Dos");
    assert_eq!(files.toml_file, "arduino_dos.toml");
    assert_eq!(files.svg_file, "arduino_dos.svg");
    let toml_string = info.generate_toml_string();
    let (svg_string, err) = insert_pin_marks(SAMPLE_SVG, "    <circle id=\"rx\" />\n");
    assert!(!toml_string.is_empty());
    assert!(!svg_string.is_empty());
    assert_eq!(err, None);
    assert_eq!(toml_string, "name = \"Arduino Dos\"\n\
        manufacturer = \"UnitTesting\"\n\
        board_type = \"Main\"\n\
        standard = \"Arduino\"\n\
        cpu = \"Cortex\"\n\
        ram = 32\n\
        flash = 16\n\
        required_crates = [\"embedded-hal\", \"ravedude\", \"panic-halt\"]\n\
        related_crates = [\"smart-leds\"]\n\n\

        bsp = \"iron-coder-Arduino-Dos-bsp\"\n\n\

        [[pinout]]\n\
        pins = [\"rx\", \"tx\"]\n\
        interface = { iface_type = \"UART\", direction = \"Bidirectional\" }\n\n\

        [[pinout]]\n\
        pins = [\"d0\", \"d1\"]\n\
        interface = { iface_type = \"GPIO\", direction = \"Bidirectional\" }\n\n");
}

#[test]
fn save_new_board_invalid_svg_path() {
    // The image could not be read: its text is empty.
    let info = unit_testing_info("ArduinoOne");
    let toml_string = info.generate_toml_string();
    let (svg_string, err) = insert_pin_marks("", "    <circle id=\"rx\" />\n");
    assert!(!toml_string.is_empty());
    assert!(svg_string.is_empty());
    assert_eq!(err, Some(PinMarkError::ReadSvgFailed));
}

#[test]
fn standard_forced_for_non_main_boards() {
    assert_eq!(standard_for(BoardType::Main, "Feather"), "Feather");
    assert_eq!(standard_for(BoardType::Peripheral, "Feather"), "None");
    assert_eq!(standard_for(BoardType::Discrete, "Arduino"), "None");
}

#[test]
fn new_board_flow() {
    let closed = NewBoardFlags {
        generate_window: false,
        pinout_window: false,
        confirmation_window: false,
        failure_window: false,
        reload_boards: false,
    };
    let (frame, _) = project_editor_frame(closed);
    assert!(!frame.new_board_panel);
    let f = new_board_step(closed, NewBoardEvent::GenerateRequested);
    let (frame, f) = project_editor_frame(f);
    assert!(frame.new_board_panel && frame.show_generate_form && !frame.show_pinout_window);
    let f = new_board_step(f, NewBoardEvent::ImageChosen);
    let (frame, f) = project_editor_frame(f);
    assert!(frame.show_pinout_window && !frame.show_generate_form);
    assert!(!f.generate_window);
    let f = new_board_step(f, NewBoardEvent::BoardSaved { failed: false });
    let (frame, f) = project_editor_frame(f);
    assert!(frame.show_confirmation && frame.reload_boards && !frame.show_failure);
    let f = new_board_step(f, NewBoardEvent::BoardsReloaded);
    let f = new_board_step(f, NewBoardEvent::ConfirmationClosed);
    assert_eq!(f, closed);
    let g = new_board_step(NewBoardFlags { pinout_window: true, ..closed }, NewBoardEvent::BoardSaved { failed: true });
    let (frame, _) = project_editor_frame(g);
    assert!(frame.show_failure && !frame.show_confirmation);
}

#[test]
fn closing_new_board_windows_forgets_the_form() {
    let mut form = NewBoardForm::new();
    form.info.name = "X".to_string();
    form.checks.name_required = true;
    form.svg = "<svg></svg>".to_string();
    form.pin_names = vec!["a".to_string()];
    form.general_window_closed();
    assert!(form.info.name.is_empty());
    assert!(form.checks.is_valid());
    assert_eq!(form.svg, "<svg></svg>");
    form.info.name = "Y".to_string();
    form.checks.name_required = true;
    form.pinout_window_closed();
    assert!(form.info.name.is_empty());
    assert!(form.svg.is_empty() && form.pin_names.is_empty());
    assert!(form.checks.name_required);
}
