use iron_coder::app::Warnings;
use iron_coder::project::system::System;
use iron_coder::board::pinout::{Interface, InterfaceDirection, InterfaceMapping, InterfaceType};
use iron_coder::board::{Board, BoardType};
use iron_coder::project::node_graph::{node_finder_category, node_label, node_port, PortKind};
use iron_coder::project::terminal::Shell;
use iron_coder::project::{cargo_in_folder, find_board, Project, PROJECT_FILE_NAME};

fn board(name: &str, board_type: BoardType) -> Board {
    Board::new(
        name.to_string(),
        "Maker".to_string(),
        board_type,
        None,
        None,
        None,
        None,
        Vec::new(),
        None,
        None,
        None,
    )
}

fn strings(items: &[&str]) -> Vec<String> {
    items.iter().map(|s| s.to_string()).collect()
}

#[test]
fn project_file_name_and_default() {
    assert_eq!(PROJECT_FILE_NAME, ".ironcoder.toml");
    let p = Project::default();
    assert!(p.name.is_empty());
    assert!(p.location.is_none());
    assert!(p.boards.is_empty());
    assert!(!p.has_main_board());
    assert_eq!(p.get_location(), "");
}

#[test]
fn add_board_refuses_second_main_and_duplicates() {
    let mut p = Project::default();
    assert!(p.add_board(board("Feather", BoardType::Main)));
    assert!(p.has_main_board());
    assert!(!p.add_board(board("Uno", BoardType::Main)));
    assert_eq!(p.terminal_buffer, "");
    assert!(p.add_board(board("OLED", BoardType::Peripheral)));
    assert!(!p.add_board(board("OLED", BoardType::Peripheral)));
    assert_eq!(p.terminal_buffer, "project already contains that board\n");
    assert!(!p.add_board(board("OLED", BoardType::Discrete)));
    assert_eq!(p.boards.len(), 2);
    assert_eq!(p.boards[0].name, "Feather");
    assert_eq!(p.boards[1].name, "OLED");
}

#[test]
fn add_main_board_after_peripheral_is_accepted() {
    // The main board is only looked for in first place.
    let mut p = Project::default();
    assert!(p.add_board(board("LED", BoardType::Discrete)));
    assert!(p.add_board(board("Uno", BoardType::Main)));
    assert!(p.add_board(board("Uno", BoardType::Main)));
    assert_eq!(p.boards.len(), 3);
    assert!(!p.has_main_board());
}

#[test]
fn find_board_returns_first_of_name() {
    let v = vec![
        board("A", BoardType::Main),
        board("B", BoardType::Peripheral),
        board("B", BoardType::Discrete),
    ];
    assert_eq!(find_board(&v, "B"), Some(1));
    assert_eq!(find_board(&v, "C"), None);
}

#[test]
fn build_and_load_commands_need_a_folder() {
    let mut p = Project::default();
    assert!(p.build_command().is_none());
    assert_eq!(
        p.terminal_buffer,
        "project needs a valid working directory before building\n"
    );
    assert!(p.load_command().is_none());
    p.location = Some("/work/blinky".to_string());
    assert_eq!(
        p.build_command(),
        Some(strings(&["-Z", "unstable-options", "-C", "/work/blinky", "build"]))
    );
    assert_eq!(
        p.load_command(),
        Some(strings(&["-Z", "unstable-options", "-C", "/work/blinky", "run"]))
    );
    assert_eq!(cargo_in_folder("x", "add"), strings(&["-Z", "unstable-options", "-C", "x", "add"]));
}

#[test]
fn files_can_be_added_once_saved() {
    let mut p = Project::default();
    assert!(!p.can_add_files());
    assert_eq!(p.terminal_buffer, "must save project before adding files/directories\n");
    p.location = Some("/p".to_string());
    assert!(p.can_add_files());
    p.info_logger("done");
    assert_eq!(
        p.terminal_buffer,
        "must save project before adding files/directories\ndone\n"
    );
}

#[test]
fn cargo_template_needs_a_board() {
    let mut p = Project::default();
    p.name = "blinky".to_string();
    assert_eq!(
        p.cargo_template_command(),
        Err("The system needs a main board before generating the template!".to_string())
    );
    p.add_board(board("Feather", BoardType::Main));
    p.location = Some("/work".to_string());
    assert_eq!(
        p.cargo_template_command(),
        Ok(strings(&[
            "generate",
            "--path",
            "templates/basic/",
            "--name",
            "blinky",
            "--destination",
            "/work",
            "--init"
        ]))
    );
}

#[test]
fn crate_commands_per_board() {
    let mut p = Project::default();
    p.name = "blinky".to_string();
    let mut f = board("Feather", BoardType::Main);
    f.required_crates = Some(strings(&["rp2040-hal", "embedded-hal"]));
    p.add_board(f);
    p.add_board(board("LED", BoardType::Discrete));
    assert!(p.add_crates_commands().is_none());
    p.location = Some("/w".to_string());
    let cmds = p.add_crates_commands().expect("project has a folder");
    assert_eq!(
        cmds,
        vec![vec![
            strings(&["-Z", "unstable-options", "-C", "/w", "init", "--name", "blinky", "--vcs", "none"]),
            strings(&["-Z", "unstable-options", "-C", "/w", "add", "rp2040-hal"]),
            strings(&["-Z", "unstable-options", "-C", "/w", "add", "embedded-hal"]),
        ]]
    );
}

#[test]
fn board_resources_come_from_known_boards() {
    let mut p = Project::default();
    p.add_board(board("Feather", BoardType::Main));
    p.add_board(board("Unknown", BoardType::Peripheral));
    let mut known = board("Feather", BoardType::Main);
    known.manufacturer = "Adafruit".to_string();
    known.examples = strings(&["blink"]);
    let mut second = board("Feather", BoardType::Main);
    second.manufacturer = "Other".to_string();
    p.load_board_resources(vec![known, second]);
    assert_eq!(p.boards[0].manufacturer, "Adafruit");
    assert_eq!(p.boards[0].examples, strings(&["blink"]));
    assert_eq!(p.boards[1].manufacturer, "Maker");
}

#[test]
fn save_folder_with_a_project_is_refused() {
    let mut p = Project::default();
    assert!(!p.accept_save_folder("/old".to_string(), &strings(&["src", ".ironcoder.toml"])));
    assert!(p.location.is_none());
    assert_eq!(p.terminal_buffer, "beware of overwriting and existing project file!\n");
    assert!(p.accept_save_folder("/new".to_string(), &strings(&["src"])));
    assert_eq!(p.location, Some("/new".to_string()));
}

#[test]
fn windows_terminal_takes_prompt() {
    let mut p = Project::default();
    p.refresh_terminal(Shell::Windows, &strings(&["Microsoft Windows", "(c) corp", "C:\\dir> "]));
    assert_eq!(p.directory, "C:\\dir> ");
    assert_eq!(p.terminal_buffer, "C:\\dir> ");
    assert_eq!(p.persistant_buffer, "Microsoft Windows\n(c) corp");
    assert!(!p.update_directory);
    // The user types after the prompt; the same prompt keeps the line.
    p.terminal_buffer = "C:\\dir> cd src".to_string();
    p.refresh_terminal(Shell::Windows, &strings(&["C:\\dir> "]));
    assert_eq!(p.terminal_buffer, "C:\\dir> cd src");
    assert!(!p.update_directory);
    assert_eq!(p.persistant_buffer, "");
    // A new prompt is cut just after its mark and replaces the line.
    p.refresh_terminal(Shell::Windows, &strings(&["done", "C:\\dir\\src> x"]));
    assert_eq!(p.directory, "C:\\dir\\src> ");
    assert_eq!(p.terminal_buffer, "C:\\dir\\src> ");
    assert_eq!(p.persistant_buffer, "done");
}

#[test]
fn windows_terminal_submit_reads_command() {
    let mut p = Project::default();
    p.terminal_buffer = "C:\\dir> cd src".to_string();
    let cmd = p.submit_terminal_line(Shell::Windows);
    assert_eq!(cmd, " cd src");
    assert!(p.update_directory);
    assert!(p.terminal_buffer.is_empty());
    p.update_directory = false;
    p.terminal_buffer = "C:\\dir> dir".to_string();
    assert_eq!(p.submit_terminal_line(Shell::Windows), " dir");
    assert!(!p.update_directory);
    p.terminal_buffer = "xls".to_string();
    assert_eq!(p.submit_terminal_line(Shell::Windows), "ls");
}

#[test]
fn unix_terminal_prompt_from_directory_line() {
    let mut p = Project::default();
    p.refresh_terminal(Shell::Unix, &strings(&["total 0", "/home/me/"]));
    assert_eq!(p.directory, "home/me%");
    assert_eq!(p.terminal_buffer, "home/me%");
    assert_eq!(p.persistant_buffer, "total 0");
    p.terminal_buffer = "home/me% ls".to_string();
    assert_eq!(p.submit_terminal_line(Shell::Unix), " ls");
    assert!(!p.update_directory);
}

#[test]
fn terminal_without_output_keeps_state() {
    let mut p = Project::default();
    p.directory = "C:\\> ".to_string();
    p.terminal_buffer = "C".to_string();
    p.refresh_terminal(Shell::Windows, &Vec::new());
    // A line shorter than the prompt is reset to the prompt.
    assert_eq!(p.terminal_buffer, "C:\\> ");
    assert_eq!(p.persistant_buffer, "");
}

#[test]
fn node_ports_follow_board_kind() {
    let mapping = InterfaceMapping {
        interface: Interface { iface_type: InterfaceType::I2C, direction: InterfaceDirection::Bidirectional },
        pins: strings(&["SDA", "SCL"]),
    };
    let mut m = board("Feather", BoardType::Main);
    m.pinout = vec![mapping.clone()];
    let port = node_port(&m).expect("main board has a pinout");
    assert_eq!(port.kind, PortKind::Output);
    assert_eq!(port.name, "out");
    assert_eq!(port.interface.iface_type, InterfaceType::I2C);
    let mut s = board("OLED", BoardType::Peripheral);
    s.pinout = vec![mapping];
    let port = node_port(&s).expect("peripheral has a pinout");
    assert_eq!(port.kind, PortKind::Input);
    assert_eq!(port.name, "in");
    assert!(node_port(&board("Bare", BoardType::Main)).is_none());
    assert_eq!(node_label(&s), "OLED");
    assert_eq!(node_finder_category(), "category1: boards");
}

#[test]
fn start_development_needs_main_board_and_name() {
    let mut w = Warnings::default();
    let mut p = Project::default();
    assert!(!p.start_development_check(&mut w));
    assert!(w.display_mainboard_warning);
    let mut w = Warnings::default();
    p.add_board(board("Feather", BoardType::Main));
    assert!(!p.start_development_check(&mut w));
    assert!(w.display_unnamed_project_warning && !w.display_mainboard_warning);
    let mut w = Warnings::default();
    p.name = "my project".to_string();
    assert!(!p.start_development_check(&mut w));
    assert!(w.display_invalid_name_warning && !w.display_unnamed_project_warning);
    let mut w = Warnings::default();
    p.name = "my_project".to_string();
    assert!(p.start_development_check(&mut w));
    assert_eq!(w, Warnings::default());
}

#[test]
fn simulation_needs_an_stm32f4_main_board() {
    let mut s = System::default();
    s.main_board = Some(board("STM32F4 Discovery", BoardType::Main));
    assert!(s.can_simulate());
    s.main_board = Some(board("Feather", BoardType::Main));
    assert!(!s.can_simulate());
}

#[test]
fn project_clone_keeps_boards_and_system() {
    let mut p = Project::default();
    p.name = "blinky".to_string();
    p.location = Some("/w".to_string());
    p.add_board(board("Feather", BoardType::Main));
    let a = board("Feather", BoardType::Main);
    let b = board("OLED", BoardType::Peripheral);
    p.system.main_board = Some(a.clone());
    p.system.pin_clicked(&a, "SDA");
    p.system.pin_clicked(&b, "SDA");
    p.info_logger("hello");
    let c = p.clone();
    assert_eq!(c.name, "blinky");
    assert_eq!(c.location, Some("/w".to_string()));
    assert_eq!(c.boards.len(), 1);
    assert_eq!(c.system.connections.len(), 1);
    assert_eq!(c.system.connections[0].name, "connection_0");
    assert_eq!(c.terminal_buffer, "hello\n");
}

#[test]
fn simulator_loads_debug_build() {
    let mut p = Project::default();
    p.name = "blinky".to_string();
    assert_eq!(p.load_elf_command(), None);
    p.location = Some("/w/blinky".to_string());
    assert_eq!(
        p.load_elf_command(),
        Some("sysbus LoadELF @/w/blinky/target/thumbv7em-none-eabihf/debug/blinky".to_string())
    );
}

#[test]
fn added_boards_join_the_system_by_kind() {
    let mut p = Project::default();
    p.add_board(board("Feather", BoardType::Main));
    p.add_board(board("OLED", BoardType::Peripheral));
    p.add_board(board("LED", BoardType::Discrete));
    p.add_board(board("LED", BoardType::Discrete));
    assert_eq!(p.system.main_board.as_ref().map(|b| b.name.clone()), Some("Feather".to_string()));
    assert_eq!(p.system.peripheral_boards.len(), 1);
    assert_eq!(p.system.discrete_components.len(), 1);
    let all: Vec<String> = p.system.get_all_boards().iter().map(|b| b.name.clone()).collect();
    assert_eq!(all, vec!["Feather", "OLED", "LED"]);
}

#[test]
fn node_graph_names_interfaces() {
    assert_eq!(iron_coder::project::node_graph::interface_data_name(), "interface");
}

#[test]
fn cargo_template_from_main_board_template() {
    let mut p = Project::default();
    p.name = "blinky".to_string();
    p.location = Some("/work".to_string());
    let mut f = board("Feather", BoardType::Main);
    f.template_dir = Some("/boards/Adafruit/Feather_RP2040/template".to_string());
    p.add_board(f);
    let args = p.cargo_template_command().expect("a board is there");
    assert_eq!(args[2], "/boards/Adafruit/Feather_RP2040/template");
    let mut q = Project::default();
    q.add_board(board("LED", BoardType::Discrete));
    assert_eq!(q.cargo_template_command().expect("a board is there")[2], "templates/basic/");
}
