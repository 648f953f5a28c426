use iron_coder::board::parsing::BspParseInfo;
use iron_coder::board::pinout::{InterfaceDirection, InterfaceType};
use iron_coder::board::{Board, BoardType};
use iron_coder::project::system::{System, SystemError};

fn board(name: &str, board_type: BoardType) -> Board {
    Board::new(
        name.to_string(),
        "Maker".to_string(),
        board_type,
        None,
        None,
        None,
        None,
        Vec::new(),
        None,
        None,
        None,
    )
}

fn with_crate(name: &str, board_type: BoardType, krate: &str) -> Board {
    let mut b = board(name, board_type);
    let mut info = BspParseInfo::default();
    info.bsp_crate_identifier = Some(krate.to_string());
    b.bsp_parse_info = Some(info);
    b
}

fn names(v: &[Board]) -> Vec<String> {
    v.iter().map(|b| b.name.clone()).collect()
}

#[test]
fn all_boards_need_a_main_board() {
    let mut s = System::default();
    s.peripheral_boards.push(board("OLED", BoardType::Peripheral));
    assert!(s.get_all_boards().is_empty());
    s.main_board = Some(board("Feather", BoardType::Main));
    s.peripheral_boards.push(board("LED", BoardType::Discrete));
    assert_eq!(names(&s.get_all_boards()), vec!["Feather", "OLED", "LED"]);
}

#[test]
fn pin_clicks_draw_named_connections() {
    let mut s = System::default();
    let a = board("Feather", BoardType::Main);
    let b = board("OLED", BoardType::Peripheral);
    assert!(!s.pin_clicked(&a, "SDA"));
    assert!(s.connections.is_empty());
    assert!(s.pin_clicked(&b, "SDA"));
    assert!(s.in_progress_connection_start.is_none());
    assert_eq!(s.connections.len(), 1);
    let c = &s.connections[0];
    assert_eq!(c.name, "connection_0");
    assert_eq!(c.start_board.name, "Feather");
    assert_eq!(c.start_pin, "SDA");
    assert_eq!(c.end_board.name, "OLED");
    assert_eq!(c.end_pin, "SDA");
    assert!(c.interface_mapping.pins.is_empty());
    assert_eq!(c.interface_mapping.interface.iface_type, InterfaceType::NONE);
    assert_eq!(c.interface_mapping.interface.direction, InterfaceDirection::Unknown);
    assert!(!s.pin_clicked(&b, "SCL"));
    assert!(s.pin_clicked(&a, "SCL"));
    assert_eq!(s.connections[1].name, "connection_1");
}

#[test]
fn cancel_connection_forgets_first_click() {
    let mut s = System::default();
    let a = board("Feather", BoardType::Main);
    assert!(!s.pin_clicked(&a, "D1"));
    s.cancel_connection();
    assert!(s.in_progress_connection_start.is_none());
    assert!(!s.pin_clicked(&a, "D2"));
    assert!(s.connections.is_empty());
}

#[test]
fn delete_connection_by_name() {
    let mut s = System::default();
    let a = board("Feather", BoardType::Main);
    let b = board("OLED", BoardType::Peripheral);
    s.pin_clicked(&a, "1");
    s.pin_clicked(&b, "1");
    s.pin_clicked(&a, "2");
    s.pin_clicked(&b, "2");
    s.delete_connection("connection_0");
    assert_eq!(s.connections.len(), 1);
    assert_eq!(s.connections[0].name, "connection_1");
    s.delete_connection("connection_9");
    assert_eq!(s.connections.len(), 1);
}

#[test]
fn remove_board_removes_its_connections() {
    let mut s = System::default();
    let a = board("Feather", BoardType::Main);
    let b = board("OLED", BoardType::Peripheral);
    let c = board("LED", BoardType::Discrete);
    s.main_board = Some(a.clone());
    s.peripheral_boards.push(b.clone());
    s.peripheral_boards.push(c.clone());
    s.pin_clicked(&a, "1");
    s.pin_clicked(&b, "1");
    s.pin_clicked(&a, "2");
    s.pin_clicked(&c, "2");
    assert_eq!(s.remove_board(b.clone()), Ok(()));
    assert_eq!(names(&s.peripheral_boards), vec!["LED"]);
    assert_eq!(s.connections.len(), 1);
    assert_eq!(s.connections[0].end_board.name, "LED");
    assert_eq!(s.remove_board(b), Err(SystemError::BoardNotInSystemError));
    assert_eq!(s.remove_board(a), Ok(()));
    assert!(s.main_board.is_none());
    assert!(s.connections.is_empty());
    assert_eq!(names(&s.peripheral_boards), vec!["LED"]);
}

#[test]
fn required_crates_once_each_in_order() {
    let mut s = System::default();
    let a = with_crate("Feather", BoardType::Main, "feather_rp2040");
    let b = with_crate("OLED", BoardType::Peripheral, "oled_bsp");
    let c = board("LED", BoardType::Discrete);
    s.pin_clicked(&a, "1");
    s.pin_clicked(&b, "1");
    s.pin_clicked(&c, "2");
    s.pin_clicked(&a, "2");
    assert_eq!(s.required_bsp_crates(), vec!["feather_rp2040".to_string(), "oled_bsp".to_string()]);
    assert_eq!(
        s.system_module_source(),
        "use feather_rp2040;\nuse oled_bsp;\npub struct System {}\nimpl System {\n    pub fn new() -> Self {\n        Self {}\n    }\n}\n"
    );
}

#[test]
fn generated_module_is_formatted() {
    let mut s = System::default();
    let a = with_crate("Feather", BoardType::Main, "feather_rp2040");
    let b = board("OLED", BoardType::Peripheral);
    s.pin_clicked(&a, "1");
    s.pin_clicked(&b, "1");
    let code = s.generate_system_module();
    assert!(code.starts_with("use feather_rp2040;\n"));
    assert!(code.contains("pub struct System {}"));
    assert!(code.contains("impl System {"));
    assert!(code.contains("pub fn new() -> Self"));
    let empty = System::default().generate_system_module();
    assert!(!empty.contains("use "));
    assert!(empty.contains("pub struct System {}"));
}

#[test]
fn generated_module_falls_back_when_source_does_not_parse() {
    let mut s = System::default();
    let a = with_crate("Feather", BoardType::Main, "1 not an ident");
    let b = board("OLED", BoardType::Peripheral);
    s.pin_clicked(&a, "1");
    s.pin_clicked(&b, "1");
    let code = s.generate_system_module();
    assert!(!code.contains("System"));
}

#[test]
fn discrete_components_are_listed_last_and_removable() {
    let mut s = System::default();
    s.main_board = Some(board("Feather", BoardType::Main));
    s.discrete_components.push(board("LED", BoardType::Discrete));
    s.peripheral_boards.push(board("OLED", BoardType::Peripheral));
    assert_eq!(names(&s.get_all_boards()), vec!["Feather", "OLED", "LED"]);
    assert_eq!(s.remove_board(board("LED", BoardType::Discrete)), Ok(()));
    assert!(s.discrete_components.is_empty());
    assert_eq!(names(&s.peripheral_boards), vec!["OLED"]);
}

#[test]
fn generated_module_falls_back_for_unparsable_plain_name() {
    let mut s = System::default();
    let a = with_crate("Feather", BoardType::Main, "1abc");
    let b = board("OLED", BoardType::Peripheral);
    s.pin_clicked(&a, "1");
    s.pin_clicked(&b, "1");
    assert!(!s.generate_system_module().contains("System"));
}

#[test]
fn generated_module_accepts_non_english_crate_names() {
    let mut s = System::default();
    let a = with_crate("Feather", BoardType::Main, "café_hal");
    let b = board("OLED", BoardType::Peripheral);
    s.pin_clicked(&a, "1");
    s.pin_clicked(&b, "1");
    let code = s.generate_system_module();
    assert!(code.starts_with("use café_hal;\n"));
    assert!(code.contains("pub struct System {}"));
}
