use iron_coder::app::carry_out_shortcut;
use iron_coder::project::Project;
use iron_coder::app::{mode_after, shortcut_action, Shortcut, ShortcutAction};
use iron_coder::text::{contains_white_space, is_whitespace};
use iron_coder::app::code_editor::{as_byte_range, CodeTabs};
use iron_coder::app::{IronCoderOptions, Mode, Warnings};
use iron_coder::serial_monitor::{choose_device, device_choice_feedback, epoch_ms_of, offer_ports, plot_label, SerialDevices, WindowFeedback, csv_header, dataset_step, get_epoch_ms, payload_fields, raw_csv_header, raw_file_name, DatasetStep, SerialDirection};
use iron_coder::text::{
    first_index_of, i32_to_string, replace_str, str_eq, sub_string, to_ascii_lowercase, trim,
    usize_to_string, contains_str,
};

fn tabs(paths: &[&str], active: Option<usize>) -> CodeTabs<u8> {
    let mut t = CodeTabs::new();
    for p in paths {
        t.push_tab(p.to_string(), 0);
    }
    t.active_tab = active;
    t
}

fn tab_names(t: &CodeTabs<u8>) -> Vec<String> {
    t.tabs.iter().map(|(p, _)| p.clone()).collect()
}

#[test]
fn options_persistence_defaults_on() {
    let mut o = IronCoderOptions::default();
    assert!(o.restores_state());
    o.persistence = Some(false);
    assert!(!o.restores_state());
    o.persistence = Some(true);
    assert!(o.restores_state());
    let w = Warnings::default();
    assert!(!w.display_mainboard_warning && !w.display_unsaved_tab_warning);
    assert_ne!(Mode::EditProject, Mode::DevelopProject);
}

#[test]
fn close_active_tab_selects_neighbour() {
    let mut t = tabs(&["a.rs", "b.rs", "c.rs"], Some(1));
    t.close_tab(1);
    assert_eq!(tab_names(&t), vec!["a.rs", "c.rs"]);
    assert_eq!(t.get_active_tab(), Some(1));
    t.close_tab(1);
    assert_eq!(tab_names(&t), vec!["a.rs"]);
    assert_eq!(t.get_active_tab(), Some(0));
    t.close_tab(0);
    assert!(t.tabs.is_empty());
    assert_eq!(t.get_active_tab(), None);
    t.close_tab(0);
    assert_eq!(t.get_active_tab(), None);
}

#[test]
fn close_other_tab_keeps_active_file() {
    let mut t = tabs(&["a.rs", "b.rs", "c.rs"], Some(2));
    t.close_tab(0);
    assert_eq!(t.get_active_tab(), Some(1));
    assert_eq!(t.tabs[1].0, "c.rs");
    let mut u = tabs(&["a.rs", "b.rs", "c.rs"], Some(0));
    u.close_tab(2);
    assert_eq!(u.get_active_tab(), Some(0));
}

#[test]
fn find_select_and_close_all_tabs() {
    let mut t = tabs(&["a.rs", "b.rs"], Some(1));
    assert_eq!(t.find_tab("a.rs"), Some(0));
    assert_eq!(t.find_tab("z.rs"), None);
    t.select_tab(0);
    assert_eq!(t.get_active_tab(), Some(0));
    t.close_all_tabs();
    assert!(t.tabs.is_empty());
    assert_eq!(t.get_active_tab(), None);
}

#[test]
fn byte_range_of_a_piece() {
    let r = as_byte_range(100, 20, 105, 3);
    assert_eq!(r, 5..8);
    let text = "hello world";
    let piece = &text[6..11];
    let r = as_byte_range(text.as_ptr() as usize, text.len(), piece.as_ptr() as usize, piece.len());
    assert_eq!(&text[r], "world");
}

#[test]
fn raw_traffic_file_name() {
    assert_eq!(raw_file_name("data.csv"), "dataraw.csv");
    assert_eq!(raw_file_name("log"), "lograw.csv");
    assert_eq!(SerialDirection::Send.to_string(), "SEND");
    assert_eq!(SerialDirection::Receive.to_string(), "RECV");
}

#[test]
fn epoch_ms_is_after_2020() {
    assert!(get_epoch_ms() > 1_577_836_800_000);
}

#[test]
fn text_helpers() {
    assert_eq!(trim("  a b \n"), "a b");
    assert_eq!(replace_str("a-b-c", "-", "_"), "a_b_c");
    assert_eq!(replace_str("aaa", "aa", "b"), "ba");
    assert!(contains_str("hello", "ell"));
    assert!(!contains_str("hello", "elo"));
    assert!(contains_str("x", ""));
    assert_eq!(i32_to_string(-42), "-42");
    assert_eq!(i32_to_string(i32::MIN), "-2147483648");
    assert_eq!(usize_to_string(0), "0");
    assert_eq!(to_ascii_lowercase("ÀBc"), "Àbc");
    assert!(str_eq("ab", "ab") && !str_eq("ab", "a"));
    let v: Vec<char> = "a>b>c".chars().collect();
    assert_eq!(first_index_of(&v, '>'), Some(1));
    assert_eq!(first_index_of(&v, '%'), None);
    assert_eq!(sub_string(&v, 2, 5), "b>c");
}

#[test]
fn shortcuts_depend_on_mode() {
    assert_eq!(shortcut_action(Mode::EditProject, Shortcut::Save, None), ShortcutAction::SaveProject);
    assert_eq!(shortcut_action(Mode::EditProject, Shortcut::Quit, None), ShortcutAction::CloseWindow);
    assert_eq!(shortcut_action(Mode::EditProject, Shortcut::NewProject, None), ShortcutAction::Nothing);
    assert_eq!(
        shortcut_action(Mode::DevelopProject, Shortcut::NewProject, None),
        ShortcutAction::ResetProject
    );
    assert_eq!(
        shortcut_action(Mode::DevelopProject, Shortcut::CloseTab, Some(2)),
        ShortcutAction::CloseActiveTab(2)
    );
    assert_eq!(shortcut_action(Mode::DevelopProject, Shortcut::CloseTab, None), ShortcutAction::Nothing);
    assert_eq!(mode_after(Mode::EditProject, ShortcutAction::OpenProject, true), Mode::DevelopProject);
    assert_eq!(mode_after(Mode::EditProject, ShortcutAction::OpenProject, false), Mode::EditProject);
    assert_eq!(mode_after(Mode::DevelopProject, ShortcutAction::ResetProject, true), Mode::EditProject);
    assert_eq!(mode_after(Mode::DevelopProject, ShortcutAction::SaveProject, true), Mode::DevelopProject);
}

#[test]
fn white_space_in_names() {
    assert!(contains_white_space("a b"));
    assert!(contains_white_space("tab\there"));
    assert!(contains_white_space("nbsp\u{00A0}"));
    assert!(!contains_white_space("a_b"));
    assert!(!contains_white_space(""));
}

#[test]
fn white_space_matches_std_for_every_char() {
    for u in 0u32..=0x10FFFF {
        if let Some(c) = char::from_u32(u) {
            assert_eq!(is_whitespace(c), c.is_whitespace(), "U+{:04X}", u);
        }
    }
}

#[test]
fn csv_headers() {
    assert_eq!(
        csv_header(&vec!["temp".to_string(), "hum".to_string()]),
        vec!["Time [ms]".to_string(), "temp".to_string(), "hum".to_string()]
    );
    assert_eq!(csv_header(&Vec::new()), vec!["Time [ms]".to_string()]);
    assert_eq!(
        raw_csv_header(),
        vec!["Time [ms]".to_string(), "Abs Time [ms]".to_string(), "Raw Traffic".to_string()]
    );
}

#[test]
fn payload_fields_split_on_colons_and_commas() {
    assert_eq!(payload_fields("t: 1.5, 2 ,3"), vec!["t", "1.5", "2", "3"]);
    assert_eq!(payload_fields(""), vec![""]);
    assert_eq!(payload_fields("a,,b:"), vec!["a", "", "b", ""]);
    let values: Vec<f32> = payload_fields("x:1, 2.5,bad")
        .iter()
        .flat_map(|f| f.parse::<f32>())
        .collect();
    assert_eq!(values, vec![1.0, 2.5]);
}

#[test]
fn dataset_steps() {
    assert_eq!(dataset_step(0, 0, 0, 0, 3), (DatasetStep::Reset { columns: 3 }, 0));
    assert_eq!(dataset_step(0, 0, 0, 0, 0), (DatasetStep::Reset { columns: 1 }, 0));
    assert_eq!(dataset_step(3, 5, 5, 2, 3), (DatasetStep::Append, 0));
    assert_eq!(dataset_step(3, 4, 5, 2, 3), (DatasetStep::AppendThenReset { columns: 3 }, 0));
    assert_eq!(dataset_step(3, 5, 5, 2, 2), (DatasetStep::Mismatch, 3));
    assert_eq!(dataset_step(3, 5, 5, 10, 2), (DatasetStep::Mismatch, 11));
    assert_eq!(dataset_step(3, 5, 5, 11, 2), (DatasetStep::Reset { columns: 2 }, 0));
}

#[test]
fn opening_an_open_file_selects_its_tab() {
    let mut t = tabs(&["a.rs", "b.rs"], Some(1));
    assert!(t.activate_if_open("a.rs"));
    assert_eq!(t.get_active_tab(), Some(0));
    assert!(!t.activate_if_open("c.rs"));
    assert_eq!(t.get_active_tab(), Some(0));
    t.push_tab("c.rs".to_string(), 0);
    assert_eq!(t.get_active_tab(), Some(2));
}

#[test]
fn epoch_milliseconds_from_elapsed_time() {
    assert_eq!(epoch_ms_of(Some((1_700_000_000, 999_999_999))), 1_700_000_000_999);
    assert_eq!(epoch_ms_of(Some((2, 1_500_000))), 2_001);
    assert_eq!(epoch_ms_of(None), 0);
}

#[test]
fn opening_selects_first_tab_of_the_file() {
    let mut t = tabs(&["a.rs", "b.rs", "a.rs"], Some(1));
    assert!(t.activate_if_open("a.rs"));
    assert_eq!(t.get_active_tab(), Some(0));
}

#[test]
fn choosing_serial_devices() {
    let mut d = SerialDevices { names: vec![], number_of_plots: vec![], labels: vec![] };
    assert_eq!(choose_device(&mut d, "/dev/ttyUSB0"), 0);
    assert_eq!(d.names, vec!["/dev/ttyUSB0".to_string()]);
    assert_eq!(d.number_of_plots, vec![1]);
    assert_eq!(d.labels, vec![vec!["Dataset 1".to_string()]]);
    assert_eq!(choose_device(&mut d, "COM3"), 1);
    assert_eq!(choose_device(&mut d, "/dev/ttyUSB0"), 0);
    assert_eq!(d.names.len(), 2);
    assert_eq!(device_choice_feedback("a", "a", true), WindowFeedback::NoFeedback);
    assert_eq!(device_choice_feedback("a", "b", true), WindowFeedback::Waiting);
    assert_eq!(device_choice_feedback("a", "b", false), WindowFeedback::Clear);
}

#[test]
fn offered_ports_and_plot_labels() {
    let ports = vec!["/dev/tty.usbmodem1".to_string(), "/dev/cu.usbmodem1".to_string(), "COM4".to_string()];
    assert_eq!(
        offer_ports(&ports),
        vec![
            ("/dev/tty.usbmodem1".to_string(), "usbmodem1".to_string()),
            ("COM4".to_string(), "COM4".to_string())
        ]
    );
    assert_eq!(plot_label(0), ("Dataset 1".to_string(), 0));
    assert_eq!(plot_label(11), ("Dataset 12".to_string(), 1));
}

#[test]
fn shortcuts_carried_out() {
    let mut p = Project::default();
    p.name = "blinky".to_string();
    let mut t = tabs(&["a.rs", "b.rs"], Some(1));
    carry_out_shortcut(ShortcutAction::SaveProject, &mut p, &mut t);
    assert_eq!(p.name, "blinky");
    assert_eq!(t.tabs.len(), 2);
    carry_out_shortcut(ShortcutAction::CloseActiveTab(1), &mut p, &mut t);
    assert_eq!(tab_names(&t), vec!["a.rs"]);
    assert_eq!(t.get_active_tab(), Some(0));
    carry_out_shortcut(ShortcutAction::ResetProject, &mut p, &mut t);
    assert!(p.name.is_empty());
    assert_eq!(t.tabs.len(), 1);
}
