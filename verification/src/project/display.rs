//! What the project window shows, and the decisions behind its forms: the
//! simulator script, the checks of the new-board form and the files of a
//! new board.

use vstd::prelude::*;

use crate::board::{Board, BoardType, opt_str_view};
use crate::board::toml_info::BoardTomlInfo;
use crate::text::{replace_all, replace_str, lowercase_of, to_lowercase, trimmed, trim,
    contains_seq, contains_str, strs, contains_string, opt_text};

verus! {

/// What the project's side pane shows.
#[derive(Debug)]
pub enum ProjectViewType {
    BoardsView,
    FileTree,
    CrateView(String),
}

impl Clone for ProjectViewType {
    fn clone(&self) -> (r: Self)
        ensures
            r == *self,
    {
        match self {
            ProjectViewType::BoardsView => ProjectViewType::BoardsView,
            ProjectViewType::FileTree => ProjectViewType::FileTree,
            ProjectViewType::CrateView(c) => ProjectViewType::CrateView(c.clone()),
        }
    }
}

/// What the project's bottom pane shows.
#[derive(Clone, Copy, Debug, PartialEq, Eq, Structural)]
pub enum BottomPaneViewType {
    TerminalView,
    OuputView,
    SimulatorView,
}

/// The Renode script that loads the given ELF file into an STM32F4
/// discovery-kit machine, runs it, and logs its peripherals.
pub open spec fn renode_script_text(elf_path: Seq<char>) -> Seq<char> {
    "# Renode script for ELF file\nusing sysbus\nmach create\nmachine LoadPlatformDescription @platforms/boards/stm32f4_discovery-kit.repl\ncpu PerformanceInMips 125\nmacro reset\n\"\"\"\nsysbus LoadELF $CWD/"@
        + elf_path
        + "\n\"\"\"\nrunMacro $reset\nlogFile $ORIGIN/output.txt\nshowAnalyzer sysbus.usart2\nstart\n# New Testing for obtaining peripherals\nlogLevel -1 gpioPortD\nperipherals\nlogFile $ORIGIN/../../logs/output.txt\n# Simulation ends\n"@
}

/// The text of the Renode script for an ELF file.
pub fn renode_script(elf_path: &str) -> (r: String)
    ensures
        r@ == renode_script_text(elf_path@),
{
    let mut s = String::from_str(
        "# Renode script for ELF file\nusing sysbus\nmach create\nmachine LoadPlatformDescription @platforms/boards/stm32f4_discovery-kit.repl\ncpu PerformanceInMips 125\nmacro reset\n\"\"\"\nsysbus LoadELF $CWD/",
    );
    s.append(elf_path);
    s.append(
        "\n\"\"\"\nrunMacro $reset\nlogFile $ORIGIN/output.txt\nshowAnalyzer sysbus.usart2\nstart\n# New Testing for obtaining peripherals\nlogLevel -1 gpioPortD\nperipherals\nlogFile $ORIGIN/../../logs/output.txt\n# Simulation ends\n",
    );
    s
}

/// The string that a TOML document holds at a path of keys, each key naming
/// an entry of the table reached so far; none when the text is not a TOML
/// document, a key is missing or leads to no table, or the entry reached is
/// not a string.
pub uninterp spec fn toml_string_at(content: Seq<char>, path: Seq<Seq<char>>) -> Option<Seq<char>>;

/// Reads a string out of a TOML document: parses the text as a document with
/// toml's `Value::from_str`, follows the keys with `Value::get` and takes the
/// string with `Value::as_str`. The result is named `toml_string_at` of the
/// text and the keys; what toml accepts as a document is not stated here.
#[verifier::external_body]
fn lookup_toml_string(content: &str, path: &[&str]) -> (r: Option<String>)
    ensures
        opt_str_view(r) == toml_string_at(content@, path@.map_values(|k: &str| k@)),
{
    let doc: toml::Value = content.parse().ok()?;
    let mut at: &toml::Value = &doc;
    for key in path {
        at = at.get(*key)?;
    }
    at.as_str().map(|s| s.to_string())
}

/// The target that projects are built for when their configuration names
/// none.
pub open spec fn default_target() -> Seq<char> {
    "thumbv6m-none-eabi"@
}

/// The package name that a project's `Cargo.toml` declares.
pub fn package_name(cargo_toml: &str) -> (r: Option<String>)
    ensures
        opt_str_view(r) == toml_string_at(cargo_toml@, seq!["package"@, "name"@]),
{
    let r = lookup_toml_string(cargo_toml, &["package", "name"]);
    proof {
        let keys: Seq<&str> = seq!["package", "name"];
        assert(keys.map_values(|k: &str| k@) =~= seq!["package"@, "name"@]);
    }
    r
}

/// The build target a project names: in its `.cargo/config.toml` when there
/// is one (and then only there), else in the metadata of its `Cargo.toml`.
pub open spec fn build_target_of(config: Option<Seq<char>>, cargo_toml: Option<Seq<char>>) -> Option<
    Seq<char>,
> {
    match config {
        Some(c) => toml_string_at(c, seq!["build"@, "target"@]),
        None => match cargo_toml {
            Some(t) => toml_string_at(t, seq!["package"@, "metadata"@, "build-target"@]),
            None => None,
        },
    }
}

/// The build target of a project, from the text of its `.cargo/config.toml`
/// and of its `Cargo.toml`, each given when the file exists.
pub fn project_build_target(config: Option<&str>, cargo_toml: Option<&str>) -> (r: Option<String>)
    ensures
        opt_str_view(r) == build_target_of(opt_text(config), opt_text(cargo_toml)),
{
    match config {
        Some(c) => {
            let r = lookup_toml_string(c, &["build", "target"]);
            proof {
                let keys: Seq<&str> = seq!["build", "target"];
                assert(keys.map_values(|k: &str| k@) =~= seq!["build"@, "target"@]);
            }
            r
        },
        None => match cargo_toml {
            Some(t) => {
                let r = lookup_toml_string(t, &["package", "metadata", "build-target"]);
                proof {
                    let keys: Seq<&str> = seq!["package", "metadata", "build-target"];
                    assert(keys.map_values(|k: &str| k@) =~= seq![
                        "package"@,
                        "metadata"@,
                        "build-target"@,
                    ]);
                }
                r
            },
            None => None,
        },
    }
}

/// The folder, relative to the project, where the debug build for a target
/// is placed.
pub open spec fn debug_dir_of(target: Seq<char>) -> Seq<char> {
    "target/"@ + target + "/debug"@
}

/// The folder where the ELF file of a project's debug build is looked for:
/// that of the project's build target, or of the default target when the
/// project names none.
pub fn elf_debug_dir(config: Option<&str>, cargo_toml: Option<&str>) -> (r: String)
    ensures
        r@ == debug_dir_of(
            match build_target_of(opt_text(config), opt_text(cargo_toml)) {
                Some(t) => t,
                None => default_target(),
            },
        ),
{
    let target = match project_build_target(config, cargo_toml) {
        Some(t) => t,
        None => String::from_str("thumbv6m-none-eabi"),
    };
    let mut r = String::from_str("target/");
    r.append(target.as_str());
    r.append("/debug");
    r
}

/// A board name as the new-board form compares it: lower case, without
/// spaces, without surrounding white space.
pub open spec fn normalized_name(name: Seq<char>) -> Seq<char> {
    trimmed(replace_all(lowercase_of(name), " "@, ""@))
}

/// Puts a board name in the form the new-board form compares.
pub fn normalize_name(name: &str) -> (r: String)
    ensures
        r@ == normalized_name(name@),
{
    proof {
        reveal_strlit(" ");
    }
    let l = to_lowercase(name);
    let n = replace_str(l.as_str(), " ", "");
    trim(n.as_str())
}

/// Which fields of the new-board form need the user's attention.
#[derive(Clone, Copy, Debug, PartialEq, Eq, Structural)]
pub struct FormCheck {
    /// A known board has the same name, up to case, spaces and surrounding
    /// white space.
    pub name_duplicated: bool,
    pub name_required: bool,
    pub manufacturer_required: bool,
    pub standard_required: bool,
    /// A main board needs a cpu.
    pub cpu_required: bool,
    /// A main board needs a non-zero flash size.
    pub flash_required: bool,
    /// A main board needs a non-zero RAM size.
    pub ram_required: bool,
    /// No required crate may be left empty.
    pub req_crates_required: bool,
    /// No related crate may be left empty.
    pub rel_crates_required: bool,
}

impl FormCheck {
    /// The form may move on when no field needs attention.
    pub open spec fn passes(self) -> bool {
        !self.name_duplicated && !self.name_required && !self.manufacturer_required
            && !self.standard_required && !self.cpu_required && !self.flash_required
            && !self.ram_required && !self.req_crates_required && !self.rel_crates_required
    }

    /// Whether the form may move on.
    pub fn is_valid(&self) -> (r: bool)
        ensures
            r == self.passes(),
    {
        !self.name_duplicated && !self.name_required && !self.manufacturer_required
            && !self.standard_required && !self.cpu_required && !self.flash_required
            && !self.ram_required && !self.req_crates_required && !self.rel_crates_required
    }
}

/// Whether the pinout of a new board still needs its pins: no pin is named,
/// a pin name is left empty, or no pin is marked on the image.
pub open spec fn pins_missing_of(pin_names: Seq<Seq<char>>, marked_pins: nat) -> bool {
    pin_names.len() == 0 || pin_names.contains(Seq::empty()) || marked_pins == 0
}

/// Checks the pinout of a new board before it is generated, given the pin
/// names entered and the number of pins marked on its image.
pub fn pins_missing(pin_names: &Vec<String>, marked_pins: usize) -> (r: bool)
    ensures
        r == pins_missing_of(strs(pin_names@), marked_pins as nat),
{
    proof {
        reveal_strlit("");
        assert(""@ =~= Seq::<char>::empty());
        assert(strs(pin_names@).len() == pin_names@.len());
    }
    pin_names.len() == 0 || marked_pins == 0 || contains_string(pin_names, "")
}

impl FormCheck {
    /// No field needs attention: the state of the form once its messages
    /// are cleared.
    pub fn cleared() -> (r: FormCheck)
        ensures
            r.passes(),
    {
        FormCheck {
            name_duplicated: false,
            name_required: false,
            manufacturer_required: false,
            standard_required: false,
            cpu_required: false,
            flash_required: false,
            ram_required: false,
            req_crates_required: false,
            rel_crates_required: false,
        }
    }
}

/// The windows of the new-board flow that are open, and whether the known
/// boards are to be read again.
#[derive(Clone, Copy, Debug, PartialEq, Eq, Structural)]
pub struct NewBoardFlags {
    /// The form of the new board's general information.
    pub generate_window: bool,
    /// The window in which the pins are marked on the board's image.
    pub pinout_window: bool,
    /// The message that the board was created.
    pub confirmation_window: bool,
    /// The message that saving the board failed.
    pub failure_window: bool,
    /// The known boards are to be read again from the boards directory.
    pub reload_boards: bool,
}

/// What happens in the new-board flow.
#[derive(Clone, Copy, Debug, PartialEq, Eq, Structural)]
pub enum NewBoardEvent {
    /// "Generate New Board" was chosen in the list of known boards.
    GenerateRequested,
    /// The general form was closed.
    GenerateClosed,
    /// The general form passed its checks and the board's image was read.
    ImageChosen,
    /// The pinout window was closed.
    PinoutClosed,
    /// The pins were marked and the board saved; `failed` when a file could
    /// not be written.
    BoardSaved { failed: bool },
    ConfirmationClosed,
    FailureClosed,
    /// The known boards were read again.
    BoardsReloaded,
}

/// The flags after an event of the new-board flow.
pub open spec fn new_board_next(f: NewBoardFlags, e: NewBoardEvent) -> NewBoardFlags {
    match e {
        NewBoardEvent::GenerateRequested => NewBoardFlags { generate_window: true, ..f },
        NewBoardEvent::GenerateClosed => NewBoardFlags { generate_window: false, ..f },
        NewBoardEvent::ImageChosen => NewBoardFlags { pinout_window: true, ..f },
        NewBoardEvent::PinoutClosed => NewBoardFlags { pinout_window: false, ..f },
        NewBoardEvent::BoardSaved { failed } => NewBoardFlags {
            pinout_window: false,
            confirmation_window: true,
            reload_boards: true,
            failure_window: f.failure_window || failed,
            ..f
        },
        NewBoardEvent::ConfirmationClosed => NewBoardFlags { confirmation_window: false, ..f },
        NewBoardEvent::FailureClosed => NewBoardFlags { failure_window: false, ..f },
        NewBoardEvent::BoardsReloaded => NewBoardFlags { reload_boards: false, ..f },
    }
}

/// Applies an event of the new-board flow.
pub fn new_board_step(f: NewBoardFlags, e: NewBoardEvent) -> (r: NewBoardFlags)
    ensures
        r == new_board_next(f, e),
{
    match e {
        NewBoardEvent::GenerateRequested => NewBoardFlags { generate_window: true, ..f },
        NewBoardEvent::GenerateClosed => NewBoardFlags { generate_window: false, ..f },
        NewBoardEvent::ImageChosen => NewBoardFlags { pinout_window: true, ..f },
        NewBoardEvent::PinoutClosed => NewBoardFlags { pinout_window: false, ..f },
        NewBoardEvent::BoardSaved { failed } => NewBoardFlags {
            pinout_window: false,
            confirmation_window: true,
            reload_boards: true,
            failure_window: f.failure_window || failed,
            ..f
        },
        NewBoardEvent::ConfirmationClosed => NewBoardFlags { confirmation_window: false, ..f },
        NewBoardEvent::FailureClosed => NewBoardFlags { failure_window: false, ..f },
        NewBoardEvent::BoardsReloaded => NewBoardFlags { reload_boards: false, ..f },
    }
}

/// What the project editor shows in a frame.
#[derive(Clone, Copy, Debug, PartialEq, Eq, Structural)]
pub struct EditorFrame {
    /// The new-board panel replaces the hardware editor.
    pub new_board_panel: bool,
    pub show_generate_form: bool,
    pub show_pinout_window: bool,
    pub show_confirmation: bool,
    pub show_failure: bool,
    /// The known boards are read again in this frame.
    pub reload_boards: bool,
}

/// The frame of the project editor for the flags of the new-board flow:
/// the new-board panel is shown while the form, the pinout window or the
/// confirmation is open; the pinout window closes the form; the failure
/// message takes the place of the confirmation; the boards are read again
/// when asked.
pub open spec fn editor_frame_of(f: NewBoardFlags) -> EditorFrame {
    let panel = f.generate_window || f.pinout_window || f.confirmation_window;
    EditorFrame {
        new_board_panel: panel,
        show_generate_form: panel && f.generate_window && !f.pinout_window,
        show_pinout_window: panel && f.pinout_window,
        show_confirmation: panel && f.confirmation_window && !f.failure_window,
        show_failure: panel && f.failure_window,
        reload_boards: panel && f.reload_boards,
    }
}

/// Decides what the project editor shows in a frame, and the flags after it
/// (the form closes once the pinout window is open).
pub fn project_editor_frame(f: NewBoardFlags) -> (r: (EditorFrame, NewBoardFlags))
    ensures
        r.0 == editor_frame_of(f),
        r.1 == (if editor_frame_of(f).show_pinout_window {
            NewBoardFlags { generate_window: false, ..f }
        } else {
            f
        }),
{
    let panel = f.generate_window || f.pinout_window || f.confirmation_window;
    let frame = EditorFrame {
        new_board_panel: panel,
        show_generate_form: panel && f.generate_window && !f.pinout_window,
        show_pinout_window: panel && f.pinout_window,
        show_confirmation: panel && f.confirmation_window && !f.failure_window,
        show_failure: panel && f.failure_window,
        reload_boards: panel && f.reload_boards,
    };
    let after = if frame.show_pinout_window {
        NewBoardFlags { generate_window: false, ..f }
    } else {
        f
    };
    (frame, after)
}

/// Whether the entered information of a new board is blank, as the form
/// starts.
pub open spec fn blank_info(i: BoardTomlInfo) -> bool {
    &&& i.name@.len() == 0
    &&& i.manufacturer@.len() == 0
    &&& i.board_type == BoardType::Main
    &&& i.standard@.len() == 0
    &&& i.cpu@.len() == 0
    &&& i.ram == 0
    &&& i.flash == 0
    &&& i.required_crates@.len() == 0
    &&& i.related_crates@.len() == 0
    &&& i.bsp@.len() == 0
    &&& i.pinouts@.len() == 0
}

/// What the new-board windows hold while a board is being made: the entered
/// information, the flags of its checks, the board's image and the names of
/// the pins marked on it.
#[derive(Debug)]
pub struct NewBoardForm {
    pub info: BoardTomlInfo,
    pub checks: FormCheck,
    pub svg: String,
    pub pin_names: Vec<String>,
}

impl NewBoardForm {
    /// A form with nothing entered.
    pub fn new() -> (r: Self)
        ensures
            blank_info(r.info),
            r.checks.passes(),
            r.svg@.len() == 0,
            r.pin_names@.len() == 0,
    {
        NewBoardForm {
            info: BoardTomlInfo::default(),
            checks: FormCheck::cleared(),
            svg: String::new(),
            pin_names: Vec::new(),
        }
    }

    /// The general form was closed: its messages are cleared and what was
    /// entered is forgotten.
    pub fn general_window_closed(&mut self)
        ensures
            blank_info(final(self).info),
            final(self).checks.passes(),
            final(self).svg == old(self).svg,
            final(self).pin_names == old(self).pin_names,
    {
        self.info = BoardTomlInfo::default();
        self.checks = FormCheck::cleared();
    }

    /// The pinout window was closed: what was entered, the image and the
    /// pin names are forgotten.
    pub fn pinout_window_closed(&mut self)
        ensures
            blank_info(final(self).info),
            final(self).svg@.len() == 0,
            final(self).pin_names@.len() == 0,
            final(self).checks == old(self).checks,
    {
        self.info = BoardTomlInfo::default();
        self.svg = String::new();
        self.pin_names = Vec::new();
    }
}

/// Whether a known board has the entered name, up to case, spaces and
/// surrounding white space.
pub open spec fn name_taken(known: Seq<Board>, name: Seq<char>) -> bool {
    exists|i: int|
        0 <= i < known.len() && normalized_name(#[trigger] known[i].name@) == normalized_name(
            name,
        )
}

/// The checks of the new-board form against the known boards.
pub open spec fn form_check_of(info: BoardTomlInfo, known: Seq<Board>) -> FormCheck {
    FormCheck {
        name_duplicated: name_taken(known, info.name@),
        name_required: info.name@.len() == 0,
        manufacturer_required: info.manufacturer@.len() == 0,
        standard_required: info.standard@.len() == 0,
        cpu_required: info.cpu@.len() == 0 && info.board_type == BoardType::Main,
        flash_required: info.flash == 0 && info.board_type == BoardType::Main,
        ram_required: info.ram == 0 && info.board_type == BoardType::Main,
        req_crates_required: strs(info.required_crates@).contains(Seq::empty()),
        rel_crates_required: strs(info.related_crates@).contains(Seq::empty()),
    }
}

/// Checks the general part of the new-board form before moving on.
pub fn check_general_form(info: &BoardTomlInfo, known_boards: &Vec<Board>) -> (r: FormCheck)
    ensures
        r == form_check_of(*info, known_boards@),
{
    let target = normalize_name(info.name.as_str());
    let mut duplicated = false;
    let mut i: usize = 0;
    while i < known_boards.len()
        invariant
            i <= known_boards.len(),
            target@ == normalized_name(info.name@),
            duplicated == exists|j: int|
                0 <= j < i && normalized_name(#[trigger] known_boards@[j].name@)
                    == normalized_name(info.name@),
        decreases known_boards.len() - i,
    {
        let n = normalize_name(known_boards[i].name.as_str());
        if n == target {
            duplicated = true;
        }
        i = i + 1;
    }
    proof {
        reveal_strlit("");
    }
    let empty = String::new();
    FormCheck {
        name_duplicated: duplicated,
        name_required: info.name.as_str().unicode_len() == 0,
        manufacturer_required: info.manufacturer.as_str().unicode_len() == 0,
        standard_required: info.standard.as_str().unicode_len() == 0,
        cpu_required: info.cpu.as_str().unicode_len() == 0 && info.board_type == BoardType::Main,
        flash_required: info.flash == 0 && info.board_type == BoardType::Main,
        ram_required: info.ram == 0 && info.board_type == BoardType::Main,
        req_crates_required: contains_string(&info.required_crates, empty.as_str()),
        rel_crates_required: contains_string(&info.related_crates, empty.as_str()),
    }
}

/// The folder and files in which a new board is saved: the board folder is
/// the trimmed name with spaces turned into underscores, inside a folder
/// named after the trimmed manufacturer; the manifest and the image are
/// named after the board folder in lower case.
#[derive(Debug)]
pub struct NewBoardFiles {
    pub manufacturer_folder: String,
    pub board_folder: String,
    pub toml_file: String,
    pub svg_file: String,
}

/// The board folder of a new board.
pub open spec fn board_folder_of(name: Seq<char>) -> Seq<char> {
    replace_all(trimmed(name), " "@, "_"@)
}

/// Where a new board is saved.
pub fn new_board_files(info: &BoardTomlInfo) -> (r: NewBoardFiles)
    ensures
        r.manufacturer_folder@ == trimmed(info.manufacturer@),
        r.board_folder@ == board_folder_of(info.name@),
        r.toml_file@ == lowercase_of(board_folder_of(info.name@)) + ".toml"@,
        r.svg_file@ == lowercase_of(board_folder_of(info.name@)) + ".svg"@,
{
    proof {
        reveal_strlit(" ");
    }
    let t = trim(info.name.as_str());
    let folder = replace_str(t.as_str(), " ", "_");
    let mut toml_file = to_lowercase(folder.as_str());
    toml_file.append(".toml");
    let mut svg_file = to_lowercase(folder.as_str());
    svg_file.append(".svg");
    NewBoardFiles {
        manufacturer_folder: trim(info.manufacturer.as_str()),
        board_folder: folder,
        toml_file,
        svg_file,
    }
}

/// Why the image of a new board could not take its pin marks.
#[derive(Clone, Copy, Debug, PartialEq, Eq, Structural)]
pub enum PinMarkError {
    /// The image text is empty.
    ReadSvgFailed,
    /// The image text has no closing `</svg>` tag.
    CopyPinRectsFailed,
}

impl PinMarkError {
    /// The message shown for this error.
    pub open spec fn text(self) -> Seq<char> {
        match self {
            PinMarkError::ReadSvgFailed => "Read SVG from String failed."@,
            PinMarkError::CopyPinRectsFailed => "Copy Pin Rects failed."@,
        }
    }

    /// The message shown for this error.
    pub fn message(&self) -> (r: String)
        ensures
            r@ == self.text(),
    {
        match self {
            PinMarkError::ReadSvgFailed => String::from_str("Read SVG from String failed."),
            PinMarkError::CopyPinRectsFailed => String::from_str("Copy Pin Rects failed."),
        }
    }
}

/// The closing of an image whose elements are grouped.
pub open spec fn group_close() -> Seq<char> {
    "  </g>\n</svg>"@
}

/// The closing tag of an image.
pub open spec fn svg_close() -> Seq<char> {
    "</svg>"@
}

/// The image of a new board with its pin marks (SVG circles) inserted before
/// the closing of its group, or else before its closing tag; an empty image
/// or one without a closing tag is kept as it is, with an error.
pub open spec fn with_pin_marks(svg: Seq<char>, marks: Seq<char>) -> (Seq<char>, Option<PinMarkError>) {
    if contains_seq(svg, group_close()) {
        (replace_all(svg, group_close(), marks + group_close()), None)
    } else if contains_seq(svg, svg_close()) {
        (replace_all(svg, svg_close(), marks + svg_close()), None)
    } else if svg.len() == 0 {
        (svg, Some(PinMarkError::ReadSvgFailed))
    } else {
        (svg, Some(PinMarkError::CopyPinRectsFailed))
    }
}

/// Inserts the pin marks of a new board into its image.
pub fn insert_pin_marks(svg: &str, marks: &str) -> (r: (String, Option<PinMarkError>))
    ensures
        (r.0@, r.1) == with_pin_marks(svg@, marks@),
{
    proof {
        reveal_strlit("  </g>\n</svg>");
        reveal_strlit("</svg>");
    }
    if contains_str(svg, "  </g>\n</svg>") {
        let mut to = String::from_str(marks);
        to.append("  </g>\n</svg>");
        (replace_str(svg, "  </g>\n</svg>", to.as_str()), None)
    } else if contains_str(svg, "</svg>") {
        let mut to = String::from_str(marks);
        to.append("</svg>");
        (replace_str(svg, "</svg>", to.as_str()), None)
    } else if svg.unicode_len() == 0 {
        (String::from_str(svg), Some(PinMarkError::ReadSvgFailed))
    } else {
        (String::from_str(svg), Some(PinMarkError::CopyPinRectsFailed))
    }
}

/// A new board's name is refused as a duplicate exactly when some known
/// board, wherever it stands in the list, has the same name up to case,
/// spaces and surrounding white space; and a board added to the known list
/// never makes a duplicate name pass.
pub proof fn lemma_duplicate_name_any_known_board(
    info: BoardTomlInfo,
    known: Seq<Board>,
    i: int,
    more: Board,
)
    ensures
        0 <= i < known.len() && normalized_name(known[i].name@) == normalized_name(info.name@)
            ==> form_check_of(info, known).name_duplicated,
        form_check_of(info, known).name_duplicated ==> exists|j: int|
            0 <= j < known.len() && normalized_name(#[trigger] known[j].name@)
                == normalized_name(info.name@),
        form_check_of(info, known).name_duplicated ==> form_check_of(
            info,
            known.push(more),
        ).name_duplicated,
        form_check_of(info, known).name_duplicated ==> !form_check_of(info, known).passes(),
{
    if 0 <= i < known.len() && normalized_name(known[i].name@) == normalized_name(info.name@) {
        assert(name_taken(known, info.name@));
    }
    if form_check_of(info, known).name_duplicated {
        let j = choose|j: int|
            0 <= j < known.len() && normalized_name(#[trigger] known[j].name@)
                == normalized_name(info.name@);
        assert(known.push(more)[j] == known[j]);
        assert(name_taken(known.push(more), info.name@));
    }
}

} // verus!
