//! Development boards: their descriptions, their ordering, and the text of
//! a new board's manifest.

use vstd::prelude::*;

pub mod pinout;
pub mod interface;
pub mod order;
pub mod toml_info;
pub mod parsing;

use pinout::{InterfaceMapping, InterfaceMappingView, pinout_view, clone_pinout};
use parsing::{BspParseInfo, BspParseInfoView, opt_info_view};

verus! {

/// The standard development board form factors.
#[derive(Clone, Copy, Debug, PartialEq, Eq, Structural)]
#[non_exhaustive]
pub enum BoardStandards {
    NoStandard,
    Feather,
    Arduino,
    RaspberryPi,
    ThingPlus,
    MicroMod,
}

impl BoardStandards {
    /// The text of this standard, as its `Display` writes it.
    pub open spec fn label(self) -> Seq<char> {
        match self {
            BoardStandards::NoStandard => "None"@,
            BoardStandards::Feather => "Feather"@,
            BoardStandards::Arduino => "Arduino"@,
            BoardStandards::RaspberryPi => "RaspberryPi"@,
            BoardStandards::ThingPlus => "ThingPlus"@,
            BoardStandards::MicroMod => "MicroMod"@,
        }
    }

    /// The text of this standard, as its `Display` writes it.
    pub fn to_string(&self) -> (r: String)
        ensures
            r@ == self.label(),
    {
        match self {
            BoardStandards::NoStandard => String::from_str("None"),
            BoardStandards::Feather => String::from_str("Feather"),
            BoardStandards::Arduino => String::from_str("Arduino"),
            BoardStandards::RaspberryPi => String::from_str("RaspberryPi"),
            BoardStandards::ThingPlus => String::from_str("ThingPlus"),
            BoardStandards::MicroMod => String::from_str("MicroMod"),
        }
    }
}

impl Default for BoardStandards {
    fn default() -> (r: Self)
        ensures
            r == BoardStandards::NoStandard,
    {
        BoardStandards::NoStandard
    }
}

/// Whether a board has a processor that runs code (main), is a peripheral
/// board, or is a discrete component.
#[derive(Clone, Copy, Debug, PartialEq, Eq, Structural)]
pub enum BoardType {
    Main,
    Peripheral,
    Discrete,
}

impl BoardType {
    /// The text of this board type, as its `Display` writes it.
    pub open spec fn label(self) -> Seq<char> {
        match self {
            BoardType::Main => "Main"@,
            BoardType::Peripheral => "Peripheral"@,
            BoardType::Discrete => "Discrete"@,
        }
    }

    /// The text of this board type, as its `Display` writes it.
    pub fn to_string(&self) -> (r: String)
        ensures
            r@ == self.label(),
    {
        match self {
            BoardType::Main => String::from_str("Main"),
            BoardType::Peripheral => String::from_str("Peripheral"),
            BoardType::Discrete => String::from_str("Discrete"),
        }
    }
}

impl Default for BoardType {
    fn default() -> (r: Self)
        ensures
            r == BoardType::Main,
    {
        BoardType::Main
    }
}

/// A development board, as described by its manifest and by the files found
/// beside it (examples, project template, local BSP).
#[derive(Debug)]
pub struct Board {
    /// The name of the board; boards are identified by their name.
    pub name: String,
    /// The board manufacturer.
    pub manufacturer: String,
    /// Whether the board can run code, is a peripheral, or is a discrete part.
    pub board_type: BoardType,
    /// A form factor that the board adheres to, if any.
    pub standard: Option<BoardStandards>,
    pub cpu: Option<String>,
    pub ram: Option<isize>,
    pub flash: Option<isize>,
    /// The interfaces available on the board.
    pub pinout: Vec<InterfaceMapping>,
    /// Paths of the board's examples.
    pub examples: Vec<String>,
    /// Path of a local project template.
    pub template_dir: Option<String>,
    /// The name of the board's BSP crate.
    pub bsp: Option<String>,
    /// Path of a local BSP (none means the BSP is on crates.io).
    pub bsp_path: Option<String>,
    /// What inspecting the BSP told about the board.
    pub bsp_parse_info: Option<BspParseInfo>,
    /// Crates a project with this board requires.
    pub required_crates: Option<Vec<String>>,
    /// Related, optional crates.
    pub related_crates: Option<Vec<String>>,
}

/// The value of a board.
pub struct BoardView {
    pub name: Seq<char>,
    pub manufacturer: Seq<char>,
    pub board_type: BoardType,
    pub standard: Option<BoardStandards>,
    pub cpu: Option<Seq<char>>,
    pub ram: Option<isize>,
    pub flash: Option<isize>,
    pub pinout: Seq<InterfaceMappingView>,
    pub examples: Seq<String>,
    pub template_dir: Option<Seq<char>>,
    pub bsp: Option<Seq<char>>,
    pub bsp_path: Option<Seq<char>>,
    pub bsp_parse_info: Option<BspParseInfoView>,
    pub required_crates: Option<Seq<String>>,
    pub related_crates: Option<Seq<String>>,
}

/// The value of an optional string.
pub open spec fn opt_str_view(o: Option<String>) -> Option<Seq<char>> {
    match o {
        Some(s) => Some(s@),
        None => None,
    }
}

/// The value of an optional list of strings.
pub open spec fn opt_strings_view(o: Option<Vec<String>>) -> Option<Seq<String>> {
    match o {
        Some(v) => Some(v@),
        None => None,
    }
}

/// The index of the last dot of a file name, if it has one.
pub open spec fn last_dot(name: Seq<char>) -> Option<int>
    decreases name.len(),
{
    if name.len() == 0 {
        None
    } else if name.last() == '.' {
        Some(name.len() - 1)
    } else {
        last_dot(name.drop_last())
    }
}

/// Whether a file name has the extension `toml`, as `Path::extension` reads
/// it: what follows the last dot, when that dot does not begin the name.
pub open spec fn is_manifest_name(name: Seq<char>) -> bool {
    match last_dot(name) {
        Some(k) => k > 0 && name.skip(k + 1) == "toml"@,
        None => false,
    }
}

/// Whether a file found in a board folder is a board manifest: its name has
/// the extension `toml`.
pub fn is_manifest_file(name: &str) -> (r: bool)
    ensures
        r == is_manifest_name(name@),
{
    let v = crate::text::chars_of(name);
    let mut i: usize = v.len();
    assert(v@.take(i as int) =~= v@);
    while i > 0
        invariant
            v@ == name@,
            i <= v@.len(),
            last_dot(v@) == last_dot(v@.take(i as int)),
        decreases i,
    {
        proof {
            assert(v@.take(i as int).drop_last() =~= v@.take(i - 1));
            assert(v@.take(i as int).last() == v@[i - 1]);
        }
        if v[i - 1] == '.' {
            let ghost k = i - 1;
            assert(last_dot(v@) == Some(k as int));
            if i - 1 == 0 {
                return false;
            }
            let ext = crate::text::sub_string(&v, i, v.len());
            proof {
                reveal_strlit("toml");
                assert(ext@ =~= v@.skip(i as int));
            }
            return crate::text::str_eq(ext.as_str(), "toml");
        }
        i = i - 1;
    }
    proof {
        assert(v@.take(0) =~= Seq::<char>::empty());
    }
    false
}

impl View for Board {
    type V = BoardView;

    open spec fn view(&self) -> BoardView {
        BoardView {
            name: self.name@,
            manufacturer: self.manufacturer@,
            board_type: self.board_type,
            standard: self.standard,
            cpu: opt_str_view(self.cpu),
            ram: self.ram,
            flash: self.flash,
            pinout: pinout_view(self.pinout@),
            examples: self.examples@,
            template_dir: opt_str_view(self.template_dir),
            bsp: opt_str_view(self.bsp),
            bsp_path: opt_str_view(self.bsp_path),
            bsp_parse_info: opt_info_view(self.bsp_parse_info),
            required_crates: opt_strings_view(self.required_crates),
            related_crates: opt_strings_view(self.related_crates),
        }
    }
}

/// A copy of an optional string with the same value.
pub fn clone_opt_string(o: &Option<String>) -> (r: Option<String>)
    ensures
        opt_str_view(r) == opt_str_view(*o),
{
    match o {
        Some(s) => Some(s.clone()),
        None => None,
    }
}

/// A copy of a list of strings with the same value.
pub fn clone_strings(v: &Vec<String>) -> (r: Vec<String>)
    ensures
        r@ == v@,
{
    let r = v.clone();
    assert(r@ =~= v@);
    r
}

/// A copy of an optional list of strings with the same value.
pub fn clone_opt_strings(o: &Option<Vec<String>>) -> (r: Option<Vec<String>>)
    ensures
        opt_strings_view(r) == opt_strings_view(*o),
{
    match o {
        Some(v) => Some(clone_strings(v)),
        None => None,
    }
}

impl Clone for Board {
    fn clone(&self) -> (r: Self)
        ensures
            r@ == self@,
    {
        Board {
            name: self.name.clone(),
            manufacturer: self.manufacturer.clone(),
            board_type: self.board_type,
            standard: self.standard,
            cpu: clone_opt_string(&self.cpu),
            ram: self.ram,
            flash: self.flash,
            pinout: clone_pinout(&self.pinout),
            examples: clone_strings(&self.examples),
            template_dir: clone_opt_string(&self.template_dir),
            bsp: clone_opt_string(&self.bsp),
            bsp_path: clone_opt_string(&self.bsp_path),
            bsp_parse_info: match &self.bsp_parse_info {
                Some(i) => Some(i.clone()),
                None => None,
            },
            required_crates: clone_opt_strings(&self.required_crates),
            related_crates: clone_opt_strings(&self.related_crates),
        }
    }
}

impl Board {
    /// A board described by its manifest, with no examples, template or
    /// local BSP found yet.
    pub fn new(
        name: String,
        manufacturer: String,
        board_type: BoardType,
        standard: Option<BoardStandards>,
        cpu: Option<String>,
        ram: Option<isize>,
        flash: Option<isize>,
        pinout: Vec<InterfaceMapping>,
        bsp: Option<String>,
        required_crates: Option<Vec<String>>,
        related_crates: Option<Vec<String>>,
    ) -> (r: Board)
        ensures
            r.name == name,
            r.manufacturer == manufacturer,
            r.board_type == board_type,
            r.standard == standard,
            r.cpu == cpu,
            r.ram == ram,
            r.flash == flash,
            r.pinout == pinout,
            r.examples@.len() == 0,
            r.template_dir is None,
            r.bsp == bsp,
            r.bsp_path is None,
            r.bsp_parse_info is None,
            r.required_crates == required_crates,
            r.related_crates == related_crates,
    {
        Board {
            name,
            manufacturer,
            board_type,
            standard,
            cpu,
            ram,
            flash,
            pinout,
            examples: Vec::new(),
            template_dir: None,
            bsp,
            bsp_path: None,
            bsp_parse_info: None,
            required_crates,
            related_crates,
        }
    }

    /// The name of the board.
    pub fn get_name(&self) -> (r: &str)
        ensures
            r@ == self.name@,
    {
        self.name.as_str()
    }

    /// A copy of the board's pinout.
    pub fn get_pinout(&self) -> (r: Vec<InterfaceMapping>)
        ensures
            pinout_view(r@) == pinout_view(self.pinout@),
    {
        clone_pinout(&self.pinout)
    }

    /// A copy of the list of crates the board requires.
    pub fn required_crates(&self) -> (r: Option<Vec<String>>)
        ensures
            opt_strings_view(r) == opt_strings_view(self.required_crates),
    {
        clone_opt_strings(&self.required_crates)
    }

    /// A copy of the list of crates related to the board.
    pub fn related_crates(&self) -> (r: Option<Vec<String>>)
        ensures
            opt_strings_view(r) == opt_strings_view(self.related_crates),
    {
        clone_opt_strings(&self.related_crates)
    }

    /// Whether the board has a processor that can run code.
    pub fn is_main_board(&self) -> (r: bool)
        ensures
            r == (self.board_type == BoardType::Main),
    {
        match self.board_type {
            BoardType::Main => true,
            BoardType::Peripheral => false,
            BoardType::Discrete => false,
        }
    }

    /// Whether the board is a discrete component.
    pub fn is_discrete(&self) -> (r: bool)
        ensures
            r == (self.board_type == BoardType::Discrete),
    {
        match self.board_type {
            BoardType::Main => false,
            BoardType::Peripheral => false,
            BoardType::Discrete => true,
        }
    }

    /// The path of the board's project template, if it has one.
    pub fn get_template_dir(&self) -> (r: Option<String>)
        ensures
            opt_str_view(r) == opt_str_view(self.template_dir),
    {
        clone_opt_string(&self.template_dir)
    }

    /// Boards are identified by their name: two boards are the same board
    /// exactly when their names are equal.
    pub fn same_board(&self, other: &Board) -> (r: bool)
        ensures
            r == (self.name@ == other.name@),
    {
        self.name == other.name
    }
}

} // verus!
