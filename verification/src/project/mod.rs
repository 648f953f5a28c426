//! An Iron Coder project: a name, a location, the boards it uses, the system
//! they form, and the text shown in the project's terminal pane.

use vstd::prelude::*;

use crate::board::Board;
use crate::text::{strs, has_white_space, contains_white_space};
use crate::app::Warnings;

pub mod system;
pub mod display;
pub mod node_graph;
pub mod terminal;

use system::System;
use display::ProjectViewType;

verus! {

/// The name of the project manifest, found at the project's root.
pub const PROJECT_FILE_NAME: &'static str = ".ironcoder.toml";

/// A project: the highest level of Iron Coder.
#[derive(Debug)]
pub struct Project {
    pub name: String,
    /// The project folder, once the project has been saved.
    pub location: Option<String>,
    /// The boards of the project, the main board first when there is one.
    pub boards: Vec<Board>,
    /// The system the boards form, with their connections.
    pub system: System,
    /// The text shown in the project's terminal pane: messages, and the
    /// line being typed after the shell prompt.
    pub terminal_buffer: String,
    /// The shell prompt showing the terminal's working directory.
    pub directory: String,
    /// Whether the prompt is to be read again from the shell's output.
    pub update_directory: bool,
    /// The shell's output above the prompt.
    pub persistant_buffer: String,
    /// What the project's side pane shows.
    pub current_view: ProjectViewType,
}

/// Whether a project is a new one: nothing named, saved, added or typed.
pub open spec fn is_fresh(p: Project) -> bool {
    &&& p.name@.len() == 0
    &&& p.location is None
    &&& p.boards@.len() == 0
    &&& p.terminal_buffer@.len() == 0
    &&& p.directory@.len() == 0
    &&& !p.update_directory
    &&& p.persistant_buffer@.len() == 0
    &&& p.current_view == ProjectViewType::BoardsView
    &&& p.system.main_board is None
    &&& p.system.peripheral_boards@.len() == 0
    &&& p.system.discrete_components@.len() == 0
    &&& p.system.connections@.len() == 0
    &&& p.system.in_progress_connection_start is None
    &&& p.system.in_progress_connection_end is None
}

impl Default for Project {
    fn default() -> (r: Self)
        ensures
            r.name@.len() == 0,
            r.location is None,
            r.boards@.len() == 0,
            r.terminal_buffer@.len() == 0,
            r.directory@.len() == 0,
            !r.update_directory,
            r.persistant_buffer@.len() == 0,
            r.current_view == ProjectViewType::BoardsView,
            r.system.main_board is None,
            r.system.peripheral_boards@.len() == 0,
            r.system.connections@.len() == 0,
            r.system.in_progress_connection_start is None,
            r.system.in_progress_connection_end is None,
            is_fresh(r),
    {
        Project {
            name: String::new(),
            location: None,
            boards: Vec::new(),
            system: System::default(),
            terminal_buffer: String::new(),
            directory: String::new(),
            update_directory: false,
            persistant_buffer: String::new(),
            current_view: ProjectViewType::BoardsView,
        }
    }
}

impl Clone for Project {
    /// A copy of the project with the same values: its boards, its system
    /// and what its panes show.
    fn clone(&self) -> (r: Self)
        ensures
            r.name@ == self.name@,
            crate::board::opt_str_view(r.location) == crate::board::opt_str_view(self.location),
            r.boards@.map_values(|b: Board| b@) == self.boards@.map_values(|b: Board| b@),
            r.system@ == self.system@,
            r.terminal_buffer@ == self.terminal_buffer@,
            r.directory@ == self.directory@,
            r.update_directory == self.update_directory,
            r.persistant_buffer@ == self.persistant_buffer@,
            r.current_view == self.current_view,
    {
        Project {
            name: self.name.clone(),
            location: crate::board::clone_opt_string(&self.location),
            boards: system::clone_boards(&self.boards),
            system: self.system.clone(),
            terminal_buffer: self.terminal_buffer.clone(),
            directory: self.directory.clone(),
            update_directory: self.update_directory,
            persistant_buffer: self.persistant_buffer.clone(),
            current_view: self.current_view.clone(),
        }
    }
}

/// The arguments of `cargo -Z unstable-options -C <folder> <action>`.
pub open spec fn cargo_in(folder: Seq<char>, action: Seq<char>) -> Seq<Seq<char>> {
    seq!["-Z"@, "unstable-options"@, "-C"@, folder, action]
}

/// The arguments of the command that creates the Cargo package of a project.
pub open spec fn cargo_init_args(folder: Seq<char>, name: Seq<char>) -> Seq<Seq<char>> {
    cargo_in(folder, "init"@) + seq!["--name"@, name, "--vcs"@, "none"@]
}

/// The arguments of the command that adds a crate to a project.
pub open spec fn cargo_add_args(folder: Seq<char>, krate: Seq<char>) -> Seq<Seq<char>> {
    cargo_in(folder, "add"@) + seq![krate]
}

/// The commands run for one board that requires crates: create the package,
/// then add each required crate.
pub open spec fn crate_batch(folder: Seq<char>, name: Seq<char>, crates: Seq<String>) -> Seq<
    Seq<Seq<char>>,
> {
    seq![cargo_init_args(folder, name)] + crates.map_values(
        |c: String| cargo_add_args(folder, c@),
    )
}

/// The batches of commands for the boards that require crates, in order.
pub open spec fn crate_batches(folder: Seq<char>, name: Seq<char>, boards: Seq<Board>) -> Seq<
    Seq<Seq<Seq<char>>>,
>
    decreases boards.len(),
{
    if boards.len() == 0 {
        Seq::empty()
    } else {
        match boards.last().required_crates {
            Some(rc) => crate_batches(folder, name, boards.drop_last()).push(
                crate_batch(folder, name, rc@),
            ),
            None => crate_batches(folder, name, boards.drop_last()),
        }
    }
}

/// The commands for one board alone: a batch when it lists required crates,
/// nothing otherwise.
pub open spec fn board_batches(folder: Seq<char>, name: Seq<char>, b: Board) -> Seq<
    Seq<Seq<Seq<char>>>,
> {
    match b.required_crates {
        Some(rc) => seq![crate_batch(folder, name, rc@)],
        None => Seq::empty(),
    }
}

/// Every board that lists required crates contributes its own batch,
/// whatever the boards before and after it: the batches of two lists of
/// boards put together are the batches of the first, then those of the
/// second; a single board gives one batch, of its own crates, when it lists
/// some, and none otherwise.
pub proof fn lemma_crate_batches_per_board(
    folder: Seq<char>,
    name: Seq<char>,
    a: Seq<Board>,
    b: Seq<Board>,
    x: Board,
)
    ensures
        crate_batches(folder, name, a + b) == crate_batches(folder, name, a) + crate_batches(
            folder,
            name,
            b,
        ),
        crate_batches(folder, name, seq![x]) == board_batches(folder, name, x),
        crate_batches(folder, name, a.push(x)) == crate_batches(folder, name, a)
            + board_batches(folder, name, x),
    decreases b.len(),
{
    assert(seq![x].drop_last() =~= Seq::<Board>::empty());
    assert(seq![x].last() == x);
    assert(crate_batches(folder, name, seq![x].drop_last()) == Seq::<Seq<Seq<Seq<char>>>>::empty());
    assert(a.push(x).drop_last() =~= a);
    if b.len() == 0 {
        assert(a + b =~= a);
        assert(crate_batches(folder, name, a) + Seq::empty() =~= crate_batches(folder, name, a));
    } else {
        lemma_crate_batches_per_board(folder, name, a, b.drop_last(), x);
        assert((a + b).drop_last() =~= a + b.drop_last());
        assert((a + b).last() == b.last());
        match b.last().required_crates {
            Some(rc) => {
                assert(crate_batches(folder, name, a) + crate_batches(folder, name, b)
                    =~= (crate_batches(folder, name, a) + crate_batches(
                    folder,
                    name,
                    b.drop_last(),
                )).push(crate_batch(folder, name, rc@)));
            },
            None => {},
        }
    }
    match x.required_crates {
        Some(rc) => {
            assert(Seq::<Seq<Seq<Seq<char>>>>::empty().push(crate_batch(folder, name, rc@))
                =~= seq![crate_batch(folder, name, rc@)]);
            assert(crate_batches(folder, name, a).push(crate_batch(folder, name, rc@))
                =~= crate_batches(folder, name, a) + seq![crate_batch(folder, name, rc@)]);
        },
        None => {
            assert(crate_batches(folder, name, a) + Seq::empty() =~= crate_batches(
                folder,
                name,
                a,
            ));
        },
    }
}

/// The number of boards of a list that list required crates.
pub open spec fn boards_with_crates(boards: Seq<Board>) -> nat
    decreases boards.len(),
{
    if boards.len() == 0 {
        0
    } else {
        boards_with_crates(boards.drop_last()) + if boards.last().required_crates is Some {
            1nat
        } else {
            0nat
        }
    }
}

/// There is one batch of commands for each board that lists required
/// crates, and the `k`-th batch creates the package and then adds exactly
/// the crates of that board.
pub proof fn lemma_crate_batches_count(folder: Seq<char>, name: Seq<char>, boards: Seq<Board>)
    ensures
        crate_batches(folder, name, boards).len() == boards_with_crates(boards),
        forall|k: int|
            0 <= k < crate_batches(folder, name, boards).len() ==> #[trigger] crate_batches(
                folder,
                name,
                boards,
            )[k][0] == cargo_init_args(folder, name),
    decreases boards.len(),
{
    if boards.len() > 0 {
        lemma_crate_batches_count(folder, name, boards.drop_last());
    }
}

/// The values of a list of commands.
pub open spec fn cmds_view(v: Seq<Vec<String>>) -> Seq<Seq<Seq<char>>> {
    v.map_values(|c: Vec<String>| strs(c@))
}

/// The values of a list of command batches.
pub open spec fn batches_view(v: Seq<Vec<Vec<String>>>) -> Seq<Seq<Seq<Seq<char>>>> {
    v.map_values(|b: Vec<Vec<String>>| cmds_view(b@))
}

/// Builds a list of strings from literals.
fn strings_of(items: &[&str]) -> (r: Vec<String>)
    ensures
        strs(r@) == items@.map_values(|s: &str| s@),
{
    let mut r: Vec<String> = Vec::new();
    let mut i: usize = 0;
    while i < items.len()
        invariant
            i <= items.len(),
            strs(r@) == items@.take(i as int).map_values(|s: &str| s@),
        decreases items.len() - i,
    {
        let ghost before = r@;
        r.push(String::from_str(items[i]));
        proof {
            assert(strs(r@) =~= strs(before).push(items@[i as int]@));
            assert(items@.take(i + 1).map_values(|s: &str| s@) =~= items@.take(i as int).map_values(
                |s: &str| s@,
            ).push(items@[i as int]@));
        }
        i = i + 1;
    }
    assert(items@.take(i as int) =~= items@);
    r
}

/// The arguments of `cargo -Z unstable-options -C <folder> <action>`.
pub fn cargo_in_folder(folder: &str, action: &str) -> (r: Vec<String>)
    ensures
        strs(r@) == cargo_in(folder@, action@),
{
    let r = strings_of(&["-Z", "unstable-options", "-C", folder, action]);
    assert(strs(r@) =~= cargo_in(folder@, action@));
    r
}

/// The template a project is generated from: that of its main board (the
/// first board, when it is a main board) when it has one, else the basic
/// template.
pub open spec fn template_path(boards: Seq<Board>) -> Seq<char> {
    if starts_with_main(boards) && boards[0].template_dir is Some {
        boards[0].template_dir->0@
    } else {
        "templates/basic/"@
    }
}

/// Whether a list of boards starts with a main board.
pub open spec fn starts_with_main(boards: Seq<Board>) -> bool {
    boards.len() > 0 && boards[0].board_type == crate::board::BoardType::Main
}

/// Whether a list of boards holds a board with the given name.
pub open spec fn has_board_named(boards: Seq<Board>, name: Seq<char>) -> bool {
    exists|i: int| 0 <= i < boards.len() && #[trigger] boards[i].name@ == name
}

/// The index of the first board with the given name, in a list that has one.
pub open spec fn first_named(boards: Seq<Board>, name: Seq<char>) -> int {
    choose|j: int|
        0 <= j < boards.len() && boards[j].name@ == name && forall|k: int|
            0 <= k < j ==> #[trigger] boards[k].name@ != name
}

/// Whether adding `board` to a project with these boards is refused: a
/// second main board (after one that comes first), or a board that is
/// already there.
pub open spec fn add_refused(boards: Seq<Board>, board: Board) -> bool {
    if board.board_type == crate::board::BoardType::Main {
        starts_with_main(boards)
    } else {
        has_board_named(boards, board.name@)
    }
}

/// Whether `loaded` is what `board` becomes once the known boards are
/// searched: the first known board of its name, or `board` itself when none
/// is known.
pub open spec fn resources_loaded(known: Seq<Board>, board: Board, loaded: Board) -> bool {
    if has_board_named(known, board.name@) {
        loaded@ == known[first_named(known, board.name@)]@
    } else {
        loaded == board
    }
}

/// No board other than a main board shares its name with a board before it.
pub open spec fn boards_distinct(boards: Seq<Board>) -> bool {
    forall|i: int, j: int|
        0 <= i < j < boards.len() && boards[j].board_type != crate::board::BoardType::Main
            ==> #[trigger] boards[i].name@ != #[trigger] boards[j].name@
}

/// Adding a board keeps a project free of duplicates: a board that is not a
/// main board only joins a project that has no board of its name.
pub proof fn lemma_add_board_keeps_distinct(boards: Seq<Board>, board: Board)
    requires
        boards_distinct(boards),
        !add_refused(boards, board),
    ensures
        boards_distinct(boards.push(board)),
{
    let nb = boards.push(board);
    assert forall|i: int, j: int|
        0 <= i < j < nb.len() && nb[j].board_type != crate::board::BoardType::Main
            implies #[trigger] nb[i].name@ != #[trigger] nb[j].name@ by {
        if j == boards.len() {
            assert(nb[i] == boards[i]);
            if boards[i].name@ == board.name@ {
                assert(has_board_named(boards, board.name@));
            }
        } else {
            assert(nb[i] == boards[i] && nb[j] == boards[j]);
        }
    }
}

/// A board that was just added is refused when it is added again, unless it
/// is a main board that followed other boards (the main board is only looked
/// for in first place).
pub proof fn lemma_add_board_twice_refused(boards: Seq<Board>, board: Board)
    requires
        !add_refused(boards, board),
        board.board_type != crate::board::BoardType::Main || boards.len() == 0,
    ensures
        add_refused(boards.push(board), board),
{
    let nb = boards.push(board);
    assert(nb[boards.len() as int] == board);
    if board.board_type != crate::board::BoardType::Main {
        assert(has_board_named(nb, board.name@));
    } else {
        assert(nb[0] == board);
    }
}

/// Finds the first board with the given name.
pub fn find_board(boards: &Vec<Board>, name: &str) -> (r: Option<usize>)
    ensures
        r is None <==> !has_board_named(boards@, name@),
        r matches Some(j) ==> j < boards@.len() && boards@[j as int].name@ == name@ && forall|
            k: int,
        | 0 <= k < j ==> #[trigger] boards@[k].name@ != name@,
{
    let mut j: usize = 0;
    while j < boards.len()
        invariant
            j <= boards.len(),
            forall|k: int| 0 <= k < j ==> #[trigger] boards@[k].name@ != name@,
        decreases boards.len() - j,
    {
        if crate::text::str_eq(boards[j].name.as_str(), name) {
            return Some(j);
        }
        j = j + 1;
    }
    None
}

/// The first-named index is the one `find_board` finds.
pub proof fn lemma_first_named_is(boards: Seq<Board>, name: Seq<char>, j: int)
    requires
        0 <= j < boards.len(),
        boards[j].name@ == name,
        forall|k: int| 0 <= k < j ==> #[trigger] boards[k].name@ != name,
    ensures
        first_named(boards, name) == j,
{
    let f = first_named(boards, name);
    assert(0 <= f < boards.len() && boards[f].name@ == name && forall|k: int|
        0 <= k < f ==> #[trigger] boards[k].name@ != name);
    if f < j {
        assert(boards[f].name@ != name);
    }
    if j < f {
        assert(boards[j].name@ != name);
    }
}

impl Project {
    /// Writes a line to the project's terminal pane.
    pub fn info_logger(&mut self, msg: &str)
        ensures
            final(self).terminal_buffer@ == old(self).terminal_buffer@ + msg@ + "\n"@,
            final(self).name == old(self).name,
            final(self).location == old(self).location,
            final(self).boards == old(self).boards,
    {
        self.terminal_buffer.append(msg);
        self.terminal_buffer.append("\n");
    }

    /// The name of the project.
    pub fn get_name(&self) -> (r: String)
        ensures
            r@ == self.name@,
    {
        self.name.clone()
    }

    /// Whether the project's first board is a main board.
    pub fn has_main_board(&self) -> (r: bool)
        ensures
            r == starts_with_main(self.boards@),
    {
        self.boards.len() > 0 && self.boards[0].is_main_board()
    }

    /// The project folder, or the empty text when the project has none.
    pub fn get_location(&self) -> (r: String)
        ensures
            r@ == match self.location {
                Some(l) => l@,
                None => Seq::<char>::empty(),
            },
    {
        match &self.location {
            Some(l) => l.clone(),
            None => String::new(),
        }
    }

    /// The arguments of `cargo build` for the project, none (with a line in
    /// the terminal pane) while the project has no folder.
    pub fn build_command(&mut self) -> (r: Option<Vec<String>>)
        ensures
            match old(self).location {
                Some(l) => r is Some && strs(r->0@) == cargo_in(l@, "build"@)
                    && final(self).terminal_buffer == old(self).terminal_buffer,
                None => r is None && final(self).terminal_buffer@ == old(self).terminal_buffer@
                    + "project needs a valid working directory before building"@ + "\n"@,
            },
            final(self).location == old(self).location,
            final(self).boards == old(self).boards,
    {
        match &self.location {
            Some(l) => Some(cargo_in_folder(l.as_str(), "build")),
            None => {
                self.info_logger("project needs a valid working directory before building");
                None
            },
        }
    }

    /// The arguments of `cargo run` for the project (which loads the code on
    /// the board), none (with a line in the terminal pane) while the project
    /// has no folder.
    pub fn load_command(&mut self) -> (r: Option<Vec<String>>)
        ensures
            match old(self).location {
                Some(l) => r is Some && strs(r->0@) == cargo_in(l@, "run"@)
                    && final(self).terminal_buffer == old(self).terminal_buffer,
                None => r is None && final(self).terminal_buffer@ == old(self).terminal_buffer@
                    + "project needs a valid working directory before building"@ + "\n"@,
            },
            final(self).location == old(self).location,
            final(self).boards == old(self).boards,
    {
        match &self.location {
            Some(l) => Some(cargo_in_folder(l.as_str(), "run")),
            None => {
                self.info_logger("project needs a valid working directory before building");
                None
            },
        }
    }

    /// Takes the folder chosen to save the project in, given the names of the
    /// entries already there. A folder that already holds a project manifest
    /// is refused, with a warning in the terminal pane; any other becomes the
    /// project's location. Tells whether the folder was taken.
    pub fn accept_save_folder(&mut self, folder: String, entry_names: &Vec<String>) -> (taken: bool)
        ensures
            taken == !strs(entry_names@).contains(PROJECT_FILE_NAME@),
            taken ==> final(self).location == Some(folder)
                && final(self).terminal_buffer == old(self).terminal_buffer,
            !taken ==> final(self).location == old(self).location
                && final(self).terminal_buffer@ == old(self).terminal_buffer@
                + "beware of overwriting and existing project file!\n"@,
            final(self).name == old(self).name,
            final(self).boards == old(self).boards,
            final(self).system == old(self).system,
    {
        if crate::text::contains_string(entry_names, PROJECT_FILE_NAME) {
            self.terminal_buffer.append("beware of overwriting and existing project file!\n");
            return false;
        }
        self.location = Some(folder);
        true
    }

    /// The "start development" button was pressed: development may start
    /// once the project has a main board and a name without white space.
    /// Otherwise the warning that applies is raised: no main board, an
    /// empty name, or a name with white space (in that order).
    pub fn start_development_check(&self, warnings: &mut Warnings) -> (go: bool)
        ensures
            go == (starts_with_main(self.boards@) && self.name@.len() > 0
                && !has_white_space(self.name@)),
            *final(warnings) == (if !starts_with_main(self.boards@) {
                Warnings { display_mainboard_warning: true, ..*old(warnings) }
            } else if self.name@.len() == 0 {
                Warnings { display_unnamed_project_warning: true, ..*old(warnings) }
            } else if has_white_space(self.name@) {
                Warnings { display_invalid_name_warning: true, ..*old(warnings) }
            } else {
                *old(warnings)
            }),
    {
        if !self.has_main_board() {
            warnings.display_mainboard_warning = true;
            return false;
        }
        if self.name.as_str().unicode_len() == 0 {
            warnings.display_unnamed_project_warning = true;
            return false;
        }
        if contains_white_space(self.name.as_str()) {
            warnings.display_invalid_name_warning = true;
            return false;
        }
        true
    }

    /// The simulator command that loads the project's debug build (built for
    /// thumbv7em-none-eabihf) into the machine; none while the project has
    /// no folder.
    pub fn load_elf_command(&self) -> (r: Option<String>)
        ensures
            match self.location {
                Some(l) => r is Some && r->0@ == "sysbus LoadELF @"@ + l@
                    + "/target/thumbv7em-none-eabihf/debug/"@ + self.name@,
                None => r is None,
            },
    {
        match &self.location {
            Some(l) => {
                let mut c = String::from_str("sysbus LoadELF @");
                c.append(l.as_str());
                c.append("/target/thumbv7em-none-eabihf/debug/");
                c.append(self.name.as_str());
                Some(c)
            },
            None => None,
        }
    }

    /// Whether files can be added to the project: only once it has a
    /// folder; otherwise the terminal pane says so.
    pub fn can_add_files(&mut self) -> (r: bool)
        ensures
            r == old(self).location is Some,
            r ==> final(self).terminal_buffer == old(self).terminal_buffer,
            !r ==> final(self).terminal_buffer@ == old(self).terminal_buffer@
                + "must save project before adding files/directories"@ + "\n"@,
            final(self).location == old(self).location,
            final(self).boards == old(self).boards,
    {
        if self.location.is_none() {
            self.info_logger("must save project before adding files/directories");
            return false;
        }
        true
    }

    /// The arguments of `cargo generate` that writes the project template
    /// into the project folder: the template of the main board when it has
    /// one, the basic template otherwise; refused while the project has no
    /// board.
    pub fn cargo_template_command(&self) -> (r: Result<Vec<String>, String>)
        ensures
            self.boards@.len() == 0 ==> r is Err && r->Err_0@
                == "The system needs a main board before generating the template!"@,
            self.boards@.len() > 0 ==> r is Ok && strs(r->Ok_0@) == seq![
                "generate"@,
                "--path"@,
                template_path(self.boards@),
                "--name"@,
                self.name@,
                "--destination"@,
                match self.location {
                    Some(l) => l@,
                    None => Seq::<char>::empty(),
                },
                "--init"@,
            ],
    {
        if self.boards.len() == 0 {
            return Err(String::from_str("The system needs a main board before generating the template!"));
        }
        let name = self.get_name();
        let location = self.get_location();
        let template = if self.has_main_board() {
            match &self.boards[0].template_dir {
                Some(t) => t.clone(),
                None => String::from_str("templates/basic/"),
            }
        } else {
            String::from_str("templates/basic/")
        };
        let r = strings_of(
            &[
                "generate",
                "--path",
                template.as_str(),
                "--name",
                name.as_str(),
                "--destination",
                location.as_str(),
                "--init",
            ],
        );
        Ok(r)
    }

    /// The commands that install the crates the boards require: for each
    /// board that lists required crates, create the package, then add each
    /// crate. None while the project has no folder.
    pub fn add_crates_commands(&self) -> (r: Option<Vec<Vec<Vec<String>>>>)
        ensures
            self.location is None ==> r is None,
            self.location is Some ==> r is Some && batches_view(r->0@) == crate_batches(
                self.location->0@,
                self.name@,
                self.boards@,
            ),
    {
        let folder = match &self.location {
            Some(l) => l,
            None => return None,
        };
        let mut out: Vec<Vec<Vec<String>>> = Vec::new();
        let mut i: usize = 0;
        while i < self.boards.len()
            invariant
                i <= self.boards.len(),
                self.location == Some(*folder),
                batches_view(out@) == crate_batches(folder@, self.name@, self.boards@.take(i as int)),
            decreases self.boards.len() - i,
        {
            proof {
                let t = self.boards@.take(i + 1);
                assert(t.drop_last() =~= self.boards@.take(i as int));
                assert(t.last() == self.boards@[i as int]);
            }
            match &self.boards[i].required_crates {
                Some(rc) => {
                    let mut batch: Vec<Vec<String>> = Vec::new();
                    let mut init = cargo_in_folder(folder.as_str(), "init");
                    let tail = strings_of(&["--name", self.name.as_str(), "--vcs", "none"]);
                    let mut k: usize = 0;
                    let ghost init0 = strs(init@);
                    while k < tail.len()
                        invariant
                            k <= tail.len(),
                            strs(init@) == init0 + strs(tail@).take(k as int),
                        decreases tail.len() - k,
                    {
                        let ghost before = init@;
                        init.push(tail[k].clone());
                        proof {
                            assert(strs(init@) =~= strs(before).push(tail@[k as int]@));
                            assert(strs(tail@).take(k + 1) =~= strs(tail@).take(k as int).push(
                                tail@[k as int]@,
                            ));
                        }
                        k = k + 1;
                    }
                    proof {
                        assert(strs(tail@).take(k as int) =~= strs(tail@));
                        assert(strs(init@) =~= cargo_init_args(folder@, self.name@));
                    }
                    batch.push(init);
                    let mut j: usize = 0;
                    while j < rc.len()
                        invariant
                            j <= rc.len(),
                            cmds_view(batch@) == seq![cargo_init_args(folder@, self.name@)]
                                + rc@.take(j as int).map_values(
                                |c: String| cargo_add_args(folder@, c@),
                            ),
                        decreases rc.len() - j,
                    {
                        let mut add = cargo_in_folder(folder.as_str(), "add");
                        let ghost a0 = strs(add@);
                        add.push(rc[j].clone());
                        let ghost before = batch@;
                        proof {
                            assert(strs(add@) =~= a0.push(rc@[j as int]@));
                            assert(strs(add@) =~= cargo_add_args(folder@, rc@[j as int]@));
                        }
                        batch.push(add);
                        proof {
                            assert(batch@ =~= before.push(add));
                            assert(cmds_view(batch@) =~= cmds_view(before).push(
                                cargo_add_args(folder@, rc@[j as int]@),
                            ));
                            assert(rc@.take(j + 1).map_values(
                                |c: String| cargo_add_args(folder@, c@),
                            ) =~= rc@.take(j as int).map_values(
                                |c: String| cargo_add_args(folder@, c@),
                            ).push(cargo_add_args(folder@, rc@[j as int]@)));
                        }
                        j = j + 1;
                    }
                    proof {
                        assert(rc@.take(j as int) =~= rc@);
                    }
                    let ghost ob = out@;
                    out.push(batch);
                    proof {
                        assert(batches_view(out@) =~= batches_view(ob).push(cmds_view(batch@)));
                    }
                },
                None => {},
            }
            i = i + 1;
        }
        assert(self.boards@.take(i as int) =~= self.boards@);
        Some(out)
    }

    /// Adds a board to the project and tells whether it was added. A main
    /// board is refused when the project already starts with one; any other
    /// board is refused when the project already holds a board of that name,
    /// which the terminal pane reports. An added board joins the system too,
    /// as its main board, or among its peripherals or its discrete components.
    pub fn add_board(&mut self, board: Board) -> (added: bool)
        ensures
            added == !add_refused(old(self).boards@, board),
            added ==> final(self).boards@ == old(self).boards@.push(board),
            !added ==> final(self).boards@ == old(self).boards@,
            !added && board.board_type != crate::board::BoardType::Main
                ==> final(self).terminal_buffer@ == old(self).terminal_buffer@
                + "project already contains that board\n"@,
            added || board.board_type == crate::board::BoardType::Main
                ==> final(self).terminal_buffer@ == old(self).terminal_buffer@,
            added ==> final(self).system@ == system::placed(old(self).system@, board@),
            !added ==> final(self).system == old(self).system,
            final(self).name == old(self).name,
            final(self).location == old(self).location,
    {
        if board.is_main_board() {
            if self.has_main_board() {
                return false;
            }
        } else {
            if find_board(&self.boards, board.name.as_str()).is_some() {
                self.terminal_buffer.append("project already contains that board\n");
                return false;
            }
        }
        let copy = board.clone();
        match copy.board_type {
            crate::board::BoardType::Main => {
                self.system.main_board = Some(copy);
            },
            crate::board::BoardType::Peripheral => {
                self.system.peripheral_boards.push(copy);
            },
            crate::board::BoardType::Discrete => {
                self.system.discrete_components.push(copy);
            },
        }
        self.boards.push(board);
        proof {
            assert(self.system@ =~= system::placed(old(self).system@, board@));
        }
        true
    }

    /// Replaces each project board by the first known board of the same
    /// name, with everything found beside it; boards that are not known stay
    /// as they are.
    pub fn load_board_resources(&mut self, known_boards: Vec<Board>)
        ensures
            final(self).boards@.len() == old(self).boards@.len(),
            forall|i: int|
                0 <= i < old(self).boards@.len() ==> #[trigger] resources_loaded(
                    known_boards@,
                    old(self).boards@[i],
                    final(self).boards@[i],
                ),
            final(self).name == old(self).name,
            final(self).location == old(self).location,
            final(self).terminal_buffer == old(self).terminal_buffer,
    {
        let ghost old_boards = self.boards@;
        let mut i: usize = 0;
        while i < self.boards.len()
            invariant
                i <= self.boards.len(),
                self.boards@.len() == old_boards.len(),
                forall|k: int| i <= k < old_boards.len() ==> #[trigger] self.boards@[k] == old_boards[k],
                forall|k: int|
                    0 <= k < i ==> #[trigger] resources_loaded(
                        known_boards@,
                        old_boards[k],
                        self.boards@[k],
                    ),
                self.name == old(self).name,
                self.location == old(self).location,
                self.terminal_buffer == old(self).terminal_buffer,
            decreases old_boards.len() - i,
        {
            let ghost before = self.boards@;
            match find_board(&known_boards, self.boards[i].name.as_str()) {
                Some(j) => {
                    proof {
                        lemma_first_named_is(known_boards@, old_boards[i as int].name@, j as int);
                    }
                    let b = known_boards[j].clone();
                    self.boards.set(i, b);
                },
                None => {},
            }
            proof {
                assert(resources_loaded(known_boards@, old_boards[i as int], self.boards@[i as int]));
                assert forall|k: int| 0 <= k < i + 1 implies #[trigger] resources_loaded(
                    known_boards@,
                    old_boards[k],
                    self.boards@[k],
                ) by {
                    if k < i {
                        assert(self.boards@[k] == before[k]);
                    }
                }
            }
            i = i + 1;
        }
    }
}

} // verus!
