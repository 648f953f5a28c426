//! A hardware system: a main board, peripheral boards, and the connections
//! between their pins.

use vstd::prelude::*;

use crate::board::{Board, BoardType, BoardView, opt_str_view};
use crate::board::parsing::BspParseInfo;
use crate::text::{int_decimal, usize_to_string, strs, contains_seq, contains_str};
use crate::board::pinout::{InterfaceMapping, InterfaceMappingView};

verus! {

/// Why a system operation failed.
#[derive(Clone, Copy, Debug, PartialEq, Eq, Structural)]
#[non_exhaustive]
pub enum SystemError {
    BoardNotInSystemError,
}

/// A physical bus connecting a pin of one board to a pin of another.
#[derive(Debug)]
pub struct Connection {
    /// The name of the connection, searched for in the source code.
    pub name: String,
    pub start_board: Board,
    pub start_pin: String,
    pub end_board: Board,
    pub end_pin: String,
    pub interface_mapping: InterfaceMapping,
}

/// The boards of a system and their interconnections.
#[derive(Debug)]
pub struct System {
    /// The main, programmable board.
    pub main_board: Option<Board>,
    /// The peripheral boards.
    pub peripheral_boards: Vec<Board>,
    /// The discrete components (resistors, LEDs, buttons...).
    pub discrete_components: Vec<Board>,
    /// The connections between boards.
    pub connections: Vec<Connection>,
    /// The board and pin where a connection being drawn starts.
    pub in_progress_connection_start: Option<(Board, String)>,
    pub in_progress_connection_end: Option<(Board, String)>,
}

/// The value of a connection.
pub struct ConnectionView {
    pub name: Seq<char>,
    pub start_board: BoardView,
    pub start_pin: Seq<char>,
    pub end_board: BoardView,
    pub end_pin: Seq<char>,
    pub interface_mapping: InterfaceMappingView,
}

impl View for Connection {
    type V = ConnectionView;

    open spec fn view(&self) -> ConnectionView {
        ConnectionView {
            name: self.name@,
            start_board: self.start_board@,
            start_pin: self.start_pin@,
            end_board: self.end_board@,
            end_pin: self.end_pin@,
            interface_mapping: self.interface_mapping@,
        }
    }
}

impl Clone for Connection {
    fn clone(&self) -> (r: Self)
        ensures
            r@ == self@,
    {
        Connection {
            name: self.name.clone(),
            start_board: self.start_board.clone(),
            start_pin: self.start_pin.clone(),
            end_board: self.end_board.clone(),
            end_pin: self.end_pin.clone(),
            interface_mapping: self.interface_mapping.clone(),
        }
    }
}

/// The value of a board and pin where a connection being drawn ends.
pub open spec fn pin_end_view(o: Option<(Board, String)>) -> Option<(BoardView, Seq<char>)> {
    match o {
        Some(p) => Some((p.0@, p.1@)),
        None => None,
    }
}

/// The value of a system.
#[verifier::ext_equal]
pub struct SystemView {
    pub main_board: Option<BoardView>,
    pub peripheral_boards: Seq<BoardView>,
    pub discrete_components: Seq<BoardView>,
    pub connections: Seq<ConnectionView>,
    pub in_progress_connection_start: Option<(BoardView, Seq<char>)>,
    pub in_progress_connection_end: Option<(BoardView, Seq<char>)>,
}

impl View for System {
    type V = SystemView;

    open spec fn view(&self) -> SystemView {
        SystemView {
            main_board: match self.main_board {
                Some(b) => Some(b@),
                None => None,
            },
            peripheral_boards: self.peripheral_boards@.map_values(|b: Board| b@),
            discrete_components: self.discrete_components@.map_values(|b: Board| b@),
            connections: self.connections@.map_values(|c: Connection| c@),
            in_progress_connection_start: pin_end_view(self.in_progress_connection_start),
            in_progress_connection_end: pin_end_view(self.in_progress_connection_end),
        }
    }
}

/// A copy of a list of boards with the same values.
pub fn clone_boards(v: &Vec<Board>) -> (r: Vec<Board>)
    ensures
        r@.map_values(|b: Board| b@) == v@.map_values(|b: Board| b@),
{
    let mut r: Vec<Board> = Vec::new();
    let mut i: usize = 0;
    while i < v.len()
        invariant
            i <= v.len(),
            r@.len() == i,
            forall|j: int| 0 <= j < i ==> #[trigger] r@[j]@ == v@[j]@,
        decreases v.len() - i,
    {
        r.push(v[i].clone());
        i = i + 1;
    }
    assert(r@.map_values(|b: Board| b@) =~= v@.map_values(|b: Board| b@));
    r
}

/// A copy of a board and pin where a connection being drawn ends.
fn clone_pin_end(o: &Option<(Board, String)>) -> (r: Option<(Board, String)>)
    ensures
        pin_end_view(r) == pin_end_view(*o),
{
    match o {
        Some(p) => Some((p.0.clone(), p.1.clone())),
        None => None,
    }
}

impl Clone for System {
    fn clone(&self) -> (r: Self)
        ensures
            r@ == self@,
    {
        let mut connections: Vec<Connection> = Vec::new();
        let mut i: usize = 0;
        while i < self.connections.len()
            invariant
                i <= self.connections.len(),
                connections@.len() == i,
                forall|j: int| 0 <= j < i ==> #[trigger] connections@[j]@ == self.connections@[j]@,
            decreases self.connections.len() - i,
        {
            connections.push(self.connections[i].clone());
            i = i + 1;
        }
        let r = System {
            main_board: match &self.main_board {
                Some(b) => Some(b.clone()),
                None => None,
            },
            peripheral_boards: clone_boards(&self.peripheral_boards),
            discrete_components: clone_boards(&self.discrete_components),
            connections,
            in_progress_connection_start: clone_pin_end(&self.in_progress_connection_start),
            in_progress_connection_end: clone_pin_end(&self.in_progress_connection_end),
        };
        assert(r@.connections =~= self@.connections);
        r
    }
}

impl Default for System {
    fn default() -> (r: Self)
        ensures
            r.main_board is None,
            r.peripheral_boards@.len() == 0,
            r.discrete_components@.len() == 0,
            r.connections@.len() == 0,
            r.in_progress_connection_start is None,
            r.in_progress_connection_end is None,
    {
        System {
            main_board: None,
            peripheral_boards: Vec::new(),
            discrete_components: Vec::new(),
            connections: Vec::new(),
            in_progress_connection_start: None,
            in_progress_connection_end: None,
        }
    }
}


/// Whether a connection involves the board with the given name at either end.
pub open spec fn touches(c: Connection, name: Seq<char>) -> bool {
    c.start_board.name@ == name || c.end_board.name@ == name
}

/// The connections that do not involve the board with the given name, in
/// their order.
pub open spec fn without_board(s: Seq<Connection>, name: Seq<char>) -> Seq<Connection>
    decreases s.len(),
{
    if s.len() == 0 {
        s
    } else if touches(s.last(), name) {
        without_board(s.drop_last(), name)
    } else {
        without_board(s.drop_last(), name).push(s.last())
    }
}

/// The connections whose name differs from the given one, in their order.
pub open spec fn without_named(s: Seq<Connection>, name: Seq<char>) -> Seq<Connection>
    decreases s.len(),
{
    if s.len() == 0 {
        s
    } else if s.last().name@ == name {
        without_named(s.drop_last(), name)
    } else {
        without_named(s.drop_last(), name).push(s.last())
    }
}

/// Removing the connections of a board leaves none that involves it, keeps
/// every other connection, and keeps their order.
pub proof fn lemma_without_board(s: Seq<Connection>, name: Seq<char>)
    ensures
        forall|i: int|
            0 <= i < without_board(s, name).len() ==> !touches(
                #[trigger] without_board(s, name)[i],
                name,
            ),
        forall|i: int| 0 <= i < s.len() && !touches(#[trigger] s[i], name) ==> without_board(
            s,
            name,
        ).contains(s[i]),
        without_board(s, name).len() <= s.len(),
        without_board(without_board(s, name), name) == without_board(s, name),
    decreases s.len(),
{
    if s.len() > 0 {
        let r = s.drop_last();
        lemma_without_board(r, name);
        let w = without_board(r, name);
        assert forall|i: int| 0 <= i < s.len() && !touches(#[trigger] s[i], name) implies without_board(
            s,
            name,
        ).contains(s[i]) by {
            if i < s.len() - 1 {
                assert(r[i] == s[i]);
                assert(w.contains(r[i]));
                if !touches(s.last(), name) {
                    let k = choose|k: int| 0 <= k < w.len() && w[k] == r[i];
                    assert(w.push(s.last())[k] == s[i]);
                }
            } else {
                assert(w.push(s.last())[w.len() as int] == s[i]);
            }
        }
        if !touches(s.last(), name) {
            let ws = w.push(s.last());
            assert(ws.drop_last() =~= w);
            assert(without_board(ws, name) == without_board(w, name).push(s.last()));
        }
    }
}

/// Deleting the connections of a name leaves none of that name, keeps every
/// other connection, and keeps their order.
pub proof fn lemma_without_named(s: Seq<Connection>, name: Seq<char>)
    ensures
        forall|i: int|
            0 <= i < without_named(s, name).len() ==> (#[trigger] without_named(s, name)[i]).name@
                != name,
        forall|i: int| 0 <= i < s.len() && (#[trigger] s[i]).name@ != name ==> without_named(
            s,
            name,
        ).contains(s[i]),
        without_named(s, name).len() <= s.len(),
        without_named(without_named(s, name), name) == without_named(s, name),
    decreases s.len(),
{
    if s.len() > 0 {
        let r = s.drop_last();
        lemma_without_named(r, name);
        let w = without_named(r, name);
        assert forall|i: int| 0 <= i < s.len() && (#[trigger] s[i]).name@ != name implies without_named(
            s,
            name,
        ).contains(s[i]) by {
            if i < s.len() - 1 {
                assert(r[i] == s[i]);
                assert(w.contains(r[i]));
                if s.last().name@ != name {
                    let k = choose|k: int| 0 <= k < w.len() && w[k] == r[i];
                    assert(w.push(s.last())[k] == s[i]);
                }
            } else {
                assert(w.push(s.last())[w.len() as int] == s[i]);
            }
        }
        if s.last().name@ != name {
            let ws = w.push(s.last());
            assert(ws.drop_last() =~= w);
            assert(without_named(ws, name) == without_named(w, name).push(s.last()));
        }
    }
}

/// The boards of a system: the main board, then the peripherals, then the
/// discrete components; none at all while the system has no main board.
pub open spec fn all_boards(s: System) -> Seq<BoardView> {
    match s.main_board {
        Some(mb) => seq![mb@] + s.peripheral_boards@.map_values(|b: Board| b@)
            + s.discrete_components@.map_values(|b: Board| b@),
        None => Seq::empty(),
    }
}

/// A system with one more board, placed by its kind: as the main board, or
/// after the other peripherals, or after the other discrete components.
pub open spec fn placed(s: SystemView, b: BoardView) -> SystemView {
    match b.board_type {
        BoardType::Main => SystemView { main_board: Some(b), ..s },
        BoardType::Peripheral => SystemView { peripheral_boards: s.peripheral_boards.push(b), ..s },
        BoardType::Discrete => SystemView {
            discrete_components: s.discrete_components.push(b),
            ..s
        },
    }
}

/// The name the system gives its `n`-th connection.
pub open spec fn connection_name(n: int) -> Seq<char> {
    "connection_"@ + int_decimal(n)
}

/// The crate of a board's BSP, when its BSP has been inspected.
pub open spec fn bsp_crate(b: Board) -> Option<Seq<char>> {
    match b.bsp_parse_info {
        Some(info) => match info.bsp_crate_identifier {
            Some(c) => Some(c@),
            None => None,
        },
        None => None,
    }
}

/// The BSP crates of the boards at both ends of each connection, in order.
pub open spec fn connection_crates(s: Seq<Connection>) -> Seq<Seq<char>>
    decreases s.len(),
{
    if s.len() == 0 {
        Seq::empty()
    } else {
        let c = s.last();
        let a = match bsp_crate(c.start_board) {
            Some(x) => seq![x],
            None => Seq::empty(),
        };
        let b = match bsp_crate(c.end_board) {
            Some(x) => seq![x],
            None => Seq::empty(),
        };
        connection_crates(s.drop_last()) + a + b
    }
}

/// A list without repeats, keeping each item where it first occurs.
pub open spec fn dedup_first(s: Seq<Seq<char>>) -> Seq<Seq<char>>
    decreases s.len(),
{
    if s.len() == 0 {
        s
    } else if dedup_first(s.drop_last()).contains(s.last()) {
        dedup_first(s.drop_last())
    } else {
        dedup_first(s.drop_last()).push(s.last())
    }
}

/// The `use` lines of the system module, one per crate, in order.
pub open spec fn use_lines(crates: Seq<Seq<char>>) -> Seq<char>
    decreases crates.len(),
{
    if crates.len() == 0 {
        Seq::empty()
    } else {
        use_lines(crates.drop_last()) + "use "@ + crates.last() + ";\n"@
    }
}

/// The items of the system module after its `use` lines: the `System`
/// struct and its constructor.
pub open spec fn system_items() -> Seq<char> {
    "pub struct System {}\nimpl System {\n    pub fn new() -> Self {\n        Self {}\n    }\n}\n"@
}

/// The crates the system module of a system imports.
pub open spec fn module_crates(s: System) -> Seq<Seq<char>> {
    dedup_first(connection_crates(s.connections@))
}

/// The source of the system module for a system: a `use` line for each
/// required BSP crate, then the `System` items.
pub open spec fn module_source(s: System) -> Seq<char> {
    use_lines(module_crates(s)) + system_items()
}

/// The comment that stands for a module that could not be generated.
pub open spec fn placeholder_source() -> Seq<char> {
    "// error generating module"@
}

/// Whether a character may stand in the name of an imported crate: an ASCII
/// letter, digit or underscore, or any character beyond ASCII (the
/// characters of non-English identifiers; any other such character makes
/// the source fail to parse).
pub open spec fn name_char(c: char) -> bool {
    ('a' <= c && c <= 'z') || ('A' <= c && c <= 'Z') || ('0' <= c && c <= '9') || c == '_'
        || (c as u32) >= 0x80
}

/// Whether every crate name is made of characters that may stand in a
/// name (no ASCII punctuation or white space).
pub open spec fn plain_names(crates: Seq<Seq<char>>) -> bool {
    forall|i: int, j: int|
        0 <= i < crates.len() && 0 <= j < crates[i].len() ==> name_char(#[trigger] crates[i][j])
}

/// The texts that are formatted: the placeholder comment, and module
/// sources whose crate names are plain (their items are `use` items of one
/// name, a unit-like struct and its constructor, or the text does not parse).
pub open spec fn formattable(source: Seq<char>) -> bool {
    source == placeholder_source() || exists|crates: Seq<Seq<char>>|
        plain_names(crates) && source == use_lines(crates) + system_items()
}

/// What the formatter makes of a Rust source text: the text printed again
/// from its syntax tree, or none when the text is not a Rust file.
pub uninterp spec fn formatted_source(source: Seq<char>) -> Option<Seq<char>>;

/// Formats a module source: parses it with `syn::parse_str` into a file and
/// prints the file with `prettyplease::unparse`. Claimed: the result is the
/// named value `formatted_source` of the text; how it is laid out is not
/// stated. Only the texts the module generator produces are admitted: on
/// some other syntax trees the formatter stops with a panic.
#[verifier::external_body]
fn format_source(source: &str) -> (r: Option<String>)
    requires
        formattable(source@),
    ensures
        opt_str_view(r) == formatted_source(source@),
{
    syn::parse_str::<syn::File>(source).ok().map(|file| prettyplease::unparse(&file))
}

/// The formatted placeholder comment.
pub open spec fn placeholder_code() -> Seq<char> {
    match formatted_source(placeholder_source()) {
        Some(code) => code,
        None => Seq::empty(),
    }
}

/// The text of the generated system module: the formatted module source
/// when its crate names are plain and it parses; the formatted placeholder
/// comment otherwise.
pub open spec fn module_code(s: System) -> Seq<char> {
    if plain_names(module_crates(s)) {
        match formatted_source(module_source(s)) {
            Some(code) => code,
            None => placeholder_code(),
        }
    } else {
        placeholder_code()
    }
}

/// Whether a text is made of characters that may stand in a name.
fn is_plain_name(s: &str) -> (r: bool)
    ensures
        r == forall|j: int| 0 <= j < s@.len() ==> name_char(#[trigger] s@[j]),
{
    let v = crate::text::chars_of(s);
    let mut i: usize = 0;
    while i < v.len()
        invariant
            v@ == s@,
            i <= v.len(),
            forall|j: int| 0 <= j < i ==> name_char(#[trigger] v@[j]),
        decreases v.len() - i,
    {
        let c = v[i];
        if !(('a' <= c && c <= 'z') || ('A' <= c && c <= 'Z') || ('0' <= c && c <= '9') || c == '_'
            || (c as u32) >= 0x80) {
            assert(!name_char(v@[i as int]));
            return false;
        }
        i = i + 1;
    }
    true
}

/// Whether all crate names are plain.
fn all_plain_names(crates: &Vec<String>) -> (r: bool)
    ensures
        r == plain_names(strs(crates@)),
{
    let mut i: usize = 0;
    while i < crates.len()
        invariant
            i <= crates.len(),
            forall|k: int, j: int|
                0 <= k < i && 0 <= j < strs(crates@)[k].len() ==> name_char(
                    #[trigger] strs(crates@)[k][j],
                ),
        decreases crates.len() - i,
    {
        assert(strs(crates@)[i as int] == crates@[i as int]@);
        if !is_plain_name(crates[i].as_str()) {
            return false;
        }
        i = i + 1;
    }
    true
}

/// The crates of the system module are the required crates, each once:
/// keeping the first of repeated items leaves no repeats and loses no item.
pub proof fn lemma_dedup_first(s: Seq<Seq<char>>)
    ensures
        forall|i: int, j: int|
            0 <= i < j < dedup_first(s).len() ==> #[trigger] dedup_first(s)[i] != #[trigger] dedup_first(
                s,
            )[j],
        forall|x: Seq<char>| #[trigger] dedup_first(s).contains(x) <==> s.contains(x),
    decreases s.len(),
{
    if s.len() > 0 {
        let r = s.drop_last();
        lemma_dedup_first(r);
        let d = dedup_first(r);
        assert forall|x: Seq<char>| #[trigger] dedup_first(s).contains(x) <==> s.contains(x) by {
            if s.contains(x) {
                let k = choose|k: int| 0 <= k < s.len() && s[k] == x;
                if k < s.len() - 1 {
                    assert(r[k] == x);
                    assert(r.contains(x));
                    assert(d.contains(x));
                    let m = choose|m: int| 0 <= m < d.len() && d[m] == x;
                    if !d.contains(s.last()) {
                        assert(d.push(s.last())[m] == x);
                    }
                } else {
                    if !d.contains(s.last()) {
                        assert(d.push(s.last())[d.len() as int] == x);
                    }
                }
            }
            if dedup_first(s).contains(x) {
                let m = choose|m: int| 0 <= m < dedup_first(s).len() && dedup_first(s)[m] == x;
                if d.contains(s.last()) {
                    assert(d.contains(x));
                    let k = choose|k: int| 0 <= k < r.len() && r[k] == x;
                    assert(s[k] == x);
                } else if m < d.len() {
                    assert(d[m] == x);
                    assert(d.contains(x));
                    let k = choose|k: int| 0 <= k < r.len() && r[k] == x;
                    assert(s[k] == x);
                } else {
                    assert(s[s.len() - 1] == x);
                }
            }
        }
    }
}


/// The crate of a board's inspected BSP, if any.
fn board_bsp_crate(b: &Board) -> (r: Option<String>)
    ensures
        match r {
            Some(x) => bsp_crate(*b) == Some(x@),
            None => bsp_crate(*b) is None,
        },
{
    match &b.bsp_parse_info {
        Some(info) => match &info.bsp_crate_identifier {
            Some(c) => Some(c.clone()),
            None => None,
        },
        None => None,
    }
}

/// Appends a crate to a list without repeats, unless it is already there.
fn push_unique(v: &mut Vec<String>, x: String)
    ensures
        strs(final(v)@) == if strs(old(v)@).contains(x@) {
            strs(old(v)@)
        } else {
            strs(old(v)@).push(x@)
        },
{
    if !crate::text::contains_string(v, x.as_str()) {
        let ghost before = v@;
        v.push(x);
        assert(strs(v@) =~= strs(before).push(x@));
    }
}

/// Appends copies of boards to a list.
fn append_copies(out: &mut Vec<Board>, v: &Vec<Board>)
    ensures
        final(out)@.map_values(|b: Board| b@) == old(out)@.map_values(|b: Board| b@)
            + v@.map_values(|b: Board| b@),
{
    let ghost start = out@.map_values(|b: Board| b@);
    let mut i: usize = 0;
    while i < v.len()
        invariant
            i <= v.len(),
            out@.map_values(|b: Board| b@) == start + v@.take(i as int).map_values(|b: Board| b@),
        decreases v.len() - i,
    {
        let ghost before = out@;
        out.push(v[i].clone());
        proof {
            assert(out@.map_values(|b: Board| b@) =~= before.map_values(|b: Board| b@).push(
                v@[i as int]@,
            ));
            assert(v@.take(i + 1).map_values(|b: Board| b@) =~= v@.take(i as int).map_values(
                |b: Board| b@,
            ).push(v@[i as int]@));
        }
        i = i + 1;
    }
    assert(v@.take(i as int) =~= v@);
}

impl System {
    /// All the system boards: the main board, then the peripherals, then the
    /// discrete components. If there is no main board, this returns an empty
    /// vector.
    pub fn get_all_boards(&self) -> (r: Vec<Board>)
        ensures
            r@.map_values(|b: Board| b@) == all_boards(*self),
    {
        let mut boards: Vec<Board> = Vec::new();
        match &self.main_board {
            Some(mb) => boards.push(mb.clone()),
            None => {
                assert(boards@.map_values(|b: Board| b@) =~= all_boards(*self));
                return boards;
            },
        }
        let ghost start = boards@.map_values(|b: Board| b@);
        append_copies(&mut boards, &self.peripheral_boards);
        append_copies(&mut boards, &self.discrete_components);
        proof {
            assert(start =~= seq![self.main_board->0@]);
            assert(boards@.map_values(|b: Board| b@) =~= all_boards(*self));
        }
        boards
    }

    /// Removes the connections that involve the board with the given name.
    fn remove_connections_involving_board(&mut self, name: &str)
        ensures
            final(self).connections@ == without_board(old(self).connections@, name@),
            final(self).main_board == old(self).main_board,
            final(self).peripheral_boards == old(self).peripheral_boards,
            final(self).discrete_components == old(self).discrete_components,
            final(self).in_progress_connection_start == old(self).in_progress_connection_start,
            final(self).in_progress_connection_end == old(self).in_progress_connection_end,
    {
        let mut rest: Vec<Connection> = Vec::new();
        std::mem::swap(&mut rest, &mut self.connections);
        let ghost all = rest@;
        let total = rest.len();
        let mut kept: Vec<Connection> = Vec::new();
        let mut i: usize = 0;
        while rest.len() > 0
            invariant
                i <= all.len(),
                rest@ == all.skip(i as int),
                i + rest@.len() == all.len(),
                all.len() == total,
                kept@ == without_board(all.take(i as int), name@),
            decreases rest.len(),
        {
            let c = rest.remove(0);
            proof {
                assert(c == all[i as int]);
                let t = all.take(i + 1);
                assert(t.drop_last() =~= all.take(i as int));
                assert(t.last() == all[i as int]);
                assert(rest@ =~= all.skip(i + 1));
            }
            if !(crate::text::str_eq(c.start_board.name.as_str(), name)
                || crate::text::str_eq(c.end_board.name.as_str(), name)) {
                kept.push(c);
            }
            i = i + 1;
        }
        proof {
            assert(all.skip(i as int).len() == 0);
            assert(all.take(i as int) =~= all);
        }
        self.connections = kept;
    }

    /// Removes a board, the main board or else the first peripheral or else
    /// the first discrete component of the same name, together with all
    /// connections involving it. A board not in the system is refused and
    /// nothing changes.
    pub fn remove_board(&mut self, board: Board) -> (r: Result<(), SystemError>)
        ensures
            ({
                let name = board.name@;
                let is_main = old(self).main_board matches Some(mb) && mb.name@ == name;
                let in_peripherals = crate::project::has_board_named(
                    old(self).peripheral_boards@,
                    name,
                );
                let in_discretes = crate::project::has_board_named(
                    old(self).discrete_components@,
                    name,
                );
                &&& is_main ==> r is Ok && final(self).main_board is None
                    && final(self).peripheral_boards == old(self).peripheral_boards
                    && final(self).discrete_components == old(self).discrete_components
                &&& !is_main && in_peripherals ==> r is Ok
                    && final(self).main_board == old(self).main_board
                    && final(self).peripheral_boards@ == old(self).peripheral_boards@.remove(
                        crate::project::first_named(old(self).peripheral_boards@, name),
                    )
                    && final(self).discrete_components == old(self).discrete_components
                &&& !is_main && !in_peripherals && in_discretes ==> r is Ok
                    && final(self).main_board == old(self).main_board
                    && final(self).peripheral_boards == old(self).peripheral_boards
                    && final(self).discrete_components@ == old(self).discrete_components@.remove(
                        crate::project::first_named(old(self).discrete_components@, name),
                    )
                &&& r is Ok ==> final(self).connections@ == without_board(
                    old(self).connections@,
                    name,
                )
                &&& !is_main && !in_peripherals && !in_discretes
                    ==> r == Err::<(), SystemError>(SystemError::BoardNotInSystemError)
                    && *final(self) == *old(self)
            }),
            final(self).in_progress_connection_start == old(self).in_progress_connection_start,
            final(self).in_progress_connection_end == old(self).in_progress_connection_end,
    {
        let is_main = match &self.main_board {
            Some(mb) => mb.same_board(&board),
            None => false,
        };
        if is_main {
            self.main_board = None;
            self.remove_connections_involving_board(board.name.as_str());
            return Ok(());
        }
        match crate::project::find_board(&self.peripheral_boards, board.name.as_str()) {
            Some(idx) => {
                proof {
                    crate::project::lemma_first_named_is(
                        self.peripheral_boards@,
                        board.name@,
                        idx as int,
                    );
                }
                let _ = self.peripheral_boards.remove(idx);
                self.remove_connections_involving_board(board.name.as_str());
                return Ok(());
            },
            None => {},
        }
        match crate::project::find_board(&self.discrete_components, board.name.as_str()) {
            Some(idx) => {
                proof {
                    crate::project::lemma_first_named_is(
                        self.discrete_components@,
                        board.name@,
                        idx as int,
                    );
                }
                let _ = self.discrete_components.remove(idx);
                self.remove_connections_involving_board(board.name.as_str());
                Ok(())
            },
            None => Err(SystemError::BoardNotInSystemError),
        }
    }

    /// A pin was clicked while a connection is being drawn: the first click
    /// marks where the connection starts; the second adds the connection,
    /// named after the number of connections before it, and ends the drawing.
    /// Tells whether a connection was added.
    pub fn pin_clicked(&mut self, board: &Board, pin: &str) -> (added: bool)
        ensures
            added == old(self).in_progress_connection_start is Some,
            !added ==> final(self).in_progress_connection_start is Some && ({
                let st = final(self).in_progress_connection_start->0;
                st.0@ == board@ && st.1@ == pin@
            }) && final(self).connections == old(self).connections,
            added ==> final(self).in_progress_connection_start is None
                && final(self).in_progress_connection_end is None && final(self).connections@.len() == old(self).connections@.len() + 1 && final(self).connections@.take(old(self).connections@.len() as int) == old(self).connections@
                && ({
                let c = final(self).connections@.last();
                let st = old(self).in_progress_connection_start->0;
                &&& c.name@ == connection_name(old(self).connections@.len() as int)
                &&& c.start_board == st.0
                &&& c.start_pin == st.1
                &&& c.end_board@ == board@
                &&& c.end_pin@ == pin@
                &&& c.interface_mapping@.pins.len() == 0
                &&& c.interface_mapping@.interface == crate::board::pinout::Interface {
                    iface_type: crate::board::pinout::InterfaceType::NONE,
                    direction: crate::board::pinout::InterfaceDirection::Unknown,
                }
            }),
            final(self).main_board == old(self).main_board,
            final(self).peripheral_boards == old(self).peripheral_boards,
            final(self).discrete_components == old(self).discrete_components,
    {
        let start = self.in_progress_connection_start.take();
        match start {
            None => {
                self.in_progress_connection_start = Some((board.clone(), String::from_str(pin)));
                false
            },
            Some((start_board, start_pin)) => {
                let mut name = String::from_str("connection_");
                name.append(usize_to_string(self.connections.len()).as_str());
                let c = Connection {
                    name,
                    start_board,
                    start_pin,
                    end_board: board.clone(),
                    end_pin: String::from_str(pin),
                    interface_mapping: InterfaceMapping::default(),
                };
                let ghost before = self.connections@;
                self.connections.push(c);
                self.in_progress_connection_start = None;
                self.in_progress_connection_end = None;
                assert(self.connections@.take(before.len() as int) =~= before);
                true
            },
        }
    }

    /// Abandons the connection being drawn.
    pub fn cancel_connection(&mut self)
        ensures
            final(self).in_progress_connection_start is None,
            final(self).connections == old(self).connections,
            final(self).main_board == old(self).main_board,
            final(self).peripheral_boards == old(self).peripheral_boards,
            final(self).discrete_components == old(self).discrete_components,
            final(self).in_progress_connection_end == old(self).in_progress_connection_end,
    {
        self.in_progress_connection_start = None;
    }

    /// Deletes every connection with the given name.
    pub fn delete_connection(&mut self, name: &str)
        ensures
            final(self).connections@ == without_named(old(self).connections@, name@),
            final(self).main_board == old(self).main_board,
            final(self).peripheral_boards == old(self).peripheral_boards,
            final(self).discrete_components == old(self).discrete_components,
            final(self).in_progress_connection_start == old(self).in_progress_connection_start,
            final(self).in_progress_connection_end == old(self).in_progress_connection_end,
    {
        let mut rest: Vec<Connection> = Vec::new();
        std::mem::swap(&mut rest, &mut self.connections);
        let ghost all = rest@;
        let total = rest.len();
        let mut kept: Vec<Connection> = Vec::new();
        let mut i: usize = 0;
        while rest.len() > 0
            invariant
                i <= all.len(),
                rest@ == all.skip(i as int),
                i + rest@.len() == all.len(),
                all.len() == total,
                kept@ == without_named(all.take(i as int), name@),
            decreases rest.len(),
        {
            let c = rest.remove(0);
            proof {
                assert(c == all[i as int]);
                let t = all.take(i + 1);
                assert(t.drop_last() =~= all.take(i as int));
                assert(t.last() == all[i as int]);
                assert(rest@ =~= all.skip(i + 1));
            }
            if !crate::text::str_eq(c.name.as_str(), name) {
                kept.push(c);
            }
            i = i + 1;
        }
        proof {
            assert(all.skip(i as int).len() == 0);
            assert(all.take(i as int) =~= all);
        }
        self.connections = kept;
    }

    /// The BSP crates the generated system module imports: those of the
    /// boards at both ends of each connection, each once, where it first
    /// occurs.
    pub fn required_bsp_crates(&self) -> (r: Vec<String>)
        ensures
            strs(r@) == dedup_first(connection_crates(self.connections@)),
    {
        let mut out: Vec<String> = Vec::new();
        let mut i: usize = 0;
        while i < self.connections.len()
            invariant
                i <= self.connections.len(),
                strs(out@) == dedup_first(connection_crates(self.connections@.take(i as int))),
            decreases self.connections.len() - i,
        {
            let c = &self.connections[i];
            let ghost prev = connection_crates(self.connections@.take(i as int));
            proof {
                let t = self.connections@.take(i + 1);
                assert(t.drop_last() =~= self.connections@.take(i as int));
                assert(t.last() == self.connections@[i as int]);
            }
            let a = board_bsp_crate(&c.start_board);
            let b = board_bsp_crate(&c.end_board);
            match a {
                Some(x) => {
                    proof {
                        assert((prev + seq![x@]).drop_last() =~= prev);
                    }
                    push_unique(&mut out, x);
                },
                None => {},
            }
            let ghost mid = match bsp_crate(self.connections@[i as int].start_board) {
                Some(x) => prev + seq![x],
                None => prev,
            };
            assert(strs(out@) == dedup_first(mid));
            match b {
                Some(y) => {
                    proof {
                        assert((mid + seq![y@]).drop_last() =~= mid);
                    }
                    push_unique(&mut out, y);
                },
                None => {},
            }
            proof {
                let t = self.connections@.take(i + 1);
                let ca = match bsp_crate(t.last().start_board) {
                    Some(x) => seq![x],
                    None => Seq::<Seq<char>>::empty(),
                };
                let cb = match bsp_crate(t.last().end_board) {
                    Some(x) => seq![x],
                    None => Seq::<Seq<char>>::empty(),
                };
                assert(prev + ca =~= mid);
                match bsp_crate(t.last().end_board) {
                    Some(y) => {
                        assert(mid + cb =~= mid + seq![y]);
                    },
                    None => {
                        assert(mid + cb =~= mid);
                    },
                }
            }
            i = i + 1;
        }
        assert(self.connections@.take(i as int) =~= self.connections@);
        out
    }

    /// The source of the system module: a `use` line for each BSP crate the
    /// connections require, then the `System` items.
    pub fn system_module_source(&self) -> (r: String)
        ensures
            r@ == module_source(*self),
    {
        let crates = self.required_bsp_crates();
        let mut r = String::new();
        let mut i: usize = 0;
        while i < crates.len()
            invariant
                i <= crates.len(),
                r@ == use_lines(strs(crates@).take(i as int)),
            decreases crates.len() - i,
        {
            proof {
                let t = strs(crates@).take(i + 1);
                assert(t.drop_last() =~= strs(crates@).take(i as int));
                assert(t.last() == crates@[i as int]@);
            }
            r.append("use ");
            r.append(crates[i].as_str());
            r.append(";\n");
            i = i + 1;
        }
        proof {
            assert(strs(crates@).take(i as int) =~= strs(crates@));
        }
        r.append("pub struct System {}\nimpl System {\n    pub fn new() -> Self {\n        Self {}\n    }\n}\n");
        r
    }

    /// The code of the system module, formatted; the formatted placeholder
    /// comment when a crate name is not plain or the module source does not
    /// parse.
    pub fn generate_system_module(&self) -> (r: String)
        ensures
            r@ == module_code(*self),
    {
        let crates = self.required_bsp_crates();
        if all_plain_names(&crates) {
            let source = self.system_module_source();
            proof {
                assert(plain_names(strs(crates@)) && source@ == use_lines(strs(crates@))
                    + system_items());
            }
            match format_source(source.as_str()) {
                Some(code) => return code,
                None => {},
            }
        }
        proof {
            reveal_strlit("// error generating module");
        }
        match format_source("// error generating module") {
            Some(code) => code,
            None => String::new(),
        }
    }

    /// Whether the simulator can run the system: its main board is an
    /// STM32F4 board.
    pub fn can_simulate(&self) -> (r: bool)
        requires
            self.main_board is Some,
        ensures
            r == contains_seq(self.main_board->0.name@, "STM32F4"@),
    {
        match &self.main_board {
            Some(mb) => contains_str(mb.name.as_str(), "STM32F4"),
            None => false,
        }
    }
}

} // verus!
