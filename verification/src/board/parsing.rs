//! Inspection of a board's BSP (Board Support Package) crate: which crate
//! to import, which field the board takes in the generated `System` struct,
//! and how the BSP's generic `Board` type is instantiated.

use vstd::prelude::*;

use crate::text::{opt_text, replace_all, replace_str, ascii_lower, to_ascii_lowercase, str_eq, strs,
    contains_string};
use super::{Board, BoardView, opt_str_view};

verus! {

/// Why the BSP of a board could not be inspected.
#[derive(Clone, Copy, Debug, PartialEq, Eq, Structural)]
#[non_exhaustive]
pub enum BspParseError {
    /// The board names no BSP crate.
    BspMissingError,
    /// The BSP source is missing or could not be parsed.
    OtherError,
}

/// A top-level item of a BSP source file, as the inspection reads it.
#[derive(Debug)]
pub enum BspItem {
    /// A struct, with the names of its type parameters.
    Struct { name: String, type_params: Vec<String> },
    /// A type alias.
    TypeAlias { name: String },
    /// Any other item.
    Other,
}

/// The value of a BSP item.
pub enum BspItemModel {
    Struct { name: Seq<char>, type_params: Seq<Seq<char>> },
    TypeAlias { name: Seq<char> },
    Other,
}

impl View for BspItem {
    type V = BspItemModel;

    open spec fn view(&self) -> BspItemModel {
        match self {
            BspItem::Struct { name, type_params } => BspItemModel::Struct {
                name: name@,
                type_params: strs(type_params@),
            },
            BspItem::TypeAlias { name } => BspItemModel::TypeAlias { name: name@ },
            BspItem::Other => BspItemModel::Other,
        }
    }
}

/// The values of a list of BSP items.
pub open spec fn items_view(v: Seq<BspItem>) -> Seq<BspItemModel> {
    v.map_values(|i: BspItem| i@)
}

/// A field of the generated `System` struct: `pub <field>: <crate>::<type>`,
/// or `pub <field>: <crate>::<type><<crate>::<generic>>` when the BSP's
/// type takes a generic argument. As a constructor entry it reads
/// `<field>: <crate>::<type>::new()`.
#[derive(Debug)]
pub struct FieldDecl {
    pub field: String,
    pub crate_name: String,
    pub field_type: String,
    pub generic: Option<String>,
}

/// The value of a field declaration.
pub struct FieldDeclView {
    pub field: Seq<char>,
    pub crate_name: Seq<char>,
    pub field_type: Seq<char>,
    pub generic: Option<Seq<char>>,
}

impl View for FieldDecl {
    type V = FieldDeclView;

    open spec fn view(&self) -> FieldDeclView {
        FieldDeclView {
            field: self.field@,
            crate_name: self.crate_name@,
            field_type: self.field_type@,
            generic: match self.generic {
                Some(g) => Some(g@),
                None => None,
            },
        }
    }
}

/// The values of a list of field declarations.
pub open spec fn decls_view(v: Seq<FieldDecl>) -> Seq<FieldDeclView> {
    v.map_values(|d: FieldDecl| d@)
}

/// A type parameter and the concrete type it is substituted with, if any.
pub open spec fn subs_view(v: Seq<(String, Option<String>)>) -> Seq<(Seq<char>, Option<Seq<char>>)> {
    v.map_values(
        |p: (String, Option<String>)|
            (
                p.0@,
                match p.1 {
                    Some(g) => Some(g@),
                    None => None,
                },
            ),
    )
}

/// All the information needed to add a board to the generated `System` module.
#[derive(Debug)]
pub struct BspParseInfo {
    /// The name of the BSP crate, as an identifier.
    pub bsp_crate_identifier: Option<String>,
    /// The field names for this board in the `System` struct.
    pub board_field_identifiers: Vec<String>,
    /// The types of the fields of the `System` struct.
    pub board_field_type_identifiers: Vec<String>,
    /// The `<field>: <type>` entries of the `System` struct.
    pub field_types: Vec<FieldDecl>,
    /// The `<field>: <constructor>` entries of the `System` constructor.
    pub field_constructors: Vec<FieldDecl>,
    /// The public type aliases the BSP offers that the inspection knows of.
    pub available_types: Vec<String>,
    /// The generic type parameters of the BSP's `Board` and their substitutions.
    pub type_substitutions: Vec<(String, Option<String>)>,
}

/// The value of the inspection state.
pub struct BspParseInfoView {
    pub bsp_crate_identifier: Option<Seq<char>>,
    pub board_field_identifiers: Seq<Seq<char>>,
    pub board_field_type_identifiers: Seq<Seq<char>>,
    pub field_types: Seq<FieldDeclView>,
    pub field_constructors: Seq<FieldDeclView>,
    pub available_types: Seq<Seq<char>>,
    pub type_substitutions: Seq<(Seq<char>, Option<Seq<char>>)>,
}

impl View for BspParseInfo {
    type V = BspParseInfoView;

    open spec fn view(&self) -> BspParseInfoView {
        BspParseInfoView {
            bsp_crate_identifier: match self.bsp_crate_identifier {
                Some(c) => Some(c@),
                None => None,
            },
            board_field_identifiers: strs(self.board_field_identifiers@),
            board_field_type_identifiers: strs(self.board_field_type_identifiers@),
            field_types: decls_view(self.field_types@),
            field_constructors: decls_view(self.field_constructors@),
            available_types: strs(self.available_types@),
            type_substitutions: subs_view(self.type_substitutions@),
        }
    }
}

/// The state can take a `Board` struct: it knows the crate and the field.
pub open spec fn ready(s: BspParseInfoView) -> bool {
    s.bsp_crate_identifier is Some && s.board_field_identifiers.len() > 0
}

/// Whether the BSP offers an `I2CBus` type.
pub open spec fn has_i2c_bus(s: BspParseInfoView) -> bool {
    s.available_types.contains("I2CBus"@)
}

/// Drops the last element, if there is one.
pub open spec fn pop_seq<A>(s: Seq<A>) -> Seq<A> {
    if s.len() > 0 {
        s.drop_last()
    } else {
        s
    }
}

/// One type parameter of the BSP's `Board`: an `I2C` parameter is bound to
/// the BSP's `I2CBus` when the BSP offers one, which replaces the last field
/// type with its generic form; any other parameter stays unbound.
pub open spec fn step_param(s: BspParseInfoView, t: Seq<char>) -> BspParseInfoView {
    if t == "I2C"@ && has_i2c_bus(s) {
        BspParseInfoView {
            field_types: pop_seq(s.field_types).push(
                FieldDeclView {
                    field: s.board_field_identifiers.last(),
                    crate_name: s.bsp_crate_identifier->0,
                    field_type: s.board_field_type_identifiers.last(),
                    generic: Some("I2CBus"@),
                },
            ),
            board_field_type_identifiers: s.board_field_type_identifiers.drop_last(),
            type_substitutions: s.type_substitutions.push((t, Some("I2CBus"@))),
            ..s
        }
    } else {
        BspParseInfoView { type_substitutions: s.type_substitutions.push((t, None)), ..s }
    }
}

/// A parameter can be taken: binding it needs a field type to replace.
pub open spec fn param_ok(s: BspParseInfoView, t: Seq<char>) -> bool {
    ready(s) && (t == "I2C"@ && has_i2c_bus(s) ==> s.board_field_type_identifiers.len() > 0)
}

/// The type parameters, in order.
pub open spec fn step_generics(s: BspParseInfoView, params: Seq<Seq<char>>) -> BspParseInfoView
    decreases params.len(),
{
    if params.len() == 0 {
        s
    } else {
        step_param(step_generics(s, params.drop_last()), params.last())
    }
}

/// Every type parameter can be taken in turn.
pub open spec fn generics_ok(s: BspParseInfoView, params: Seq<Seq<char>>) -> bool
    decreases params.len(),
{
    if params.len() == 0 {
        ready(s)
    } else {
        generics_ok(s, params.drop_last()) && param_ok(
            step_generics(s, params.drop_last()),
            params.last(),
        )
    }
}

/// The field declaration `pub <field>: <crate>::Board`.
pub open spec fn board_decl(s: BspParseInfoView) -> FieldDeclView {
    FieldDeclView {
        field: s.board_field_identifiers.last(),
        crate_name: s.bsp_crate_identifier->0,
        field_type: "Board"@,
        generic: None,
    }
}

/// The head of a struct named `Board`: it becomes the board's field, whose
/// type and constructor come from the BSP crate.
pub open spec fn step_board_head(s: BspParseInfoView) -> BspParseInfoView {
    BspParseInfoView {
        board_field_type_identifiers: s.board_field_type_identifiers.push("Board"@),
        field_types: s.field_types.push(board_decl(s)),
        field_constructors: s.field_constructors.push(board_decl(s)),
        ..s
    }
}

/// A top-level item: a struct named `Board` with its type parameters, a type
/// alias named `I2CBus`; anything else leaves the state as it is.
pub open spec fn step_item(s: BspParseInfoView, item: BspItemModel) -> BspParseInfoView {
    match item {
        BspItemModel::Struct { name, type_params } => if name == "Board"@ {
            step_generics(step_board_head(s), type_params)
        } else {
            s
        },
        BspItemModel::TypeAlias { name } => if name == "I2CBus"@ {
            BspParseInfoView { available_types: s.available_types.push(name), ..s }
        } else {
            s
        },
        BspItemModel::Other => s,
    }
}

/// An item can be taken.
pub open spec fn item_ok(s: BspParseInfoView, item: BspItemModel) -> bool {
    ready(s) && match item {
        BspItemModel::Struct { name, type_params } => name == "Board"@ ==> generics_ok(
            step_board_head(s),
            type_params,
        ),
        _ => true,
    }
}

/// The items of a BSP source file, in order.
pub open spec fn walk(s: BspParseInfoView, items: Seq<BspItemModel>) -> BspParseInfoView
    decreases items.len(),
{
    if items.len() == 0 {
        s
    } else {
        step_item(walk(s, items.drop_last()), items.last())
    }
}

/// Every item can be taken in turn.
pub open spec fn walk_ok(s: BspParseInfoView, items: Seq<BspItemModel>) -> bool
    decreases items.len(),
{
    if items.len() == 0 {
        ready(s)
    } else {
        walk_ok(s, items.drop_last()) && item_ok(walk(s, items.drop_last()), items.last())
    }
}

/// The BSP crate name as an identifier: dashes become underscores, and
/// parentheses and dots are dropped.
pub open spec fn crate_ident_of(bsp: Seq<char>) -> Seq<char> {
    replace_all(
        replace_all(replace_all(replace_all(bsp, "-"@, "_"@), "("@, ""@), ")"@, ""@),
        "."@,
        ""@,
    )
}

/// The board's field name: spaces and dashes become underscores,
/// parentheses and dots are dropped, and letters are put in lower case.
pub open spec fn field_ident_of(name: Seq<char>) -> Seq<char> {
    ascii_lower(
        replace_all(
            replace_all(
                replace_all(replace_all(replace_all(name, " "@, "_"@), "-"@, "_"@), "("@, ""@),
                ")"@,
                ""@,
            ),
            "."@,
            ""@,
        ),
    )
}

/// The inspection state before any item is read.
pub open spec fn initial_state(bsp: Seq<char>, name: Seq<char>) -> BspParseInfoView {
    BspParseInfoView {
        bsp_crate_identifier: Some(crate_ident_of(bsp)),
        board_field_identifiers: seq![field_ident_of(name)],
        board_field_type_identifiers: Seq::empty(),
        field_types: Seq::empty(),
        field_constructors: Seq::empty(),
        available_types: Seq::empty(),
        type_substitutions: Seq::empty(),
    }
}

/// Turns a BSP crate name into an identifier.
pub fn crate_ident(bsp: &str) -> (r: String)
    ensures
        r@ == crate_ident_of(bsp@),
{
    proof {
        reveal_strlit("-");
        reveal_strlit("(");
        reveal_strlit(")");
        reveal_strlit(".");
    }
    let a = replace_str(bsp, "-", "_");
    let b = replace_str(a.as_str(), "(", "");
    let c = replace_str(b.as_str(), ")", "");
    replace_str(c.as_str(), ".", "")
}

/// Turns a board name into the identifier of its field.
pub fn field_ident(name: &str) -> (r: String)
    ensures
        r@ == field_ident_of(name@),
{
    proof {
        reveal_strlit(" ");
        reveal_strlit("-");
        reveal_strlit("(");
        reveal_strlit(")");
        reveal_strlit(".");
    }
    let a = replace_str(name, " ", "_");
    let b = replace_str(a.as_str(), "-", "_");
    let c = replace_str(b.as_str(), "(", "");
    let d = replace_str(c.as_str(), ")", "");
    let e = replace_str(d.as_str(), ".", "");
    to_ascii_lowercase(e.as_str())
}


impl Default for BspParseInfo {
    fn default() -> (r: Self)
        ensures
            r@.bsp_crate_identifier is None,
            r@.board_field_identifiers.len() == 0,
            r@.board_field_type_identifiers.len() == 0,
            r@.field_types.len() == 0,
            r@.field_constructors.len() == 0,
            r@.available_types.len() == 0,
            r@.type_substitutions.len() == 0,
    {
        BspParseInfo {
            bsp_crate_identifier: None,
            board_field_identifiers: Vec::new(),
            board_field_type_identifiers: Vec::new(),
            field_types: Vec::new(),
            field_constructors: Vec::new(),
            available_types: Vec::new(),
            type_substitutions: Vec::new(),
        }
    }
}

impl BspParseInfo {
    /// The declaration `pub <field>: <crate>::Board` of the current board.
    fn board_field_decl(&self) -> (r: FieldDecl)
        requires
            ready(self@),
        ensures
            r@ == board_decl(self@),
    {
        let n = self.board_field_identifiers.len();
        let field = self.board_field_identifiers[n - 1].clone();
        let crate_name = match &self.bsp_crate_identifier {
            Some(c) => c.clone(),
            None => String::new(),
        };
        proof {
            assert(self@.board_field_identifiers.last() == self.board_field_identifiers@[n - 1]@);
        }
        FieldDecl { field, crate_name, field_type: String::from_str("Board"), generic: None }
    }

    /// Takes one type parameter of the BSP's `Board`.
    pub fn visit_type_param(&mut self, t: &str)
        requires
            param_ok(old(self)@, t@),
        ensures
            final(self)@ == step_param(old(self)@, t@),
    {
        let ghost s = self@;
        proof {
            reveal_strlit("I2C");
            reveal_strlit("I2CBus");
        }
        if str_eq(t, "I2C") && contains_string(&self.available_types, "I2CBus") {
            let ghost ft = self.field_types@;
            let _ = self.field_types.pop();
            proof {
                if ft.len() > 0 {
                    assert(decls_view(self.field_types@) =~= decls_view(ft).drop_last());
                } else {
                    assert(decls_view(self.field_types@) =~= decls_view(ft));
                }
            }
            let ghost tids = self.board_field_type_identifiers@;
            let id = match self.board_field_type_identifiers.pop() {
                Some(id) => id,
                None => String::new(),
            };
            proof {
                assert(strs(self.board_field_type_identifiers@) =~= strs(tids).drop_last());
                assert(id@ == strs(tids).last());
            }
            let n = self.board_field_identifiers.len();
            let field = self.board_field_identifiers[n - 1].clone();
            let crate_name = match &self.bsp_crate_identifier {
                Some(c) => c.clone(),
                None => String::new(),
            };
            let ghost before_ft = self.field_types@;
            self.field_types.push(
                FieldDecl {
                    field,
                    crate_name,
                    field_type: id,
                    generic: Some(String::from_str("I2CBus")),
                },
            );
            let ghost before_subs = self.type_substitutions@;
            self.type_substitutions.push((String::from_str(t), Some(String::from_str("I2CBus"))));
            proof {
                assert(decls_view(self.field_types@) =~= decls_view(before_ft).push(
                    self.field_types@.last()@,
                ));
                assert(subs_view(self.type_substitutions@) =~= subs_view(before_subs).push(
                    (t@, Some("I2CBus"@)),
                ));
                assert(s.board_field_identifiers.last()
                    == self.board_field_identifiers@[n - 1]@);
                assert(self@.field_types =~= step_param(s, t@).field_types);
                assert(self@.board_field_type_identifiers
                    =~= step_param(s, t@).board_field_type_identifiers);
                assert(self@.type_substitutions =~= step_param(s, t@).type_substitutions);
            }
        } else {
            let ghost before_subs = self.type_substitutions@;
            self.type_substitutions.push((String::from_str(t), None));
            proof {
                assert(subs_view(self.type_substitutions@) =~= subs_view(before_subs).push(
                    (t@, None),
                ));
                assert(self@.type_substitutions =~= step_param(s, t@).type_substitutions);
            }
        }
    }

    /// Takes the type parameters of the BSP's `Board`, in order.
    pub fn visit_generics(&mut self, params: &Vec<String>)
        requires
            generics_ok(old(self)@, strs(params@)),
        ensures
            final(self)@ == step_generics(old(self)@, strs(params@)),
    {
        let ghost s = self@;
        let mut i: usize = 0;
        while i < params.len()
            invariant
                i <= params.len(),
                generics_ok(s, strs(params@)),
                self@ == step_generics(s, strs(params@).take(i as int)),
            decreases params.len() - i,
        {
            proof {
                assert(strs(params@.take(i + 1)) =~= strs(params@).take(i + 1));
                lemma_generics_ok_prefix(s, strs(params@), i + 1);
                let p = strs(params@).take(i + 1);
                assert(p.drop_last() =~= strs(params@).take(i as int));
                assert(p.last() == params@[i as int]@);
            }
            self.visit_type_param(params[i].as_str());
            i = i + 1;
        }
        assert(strs(params@).take(i as int) =~= strs(params@));
    }

    /// Takes a top-level struct of the BSP.
    pub fn visit_item_struct(&mut self, name: &str, type_params: &Vec<String>)
        requires
            ready(old(self)@),
            name@ == "Board"@ ==> generics_ok(step_board_head(old(self)@), strs(type_params@)),
        ensures
            final(self)@ == step_item(
                old(self)@,
                BspItemModel::Struct { name: name@, type_params: strs(type_params@) },
            ),
    {
        proof {
            reveal_strlit("Board");
        }
        if str_eq(name, "Board") {
            let ghost s = self@;
            let d1 = self.board_field_decl();
            let d2 = self.board_field_decl();
            let ghost (t0, f0, c0) = (
                self.board_field_type_identifiers@,
                self.field_types@,
                self.field_constructors@,
            );
            self.board_field_type_identifiers.push(String::from_str("Board"));
            self.field_types.push(d1);
            self.field_constructors.push(d2);
            proof {
                assert(strs(self.board_field_type_identifiers@) =~= strs(t0).push("Board"@));
                assert(decls_view(self.field_types@) =~= decls_view(f0).push(board_decl(s)));
                assert(decls_view(self.field_constructors@) =~= decls_view(c0).push(
                    board_decl(s),
                ));
                assert(self@ == step_board_head(s));
            }
            self.visit_generics(type_params);
        }
    }

    /// Takes a top-level type alias of the BSP.
    pub fn visit_item_type(&mut self, name: &str)
        ensures
            final(self)@ == step_item(old(self)@, BspItemModel::TypeAlias { name: name@ }),
    {
        proof {
            reveal_strlit("I2CBus");
        }
        if str_eq(name, "I2CBus") {
            let ghost a0 = self.available_types@;
            self.available_types.push(String::from_str(name));
            proof {
                assert(strs(self.available_types@) =~= strs(a0).push(name@));
            }
        }
    }

    /// Takes the items of a BSP source, in order, as long as each can be
    /// taken; tells whether all could.
    pub fn visit_items_checked(&mut self, items: &Vec<BspItem>) -> (r: bool)
        requires
            ready(old(self)@),
        ensures
            r == walk_ok(old(self)@, items_view(items@)),
            r ==> final(self)@ == walk(old(self)@, items_view(items@)),
    {
        let ghost s = self@;
        let mut i: usize = 0;
        while i < items.len()
            invariant
                i <= items.len(),
                s == old(self)@,
                ready(s),
                walk_ok(s, items_view(items@).take(i as int)),
                self@ == walk(s, items_view(items@).take(i as int)),
            decreases items.len() - i,
        {
            proof {
                let p = items_view(items@).take(i + 1);
                assert(p.drop_last() =~= items_view(items@).take(i as int));
                assert(p.last() == items@[i as int]@);
                lemma_walk_ready(s, items_view(items@).take(i as int));
            }
            match &items[i] {
                BspItem::Struct { name, type_params } => {
                    if str_eq(name.as_str(), "Board") {
                        proof {
                            reveal_strlit("Board");
                        }
                        if !self.board_generics_fit(type_params) {
                            proof {
                                let q = items_view(items@).take(i + 1);
                                assert(!item_ok(walk(s, q.drop_last()), q.last()));
                                assert(!walk_ok(s, q));
                                lemma_walk_ok_prefix(s, items_view(items@), i + 1);
                            }
                            return false;
                        }
                    }
                    self.visit_item_struct(name.as_str(), type_params);
                },
                BspItem::TypeAlias { name } => {
                    self.visit_item_type(name.as_str());
                },
                BspItem::Other => {},
            }
            i = i + 1;
        }
        assert(items_view(items@).take(i as int) =~= items_view(items@));
        true
    }

    /// Whether the type parameters of a `Board` struct can be taken after
    /// its head.
    fn board_generics_fit(&self, params: &Vec<String>) -> (r: bool)
        requires
            ready(self@),
        ensures
            r == generics_ok(step_board_head(self@), strs(params@)),
    {
        let ghost s = step_board_head(self@);
        let bus = contains_string(&self.available_types, "I2CBus");
        proof {
            reveal_strlit("I2CBus");
            reveal_strlit("I2C");
        }
        let mut n: u128 = (self.board_field_type_identifiers.len() as u128) + 1;
        let mut i: usize = 0;
        assert(strs(params@).take(0) =~= Seq::<Seq<char>>::empty());
        while i < params.len()
            invariant
                i <= params.len(),
                s == step_board_head(self@),
                generics_ok(s, strs(params@).take(i as int)),
                n as int == step_generics(s, strs(params@).take(i as int)).board_field_type_identifiers.len(),
                has_i2c_bus(step_generics(s, strs(params@).take(i as int))) == bus,
                bus == has_i2c_bus(self@),
                ready(step_generics(s, strs(params@).take(i as int))),
                n <= self.board_field_type_identifiers@.len() + 1,
            decreases params.len() - i,
        {
            let p = &params[i];
            let is_i2c = str_eq(p.as_str(), "I2C");
            proof {
                let q = strs(params@).take(i + 1);
                assert(q.drop_last() =~= strs(params@).take(i as int));
                assert(q.last() == p@);
            }
            if is_i2c && bus {
                if n == 0 {
                    proof {
                        let q = strs(params@).take(i + 1);
                        assert(!param_ok(step_generics(s, q.drop_last()), q.last()));
                        assert(!generics_ok(s, q));
                        lemma_generics_ok_prefix(s, strs(params@), i + 1);
                    }
                    return false;
                }
                n = n - 1;
            }
            i = i + 1;
        }
        assert(strs(params@).take(i as int) =~= strs(params@));
        true
    }
}

/// Any prefix of parameters that can be taken in turn can be taken.
proof fn lemma_generics_ok_prefix(s: BspParseInfoView, params: Seq<Seq<char>>, k: int)
    requires
        0 <= k <= params.len(),
    ensures
        generics_ok(s, params) ==> generics_ok(s, params.take(k)),
        !generics_ok(s, params.take(k)) ==> !generics_ok(s, params),
    decreases params.len() - k,
{
    if k < params.len() {
        lemma_generics_ok_prefix(s, params.drop_last(), k);
        assert(params.drop_last().take(k) =~= params.take(k));
    } else {
        assert(params.take(k) =~= params);
    }
}

/// Any prefix of items that can be taken in turn can be taken.
proof fn lemma_walk_ok_prefix(s: BspParseInfoView, items: Seq<BspItemModel>, k: int)
    requires
        0 <= k <= items.len(),
    ensures
        walk_ok(s, items) ==> walk_ok(s, items.take(k)),
    decreases items.len() - k,
{
    if k < items.len() {
        lemma_walk_ok_prefix(s, items.drop_last(), k);
        assert(items.drop_last().take(k) =~= items.take(k));
    } else {
        assert(items.take(k) =~= items);
    }
}

/// Reading items keeps the crate and the field of the board.
proof fn lemma_walk_ready(s: BspParseInfoView, items: Seq<BspItemModel>)
    requires
        walk_ok(s, items),
    ensures
        ready(walk(s, items)),
        walk(s, items).bsp_crate_identifier == s.bsp_crate_identifier,
        walk(s, items).board_field_identifiers == s.board_field_identifiers,
    decreases items.len(),
{
    if items.len() > 0 {
        lemma_walk_ready(s, items.drop_last());
        let w = walk(s, items.drop_last());
        match items.last() {
            BspItemModel::Struct { name, type_params } => {
                if name == "Board"@ {
                    lemma_generics_keep(step_board_head(w), type_params);
                }
            },
            _ => {},
        }
    }
}

/// Taking type parameters keeps the crate and the field of the board.
proof fn lemma_generics_keep(s: BspParseInfoView, params: Seq<Seq<char>>)
    ensures
        step_generics(s, params).bsp_crate_identifier == s.bsp_crate_identifier,
        step_generics(s, params).board_field_identifiers == s.board_field_identifiers,
        step_generics(s, params).available_types == s.available_types,
    decreases params.len(),
{
    if params.len() > 0 {
        lemma_generics_keep(s, params.drop_last());
    }
}


impl Clone for FieldDecl {
    fn clone(&self) -> (r: Self)
        ensures
            r@ == self@,
    {
        FieldDecl {
            field: self.field.clone(),
            crate_name: self.crate_name.clone(),
            field_type: self.field_type.clone(),
            generic: match &self.generic {
                Some(g) => Some(g.clone()),
                None => None,
            },
        }
    }
}

/// A copy of a list of field declarations with the same value.
pub fn clone_decls(v: &Vec<FieldDecl>) -> (r: Vec<FieldDecl>)
    ensures
        decls_view(r@) == decls_view(v@),
{
    let mut r: Vec<FieldDecl> = Vec::new();
    let mut i: usize = 0;
    while i < v.len()
        invariant
            i <= v.len(),
            r@.len() == i,
            forall|j: int| 0 <= j < i ==> #[trigger] r@[j]@ == v@[j]@,
        decreases v.len() - i,
    {
        r.push(v[i].clone());
        i = i + 1;
    }
    assert(decls_view(r@) =~= decls_view(v@));
    r
}

/// A copy of a list of substitutions with the same value.
pub fn clone_subs(v: &Vec<(String, Option<String>)>) -> (r: Vec<(String, Option<String>)>)
    ensures
        r@ == v@,
{
    let mut r: Vec<(String, Option<String>)> = Vec::new();
    let mut i: usize = 0;
    while i < v.len()
        invariant
            i <= v.len(),
            r@ == v@.take(i as int),
        decreases v.len() - i,
    {
        let g = match &v[i].1 {
            Some(g) => Some(g.clone()),
            None => None,
        };
        r.push((v[i].0.clone(), g));
        i = i + 1;
        assert(r@ =~= v@.take(i as int));
    }
    assert(r@ =~= v@);
    r
}

impl Clone for BspParseInfo {
    fn clone(&self) -> (r: Self)
        ensures
            r@ == self@,
    {
        let a = self.board_field_identifiers.clone();
        let b = self.board_field_type_identifiers.clone();
        let c = self.available_types.clone();
        assert(a@ =~= self.board_field_identifiers@);
        assert(b@ =~= self.board_field_type_identifiers@);
        assert(c@ =~= self.available_types@);
        BspParseInfo {
            bsp_crate_identifier: match &self.bsp_crate_identifier {
                Some(x) => Some(x.clone()),
                None => None,
            },
            board_field_identifiers: a,
            board_field_type_identifiers: b,
            field_types: clone_decls(&self.field_types),
            field_constructors: clone_decls(&self.field_constructors),
            available_types: c,
            type_substitutions: clone_subs(&self.type_substitutions),
        }
    }
}

/// The top-level items of a Rust source file, as `syn::parse_file` reads
/// them, or none when the text does not parse.
pub uninterp spec fn bsp_items_of(source: Seq<char>) -> Option<Seq<BspItemModel>>;

/// Parses a BSP source with `syn::parse_file` and lists its top-level items:
/// structs with the names of their type parameters, type aliases, and
/// anything else. Claimed: the result is the named value `bsp_items_of` of
/// the source text; nothing is stated of what `syn` accepts or of what it
/// reads.
#[verifier::external_body]
fn parse_bsp_items(source: &str) -> (r: Option<Vec<BspItem>>)
    ensures
        match r {
            Some(v) => bsp_items_of(source@) == Some(items_view(v@)),
            None => bsp_items_of(source@) is None,
        },
{
    let file = syn::parse_file(source).ok()?;
    Some(file.items.iter().map(|item| match item {
        syn::Item::Struct(s) => BspItem::Struct {
            name: s.ident.to_string(),
            type_params: s.generics.type_params().map(|t| t.ident.to_string()).collect(),
        },
        syn::Item::Type(t) => BspItem::TypeAlias { name: t.ident.to_string() },
        _ => BspItem::Other,
    }).collect())
}

/// The inspection state before any item is read, for a BSP crate and a board.
pub fn initial_info(bsp: &str, name: &str) -> (r: BspParseInfo)
    ensures
        r@ == initial_state(bsp@, name@),
{
    let mut info = BspParseInfo::default();
    info.bsp_crate_identifier = Some(crate_ident(bsp));
    info.board_field_identifiers.push(field_ident(name));
    proof {
        assert(info@.board_field_identifiers =~= seq![field_ident_of(name@)]);
        assert(info@.board_field_type_identifiers =~= Seq::<Seq<char>>::empty());
        assert(info@.field_types =~= Seq::<FieldDeclView>::empty());
        assert(info@.field_constructors =~= Seq::<FieldDeclView>::empty());
        assert(info@.available_types =~= Seq::<Seq<char>>::empty());
        assert(info@.type_substitutions =~= Seq::<(Seq<char>, Option<Seq<char>>)>::empty());
    }
    info
}

/// Whether the items of a BSP can all be taken for the given crate and board.
pub fn bsp_items_fit(bsp: &str, name: &str, items: &Vec<BspItem>) -> (r: bool)
    ensures
        r == walk_ok(initial_state(bsp@, name@), items_view(items@)),
{
    let mut info = initial_info(bsp, name);
    info.visit_items_checked(items)
}

/// The value of an optional inspection result.
pub open spec fn opt_info_view(o: Option<BspParseInfo>) -> Option<BspParseInfoView> {
    match o {
        Some(i) => Some(i@),
        None => None,
    }
}

/// What inspecting a board's BSP source makes of the board, and the result:
/// a board without a BSP crate is refused with `BspMissingError`; a missing
/// or unparsable source, or one whose `Board` struct binds more `I2C`
/// parameters than there are field types to bind, with `OtherError`; in
/// each refusal the board stays as it was. Otherwise the board records what
/// the items tell.
pub open spec fn bsp_load_outcome(b: BoardView, source: Option<Seq<char>>) -> (
    BoardView,
    Result<(), BspParseError>,
) {
    match b.bsp {
        None => (b, Err(BspParseError::BspMissingError)),
        Some(bsp) => match source {
            None => (b, Err(BspParseError::OtherError)),
            Some(src) => match bsp_items_of(src) {
                None => (b, Err(BspParseError::OtherError)),
                Some(m) => {
                    let start = initial_state(bsp, b.name);
                    if walk_ok(start, m) {
                        (BoardView { bsp_parse_info: Some(walk(start, m)), ..b }, Ok(()))
                    } else {
                        (b, Err(BspParseError::OtherError))
                    }
                },
            },
        },
    }
}

impl Board {
    /// Records what the BSP items tell about this board, given the items of
    /// the BSP source (none when there is no local BSP source or it does not
    /// parse).
    pub fn load_bsp_info_from_items(&mut self, items: Option<Vec<BspItem>>) -> (r: Result<(), BspParseError>)
        requires
            old(self).bsp is Some && items is Some ==> walk_ok(
                initial_state(old(self).bsp->0@, old(self).name@),
                items_view(items->0@),
            ),
        ensures
            old(self).bsp is None ==> r == Err::<(), BspParseError>(BspParseError::BspMissingError)
                && final(self)@ == old(self)@,
            old(self).bsp is Some && items is None ==> r == Err::<(), BspParseError>(
                BspParseError::OtherError,
            ) && final(self)@ == old(self)@,
            old(self).bsp is Some && items is Some ==> r == Ok::<(), BspParseError>(()) && final(self)@ == (BoardView {
                bsp_parse_info: Some(
                    walk(initial_state(old(self).bsp->0@, old(self).name@), items_view(items->0@)),
                ),
                ..old(self)@
            }),
    {
        let bsp = match &self.bsp {
            Some(b) => b.clone(),
            None => return Err(BspParseError::BspMissingError),
        };
        let mut info = initial_info(bsp.as_str(), self.name.as_str());
        match items {
            Some(v) => {
                let _ = info.visit_items_checked(&v);
                self.bsp_parse_info = Some(info);
                Ok(())
            },
            None => Err(BspParseError::OtherError),
        }
    }

    /// Inspects the board's BSP, given the text of its `src/lib.rs` (none
    /// when the board has no local BSP), and records the result.
    /// A source whose `Board` struct would bind more `I2C` parameters than
    /// there are field types to bind is refused with `OtherError`, leaving the
    /// board as it was.
    pub fn load_bsp_info(&mut self, source: Option<&str>) -> (r: Result<(), BspParseError>)
        ensures
            final(self)@ == bsp_load_outcome(old(self)@, opt_text(source)).0,
            r == bsp_load_outcome(old(self)@, opt_text(source)).1,
    {
        let bsp = match &self.bsp {
            Some(b) => b.clone(),
            None => return Err(BspParseError::BspMissingError),
        };
        let items = match source {
            Some(t) => parse_bsp_items(t),
            None => None,
        };
        match items {
            Some(v) => {
                if bsp_items_fit(bsp.as_str(), self.name.as_str(), &v) {
                    self.load_bsp_info_from_items(Some(v))
                } else {
                    Err(BspParseError::OtherError)
                }
            },
            None => Err(BspParseError::OtherError),
        }
    }

    /// Records the files found beside the board's manifest: the folder of
    /// its project template and the folder of its local BSP, when they
    /// exist. A board with a local BSP then has it inspected, given the text
    /// of the BSP's `src/lib.rs` (none when it cannot be read), and the result
    /// of the inspection is returned.
    pub fn attach_found_files(
        &mut self,
        template_dir: Option<String>,
        bsp_dir: Option<String>,
        bsp_source: Option<&str>,
    ) -> (r: Option<Result<(), BspParseError>>)
        ensures
            ({
                let with_template = match template_dir {
                    Some(t) => BoardView { template_dir: Some(t@), ..old(self)@ },
                    None => old(self)@,
                };
                match bsp_dir {
                    Some(d) => {
                        let found = BoardView { bsp_path: Some(d@), ..with_template };
                        let outcome = bsp_load_outcome(found, opt_text(bsp_source));
                        r == Some(outcome.1) && final(self)@ == outcome.0
                    },
                    None => r is None && final(self)@ == with_template,
                }
            }),
    {
        if let Some(t) = template_dir {
            self.template_dir = Some(t);
        }
        match bsp_dir {
            Some(d) => {
                self.bsp_path = Some(d);
                Some(self.load_bsp_info(bsp_source))
            },
            None => None,
        }
    }
}

/// Type parameters of the BSP's `Board` bind nothing while the BSP offers no
/// `I2CBus`: the field declarations, the constructors and the crate and
/// field names stay as they were, and every parameter can be taken.
proof fn lemma_generics_without_bus(s: BspParseInfoView, params: Seq<Seq<char>>)
    requires
        ready(s),
        !has_i2c_bus(s),
    ensures
        generics_ok(s, params),
        step_generics(s, params).field_types == s.field_types,
        step_generics(s, params).field_constructors == s.field_constructors,
        step_generics(s, params).available_types == s.available_types,
        step_generics(s, params).bsp_crate_identifier == s.bsp_crate_identifier,
        step_generics(s, params).board_field_identifiers == s.board_field_identifiers,
    decreases params.len(),
{
    if params.len() > 0 {
        lemma_generics_without_bus(s, params.drop_last());
    }
}

/// Inspecting a BSP whose only item is a `Board` struct, where nothing binds
/// its type parameters, records the board as `pub <field>: <crate>::Board`,
/// built by `<field>: <crate>::Board::new()`: the field is the board's name
/// made an identifier, and the crate is the board's BSP crate made an
/// identifier.
pub proof fn lemma_board_struct_declares_board_field(
    b: BoardView,
    src: Seq<char>,
    params: Seq<Seq<char>>,
)
    requires
        b.bsp is Some,
        bsp_items_of(src) == Some(seq![BspItemModel::Struct { name: "Board"@, type_params: params }]),
    ensures
        ({
            let out = bsp_load_outcome(b, Some(src));
            let d = FieldDeclView {
                field: field_ident_of(b.name),
                crate_name: crate_ident_of(b.bsp->0),
                field_type: "Board"@,
                generic: None,
            };
            &&& out.1 == Ok::<(), BspParseError>(())
            &&& out.0.bsp_parse_info is Some
            &&& out.0.bsp_parse_info->0.field_types == seq![d]
            &&& out.0.bsp_parse_info->0.field_constructors == seq![d]
        }),
{
    let start = initial_state(b.bsp->0, b.name);
    let item = BspItemModel::Struct { name: "Board"@, type_params: params };
    let items = seq![item];
    let head = step_board_head(start);
    assert(ready(head));
    assert(!has_i2c_bus(head)) by {
        assert(head.available_types =~= Seq::<Seq<char>>::empty());
    }
    lemma_generics_without_bus(head, params);
    assert(items.drop_last() =~= Seq::<BspItemModel>::empty());
    assert(walk(start, items.drop_last()) == start);
    assert(ready(start));
    assert(walk_ok(start, items.drop_last()));
    assert(item_ok(start, item));
    assert(items.last() == item);
    assert(walk_ok(start, items));
    assert(walk(start, items) == step_generics(head, params));
    assert(head.field_types =~= seq![board_decl(start)]);
    assert(head.field_constructors =~= seq![board_decl(start)]);
}

} // verus!
