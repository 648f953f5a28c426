//! The system editor's node graph: each board is a node, labelled with the
//! board's name, with one port typed by the first interface of its pinout.

use vstd::prelude::*;

use crate::board::Board;
use crate::board::pinout::Interface;

verus! {

/// The responses of the node graph (none are used).
#[derive(Clone, Copy, Debug, PartialEq, Eq, Structural)]
pub enum NodeResponseType {
    NONE,
}

/// Which way a node port carries data.
#[derive(Clone, Copy, Debug, PartialEq, Eq, Structural)]
pub enum PortKind {
    /// A port that offers the board's interface (the main board).
    Output,
    /// A port that accepts a connection only (any other board).
    Input,
}

/// The port that a board's node gets.
#[derive(Debug)]
pub struct NodePort {
    pub kind: PortKind,
    pub name: String,
    pub interface: Interface,
}

/// The name of the port of each kind.
pub open spec fn port_name(kind: PortKind) -> Seq<char> {
    match kind {
        PortKind::Output => "out"@,
        PortKind::Input => "in"@,
    }
}

/// The port of a board's node: an output named "out" on the main board, an
/// input named "in" on any other board, typed by the first interface of the
/// pinout; no port for a board without a pinout.
pub fn node_port(board: &Board) -> (r: Option<NodePort>)
    ensures
        r is None <==> board.pinout@.len() == 0,
        r matches Some(p) ==> {
            &&& p.kind == (if board.board_type == crate::board::BoardType::Main {
                PortKind::Output
            } else {
                PortKind::Input
            })
            &&& p.name@ == port_name(p.kind)
            &&& p.interface == board.pinout@[0].interface
        },
{
    if board.pinout.len() == 0 {
        return None;
    }
    let interface = board.pinout[0].interface;
    if board.is_main_board() {
        Some(NodePort { kind: PortKind::Output, name: String::from_str("out"), interface })
    } else {
        Some(NodePort { kind: PortKind::Input, name: String::from_str("in"), interface })
    }
}

/// The label of a board's node, and of its entry in the node finder: the
/// board's name.
pub fn node_label(board: &Board) -> (r: String)
    ensures
        r@ == board.name@,
{
    board.name.clone()
}

/// The category under which the node finder lists every board.
pub fn node_finder_category() -> (r: String)
    ensures
        r@ == "category1: boards"@,
{
    String::from_str("category1: boards")
}

/// The name under which the node graph shows an interface type.
pub fn interface_data_name() -> (r: String)
    ensures
        r@ == "interface"@,
{
    String::from_str("interface")
}

} // verus!
