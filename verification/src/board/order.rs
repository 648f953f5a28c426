//! The order in which boards are listed: main boards first, discrete parts
//! last, and by name within each kind.

use vstd::prelude::*;
use vstd::seq_lib::*;
use vstd::multiset::Multiset;

use crate::text::chars_of;
use super::{Board, BoardType};

verus! {

/// The result of comparing two boards or two names.
#[derive(Clone, Copy, Debug, PartialEq, Eq, Structural)]
pub enum BoardOrder {
    Less,
    Equal,
    Greater,
}

/// Lexicographic order on names, character by character by code point (char order)
/// (the order of `str`).
pub open spec fn name_lt(a: Seq<char>, b: Seq<char>) -> bool
    decreases a.len(),
{
    if a.len() == 0 {
        b.len() > 0
    } else if b.len() == 0 {
        false
    } else if a[0] != b[0] {
        a[0] < b[0]
    } else {
        name_lt(a.skip(1), b.skip(1))
    }
}

/// The rank of a kind of board in listings: main boards, then peripherals,
/// then discrete parts.
pub open spec fn kind_rank(t: BoardType) -> int {
    match t {
        BoardType::Main => 0,
        BoardType::Peripheral => 1,
        BoardType::Discrete => 2,
    }
}

/// Whether board `a` is listed strictly before board `b`.
pub open spec fn board_before(a: Board, b: Board) -> bool {
    kind_rank(a.board_type) < kind_rank(b.board_type) || (kind_rank(a.board_type)
        == kind_rank(b.board_type) && name_lt(a.name@, b.name@))
}

/// Whether a list of boards is in listing order.
pub open spec fn boards_sorted(s: Seq<Board>) -> bool {
    forall|i: int, j: int| 0 <= i < j < s.len() ==> !board_before(#[trigger] s[j], #[trigger] s[i])
}

/// No name comes before itself.
pub proof fn lemma_name_lt_irreflexive(a: Seq<char>)
    ensures
        !name_lt(a, a),
    decreases a.len(),
{
    if a.len() > 0 {
        lemma_name_lt_irreflexive(a.skip(1));
    }
}

/// Of two names, at most one comes before the other.
pub proof fn lemma_name_lt_asymmetric(a: Seq<char>, b: Seq<char>)
    ensures
        name_lt(a, b) ==> !name_lt(b, a),
    decreases a.len(),
{
    if a.len() > 0 && b.len() > 0 && a[0] == b[0] {
        lemma_name_lt_asymmetric(a.skip(1), b.skip(1));
    }
}

/// The order on names is transitive.
pub proof fn lemma_name_lt_transitive(a: Seq<char>, b: Seq<char>, c: Seq<char>)
    requires
        name_lt(a, b),
        name_lt(b, c),
    ensures
        name_lt(a, c),
    decreases a.len(),
{
    if a.len() > 0 && b.len() > 0 && c.len() > 0 && a[0] == b[0] && b[0] == c[0] {
        lemma_name_lt_transitive(a.skip(1), b.skip(1), c.skip(1));
    }
}

/// Of two different names, one comes before the other.
pub proof fn lemma_name_lt_total(a: Seq<char>, b: Seq<char>)
    ensures
        a == b || name_lt(a, b) || name_lt(b, a),
    decreases a.len(),
{
    if a.len() > 0 && b.len() > 0 && a[0] == b[0] {
        lemma_name_lt_total(a.skip(1), b.skip(1));
        if a.skip(1) == b.skip(1) {
            assert(a =~= seq![a[0]] + a.skip(1));
            assert(b =~= seq![b[0]] + b.skip(1));
        }
    } else if a.len() == 0 && b.len() == 0 {
        assert(a =~= b);
    }
}

/// Listing order is a strict order: no board comes before itself, of two
/// boards at most one comes before the other, and it is transitive.
pub proof fn lemma_board_order_strict(a: Board, b: Board, c: Board)
    ensures
        !board_before(a, a),
        board_before(a, b) ==> !board_before(b, a),
        board_before(a, b) && board_before(b, c) ==> board_before(a, c),
{
    lemma_name_lt_irreflexive(a.name@);
    lemma_name_lt_asymmetric(a.name@, b.name@);
    if board_before(a, b) && board_before(b, c) && kind_rank(a.board_type) == kind_rank(
        b.board_type,
    ) && kind_rank(b.board_type) == kind_rank(c.board_type) {
        lemma_name_lt_transitive(a.name@, b.name@, c.name@);
    }
}

/// Listing order is total up to kind and name: two boards that neither
/// comes before are of the same kind and have the same name.
pub proof fn lemma_board_order_total(a: Board, b: Board)
    ensures
        board_before(a, b) || board_before(b, a) || (a.board_type == b.board_type && a.name@
            == b.name@),
{
    lemma_name_lt_total(a.name@, b.name@);
}

/// Compares two names in the order of `str`.
pub fn compare_names(a: &str, b: &str) -> (r: BoardOrder)
    ensures
        (r == BoardOrder::Less) == name_lt(a@, b@),
        (r == BoardOrder::Equal) == (a@ == b@),
        (r == BoardOrder::Greater) == name_lt(b@, a@),
{
    let av = chars_of(a);
    let bv = chars_of(b);
    let mut i: usize = 0;
    proof {
        assert(a@.skip(0) =~= a@);
        assert(b@.skip(0) =~= b@);
    }
    while i < av.len() && i < bv.len() && av[i] == bv[i]
        invariant
            av@ == a@,
            bv@ == b@,
            i <= av.len(),
            i <= bv.len(),
            a@.take(i as int) == b@.take(i as int),
            name_lt(a@, b@) == name_lt(a@.skip(i as int), b@.skip(i as int)),
            name_lt(b@, a@) == name_lt(b@.skip(i as int), a@.skip(i as int)),
        decreases av.len() - i,
    {
        proof {
            assert(a@.skip(i as int).skip(1) =~= a@.skip(i + 1));
            assert(b@.skip(i as int).skip(1) =~= b@.skip(i + 1));
            assert(a@.take(i + 1) =~= a@.take(i as int).push(a@[i as int]));
            assert(b@.take(i + 1) =~= b@.take(i as int).push(b@[i as int]));
        }
        i = i + 1;
    }
    proof {
        lemma_name_lt_total(a@, b@);
        lemma_name_lt_asymmetric(a@, b@);
        lemma_name_lt_irreflexive(a@);
    }
    if i == av.len() && i == bv.len() {
        assert(a@ =~= a@.take(i as int));
        assert(b@ =~= b@.take(i as int));
        BoardOrder::Equal
    } else if i == av.len() {
        proof {
            assert(a@.skip(i as int).len() == 0);
            if a@ == b@ {
                assert(a@.len() == b@.len());
            }
        }
        BoardOrder::Less
    } else if i == bv.len() {
        proof {
            assert(b@.skip(i as int).len() == 0);
            if a@ == b@ {
                assert(a@.len() == b@.len());
            }
        }
        BoardOrder::Greater
    } else {
        proof {
            assert(a@.skip(i as int)[0] == a@[i as int]);
            assert(b@.skip(i as int)[0] == b@[i as int]);
            if a@ == b@ {
                assert(a@[i as int] == b@[i as int]);
            }
        }
        if av[i] < bv[i] {
            BoardOrder::Less
        } else {
            BoardOrder::Greater
        }
    }
}

/// Compares two boards in listing order: main boards first, discrete parts
/// last, then by name.
pub fn compare(a: &Board, b: &Board) -> (r: BoardOrder)
    ensures
        (r == BoardOrder::Less) == board_before(*a, *b),
        (r == BoardOrder::Equal) == (kind_rank(a.board_type) == kind_rank(b.board_type)
            && a.name@ == b.name@),
        (r == BoardOrder::Greater) == board_before(*b, *a),
{
    proof {
        lemma_name_lt_irreflexive(a.name@);
    }
    if a.is_main_board() && !b.is_main_board() {
        BoardOrder::Less
    } else if !a.is_main_board() && b.is_main_board() {
        BoardOrder::Greater
    } else if a.is_discrete() && !b.is_discrete() {
        BoardOrder::Greater
    } else if !a.is_discrete() && b.is_discrete() {
        BoardOrder::Less
    } else {
        compare_names(a.name.as_str(), b.name.as_str())
    }
}

/// Whether two boards take the same place in listing order: they are of
/// the same kind and have the same name.
pub open spec fn same_place(a: Board, b: Board) -> bool {
    a.board_type == b.board_type && a.name@ == b.name@
}

/// The boards of a list that take the same place as `k`, in their order.
pub open spec fn peers(s: Seq<Board>, k: Board) -> Seq<Board> {
    s.filter(|x: Board| same_place(x, k))
}

/// The peers of a list with one more board at its end.
proof fn lemma_peers_push(s: Seq<Board>, b: Board, k: Board)
    ensures
        peers(s.push(b), k) == if same_place(b, k) {
            peers(s, k).push(b)
        } else {
            peers(s, k)
        },
{
    reveal(Seq::filter);
    assert(s.push(b).drop_last() =~= s);
}

/// A list none of whose boards takes the place of `k` has no peers of it.
proof fn lemma_peers_none(s: Seq<Board>, k: Board)
    requires
        forall|j: int| 0 <= j < s.len() ==> !same_place(#[trigger] s[j], k),
    ensures
        peers(s, k) == Seq::<Board>::empty(),
    decreases s.len(),
{
    reveal(Seq::filter);
    if s.len() > 0 {
        lemma_peers_none(s.drop_last(), k);
    }
}

/// The peers of two lists put together.
proof fn lemma_peers_add(a: Seq<Board>, b: Seq<Board>, k: Board)
    ensures
        peers(a + b, k) == peers(a, k) + peers(b, k),
{
    Seq::filter_distributes_over_add(a, b, |x: Board| same_place(x, k));
}

/// Inserting a board after every board not listed after it, and before a
/// board listed after it, puts it last among its peers and changes no other
/// board's peers.
proof fn lemma_insert_peers(out: Seq<Board>, pos: int, b: Board, k: Board)
    requires
        0 <= pos <= out.len(),
        boards_sorted(out),
        pos < out.len() ==> board_before(b, out[pos]),
    ensures
        peers(out.insert(pos, b), k) == if same_place(b, k) {
            peers(out, k).push(b)
        } else {
            peers(out, k)
        },
{
    let left = out.take(pos);
    let right = out.skip(pos);
    assert(out =~= left + right);
    assert(out.insert(pos, b) =~= left.push(b) + right);
    lemma_peers_add(left, right, k);
    lemma_peers_add(left.push(b), right, k);
    lemma_peers_push(left, b, k);
    if same_place(b, k) {
        assert forall|j: int| 0 <= j < right.len() implies !same_place(#[trigger] right[j], k) by {
            assert(right[j] == out[pos + j]);
            if same_place(right[j], k) {
                if j > 0 {
                    assert(!board_before(out[pos + j], out[pos]));
                }
                lemma_board_order_strict(b, b, b);
            }
        }
        lemma_peers_none(right, k);
        assert(peers(left, k) + Seq::<Board>::empty() =~= peers(left, k));
        assert(peers(left.push(b), k) + Seq::<Board>::empty() =~= peers(left.push(b), k));
    }
}

/// Sorts boards into listing order (the order `sort` gives the known boards
/// in the board selector). Boards of the same kind and name keep the order
/// they had.
pub fn sort_boards(boards: Vec<Board>) -> (r: Vec<Board>)
    ensures
        r@.to_multiset() == boards@.to_multiset(),
        boards_sorted(r@),
        forall|k: Board| #[trigger] peers(r@, k) == peers(boards@, k),
{
    broadcast use group_to_multiset_ensures;

    let ghost all = boards@;
    assert(all.len() == boards.len());
    let mut input = boards;
    let mut out: Vec<Board> = Vec::new();
    let mut n: usize = 0;
    proof {
        assert(all.skip(0) =~= all);
        assert forall|k: Board| #[trigger] peers(out@, k) == peers(all.take(0), k) by {
            assert(all.take(0) =~= out@);
        }
    }
    while input.len() > 0
        invariant
            out@.to_multiset().add(input@.to_multiset()) == all.to_multiset(),
            boards_sorted(out@),
            n <= all.len() <= usize::MAX,
            input@ == all.skip(n as int),
            forall|k: Board| #[trigger] peers(out@, k) == peers(all.take(n as int), k),
        decreases input.len(),
    {
        let ghost before_in = input@;
        let b = input.remove(0);
        proof {
            assert(input@ =~= before_in.remove(0));
            to_multiset_remove(before_in, 0);
            assert(before_in.to_multiset().count(b) > 0) by {
                to_multiset_contains(before_in, b);
            }
            assert(b == all[n as int]);
            assert(n < all.len());
        }
        let mut pos: usize = 0;
        while pos < out.len() && !board_before_exec(&b, &out[pos])
            invariant
                pos <= out.len(),
                forall|k: int| 0 <= k < pos ==> !board_before(b, #[trigger] out@[k]),
            decreases out.len() - pos,
        {
            pos = pos + 1;
        }
        let ghost old_out = out@;
        out.insert(pos, b);
        proof {
            assert(out@ =~= old_out.insert(pos as int, b));
            to_multiset_insert(old_out, pos as int, b);
            broadcast use vstd::multiset::group_multiset_axioms;
            assert(out@.to_multiset().add(input@.to_multiset()) =~= old_out.to_multiset().add(
                before_in.to_multiset(),
            ));
            assert(all.take(n + 1) =~= all.take(n as int).push(b));
            assert forall|k: Board| #[trigger] peers(out@, k) == peers(all.take(n + 1), k) by {
                lemma_insert_peers(old_out, pos as int, b, k);
                lemma_peers_push(all.take(n as int), b, k);
            }
            assert(input@ =~= all.skip(n + 1));
            assert forall|i: int, j: int| 0 <= i < j < out@.len() implies !board_before(
                #[trigger] out@[j],
                #[trigger] out@[i],
            ) by {
                if j < pos {
                } else if j == pos {
                    assert(out@[i] == old_out[i]);
                } else if i < pos {
                    assert(out@[j] == old_out[j - 1]);
                    assert(out@[i] == old_out[i]);
                } else if i == pos {
                    assert(out@[j] == old_out[j - 1]);
                    assert(pos < old_out.len());
                    assert(board_before(b, old_out[pos as int]));
                    if board_before(old_out[j - 1], b) {
                        lemma_board_order_strict(old_out[j - 1], b, old_out[pos as int]);
                        if j - 1 > pos {
                            assert(!board_before(old_out[j - 1], old_out[pos as int]));
                        } else {
                            lemma_board_order_strict(b, old_out[pos as int], b);
                        }
                    }
                } else {
                    assert(out@[j] == old_out[j - 1]);
                    assert(out@[i] == old_out[i - 1]);
                }
            }
        }
        n = n + 1;
    }
    proof {
        assert(input@.to_multiset() =~= Multiset::empty());
        assert(all.take(n as int) =~= all);
    }
    out
}

/// Whether `a` is listed strictly before `b`.
pub fn board_before_exec(a: &Board, b: &Board) -> (r: bool)
    ensures
        r == board_before(*a, *b),
{
    match compare(a, b) {
        BoardOrder::Less => true,
        _ => false,
    }
}

/// Within one kind, boards are listed by name, whatever the kind: of two
/// boards of the same kind, one comes before the other exactly when its name
/// comes first in the order of `str`.
pub proof fn lemma_same_kind_listed_by_name(a: Board, b: Board)
    requires
        a.board_type == b.board_type,
    ensures
        board_before(a, b) == name_lt(a.name@, b.name@),
{
}

/// Kinds come in a fixed order, whatever the names: main boards before
/// peripherals, peripherals before discrete parts.
pub proof fn lemma_kinds_listed_in_order(a: Board, b: Board)
    ensures
        a.board_type == BoardType::Main && b.board_type != BoardType::Main ==> board_before(a, b),
        a.board_type == BoardType::Peripheral && b.board_type == BoardType::Discrete
            ==> board_before(a, b),
        a.board_type == BoardType::Discrete && b.board_type != BoardType::Discrete
            ==> !board_before(a, b),
{
}

/// Names are ordered as `str` orders them: by their first differing
/// character, a proper prefix coming first.
pub proof fn lemma_name_order_is_str_order(a: Seq<char>, b: Seq<char>, i: int)
    requires
        0 <= i <= a.len(),
        i <= b.len(),
        a.take(i) == b.take(i),
    ensures
        i < a.len() && i < b.len() && a[i] != b[i] ==> (name_lt(a, b) <==> a[i] < b[i]),
        i == a.len() && i < b.len() ==> name_lt(a, b),
        i == b.len() ==> !name_lt(a, b),
    decreases i,
{
    if i > 0 {
        assert(a[0] == a.take(i)[0]);
        assert(b[0] == b.take(i)[0]);
        assert(a.skip(1).take(i - 1) =~= a.take(i).skip(1));
        assert(b.skip(1).take(i - 1) =~= b.take(i).skip(1));
        lemma_name_order_is_str_order(a.skip(1), b.skip(1), i - 1);
        if i < a.len() && i < b.len() {
            assert(a.skip(1)[i - 1] == a[i]);
            assert(b.skip(1)[i - 1] == b[i]);
        }
    }
}

} // verus!
