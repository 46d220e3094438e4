//! The hardware topology of a project: at most one main board and an
//! ordered list of distinct peripheral boards.

use vstd::prelude::*;
use crate::board::{Board, BoardView, same_board};

verus! {

pub ghost struct SystemView {
    pub main_board: Option<BoardView>,
    pub boards: Seq<BoardView>,
}

pub open spec fn boards_view(v: Seq<Board>) -> Seq<BoardView> {
    v.map_values(|b: Board| b@)
}

pub open spec fn opt_board_view(o: Option<Board>) -> Option<BoardView> {
    match o {
        Some(b) => Some(b@),
        None => None,
    }
}

/// Whether a sequence of boards holds some board twice.
pub open spec fn distinct_boards(s: Seq<BoardView>) -> bool {
    forall|i: int, j: int| 0 <= i < s.len() && 0 <= j < s.len() && i != j ==> !same_board(s[i], s[j])
}

/// Whether some board of `s` is the same board as `b`.
pub open spec fn holds_board(s: Seq<BoardView>, b: BoardView) -> bool {
    exists|i: int| 0 <= i < s.len() && same_board(s[i], b)
}

/// The well-formed systems: the main slot holds only a main board, the
/// peripheral list only non-main boards, none of them twice.
pub open spec fn system_wf(v: SystemView) -> bool {
    &&& (v.main_board matches Some(m) ==> m.is_main)
    &&& forall|i: int| 0 <= i < v.boards.len() ==> !(#[trigger] v.boards[i]).is_main
    &&& distinct_boards(v.boards)
}

/// The registry entry that stands for `b`: the first entry of `known` from
/// index `j` on that is the same board, or `b` itself where there is none.
pub open spec fn resolve_from(known: Seq<BoardView>, b: BoardView, j: int) -> BoardView
    decreases known.len() - j,
{
    if j < 0 || j >= known.len() {
        b
    } else if same_board(known[j], b) {
        known[j]
    } else {
        resolve_from(known, b, j + 1)
    }
}

pub open spec fn resolve_board(known: Seq<BoardView>, b: BoardView) -> BoardView {
    resolve_from(known, b, 0)
}

/// Resolving a board never changes which board it is.
pub proof fn lemma_resolve_same(known: Seq<BoardView>, b: BoardView, j: int)
    ensures
        same_board(resolve_from(known, b, j), b),
    decreases known.len() - j,
{
    if 0 <= j < known.len() && !same_board(known[j], b) {
        lemma_resolve_same(known, b, j + 1);
    }
}

pub struct System {
    pub main_board: Option<Board>,
    pub boards: Vec<Board>,
}

impl View for System {
    type V = SystemView;

    open spec fn view(&self) -> SystemView {
        SystemView { main_board: opt_board_view(self.main_board), boards: boards_view(self.boards@) }
    }
}

impl Clone for System {
    fn clone(&self) -> (r: System)
        ensures
            r@ == self@,
    {
        let main_board = match &self.main_board {
            Some(m) => Some(m.clone()),
            None => None,
        };
        let mut boards: Vec<Board> = Vec::new();
        let mut i: usize = 0;
        while i < self.boards.len()
            invariant
                i <= self.boards.len(),
                boards.len() == i,
                forall|j: int| 0 <= j < i ==> #[trigger] boards@[j]@ == self.boards@[j]@,
            decreases self.boards.len() - i,
        {
            boards.push(self.boards[i].clone());
            i = i + 1;
        }
        let r = System { main_board, boards };
        assert(r@.boards =~= self@.boards);
        r
    }
}

impl System {
    /// A system with no boards.
    pub fn new() -> (r: System)
        ensures
            r@.main_board.is_none(),
            r@.boards.len() == 0,
            system_wf(r@),
    {
        System { main_board: None, boards: Vec::new() }
    }

    pub fn has_main(&self) -> (r: bool)
        ensures
            r == self@.main_board.is_some(),
    {
        self.main_board.is_some()
    }

    /// Whether the system keeps its invariant; a system read from a manifest
    /// need not.
    pub fn is_well_formed(&self) -> (r: bool)
        ensures
            r == system_wf(self@),
    {
        if let Some(m) = &self.main_board {
            if !m.is_main_board() {
                return false;
            }
        }
        let n = self.boards.len();
        let mut i: usize = 0;
        while i < n
            invariant
                n == self.boards.len(),
                i <= n,
                forall|a: int| 0 <= a < i ==> !(#[trigger] self@.boards[a]).is_main,
                forall|a: int, b: int| 0 <= a < i && 0 <= b < n && a != b ==> !same_board(self@.boards[a], self@.boards[b]),
            decreases n - i,
        {
            if self.boards[i].is_main_board() {
                assert(self@.boards[i as int].is_main);
                return false;
            }
            let mut j: usize = 0;
            while j < n
                invariant
                    n == self.boards.len(),
                    i < n,
                    j <= n,
                    forall|b: int| 0 <= b < j && b != i ==> !same_board(self@.boards[i as int], self@.boards[b]),
                decreases n - j,
            {
                if j != i && self.boards[i] == self.boards[j] {
                    assert(same_board(self@.boards[i as int], self@.boards[j as int]));
                    return false;
                }
                j = j + 1;
            }
            i = i + 1;
        }
        true
    }

    /// Whether the peripheral list holds the same board as `b`.
    pub fn contains(&self, b: &Board) -> (r: bool)
        ensures
            r == holds_board(self@.boards, b@),
    {
        let mut i: usize = 0;
        while i < self.boards.len()
            invariant
                i <= self.boards.len(),
                forall|j: int| 0 <= j < i ==> !same_board(self@.boards[j], b@),
            decreases self.boards.len() - i,
        {
            if self.boards[i] == *b {
                assert(same_board(self@.boards[i as int], b@));
                return true;
            }
            i = i + 1;
        }
        false
    }

    /// Occupies the main slot with `board`, unless it is already occupied;
    /// returns whether the board was taken.
    pub fn set_main(&mut self, board: Board) -> (accepted: bool)
        requires
            board@.is_main,
            system_wf(old(self)@),
        ensures
            accepted == old(self)@.main_board.is_none(),
            accepted ==> final(self)@ == (SystemView { main_board: Some(board@), ..old(self)@ }),
            !accepted ==> final(self)@ == old(self)@,
            system_wf(final(self)@),
    {
        if self.main_board.is_some() {
            false
        } else {
            self.main_board = Some(board);
            true
        }
    }

    /// Appends `board` to the peripheral list, unless the list already holds
    /// the same board; returns whether the board was taken.
    pub fn add_peripheral(&mut self, board: Board) -> (accepted: bool)
        requires
            !board@.is_main,
            system_wf(old(self)@),
        ensures
            accepted == !holds_board(old(self)@.boards, board@),
            accepted ==> final(self)@ == (SystemView {
                boards: old(self)@.boards.push(board@),
                ..old(self)@
            }),
            !accepted ==> final(self)@ == old(self)@,
            system_wf(final(self)@),
    {
        if self.contains(&board) {
            return false;
        }
        self.boards.push(board);
        assert(boards_view(self.boards@) =~= boards_view(old(self).boards@).push(board@));
        true
    }

    /// Replaces each peripheral board by the first entry of `known` that is
    /// the same board; a board with no such entry stays as it is.
    pub fn resolve_against(&mut self, known: &Vec<Board>)
        requires
            system_wf(old(self)@),
        ensures
            final(self)@.main_board == old(self)@.main_board,
            final(self)@.boards.len() == old(self)@.boards.len(),
            forall|i: int| 0 <= i < old(self)@.boards.len() ==>
                #[trigger] final(self)@.boards[i] == resolve_board(boards_view(known@), old(self)@.boards[i]),
            system_wf(final(self)@),
    {
        let ghost kv = boards_view(known@);
        let mut i: usize = 0;
        while i < self.boards.len()
            invariant
                0 <= i <= self.boards.len(),
                self.boards.len() == old(self).boards.len(),
                self.main_board == old(self).main_board,
                kv == boards_view(known@),
                forall|j: int| 0 <= j < i ==> #[trigger] self.boards@[j]@ == resolve_board(kv, old(self).boards@[j]@),
                forall|j: int| i <= j < self.boards.len() ==> #[trigger] self.boards@[j]@ == old(self).boards@[j]@,
            decreases self.boards.len() - i,
        {
            let mut k: usize = 0;
            let mut found: Option<usize> = None;
            while k < known.len() && found.is_none()
                invariant
                    k <= known.len(),
                    kv == boards_view(known@),
                    i < self.boards.len(),
                    found matches Some(f) ==> f < known.len() && resolve_board(kv, self.boards@[i as int]@) == known@[f as int]@,
                    found.is_none() ==> resolve_board(kv, self.boards@[i as int]@) == resolve_from(kv, self.boards@[i as int]@, k as int),
                decreases known.len() - k,
            {
                if known[k] == self.boards[i] {
                    found = Some(k);
                    k = known.len();
                } else {
                    k = k + 1;
                }
            }
            if let Some(f) = found {
                let c = known[f].clone();
                self.boards.set(i, c);
            }
            i = i + 1;
        }
        let ghost nv = boards_view(self.boards@);
        let ghost ov = boards_view(old(self).boards@);
        assert forall|j: int| 0 <= j < nv.len() implies same_board(#[trigger] nv[j], ov[j]) by {
            lemma_resolve_same(kv, ov[j], 0);
        }
        assert forall|j: int| 0 <= j < nv.len() implies !(#[trigger] nv[j]).is_main by {
            assert(same_board(nv[j], ov[j]));
            assert(!ov[j].is_main);
        }
        assert forall|a: int, b: int| 0 <= a < nv.len() && 0 <= b < nv.len() && a != b implies !same_board(nv[a], nv[b]) by {
            assert(same_board(nv[a], ov[a]));
            assert(same_board(nv[b], ov[b]));
            assert(!same_board(ov[a], ov[b]));
        }
    }
}

} // verus!
