//! Properties that relate several operations of the project model.

use vstd::prelude::*;
use crate::board::{BoardView, same_board};
use crate::system::{holds_board, system_wf};
use crate::project::{
    ProjectView, SaveStepView, add_board_spec, save_spec, save_as_spec, manifest_of, project_of,
    start_spec, deliver_spec, drain_spec, joined_lines,
};

verus! {

/// Two different peripheral boards added one after the other stand in the
/// peripheral list in the order they were added; adding the same board
/// twice adds it once.
pub proof fn lemma_peripherals_kept_in_order(p: ProjectView, b1: BoardView, b2: BoardView)
    requires
        system_wf(p.system),
        !b1.is_main,
        !b2.is_main,
        !same_board(b1, b2),
        !holds_board(p.system.boards, b1),
        !holds_board(p.system.boards, b2),
    ensures
        add_board_spec(add_board_spec(p, b1), b2).system.boards == p.system.boards.push(b1).push(b2),
        add_board_spec(add_board_spec(p, b1), b1).system.boards == p.system.boards.push(b1),
{
    let q = add_board_spec(p, b1);
    let s = q.system.boards;
    assert(s == p.system.boards.push(b1));
    if holds_board(s, b2) {
        let i = choose|i: int| 0 <= i < s.len() && same_board(s[i], b2);
        if i < p.system.boards.len() {
            assert(same_board(p.system.boards[i], b2));
        }
    }
    assert(same_board(s[s.len() - 1], b1));
}

/// Offering a board to a project that has a main board never changes that
/// main board.
pub proof fn lemma_main_board_kept(p: ProjectView, b: BoardView)
    requires
        p.system.main_board.is_some(),
    ensures
        add_board_spec(p, b).system.main_board == p.system.main_board,
{
}

/// A project rebuilt from its own manifest has the same system, wherever it
/// is opened from.
pub proof fn lemma_manifest_round_trip(p: ProjectView, location: Option<Seq<char>>)
    ensures
        project_of(manifest_of(p), location).system == p.system,
        project_of(manifest_of(p), location).name == p.name,
        project_of(manifest_of(p), location).current_view == p.current_view,
{
}

/// Saving a project never saved is saving it as: same state, same step.
pub proof fn lemma_save_without_location(p: ProjectView, picked: Option<Seq<char>>, manifest_exists: bool)
    requires
        p.location.is_none(),
    ensures
        save_spec(p, picked, manifest_exists) == save_as_spec(p, picked, manifest_exists),
{
}

/// Saving as into a directory that holds a manifest writes nothing and
/// leaves the location as it was.
pub proof fn lemma_save_as_refuses_existing(p: ProjectView, dir: Seq<char>)
    ensures
        save_as_spec(p, Some(dir), true).1 == SaveStepView::Refused,
        save_as_spec(p, Some(dir), true).0.location == p.location,
        save_spec(p, Some(dir), true).0.location == p.location,
{
}

/// The lines of one run reach the transcript in the order they were
/// produced.
pub proof fn lemma_run_output_in_order(p: ProjectView, a: Seq<char>, b: Seq<char>)
    ensures
        ({
            let q = start_spec(p);
            drain_spec(deliver_spec(deliver_spec(q, q.run, a), q.run, b)).transcript
                == p.transcript + a + "\n"@ + b + "\n"@
        }),
{
    let q = start_spec(p);
    let lines = seq![a, b];
    assert(lines.drop_last() =~= seq![a]);
    assert(seq![a].drop_last() =~= Seq::<Seq<char>>::empty());
    assert(deliver_spec(deliver_spec(q, q.run, a), q.run, b).pending =~= lines);
    let e = Seq::<Seq<char>>::empty();
    assert(joined_lines(e) == Seq::<char>::empty());
    assert(joined_lines(seq![a]) == joined_lines(e) + a + "\n"@);
    assert(joined_lines(seq![a]) =~= a + "\n"@);
    assert(lines.last() == b);
    assert(joined_lines(lines) == joined_lines(seq![a]) + b + "\n"@);
    assert(joined_lines(lines) =~= a + "\n"@ + b + "\n"@);
}

/// Starting a new run discards the undrained lines of the run it replaces,
/// and any line that run still produces.
pub proof fn lemma_new_run_discards_old_output(p: ProjectView, a: Seq<char>, b: Seq<char>)
    ensures
        ({
            let q1 = start_spec(p);
            let q2 = start_spec(deliver_spec(q1, q1.run, a));
            drain_spec(deliver_spec(q2, q1.run, b)).transcript == p.transcript
        }),
{
    let q1 = start_spec(p);
    let q2 = start_spec(deliver_spec(q1, q1.run, a));
    assert(q2.run != q1.run);
    assert(joined_lines(Seq::<Seq<char>>::empty()) == Seq::<char>::empty());
    assert(p.transcript + Seq::<char>::empty() =~= p.transcript);
}

/// A project opened in place of `p`, as `open` leaves it, takes no line of
/// the run that was current in `p`.
pub proof fn lemma_open_discards_old_output(p: ProjectView, opened: ProjectView, line: Seq<char>)
    requires
        opened.run == start_spec(p).run,
        opened.pending.len() == 0,
    ensures
        deliver_spec(opened, p.run, line) == opened,
{
    assert(start_spec(p).run != p.run);
}

} // verus!
