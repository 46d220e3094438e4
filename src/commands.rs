//! The build-tool invocations that project state calls for. Every
//! invocation runs the build tool with the unstable flag that lets it work
//! on a project directory other than the current one.

use vstd::prelude::*;
use vstd::string::*;
use crate::board::{BoardView, str_seq_view};
use crate::system::{System, SystemView};

verus! {

/// One external program invocation: a program and its arguments.
pub struct CommandSpec {
    pub program: String,
    pub args: Vec<String>,
}

pub ghost struct CommandView {
    pub program: Seq<char>,
    pub args: Seq<Seq<char>>,
}

impl View for CommandSpec {
    type V = CommandView;

    open spec fn view(&self) -> CommandView {
        CommandView { program: self.program@, args: str_seq_view(self.args@) }
    }
}

pub open spec fn commands_view(v: Seq<CommandSpec>) -> Seq<CommandView> {
    v.map_values(|c: CommandSpec| c@)
}

/// The build tool with its arguments, scoped to the project directory `dir`.
pub open spec fn tool_call(dir: Seq<char>, tail: Seq<Seq<char>>) -> CommandView {
    CommandView {
        program: "cargo"@,
        args: seq!["-Z"@, "unstable-options"@, "-C"@, dir] + tail,
    }
}

pub open spec fn build_call(dir: Seq<char>) -> CommandView {
    tool_call(dir, seq!["build"@])
}

pub open spec fn run_call(dir: Seq<char>) -> CommandView {
    tool_call(dir, seq!["run"@])
}

pub open spec fn init_call(dir: Seq<char>, name: Seq<char>) -> CommandView {
    tool_call(dir, seq!["init"@, "--name"@, name, "--vcs"@, "none"@])
}

pub open spec fn add_call(dir: Seq<char>, package: Seq<char>) -> CommandView {
    tool_call(dir, seq!["add"@, package])
}

pub open spec fn add_calls(dir: Seq<char>, packages: Seq<Seq<char>>) -> Seq<CommandView> {
    packages.map_values(|p: Seq<char>| add_call(dir, p))
}

/// The packages a board declares, in its own order.
pub open spec fn crates_of(b: BoardView) -> Seq<Seq<char>> {
    match b.required_crates {
        Some(c) => c,
        None => Seq::empty(),
    }
}

/// The packages declared by a list of boards, board after board.
pub open spec fn crates_of_all(bs: Seq<BoardView>) -> Seq<Seq<char>>
    decreases bs.len(),
{
    if bs.len() == 0 {
        Seq::empty()
    } else {
        crates_of_all(bs.drop_last()) + crates_of(bs.last())
    }
}

/// A list of boards none of which declares a dependency list needs no package.
pub proof fn lemma_no_crates(bs: Seq<BoardView>)
    requires
        forall|i: int| 0 <= i < bs.len() ==> (#[trigger] bs[i]).required_crates.is_none(),
    ensures
        crates_of_all(bs) == Seq::<Seq<char>>::empty(),
    decreases bs.len(),
{
    if bs.len() > 0 {
        lemma_no_crates(bs.drop_last());
        assert(bs.last() == bs[bs.len() - 1]);
        assert(crates_of_all(bs) =~= Seq::<Seq<char>>::empty());
    }
}

/// The packages that a system needs: the main board's first, then each
/// peripheral's in list order.
pub open spec fn system_crates(sv: SystemView) -> Seq<Seq<char>> {
    let main = match sv.main_board {
        Some(m) => crates_of(m),
        None => Seq::empty(),
    };
    main + crates_of_all(sv.boards)
}

/// Whether any board of the system declares a dependency list.
pub open spec fn declares_crates(sv: SystemView) -> bool {
    (sv.main_board matches Some(m) && m.required_crates.is_some())
    || exists|i: int| 0 <= i < sv.boards.len() && (#[trigger] sv.boards[i]).required_crates.is_some()
}

/// The single run that installs a system's dependencies: one project
/// initialisation, then one addition per declared package, in order; no
/// run at all where no board declares a dependency list.
pub open spec fn dependency_plan(sv: SystemView, dir: Seq<char>, name: Seq<char>) -> Seq<CommandView> {
    if declares_crates(sv) {
        seq![init_call(dir, name)] + add_calls(dir, system_crates(sv))
    } else {
        Seq::empty()
    }
}

fn str_of(s: &str) -> (r: String)
    ensures
        r@ == s@,
{
    String::from_str(s)
}

fn tool_command(dir: &String, tail: Vec<String>) -> (r: CommandSpec)
    ensures
        r@ == tool_call(dir@, str_seq_view(tail@)),
{
    let mut args: Vec<String> = Vec::new();
    proof {
        reveal_strlit("-Z");
        reveal_strlit("unstable-options");
        reveal_strlit("-C");
        reveal_strlit("cargo");
    }
    args.push(str_of("-Z"));
    args.push(str_of("unstable-options"));
    args.push(str_of("-C"));
    args.push(dir.clone());
    let ghost head: Seq<Seq<char>> = seq!["-Z"@, "unstable-options"@, "-C"@, dir@];
    assert(str_seq_view(args@) =~= head);
    let mut i: usize = 0;
    while i < tail.len()
        invariant
            i <= tail.len(),
            head.len() == 4,
            args.len() == 4 + i,
            forall|j: int| 0 <= j < 4 ==> #[trigger] args@[j]@ == head[j],
            forall|j: int| 0 <= j < i ==> #[trigger] args@[4 + j]@ == tail@[j]@,
        decreases tail.len() - i,
    {
        args.push(tail[i].clone());
        i = i + 1;
    }
    assert forall|j: int| 0 <= j < args.len() implies #[trigger] str_seq_view(args@)[j] == (head + str_seq_view(tail@))[j] by {
        if j >= 4 {
            assert(args@[4 + (j - 4)]@ == tail@[j - 4]@);
        }
    }
    assert(str_seq_view(args@) =~= head + str_seq_view(tail@));
    let r = CommandSpec { program: str_of("cargo"), args };
    r
}

/// The invocation that builds the project in `dir`.
pub fn build_command(dir: &String) -> (r: CommandSpec)
    ensures
        r@ == build_call(dir@),
{
    proof { reveal_strlit("build"); }
    let tail = vec![str_of("build")];
    let r = tool_command(dir, tail);
    assert(str_seq_view(tail@) =~= seq!["build"@]);
    r
}

/// The invocation that builds the project in `dir` and runs it on the board.
pub fn run_command(dir: &String) -> (r: CommandSpec)
    ensures
        r@ == run_call(dir@),
{
    proof { reveal_strlit("run"); }
    let tail = vec![str_of("run")];
    let r = tool_command(dir, tail);
    assert(str_seq_view(tail@) =~= seq!["run"@]);
    r
}

/// The invocation that (re-)initialises the project in `dir` under `name`,
/// without version control.
pub fn init_command(dir: &String, name: &String) -> (r: CommandSpec)
    ensures
        r@ == init_call(dir@, name@),
{
    proof {
        reveal_strlit("init");
        reveal_strlit("--name");
        reveal_strlit("--vcs");
        reveal_strlit("none");
    }
    let tail = vec![str_of("init"), str_of("--name"), name.clone(), str_of("--vcs"), str_of("none")];
    let r = tool_command(dir, tail);
    assert(str_seq_view(tail@) =~= seq!["init"@, "--name"@, name@, "--vcs"@, "none"@]);
    r
}

/// The invocation that adds `package` to the project in `dir`.
pub fn add_command(dir: &String, package: &String) -> (r: CommandSpec)
    ensures
        r@ == add_call(dir@, package@),
{
    proof { reveal_strlit("add"); }
    let tail = vec![str_of("add"), package.clone()];
    let r = tool_command(dir, tail);
    assert(str_seq_view(tail@) =~= seq!["add"@, package@]);
    r
}

fn push_adds(cmds: &mut Vec<CommandSpec>, dir: &String, packages: &Vec<String>)
    ensures
        commands_view(final(cmds)@) == commands_view(old(cmds)@) + add_calls(dir@, str_seq_view(packages@)),
{
    let ghost start = cmds@;
    let mut i: usize = 0;
    while i < packages.len()
        invariant
            i <= packages.len(),
            cmds.len() == start.len() + i,
            forall|j: int| 0 <= j < start.len() ==> #[trigger] cmds@[j] == start[j],
            forall|j: int| 0 <= j < i ==> #[trigger] cmds@[start.len() + j]@ == add_call(dir@, packages@[j]@),
        decreases packages.len() - i,
    {
        let c = add_command(dir, &packages[i]);
        cmds.push(c);
        i = i + 1;
    }
    let ghost want = commands_view(start) + add_calls(dir@, str_seq_view(packages@));
    assert forall|j: int| 0 <= j < cmds.len() implies #[trigger] commands_view(cmds@)[j] == want[j] by {
        if j >= start.len() {
            assert(cmds@[start.len() + (j - start.len())]@ == add_call(dir@, packages@[j - start.len()]@));
        }
    }
    assert(commands_view(cmds@) =~= want);
}

/// The ordered invocations that install every dependency that the boards
/// of `system` declare into the project `name` in `dir`, as one run.
pub fn dependency_commands(system: &System, dir: &String, name: &String) -> (r: Vec<CommandSpec>)
    ensures
        commands_view(r@) == dependency_plan(system@, dir@, name@),
{
    let mut adds: Vec<CommandSpec> = Vec::new();
    let mut any: bool = false;
    if let Some(m) = &system.main_board {
        if let Some(c) = m.required_crates() {
            push_adds(&mut adds, dir, c);
            any = true;
        }
    }
    let ghost sv = system@;
    let ghost main_crates = match sv.main_board {
        Some(m) => crates_of(m),
        None => Seq::<Seq<char>>::empty(),
    };
    assert(commands_view(adds@) =~= add_calls(dir@, main_crates));
    let mut i: usize = 0;
    while i < system.boards.len()
        invariant
            i <= system.boards.len(),
            sv == system@,
            main_crates == (match sv.main_board {
                Some(m) => crates_of(m),
                None => Seq::<Seq<char>>::empty(),
            }),
            commands_view(adds@) == add_calls(dir@, main_crates + crates_of_all(sv.boards.subrange(0, i as int))),
            any == ((sv.main_board matches Some(m) && m.required_crates.is_some())
                || exists|j: int| 0 <= j < i && (#[trigger] sv.boards[j]).required_crates.is_some()),
        decreases system.boards.len() - i,
    {
        let b = &system.boards[i];
        let ghost before = commands_view(adds@);
        if let Some(c) = b.required_crates() {
            push_adds(&mut adds, dir, c);
            any = true;
        }
        assert(sv.boards[i as int] == b@);
        assert(sv.boards.subrange(0, i + 1 as int).drop_last() =~= sv.boards.subrange(0, i as int));
        assert(commands_view(adds@) =~= add_calls(dir@, main_crates + crates_of_all(sv.boards.subrange(0, i + 1 as int))));
        i = i + 1;
    }
    assert(sv.boards.subrange(0, i as int) =~= sv.boards);
    if any {
        let mut r: Vec<CommandSpec> = Vec::new();
        r.push(init_command(dir, name));
        r.append(&mut adds);
        assert(commands_view(r@) =~= dependency_plan(sv, dir@, name@));
        r
    } else {
        proof {
            lemma_no_crates(sv.boards);
        }
        assert(main_crates =~= Seq::<Seq<char>>::empty());
        assert(commands_view(adds@) =~= Seq::<CommandView>::empty());
        Vec::new()
    }
}

} // verus!
