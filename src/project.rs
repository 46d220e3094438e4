//! A project: a named hardware system tied to a source directory, with a
//! terminal transcript and the output channel of the current command run.
//! Everything that touches the file system, dialogs or processes is done by
//! the caller; the methods here take its outcome and decide what follows.

use vstd::prelude::*;
use vstd::string::*;
use crate::board::{Board, BoardView, opt_str_view};
use crate::system::{System, SystemView, system_wf, holds_board, boards_view, resolve_board};
use crate::commands::{
    CommandSpec, commands_view, build_command, run_command, dependency_commands,
    build_call, run_call, dependency_plan,
};

verus! {

/// The interface mode a project is shown in.
#[derive(PartialEq, Eq, Structural, Clone, Copy, Debug)]
pub enum ProjectViewType {
    BoardsView,
    EditView,
}

pub ghost struct ProjectView {
    pub name: Seq<char>,
    pub location: Option<Seq<char>>,
    pub system: SystemView,
    pub transcript: Seq<char>,
    pub current_view: ProjectViewType,
    /// Identity of the current command run.
    pub run: u64,
    /// Lines of the current run that have arrived and not yet been drained.
    pub pending: Seq<Seq<char>>,
}

pub struct Project {
    name: String,
    location: Option<String>,
    system: System,
    terminal_buffer: String,
    current_view: ProjectViewType,
    run: u64,
    pending: Vec<String>,
}

impl View for Project {
    type V = ProjectView;

    closed spec fn view(&self) -> ProjectView {
        ProjectView {
            name: self.name@,
            location: opt_str_view(self.location),
            system: self.system@,
            transcript: self.terminal_buffer@,
            current_view: self.current_view,
            run: self.run,
            pending: self.pending@.map_values(|s: String| s@),
        }
    }
}

pub open spec fn project_wf(p: ProjectView) -> bool {
    system_wf(p.system)
}

/// A project never saved, with no name, no boards and an empty transcript.
pub open spec fn empty_project() -> ProjectView {
    ProjectView {
        name: Seq::empty(),
        location: None,
        system: SystemView { main_board: None, boards: Seq::empty() },
        transcript: Seq::empty(),
        current_view: ProjectViewType::BoardsView,
        run: 0,
        pending: Seq::empty(),
    }
}

pub open spec fn duplicate_notice() -> Seq<char> {
    "project already contains that board\n"@
}

/// The system after a board is offered to it: a main board takes the main
/// slot if it is free, another board joins the peripherals if it is new;
/// otherwise nothing changes.
pub open spec fn add_board_system(sv: SystemView, b: BoardView) -> SystemView {
    if b.is_main {
        if sv.main_board.is_some() {
            sv
        } else {
            SystemView { main_board: Some(b), ..sv }
        }
    } else if holds_board(sv.boards, b) {
        sv
    } else {
        SystemView { boards: sv.boards.push(b), ..sv }
    }
}

/// The project after `add_board`: a rejected peripheral leaves a notice in
/// the transcript.
pub open spec fn add_board_spec(p: ProjectView, b: BoardView) -> ProjectView {
    let transcript = if !b.is_main && holds_board(p.system.boards, b) {
        p.transcript + duplicate_notice()
    } else {
        p.transcript
    };
    ProjectView { system: add_board_system(p.system, b), transcript, ..p }
}

/// The text that drained lines add to the transcript: each line followed
/// by a line break.
pub open spec fn joined_lines(lines: Seq<Seq<char>>) -> Seq<char>
    decreases lines.len(),
{
    if lines.len() == 0 {
        Seq::empty()
    } else {
        joined_lines(lines.drop_last()) + lines.last() + "\n"@
    }
}

/// A new run replaces the current one: it gets a fresh identity and the
/// undrained lines of the run it replaces are dropped.
pub open spec fn start_spec(p: ProjectView) -> ProjectView {
    ProjectView { run: (if p.run == u64::MAX { 0 } else { (p.run + 1) as u64 }), pending: Seq::empty(), ..p }
}

/// A line that arrives from run `run` is queued if that run is current,
/// and discarded otherwise.
pub open spec fn deliver_spec(p: ProjectView, run: u64, line: Seq<char>) -> ProjectView {
    if run == p.run {
        ProjectView { pending: p.pending.push(line), ..p }
    } else {
        p
    }
}

/// Draining moves the queued lines, in arrival order, to the transcript.
pub open spec fn drain_spec(p: ProjectView) -> ProjectView {
    ProjectView { transcript: p.transcript + joined_lines(p.pending), pending: Seq::empty(), ..p }
}

pub open spec fn no_location_notice() -> Seq<char> {
    "project needs a valid working directory before building"@
}

pub open spec fn overwrite_notice() -> Seq<char> {
    "beware of overwriting and existing project file!\n"@
}

/// What the caller is to do after a save request.
pub enum SaveStep {
    /// No directory was chosen: nothing happens.
    Cancelled,
    /// The chosen directory already holds a manifest: nothing is written.
    Refused,
    /// Copy the entries of `template_dir`, if any, into `dir`, then write
    /// the manifest there.
    Write { dir: String, template_dir: Option<String> },
}

pub ghost enum SaveStepView {
    Cancelled,
    Refused,
    Write { dir: Seq<char>, template_dir: Option<Seq<char>> },
}

impl View for SaveStep {
    type V = SaveStepView;

    open spec fn view(&self) -> SaveStepView {
        match self {
            SaveStep::Cancelled => SaveStepView::Cancelled,
            SaveStep::Refused => SaveStepView::Refused,
            SaveStep::Write { dir, template_dir } => SaveStepView::Write {
                dir: dir@,
                template_dir: opt_str_view(*template_dir),
            },
        }
    }
}

/// The template directory of the main board, if there is one.
pub open spec fn main_template(sv: SystemView) -> Option<Seq<char>> {
    match sv.main_board {
        Some(m) => m.template_dir,
        None => None,
    }
}

/// "Save as" into the directory `picked` that the user chose (`None`: the
/// dialog was dismissed), where `manifest_exists` tells whether that
/// directory already holds a project manifest.
pub open spec fn save_as_spec(p: ProjectView, picked: Option<Seq<char>>, manifest_exists: bool) -> (
    ProjectView,
    SaveStepView,
) {
    match picked {
        None => (p, SaveStepView::Cancelled),
        Some(d) => if manifest_exists {
            (ProjectView { transcript: p.transcript + overwrite_notice(), ..p }, SaveStepView::Refused)
        } else {
            (
                ProjectView { location: Some(d), ..p },
                SaveStepView::Write { dir: d, template_dir: main_template(p.system) },
            )
        },
    }
}

/// "Save": a project with a location is written there; one without is
/// saved as.
pub open spec fn save_spec(p: ProjectView, picked: Option<Seq<char>>, manifest_exists: bool) -> (
    ProjectView,
    SaveStepView,
) {
    match p.location {
        None => save_as_spec(p, picked, manifest_exists),
        Some(l) => (p, SaveStepView::Write { dir: l, template_dir: None }),
    }
}

/// The persisted part of a project: its name, its system and its view mode.
pub struct ProjectManifest {
    pub name: String,
    pub system: System,
    pub current_view: ProjectViewType,
}

pub ghost struct ManifestView {
    pub name: Seq<char>,
    pub system: SystemView,
    pub current_view: ProjectViewType,
}

impl View for ProjectManifest {
    type V = ManifestView;

    open spec fn view(&self) -> ManifestView {
        ManifestView { name: self.name@, system: self.system@, current_view: self.current_view }
    }
}

pub open spec fn manifest_of(p: ProjectView) -> ManifestView {
    ManifestView { name: p.name, system: p.system, current_view: p.current_view }
}

/// A project rebuilt from a manifest: transient state starts afresh.
pub open spec fn project_of(m: ManifestView, location: Option<Seq<char>>) -> ProjectView {
    ProjectView {
        name: m.name,
        location,
        system: m.system,
        transcript: Seq::empty(),
        current_view: m.current_view,
        run: 0,
        pending: Seq::empty(),
    }
}

/// A run handed to the caller to execute: its identity and its commands.
pub struct RunTicket {
    pub run: u64,
    pub commands: Vec<CommandSpec>,
}

impl Default for Project {
    fn default() -> (r: Project)
        ensures
            r@ == empty_project(),
    {
        Project::new()
    }
}

impl Clone for Project {
    /// A copy of the project under the same run identity; the lines of the
    /// current run that are not yet drained stay with the project it was
    /// made from, and the copy starts with none.
    fn clone(&self) -> (r: Project)
        ensures
            r@ == (ProjectView { pending: Seq::empty(), ..self@ }),
    {
        let r = Project {
            name: self.name.clone(),
            location: self.location.clone(),
            system: self.system.clone(),
            terminal_buffer: self.terminal_buffer.clone(),
            current_view: self.current_view,
            run: self.run,
            pending: Vec::new(),
        };
        assert(r@.pending =~= Seq::<Seq<char>>::empty());
        r
    }
}

impl Project {
    /// An empty project: no name, never saved, no boards.
    pub fn new() -> (r: Project)
        ensures
            r@ == empty_project(),
            project_wf(r@),
    {
        let r = Project {
            name: String::new(),
            location: None,
            system: System::new(),
            terminal_buffer: String::new(),
            current_view: ProjectViewType::BoardsView,
            run: 0,
            pending: Vec::new(),
        };
        assert(r@.pending =~= Seq::<Seq<char>>::empty());
        assert(r@.name =~= Seq::<char>::empty());
        assert(r@.transcript =~= Seq::<char>::empty());
        assert(r@.system.boards =~= Seq::<BoardView>::empty());
        r
    }

    /// Appends `msg` and a line break to the transcript.
    pub fn info_logger(&mut self, msg: &str)
        ensures
            final(self)@ == (ProjectView { transcript: old(self)@.transcript + msg@ + "\n"@, ..old(self)@ }),
    {
        self.terminal_buffer.append(msg);
        self.terminal_buffer.append("\n");
    }

    pub fn borrow_name(&mut self) -> (r: &mut String)
        ensures
            r@ == old(self)@.name,
            final(self)@ == (ProjectView { name: final(r)@, ..old(self)@ }),
    {
        &mut self.name
    }

    pub fn borrow_boards(&mut self) -> (r: &mut Vec<Board>)
        ensures
            boards_view(r@) == old(self)@.system.boards,
            final(self)@ == (ProjectView {
                system: SystemView { boards: boards_view(final(r)@), ..old(self)@.system },
                ..old(self)@
            }),
    {
        &mut self.system.boards
    }

    pub fn has_main_board(&self) -> (r: bool)
        ensures
            r == self@.system.main_board.is_some(),
    {
        self.system.has_main()
    }

    /// The project directory, or the empty string for a project never saved.
    pub fn get_location(&self) -> (r: String)
        ensures
            r@ == (match self@.location {
                Some(l) => l,
                None => Seq::empty(),
            }),
    {
        match &self.location {
            Some(l) => l.clone(),
            None => String::new(),
        }
    }

    /// Adds a board to the system, to the main slot or the peripherals by
    /// its role. A second main board is ignored; a board that is already a
    /// peripheral is refused with a notice in the transcript.
    pub fn add_board(&mut self, board: Board)
        requires
            project_wf(old(self)@),
        ensures
            final(self)@ == add_board_spec(old(self)@, board@),
            project_wf(final(self)@),
    {
        if board.is_main_board() {
            let _ = self.system.set_main(board);
        } else {
            let accepted = self.system.add_peripheral(board);
            if !accepted {
                proof { reveal_strlit("project already contains that board\n"); }
                self.terminal_buffer.append("project already contains that board\n");
            }
        }
    }

    /// Replaces each peripheral board by the registry entry that is the same
    /// board, where `known_boards` has one.
    pub fn load_board_resources(&mut self, known_boards: Vec<Board>)
        requires
            project_wf(old(self)@),
        ensures
            final(self)@.system.main_board == old(self)@.system.main_board,
            final(self)@.system.boards.len() == old(self)@.system.boards.len(),
            forall|i: int| 0 <= i < old(self)@.system.boards.len() ==>
                #[trigger] final(self)@.system.boards[i]
                    == resolve_board(boards_view(known_boards@), old(self)@.system.boards[i]),
            final(self)@ == (ProjectView { system: final(self)@.system, ..old(self)@ }),
            project_wf(final(self)@),
    {
        self.system.resolve_against(&known_boards);
    }

    pub fn has_location(&self) -> (r: bool)
        ensures
            r == self@.location.is_some(),
    {
        self.location.is_some()
    }

    pub fn get_name(&self) -> (r: &String)
        ensures
            r@ == self@.name,
    {
        &self.name
    }

    pub fn get_system(&self) -> (r: &System)
        ensures
            r@ == self@.system,
    {
        &self.system
    }

    pub fn get_transcript(&self) -> (r: &String)
        ensures
            r@ == self@.transcript,
    {
        &self.terminal_buffer
    }

    /// Starts a new command run over `commands`, replacing the current one.
    pub fn start_run(&mut self, commands: Vec<CommandSpec>) -> (r: RunTicket)
        ensures
            final(self)@ == start_spec(old(self)@),
            r.run == final(self)@.run,
            r.commands@ == commands@,
    {
        self.run = if self.run == u64::MAX { 0 } else { self.run + 1 };
        self.pending = Vec::new();
        proof {
            assert(self@.pending =~= Seq::<Seq<char>>::empty());
            assert(self@ == start_spec(old(self)@));
        }
        RunTicket { run: self.run, commands }
    }

    /// Receives one output line of run `run`.
    pub fn deliver_line(&mut self, run: u64, line: String)
        ensures
            final(self)@ == deliver_spec(old(self)@, run, line@),
    {
        if run == self.run {
            self.pending.push(line);
            assert(self@.pending =~= old(self)@.pending.push(line@));
        }
    }

    /// Moves every line received so far to the transcript, in order.
    pub fn drain_output(&mut self)
        ensures
            final(self)@ == drain_spec(old(self)@),
    {
        let ghost lines = old(self)@.pending;
        let mut i: usize = 0;
        while i < self.pending.len()
            invariant
                i <= self.pending.len(),
                self@.pending == lines,
                self@ == (ProjectView { transcript: self@.transcript, ..old(self)@ }),
                self@.transcript == old(self)@.transcript + joined_lines(lines.subrange(0, i as int)),
            decreases self.pending.len() - i,
        {
            let ghost t = self@.transcript;
            self.terminal_buffer.append(self.pending[i].as_str());
            self.terminal_buffer.append("\n");
            proof {
                reveal_strlit("\n");
                let sub = lines.subrange(0, i + 1);
                assert(sub.drop_last() =~= lines.subrange(0, i as int));
                assert(sub.last() == lines[i as int]);
                assert(self@.transcript =~= t + lines[i as int] + "\n"@);
            }
            i = i + 1;
        }
        self.pending = Vec::new();
        proof {
            assert(lines.subrange(0, i as int) =~= lines);
            assert(self@.pending =~= Seq::<Seq<char>>::empty());
        }
    }

    /// Builds the project in its directory as a new run; a project never
    /// saved only gets a notice.
    pub fn build(&mut self) -> (r: Option<RunTicket>)
        ensures
            match old(self)@.location {
                Some(l) => r matches Some(t) && final(self)@ == start_spec(old(self)@)
                    && t.run == final(self)@.run && commands_view(t.commands@) == seq![build_call(l)],
                None => r.is_none() && final(self)@ == (ProjectView {
                    transcript: old(self)@.transcript + no_location_notice() + "\n"@,
                    ..old(self)@
                }),
            },
    {
        match &self.location {
            Some(l) => {
                let c = build_command(l);
                let cmds = vec![c];
                assert(commands_view(cmds@) =~= seq![build_call(self@.location->0)]);
                Some(self.start_run(cmds))
            },
            None => {
                proof { reveal_strlit("project needs a valid working directory before building"); }
                self.info_logger("project needs a valid working directory before building");
                None
            },
        }
    }

    /// Builds the project and runs it on the board as a new run; a project
    /// never saved only gets a notice.
    pub fn load_to_board(&mut self) -> (r: Option<RunTicket>)
        ensures
            match old(self)@.location {
                Some(l) => r matches Some(t) && final(self)@ == start_spec(old(self)@)
                    && t.run == final(self)@.run && commands_view(t.commands@) == seq![run_call(l)],
                None => r.is_none() && final(self)@ == (ProjectView {
                    transcript: old(self)@.transcript + no_location_notice() + "\n"@,
                    ..old(self)@
                }),
            },
    {
        match &self.location {
            Some(l) => {
                let c = run_command(l);
                let cmds = vec![c];
                assert(commands_view(cmds@) =~= seq![run_call(self@.location->0)]);
                Some(self.start_run(cmds))
            },
            None => {
                proof { reveal_strlit("project needs a valid working directory before building"); }
                self.info_logger("project needs a valid working directory before building");
                None
            },
        }
    }

    /// Installs the dependencies that the boards declare, all in one run;
    /// nothing happens for a project never saved or one whose boards declare
    /// none.
    pub fn add_crates_to_project(&mut self) -> (r: Option<RunTicket>)
        ensures
            match old(self)@.location {
                Some(l) => if dependency_plan(old(self)@.system, l, old(self)@.name).len() > 0 {
                    r matches Some(t) && final(self)@ == start_spec(old(self)@) && t.run == final(self)@.run
                        && commands_view(t.commands@) == dependency_plan(old(self)@.system, l, old(self)@.name)
                } else {
                    r.is_none() && final(self)@ == old(self)@
                },
                None => r.is_none() && final(self)@ == old(self)@,
            },
    {
        match &self.location {
            Some(l) => {
                let cmds = dependency_commands(&self.system, l, &self.name);
                if cmds.len() > 0 {
                    Some(self.start_run(cmds))
                } else {
                    None
                }
            },
            None => None,
        }
    }

    /// The persisted part of the project.
    pub fn to_manifest(&self) -> (r: ProjectManifest)
        ensures
            r@ == manifest_of(self@),
    {
        ProjectManifest { name: self.name.clone(), system: self.system.clone(), current_view: self.current_view }
    }

    /// A project made from a manifest found in `location`.
    pub fn from_manifest(m: ProjectManifest, location: Option<String>) -> (r: Project)
        ensures
            r@ == project_of(m@, opt_str_view(location)),
    {
        let r = Project {
            name: m.name,
            location,
            system: m.system,
            terminal_buffer: String::new(),
            current_view: m.current_view,
            run: 0,
            pending: Vec::new(),
        };
        assert(r@.pending =~= Seq::<Seq<char>>::empty());
        r
    }

    /// Opens the manifest `loaded` read from the directory `dir` (`None`: it
    /// could not be parsed). A manifest whose system breaks the invariant
    /// counts as unreadable. On failure the project keeps its state and the
    /// transcript gets a notice; on success it is replaced by the loaded one,
    /// under a run identity past the current one, so that no line of a run
    /// started before the replacement reaches the new project.
    pub fn open(&mut self, dir: String, loaded: Option<ProjectManifest>)
        ensures
            match loaded {
                Some(m) if system_wf(m@.system) => final(self)@ == (ProjectView {
                    run: start_spec(old(self)@).run,
                    ..project_of(m@, Some(dir@))
                }),
                _ => final(self)@ == (ProjectView {
                    transcript: old(self)@.transcript + "error opening project"@ + "\n"@,
                    ..old(self)@
                }),
            },
    {
        proof { reveal_strlit("error opening project"); }
        match loaded {
            Some(m) => {
                if m.system.is_well_formed() {
                    let next_run = if self.run == u64::MAX { 0 } else { self.run + 1 };
                    *self = Project::from_manifest(m, Some(dir));
                    self.run = next_run;
                } else {
                    self.info_logger("error opening project");
                }
            },
            None => self.info_logger("error opening project"),
        }
    }

    /// The project directory, if the project was ever saved.
    pub fn location(&self) -> (r: Option<String>)
        ensures
            opt_str_view(r) == self@.location,
    {
        self.location.clone()
    }

    /// Puts back the location the project had before a save whose writing
    /// failed, and records the failure in the transcript.
    pub fn restore_location(&mut self, previous: Option<String>)
        ensures
            final(self)@ == (ProjectView {
                location: opt_str_view(previous),
                transcript: old(self)@.transcript + "error saving project"@ + "\n"@,
                ..old(self)@
            }),
    {
        proof { reveal_strlit("error saving project"); }
        self.location = previous;
        self.info_logger("error saving project");
    }

    /// Save as, into the directory `picked` that the user chose, where
    /// `manifest_exists` tells whether it already holds a project manifest.
    pub fn save_as(&mut self, picked: Option<String>, manifest_exists: bool) -> (r: SaveStep)
        ensures
            (final(self)@, r@) == save_as_spec(old(self)@, opt_str_view(picked), manifest_exists),
    {
        match picked {
            None => SaveStep::Cancelled,
            Some(d) => {
                if manifest_exists {
                    proof { reveal_strlit("beware of overwriting and existing project file!\n"); }
                    self.terminal_buffer.append("beware of overwriting and existing project file!\n");
                    SaveStep::Refused
                } else {
                    let template_dir = match &self.system.main_board {
                        Some(m) => m.get_template_dir().clone(),
                        None => None,
                    };
                    self.location = Some(d.clone());
                    SaveStep::Write { dir: d, template_dir }
                }
            },
        }
    }

    /// Save: into the project's directory, or, for a project never saved,
    /// as `save_as` does with the same arguments.
    pub fn save(&mut self, picked: Option<String>, manifest_exists: bool) -> (r: SaveStep)
        ensures
            (final(self)@, r@) == save_spec(old(self)@, opt_str_view(picked), manifest_exists),
    {
        match &self.location {
            None => self.save_as(picked, manifest_exists),
            Some(l) => SaveStep::Write { dir: l.clone(), template_dir: None },
        }
    }

    /// The directory in which a new file may be created; a project never
    /// saved gets a notice instead.
    pub fn new_file(&mut self) -> (r: Option<String>)
        ensures
            match old(self)@.location {
                Some(l) => r matches Some(d) && d@ == l && final(self)@ == old(self)@,
                None => r.is_none() && final(self)@ == (ProjectView {
                    transcript: old(self)@.transcript + "must save project before adding files/directories"@ + "\n"@,
                    ..old(self)@
                }),
            },
    {
        match &self.location {
            Some(l) => Some(l.clone()),
            None => {
                proof { reveal_strlit("must save project before adding files/directories"); }
                self.info_logger("must save project before adding files/directories");
                None
            },
        }
    }
}

} // verus!
