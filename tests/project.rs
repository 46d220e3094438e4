use iron_coder::board::Board;
use iron_coder::commands::{add_command, build_command, dependency_commands, init_command, run_command, CommandSpec};
use iron_coder::project::{Project, ProjectManifest, ProjectViewType, SaveStep};
use iron_coder::system::System;

fn s(x: &str) -> String {
    x.to_string()
}

fn peripheral(name: &str) -> Board {
    Board::new(s(name), false, None, None, None)
}

fn main_board(name: &str, template: Option<&str>, crates: Option<Vec<&str>>) -> Board {
    Board::new(
        s(name),
        true,
        None,
        template.map(s),
        crates.map(|v| v.into_iter().map(s).collect()),
    )
}

fn args_of(c: &CommandSpec) -> Vec<&str> {
    c.args.iter().map(|a| a.as_str()).collect()
}

fn saved_project(dir: &str) -> Project {
    let mut p = Project::new();
    match p.save_as(Some(s(dir)), false) {
        SaveStep::Write { .. } => {}
        _ => panic!("save_as into a fresh directory must write"),
    }
    p
}

#[test]
fn two_distinct_peripherals_kept_in_order() {
    let mut p = Project::new();
    p.add_board(peripheral("feather_a"));
    p.add_board(peripheral("feather_b"));
    let boards = p.borrow_boards();
    assert_eq!(boards.len(), 2);
    assert_eq!(boards[0].get_name(), "feather_a");
    assert_eq!(boards[1].get_name(), "feather_b");
}

#[test]
fn same_peripheral_twice_added_once() {
    let mut p = Project::new();
    p.add_board(peripheral("feather_a"));
    p.add_board(peripheral("feather_a"));
    assert_eq!(p.borrow_boards().len(), 1);
    assert_eq!(p.get_transcript(), "project already contains that board\n");
}

#[test]
fn second_main_board_ignored() {
    let mut p = Project::new();
    assert!(!p.has_main_board());
    p.add_board(main_board("first", None, None));
    assert!(p.has_main_board());
    p.add_board(main_board("second", None, None));
    let main = p.get_system().main_board.as_ref().unwrap();
    assert_eq!(main.get_name(), "first");
    assert_eq!(p.get_transcript(), "");
    assert_eq!(p.borrow_boards().len(), 0);
}

#[test]
fn boards_equal_by_name_and_role() {
    let a = Board::new(s("x"), false, Some(s("/bsp")), None, None);
    let b = Board::new(s("x"), false, None, None, None);
    let c = Board::new(s("x"), true, None, None, None);
    assert!(a == b);
    assert!(a != c);
}

#[test]
fn manifest_round_trip_keeps_system() {
    let mut p = Project::new();
    *p.borrow_name() = s("blinky");
    p.add_board(main_board("m", Some("/tmpl"), Some(vec!["x"])));
    p.add_board(peripheral("led_ring"));
    p.add_board(peripheral("button_pad"));
    p.info_logger("some output");
    let q = Project::from_manifest(p.to_manifest(), Some(s("/proj")));
    assert_eq!(q.get_name(), "blinky");
    assert_eq!(q.get_location(), "/proj");
    assert_eq!(q.get_transcript(), "");
    let (ps, qs) = (p.get_system(), q.get_system());
    assert!(ps.main_board == qs.main_board);
    assert!(ps.boards == qs.boards);
    assert!(qs.main_board.as_ref().unwrap().get_template_dir() == &Some(s("/tmpl")));
}

#[test]
fn save_without_location_is_save_as() {
    let mut a = Project::new();
    let mut b = Project::new();
    let ra = a.save(Some(s("/d")), false);
    let rb = b.save_as(Some(s("/d")), false);
    match (ra, rb) {
        (SaveStep::Write { dir: d1, template_dir: t1 }, SaveStep::Write { dir: d2, template_dir: t2 }) => {
            assert_eq!(d1, d2);
            assert_eq!(t1, t2);
        }
        _ => panic!("both must write"),
    }
    assert_eq!(a.get_location(), b.get_location());

    let mut c = Project::new();
    let mut d = Project::new();
    assert!(matches!(c.save(Some(s("/d")), true), SaveStep::Refused));
    assert!(matches!(d.save_as(Some(s("/d")), true), SaveStep::Refused));
    assert_eq!(c.get_transcript(), d.get_transcript());
}

#[test]
fn save_as_refuses_existing_manifest() {
    let mut p = Project::new();
    assert!(matches!(p.save_as(Some(s("/d")), true), SaveStep::Refused));
    assert!(!p.has_location());
    assert_eq!(p.get_location(), "");
    assert_eq!(p.get_transcript(), "beware of overwriting and existing project file!\n");
}

#[test]
fn save_as_cancelled_does_nothing() {
    let mut p = Project::new();
    assert!(matches!(p.save_as(None, false), SaveStep::Cancelled));
    assert!(!p.has_location());
    assert_eq!(p.get_transcript(), "");
}

#[test]
fn save_as_copies_main_template() {
    let mut p = Project::new();
    p.add_board(main_board("m", Some("/templates/m"), None));
    match p.save_as(Some(s("/d")), false) {
        SaveStep::Write { dir, template_dir } => {
            assert_eq!(dir, "/d");
            assert_eq!(template_dir, Some(s("/templates/m")));
        }
        _ => panic!("must write"),
    }
    match p.save(None, false) {
        SaveStep::Write { dir, template_dir } => {
            assert_eq!(dir, "/d");
            assert_eq!(template_dir, None);
        }
        _ => panic!("must write"),
    }
}

#[test]
fn dependency_commands_in_literal_order() {
    let mut sys = System::new();
    sys.set_main(main_board("board_a", None, Some(vec!["x", "y"])));
    sys.add_peripheral(Board::new(s("board_b"), false, None, None, Some(vec![s("z")])));
    let cmds = dependency_commands(&sys, &s("/p"), &s("demo"));
    assert_eq!(cmds.len(), 4);
    for c in cmds.iter() {
        assert_eq!(c.program, "cargo");
    }
    assert_eq!(args_of(&cmds[0]), vec!["-Z", "unstable-options", "-C", "/p", "init", "--name", "demo", "--vcs", "none"]);
    assert_eq!(args_of(&cmds[1]), vec!["-Z", "unstable-options", "-C", "/p", "add", "x"]);
    assert_eq!(args_of(&cmds[2]), vec!["-Z", "unstable-options", "-C", "/p", "add", "y"]);
    assert_eq!(args_of(&cmds[3]), vec!["-Z", "unstable-options", "-C", "/p", "add", "z"]);
}

#[test]
fn add_crates_submits_one_run() {
    let mut p = saved_project("/p");
    *p.borrow_name() = s("demo");
    p.add_board(main_board("board_a", None, Some(vec!["x", "y"])));
    p.add_board(Board::new(s("board_b"), false, None, None, Some(vec![s("z")])));
    let t = p.add_crates_to_project().unwrap();
    assert_eq!(t.commands.len(), 4);
    assert_eq!(args_of(&t.commands[3]), vec!["-Z", "unstable-options", "-C", "/p", "add", "z"]);
}

#[test]
fn add_crates_without_declared_crates_runs_nothing() {
    let mut p = saved_project("/p");
    p.add_board(peripheral("plain"));
    assert!(p.add_crates_to_project().is_none());
    let mut q = Project::new();
    q.add_board(main_board("board_a", None, Some(vec!["x"])));
    assert!(q.add_crates_to_project().is_none());
}

#[test]
fn command_templates() {
    assert_eq!(args_of(&build_command(&s("/w"))), vec!["-Z", "unstable-options", "-C", "/w", "build"]);
    assert_eq!(args_of(&run_command(&s("/w"))), vec!["-Z", "unstable-options", "-C", "/w", "run"]);
    assert_eq!(args_of(&add_command(&s("/w"), &s("pkg"))), vec!["-Z", "unstable-options", "-C", "/w", "add", "pkg"]);
    assert_eq!(
        args_of(&init_command(&s("/w"), &s("n"))),
        vec!["-Z", "unstable-options", "-C", "/w", "init", "--name", "n", "--vcs", "none"]
    );
}

#[test]
fn build_needs_location() {
    let mut p = Project::new();
    assert!(p.build().is_none());
    assert!(p.load_to_board().is_none());
    let msg = "project needs a valid working directory before building\n";
    assert_eq!(*p.get_transcript(), format!("{}{}", msg, msg));
    let mut q = saved_project("/w");
    let t = q.build().unwrap();
    assert_eq!(t.commands.len(), 1);
    assert_eq!(args_of(&t.commands[0]), vec!["-Z", "unstable-options", "-C", "/w", "build"]);
    let t2 = q.load_to_board().unwrap();
    assert_eq!(args_of(&t2.commands[0]), vec!["-Z", "unstable-options", "-C", "/w", "run"]);
    assert_ne!(t.run, t2.run);
}

#[test]
fn run_lines_arrive_in_order() {
    let mut p = Project::new();
    let t = p.start_run(vec![]);
    p.deliver_line(t.run, s("A"));
    p.deliver_line(t.run, s("B"));
    p.drain_output();
    assert_eq!(p.get_transcript(), "A\nB\n");
    p.drain_output();
    assert_eq!(p.get_transcript(), "A\nB\n");
}

#[test]
fn new_run_discards_undrained_lines() {
    let mut p = Project::new();
    let first = p.start_run(vec![]);
    p.deliver_line(first.run, s("old 1"));
    let second = p.start_run(vec![]);
    p.deliver_line(first.run, s("old 2"));
    p.deliver_line(second.run, s("new"));
    p.drain_output();
    assert_eq!(p.get_transcript(), "new\n");
}

#[test]
fn new_file_needs_location() {
    let mut p = Project::new();
    assert_eq!(p.new_file(), None);
    assert_eq!(p.get_transcript(), "must save project before adding files/directories\n");
    let mut q = saved_project("/w");
    assert_eq!(q.new_file(), Some(s("/w")));
}

#[test]
fn open_replaces_or_reports() {
    let mut p = Project::new();
    p.info_logger("kept");
    p.open(s("/x"), None);
    assert_eq!(p.get_transcript(), "kept\nerror opening project\n");

    let mut sys = System::new();
    sys.boards.push(peripheral("dup"));
    sys.boards.push(peripheral("dup"));
    let bad = ProjectManifest { name: s("bad"), system: sys, current_view: ProjectViewType::BoardsView };
    p.open(s("/x"), Some(bad));
    assert_eq!(p.get_name(), "");
    assert!(!p.has_location());

    let mut sys = System::new();
    sys.add_peripheral(peripheral("one"));
    let good = ProjectManifest { name: s("good"), system: sys, current_view: ProjectViewType::EditView };
    p.open(s("/y"), Some(good));
    assert_eq!(p.get_name(), "good");
    assert_eq!(p.get_location(), "/y");
    assert_eq!(p.get_transcript(), "");
    assert_eq!(p.get_system().boards.len(), 1);
}

#[test]
fn known_boards_fill_in_descriptors() {
    let mut p = Project::new();
    p.add_board(peripheral("sensor"));
    p.add_board(peripheral("unknown"));
    let known = vec![
        Board::new(s("other"), false, Some(s("/bsp/other")), None, None),
        Board::new(s("sensor"), false, Some(s("/bsp/sensor")), None, Some(vec![s("sensor-hal")])),
        Board::new(s("sensor"), false, Some(s("/bsp/second")), None, None),
    ];
    p.load_board_resources(known);
    let boards = p.borrow_boards();
    assert_eq!(boards[0].get_bsp_dir(), &Some(s("/bsp/sensor")));
    assert_eq!(boards[0].required_crates(), &Some(vec![s("sensor-hal")]));
    assert_eq!(boards[1].get_bsp_dir(), &None);
}

#[test]
fn location_and_name_accessors() {
    let mut p = Project::new();
    assert_eq!(p.get_location(), "");
    p.borrow_name().push_str("renamed");
    assert_eq!(p.get_name(), "renamed");
    let q = saved_project("/here");
    assert_eq!(q.get_location(), "/here");
}

#[test]
fn open_discards_lines_of_earlier_run() {
    let mut p = Project::new();
    let old = p.start_run(vec![]);
    let mut sys = System::new();
    sys.add_peripheral(peripheral("one"));
    let m = ProjectManifest { name: s("next"), system: sys, current_view: ProjectViewType::BoardsView };
    p.open(s("/n"), Some(m));
    p.deliver_line(old.run, s("stale"));
    let fresh = p.start_run(vec![]);
    assert_ne!(fresh.run, old.run);
    p.deliver_line(old.run, s("stale again"));
    p.deliver_line(fresh.run, s("fresh"));
    p.drain_output();
    assert_eq!(p.get_transcript(), "fresh\n");
}

#[test]
fn failed_save_restores_location() {
    let mut p = Project::new();
    let before = p.location();
    assert_eq!(before, None);
    assert!(matches!(p.save_as(Some(s("/d")), false), SaveStep::Write { .. }));
    assert_eq!(p.location(), Some(s("/d")));
    p.restore_location(before);
    assert!(!p.has_location());
    assert_eq!(p.get_transcript(), "error saving project\n");
}
