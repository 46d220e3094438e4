use iron_coder::project::Project;
use iron_coder::worker::{Worker, WorkerAction, WorkerEvent};

#[test]
fn worker_runs_commands_in_sequence() {
    let mut w = Worker::new(7, 2);
    assert!(matches!(w.step(WorkerEvent::Ready), WorkerAction::Launch(0)));
    match w.step(WorkerEvent::Line("A".to_string())) {
        WorkerAction::Send(run, line) => {
            assert_eq!(run, 7);
            assert_eq!(line, "A");
        }
        _ => panic!("a line is forwarded"),
    }
    assert!(matches!(w.step(WorkerEvent::Ready), WorkerAction::Launch(1)));
    assert!(matches!(w.step(WorkerEvent::Line("B".to_string())), WorkerAction::Send(7, _)));
    assert!(matches!(w.step(WorkerEvent::Ready), WorkerAction::Finish));
    assert!(w.done);
    assert!(matches!(w.step(WorkerEvent::Ready), WorkerAction::Finish));
}

#[test]
fn worker_stops_when_launch_fails() {
    let mut w = Worker::new(1, 3);
    assert!(matches!(w.step(WorkerEvent::Ready), WorkerAction::Launch(0)));
    assert!(matches!(w.step(WorkerEvent::LaunchFailed), WorkerAction::Finish));
    assert!(matches!(w.step(WorkerEvent::Ready), WorkerAction::Finish));
    assert_eq!(w.next, 1);
}

#[test]
fn worker_with_no_commands_finishes() {
    let mut w = Worker::new(0, 0);
    assert!(matches!(w.step(WorkerEvent::Ready), WorkerAction::Finish));
}

#[test]
fn default_and_clone() {
    let mut p = Project::default();
    assert_eq!(p.get_name(), "");
    assert!(!p.has_location());
    p.info_logger("line");
    let t = p.start_run(vec![]);
    p.deliver_line(t.run, "pending".to_string());
    let mut q = p.clone();
    assert_eq!(q.get_transcript(), "line\n");
    q.drain_output();
    assert_eq!(q.get_transcript(), "line\n");
    p.drain_output();
    assert_eq!(p.get_transcript(), "line\npending\n");
}
