use lxp::batch::{BatchScheduler, BatchStep, Summary, MAX_IN_FLIGHT};
use lxp::watch::{DirWatcher, WatchAction, WatchEvent, WatchState};

fn files(n: usize) -> Vec<String> {
    (0..n).map(|i| format!("dir/f{}.pdf", i)).collect()
}

#[test]
fn batch_never_exceeds_five_in_flight() {
    let mut s = BatchScheduler::new(files(12));
    let mut running: Vec<String> = Vec::new();
    let mut started: Vec<String> = Vec::new();
    let mut peak = 0;
    let mut turn = 0usize;
    loop {
        match s.next_step() {
            BatchStep::Start(f) => {
                running.push(f.clone());
                started.push(f);
                peak = peak.max(running.len());
                assert!(running.len() <= 5);
                assert_eq!(s.in_flight(), running.len());
            }
            BatchStep::Wait => {
                // finish the oldest submission; every third one fails
                running.remove(0);
                assert!(s.complete(turn % 3 != 2));
                turn += 1;
            }
            BatchStep::Done => break,
        }
    }
    assert_eq!(MAX_IN_FLIGHT, 5);
    assert_eq!(peak, 5);
    assert_eq!(started, files(12));
    assert_eq!(s.summary(), Summary { submitted: 8, failed: 4 });
}

#[test]
fn batch_of_one_file() {
    let mut s = BatchScheduler::new(vec!["only.pdf".to_string()]);
    assert_eq!(s.next_step(), BatchStep::Start("only.pdf".to_string()));
    assert_eq!(s.next_step(), BatchStep::Wait);
    assert!(s.complete(true));
    assert_eq!(s.next_step(), BatchStep::Done);
    assert_eq!(s.summary(), Summary { submitted: 1, failed: 0 });
}

#[test]
fn empty_batch_is_done_at_once() {
    let mut s = BatchScheduler::new(Vec::new());
    assert_eq!(s.next_step(), BatchStep::Done);
    assert!(!s.complete(true));
    assert_eq!(s.summary(), Summary { submitted: 0, failed: 0 });
}

#[test]
fn one_created_event_gives_one_submission() {
    let mut w = DirWatcher::new();
    let a = w.handle_event(WatchEvent::Created("in/a.pdf".to_string()));
    assert_eq!(a, WatchAction::Submit("in/a.pdf".to_string()));
    assert_eq!(w.state, WatchState::Processing("in/a.pdf".to_string()));
    assert_eq!(w.handle_event(WatchEvent::Other), WatchAction::Nothing);
    assert_eq!(w.state, WatchState::Processing("in/a.pdf".to_string()));
}

#[test]
fn non_pdf_file_is_left_alone() {
    let mut w = DirWatcher::new();
    assert_eq!(w.handle_event(WatchEvent::Created("in/b.txt".to_string())), WatchAction::Nothing);
    assert_eq!(w.state, WatchState::Idle);
    assert_eq!(w.handle_event(WatchEvent::WatchError), WatchAction::Nothing);
    assert_eq!(w.state, WatchState::Idle);
}

#[test]
fn watch_cycle_moves_submitted_pdf_and_ignores_text() {
    let mut w = DirWatcher::new();
    let mut submissions = 0;
    let mut moves = Vec::new();
    for ev in [
        WatchEvent::Created("dir/a.pdf".to_string()),
        WatchEvent::Created("dir/b.txt".to_string()),
    ] {
        match w.handle_event(ev) {
            WatchAction::Submit(p) => {
                submissions += 1;
                assert_eq!(p, "dir/a.pdf");
                match w.handle_outcome(true) {
                    WatchAction::Move { from, to } => moves.push((from, to)),
                    other => panic!("unexpected {:?}", other),
                }
            }
            WatchAction::Nothing => {}
            other => panic!("unexpected {:?}", other),
        }
    }
    assert_eq!(submissions, 1);
    assert_eq!(moves, vec![("dir/a.pdf".to_string(), "dir/sent/a.pdf".to_string())]);
    assert_eq!(w.state, WatchState::Idle);
}

#[test]
fn failed_submission_keeps_file_in_place() {
    let mut w = DirWatcher::new();
    assert_eq!(
        w.handle_event(WatchEvent::Created("dir/c.PDF".to_string())),
        WatchAction::Submit("dir/c.PDF".to_string())
    );
    let a = w.handle_outcome(false);
    assert_eq!(a, WatchAction::ReportFailure("dir/c.PDF".to_string()));
    assert_eq!(w.state, WatchState::Idle);
    assert_eq!(w.handle_outcome(false), WatchAction::Nothing);
}

#[test]
fn shutdown_stops_the_watch() {
    let mut w = DirWatcher::new();
    assert_eq!(w.handle_event(WatchEvent::Shutdown), WatchAction::Stop);
    assert_eq!(w.state, WatchState::Stopped);
    assert_eq!(w.handle_event(WatchEvent::Created("x.pdf".to_string())), WatchAction::Nothing);
}
