use urandom_bench::worker::{Action, Event, Worker};

/// Runs a worker to its end, answering each action; the shutdown signal is
/// seen at the poll after `shutdown_after` draws, if given.
fn run(iterations: u32, shutdown_after: Option<usize>, levels: &[u32]) -> (Worker, Vec<u32>) {
    let mut w = Worker::new(iterations, 0, 100);
    let mut action = w.next_action();
    let mut reported = Vec::new();
    let mut reads = 0usize;
    let mut ns = 1000u64;
    loop {
        let event = match action {
            Action::Draw => {
                ns += 1;
                Event::Drawn(ns)
            }
            Action::Sleep(_) => Event::Woke,
            Action::ReadEntropy => {
                let level = if reads < levels.len() { levels[reads] } else { 100 };
                reads += 1;
                Event::EntropyRead(level)
            }
            Action::PollShutdown(changed) => {
                if let Some(v) = changed {
                    reported.push(v);
                }
                Event::ShutdownPolled(shutdown_after == Some(w.completed()))
            }
            Action::Finish => break,
        };
        action = w.step(event);
    }
    (w, reported)
}

#[test]
fn full_run_makes_every_draw() {
    let (w, _) = run(5, None, &[]);
    assert!(w.is_stopped());
    assert!(!w.interrupted());
    assert_eq!(w.completed(), 5);
    assert_eq!(w.samples(), &vec![1001, 1002, 1003, 1004, 1005]);
}

#[test]
fn zero_iterations_stop_at_once() {
    let w = Worker::new(0, 1000, 7);
    assert!(w.is_stopped());
    assert_eq!(w.next_action(), Action::Finish);
    assert_eq!(w.into_samples(), Vec::<u64>::new());
}

#[test]
fn shutdown_after_first_cycle_stops_early() {
    let (w, _) = run(10, Some(1), &[]);
    assert!(w.is_stopped());
    assert!(w.interrupted());
    assert_eq!(w.completed(), 1);
    assert_eq!(w.into_samples(), vec![1001]);
}

#[test]
fn cycle_follows_draw_sleep_entropy_poll() {
    let mut w = Worker::new(2, 250, 9);
    assert_eq!(w.next_action(), Action::Draw);
    assert_eq!(w.step(Event::Drawn(40)), Action::Sleep(250));
    assert_eq!(w.step(Event::Woke), Action::ReadEntropy);
    assert_eq!(w.step(Event::EntropyRead(9)), Action::PollShutdown(None));
    assert_eq!(w.step(Event::ShutdownPolled(false)), Action::Draw);
    assert_eq!(w.step(Event::Drawn(41)), Action::Sleep(250));
    assert_eq!(w.step(Event::Woke), Action::ReadEntropy);
    assert_eq!(w.step(Event::EntropyRead(9)), Action::PollShutdown(None));
    assert_eq!(w.step(Event::ShutdownPolled(false)), Action::Finish);
    assert!(!w.interrupted());
    assert_eq!(w.samples(), &vec![40, 41]);
}

#[test]
fn entropy_change_is_reported_without_changing_the_run() {
    let (w, reported) = run(3, None, &[100, 120, 120]);
    assert_eq!(reported, vec![120]);
    assert_eq!(w.entropy_count(), 120);
    assert_eq!(w.completed(), 3);
    let (plain, none) = run(3, None, &[]);
    assert!(none.is_empty());
    assert_eq!(plain.samples(), w.samples());
}

#[test]
fn unexpected_event_changes_nothing() {
    let mut w = Worker::new(3, 10, 5);
    assert_eq!(w.step(Event::Woke), Action::Draw);
    assert_eq!(w.step(Event::EntropyRead(6)), Action::Draw);
    assert_eq!(w.entropy_count(), 5);
    assert_eq!(w.completed(), 0);
    assert_eq!(w.step(Event::Drawn(3)), Action::Sleep(10));
    assert_eq!(w.step(Event::Drawn(4)), Action::Sleep(10));
    assert_eq!(w.completed(), 1);
}

#[test]
fn shutdown_seen_on_last_cycle_still_keeps_samples() {
    let (w, _) = run(2, Some(2), &[]);
    assert!(w.interrupted());
    assert_eq!(w.completed(), 2);
}
