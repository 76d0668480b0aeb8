use sixel_backend::event_loop::{advance, after_resize, io_err, poll_timeout, Action, Outcome};
use sixel_backend::queue::Queue;

const FINE: Outcome = Outcome { failed: false, ready: false, quit: false };
const READY: Outcome = Outcome { failed: false, ready: true, quit: false };
const QUIT: Outcome = Outcome { failed: false, ready: false, quit: true };
const FAILED: Outcome = Outcome { failed: true, ready: false, quit: false };

const ALL: [Action; 11] = [
    Action::EnterTerminal,
    Action::SyncGeometry,
    Action::SetScaleFactor,
    Action::ClearScreen,
    Action::UpdateTimers,
    Action::DrainQueue,
    Action::WaitForInput,
    Action::ReadEvent,
    Action::PollAgain,
    Action::EmitFrame,
    Action::Stop,
];

fn run(outcomes: &[Outcome]) -> Vec<Action> {
    let mut actions = vec![Action::EnterTerminal];
    for outcome in outcomes {
        let last = actions[actions.len() - 1];
        actions.push(advance(last, *outcome));
    }
    actions
}

#[test]
fn the_loop_sets_up_and_draws() {
    assert_eq!(
        run(&[FINE; 9]),
        vec![
            Action::EnterTerminal,
            Action::SyncGeometry,
            Action::SetScaleFactor,
            Action::ClearScreen,
            Action::UpdateTimers,
            Action::DrainQueue,
            Action::WaitForInput,
            Action::EmitFrame,
            Action::UpdateTimers,
            Action::DrainQueue,
        ]
    );
}

#[test]
fn all_input_is_read_before_a_frame() {
    let outcomes = [FINE, FINE, FINE, FINE, FINE, FINE, READY, FINE, READY, FINE, FINE];
    assert_eq!(
        run(&outcomes)[6..],
        [
            Action::WaitForInput,
            Action::ReadEvent,
            Action::PollAgain,
            Action::ReadEvent,
            Action::PollAgain,
            Action::EmitFrame,
        ]
    );
}

#[test]
fn quitting_is_heeded_at_the_checkpoints() {
    for action in ALL {
        let stops = matches!(
            action,
            Action::ClearScreen
                | Action::DrainQueue
                | Action::WaitForInput
                | Action::PollAgain
                | Action::EmitFrame
                | Action::Stop
        );
        assert_eq!(advance(action, QUIT) == Action::Stop, stops);
    }
    let both = Outcome { failed: false, ready: true, quit: true };
    assert_eq!(advance(Action::WaitForInput, both), Action::ReadEvent);
    assert_eq!(advance(Action::PollAgain, both), Action::ReadEvent);
}

#[test]
fn failing_stops_the_loop() {
    for action in ALL {
        assert_eq!(advance(action, FAILED), Action::Stop);
        assert_eq!(advance(Action::Stop, FINE), Action::Stop);
    }
}

#[test]
fn no_frame_once_asked_to_quit() {
    for action in ALL {
        let mut now = action;
        for _ in 0..20 {
            now = advance(now, QUIT);
            assert_ne!(now, Action::EmitFrame);
        }
        assert_eq!(now, Action::Stop);
    }
}

#[test]
fn a_resize_clears_the_screen_when_the_geometry_changed() {
    assert_eq!(after_resize(false, true), Some(Action::ClearScreen));
    assert_eq!(after_resize(false, false), None);
    assert_eq!(after_resize(true, true), None);
    assert_eq!(after_resize(true, false), None);
}

#[test]
fn waiting_times() {
    assert_eq!(poll_timeout(true, None), 16_000_000);
    assert_eq!(poll_timeout(true, Some(0)), 0);
    assert_eq!(poll_timeout(true, Some(5_000_000)), 5_000_000);
    assert_eq!(poll_timeout(true, Some(15_999_999)), 15_999_999);
    assert_eq!(poll_timeout(true, Some(16_000_000)), 16_000_000);
    assert_eq!(poll_timeout(true, Some(u128::MAX)), 16_000_000);
    assert_eq!(poll_timeout(false, None), 50_000_000);
    assert_eq!(poll_timeout(false, Some(0)), 0);
    assert_eq!(poll_timeout(false, Some(70_000_001)), 70_000_001);
    assert_eq!(poll_timeout(false, Some(100_000_001)), 100_000_000);
    assert_eq!(poll_timeout(false, Some(u128::MAX)), 100_000_000);
}

#[test]
fn errors_name_the_backend() {
    assert_eq!(io_err("broken pipe"), "sixel terminal backend: broken pipe");
}

#[test]
fn jobs_come_out_in_order_and_once() {
    let mut queue: Queue<u32> = Queue::new();
    assert_eq!(queue.drain(), Vec::<u32>::new());
    queue.push(1);
    queue.push(2);
    assert_eq!(queue.drain(), vec![1, 2]);
    queue.push(3);
    assert_eq!(queue.drain(), vec![3]);
    assert_eq!(queue.drain(), Vec::<u32>::new());
}
