//! Control flow of the event loop.

use vstd::prelude::*;
use vstd::string::*;

verus! {

/// A millisecond in nanoseconds.
pub const MILLISECOND: u64 = 1_000_000;

/// What the event loop does next.
#[derive(Clone, Copy, PartialEq, Eq, Debug, Structural)]
pub enum Action {
    /// Switch the terminal into the mode that the backend needs.
    EnterTerminal,
    /// Ask the terminal for its size and set the backend up for it.
    SyncGeometry,
    /// Tell the window its scale factor, 1.
    SetScaleFactor,
    /// Clear the screen.
    ClearScreen,
    /// Let timers and animations advance.
    UpdateTimers,
    /// Run the queued jobs.
    DrainQueue,
    /// Wait for input as long as [`poll_timeout`] says.
    WaitForInput,
    /// Read one event, which is there, and do what it calls for.
    ReadEvent,
    /// Look whether another event is there, without waiting.
    PollAgain,
    /// Draw the window and write the frame.
    EmitFrame,
    /// Restore the terminal and leave the loop.
    Stop,
}

/// How an action went.
#[derive(Clone, Copy, PartialEq, Eq, Debug, Structural)]
pub struct Outcome {
    /// The action failed.
    pub failed: bool,
    /// Looking for input found some.
    pub ready: bool,
    /// The loop has been asked to quit, as seen right after the action.
    pub quit: bool,
}

/// Whether the action looks for input.
pub open spec fn looks_for_input(action: Action) -> bool {
    action == Action::WaitForInput || action == Action::PollAgain
}

/// Whether the loop tests after the action if it has been asked to quit.
pub open spec fn heeds_quit(action: Action) -> bool {
    ||| action == Action::ClearScreen
    ||| action == Action::DrainQueue
    ||| action == Action::WaitForInput
    ||| action == Action::PollAgain
    ||| action == Action::EmitFrame
}

/// The action that follows when nothing has failed, no input is there and nobody asks to quit.
pub open spec fn successor(action: Action) -> Action {
    match action {
        Action::EnterTerminal => Action::SyncGeometry,
        Action::SyncGeometry => Action::SetScaleFactor,
        Action::SetScaleFactor => Action::ClearScreen,
        Action::ClearScreen => Action::UpdateTimers,
        Action::UpdateTimers => Action::DrainQueue,
        Action::DrainQueue => Action::WaitForInput,
        Action::WaitForInput => Action::EmitFrame,
        Action::ReadEvent => Action::PollAgain,
        Action::PollAgain => Action::EmitFrame,
        Action::EmitFrame => Action::UpdateTimers,
        Action::Stop => Action::Stop,
    }
}

/// The action that follows `action`. Input that is there is read before a wish to quit is heeded.
pub open spec fn next_action(action: Action, outcome: Outcome) -> Action {
    if outcome.failed {
        Action::Stop
    } else if looks_for_input(action) && outcome.ready {
        Action::ReadEvent
    } else if heeds_quit(action) && outcome.quit {
        Action::Stop
    } else {
        successor(action)
    }
}

/// Decides what the event loop does after an action.
pub fn advance(action: Action, outcome: Outcome) -> (next: Action)
    ensures
        next == next_action(action, outcome),
{
    if outcome.failed {
        return Action::Stop;
    }
    match action {
        Action::EnterTerminal => Action::SyncGeometry,
        Action::SyncGeometry => Action::SetScaleFactor,
        Action::SetScaleFactor => Action::ClearScreen,
        Action::ClearScreen | Action::EmitFrame => {
            if outcome.quit {
                Action::Stop
            } else {
                Action::UpdateTimers
            }
        },
        Action::UpdateTimers => Action::DrainQueue,
        Action::DrainQueue => {
            if outcome.quit {
                Action::Stop
            } else {
                Action::WaitForInput
            }
        },
        Action::WaitForInput | Action::PollAgain => {
            if outcome.ready {
                Action::ReadEvent
            } else if outcome.quit {
                Action::Stop
            } else {
                Action::EmitFrame
            }
        },
        Action::ReadEvent => Action::PollAgain,
        Action::Stop => Action::Stop,
    }
}

/// The action that a resize calls for once the terminal was asked for its size again: the screen is
/// cleared if that went well and the geometry changed.
pub open spec fn action_after_resize(failed: bool, changed: bool) -> Option<Action> {
    if !failed && changed {
        Some(Action::ClearScreen)
    } else {
        None
    }
}

/// Decides what to do once the terminal was asked for its size because of a resize.
pub fn after_resize(failed: bool, changed: bool) -> (next: Option<Action>)
    ensures
        next == action_after_resize(failed, changed),
        next == (if !failed && changed {
            Some(Action::ClearScreen)
        } else {
            None
        }),
{
    if changed && !failed {
        Some(Action::ClearScreen)
    } else {
        None
    }
}

/// How long to wait for input, in nanoseconds: while an animation runs, up to its next tick or the
/// next timer, whichever comes first; else up to the next timer, or 50 milliseconds without one;
/// never more than 100 milliseconds.
pub open spec fn timeout_for(animating: bool, next_timer: Option<u128>) -> int {
    let wanted = if animating {
        match next_timer {
            Some(nanos) if nanos < 16 * MILLISECOND => nanos as int,
            _ => 16 * MILLISECOND as int,
        }
    } else {
        match next_timer {
            Some(nanos) => nanos as int,
            None => 50 * MILLISECOND as int,
        }
    };
    if wanted <= 100 * MILLISECOND { wanted } else { 100 * MILLISECOND as int }
}

/// Returns how long to wait for input, in nanoseconds, when the next timer is due in `next_timer`
/// nanoseconds.
pub fn poll_timeout(animating: bool, next_timer: Option<u128>) -> (nanos: u64)
    ensures
        nanos == timeout_for(animating, next_timer),
{
    let wanted: u128 = if animating {
        match next_timer {
            Some(nanos) if nanos < 16 * MILLISECOND as u128 => nanos,
            _ => 16 * MILLISECOND as u128,
        }
    } else {
        match next_timer {
            Some(nanos) => nanos,
            None => 50 * MILLISECOND as u128,
        }
    };
    if wanted <= 100 * MILLISECOND as u128 {
        wanted as u64
    } else {
        100 * MILLISECOND
    }
}

/// What stands before the message of an I/O error.
pub open spec fn error_prefix() -> Seq<char> {
    "sixel terminal backend: "@
}

/// Words the error with which the event loop ends when the terminal fails.
pub fn io_err(message: &str) -> (text: String)
    ensures
        text@ == error_prefix() + message@,
        text@ == "sixel terminal backend: "@ + message@,
{
    String::from_str("sixel terminal backend: ").concat(message)
}

/// The wait is at most 100 milliseconds, at most a tick of 16 milliseconds while an animation runs,
/// and never beyond the next timer.
pub proof fn waiting_is_bounded(animating: bool, next_timer: Option<u128>)
    ensures
        0 <= timeout_for(animating, next_timer) <= 100 * MILLISECOND,
        animating ==> timeout_for(animating, next_timer) <= 16 * MILLISECOND,
        next_timer matches Some(nanos) ==> timeout_for(animating, next_timer) <= nanos,
{
}

/// The action reached from `first` when the actions go as `outcomes` says.
pub open spec fn action_after(first: Action, outcomes: Seq<Outcome>) -> Action
    decreases outcomes.len(),
{
    if outcomes.len() == 0 {
        first
    } else {
        next_action(action_after(first, outcomes.drop_last()), outcomes.last())
    }
}

/// An event is read only right after input was found, so that reading never waits; a frame is
/// written only right after no more input was found and the loop was not asked to quit.
pub proof fn reads_and_frames_are_guarded(action: Action, outcome: Outcome)
    ensures
        next_action(action, outcome) == Action::ReadEvent ==> {
            &&& outcome.ready && !outcome.failed
            &&& action == Action::WaitForInput || action == Action::PollAgain
        },
        next_action(action, outcome) == Action::EmitFrame ==> {
            &&& !outcome.ready && !outcome.quit && !outcome.failed
            &&& action == Action::WaitForInput || action == Action::PollAgain
        },
{
}

/// A failure stops the loop at once, and a loop that stopped stays stopped.
pub proof fn stopping_is_final(first: Action, outcomes: Seq<Outcome>, i: int)
    requires
        0 <= i < outcomes.len(),
        outcomes[i].failed || action_after(first, outcomes.take(i)) == Action::Stop,
    ensures
        action_after(first, outcomes) == Action::Stop,
    decreases outcomes.len(),
{
    let less = outcomes.drop_last();
    if i < less.len() {
        assert(less.take(i) =~= outcomes.take(i));
        stopping_is_final(first, less, i);
    } else {
        assert(outcomes.take(i) =~= less);
    }
}

/// Once the loop has been asked to quit, and as long as it goes on being asked, no frame is written
/// any more.
pub proof fn quitting_ends_the_frames(first: Action, outcomes: Seq<Outcome>)
    requires
        first != Action::EmitFrame,
        forall|i: int| 0 <= i < outcomes.len() ==> (#[trigger] outcomes[i]).quit,
    ensures
        action_after(first, outcomes) != Action::EmitFrame,
    decreases outcomes.len(),
{
    if outcomes.len() > 0 {
        let less = outcomes.drop_last();
        assert forall|i: int| 0 <= i < less.len() implies (#[trigger] less[i]).quit by {
            assert(less[i] == outcomes[i]);
        }
        quitting_ends_the_frames(first, less);
        assert(outcomes.last() == outcomes[outcomes.len() - 1]);
    }
}

/// Before anything is drawn or read, the terminal has been switched, the backend set up for its
/// size, the scale factor told and the screen cleared, in this order and each successfully.
pub proof fn setup_comes_first(outcomes: Seq<Outcome>)
    requires
        ({
            let action = action_after(Action::EnterTerminal, outcomes);
            action == Action::EmitFrame || action == Action::ReadEvent
        }),
    ensures
        outcomes.len() > 4,
        action_after(Action::EnterTerminal, outcomes.take(1)) == Action::SyncGeometry,
        action_after(Action::EnterTerminal, outcomes.take(2)) == Action::SetScaleFactor,
        action_after(Action::EnterTerminal, outcomes.take(3)) == Action::ClearScreen,
        forall|i: int| 0 <= i < outcomes.len() ==> !(#[trigger] outcomes[i]).failed,
{
    assert forall|i: int| 0 <= i < outcomes.len() implies !(#[trigger] outcomes[i]).failed by {
        if outcomes[i].failed {
            stopping_is_final(Action::EnterTerminal, outcomes, i);
        }
    }
    let first = Action::EnterTerminal;
    assert(outcomes.len() == 0 ==> action_after(first, outcomes) == first);
    assert(outcomes.len() > 0);
    lemma_one_step(first, outcomes, 0);
    assert(outcomes.take(0) =~= Seq::<Outcome>::empty());
    assert(outcomes.take(outcomes.len() as int) =~= outcomes);
    if outcomes.len() > 1 {
        lemma_one_step(first, outcomes, 1);
    }
    if outcomes.len() > 2 {
        lemma_one_step(first, outcomes, 2);
    }
    if outcomes.len() > 3 {
        lemma_one_step(first, outcomes, 3);
    }
}

/// One more outcome takes the loop one action further.
proof fn lemma_one_step(first: Action, outcomes: Seq<Outcome>, i: int)
    requires
        0 <= i < outcomes.len(),
    ensures
        action_after(first, outcomes.take(i + 1)) == next_action(
            action_after(first, outcomes.take(i)),
            outcomes[i],
        ),
{
    assert(outcomes.take(i + 1).drop_last() =~= outcomes.take(i));
    assert(outcomes.take(i + 1).last() == outcomes[i]);
}

/// Whether the action lies between draining the queue and the end of the frame.
pub open spec fn is_past_queue(action: Action) -> bool {
    looks_for_input(action) || action == Action::ReadEvent || action == Action::EmitFrame
}

/// Before every frame, and after the frame before it, the timers were updated and then the queue
/// was drained. The number of the action that drained it is returned.
pub proof fn work_is_done_before_each_frame(outcomes: Seq<Outcome>) -> (drained: int)
    requires
        is_past_queue(action_after(Action::EnterTerminal, outcomes)),
    ensures
        1 <= drained < outcomes.len(),
        action_after(Action::EnterTerminal, outcomes.take(drained - 1)) == Action::UpdateTimers,
        action_after(Action::EnterTerminal, outcomes.take(drained)) == Action::DrainQueue,
        forall|k: int|
            drained < k < outcomes.len() ==> #[trigger] action_after(
                Action::EnterTerminal,
                outcomes.take(k),
            ) != Action::EmitFrame,
    decreases outcomes.len(),
{
    let first = Action::EnterTerminal;
    let n = outcomes.len() as int;
    assert(n > 0);
    let less = outcomes.drop_last();
    assert(outcomes.take(n - 1) =~= less);
    let before = action_after(first, less);
    if before == Action::DrainQueue {
        assert(less.len() > 0);
        assert(outcomes.take(n - 2) =~= less.drop_last());
        assert(action_after(first, less) == next_action(
            action_after(first, less.drop_last()),
            less.last(),
        ));
        n - 1
    } else {
        assert(is_past_queue(before) && before != Action::EmitFrame);
        let drained = work_is_done_before_each_frame(less);
        assert(outcomes.take(drained - 1) =~= less.take(drained - 1));
        assert(outcomes.take(drained) =~= less.take(drained));
        assert forall|k: int| drained < k < outcomes.len() implies #[trigger] action_after(
            first,
            outcomes.take(k),
        ) != Action::EmitFrame by {
            if k < n - 1 {
                assert(outcomes.take(k) =~= less.take(k));
            }
        }
        drained
    }
}

/// The wait is as long as it may be: of all times that exceed neither 100 milliseconds, nor a tick
/// of 16 milliseconds while an animation runs, nor the time to the next timer, nor 50 milliseconds
/// without a timer, it is the longest.
pub proof fn waiting_is_as_long_as_allowed(animating: bool, next_timer: Option<u128>, nanos: int)
    requires
        nanos <= 100_000_000,
        animating ==> nanos <= 16_000_000,
        match next_timer {
            Some(timer) => nanos <= timer,
            None => nanos <= 50_000_000,
        },
    ensures
        nanos <= timeout_for(animating, next_timer),
        0 <= timeout_for(animating, next_timer) <= 100_000_000,
        animating ==> timeout_for(animating, next_timer) <= 16_000_000,
        match next_timer {
            Some(timer) => timeout_for(animating, next_timer) <= timer,
            None => timeout_for(animating, next_timer) <= 50_000_000,
        },
{
}

/// As long as nothing fails, every step of the setup leads to the next, even if the loop is asked to
/// quit meanwhile; after the last one the loop begins, unless it has been asked to quit.
pub proof fn the_setup_leads_to_the_loop(outcome: Outcome)
    requires
        !outcome.failed,
    ensures
        next_action(Action::EnterTerminal, outcome) == Action::SyncGeometry,
        next_action(Action::SyncGeometry, outcome) == Action::SetScaleFactor,
        next_action(Action::SetScaleFactor, outcome) == Action::ClearScreen,
        next_action(Action::ClearScreen, outcome) == (if outcome.quit {
            Action::Stop
        } else {
            Action::UpdateTimers
        }),
{
}

/// As long as nothing fails and nobody asks to quit, the loop goes round: timers, queue, waiting for
/// input, a frame once no input is left, and timers again. Whatever is found by other actions than
/// those that look for input changes nothing.
pub proof fn the_loop_goes_round(outcome: Outcome)
    requires
        !outcome.failed,
        !outcome.quit,
    ensures
        next_action(Action::UpdateTimers, outcome) == Action::DrainQueue,
        next_action(Action::DrainQueue, outcome) == Action::WaitForInput,
        !outcome.ready ==> next_action(Action::WaitForInput, outcome) == Action::EmitFrame,
        next_action(Action::EmitFrame, outcome) == Action::UpdateTimers,
{
}

/// Input that is there is read, even if the loop has been asked to quit, and after each event the
/// loop looks for another one.
pub proof fn all_input_is_read(outcome: Outcome)
    requires
        !outcome.failed,
    ensures
        outcome.ready ==> next_action(Action::WaitForInput, outcome) == Action::ReadEvent,
        outcome.ready ==> next_action(Action::PollAgain, outcome) == Action::ReadEvent,
        next_action(Action::ReadEvent, outcome) == Action::PollAgain,
        !outcome.ready ==> next_action(Action::PollAgain, outcome) == next_action(
            Action::WaitForInput,
            outcome,
        ),
{
}

/// The loop stops when an action fails or when it has been asked to quit, at the next place where it
/// heeds that: before the timers, before it waits, and before a frame. It stops for no other reason.
pub proof fn the_loop_stops_when_asked(action: Action, outcome: Outcome)
    requires
        action != Action::Stop,
    ensures
        outcome.failed ==> next_action(action, outcome) == Action::Stop,
        next_action(action, outcome) == Action::Stop ==> outcome.failed || outcome.quit,
        !outcome.failed && outcome.quit && !outcome.ready ==> (next_action(action, outcome)
            == Action::Stop <==> {
            ||| action == Action::ClearScreen
            ||| action == Action::DrainQueue
            ||| action == Action::WaitForInput
            ||| action == Action::PollAgain
            ||| action == Action::EmitFrame
        }),
        !outcome.failed && outcome.quit && action == Action::UpdateTimers ==> next_action(
            action,
            outcome,
        ) == Action::DrainQueue,
        !outcome.failed && outcome.quit && (action == Action::DrainQueue || action
            == Action::EmitFrame) ==> next_action(action, outcome) == Action::Stop,
{
}

/// A run of the loop is its actions one after the other.
pub proof fn a_run_goes_step_by_step(first: Action, outcomes: Seq<Outcome>, last: Outcome)
    ensures
        action_after(first, Seq::empty()) == first,
        action_after(first, outcomes.push(last)) == next_action(action_after(first, outcomes), last),
{
    assert(outcomes.push(last).drop_last() =~= outcomes);
}

/// After a resize the screen is cleared when the size could be asked for and the geometry changed,
/// and else nothing is done.
pub proof fn a_resize_clears_on_change(failed: bool, changed: bool)
    ensures
        action_after_resize(failed, changed) == Some(Action::ClearScreen) <==> !failed && changed,
        action_after_resize(failed, changed) is None <==> failed || !changed,
{
}

/// Every error names the backend, then says what went wrong.
pub proof fn errors_name_the_backend()
    ensures
        error_prefix() == "sixel terminal backend: "@,
{
}

} // verus!
