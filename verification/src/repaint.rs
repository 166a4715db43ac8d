//! When to repaint which window: the decisions of the event loop, apart from
//! the event loop itself.
//!
//! Windows and times are plain numbers here. The host maps its window
//! handles and its clock to them, performs what is decided, and reports what
//! came of it.

use vstd::prelude::*;
use std::collections::HashMap;
use crate::id::lookup;

verus! {

/// The hasher state of `ahash`, which keys the table of repaint times.
#[verifier::external_type_specification]
#[verifier::external_body]
pub struct ExRandomState(ahash::RandomState);

/// The table of the times at which windows want to be repainted.
pub struct RepaintTimes {
    pub map: HashMap<u64, u64, ahash::RandomState>,
}

impl View for RepaintTimes {
    type V = Map<u64, u64>;

    open spec fn view(&self) -> Map<u64, u64> {
        self.map@
    }
}

/// An empty table.
///
/// Calls `HashMap::with_hasher` of std with a fresh `ahash::RandomState`.
/// The contract claims that the new map holds nothing.
#[verifier::external_body]
fn times_new() -> (out: RepaintTimes)
    ensures
        out@.dom() =~= Set::<u64>::empty(),
{
    RepaintTimes { map: HashMap::with_hasher(ahash::RandomState::new()) }
}

/// Sets the time of a window.
///
/// Calls `HashMap::insert` of std on a map hashed by `ahash`. The contract
/// claims what std documents: the key then maps to the value, and no other
/// key is affected.
#[verifier::external_body]
fn times_insert(times: &mut RepaintTimes, window: u64, time: u64)
    ensures
        final(times)@ == old(times)@.insert(window, time),
{
    times.map.insert(window, time);
}

/// The time of a window, if it has one.
///
/// Calls `HashMap::get` of std on a map hashed by `ahash`. The contract
/// claims what std documents: the value of the key, if the key is present.
#[verifier::external_body]
fn times_get(times: &RepaintTimes, window: u64) -> (time: Option<u64>)
    ensures
        time == lookup(times@, window),
{
    times.map.get(&window).copied()
}

/// Forgets a window.
///
/// Calls `HashMap::remove` of std on a map hashed by `ahash`. The contract
/// claims what std documents: the key is gone, and no other key is affected.
#[verifier::external_body]
fn times_remove(times: &mut RepaintTimes, window: u64)
    ensures
        final(times)@ == old(times)@.remove(window),
{
    times.map.remove(&window);
}

/// The windows that have a time, each once, in no particular order.
///
/// Calls `HashMap::keys` of std on a map hashed by `ahash`. The contract
/// claims that every key comes out exactly once; it says nothing of the
/// order, which depends on the hasher.
#[verifier::external_body]
fn times_windows(times: &RepaintTimes) -> (windows: Vec<u64>)
    ensures
        windows@.no_duplicates(),
        forall|w: u64| windows@.contains(w) <==> times@.dom().contains(w),
{
    times.map.keys().copied().collect()
}

/// What handling an event came to.
#[derive(Clone, Copy, Debug, PartialEq, Eq, Structural)]
pub enum EventResult {
    /// Nothing to do until the next event.
    Wait,
    /// Repaint the window now.
    RepaintNow(u64),
    /// Repaint the window at the next opportunity.
    RepaintNext(u64),
    /// Repaint the window at the given time.
    RepaintAt(u64, u64),
    /// Save the application's state.
    Save,
    /// Leave the event loop.
    Exit,
}

/// How the event loop waits for the next event.
#[derive(Clone, Copy, Debug, PartialEq, Eq, Structural)]
pub enum ControlFlow {
    /// Do not wait.
    Poll,
    /// Wait for an event.
    Wait,
    /// Wait for an event, but no longer than until the given time.
    WaitUntil(u64),
}

/// How the application leaves.
#[derive(Clone, Copy, Debug, PartialEq, Eq, Structural)]
pub enum Leave {
    /// It stays.
    Stay,
    /// The event loop is asked to return to its caller.
    ExitLoop,
    /// The state is saved and the process ends.
    SaveAndQuit,
}

/// What the host is to do after an event.
#[derive(Debug, PartialEq, Eq)]
pub struct Actions {
    /// Save the application's state.
    pub save: bool,
    pub leave: Leave,
    /// The windows to ask for a redraw, in no particular order.
    pub redraw: Vec<u64>,
    /// How to wait for the next event; `None` leaves it as it is.
    pub control_flow: Option<ControlFlow>,
}

/// What became due.
#[derive(Debug, PartialEq, Eq)]
pub struct Due {
    /// The windows to ask for a redraw, in no particular order.
    pub redraw: Vec<u64>,
    /// How to wait for the next event; `None` leaves it as it is.
    pub control_flow: Option<ControlFlow>,
}

/// Whether the window is due at the time `now`.
pub open spec fn is_due(times: Map<u64, u64>, window: u64, now: u64) -> bool {
    times.dom().contains(window) && times[window] <= now
}

/// The table without the windows that are due.
pub open spec fn not_yet_due(times: Map<u64, u64>, now: u64) -> Map<u64, u64> {
    Map::new(|w: u64| times.dom().contains(w) && now < times[w], |w: u64| times[w])
}

/// Whether `time` is the earliest time in the table.
pub open spec fn is_earliest(times: Map<u64, u64>, time: u64) -> bool {
    (exists|w: u64| times.dom().contains(w) && times[w] == time) && forall|w: u64|
        times.dom().contains(w) ==> time <= #[trigger] times[w]
}

/// Whether no window has a time.
pub open spec fn no_times(times: Map<u64, u64>) -> bool {
    forall|w: u64| !times.dom().contains(w)
}

/// Whether any window is due at the time `now`.
pub open spec fn any_due(times: Map<u64, u64>, now: u64) -> bool {
    exists|w: u64| is_due(times, w, now)
}

/// How to wait once the due windows are taken out of `times`, which leaves
/// `rest`: until the earliest time that is left; else without waiting, if
/// anything was due; else as before.
pub open spec fn flow_after(times: Map<u64, u64>, rest: Map<u64, u64>, now: u64, flow: Option<ControlFlow>) -> bool {
    if no_times(rest) {
        if any_due(times, now) {
            flow == Some(ControlFlow::Poll)
        } else {
            flow.is_none()
        }
    } else {
        match flow {
            Some(ControlFlow::WaitUntil(t)) => is_earliest(rest, t),
            _ => false,
        }
    }
}

/// The table after an event: a window to repaint now or next is due at
/// once; a window to repaint at a time is due at that time, unless it was due
/// earlier already.
pub open spec fn after_event(times: Map<u64, u64>, now: u64, result: Option<EventResult>) -> Map<u64, u64> {
    match result {
        Some(EventResult::RepaintNow(w)) => times.insert(w, now),
        Some(EventResult::RepaintNext(w)) => times.insert(w, now),
        Some(EventResult::RepaintAt(w, t)) => times.insert(
            w,
            if times.dom().contains(w) && times[w] < t {
                times[w]
            } else {
                t
            },
        ),
        _ => times,
    }
}

/// What handling a request to repaint comes to. The request was made in the
/// pass `cumulative_pass_nr`; the viewport is now at `current_pass_nr`. A
/// request that the viewport has painted since is outdated and ignored: the
/// window waits. So does a viewport without a window.
pub open spec fn repaint_request_spec(
    current_pass_nr: u64,
    cumulative_pass_nr: u64,
    window: Option<u64>,
    when: u64,
) -> EventResult {
    if current_pass_nr == cumulative_pass_nr || current_pass_nr == cumulative_pass_nr + 1 {
        match window {
            Some(w) => EventResult::RepaintAt(w, when),
            None => EventResult::Wait,
        }
    } else {
        EventResult::Wait
    }
}

/// What handling a request to repaint comes to.
pub fn repaint_request(current_pass_nr: u64, cumulative_pass_nr: u64, window: Option<u64>, when: u64) -> (r:
    EventResult)
    ensures
        r == repaint_request_spec(current_pass_nr, cumulative_pass_nr, window, when),
{
    let next = cumulative_pass_nr.checked_add(1);
    let fresh = current_pass_nr == cumulative_pass_nr || match next {
        Some(n) => current_pass_nr == n,
        None => false,
    };
    if fresh {
        match window {
            Some(w) => EventResult::RepaintAt(w, when),
            None => EventResult::Wait,
        }
    } else {
        EventResult::Wait
    }
}

/// The schedule of repaints of all windows.
pub struct RepaintSchedule {
    /// When each window wants to be repainted next.
    pub windows_next_repaint_times: RepaintTimes,
    /// Whether the event loop returns to its caller when the application
    /// leaves, instead of ending the process.
    pub run_and_return: bool,
}

impl RepaintSchedule {
    /// A schedule without windows.
    pub fn new(run_and_return: bool) -> (s: RepaintSchedule)
        ensures
            s.windows_next_repaint_times@ == Map::<u64, u64>::empty(),
            s.run_and_return == run_and_return,
    {
        RepaintSchedule { windows_next_repaint_times: times_new(), run_and_return }
    }

    /// Notes that a window is to be repainted at `time`, whatever was noted
    /// for it before, and decides nothing yet.
    pub fn set_repaint_time(&mut self, window: u64, time: u64)
        ensures
            final(self).run_and_return == old(self).run_and_return,
            final(self).windows_next_repaint_times@ == old(self).windows_next_repaint_times@.insert(
                window,
                time,
            ),
    {
        times_insert(&mut self.windows_next_repaint_times, window, time);
    }

    /// Takes the windows that are due at `now` out of the schedule, to be
    /// asked for a redraw, and says how to wait for the rest.
    pub fn check_redraw_requests(&mut self, now: u64) -> (due: Due)
        ensures
            final(self).run_and_return == old(self).run_and_return,
            final(self).windows_next_repaint_times@ == not_yet_due(
                old(self).windows_next_repaint_times@,
                now,
            ),
            due.redraw@.no_duplicates(),
            forall|w: u64|
                due.redraw@.contains(w) <==> is_due(old(self).windows_next_repaint_times@, w, now),
            flow_after(
                old(self).windows_next_repaint_times@,
                final(self).windows_next_repaint_times@,
                now,
                due.control_flow,
            ),
    {
        let ghost before = self.windows_next_repaint_times@;
        let windows = times_windows(&self.windows_next_repaint_times);
        let mut redraw: Vec<u64> = Vec::new();
        let mut earliest: Option<u64> = None;
        let ghost mut earliest_window: u64 = 0;
        let mut i: usize = 0;
        proof {
            assert forall|j: int| 0 <= j < windows@.len() implies before.dom().contains(
                #[trigger] windows@[j],
            ) by {
                assert(windows@.contains(windows@[j]));
            }
        }
        while i < windows.len()
            invariant
                i <= windows.len(),
                self.run_and_return == old(self).run_and_return,
                windows@.no_duplicates(),
                forall|w: u64| windows@.contains(w) <==> before.dom().contains(w),
                // Of the windows looked at, those that are due are gone and
                // noted, and the others are kept.
                forall|j: int|
                    0 <= j < i ==> if before[#[trigger] windows@[j]] <= now {
                        !self.windows_next_repaint_times@.dom().contains(windows@[j])
                            && redraw@.contains(windows@[j])
                    } else {
                        self.windows_next_repaint_times@.dom().contains(windows@[j])
                    },
                // The windows not looked at yet are untouched.
                forall|j: int|
                    i <= j < windows@.len() ==> self.windows_next_repaint_times@.dom().contains(
                        #[trigger] windows@[j],
                    ) && !redraw@.contains(windows@[j]),
                forall|w: u64| #[trigger]
                    self.windows_next_repaint_times@.dom().contains(w) ==> before.dom().contains(w)
                        && self.windows_next_repaint_times@[w] == before[w],
                forall|k: int|
                    0 <= k < redraw@.len() ==> is_due(before, #[trigger] redraw@[k], now),
                redraw@.no_duplicates(),
                // The earliest time among the windows looked at and kept.
                match earliest {
                    Some(t) => before.dom().contains(earliest_window) && before[earliest_window] == t
                        && now < t && forall|j: int|
                        0 <= j < i && now < before[#[trigger] windows@[j]] ==> t <= before[windows@[j]],
                    None => forall|j: int| 0 <= j < i ==> before[#[trigger] windows@[j]] <= now,
                },
            decreases windows.len() - i,
        {
            let window: u64 = windows[i];
            proof {
                assert(windows@.contains(windows@[i as int]));
            }
            match times_get(&self.windows_next_repaint_times, window) {
                Some(repaint_time) => {
                    if now < repaint_time {
                        // Not yet.
                        match earliest {
                            Some(t) => {
                                if repaint_time < t {
                                    earliest = Some(repaint_time);
                                    proof {
                                        earliest_window = window;
                                    }
                                }
                            },
                            None => {
                                earliest = Some(repaint_time);
                                proof {
                                    earliest_window = window;
                                }
                            },
                        }
                    } else {
                        let ghost noted = redraw@;
                        times_remove(&mut self.windows_next_repaint_times, window);
                        redraw.push(window);
                        proof {
                            assert(redraw@ == noted.push(window));
                            assert forall|w: u64| noted.contains(w) implies redraw@.contains(w) by {
                                let k = choose|k: int| 0 <= k < noted.len() && noted[k] == w;
                                assert(redraw@[k] == w);
                            }
                            assert(redraw@[noted.len() as int] == window);
                            assert forall|j: int| i < j < windows@.len() implies !redraw@.contains(
                                #[trigger] windows@[j],
                            ) by {
                                if redraw@.contains(windows@[j]) {
                                    let k = choose|k: int|
                                        0 <= k < redraw@.len() && redraw@[k] == windows@[j];
                                    if k < noted.len() {
                                        assert(noted.contains(windows@[j]));
                                    }
                                }
                            }
                        }
                    }
                },
                None => {},
            }
            i += 1;
        }
        let control_flow = match earliest {
            Some(t) => Some(ControlFlow::WaitUntil(t)),
            None => if redraw.len() > 0 {
                Some(ControlFlow::Poll)
            } else {
                None
            },
        };
        proof {
            let rest = self.windows_next_repaint_times@;
            assert forall|w: u64| #[trigger]
                before.dom().contains(w) implies (rest.dom().contains(w) <==> now < before[w]) && (
            redraw@.contains(w) <==> before[w] <= now) by {
                assert(windows@.contains(w));
                let j = choose|j: int| 0 <= j < windows@.len() && windows@[j] == w;
                if redraw@.contains(w) {
                    let k = choose|k: int| 0 <= k < redraw@.len() && redraw@[k] == w;
                }
            }
            assert forall|w: u64| redraw@.contains(w) implies before.dom().contains(w) by {
                let k = choose|k: int| 0 <= k < redraw@.len() && redraw@[k] == w;
            }
            assert(rest =~= not_yet_due(before, now));
            match earliest {
                Some(t) => {
                    assert(rest.dom().contains(earliest_window));
                    assert forall|w: u64| rest.dom().contains(w) implies t <= #[trigger] rest[w] by {
                        assert(windows@.contains(w));
                        let j = choose|j: int| 0 <= j < windows@.len() && windows@[j] == w;
                    }
                    assert(is_earliest(rest, t));
                },
                None => {
                    assert forall|w: u64| !rest.dom().contains(w) by {
                        if rest.dom().contains(w) {
                            assert(windows@.contains(w));
                            let j = choose|j: int| 0 <= j < windows@.len() && windows@[j] == w;
                        }
                    }
                    if redraw.len() > 0 {
                        assert(is_due(before, redraw@[0], now));
                    } else {
                        assert forall|w: u64| !is_due(before, w, now) by {
                            if is_due(before, w, now) {
                                assert(redraw@.contains(w));
                            }
                        }
                    }
                },
            }
        }
        Due { redraw, control_flow }
    }

    /// What `handle_event_result` leaves behind and returns, as far as the
    /// order of the windows to redraw does not matter.
    pub open spec fn handled(
        before: Map<u64, u64>,
        run_and_return: bool,
        now: u64,
        result: Option<EventResult>,
        after: Map<u64, u64>,
        actions: Actions,
    ) -> bool {
        let scheduled = after_event(before, now, result);
        let exit = result.is_none() || result == Some(EventResult::Exit);
        &&& actions.save == (result == Some(EventResult::Save))
        &&& if exit && !run_and_return {
            // The process ends: nothing is asked of the windows any more.
            &&& actions.leave == Leave::SaveAndQuit
            &&& actions.redraw@.len() == 0
            &&& actions.control_flow.is_none()
            &&& after == scheduled
        } else {
            &&& actions.leave == if exit {
                Leave::ExitLoop
            } else {
                Leave::Stay
            }
            &&& after == not_yet_due(scheduled, now)
            &&& actions.redraw@.no_duplicates()
            &&& forall|w: u64| actions.redraw@.contains(w) <==> is_due(scheduled, w, now)
            &&& if no_times(after) && !any_due(scheduled, now) {
                actions.control_flow == if result == Some(EventResult::Wait) {
                    Some(ControlFlow::Wait)
                } else {
                    None
                }
            } else {
                flow_after(scheduled, after, now, actions.control_flow)
            }
        }
    }

    /// Takes in what handling an event came to, `None` standing for a
    /// failure, and decides what the host is to do: whether to save, whether
    /// and how to leave, which windows to redraw and how to wait. A failure
    /// makes the application leave.
    pub fn handle_event_result(&mut self, now: u64, event_result: Option<EventResult>) -> (actions: Actions)
        ensures
            final(self).run_and_return == old(self).run_and_return,
            RepaintSchedule::handled(
                old(self).windows_next_repaint_times@,
                old(self).run_and_return,
                now,
                event_result,
                final(self).windows_next_repaint_times@,
                actions,
            ),
    {
        let mut exit = false;
        let mut save = false;
        let mut wait = false;
        match event_result {
            Some(EventResult::Wait) => {
                wait = true;
            },
            Some(EventResult::RepaintNow(window)) => {
                times_insert(&mut self.windows_next_repaint_times, window, now);
            },
            Some(EventResult::RepaintNext(window)) => {
                times_insert(&mut self.windows_next_repaint_times, window, now);
            },
            Some(EventResult::RepaintAt(window, repaint_time)) => {
                let time: u64 = match times_get(&self.windows_next_repaint_times, window) {
                    Some(last) => if last < repaint_time {
                        last
                    } else {
                        repaint_time
                    },
                    None => repaint_time,
                };
                times_insert(&mut self.windows_next_repaint_times, window, time);
            },
            Some(EventResult::Save) => {
                save = true;
            },
            Some(EventResult::Exit) => {
                exit = true;
            },
            None => {
                exit = true;
            },
        }
        if exit && !self.run_and_return {
            return Actions { save, leave: Leave::SaveAndQuit, redraw: Vec::new(), control_flow: None };
        }
        let due = self.check_redraw_requests(now);
        let control_flow = match due.control_flow {
            Some(flow) => Some(flow),
            None => if wait {
                Some(ControlFlow::Wait)
            } else {
                None
            },
        };
        Actions {
            save,
            leave: if exit {
                Leave::ExitLoop
            } else {
                Leave::Stay
            },
            redraw: due.redraw,
            control_flow,
        }
    }
}

} // verus!
