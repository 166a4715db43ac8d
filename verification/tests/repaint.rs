use gui_core::repaint::{
    repaint_request, Actions, ControlFlow, Due, EventResult, Leave, RepaintSchedule,
};

fn sorted(mut windows: Vec<u64>) -> Vec<u64> {
    windows.sort();
    windows
}

#[test]
fn a_window_to_repaint_now_is_redrawn_at_once() {
    let mut schedule = RepaintSchedule::new(true);
    let actions = schedule.handle_event_result(10, Some(EventResult::RepaintNow(1)));
    assert_eq!(
        actions,
        Actions { save: false, leave: Leave::Stay, redraw: vec![1], control_flow: Some(ControlFlow::Poll) }
    );
    assert!(schedule.windows_next_repaint_times.map.is_empty());
    let actions = schedule.handle_event_result(11, Some(EventResult::RepaintNext(2)));
    assert_eq!(actions.redraw, vec![2]);
    assert_eq!(actions.control_flow, Some(ControlFlow::Poll));
}

#[test]
fn a_window_to_repaint_later_is_waited_for() {
    let mut schedule = RepaintSchedule::new(true);
    let actions = schedule.handle_event_result(10, Some(EventResult::RepaintAt(1, 50)));
    assert_eq!(
        actions,
        Actions { save: false, leave: Leave::Stay, redraw: vec![], control_flow: Some(ControlFlow::WaitUntil(50)) }
    );
    // A later time does not put off an earlier one; an earlier one moves it up.
    let actions = schedule.handle_event_result(11, Some(EventResult::RepaintAt(1, 80)));
    assert_eq!(actions.control_flow, Some(ControlFlow::WaitUntil(50)));
    let actions = schedule.handle_event_result(12, Some(EventResult::RepaintAt(1, 30)));
    assert_eq!(actions.control_flow, Some(ControlFlow::WaitUntil(30)));
    let actions = schedule.handle_event_result(13, Some(EventResult::RepaintAt(2, 20)));
    assert_eq!(actions.control_flow, Some(ControlFlow::WaitUntil(20)));
    assert_eq!(schedule.windows_next_repaint_times.map.get(&1), Some(&30));
    assert_eq!(schedule.windows_next_repaint_times.map.get(&2), Some(&20));

    let due = schedule.check_redraw_requests(19);
    assert_eq!(due, Due { redraw: vec![], control_flow: Some(ControlFlow::WaitUntil(20)) });
    let due = schedule.check_redraw_requests(20);
    assert_eq!(due, Due { redraw: vec![2], control_flow: Some(ControlFlow::WaitUntil(30)) });
    let due = schedule.check_redraw_requests(100);
    assert_eq!(due, Due { redraw: vec![1], control_flow: Some(ControlFlow::Poll) });
    let due = schedule.check_redraw_requests(101);
    assert_eq!(due, Due { redraw: vec![], control_flow: None });
}

#[test]
fn all_due_windows_are_redrawn_together() {
    let mut schedule = RepaintSchedule::new(true);
    for w in 0..20u64 {
        schedule.handle_event_result(0, Some(EventResult::RepaintAt(w, 100 + w)));
    }
    let due = schedule.check_redraw_requests(109);
    assert_eq!(sorted(due.redraw), (0..10u64).collect::<Vec<u64>>());
    assert_eq!(due.control_flow, Some(ControlFlow::WaitUntil(110)));
    assert_eq!(schedule.windows_next_repaint_times.map.len(), 10);
}

#[test]
fn waiting_is_overridden_by_what_is_scheduled() {
    let mut schedule = RepaintSchedule::new(true);
    let actions = schedule.handle_event_result(10, Some(EventResult::Wait));
    assert_eq!(
        actions,
        Actions { save: false, leave: Leave::Stay, redraw: vec![], control_flow: Some(ControlFlow::Wait) }
    );
    schedule.handle_event_result(10, Some(EventResult::RepaintAt(1, 50)));
    let actions = schedule.handle_event_result(11, Some(EventResult::Wait));
    assert_eq!(actions.control_flow, Some(ControlFlow::WaitUntil(50)));
    let actions = schedule.handle_event_result(60, Some(EventResult::Wait));
    assert_eq!(actions.redraw, vec![1]);
    assert_eq!(actions.control_flow, Some(ControlFlow::Poll));
}

#[test]
fn saving_and_leaving() {
    let mut returning = RepaintSchedule::new(true);
    assert!(returning.run_and_return);
    let actions = returning.handle_event_result(10, Some(EventResult::Save));
    assert_eq!(actions, Actions { save: true, leave: Leave::Stay, redraw: vec![], control_flow: None });
    returning.handle_event_result(10, Some(EventResult::RepaintAt(1, 5)));
    returning.handle_event_result(10, Some(EventResult::RepaintAt(2, 50)));
    let actions = returning.handle_event_result(10, Some(EventResult::Exit));
    assert_eq!(
        actions,
        Actions { save: false, leave: Leave::ExitLoop, redraw: vec![], control_flow: Some(ControlFlow::WaitUntil(50)) }
    );
    // A failure leaves as well.
    let actions = returning.handle_event_result(10, None);
    assert_eq!(actions.leave, Leave::ExitLoop);

    let mut ending = RepaintSchedule::new(false);
    ending.handle_event_result(10, Some(EventResult::RepaintAt(1, 50)));
    let actions = ending.handle_event_result(60, Some(EventResult::Exit));
    assert_eq!(actions, Actions { save: false, leave: Leave::SaveAndQuit, redraw: vec![], control_flow: None });
    assert_eq!(ending.handle_event_result(60, None).leave, Leave::SaveAndQuit);
    // The process ends, so the schedule was not looked at.
    assert_eq!(ending.windows_next_repaint_times.map.len(), 1);
}

#[test]
fn outdated_repaint_requests_are_ignored() {
    assert_eq!(repaint_request(7, 7, Some(3), 99), EventResult::RepaintAt(3, 99));
    assert_eq!(repaint_request(8, 7, Some(3), 99), EventResult::RepaintAt(3, 99));
    assert_eq!(repaint_request(9, 7, Some(3), 99), EventResult::Wait);
    assert_eq!(repaint_request(6, 7, Some(3), 99), EventResult::Wait);
    assert_eq!(repaint_request(7, 7, None, 99), EventResult::Wait);
    assert_eq!(repaint_request(u64::MAX, u64::MAX, Some(1), 2), EventResult::RepaintAt(1, 2));
    assert_eq!(repaint_request(0, u64::MAX, Some(1), 2), EventResult::Wait);
}

#[test]
fn a_repaint_time_can_be_set_without_deciding() {
    let mut schedule = RepaintSchedule::new(true);
    schedule.set_repaint_time(4, 70);
    schedule.set_repaint_time(4, 90);
    schedule.set_repaint_time(5, 10);
    assert_eq!(schedule.windows_next_repaint_times.map.get(&4), Some(&90));
    assert_eq!(schedule.windows_next_repaint_times.map.len(), 2);
    let due = schedule.check_redraw_requests(10);
    assert_eq!(due, Due { redraw: vec![5], control_flow: Some(ControlFlow::WaitUntil(90)) });
}
