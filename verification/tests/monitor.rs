use dclone_tracker::journal::{Level, LogLine};
use dclone_tracker::monitor::{Action, Event, Monitor, Phase, Signal};
use dclone_tracker::progress::Progress;
use dclone_tracker::severity::{Notification, Urgency};
use dclone_tracker::status::Status;

fn line(level: Level, text: &str) -> LogLine {
    LogLine { level, text: text.to_string() }
}

fn answer(monitor: &mut Monitor, records: Vec<Progress>) -> Vec<LogLine> {
    assert_eq!(monitor.step(Event::Tick), vec![]);
    assert!(matches!(monitor.request(), Action::Fetch(_)));
    monitor.step(Event::Response(records))
}

fn at(americas: i32) -> Monitor {
    let mut monitor = Monitor::new(false, false);
    let _ = answer(&mut monitor, vec![Progress::new("1", &americas.to_string())]);
    assert!(matches!(monitor.request(), Action::Notify(_)));
    let _ = monitor.step(Event::Delivered);
    assert_eq!(monitor.status(), Status { americas, europe: 0, asia: 0 });
    assert_eq!(monitor.request(), Action::Wait);
    monitor
}

#[test]
fn a_new_monitor_waits() {
    let monitor = Monitor::new(true, false);
    assert_eq!(monitor.phase(), Phase::Running);
    assert_eq!(monitor.status(), Status { americas: 0, europe: 0, asia: 0 });
    assert_eq!(monitor.request(), Action::Wait);
}

#[test]
fn a_tick_asks_the_endpoint() {
    let mut monitor = Monitor::new(true, false);
    assert_eq!(monitor.step(Event::Tick), vec![]);
    assert_eq!(
        monitor.request(),
        Action::Fetch("https://diablo2.io/dclone_api.php?ladder=1&hc=2".to_string())
    );
    assert_eq!(monitor.phase(), Phase::Running);
}

#[test]
fn scenario_first_reading_notifies_once() {
    let mut monitor = Monitor::new(false, false);
    assert_eq!(monitor.status(), Status { americas: 0, europe: 0, asia: 0 });
    assert_eq!(answer(&mut monitor, vec![Progress::new("1", "3")]), vec![]);
    assert_eq!(
        monitor.request(),
        Action::Notify(Notification {
            region_name: "Americas".to_string(),
            old_value: 0,
            new_value: 3,
            title: "Americas: DClone is nearing...".to_string(),
            urgency: Urgency::Normal,
            body: "New status: 3".to_string(),
        })
    );
    assert_eq!(monitor.status(), Status { americas: 0, europe: 0, asia: 0 });
    assert_eq!(monitor.step(Event::Delivered), vec![]);
    assert_eq!(monitor.status(), Status { americas: 3, europe: 0, asia: 0 });
    assert_eq!(monitor.request(), Action::Wait);
}

#[test]
fn scenario_same_reading_is_silent() {
    let mut monitor = at(3);
    assert_eq!(answer(&mut monitor, vec![Progress::new("1", "3")]), vec![]);
    assert_eq!(monitor.request(), Action::Wait);
    assert_eq!(monitor.status(), Status { americas: 3, europe: 0, asia: 0 });
}

#[test]
fn scenario_walking_is_critical() {
    let mut monitor = at(5);
    assert_eq!(answer(&mut monitor, vec![Progress::new("1", "6")]), vec![]);
    match monitor.request() {
        Action::Notify(notification) => {
            assert_eq!(notification.urgency, Urgency::Critical);
            assert_eq!(notification.body, "Status changed from 5 to 6");
            assert_eq!(notification.title, "Americas: DClone is walking!");
        }
        other => panic!("{:?}", other),
    }
    assert_eq!(monitor.step(Event::Delivered), vec![]);
    assert_eq!(monitor.status(), Status { americas: 6, europe: 0, asia: 0 });
}

#[test]
fn scenario_unknown_region_is_skipped_with_a_warning() {
    let mut monitor = Monitor::new(false, false);
    assert_eq!(
        answer(&mut monitor, vec![Progress::new("9", "3")]),
        vec![line(Level::Warn, "Unexpected region code: 9")]
    );
    assert_eq!(monitor.request(), Action::Wait);
    assert_eq!(monitor.status(), Status { americas: 0, europe: 0, asia: 0 });
    assert_eq!(monitor.phase(), Phase::Running);

    assert_eq!(
        answer(&mut monitor, vec![Progress::new("9", "3"), Progress::new("2", "4")]),
        vec![line(Level::Warn, "Unexpected region code: 9")]
    );
    match monitor.request() {
        Action::Notify(notification) => {
            assert_eq!(notification.title, "Europe: DClone is nearing...");
            assert_eq!(notification.body, "New status: 4");
        }
        other => panic!("{:?}", other),
    }
    assert_eq!(monitor.step(Event::Delivered), vec![]);
    assert_eq!(monitor.status(), Status { americas: 0, europe: 4, asia: 0 });
}

#[test]
fn cancellation_while_waiting_stops_without_another_tick() {
    for signal in [Signal::Interrupt, Signal::Terminate] {
        let mut monitor = at(2);
        assert_eq!(monitor.request(), Action::Wait);
        let word = match signal {
            Signal::Interrupt => "Interrupted.",
            Signal::Terminate => "Terminated.",
        };
        assert_eq!(monitor.step(Event::Cancelled(signal)), vec![line(Level::Info, word)]);
        assert_eq!(monitor.phase(), Phase::Stopping);
        assert_eq!(monitor.request(), Action::Shutdown);
        assert_eq!(monitor.step(Event::Tick), vec![]);
        assert_eq!(monitor.request(), Action::Shutdown);
        assert_eq!(monitor.step(Event::Response(vec![Progress::new("1", "5")])), vec![]);
        assert_eq!(monitor.request(), Action::Shutdown);
        assert_eq!(monitor.step(Event::Closed), vec![]);
        assert_eq!(monitor.phase(), Phase::Stopped);
        assert_eq!(monitor.request(), Action::Exit);
        assert_eq!(monitor.step(Event::Tick), vec![]);
        assert_eq!(monitor.step(Event::Cancelled(signal)), vec![]);
        assert_eq!(monitor.request(), Action::Exit);
        assert_eq!(monitor.phase(), Phase::Stopped);
        assert_eq!(monitor.status(), Status { americas: 2, europe: 0, asia: 0 });
    }
}

#[test]
fn cancellation_drops_what_is_under_way() {
    let mut monitor = Monitor::new(false, false);
    let _ = monitor.step(Event::Tick);
    assert_eq!(
        monitor.step(Event::Cancelled(Signal::Terminate)),
        vec![line(Level::Info, "Terminated.")]
    );
    assert_eq!(monitor.request(), Action::Shutdown);

    let mut monitor = Monitor::new(false, false);
    let _ = answer(&mut monitor, vec![Progress::new("3", "2")]);
    assert!(matches!(monitor.request(), Action::Notify(_)));
    let _ = monitor.step(Event::Cancelled(Signal::Interrupt));
    assert_eq!(monitor.request(), Action::Shutdown);
    assert_eq!(monitor.step(Event::Delivered), vec![]);
    assert_eq!(monitor.status(), Status { americas: 0, europe: 0, asia: 0 });
}

#[test]
fn a_failed_request_ends_the_cycle_only() {
    let mut monitor = at(4);
    let _ = monitor.step(Event::Tick);
    assert_eq!(
        monitor.step(Event::RequestFailed("connection refused".to_string())),
        vec![line(Level::Error, "connection refused")]
    );
    assert_eq!(monitor.phase(), Phase::Running);
    assert_eq!(monitor.request(), Action::Wait);
    assert_eq!(monitor.status(), Status { americas: 4, europe: 0, asia: 0 });
    let _ = monitor.step(Event::Tick);
    assert!(matches!(monitor.request(), Action::Fetch(_)));
}

#[test]
fn a_failed_delivery_keeps_the_store_and_ends_the_cycle() {
    let mut monitor = at(4);
    let _ = answer(&mut monitor, vec![Progress::new("1", "5"), Progress::new("2", "1")]);
    assert!(matches!(monitor.request(), Action::Notify(_)));
    assert_eq!(
        monitor.step(Event::DeliveryFailed("no bus".to_string())),
        vec![line(Level::Error, "Notification was not delivered: no bus")]
    );
    assert_eq!(monitor.status(), Status { americas: 4, europe: 0, asia: 0 });
    assert_eq!(monitor.request(), Action::Wait);
    assert_eq!(monitor.phase(), Phase::Running);

    let _ = answer(&mut monitor, vec![Progress::new("1", "5")]);
    match monitor.request() {
        Action::Notify(notification) => assert_eq!(notification.body, "Status changed from 4 to 5"),
        other => panic!("{:?}", other),
    }
}

#[test]
fn every_change_of_an_answer_is_notified_in_turn() {
    let mut monitor = Monitor::new(false, true);
    let log = answer(
        &mut monitor,
        vec![
            Progress::new("1", "2"),
            Progress::new("8", "1"),
            Progress::new("2", "5"),
            Progress::new("3", "0"),
            Progress::new("1", "3"),
        ],
    );
    assert_eq!(log, vec![]);
    let mut bodies = Vec::new();
    let mut titles = Vec::new();
    let mut logged = Vec::new();
    while let Action::Notify(notification) = monitor.request() {
        bodies.push(notification.body);
        titles.push(notification.title);
        logged.extend(monitor.step(Event::Delivered));
    }
    assert_eq!(bodies, vec!["New status: 2", "New status: 5", "Status changed from 2 to 3"]);
    assert_eq!(
        titles,
        vec![
            "Americas: DClone is nearing...",
            "Europe: DClone is about to walk!",
            "Americas: DClone is nearing...",
        ]
    );
    assert_eq!(logged, vec![line(Level::Warn, "Unexpected region code: 8")]);
    assert_eq!(monitor.status(), Status { americas: 3, europe: 5, asia: 0 });
    assert_eq!(monitor.request(), Action::Wait);
}

#[test]
fn a_bad_record_ends_the_cycle_behind_it() {
    let mut monitor = Monitor::new(false, false);
    let log = answer(
        &mut monitor,
        vec![Progress::new("1", "2"), Progress::new("2", "many"), Progress::new("3", "4")],
    );
    assert_eq!(log, vec![]);
    assert!(matches!(monitor.request(), Action::Notify(_)));
    assert_eq!(
        monitor.step(Event::Delivered),
        vec![line(Level::Error, "Progress is not a valid integer: many")]
    );
    assert_eq!(monitor.status(), Status { americas: 2, europe: 0, asia: 0 });
    assert_eq!(monitor.request(), Action::Wait);
    assert_eq!(monitor.phase(), Phase::Running);

    let log = answer(&mut monitor, vec![Progress::new("2", "7"), Progress::new("3", "4")]);
    assert_eq!(log, vec![line(Level::Error, "Unknown progress value: 7")]);
    assert_eq!(monitor.request(), Action::Wait);
    assert_eq!(monitor.status(), Status { americas: 2, europe: 0, asia: 0 });
}

#[test]
fn events_out_of_turn_change_nothing() {
    let mut monitor = at(1);
    for event in [
        Event::Response(vec![Progress::new("1", "6")]),
        Event::RequestFailed("late".to_string()),
        Event::Delivered,
        Event::DeliveryFailed("late".to_string()),
        Event::Closed,
    ] {
        assert_eq!(monitor.step(event), vec![]);
        assert_eq!(monitor.request(), Action::Wait);
        assert_eq!(monitor.phase(), Phase::Running);
        assert_eq!(monitor.status(), Status { americas: 1, europe: 0, asia: 0 });
    }
    let _ = monitor.step(Event::Tick);
    for event in [Event::Tick, Event::Delivered, Event::DeliveryFailed("x".to_string()), Event::Closed] {
        assert_eq!(monitor.step(event), vec![]);
        assert!(matches!(monitor.request(), Action::Fetch(_)));
    }
    let _ = monitor.step(Event::Response(vec![Progress::new("1", "6")]));
    for event in [Event::Tick, Event::Response(vec![]), Event::RequestFailed("x".to_string()), Event::Closed] {
        assert_eq!(monitor.step(event), vec![]);
        assert!(matches!(monitor.request(), Action::Notify(_)));
        assert_eq!(monitor.status(), Status { americas: 1, europe: 0, asia: 0 });
    }
}
