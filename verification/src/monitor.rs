//! The polling loop as a state machine. The monitor decides; its caller does
//! the waiting, the asking and the notifying, and reports back what came of
//! each.

use vstd::prelude::*;
use vstd::string::*;
use crate::cycle::{judge, lemma_scan_halts_at_first, scan, scan_records, Halt, HaltView};
use crate::endpoint::{build_url, url_spec};
use crate::error::TrackerError;
use crate::journal::{line_of, Level, LogLine, LogLineView};
use crate::progress::{Progress, ProgressView};
use crate::region::Region;
use crate::severity::{notification_for, notify, Notification, NotificationView};
use crate::status::{Delivery, Status};

verus! {

/// Where the loop stands between its start and its end.
#[derive(Clone, Copy, Debug, PartialEq, Eq, Structural)]
pub enum Phase {
    /// Polling, tick after tick.
    Running,
    /// Asked to stop; the loop is being left.
    Stopping,
    /// Left for good.
    Stopped,
}

/// The signals that ask the loop to stop.
#[derive(Clone, Copy, Debug, PartialEq, Eq, Structural)]
pub enum Signal {
    Interrupt,
    Terminate,
}

/// What the caller tells the monitor.
#[derive(Clone, Debug, PartialEq, Eq)]
pub enum Event {
    /// The interval timer fired.
    Tick,
    /// A signal asked the loop to stop.
    Cancelled(Signal),
    /// The endpoint answered with these records.
    Response(Vec<Progress>),
    /// The request failed, or its answer could not be decoded; the text says
    /// how.
    RequestFailed(String),
    /// The sink accepted the notification.
    Delivered,
    /// The sink did not accept the notification; the text says why.
    DeliveryFailed(String),
    /// The caller has left the loop and released the sink.
    Closed,
}

/// An event as plain values.
pub enum EventView {
    Tick,
    Cancelled(Signal),
    Response(Seq<ProgressView>),
    RequestFailed(Seq<char>),
    Delivered,
    DeliveryFailed(Seq<char>),
    Closed,
}

impl View for Event {
    type V = EventView;

    open spec fn view(&self) -> EventView {
        match self {
            Event::Tick => EventView::Tick,
            Event::Cancelled(signal) => EventView::Cancelled(*signal),
            Event::Response(records) => EventView::Response(records.deep_view()),
            Event::RequestFailed(reason) => EventView::RequestFailed(reason@),
            Event::Delivered => EventView::Delivered,
            Event::DeliveryFailed(reason) => EventView::DeliveryFailed(reason@),
            Event::Closed => EventView::Closed,
        }
    }
}

/// What the monitor asks of its caller.
#[derive(Clone, Debug, PartialEq, Eq)]
pub enum Action {
    /// Wait for the interval timer or a signal, and report `Tick` or
    /// `Cancelled`.
    Wait,
    /// Ask the endpoint at this address, and report `Response` or
    /// `RequestFailed`.
    Fetch(String),
    /// Hand this notification to the sink, and report `Delivered` or
    /// `DeliveryFailed`.
    Notify(Notification),
    /// Leave the loop, release the sink, and report `Closed`.
    Shutdown,
    /// Nothing is left to do.
    Exit,
}

/// A request as plain values.
pub enum ActionView {
    Wait,
    Fetch(Seq<char>),
    Notify(NotificationView),
    Shutdown,
    Exit,
}

impl View for Action {
    type V = ActionView;

    open spec fn view(&self) -> ActionView {
        match self {
            Action::Wait => ActionView::Wait,
            Action::Fetch(url) => ActionView::Fetch(url@),
            Action::Notify(notification) => ActionView::Notify(notification@),
            Action::Shutdown => ActionView::Shutdown,
            Action::Exit => ActionView::Exit,
        }
    }
}

/// What the monitor is in the middle of.
pub enum Stage {
    /// Between two polls: waiting for the timer.
    Idle,
    /// A request is out.
    Fetching,
    /// The record at `index` of `records` reports `value` for `region`, and
    /// the notification of that change is with the sink. The records before
    /// it are done, the ones behind it are still to be read.
    Delivering { records: Seq<ProgressView>, index: nat, region: Region, value: i32 },
    /// Asked to stop.
    Stopping,
    /// Stopped.
    Stopped,
}

/// The state of a monitor as plain values.
pub struct MonitorView {
    pub url: Seq<char>,
    pub status: Status,
    pub stage: Stage,
}

impl MonitorView {
    /// The state in which a monitor of the given address starts: nothing
    /// observed, waiting for the first tick.
    pub open spec fn initial(url: Seq<char>) -> MonitorView {
        MonitorView { url, status: Status::fresh(), stage: Stage::Idle }
    }

    /// Where the loop stands.
    pub open spec fn phase(self) -> Phase {
        match self.stage {
            Stage::Stopping => Phase::Stopping,
            Stage::Stopped => Phase::Stopped,
            _ => Phase::Running,
        }
    }

    /// A notification is out only for a record that reports a change with a
    /// severity against the store as it stands.
    pub open spec fn wf(self) -> bool {
        self.stage matches Stage::Delivering { records, index, region, value } ==> {
            &&& index < records.len()
            &&& judge(self.status, records[index as int]) == Ok::<
                Option<(Region, i32)>,
                TrackerError,
            >(Some((region, value)))
        }
    }

    /// What the monitor asks of its caller in this state.
    pub open spec fn request(self) -> ActionView {
        match self.stage {
            Stage::Idle => ActionView::Wait,
            Stage::Fetching => ActionView::Fetch(self.url),
            Stage::Delivering { records, index, region, value } => ActionView::Notify(
                notification_for(region.name_spec(), self.status.value_of(region), value),
            ),
            Stage::Stopping => ActionView::Shutdown,
            Stage::Stopped => ActionView::Exit,
        }
    }

    /// The state after the records were read against `status` up to `halt`:
    /// delivering if a notification is due, else idle until the next tick.
    pub open spec fn settled(self, status: Status, records: Seq<ProgressView>, halt: HaltView) -> MonitorView {
        match halt {
            HaltView::Due { index, region, value } => MonitorView {
                status,
                stage: Stage::Delivering { records, index, region, value },
                ..self
            },
            _ => MonitorView { status, stage: Stage::Idle, ..self },
        }
    }

    /// The state after an event.
    ///
    /// While running: a tick in the idle stage sends a request out; an
    /// answer to it is read record by record up to the first change, whose
    /// notification goes out; a delivered notification stores the change and
    /// the reading goes on behind it; a failed request or delivery ends the
    /// cycle with the store as it is; a signal stops the loop, whatever is
    /// under way. Once asked to stop, only `Closed` has an effect. An event
    /// that does not answer what the monitor asked for changes nothing.
    pub open spec fn next(self, event: EventView) -> MonitorView {
        match (self.stage, event) {
            (Stage::Idle, EventView::Tick) => MonitorView { stage: Stage::Fetching, ..self },
            (Stage::Fetching, EventView::Response(records)) => self.settled(
                self.status,
                records,
                scan(self.status, records, 0).halt,
            ),
            (Stage::Fetching, EventView::RequestFailed(_)) => MonitorView {
                stage: Stage::Idle,
                ..self
            },
            (Stage::Delivering { records, index, region, value }, EventView::Delivered) => {
                let status = self.status.after_update(region, value, Delivery::Delivered);
                self.settled(status, records, scan(status, records, index + 1).halt)
            },
            (Stage::Delivering { .. }, EventView::DeliveryFailed(_)) => MonitorView {
                stage: Stage::Idle,
                ..self
            },
            (Stage::Idle, EventView::Cancelled(_)) => MonitorView { stage: Stage::Stopping, ..self },
            (Stage::Fetching, EventView::Cancelled(_)) => MonitorView {
                stage: Stage::Stopping,
                ..self
            },
            (Stage::Delivering { .. }, EventView::Cancelled(_)) => MonitorView {
                stage: Stage::Stopping,
                ..self
            },
            (Stage::Stopping, EventView::Closed) => MonitorView { stage: Stage::Stopped, ..self },
            _ => self,
        }
    }

    /// The lines that an event gives to the log: the warnings and the error
    /// of the records it makes the monitor read, the reason of a failed
    /// request at error level, a failed delivery at error level, and a word
    /// at info level on the signal that stops the loop.
    pub open spec fn log(self, event: EventView) -> Seq<LogLineView> {
        match (self.stage, event) {
            (Stage::Fetching, EventView::Response(records)) => scan(self.status, records, 0).log,
            (Stage::Fetching, EventView::RequestFailed(reason)) => seq![
                line_of(Level::Error, reason, Seq::empty()),
            ],
            (Stage::Delivering { records, index, region, value }, EventView::Delivered) => scan(
                self.status.after_update(region, value, Delivery::Delivered),
                records,
                index + 1,
            ).log,
            (Stage::Delivering { .. }, EventView::DeliveryFailed(reason)) => seq![
                line_of(Level::Error, "Notification was not delivered: "@, reason),
            ],
            (Stage::Idle, EventView::Cancelled(signal)) => seq![signal_line(signal)],
            (Stage::Fetching, EventView::Cancelled(signal)) => seq![signal_line(signal)],
            (Stage::Delivering { .. }, EventView::Cancelled(signal)) => seq![signal_line(signal)],
            _ => Seq::empty(),
        }
    }

    /// The state after a run of events, one after the other.
    pub open spec fn after(self, events: Seq<EventView>) -> MonitorView
        decreases events.len(),
    {
        if events.len() == 0 {
            self
        } else {
            self.after(events.drop_last()).next(events.last())
        }
    }
}

/// The log line on a signal that stops the loop.
pub open spec fn signal_line(signal: Signal) -> LogLineView {
    match signal {
        Signal::Interrupt => line_of(Level::Info, "Interrupted."@, Seq::empty()),
        Signal::Terminate => line_of(Level::Info, "Terminated."@, Seq::empty()),
    }
}

/// The stage of a monitor, without the records.
#[derive(Clone, Copy, Debug, PartialEq, Eq)]
enum Mark {
    Idle,
    Fetching,
    Delivering(Region, i32),
    Stopping,
    Stopped,
}

/// The polling loop of one realm: the store, and what the loop is in the
/// middle of.
#[derive(Debug)]
pub struct Monitor {
    url: String,
    status: Status,
    mark: Mark,
    records: Vec<Progress>,
    cursor: usize,
}

impl View for Monitor {
    type V = MonitorView;

    closed spec fn view(&self) -> MonitorView {
        MonitorView {
            url: self.url@,
            status: self.status,
            stage: match self.mark {
                Mark::Idle => Stage::Idle,
                Mark::Fetching => Stage::Fetching,
                Mark::Delivering(region, value) => Stage::Delivering {
                    records: self.records.deep_view(),
                    index: self.cursor as nat,
                    region,
                    value,
                },
                Mark::Stopping => Stage::Stopping,
                Mark::Stopped => Stage::Stopped,
            },
        }
    }
}

/// A log without lines has an empty view.
proof fn lemma_empty_log(log: Vec<LogLine>)
    requires
        log@.len() == 0,
    ensures
        log.deep_view() == Seq::<LogLineView>::empty(),
{
    assert(log.deep_view() =~= Seq::<LogLineView>::empty());
}

/// A log of one line has that line's view as its view.
proof fn lemma_single_log(log: Vec<LogLine>, line: LogLine)
    requires
        log@ == seq![line],
    ensures
        log.deep_view() == seq![line@],
{
    assert(log.deep_view() =~= seq![line@]);
}

impl Monitor {
    #[verifier::type_invariant]
    spec fn inv(self) -> bool {
        self@.wf()
    }

    /// A monitor for the ladder or non-ladder, hardcore or softcore realm,
    /// with nothing observed yet, waiting for the first tick.
    pub fn new(ladder: bool, hardcore: bool) -> (monitor: Monitor)
        ensures
            monitor@ == MonitorView::initial(url_spec(ladder, hardcore)),
    {
        Monitor {
            url: build_url(ladder, hardcore),
            status: Status::default(),
            mark: Mark::Idle,
            records: Vec::new(),
            cursor: 0,
        }
    }

    /// The store as it stands.
    pub fn status(&self) -> (status: Status)
        ensures
            status == self@.status,
    {
        self.status
    }

    /// Where the loop stands.
    pub fn phase(&self) -> (phase: Phase)
        ensures
            phase == self@.phase(),
    {
        match self.mark {
            Mark::Stopping => Phase::Stopping,
            Mark::Stopped => Phase::Stopped,
            _ => Phase::Running,
        }
    }

    /// What the caller has to do now. The answer stays the same until the
    /// next event is handed to `step`.
    pub fn request(&self) -> (action: Action)
        ensures
            action@ == self@.request(),
            self@.wf(),
    {
        proof {
            use_type_invariant(self);
        }
        match self.mark {
            Mark::Idle => Action::Wait,
            Mark::Fetching => Action::Fetch(self.url.clone()),
            Mark::Delivering(region, value) => {
                match notify(region.name(), self.status.get(region), value) {
                    Ok(notification) => Action::Notify(notification),
                    Err(_) => {
                        assert(false);
                        Action::Wait
                    },
                }
            },
            Mark::Stopping => Action::Shutdown,
            Mark::Stopped => Action::Exit,
        }
    }

    /// Takes up the stage that the reading of the held records halted in.
    fn settle(&mut self, halt: Halt)
        requires
            old(self).mark is Idle,
            halt matches Halt::Due { index, region, value } ==> {
                &&& index < old(self).records.len()
                &&& judge(old(self).status, old(self).records.deep_view()[index as int]) == Ok::<
                    Option<(Region, i32)>,
                    TrackerError,
                >(Some((region, value)))
            },
        ensures
            final(self)@ == old(self)@.settled(
                old(self).status,
                old(self).records.deep_view(),
                halt@,
            ),
    {
        match halt {
            Halt::Due { index, region, value } => {
                self.cursor = index;
                self.mark = Mark::Delivering(region, value);
            },
            _ => {
                self.records = Vec::new();
                self.cursor = 0;
            },
        }
    }

    /// Takes an event in: moves to the next state, and returns the lines
    /// that the event gives to the log, in their order.
    pub fn step(&mut self, event: Event) -> (log: Vec<LogLine>)
        ensures
            final(self)@ == old(self)@.next(event@),
            log.deep_view() == old(self)@.log(event@),
            old(self)@.wf(),
            final(self)@.wf(),
    {
        proof {
            use_type_invariant(&*self);
        }
        let mut log: Vec<LogLine> = Vec::new();
        proof {
            lemma_empty_log(log);
        }
        match event {
            Event::Tick => {
                match self.mark {
                    Mark::Idle => {
                        self.mark = Mark::Fetching;
                    },
                    _ => {},
                }
            },
            Event::Cancelled(signal) => {
                match self.mark {
                    Mark::Idle | Mark::Fetching | Mark::Delivering(_, _) => {
                        self.mark = Mark::Stopping;
                        let line = match signal {
                            Signal::Interrupt => LogLine::new(Level::Info, "Interrupted.", ""),
                            Signal::Terminate => LogLine::new(Level::Info, "Terminated.", ""),
                        };
                        proof {
                            reveal_strlit("");
                            assert(""@ =~= Seq::<char>::empty());
                        }
                        log.push(line);
                        proof {
                            lemma_single_log(log, line);
                        }
                    },
                    _ => {},
                }
            },
            Event::Response(records) => {
                match self.mark {
                    Mark::Fetching => {
                        self.mark = Mark::Idle;
                        self.records = records;
                        let found = scan_records(&self.status, &self.records, 0);
                        proof {
                            lemma_scan_halts_at_first(self.status, self.records.deep_view(), 0);
                        }
                        self.settle(found.halt);
                        log = found.log;
                    },
                    _ => {},
                }
            },
            Event::RequestFailed(reason) => {
                match self.mark {
                    Mark::Fetching => {
                        self.mark = Mark::Idle;
                        let line = LogLine::new(Level::Error, reason.as_str(), "");
                        proof {
                            reveal_strlit("");
                            assert(""@ =~= Seq::<char>::empty());
                        }
                        log.push(line);
                        proof {
                            lemma_single_log(log, line);
                        }
                    },
                    _ => {},
                }
            },
            Event::Delivered => {
                match self.mark {
                    Mark::Delivering(region, value) => {
                        assert(self.cursor < self.records.len());
                        let from: usize = self.cursor + 1;
                        self.mark = Mark::Idle;
                        let mut status = self.status;
                        let _ = status.update(region, value, Delivery::Delivered);
                        self.status = status;
                        let found = scan_records(&self.status, &self.records, from);
                        proof {
                            lemma_scan_halts_at_first(
                                self.status,
                                self.records.deep_view(),
                                from as nat,
                            );
                        }
                        self.settle(found.halt);
                        log = found.log;
                    },
                    _ => {},
                }
            },
            Event::DeliveryFailed(reason) => {
                match self.mark {
                    Mark::Delivering(region, value) => {
                        self.mark = Mark::Idle;
                        let mut status = self.status;
                        let _ = status.update(region, value, Delivery::Failed);
                        self.status = status;
                        self.records = Vec::new();
                        self.cursor = 0;
                        let line = LogLine::new(
                            Level::Error,
                            "Notification was not delivered: ",
                            reason.as_str(),
                        );
                        log.push(line);
                        proof {
                            lemma_single_log(log, line);
                        }
                    },
                    _ => {},
                }
            },
            Event::Closed => {
                match self.mark {
                    Mark::Stopping => {
                        self.mark = Mark::Stopped;
                    },
                    _ => {},
                }
            },
        }
        proof {
            use_type_invariant(&*self);
        }
        log
    }
}

/// A well-formed state stays well-formed, whatever the event.
pub proof fn lemma_next_keeps_wf(state: MonitorView, event: EventView)
    requires
        state.wf(),
    ensures
        state.next(event).wf(),
{
    match (state.stage, event) {
        (Stage::Fetching, EventView::Response(records)) => {
            lemma_scan_halts_at_first(state.status, records, 0);
        },
        (Stage::Delivering { records, index, region, value }, EventView::Delivered) => {
            let status = state.status.after_update(region, value, Delivery::Delivered);
            lemma_scan_halts_at_first(status, records, index + 1);
        },
        _ => {},
    }
}

/// A signal stops a running loop at once, whatever it is in the middle of:
/// the next thing asked for is the shutdown, never another request or
/// notification, and the store stays as it is.
pub proof fn lemma_cancellation_stops(state: MonitorView, signal: Signal)
    requires
        state.phase() == Phase::Running,
    ensures
        state.next(EventView::Cancelled(signal)).phase() == Phase::Stopping,
        state.next(EventView::Cancelled(signal)).request() == ActionView::Shutdown,
        state.next(EventView::Cancelled(signal)).status == state.status,
{
}

/// Once the loop was asked to stop, no run of events brings it back: it
/// never asks for another poll or notification, and the store stays as it
/// is.
pub proof fn lemma_no_poll_after_stop(state: MonitorView, events: Seq<EventView>)
    requires
        state.phase() != Phase::Running,
    ensures
        state.after(events).phase() != Phase::Running,
        state.after(events).request() == ActionView::Shutdown || state.after(events).request()
            == ActionView::Exit,
        state.after(events).status == state.status,
        state.after(events).url == state.url,
    decreases events.len(),
{
    if events.len() > 0 {
        lemma_no_poll_after_stop(state, events.drop_last());
    }
}

/// A failed request and a failed delivery end the cycle and nothing else:
/// the loop keeps running, waits for the next tick, and the store is as it
/// was.
pub proof fn lemma_failure_ends_the_cycle_only(state: MonitorView, reason: Seq<char>)
    requires
        state.phase() == Phase::Running,
    ensures
        state.next(EventView::RequestFailed(reason)).phase() == Phase::Running,
        state.next(EventView::RequestFailed(reason)).status == state.status,
        state.stage is Fetching ==> state.next(EventView::RequestFailed(reason)).request()
            == ActionView::Wait,
        state.next(EventView::DeliveryFailed(reason)).phase() == Phase::Running,
        state.next(EventView::DeliveryFailed(reason)).status == state.status,
        state.stage is Delivering ==> state.next(EventView::DeliveryFailed(reason)).request()
            == ActionView::Wait,
{
}

/// The store changes on a delivered notification only, and then by the one
/// value that the notification announced.
pub proof fn lemma_store_follows_deliveries(state: MonitorView, event: EventView)
    requires
        state.wf(),
    ensures
        match (state.stage, event) {
            (Stage::Delivering { region, value, .. }, EventView::Delivered) => {
                &&& state.status.value_of(region) != value
                &&& state.request() == ActionView::Notify(
                    notification_for(region.name_spec(), state.status.value_of(region), value),
                )
                &&& state.next(event).status == state.status.with_value(region, value)
            },
            _ => state.next(event).status == state.status,
        },
{
}

} // verus!
