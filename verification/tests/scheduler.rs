use pid_sender::config::Config;
use pid_sender::discovery::{DiscoveryError, DiscoveryReply};
use pid_sender::dispatcher::Dispatcher;
use pid_sender::forward::{classify, DispatchOutcome, Reply};
use pid_sender::identifier::WorkItem;
use pid_sender::report::{outcome_report, refusal_warning};
use pid_sender::scheduler::{Directive, Phase, Scheduler};

fn scheduler_with_limit(limit: usize) -> Scheduler {
    let config = Config::new(
        "http://localhost:7878".to_string(),
        "debugger".to_string(),
        "http://analyzer.example.com/analyze".to_string(),
        limit,
        100,
        10_000,
    );
    Scheduler::new(config.unwrap())
}

fn listed(raw: &[&str]) -> DiscoveryReply {
    DiscoveryReply::Listed { status: 200, pids: raw.iter().map(|s| s.to_string()).collect() }
}

fn dispatch_of(directive: Directive) -> Dispatcher {
    match directive {
        Directive::Dispatch { dispatcher, .. } => dispatcher,
        other => panic!("expected a dispatch, got {:?}", other),
    }
}

fn drain_in_order(dispatcher: &mut Dispatcher) -> Vec<WorkItem> {
    let mut seen = Vec::new();
    while let Some(ticket) = dispatcher.start_next() {
        seen.push(ticket.item);
        let outcome = DispatchOutcome::Delivered { payload: "null".to_string() };
        assert!(dispatcher.settle(ticket.index, outcome).is_some());
        assert!(dispatcher.release(ticket.index));
    }
    seen
}

#[test]
fn scheduler_starts_by_discovering() {
    let scheduler = scheduler_with_limit(10);
    assert_eq!(scheduler.phase(), Phase::Discovering);
    assert!(scheduler.is_running());
    assert_eq!(scheduler.config().max_concurrent(), 10);
    match scheduler.discover() {
        Directive::Discover { url } => assert_eq!(url, "http://localhost:7878/proc?key=debugger"),
        other => panic!("expected a discovery, got {:?}", other),
    }
}

#[test]
fn discovery_failure_leads_to_the_next_discovery() {
    let mut scheduler = scheduler_with_limit(10);
    let failures = [
        DiscoveryReply::Unreachable { detail: "connection refused".to_string() },
        DiscoveryReply::Listed { status: 500, pids: vec!["1".to_string()] },
        DiscoveryReply::Unreadable { status: 200, detail: "not a listing".to_string() },
    ];
    for reply in failures {
        match scheduler.discovered(reply) {
            Directive::Idle { millis, failure } => {
                assert_eq!(millis, 10_000);
                assert!(failure.is_some());
            },
            other => panic!("expected the idle delay, got {:?}", other),
        }
        assert_eq!(scheduler.phase(), Phase::Idling);
        assert!(!scheduler.is_running());
        match scheduler.idle_elapsed() {
            Directive::Discover { url } => {
                assert_eq!(url, "http://localhost:7878/proc?key=debugger")
            },
            other => panic!("expected a discovery, got {:?}", other),
        }
        assert_eq!(scheduler.phase(), Phase::Discovering);
    }
}

#[test]
fn discovery_failure_is_handed_on_for_the_report() {
    let mut scheduler = scheduler_with_limit(1);
    let directive = scheduler.discovered(DiscoveryReply::Listed { status: 404, pids: Vec::new() });
    match directive {
        Directive::Idle { failure, .. } => {
            assert_eq!(failure, Some(DiscoveryError::Rejected { status: 404 }))
        },
        other => panic!("expected the idle delay, got {:?}", other),
    }
}

#[test]
fn listing_is_dispatched_under_the_configured_ceiling() {
    let mut scheduler = scheduler_with_limit(2);
    let directive = scheduler.discovered(listed(&["5", "6", "oops", "7"]));
    assert_eq!(scheduler.phase(), Phase::Dispatching);
    assert!(scheduler.is_running());
    match directive {
        Directive::Dispatch { mut dispatcher, rejected } => {
            assert_eq!(dispatcher.limit(), 2);
            assert_eq!(dispatcher.pacing_millis(), 100);
            assert_eq!(dispatcher.len(), 3);
            assert_eq!(rejected.len(), 1);
            assert_eq!(rejected[0].raw, "oops");
            assert_eq!(
                drain_in_order(&mut dispatcher),
                vec![WorkItem::new(5), WorkItem::new(6), WorkItem::new(7)]
            );
        },
        other => panic!("expected a dispatch, got {:?}", other),
    }
}

#[test]
fn cycle_ends_only_when_the_dispatcher_is_drained() {
    let mut scheduler = scheduler_with_limit(4);
    let mut dispatcher = dispatch_of(scheduler.discovered(listed(&["1", "2"])));
    assert!(matches!(scheduler.dispatched(&dispatcher), Directive::Stay));
    assert_eq!(scheduler.phase(), Phase::Dispatching);
    let first = dispatcher.start_next().unwrap();
    assert!(matches!(scheduler.dispatched(&dispatcher), Directive::Stay));
    drain_in_order(&mut dispatcher);
    assert!(matches!(scheduler.dispatched(&dispatcher), Directive::Stay));
    let outcome = DispatchOutcome::TransportFailed { detail: "reset".to_string() };
    assert!(dispatcher.settle(first.index, outcome).is_some());
    assert!(dispatcher.release(first.index));
    match scheduler.dispatched(&dispatcher) {
        Directive::Idle { millis, failure } => {
            assert_eq!(millis, 10_000);
            assert_eq!(failure, None);
        },
        other => panic!("expected the idle delay, got {:?}", other),
    }
    assert_eq!(scheduler.phase(), Phase::Idling);
}

#[test]
fn empty_listing_goes_idle_after_an_empty_dispatch() {
    let mut scheduler = scheduler_with_limit(10);
    let dispatcher = dispatch_of(scheduler.discovered(listed(&[])));
    assert!(dispatcher.is_drained());
    assert!(matches!(scheduler.dispatched(&dispatcher), Directive::Idle { .. }));
    assert!(matches!(scheduler.idle_elapsed(), Directive::Discover { .. }));
}

#[test]
fn events_that_do_not_end_the_phase_are_passed_over() {
    let mut scheduler = scheduler_with_limit(10);
    let stray = Dispatcher::new(Vec::new(), 1, 0).unwrap();
    assert!(matches!(scheduler.idle_elapsed(), Directive::Stay));
    assert!(matches!(scheduler.dispatched(&stray), Directive::Stay));
    assert_eq!(scheduler.phase(), Phase::Discovering);
    let dispatcher = dispatch_of(scheduler.discovered(listed(&["1"])));
    assert!(matches!(scheduler.discovered(listed(&["2"])), Directive::Stay));
    assert!(matches!(scheduler.idle_elapsed(), Directive::Stay));
    assert_eq!(scheduler.phase(), Phase::Dispatching);
    assert!(!dispatcher.is_drained());
    assert!(matches!(scheduler.dispatched(&stray), Directive::Idle { .. }));
    assert!(matches!(scheduler.discovered(listed(&["3"])), Directive::Stay));
    assert!(matches!(scheduler.dispatched(&stray), Directive::Stay));
    assert_eq!(scheduler.phase(), Phase::Idling);
}

#[test]
fn cycle_with_failures_still_goes_idle() {
    let mut scheduler = scheduler_with_limit(10);
    let directive = scheduler.discovered(listed(&["1", "2", "x", "3"]));
    let (mut dispatcher, rejected) = match directive {
        Directive::Dispatch { dispatcher, rejected } => (dispatcher, rejected),
        other => panic!("expected a dispatch, got {:?}", other),
    };
    let warnings: Vec<String> = rejected.iter().map(refusal_warning).collect();
    assert_eq!(warnings, vec!["Warning: invalid pid string 'x', skipping".to_string()]);

    let mut tickets = Vec::new();
    while let Some(ticket) = dispatcher.start_next() {
        tickets.push(ticket);
    }
    let attempted: Vec<u32> = tickets.iter().map(|ticket| ticket.item.id()).collect();
    assert_eq!(attempted, vec![1, 2, 3]);

    let mut reports = Vec::new();
    for ticket in tickets {
        let reply = if ticket.item.id() == 2 {
            Reply::Complete { status: 200, body: b"{\"status\":\"ok\"}".to_vec() }
        } else {
            Reply::Unreachable { detail: "connection refused".to_string() }
        };
        let ended = dispatcher.settle(ticket.index, classify(reply)).unwrap();
        reports.push(outcome_report(ended.item, &ended.outcome));
        assert!(dispatcher.release(ticket.index));
    }
    assert_eq!(
        reports,
        vec![
            "Error sending PID 1: connection refused".to_string(),
            "PID 2 analyzed successfully.\nResponse: {\"status\":\"ok\"}".to_string(),
            "Error sending PID 3: connection refused".to_string(),
        ]
    );
    assert!(dispatcher.is_drained());
    assert!(matches!(scheduler.dispatched(&dispatcher), Directive::Idle { millis: 10_000, failure: None }));
    assert_eq!(scheduler.phase(), Phase::Idling);
}
