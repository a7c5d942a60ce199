use pid_sender::dispatcher::{Dispatcher, Settled, Ticket};
use pid_sender::forward::DispatchOutcome;
use pid_sender::identifier::WorkItem;

fn batch(n: u32) -> Vec<WorkItem> {
    (0..n).map(|id| WorkItem::new(100 + id)).collect()
}

fn outcome_number(n: usize) -> DispatchOutcome {
    match n % 4 {
        0 => DispatchOutcome::Delivered { payload: "{}".to_string() },
        1 => DispatchOutcome::RejectedByServer { status: 500, body: "busy".to_string() },
        2 => DispatchOutcome::TransportFailed { detail: "reset".to_string() },
        _ => DispatchOutcome::ResponseUnparseable { detail: "eof".to_string() },
    }
}

fn fill(dispatcher: &mut Dispatcher, in_flight: &mut Vec<Ticket>) {
    while let Some(ticket) = dispatcher.start_next() {
        in_flight.push(ticket);
    }
}

// Drives a dispatcher to the end. `pick` chooses which unresolved operation
// ends next; `outcome` gives the outcome of the item at an index. Returns the
// order of admission and the largest number of unresolved operations seen.
fn drive(
    items: Vec<WorkItem>,
    limit: usize,
    pick: fn(usize, usize) -> usize,
    outcome: fn(usize) -> DispatchOutcome,
) -> (Vec<WorkItem>, usize, Vec<Settled>) {
    let total = items.len();
    let mut dispatcher = Dispatcher::new(items, limit, 100).unwrap();
    let mut in_flight: Vec<Ticket> = Vec::new();
    let mut order: Vec<WorkItem> = Vec::new();
    let mut settled: Vec<Settled> = Vec::new();
    let mut peak = 0;
    let mut round = 0;
    loop {
        let before = in_flight.len();
        fill(&mut dispatcher, &mut in_flight);
        for ticket in &in_flight[before..] {
            order.push(ticket.item);
        }
        assert!(dispatcher.unresolved() <= limit);
        assert!(dispatcher.occupied() <= limit);
        assert_eq!(dispatcher.unresolved(), in_flight.len());
        peak = peak.max(dispatcher.unresolved());
        if in_flight.is_empty() {
            break;
        }
        let ticket = in_flight.remove(pick(round, in_flight.len()));
        let ended = dispatcher.settle(ticket.index, outcome(ticket.index)).unwrap();
        assert_eq!(ended.item, ticket.item);
        settled.push(ended);
        assert!(!dispatcher.is_drained());
        assert!(dispatcher.release(ticket.index));
        round += 1;
    }
    assert!(dispatcher.is_drained());
    assert_eq!(dispatcher.admitted(), total);
    assert_eq!(settled.len(), total);
    (order, peak, settled)
}

fn oldest_first(_round: usize, _waiting: usize) -> usize {
    0
}

fn newest_first(_round: usize, waiting: usize) -> usize {
    waiting - 1
}

fn scattered(round: usize, waiting: usize) -> usize {
    (round * 7 + 3) % waiting
}

#[test]
fn ceiling_holds_for_every_batch_and_limit() {
    for total in 0..12u32 {
        for limit in 1..6usize {
            for pick in [oldest_first, newest_first, scattered] {
                let (order, peak, _) = drive(batch(total), limit, pick, outcome_number);
                assert_eq!(order, batch(total));
                assert_eq!(peak, limit.min(total as usize));
            }
        }
    }
}

#[test]
fn empty_batch_is_drained_at_once() {
    let mut dispatcher = Dispatcher::new(Vec::new(), 10, 100).unwrap();
    assert!(dispatcher.is_drained());
    assert_eq!(dispatcher.start_next(), None);
    assert!(dispatcher.is_drained());
    assert_eq!(dispatcher.len(), 0);
}

#[test]
fn limit_of_zero_gives_no_dispatcher() {
    assert!(Dispatcher::new(batch(3), 0, 100).is_none());
    assert!(Dispatcher::new(Vec::new(), 0, 0).is_none());
}

#[test]
fn batch_drains_when_every_item_fails() {
    let (order, _, settled) = drive(batch(9), 3, scattered, |index| outcome_number(index % 3 + 1));
    assert_eq!(order, batch(9));
    assert!(settled.iter().all(|ended| !matches!(ended.outcome, DispatchOutcome::Delivered { .. })));
}

#[test]
fn batch_drains_with_a_mix_of_all_outcomes() {
    let (_, _, settled) = drive(batch(8), 2, newest_first, outcome_number);
    for kind in 0..4 {
        assert!(settled.iter().any(|ended| ended.outcome == outcome_number(kind)));
    }
}

#[test]
fn admission_follows_the_batch_and_stops_at_the_limit() {
    let mut dispatcher = Dispatcher::new(batch(5), 2, 100).unwrap();
    assert_eq!(dispatcher.limit(), 2);
    assert_eq!(dispatcher.len(), 5);
    assert_eq!(dispatcher.start_next(), Some(Ticket { index: 0, item: WorkItem::new(100) }));
    assert_eq!(dispatcher.start_next(), Some(Ticket { index: 1, item: WorkItem::new(101) }));
    assert_eq!(dispatcher.start_next(), None);
    assert_eq!(dispatcher.unresolved(), 2);
    assert_eq!(dispatcher.admitted(), 2);
}

#[test]
fn slot_is_held_through_the_pacing_delay() {
    let mut dispatcher = Dispatcher::new(batch(3), 1, 250).unwrap();
    let first = dispatcher.start_next().unwrap();
    let ended = dispatcher.settle(first.index, outcome_number(2)).unwrap();
    assert_eq!(ended.pause_millis, 250);
    assert_eq!(dispatcher.pacing_millis(), 250);
    assert_eq!(dispatcher.unresolved(), 0);
    assert_eq!(dispatcher.occupied(), 1);
    assert_eq!(dispatcher.start_next(), None);
    assert!(dispatcher.release(first.index));
    assert_eq!(dispatcher.occupied(), 0);
    assert_eq!(dispatcher.start_next(), Some(Ticket { index: 1, item: WorkItem::new(101) }));
}

#[test]
fn completion_order_is_free() {
    let mut dispatcher = Dispatcher::new(batch(3), 3, 100).unwrap();
    let mut in_flight = Vec::new();
    fill(&mut dispatcher, &mut in_flight);
    assert_eq!(in_flight.len(), 3);
    for index in [2, 0, 1] {
        let ended = dispatcher.settle(index, outcome_number(index)).unwrap();
        assert_eq!(ended.item, WorkItem::new(100 + index as u32));
        assert_eq!(ended.outcome, outcome_number(index));
    }
    for index in [1, 2, 0] {
        assert!(!dispatcher.is_drained());
        assert!(dispatcher.release(index));
    }
    assert!(dispatcher.is_drained());
}

#[test]
fn events_out_of_turn_change_nothing() {
    let mut dispatcher = Dispatcher::new(batch(2), 1, 100).unwrap();
    assert!(dispatcher.settle(0, outcome_number(0)).is_none());
    assert!(!dispatcher.release(0));
    assert!(dispatcher.settle(7, outcome_number(0)).is_none());
    assert!(!dispatcher.release(usize::MAX));
    let ticket = dispatcher.start_next().unwrap();
    assert!(!dispatcher.release(ticket.index));
    assert!(dispatcher.settle(ticket.index, outcome_number(1)).is_some());
    assert!(dispatcher.settle(ticket.index, outcome_number(1)).is_none());
    assert!(dispatcher.release(ticket.index));
    assert!(!dispatcher.release(ticket.index));
    assert_eq!(dispatcher.admitted(), 1);
    assert_eq!(dispatcher.unresolved(), 0);
    assert!(!dispatcher.is_drained());
}
