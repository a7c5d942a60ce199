//! The bounded dispatcher: a batch of work items goes through a pool of at
//! most `limit` slots. An item is admitted to a free slot in the order of the
//! batch, is forwarded, holds its slot for a pacing delay once its outcome is
//! in, and then gives the slot back.
//!
//! The dispatcher decides; it performs nothing. Its driver starts a forward
//! operation for each ticket that `start_next` hands out, reports the end of each
//! one with `settle`, waits out the pacing delay and then calls `release`.

use crate::forward::{DispatchOutcome, Outcome};
use crate::identifier::{ids_of, WorkItem};
use vstd::prelude::*;

verus! {

/// Where an admitted item stands.
#[derive(Clone, Copy, Debug, PartialEq, Eq, Structural)]
pub enum Stage {
    /// Its forward operation is unresolved.
    Forwarding,
    /// Its outcome is in; its slot is held for the pacing delay.
    Pacing,
    /// Its slot is free again.
    Done,
}

/// What can happen to a dispatcher.
pub enum Event {
    /// The next queued item is given a slot.
    Admit,
    /// The forward operation of the item at `index` ended with `outcome`.
    Settled { index: int, outcome: Outcome },
    /// The pacing delay of the item at `index` is over.
    Paced { index: int },
}

/// How many entries of `stages` are at `stage`.
pub open spec fn count(stages: Seq<Stage>, stage: Stage) -> nat
    decreases stages.len(),
{
    if stages.len() == 0 {
        0
    } else {
        count(stages.drop_last(), stage) + if stages.last() == stage {
            1nat
        } else {
            0nat
        }
    }
}

/// The mathematical value of a dispatcher: the batch, the ceiling, the pacing
/// delay in milliseconds, and the stage of each admitted item. The items
/// admitted so far are the first `stages.len()` of the batch; the others are
/// queued.
pub struct DispatchState {
    pub items: Seq<nat>,
    pub limit: nat,
    pub pacing_millis: nat,
    pub stages: Seq<Stage>,
}

impl DispatchState {
    /// The state before anything is admitted.
    pub open spec fn initial(items: Seq<nat>, limit: nat, pacing_millis: nat) -> DispatchState {
        DispatchState { items, limit, pacing_millis, stages: Seq::empty() }
    }

    /// How many items have been given a slot so far.
    pub open spec fn admitted(self) -> nat {
        self.stages.len()
    }

    /// How many forward operations are unresolved.
    pub open spec fn unresolved(self) -> nat {
        count(self.stages, Stage::Forwarding)
    }

    /// How many slots are taken, by a forward operation or by a pacing delay.
    pub open spec fn occupied(self) -> nat {
        count(self.stages, Stage::Forwarding) + count(self.stages, Stage::Pacing)
    }

    /// The invariant: the ceiling is at least one, no more items are admitted
    /// than the batch holds, and the taken slots do not exceed the ceiling.
    pub open spec fn wf(self) -> bool {
        &&& self.limit >= 1
        &&& self.stages.len() <= self.items.len()
        &&& self.occupied() <= self.limit
    }

    /// An item is queued and a slot is free.
    pub open spec fn can_admit(self) -> bool {
        self.admitted() < self.items.len() && self.occupied() < self.limit
    }

    /// The item at `index` is at `stage`.
    pub open spec fn is_at(self, index: int, stage: Stage) -> bool {
        0 <= index < self.stages.len() && self.stages[index] == stage
    }

    /// Every item of the batch has been forwarded and has given its slot back.
    pub open spec fn drained(self) -> bool {
        self.stages.len() == self.items.len() && count(self.stages, Stage::Done)
            == self.items.len()
    }

    /// `event` can happen in this state.
    pub open spec fn enabled(self, event: Event) -> bool {
        match event {
            Event::Admit => self.can_admit(),
            Event::Settled { index, outcome } => self.is_at(index, Stage::Forwarding),
            Event::Paced { index } => self.is_at(index, Stage::Pacing),
        }
    }

    /// The state after `event`. An event that cannot happen changes nothing.
    pub open spec fn step(self, event: Event) -> DispatchState {
        if !self.enabled(event) {
            self
        } else {
            match event {
                Event::Admit => DispatchState {
                    stages: self.stages.push(Stage::Forwarding),
                    ..self
                },
                Event::Settled { index, outcome } => DispatchState {
                    stages: self.stages.update(index, Stage::Pacing),
                    ..self
                },
                Event::Paced { index } => DispatchState {
                    stages: self.stages.update(index, Stage::Done),
                    ..self
                },
            }
        }
    }

    /// The state after a whole history of events, oldest first.
    pub open spec fn run(self, events: Seq<Event>) -> DispatchState
        decreases events.len(),
    {
        if events.len() == 0 {
            self
        } else {
            self.run(events.drop_last()).step(events.last())
        }
    }

    /// The number of events still to come before the batch is drained: three
    /// for each queued item, two for each one forwarding, one for each pacing.
    pub open spec fn work_left(self) -> int {
        3 * self.items.len() - count(self.stages, Stage::Forwarding) - 2 * count(
            self.stages,
            Stage::Pacing,
        ) - 3 * count(self.stages, Stage::Done)
    }
}

/// Adding an entry raises the count of its stage by one and no other.
pub proof fn lemma_count_push(stages: Seq<Stage>, added: Stage, stage: Stage)
    ensures
        count(stages.push(added), stage) == count(stages, stage) + if added == stage {
            1nat
        } else {
            0nat
        },
{
    assert(stages.push(added).drop_last() =~= stages);
}

/// Moving an entry to another stage takes one from the count of the stage it
/// leaves and adds one to the count of the stage it enters.
pub proof fn lemma_count_update(stages: Seq<Stage>, index: int, moved: Stage, stage: Stage)
    requires
        0 <= index < stages.len(),
    ensures
        count(stages.update(index, moved), stage) == count(stages, stage) - if stages[index]
            == stage {
            1nat
        } else {
            0nat
        } + if moved == stage {
            1nat
        } else {
            0nat
        },
    decreases stages.len(),
{
    let after = stages.update(index, moved);
    if index == stages.len() - 1 {
        assert(after.drop_last() =~= stages.drop_last());
    } else {
        lemma_count_update(stages.drop_last(), index, moved, stage);
        assert(after.drop_last() =~= stages.drop_last().update(index, moved));
    }
}

/// Every entry is at one of the three stages.
pub proof fn lemma_count_total(stages: Seq<Stage>)
    ensures
        count(stages, Stage::Forwarding) + count(stages, Stage::Pacing) + count(
            stages,
            Stage::Done,
        ) == stages.len(),
    decreases stages.len(),
{
    if stages.len() > 0 {
        lemma_count_total(stages.drop_last());
    }
}

/// A stage with a positive count is the stage of some entry.
pub proof fn lemma_count_witness(stages: Seq<Stage>, stage: Stage) -> (index: int)
    requires
        count(stages, stage) > 0,
    ensures
        0 <= index < stages.len(),
        stages[index] == stage,
    decreases stages.len(),
{
    if stages.last() == stage {
        stages.len() - 1
    } else {
        lemma_count_witness(stages.drop_last(), stage)
    }
}

/// The invariant holds at the start and after every event.
pub proof fn lemma_step_keeps_wf(state: DispatchState, event: Event)
    requires
        state.wf(),
    ensures
        state.step(event).wf(),
        state.step(event).items == state.items,
        state.step(event).limit == state.limit,
        state.step(event).pacing_millis == state.pacing_millis,
{
    if state.enabled(event) {
        match event {
            Event::Admit => {
                lemma_count_push(state.stages, Stage::Forwarding, Stage::Forwarding);
                lemma_count_push(state.stages, Stage::Forwarding, Stage::Pacing);
            },
            Event::Settled { index, outcome } => {
                lemma_count_update(state.stages, index, Stage::Pacing, Stage::Forwarding);
                lemma_count_update(state.stages, index, Stage::Pacing, Stage::Pacing);
            },
            Event::Paced { index } => {
                lemma_count_update(state.stages, index, Stage::Done, Stage::Forwarding);
                lemma_count_update(state.stages, index, Stage::Done, Stage::Pacing);
            },
        }
    }
}

/// An item is handled once: no event takes an admitted item back to an
/// earlier stage, or out of the stages, and an event changes the stage of one
/// item at most.
pub proof fn lemma_stages_move_forward(state: DispatchState, event: Event, index: int)
    requires
        0 <= index < state.stages.len(),
    ensures
        index < state.step(event).stages.len(),
        state.stages[index] == Stage::Done ==> state.step(event).stages[index] == Stage::Done,
        state.stages[index] == Stage::Pacing ==> state.step(event).stages[index]
            != Stage::Forwarding,
        forall|other: int|
            0 <= other < state.stages.len() && other != index && state.step(event).stages[index]
                != state.stages[index] ==> state.step(event).stages[other] == state.stages[other],
{
}

/// The concurrency ceiling: whatever the batch and whatever happens, in
/// whatever order, the forward operations that are unresolved never exceed
/// the limit, and neither do the slots that are taken.
pub proof fn lemma_ceiling_never_exceeded(
    items: Seq<nat>,
    limit: nat,
    pacing_millis: nat,
    events: Seq<Event>,
)
    requires
        limit >= 1,
    ensures
        DispatchState::initial(items, limit, pacing_millis).run(events).wf(),
        DispatchState::initial(items, limit, pacing_millis).run(events).unresolved() <= limit,
        DispatchState::initial(items, limit, pacing_millis).run(events).occupied() <= limit,
        DispatchState::initial(items, limit, pacing_millis).run(events).limit == limit,
        DispatchState::initial(items, limit, pacing_millis).run(events).items == items,
    decreases events.len(),
{
    let start = DispatchState::initial(items, limit, pacing_millis);
    if events.len() > 0 {
        lemma_ceiling_never_exceeded(items, limit, pacing_millis, events.drop_last());
        lemma_step_keeps_wf(start.run(events.drop_last()), events.last());
    }
}

/// An empty batch is drained before anything happens.
pub proof fn lemma_empty_batch_is_drained(limit: nat, pacing_millis: nat)
    ensures
        DispatchState::initial(Seq::empty(), limit, pacing_millis).drained(),
{
}

/// The outcome of a forward operation has no part in what the dispatcher
/// does next: the slot moves on in the same way for each of them.
pub proof fn lemma_outcome_never_matters(
    state: DispatchState,
    index: int,
    one: Outcome,
    other: Outcome,
)
    ensures
        state.enabled(Event::Settled { index, outcome: one }) == state.enabled(
            Event::Settled { index, outcome: other },
        ),
        state.step(Event::Settled { index, outcome: one }) == state.step(
            Event::Settled { index, outcome: other },
        ),
{
}

/// Every event that happens brings the batch one step nearer to drained.
pub proof fn lemma_step_makes_progress(state: DispatchState, event: Event)
    requires
        state.wf(),
        state.enabled(event),
    ensures
        state.step(event).work_left() == state.work_left() - 1,
{
    match event {
        Event::Admit => {
            lemma_count_push(state.stages, Stage::Forwarding, Stage::Forwarding);
            lemma_count_push(state.stages, Stage::Forwarding, Stage::Pacing);
            lemma_count_push(state.stages, Stage::Forwarding, Stage::Done);
        },
        Event::Settled { index, outcome } => {
            lemma_count_update(state.stages, index, Stage::Pacing, Stage::Forwarding);
            lemma_count_update(state.stages, index, Stage::Pacing, Stage::Pacing);
            lemma_count_update(state.stages, index, Stage::Pacing, Stage::Done);
        },
        Event::Paced { index } => {
            lemma_count_update(state.stages, index, Stage::Done, Stage::Forwarding);
            lemma_count_update(state.stages, index, Stage::Done, Stage::Pacing);
            lemma_count_update(state.stages, index, Stage::Done, Stage::Done);
        },
    }
}

/// The work left is never negative, and none is left exactly when the batch
/// is drained.
pub proof fn lemma_work_left(state: DispatchState)
    requires
        state.wf(),
    ensures
        state.work_left() >= 0,
        state.work_left() == 0 <==> state.drained(),
{
    lemma_count_total(state.stages);
}

/// No deadlock: until the batch is drained, an item can be admitted, or a
/// forward operation is unresolved and its end is an event whatever its
/// outcome, or a pacing delay is running and its end is an event.
pub proof fn lemma_never_stuck(state: DispatchState, outcome: Outcome) -> (event: Event)
    requires
        state.wf(),
        !state.drained(),
    ensures
        state.enabled(event),
        event matches Event::Settled { outcome: ended, .. } ==> ended == outcome,
{
    lemma_count_total(state.stages);
    if count(state.stages, Stage::Forwarding) > 0 {
        let index = lemma_count_witness(state.stages, Stage::Forwarding);
        Event::Settled { index, outcome }
    } else if count(state.stages, Stage::Pacing) > 0 {
        let index = lemma_count_witness(state.stages, Stage::Pacing);
        Event::Paced { index }
    } else {
        Event::Admit
    }
}

/// Each event of `events` can happen at its turn, starting from `state`.
pub open spec fn all_enabled(state: DispatchState, events: Seq<Event>) -> bool
    decreases events.len(),
{
    events.len() > 0 ==> all_enabled(state, events.drop_last()) && state.run(
        events.drop_last(),
    ).enabled(events.last())
}

/// The batch drains: a history of events that all happen cannot be longer
/// than the work that was left at its start, and when it is that long the
/// batch is drained. From the initial state that is three events for each
/// item, whatever the outcomes that the events carry.
pub proof fn lemma_drains(state: DispatchState, events: Seq<Event>)
    requires
        state.wf(),
        all_enabled(state, events),
    ensures
        state.run(events).wf(),
        state.run(events).work_left() == state.work_left() - events.len(),
        events.len() <= state.work_left(),
        events.len() == state.work_left() <==> state.run(events).drained(),
    decreases events.len(),
{
    if events.len() > 0 {
        let before = state.run(events.drop_last());
        lemma_drains(state, events.drop_last());
        lemma_step_keeps_wf(before, events.last());
        lemma_step_makes_progress(before, events.last());
    }
    lemma_work_left(state.run(events));
}

/// A whole batch drains in three events for each item: its admission, the end
/// of its forward operation with whatever outcome, and the end of its pacing
/// delay. Failures do not hold it up, whether some items fail or all do.
pub proof fn lemma_batch_drains(
    items: Seq<nat>,
    limit: nat,
    pacing_millis: nat,
    events: Seq<Event>,
)
    requires
        limit >= 1,
        all_enabled(DispatchState::initial(items, limit, pacing_millis), events),
    ensures
        events.len() <= 3 * items.len(),
        events.len() == 3 * items.len() <==> DispatchState::initial(
            items,
            limit,
            pacing_millis,
        ).run(events).drained(),
{
    lemma_drains(DispatchState::initial(items, limit, pacing_millis), events);
}

/// The slot and the item that one admission hands out.
#[derive(Clone, Copy, Debug, PartialEq, Eq, Structural)]
pub struct Ticket {
    /// The place of the item in the batch; it names the item in later events.
    pub index: usize,
    /// The item to forward.
    pub item: WorkItem,
}

/// An item together with the outcome of forwarding it, and the pacing delay
/// to wait out before its slot is released.
#[derive(Clone, Debug, PartialEq, Eq)]
pub struct Settled {
    pub item: WorkItem,
    pub outcome: DispatchOutcome,
    pub pause_millis: u64,
}

/// The dispatcher of one batch.
#[derive(Debug)]
pub struct Dispatcher {
    items: Vec<WorkItem>,
    stages: Vec<Stage>,
    limit: usize,
    pacing_millis: u64,
    forwarding: usize,
    pacing: usize,
    done: usize,
}

impl View for Dispatcher {
    type V = DispatchState;

    closed spec fn view(&self) -> DispatchState {
        DispatchState {
            items: ids_of(self.items@),
            limit: self.limit as nat,
            pacing_millis: self.pacing_millis as nat,
            stages: self.stages@,
        }
    }
}

impl Dispatcher {
    /// The dispatcher is in a state that its operations keep: its value meets
    /// the invariant of [`DispatchState`] and its tallies agree with it.
    pub closed spec fn wf(&self) -> bool {
        &&& self@.wf()
        &&& self.forwarding == count(self.stages@, Stage::Forwarding)
        &&& self.pacing == count(self.stages@, Stage::Pacing)
        &&& self.done == count(self.stages@, Stage::Done)
    }

    /// A well-formed dispatcher has a well-formed value, so that at every
    /// moment no more than `limit` forward operations are unresolved.
    pub proof fn lemma_ceiling(&self)
        requires
            self.wf(),
        ensures
            self@.wf(),
            self@.unresolved() <= self@.limit,
    {
    }

    /// A dispatcher for `items` with room for `limit` forward operations at a
    /// time, each followed by a pacing delay of `pacing_millis` milliseconds.
    /// There is none for a limit of zero, under which nothing could ever be
    /// admitted.
    pub fn new(items: Vec<WorkItem>, limit: usize, pacing_millis: u64) -> (made: Option<Dispatcher>)
        ensures
            made is None <==> limit == 0,
            made matches Some(dispatcher) ==> dispatcher.wf() && dispatcher@
                == DispatchState::initial(ids_of(items@), limit as nat, pacing_millis as nat),
    {
        if limit == 0 {
            None
        } else {
            Some(
                Dispatcher {
                    items,
                    stages: Vec::new(),
                    limit,
                    pacing_millis,
                    forwarding: 0,
                    pacing: 0,
                    done: 0,
                },
            )
        }
    }

    /// Gives the next queued item a slot, if an item is queued and a slot is
    /// free. Items leave the queue in the order of the batch.
    pub fn start_next(&mut self) -> (ticket: Option<Ticket>)
        requires
            old(self).wf(),
        ensures
            final(self).wf(),
            final(self)@ == old(self)@.step(Event::Admit),
            ticket is Some <==> old(self)@.can_admit(),
            ticket matches Some(given) ==> given.index == old(self)@.admitted() && given.item@
                == old(self)@.items[given.index as int],
    {
        proof {
            lemma_count_total(self.stages@);
            lemma_count_push(self.stages@, Stage::Forwarding, Stage::Forwarding);
            lemma_count_push(self.stages@, Stage::Forwarding, Stage::Pacing);
            lemma_count_push(self.stages@, Stage::Forwarding, Stage::Done);
        }
        let index = self.stages.len();
        if index < self.items.len() && self.forwarding + self.pacing < self.limit {
            let item = self.items[index];
            self.stages.push(Stage::Forwarding);
            self.forwarding = self.forwarding + 1;
            Some(Ticket { index, item })
        } else {
            None
        }
    }

    /// Records that the forward operation of the item at `index` has ended
    /// with `outcome`, whichever it is; the slot is then held for the pacing
    /// delay. Hands the item back with its outcome, for the report, and with
    /// the delay to wait out. Nothing changes, and nothing is handed back,
    /// unless that item is forwarding.
    pub fn settle(&mut self, index: usize, outcome: DispatchOutcome) -> (settled: Option<Settled>)
        requires
            old(self).wf(),
        ensures
            final(self).wf(),
            final(self)@ == old(self)@.step(
                Event::Settled { index: index as int, outcome: outcome@ },
            ),
            settled is Some <==> old(self)@.is_at(index as int, Stage::Forwarding),
            settled matches Some(ended) ==> {
                &&& ended.item@ == old(self)@.items[index as int]
                &&& ended.outcome == outcome
                &&& ended.pause_millis == old(self)@.pacing_millis
            },
    {
        if index < self.stages.len() && self.stages[index] == Stage::Forwarding {
            proof {
                lemma_count_total(self.stages@);
                lemma_count_update(self.stages@, index as int, Stage::Pacing, Stage::Forwarding);
                lemma_count_update(self.stages@, index as int, Stage::Pacing, Stage::Pacing);
                lemma_count_update(self.stages@, index as int, Stage::Pacing, Stage::Done);
            }
            let item = self.items[index];
            self.stages.set(index, Stage::Pacing);
            self.forwarding = self.forwarding - 1;
            self.pacing = self.pacing + 1;
            Some(Settled { item, outcome, pause_millis: self.pacing_millis })
        } else {
            None
        }
    }

    /// Records that the pacing delay of the item at `index` is over, which
    /// frees its slot. Nothing changes unless that item is pacing.
    pub fn release(&mut self, index: usize) -> (released: bool)
        requires
            old(self).wf(),
        ensures
            final(self).wf(),
            final(self)@ == old(self)@.step(Event::Paced { index: index as int }),
            released == old(self)@.is_at(index as int, Stage::Pacing),
    {
        if index < self.stages.len() && self.stages[index] == Stage::Pacing {
            proof {
                lemma_count_total(self.stages@);
                lemma_count_update(self.stages@, index as int, Stage::Done, Stage::Forwarding);
                lemma_count_update(self.stages@, index as int, Stage::Done, Stage::Pacing);
                lemma_count_update(self.stages@, index as int, Stage::Done, Stage::Done);
            }
            self.stages.set(index, Stage::Done);
            self.pacing = self.pacing - 1;
            self.done = self.done + 1;
            true
        } else {
            false
        }
    }

    /// Tells whether every item has been forwarded and every slot is free.
    pub fn is_drained(&self) -> (drained: bool)
        requires
            self.wf(),
        ensures
            drained == self@.drained(),
    {
        proof {
            lemma_count_total(self.stages@);
        }
        self.done == self.items.len()
    }

    /// The number of forward operations that are unresolved.
    pub fn unresolved(&self) -> (n: usize)
        requires
            self.wf(),
        ensures
            n == self@.unresolved(),
            n <= self@.limit,
    {
        self.forwarding
    }

    /// The number of slots that are taken.
    pub fn occupied(&self) -> (n: usize)
        requires
            self.wf(),
        ensures
            n == self@.occupied(),
            n <= self@.limit,
    {
        self.forwarding + self.pacing
    }

    /// The number of items that have been given a slot so far.
    pub fn admitted(&self) -> (n: usize)
        ensures
            n == self@.admitted(),
    {
        self.stages.len()
    }

    /// The number of items in the batch.
    pub fn len(&self) -> (n: usize)
        ensures
            n == self@.items.len(),
    {
        self.items.len()
    }

    /// The concurrency ceiling.
    pub fn limit(&self) -> (limit: usize)
        ensures
            limit == self@.limit,
    {
        self.limit
    }

    /// The pacing delay in milliseconds.
    pub fn pacing_millis(&self) -> (millis: u64)
        ensures
            millis == self@.pacing_millis,
    {
        self.pacing_millis
    }
}

} // verus!
