//! The cycle scheduler: discovery, dispatch and an idle delay, over and over.
//!
//! The scheduler decides; it performs nothing. Its driver carries out each
//! directive and comes back with the event that ends it.

use crate::config::{Config, Settings};
use crate::discovery::{
    listing_of, work_items, DiscoveryError, DiscoveryFailure, DiscoveryReply,
};
use crate::dispatcher::{DispatchState, Dispatcher};
use crate::identifier::{accepted, refused, InvalidIdentifier};
use vstd::prelude::*;

verus! {

/// Where the scheduler stands. A cycle is running while it is discovering or
/// dispatching.
#[derive(Clone, Copy, Debug, PartialEq, Eq, Structural)]
pub enum Phase {
    /// A cycle is running and waits for the reply of the discovery service.
    Discovering,
    /// A cycle is running and waits for its dispatcher to drain.
    Dispatching,
    /// No cycle is running; the idle delay is.
    Idling,
}

/// What ends a phase.
pub enum CycleEvent {
    /// Discovery gave a listing.
    Listed,
    /// Discovery failed.
    DiscoveryFailed { failure: DiscoveryFailure },
    /// The dispatcher of the cycle is drained.
    Drained,
    /// The idle delay is over.
    IdleElapsed,
}

impl Phase {
    /// A cycle is running.
    pub open spec fn is_running(self) -> bool {
        self != Phase::Idling
    }

    /// The phase after `event`. An event that does not end the current phase
    /// changes nothing. No phase is final: each has an event that ends it.
    pub open spec fn next(self, event: CycleEvent) -> Phase {
        match (self, event) {
            (Phase::Discovering, CycleEvent::Listed) => Phase::Dispatching,
            (Phase::Discovering, CycleEvent::DiscoveryFailed { failure }) => Phase::Idling,
            (Phase::Dispatching, CycleEvent::Drained) => Phase::Idling,
            (Phase::Idling, CycleEvent::IdleElapsed) => Phase::Discovering,
            _ => self,
        }
    }

    /// The phase after a whole history of events, oldest first.
    pub open spec fn run(self, events: Seq<CycleEvent>) -> Phase
        decreases events.len(),
    {
        if events.len() == 0 {
            self
        } else {
            self.run(events.drop_last()).next(events.last())
        }
    }
}

/// A failed discovery costs one cycle and no more: whatever the failure, the
/// scheduler goes idle without dispatching, and the end of the idle delay
/// starts the next discovery.
pub proof fn lemma_failure_is_retried(failure: DiscoveryFailure)
    ensures
        Phase::Discovering.next(CycleEvent::DiscoveryFailed { failure }) == Phase::Idling,
        Phase::Discovering.next(CycleEvent::DiscoveryFailed { failure }).next(
            CycleEvent::IdleElapsed,
        ) == Phase::Discovering,
{
}

/// The same holds in every cycle, however many came before and however they
/// went: once discovery is awaited, a failure and the idle delay lead back to
/// discovery.
pub proof fn lemma_failure_is_retried_in_every_cycle(
    history: Seq<CycleEvent>,
    failure: DiscoveryFailure,
)
    requires
        Phase::Discovering.run(history) == Phase::Discovering,
    ensures
        Phase::Discovering.run(
            history.push(CycleEvent::DiscoveryFailed { failure }).push(CycleEvent::IdleElapsed),
        ) == Phase::Discovering,
{
    let failed = history.push(CycleEvent::DiscoveryFailed { failure });
    let waited = failed.push(CycleEvent::IdleElapsed);
    assert(failed.drop_last() =~= history);
    assert(Phase::Discovering.run(failed) == Phase::Idling);
    assert(waited.drop_last() =~= failed);
}

/// The scheduler never stops: every phase has an event that leads out of it.
pub proof fn lemma_no_final_phase(phase: Phase) -> (event: CycleEvent)
    ensures
        phase.next(event) != phase,
{
    match phase {
        Phase::Discovering => CycleEvent::Listed,
        Phase::Dispatching => CycleEvent::Drained,
        Phase::Idling => CycleEvent::IdleElapsed,
    }
}

/// What the driver has to do next.
#[derive(Debug)]
pub enum Directive {
    /// Fetch the listing of work identifiers from `url`, then call
    /// `discovered` with the reply.
    Discover { url: String },
    /// Warn of each rejected entry, drive `dispatcher` until it is drained,
    /// then call `dispatched` with it.
    Dispatch { dispatcher: Dispatcher, rejected: Vec<InvalidIdentifier> },
    /// Report the failure, if there is one, wait for `millis` milliseconds,
    /// then call `idle_elapsed`.
    Idle { millis: u64, failure: Option<DiscoveryError> },
    /// The event did not end the current phase: go on with what was under
    /// way.
    Stay,
}

/// The scheduler.
#[derive(Debug)]
pub struct Scheduler {
    config: Config,
    phase: Phase,
}

impl Scheduler {
    /// The settings that the scheduler works from.
    pub closed spec fn settings(&self) -> Settings {
        self.config@
    }

    /// The phase that the scheduler is in.
    pub closed spec fn phase_spec(&self) -> Phase {
        self.phase
    }

    /// A scheduler at the start of its first cycle.
    pub fn new(config: Config) -> (scheduler: Scheduler)
        ensures
            scheduler.settings() == config@,
            scheduler.phase_spec() == Phase::Discovering,
    {
        Scheduler { config, phase: Phase::Discovering }
    }

    /// The phase that the scheduler is in.
    #[verifier::when_used_as_spec(phase_spec)]
    pub fn phase(&self) -> (phase: Phase)
        ensures
            phase == self.phase_spec(),
    {
        self.phase
    }

    /// Tells whether a cycle is running.
    pub fn is_running(&self) -> (running: bool)
        ensures
            running == self.phase().is_running(),
    {
        match self.phase {
            Phase::Idling => false,
            _ => true,
        }
    }

    /// The settings that the scheduler works from.
    pub fn config(&self) -> (config: &Config)
        ensures
            config@ == self.settings(),
    {
        &self.config
    }

    /// The directive that opens a cycle: fetch the listing.
    pub fn discover(&self) -> (directive: Directive)
        ensures
            directive matches Directive::Discover { url } && url@
                == self.settings().discovery_url(),
    {
        Directive::Discover { url: self.config.discovery_url() }
    }

    /// Takes the reply of the discovery service.
    ///
    /// While discovering, a listing starts the dispatch of its valid entries
    /// under the configured ceiling and pacing delay, and a failure sends the
    /// scheduler idle without dispatching. In any other phase nothing changes.
    pub fn discovered(&mut self, reply: DiscoveryReply) -> (directive: Directive)
        ensures
            final(self).settings() == old(self).settings(),
            old(self).phase() != Phase::Discovering ==> final(self).phase() == old(self).phase()
                && directive is Stay,
            old(self).phase() == Phase::Discovering ==> match listing_of(reply@) {
                Ok(listing) => {
                    &&& final(self).phase() == Phase::Discovering.next(CycleEvent::Listed)
                    &&& directive matches Directive::Dispatch { dispatcher, rejected }
                    &&& dispatcher.wf()
                    &&& dispatcher@ == DispatchState::initial(
                        accepted(listing),
                        old(self).settings().max_concurrent,
                        old(self).settings().pacing_millis,
                    )
                    &&& rejected@.map_values(|refusal: InvalidIdentifier| refusal.raw@) == refused(
                        listing,
                    )
                },
                Err(failure) => {
                    &&& final(self).phase() == Phase::Discovering.next(
                        CycleEvent::DiscoveryFailed { failure },
                    )
                    &&& directive matches Directive::Idle { millis, failure: reported }
                    &&& millis == old(self).settings().idle_millis
                    &&& reported matches Some(error)
                    &&& error@ == failure
                },
            },
    {
        match self.phase {
            Phase::Discovering => {},
            _ => {
                return Directive::Stay;
            },
        }
        match work_items(reply) {
            Ok(parsed) => {
                let made = Dispatcher::new(
                    parsed.items,
                    self.config.max_concurrent(),
                    self.config.pacing_millis(),
                );
                match made {
                    Some(dispatcher) => {
                        self.phase = Phase::Dispatching;
                        Directive::Dispatch { dispatcher, rejected: parsed.rejected }
                    },
                    // No configuration has a ceiling of zero.
                    None => Directive::Stay,
                }
            },
            Err(error) => {
                self.phase = Phase::Idling;
                Directive::Idle { millis: self.config.idle_millis(), failure: Some(error) }
            },
        }
    }

    /// Takes the dispatcher of the cycle back.
    ///
    /// While dispatching, a drained dispatcher ends the cycle and sends the
    /// scheduler idle; one that is not drained keeps the cycle running. In
    /// any other phase nothing changes.
    pub fn dispatched(&mut self, dispatcher: &Dispatcher) -> (directive: Directive)
        requires
            dispatcher.wf(),
        ensures
            final(self).settings() == old(self).settings(),
            old(self).phase() == Phase::Dispatching && dispatcher@.drained() ==> {
                &&& final(self).phase() == Phase::Dispatching.next(CycleEvent::Drained)
                &&& directive matches Directive::Idle { millis, failure }
                &&& millis == old(self).settings().idle_millis
                &&& failure is None
            },
            !(old(self).phase() == Phase::Dispatching && dispatcher@.drained()) ==> {
                &&& final(self).phase() == old(self).phase()
                &&& directive is Stay
            },
    {
        match self.phase {
            Phase::Dispatching => {
                if dispatcher.is_drained() {
                    self.phase = Phase::Idling;
                    Directive::Idle { millis: self.config.idle_millis(), failure: None }
                } else {
                    Directive::Stay
                }
            },
            _ => Directive::Stay,
        }
    }

    /// Takes the end of the idle delay: while idling, the next cycle starts
    /// with its discovery. In any other phase nothing changes.
    pub fn idle_elapsed(&mut self) -> (directive: Directive)
        ensures
            final(self).settings() == old(self).settings(),
            final(self).phase() == old(self).phase().next(CycleEvent::IdleElapsed),
            old(self).phase() == Phase::Idling ==> {
                &&& directive matches Directive::Discover { url }
                &&& url@ == old(self).settings().discovery_url()
            },
            old(self).phase() != Phase::Idling ==> directive is Stay,
    {
        match self.phase {
            Phase::Idling => {
                self.phase = Phase::Discovering;
                Directive::Discover { url: self.config.discovery_url() }
            },
            _ => Directive::Stay,
        }
    }
}

} // verus!
