//! The settings of a run, fixed once at startup.

use vstd::prelude::*;
use vstd::string::StringExecFns;

verus! {

/// The settings that the scheduler, the discovery client and the forwarder
/// work from. A configuration never allows fewer than one forward operation
/// at a time.
#[derive(Debug)]
pub struct Config {
    discovery_base: String,
    credential: String,
    ingestion_url: String,
    max_concurrent: usize,
    pacing_millis: u64,
    idle_millis: u64,
}

/// The mathematical value of a [`Config`].
pub struct Settings {
    /// The base URL of the discovery service.
    pub discovery_base: Seq<char>,
    /// The static credential sent with each discovery request.
    pub credential: Seq<char>,
    /// The URL of the ingestion service.
    pub ingestion_url: Seq<char>,
    /// The concurrency ceiling.
    pub max_concurrent: nat,
    /// The delay for which a slot is held after its forward operation, in
    /// milliseconds.
    pub pacing_millis: nat,
    /// The delay between two cycles, in milliseconds.
    pub idle_millis: nat,
}

impl Settings {
    /// The URL of the discovery request: the path `/proc` under the base URL,
    /// with the credential as the query parameter `key`.
    pub open spec fn discovery_url(self) -> Seq<char> {
        self.discovery_base + "/proc?key="@ + self.credential
    }
}

impl View for Config {
    type V = Settings;

    closed spec fn view(&self) -> Settings {
        Settings {
            discovery_base: self.discovery_base@,
            credential: self.credential@,
            ingestion_url: self.ingestion_url@,
            max_concurrent: self.max_concurrent as nat,
            pacing_millis: self.pacing_millis as nat,
            idle_millis: self.idle_millis as nat,
        }
    }
}

impl Config {
    #[verifier::type_invariant]
    spec fn positive_ceiling(self) -> bool {
        self.max_concurrent >= 1
    }

    /// A configuration with the given settings. There is none with a
    /// concurrency ceiling of zero.
    pub fn new(
        discovery_base: String,
        credential: String,
        ingestion_url: String,
        max_concurrent: usize,
        pacing_millis: u64,
        idle_millis: u64,
    ) -> (made: Option<Config>)
        ensures
            made is None <==> max_concurrent == 0,
            made matches Some(config) ==> config@ == (Settings {
                discovery_base: discovery_base@,
                credential: credential@,
                ingestion_url: ingestion_url@,
                max_concurrent: max_concurrent as nat,
                pacing_millis: pacing_millis as nat,
                idle_millis: idle_millis as nat,
            }),
    {
        if max_concurrent == 0 {
            None
        } else {
            Some(
                Config {
                    discovery_base,
                    credential,
                    ingestion_url,
                    max_concurrent,
                    pacing_millis,
                    idle_millis,
                },
            )
        }
    }

    /// The URL to fetch the work identifiers of a cycle from.
    pub fn discovery_url(&self) -> (url: String)
        ensures
            url@ == self@.discovery_url(),
    {
        let mut url = self.discovery_base.clone();
        url.append("/proc?key=");
        url.append(self.credential.as_str());
        url
    }

    /// The URL to forward each work item to.
    pub fn ingestion_url(&self) -> (url: &str)
        ensures
            url@ == self@.ingestion_url,
    {
        self.ingestion_url.as_str()
    }

    /// The concurrency ceiling, which is at least one.
    pub fn max_concurrent(&self) -> (limit: usize)
        ensures
            limit == self@.max_concurrent,
            limit >= 1,
    {
        proof {
            use_type_invariant(self);
        }
        self.max_concurrent
    }

    /// The pacing delay in milliseconds.
    pub fn pacing_millis(&self) -> (millis: u64)
        ensures
            millis == self@.pacing_millis,
    {
        self.pacing_millis
    }

    /// The idle delay in milliseconds.
    pub fn idle_millis(&self) -> (millis: u64)
        ensures
            millis == self@.idle_millis,
    {
        self.idle_millis
    }
}

} // verus!
