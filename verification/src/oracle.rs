//! The ingestion side: who may operate it, how it is configured, the cache
//! of readings with its counters, and the one timer that refreshes the
//! cache.
//!
//! Fetching a reading suspends the caller while the provider is asked, so
//! it comes in two steps here: one before the outbound call, which says
//! what to ask, and one after it, which takes what came back.

use vstd::prelude::*;
use vstd::string::StringExecFns;
use crate::cache::{location_views, ReadingCache};
use crate::errors::{oracle_message, OracleError, OracleErrorKind};
use crate::identity::{
    allow_list_add,
    allow_list_contains,
    allow_list_remove,
    copy_identities,
    identity_views,
    principal_text_of,
    Identity,
};
use crate::level::{decimal_text, push_decimal};
use crate::reading::{CachedData, CachedDataView, FloodData, FloodDataView};
use crate::usgs::{
    build_request,
    is_provider_request,
    is_reading_result,
    outcome_reading,
    reading_of_outcome,
    FetchOutcome,
    OutboundRequest,
};

verus! {

/// The refresh interval of a new oracle: five minutes.
pub const DEFAULT_UPDATE_INTERVAL_SECONDS: u64 = 300;

/// The shortest refresh interval: one minute.
pub const MIN_UPDATE_INTERVAL_SECONDS: u64 = 60;

/// The retries of a new oracle's configuration.
pub const DEFAULT_MAX_RETRIES: u32 = 3;

/// The provider's address in a new oracle's configuration.
pub open spec fn default_base_url() -> Seq<char> {
    "https://waterservices.usgs.gov/nwis/iv/"@
}

/// How ingestion is configured.
#[derive(Debug)]
pub struct OracleConfig {
    pub update_interval_seconds: u64,
    /// Kept for operators; no fetch is retried on its account.
    pub max_retries: u32,
    pub authorized_principals: Vec<Identity>,
    pub usgs_base_url: String,
    pub is_paused: bool,
}

/// What a configuration says.
pub struct OracleConfigView {
    pub update_interval_seconds: u64,
    pub max_retries: u32,
    pub authorized_principals: Seq<Seq<u8>>,
    pub usgs_base_url: Seq<char>,
    pub is_paused: bool,
}

impl View for OracleConfig {
    type V = OracleConfigView;

    open spec fn view(&self) -> OracleConfigView {
        OracleConfigView {
            update_interval_seconds: self.update_interval_seconds,
            max_retries: self.max_retries,
            authorized_principals: identity_views(self.authorized_principals@),
            usgs_base_url: self.usgs_base_url@,
            is_paused: self.is_paused,
        }
    }
}

impl Clone for OracleConfig {
    fn clone(&self) -> (r: OracleConfig)
        ensures
            r@ == self@,
    {
        OracleConfig {
            update_interval_seconds: self.update_interval_seconds,
            max_retries: self.max_retries,
            authorized_principals: copy_identities(&self.authorized_principals),
            usgs_base_url: self.usgs_base_url.clone(),
            is_paused: self.is_paused,
        }
    }
}

impl OracleConfigView {
    /// The configuration of an oracle that was given no arguments.
    pub open spec fn initial() -> OracleConfigView {
        OracleConfigView {
            update_interval_seconds: DEFAULT_UPDATE_INTERVAL_SECONDS,
            max_retries: DEFAULT_MAX_RETRIES,
            authorized_principals: Seq::empty(),
            usgs_base_url: default_base_url(),
            is_paused: false,
        }
    }
}

/// A request for the reading of one site.
#[derive(Debug)]
pub struct GetDataRequest {
    pub location: String,
}

/// What an oracle may be given when it is set up.
#[derive(Debug)]
pub struct InitArgs {
    pub update_interval_seconds: Option<u64>,
    pub authorized_principals: Option<Vec<Identity>>,
}

/// What the arguments of a set-up say.
pub struct InitArgsView {
    pub update_interval_seconds: Option<u64>,
    pub authorized_principals: Option<Seq<Seq<u8>>>,
}

impl View for InitArgs {
    type V = InitArgsView;

    open spec fn view(&self) -> InitArgsView {
        InitArgsView {
            update_interval_seconds: self.update_interval_seconds,
            authorized_principals: match self.authorized_principals {
                Some(list) => Some(identity_views(list@)),
                None => None,
            },
        }
    }
}

/// What optional arguments say.
pub open spec fn init_args_view(args: Option<InitArgs>) -> Option<InitArgsView> {
    match args {
        Some(given) => Some(given@),
        None => None,
    }
}

/// The counters of ingestion.
#[derive(Debug)]
pub struct OracleStats {
    pub total_updates: u64,
    pub last_update_time: Option<u64>,
    pub last_error: Option<String>,
    pub successful_fetches: u64,
    pub failed_fetches: u64,
}

/// What the counters say.
pub struct OracleStatsView {
    pub total_updates: u64,
    pub last_update_time: Option<u64>,
    pub last_error: Option<Seq<char>>,
    pub successful_fetches: u64,
    pub failed_fetches: u64,
}

impl View for OracleStats {
    type V = OracleStatsView;

    open spec fn view(&self) -> OracleStatsView {
        OracleStatsView {
            total_updates: self.total_updates,
            last_update_time: self.last_update_time,
            last_error: match self.last_error {
                Some(message) => Some(message@),
                None => None,
            },
            successful_fetches: self.successful_fetches,
            failed_fetches: self.failed_fetches,
        }
    }
}

impl Clone for OracleStats {
    fn clone(&self) -> (r: OracleStats)
        ensures
            r@ == self@,
    {
        OracleStats {
            total_updates: self.total_updates,
            last_update_time: self.last_update_time,
            last_error: match &self.last_error {
                Some(message) => Some(message.clone()),
                None => None,
            },
            successful_fetches: self.successful_fetches,
            failed_fetches: self.failed_fetches,
        }
    }
}

impl OracleStatsView {
    /// The counters of an oracle that has fetched nothing yet.
    pub open spec fn initial() -> OracleStatsView {
        OracleStatsView {
            total_updates: 0,
            last_update_time: None,
            last_error: None,
            successful_fetches: 0,
            failed_fetches: 0,
        }
    }
}

/// What an oracle reports of itself.
#[derive(Debug)]
pub struct OracleStatus {
    pub total_updates: u64,
    pub last_update_time: Option<u64>,
    pub last_error: Option<String>,
    pub cached_locations: Vec<String>,
    pub is_paused: bool,
    pub update_interval_seconds: u64,
}

/// Who calls: the identity, and whether the platform knows it as a
/// controller of the oracle.
#[derive(Debug)]
pub struct Caller {
    pub identity: Identity,
    pub is_controller: bool,
}

/// What is to be done about the timer after a call.
#[derive(Clone, Copy, Debug, PartialEq, Eq, Structural)]
pub enum TimerCommand {
    /// Cancel the live timer, if there is one.
    Cancel,
    /// Cancel the live timer, if there is one, and start one that sweeps
    /// the cache every `interval_seconds`.
    Restart { interval_seconds: u64 },
}

/// What the ingestion side holds, as plain mathematics.
#[verifier::ext_equal]
pub struct OracleView {
    pub config: OracleConfigView,
    /// The latest reading of each site that was ever fetched.
    pub cache: Map<Seq<char>, CachedDataView>,
    pub stats: OracleStatsView,
    /// The interval of the live timer, in seconds; `None` while no timer
    /// is live.
    pub timer: Option<u64>,
}

impl OracleView {
    /// Whether `identity` may operate ingestion.
    pub open spec fn authorizes(self, identity: Seq<u8>, is_controller: bool) -> bool {
        self.config.authorized_principals.contains(identity) || is_controller
    }

    /// The oracle as it is set up by `caller`. Without arguments it has
    /// the default configuration; with arguments, an interval is raised to
    /// the minimum where it is below, a list of principals replaces the
    /// empty list, and the caller is added to the list. Its timer runs at
    /// the configured interval.
    pub open spec fn initial(args: Option<InitArgsView>, caller: Seq<u8>) -> OracleView {
        let base = OracleConfigView::initial();
        let config = match args {
            Some(given) => {
                let list = match given.authorized_principals {
                    Some(list) => list,
                    None => base.authorized_principals,
                };
                OracleConfigView {
                    update_interval_seconds: match given.update_interval_seconds {
                        Some(seconds) => if seconds < MIN_UPDATE_INTERVAL_SECONDS {
                            MIN_UPDATE_INTERVAL_SECONDS
                        } else {
                            seconds
                        },
                        None => base.update_interval_seconds,
                    },
                    authorized_principals: if list.contains(caller) {
                        list
                    } else {
                        list.push(caller)
                    },
                    ..base
                }
            },
            None => base,
        };
        OracleView {
            config,
            cache: Map::empty(),
            stats: OracleStatsView::initial(),
            timer: Some(config.update_interval_seconds),
        }
    }
}

/// The ingestion side.
#[derive(Debug)]
pub struct Oracle {
    config: OracleConfig,
    cache: ReadingCache,
    stats: OracleStats,
    timer: Option<u64>,
}

impl View for Oracle {
    type V = OracleView;

    closed spec fn view(&self) -> OracleView {
        OracleView {
            config: self.config@,
            cache: self.cache@,
            stats: self.stats@,
            timer: self.timer,
        }
    }
}

impl Oracle {
    /// Sets up the oracle and starts its timer.
    pub fn init(args: Option<InitArgs>, caller: Identity) -> (r: (Oracle, TimerCommand))
        ensures
            r.0@ == OracleView::initial(init_args_view(args), caller@),
            r.1 == (TimerCommand::Restart {
                interval_seconds: r.0@.config.update_interval_seconds,
            }),
    {
        let mut config = OracleConfig {
            update_interval_seconds: DEFAULT_UPDATE_INTERVAL_SECONDS,
            max_retries: DEFAULT_MAX_RETRIES,
            authorized_principals: Vec::new(),
            usgs_base_url: String::from_str("https://waterservices.usgs.gov/nwis/iv/"),
            is_paused: false,
        };
        assert(identity_views(config.authorized_principals@) =~= Seq::<Seq<u8>>::empty());
        if let Some(given) = args {
            if let Some(interval) = given.update_interval_seconds {
                config.update_interval_seconds = if interval < MIN_UPDATE_INTERVAL_SECONDS {
                    MIN_UPDATE_INTERVAL_SECONDS
                } else {
                    interval
                };
            }
            if let Some(principals) = given.authorized_principals {
                config.authorized_principals = principals;
            }
            allow_list_add(&mut config.authorized_principals, caller);
        }
        let interval_seconds = config.update_interval_seconds;
        let oracle = Oracle {
            config,
            cache: ReadingCache::new(),
            stats: OracleStats {
                total_updates: 0,
                last_update_time: None,
                last_error: None,
                successful_fetches: 0,
                failed_fetches: 0,
            },
            timer: Some(interval_seconds),
        };
        (oracle, TimerCommand::Restart { interval_seconds })
    }

    /// Stops the timer, as before the oracle's code is replaced.
    pub fn pre_upgrade(&mut self) -> (r: TimerCommand)
        ensures
            r == TimerCommand::Cancel,
            final(self)@ == (OracleView { timer: None, ..old(self)@ }),
    {
        self.timer = None;
        TimerCommand::Cancel
    }

    /// Starts the timer at the configured interval, as after the oracle's
    /// code was replaced.
    pub fn post_upgrade(&mut self) -> (r: TimerCommand)
        ensures
            r == (TimerCommand::Restart {
                interval_seconds: old(self)@.config.update_interval_seconds,
            }),
            final(self)@ == (OracleView {
                timer: Some(old(self)@.config.update_interval_seconds),
                ..old(self)@
            }),
    {
        self.start_update_timer()
    }

    fn start_update_timer(&mut self) -> (r: TimerCommand)
        ensures
            r == (TimerCommand::Restart {
                interval_seconds: old(self)@.config.update_interval_seconds,
            }),
            final(self)@ == (OracleView {
                timer: Some(old(self)@.config.update_interval_seconds),
                ..old(self)@
            }),
    {
        let interval_seconds = self.config.update_interval_seconds;
        self.timer = Some(interval_seconds);
        TimerCommand::Restart { interval_seconds }
    }

    /// Whether `caller` may operate ingestion: it is on the list, or the
    /// platform knows it as a controller.
    pub fn is_authorized(&self, caller: &Caller) -> (r: bool)
        ensures
            r == self@.authorizes(caller.identity@, caller.is_controller),
    {
        allow_list_contains(&self.config.authorized_principals, &caller.identity)
            || caller.is_controller
    }

    /// Refuses a caller who may not operate ingestion.
    pub fn require_authorized(&self, caller: &Caller) -> (r: Result<(), OracleError>)
        ensures
            r is Ok <==> self@.authorizes(caller.identity@, caller.is_controller),
            r matches Err(e) ==> e.says(OracleErrorKind::Unauthorized, Seq::empty()),
    {
        if self.is_authorized(caller) {
            Ok(())
        } else {
            Err(OracleError::new(OracleErrorKind::Unauthorized, ""))
        }
    }
}

impl OracleView {
    /// Whether one more failure can be counted.
    pub open spec fn can_record_failure(self) -> bool {
        self.stats.failed_fetches < u64::MAX
    }

    /// Whether what a fetch yielded can be counted: a reading raises the
    /// update and success counters, a failure the failure counter.
    pub open spec fn can_take(self, succeeded: bool) -> bool {
        if succeeded {
            self.stats.total_updates < u64::MAX && self.stats.successful_fetches < u64::MAX
        } else {
            self.stats.failed_fetches < u64::MAX
        }
    }

    /// Whether what a fetch yielded during a sweep can be counted: there a
    /// failure raises the failure counter twice.
    pub open spec fn can_take_in_sweep(self, succeeded: bool) -> bool {
        if succeeded {
            self.can_take(true)
        } else {
            self.stats.failed_fetches < u64::MAX - 1
        }
    }

    /// The oracle after a reading was fetched: the reading is in the
    /// cache under its site's key, in place of an earlier one; the update
    /// and success counters are one higher; the time is recorded and the
    /// last error is cleared.
    pub open spec fn after_fetch_success(
        self,
        location: Seq<char>,
        data: FloodDataView,
        now: u64,
    ) -> OracleView {
        OracleView {
            cache: self.cache.insert(location, CachedDataView { data, cached_at: now }),
            stats: OracleStatsView {
                total_updates: (self.stats.total_updates + 1) as u64,
                successful_fetches: (self.stats.successful_fetches + 1) as u64,
                last_update_time: Some(now),
                last_error: None,
                ..self.stats
            },
            ..self
        }
    }

    /// The oracle after a failure was recorded: the failure counter is one
    /// higher and the last error is the failure's sentence. The cache is
    /// as it was.
    pub open spec fn after_failure(self, message: Seq<char>) -> OracleView {
        OracleView {
            stats: OracleStatsView {
                failed_fetches: (self.stats.failed_fetches + 1) as u64,
                last_error: Some(message),
                ..self.stats
            },
            ..self
        }
    }

    /// Why an update on request is refused to a caller, if it is: the
    /// caller may not operate ingestion, or ingestion is paused.
    pub open spec fn update_refusal(self, identity: Seq<u8>, is_controller: bool) -> Option<
        OracleErrorKind,
    > {
        if !self.authorizes(identity, is_controller) {
            Some(OracleErrorKind::Unauthorized)
        } else if self.config.is_paused {
            Some(OracleErrorKind::Paused)
        } else {
            None
        }
    }

    /// The oracle after what a fetch yielded was taken in: a reading as
    /// [`OracleView::after_fetch_success`] says, a failure as
    /// [`OracleView::after_failure`] says of its sentence.
    pub open spec fn after_fetch(
        self,
        location: Seq<char>,
        yielded: Result<FloodDataView, (OracleErrorKind, Seq<char>)>,
        now: u64,
    ) -> OracleView {
        match yielded {
            Ok(data) => self.after_fetch_success(location, data, now),
            Err(failure) => self.after_failure(oracle_message(failure.0, failure.1)),
        }
    }
}

/// Whether `r` is the failure that was yielded, or a success where
/// something was.
pub open spec fn is_fetch_result(
    r: Result<(), OracleError>,
    yielded: Result<FloodDataView, (OracleErrorKind, Seq<char>)>,
) -> bool {
    match r {
        Ok(_) => yielded is Ok,
        Err(e) => yielded is Err && e.says(yielded->Err_0.0, yielded->Err_0.1),
    }
}

/// What a batch of updates starts with.
#[derive(Debug)]
pub enum BatchPlan {
    /// The caller may not update: every site is answered with the refusal,
    /// and nothing is fetched.
    Rejected(Vec<(String, OracleError)>),
    /// The sites to fetch, one after the other.
    Fetch(Vec<String>),
}

impl Oracle {
    /// The request that asks the configured provider for a site.
    pub fn fetch_usgs_data(&self, site_id: &str) -> (r: OutboundRequest)
        ensures
            is_provider_request(r, self@.config.usgs_base_url, site_id@),
    {
        build_request(self.config.usgs_base_url.as_str(), site_id)
    }

    /// The first step of a fetch: refused while ingestion is paused, else
    /// the request to send. Nothing is recorded of a refusal.
    pub fn begin_fetch(&self, location: &str) -> (r: Result<OutboundRequest, OracleError>)
        ensures
            match r {
                Ok(request) => !self@.config.is_paused && is_provider_request(
                    request,
                    self@.config.usgs_base_url,
                    location@,
                ),
                Err(e) => self@.config.is_paused && e.says(OracleErrorKind::Paused, Seq::empty()),
            },
    {
        if self.config.is_paused {
            return Err(OracleError::new(OracleErrorKind::Paused, ""));
        }
        Ok(self.fetch_usgs_data(location))
    }

    fn record_failure(&mut self, error: &OracleError)
        requires
            old(self)@.can_record_failure(),
        ensures
            final(self)@ == old(self)@.after_failure(error.message@),
    {
        self.stats.failed_fetches = self.stats.failed_fetches + 1;
        self.stats.last_error = Some(error.message.clone());
    }

    /// Whether ingestion is paused.
    pub fn is_paused(&self) -> (r: bool)
        ensures
            r == self@.config.is_paused,
    {
        self.config.is_paused
    }

    /// Whether one more failure can be counted.
    pub fn can_record_failure(&self) -> (r: bool)
        ensures
            r == self@.can_record_failure(),
    {
        self.stats.failed_fetches < u64::MAX
    }

    /// Whether what a fetch yielded can be counted.
    pub fn can_take(&self, succeeded: bool) -> (r: bool)
        ensures
            r == self@.can_take(succeeded),
    {
        if succeeded {
            self.stats.total_updates < u64::MAX && self.stats.successful_fetches < u64::MAX
        } else {
            self.stats.failed_fetches < u64::MAX
        }
    }

    /// Whether what a fetch yielded during a sweep can be counted.
    pub fn can_take_in_sweep(&self, succeeded: bool) -> (r: bool)
        ensures
            r == self@.can_take_in_sweep(succeeded),
    {
        if succeeded {
            self.can_take(true)
        } else {
            self.stats.failed_fetches < u64::MAX - 1
        }
    }

    /// Takes in what a fetch yielded. A reading goes to the cache under
    /// its site's key and counts as an update; a failure is counted and
    /// remembered, and handed back. The counters that this raises must
    /// have room.
    pub fn take_reading(
        &mut self,
        location: &str,
        reading: Result<FloodData, OracleError>,
        now: u64,
    ) -> (r: Result<(), OracleError>)
        requires
            old(self)@.can_take(reading is Ok),
        ensures
            match reading {
                Ok(data) => r is Ok && final(self)@ == old(self)@.after_fetch_success(
                    location@,
                    data@,
                    now,
                ),
                Err(e) => r matches Err(f) && f.kind == e.kind && f.message@ == e.message@
                    && final(self)@ == old(self)@.after_failure(e.message@),
            },
    {
        match reading {
            Ok(data) => {
                let cached_data = CachedData { data, cached_at: now };
                self.cache.insert(String::from_str(location), cached_data);
                self.stats.total_updates = self.stats.total_updates + 1;
                self.stats.successful_fetches = self.stats.successful_fetches + 1;
                self.stats.last_update_time = Some(now);
                self.stats.last_error = None;
                Ok(())
            },
            Err(e) => {
                self.record_failure(&e);
                Err(e)
            },
        }
    }

    /// The second step of a fetch: reads what came of the outbound call
    /// and takes it in, as [`Oracle::take_reading`] does. Whether
    /// ingestion was paused in the meantime is not asked. `None` means
    /// that a counter which this would raise is full: then nothing is
    /// taken in.
    pub fn fetch_and_cache_data(
        &mut self,
        location: &str,
        outcome: FetchOutcome,
        now: u64,
    ) -> (r: Option<Result<(), OracleError>>)
        ensures
            r is Some <==> old(self)@.can_take(outcome_reading(outcome, location@, now) is Ok),
            final(self)@ == if r is Some {
                old(self)@.after_fetch(location@, outcome_reading(outcome, location@, now), now)
            } else {
                old(self)@
            },
            r matches Some(result) ==> is_fetch_result(
                result,
                outcome_reading(outcome, location@, now),
            ),
    {
        let reading = reading_of_outcome(outcome, location, now);
        if !self.can_take(reading.is_ok()) {
            return None;
        }
        Some(self.take_reading(location, reading, now))
    }

    /// The sites that a sweep of the timer refreshes: every site in the
    /// cache, each once.
    pub fn update_all_cached_locations(&self) -> (r: Vec<String>)
        ensures
            location_views(r@).no_duplicates(),
            forall|key: Seq<char>|
                location_views(r@).contains(key) <==> self@.cache.contains_key(key),
    {
        self.cache.locations()
    }

    /// The first step of refreshing one site during a sweep. While
    /// ingestion is paused the site is skipped, which is recorded as a
    /// failure and needs room in the failure counter; else the request to
    /// send comes back. Either way the sweep goes on with the next site.
    pub fn sweep_begin(&mut self, location: &str) -> (r: Option<OutboundRequest>)
        requires
            old(self)@.config.is_paused ==> old(self)@.can_record_failure(),
        ensures
            match r {
                Some(request) => !old(self)@.config.is_paused && is_provider_request(
                    request,
                    old(self)@.config.usgs_base_url,
                    location@,
                ) && final(self)@ == old(self)@,
                None => old(self)@.config.is_paused && final(self)@ == old(self)@.after_failure(
                    oracle_message(OracleErrorKind::Paused, Seq::empty()),
                ),
            },
    {
        match self.begin_fetch(location) {
            Ok(request) => Some(request),
            Err(e) => {
                self.record_failure(&e);
                None
            },
        }
    }

    /// The second step of refreshing one site during a sweep: reads what
    /// came of the outbound call and takes it in, as
    /// [`Oracle::take_reading`] does, and records a failure once more, as
    /// the sweep's own. The sweep goes on with the next site. `false`
    /// means that a counter which this would raise is full: then nothing
    /// is taken in.
    pub fn sweep_finish(&mut self, location: &str, outcome: FetchOutcome, now: u64) -> (r: bool)
        ensures
            r == old(self)@.can_take_in_sweep(outcome_reading(outcome, location@, now) is Ok),
            final(self)@ == if r {
                match outcome_reading(outcome, location@, now) {
                    Ok(data) => old(self)@.after_fetch_success(location@, data, now),
                    Err(failure) => old(self)@.after_failure(
                        oracle_message(failure.0, failure.1),
                    ).after_failure(oracle_message(failure.0, failure.1)),
                }
            } else {
                old(self)@
            },
    {
        let reading = reading_of_outcome(outcome, location, now);
        if !self.can_take_in_sweep(reading.is_ok()) {
            return false;
        }
        if let Err(e) = self.take_reading(location, reading, now) {
            self.record_failure(&e);
        }
        true
    }

    /// The latest reading of a site.
    pub fn get_latest_data(&self, location: &String) -> (r: Result<FloodData, OracleError>)
        ensures
            match r {
                Ok(data) => self@.cache.contains_key(location@) && data@
                    == self@.cache[location@].data,
                Err(e) => !self@.cache.contains_key(location@) && e.says(
                    OracleErrorKind::NotFound,
                    location@,
                ),
            },
    {
        match self.cache.get(location) {
            Some(cached) => Ok(cached.data.clone()),
            None => Err(OracleError::new(OracleErrorKind::NotFound, location.as_str())),
        }
    }

    /// The cached reading of a site, with the time at which it was cached.
    pub fn get_cached_data(&self, location: &String) -> (r: Option<CachedData>)
        ensures
            r is Some <==> self@.cache.contains_key(location@),
            r matches Some(cached) ==> cached@ == self@.cache[location@],
    {
        match self.cache.get(location) {
            Some(cached) => Some(cached.clone()),
            None => None,
        }
    }

    /// The keys of the sites in the cache, each once.
    pub fn get_all_cached_locations(&self) -> (r: Vec<String>)
        ensures
            location_views(r@).no_duplicates(),
            forall|key: Seq<char>|
                location_views(r@).contains(key) <==> self@.cache.contains_key(key),
            r@.len() == self@.cache.dom().len(),
    {
        self.cache.locations()
    }

    /// The counters, the sites in the cache, and the pause flag and
    /// interval of the configuration.
    pub fn get_status(&self) -> (r: OracleStatus)
        ensures
            r.total_updates == self@.stats.total_updates,
            r.last_update_time == self@.stats.last_update_time,
            match r.last_error {
                Some(message) => self@.stats.last_error == Some(message@),
                None => self@.stats.last_error is None,
            },
            location_views(r.cached_locations@).no_duplicates(),
            forall|key: Seq<char>|
                location_views(r.cached_locations@).contains(key) <==> self@.cache.contains_key(
                    key,
                ),
            r.is_paused == self@.config.is_paused,
            r.update_interval_seconds == self@.config.update_interval_seconds,
    {
        OracleStatus {
            total_updates: self.stats.total_updates,
            last_update_time: self.stats.last_update_time,
            last_error: match &self.stats.last_error {
                Some(message) => Some(message.clone()),
                None => None,
            },
            cached_locations: self.cache.locations(),
            is_paused: self.config.is_paused,
            update_interval_seconds: self.config.update_interval_seconds,
        }
    }

    /// The interval of the live timer, in seconds, or `None` while no
    /// timer is live.
    pub fn live_timer(&self) -> (r: Option<u64>)
        ensures
            r == self@.timer,
    {
        self.timer
    }

    /// The counters.
    pub fn get_stats(&self) -> (r: OracleStats)
        ensures
            r@ == self@.stats,
    {
        self.stats.clone()
    }

    /// The configuration.
    pub fn get_configuration(&self) -> (r: OracleConfig)
        ensures
            r@ == self@.config,
    {
        self.config.clone()
    }

    /// The first step of an update on request: refused to a caller who
    /// may not operate ingestion, and while ingestion is paused; else the
    /// request to send.
    pub fn manual_update(&self, caller: &Caller, location: &str) -> (r: Result<
        OutboundRequest,
        OracleError,
    >)
        ensures
            match r {
                Ok(request) => self@.update_refusal(caller.identity@, caller.is_controller)
                    is None && is_provider_request(
                    request,
                    self@.config.usgs_base_url,
                    location@,
                ),
                Err(e) => self@.update_refusal(caller.identity@, caller.is_controller)
                    matches Some(kind) && e.says(kind, Seq::empty()),
            },
    {
        match self.require_authorized(caller) {
            Ok(()) => self.begin_fetch(location),
            Err(e) => Err(e),
        }
    }

    /// The second step of an update: reads what came of the outbound call
    /// and takes it in, as [`Oracle::fetch_and_cache_data`] does, and
    /// answers with the reading that is then the site's latest. `None`
    /// means that a counter which this would raise is full: then nothing
    /// is taken in.
    pub fn finish_update(
        &mut self,
        location: &String,
        outcome: FetchOutcome,
        now: u64,
    ) -> (r: Option<Result<FloodData, OracleError>>)
        ensures
            r is Some <==> old(self)@.can_take(outcome_reading(outcome, location@, now) is Ok),
            final(self)@ == if r is Some {
                old(self)@.after_fetch(location@, outcome_reading(outcome, location@, now), now)
            } else {
                old(self)@
            },
            r matches Some(result) ==> is_reading_result(
                result,
                outcome_reading(outcome, location@, now),
            ),
    {
        match self.fetch_and_cache_data(location.as_str(), outcome, now) {
            None => None,
            Some(Ok(())) => Some(self.get_latest_data(location)),
            Some(Err(e)) => Some(Err(e)),
        }
    }

    /// The start of a batch of updates. A caller who may not operate
    /// ingestion gets the refusal for every site; for any other caller the
    /// sites are to be fetched one by one, each with
    /// [`Oracle::begin_fetch`] and [`Oracle::finish_update`].
    pub fn batch_update(&self, caller: &Caller, locations: Vec<String>) -> (r: BatchPlan)
        ensures
            match r {
                BatchPlan::Fetch(sites) => self@.authorizes(
                    caller.identity@,
                    caller.is_controller,
                ) && sites == locations,
                BatchPlan::Rejected(answers) => !self@.authorizes(
                    caller.identity@,
                    caller.is_controller,
                ) && answers@.len() == locations@.len() && forall|i: int|
                    0 <= i < answers@.len() ==> (#[trigger] answers@[i]).0@ == locations@[i]@
                        && answers@[i].1.says(OracleErrorKind::Unauthorized, Seq::empty()),
            },
    {
        match self.require_authorized(caller) {
            Ok(()) => BatchPlan::Fetch(locations),
            Err(e) => {
                let mut answers: Vec<(String, OracleError)> = Vec::new();
                let mut i: usize = 0;
                while i < locations.len()
                    invariant
                        i <= locations.len(),
                        answers@.len() == i,
                        e.says(OracleErrorKind::Unauthorized, Seq::empty()),
                        forall|j: int|
                            0 <= j < i ==> (#[trigger] answers@[j]).0@ == locations@[j]@
                                && answers@[j].1.says(OracleErrorKind::Unauthorized, Seq::empty()),
                    decreases locations.len() - i,
                {
                    answers.push((locations[i].clone(), e.clone()));
                    i = i + 1;
                }
                BatchPlan::Rejected(answers)
            },
        }
    }
}

impl OracleView {
    /// Whether a configuration may replace the current one.
    pub open spec fn accepts_interval(seconds: u64) -> bool {
        seconds >= MIN_UPDATE_INTERVAL_SECONDS
    }

    /// The oracle after `set_paused`: pausing leaves no timer live,
    /// resuming starts one at the configured interval.
    pub open spec fn after_set_paused(self, paused: bool) -> OracleView {
        OracleView {
            config: OracleConfigView { is_paused: paused, ..self.config },
            timer: if paused {
                None
            } else {
                Some(self.config.update_interval_seconds)
            },
            ..self
        }
    }

    /// The oracle after a configuration replaced the current one: the
    /// timer runs at the new interval.
    pub open spec fn after_update_configuration(self, config: OracleConfigView) -> OracleView {
        OracleView { config, timer: Some(config.update_interval_seconds), ..self }
    }
}

/// What is said when a principal was added to the list.
pub open spec fn added_message(principal: Seq<u8>) -> Seq<char> {
    "Principal "@ + principal_text_of(principal) + " added to authorized list"@
}

/// What is said when a principal was removed from the list.
pub open spec fn removed_message(principal: Seq<u8>) -> Seq<char> {
    "Principal "@ + principal_text_of(principal) + " removed from authorized list"@
}

/// What is said when the cache was cleared of `count` entries.
pub open spec fn cleared_message(count: nat) -> Seq<char> {
    "Cleared "@ + decimal_text(count) + " cached entries"@
}

impl Oracle {
    /// Replaces the configuration and restarts the timer at the new
    /// interval. Refused to a caller who may not operate ingestion, and
    /// for an interval below one minute.
    pub fn update_configuration(&mut self, caller: &Caller, new_config: OracleConfig) -> (r: Result<
        (String, TimerCommand),
        OracleError,
    >)
        ensures
            match r {
                Ok((message, command)) => {
                    &&& old(self)@.authorizes(caller.identity@, caller.is_controller)
                    &&& OracleView::accepts_interval(new_config.update_interval_seconds)
                    &&& message@ == "Configuration updated successfully"@
                    &&& command == (TimerCommand::Restart {
                        interval_seconds: new_config.update_interval_seconds,
                    })
                    &&& final(self)@ == old(self)@.after_update_configuration(new_config@)
                },
                Err(e) => {
                    &&& final(self)@ == old(self)@
                    &&& if !old(self)@.authorizes(caller.identity@, caller.is_controller) {
                        e.says(OracleErrorKind::Unauthorized, Seq::empty())
                    } else {
                        !OracleView::accepts_interval(new_config.update_interval_seconds)
                            && e.says(OracleErrorKind::IntervalTooShort, Seq::empty())
                    }
                },
            },
    {
        if let Err(e) = self.require_authorized(caller) {
            return Err(e);
        }
        if new_config.update_interval_seconds < MIN_UPDATE_INTERVAL_SECONDS {
            return Err(OracleError::new(OracleErrorKind::IntervalTooShort, ""));
        }
        self.config = new_config;
        let command = self.start_update_timer();
        Ok((String::from_str("Configuration updated successfully"), command))
    }

    /// Pauses or resumes ingestion. Pausing cancels the timer; resuming
    /// starts it at the configured interval. Refused to a caller who may
    /// not operate ingestion.
    pub fn set_paused(&mut self, caller: &Caller, paused: bool) -> (r: Result<
        (String, TimerCommand),
        OracleError,
    >)
        ensures
            match r {
                Ok((message, command)) => {
                    &&& old(self)@.authorizes(caller.identity@, caller.is_controller)
                    &&& final(self)@ == old(self)@.after_set_paused(paused)
                    &&& if paused {
                        message@ == "Oracle paused"@ && command == TimerCommand::Cancel
                    } else {
                        message@ == "Oracle unpaused"@ && command == (TimerCommand::Restart {
                            interval_seconds: old(self)@.config.update_interval_seconds,
                        })
                    }
                },
                Err(e) => {
                    &&& !old(self)@.authorizes(caller.identity@, caller.is_controller)
                    &&& e.says(OracleErrorKind::Unauthorized, Seq::empty())
                    &&& final(self)@ == old(self)@
                },
            },
    {
        if let Err(e) = self.require_authorized(caller) {
            return Err(e);
        }
        self.config.is_paused = paused;
        if paused {
            self.timer = None;
            Ok((String::from_str("Oracle paused"), TimerCommand::Cancel))
        } else {
            let command = self.start_update_timer();
            Ok((String::from_str("Oracle unpaused"), command))
        }
    }

    /// Puts `principal` on the list of those who may operate ingestion.
    /// Refused to a caller who may not, and for a principal that is on
    /// the list already.
    pub fn add_authorized_principal(&mut self, caller: &Caller, principal: Identity) -> (r: Result<
        String,
        OracleError,
    >)
        ensures
            match r {
                Ok(message) => {
                    &&& old(self)@.authorizes(caller.identity@, caller.is_controller)
                    &&& !old(self)@.config.authorized_principals.contains(principal@)
                    &&& message@ == added_message(principal@)
                    &&& final(self)@ == (OracleView {
                        config: OracleConfigView {
                            authorized_principals: old(self)@.config.authorized_principals.push(
                                principal@,
                            ),
                            ..old(self)@.config
                        },
                        ..old(self)@
                    })
                },
                Err(e) => {
                    &&& final(self)@ == old(self)@
                    &&& if !old(self)@.authorizes(caller.identity@, caller.is_controller) {
                        e.says(OracleErrorKind::Unauthorized, Seq::empty())
                    } else {
                        old(self)@.config.authorized_principals.contains(principal@) && e.says(
                            OracleErrorKind::AlreadyAuthorized,
                            Seq::empty(),
                        )
                    }
                },
            },
    {
        if let Err(e) = self.require_authorized(caller) {
            return Err(e);
        }
        let text = principal.to_text();
        if allow_list_add(&mut self.config.authorized_principals, principal) {
            let mut message = String::from_str("Principal ");
            message.append(text.as_str());
            message.append(" added to authorized list");
            Ok(message)
        } else {
            Err(OracleError::new(OracleErrorKind::AlreadyAuthorized, ""))
        }
    }

    /// Takes `principal` off the list of those who may operate ingestion.
    /// Refused to a caller who may not.
    pub fn remove_authorized_principal(
        &mut self,
        caller: &Caller,
        principal: &Identity,
    ) -> (r: Result<String, OracleError>)
        ensures
            match r {
                Ok(message) => {
                    &&& old(self)@.authorizes(caller.identity@, caller.is_controller)
                    &&& message@ == removed_message(principal@)
                    &&& final(self)@ == (OracleView {
                        config: OracleConfigView {
                            authorized_principals: old(self)@.config.authorized_principals.filter(
                                |id: Seq<u8>| id != principal@,
                            ),
                            ..old(self)@.config
                        },
                        ..old(self)@
                    })
                },
                Err(e) => {
                    &&& !old(self)@.authorizes(caller.identity@, caller.is_controller)
                    &&& e.says(OracleErrorKind::Unauthorized, Seq::empty())
                    &&& final(self)@ == old(self)@
                },
            },
    {
        if let Err(e) = self.require_authorized(caller) {
            return Err(e);
        }
        allow_list_remove(&mut self.config.authorized_principals, principal);
        let mut message = String::from_str("Principal ");
        message.append(principal.to_text().as_str());
        message.append(" removed from authorized list");
        Ok(message)
    }

    /// Empties the cache, and says how many entries it held. Refused to a
    /// caller who may not operate ingestion.
    pub fn clear_cache(&mut self, caller: &Caller) -> (r: Result<String, OracleError>)
        ensures
            match r {
                Ok(message) => {
                    &&& old(self)@.authorizes(caller.identity@, caller.is_controller)
                    &&& message@ == cleared_message(old(self)@.cache.dom().len())
                    &&& final(self)@ == (OracleView { cache: Map::empty(), ..old(self)@ })
                },
                Err(e) => {
                    &&& !old(self)@.authorizes(caller.identity@, caller.is_controller)
                    &&& e.says(OracleErrorKind::Unauthorized, Seq::empty())
                    &&& final(self)@ == old(self)@
                },
            },
    {
        if let Err(e) = self.require_authorized(caller) {
            return Err(e);
        }
        let size = self.cache.len();
        self.cache.clear();
        let mut message = String::from_str("Cleared ");
        push_decimal(&mut message, size as u64);
        message.append(" cached entries");
        Ok(message)
    }
}

/// Whether the refresh interval is at least the minimum.
pub open spec fn interval_in_range(s: OracleView) -> bool {
    s.config.update_interval_seconds >= MIN_UPDATE_INTERVAL_SECONDS
}

/// The refresh interval never falls below one minute: not at set-up,
/// whatever the arguments, and not through a new configuration, a pause,
/// a fetch or a recorded failure.
pub proof fn interval_stays_in_range(
    s: OracleView,
    args: Option<InitArgsView>,
    caller: Seq<u8>,
    config: OracleConfigView,
    paused: bool,
    location: Seq<char>,
    data: FloodDataView,
    now: u64,
    message: Seq<char>,
)
    ensures
        interval_in_range(OracleView::initial(args, caller)),
        OracleView::accepts_interval(config.update_interval_seconds) ==> interval_in_range(
            s.after_update_configuration(config),
        ),
        interval_in_range(s) ==> interval_in_range(s.after_set_paused(paused)),
        interval_in_range(s) ==> interval_in_range(s.after_fetch_success(location, data, now)),
        interval_in_range(s) ==> interval_in_range(s.after_failure(message)),
{
}

/// While a timer is live, it runs at the configured interval: set-up, a
/// new configuration and a resume start it so, and nothing else touches
/// the interval or the timer.
pub open spec fn timer_fits_configuration(s: OracleView) -> bool {
    s.timer matches Some(seconds) ==> seconds == s.config.update_interval_seconds
}

/// See [`timer_fits_configuration`].
pub proof fn timer_always_fits_configuration(
    s: OracleView,
    args: Option<InitArgsView>,
    caller: Seq<u8>,
    config: OracleConfigView,
    paused: bool,
    location: Seq<char>,
    data: FloodDataView,
    now: u64,
    message: Seq<char>,
)
    ensures
        timer_fits_configuration(OracleView::initial(args, caller)),
        timer_fits_configuration(s.after_update_configuration(config)),
        timer_fits_configuration(s.after_set_paused(paused)),
        timer_fits_configuration(s) ==> timer_fits_configuration(
            s.after_fetch_success(location, data, now),
        ),
        timer_fits_configuration(s) ==> timer_fits_configuration(s.after_failure(message)),
{
}

/// A fetch that was in flight when ingestion was paused or resumed is
/// taken in as if the switch had come after it; and taking the same
/// reading in twice leaves the cache as taking it in once.
pub proof fn fetch_in_flight_is_safe(
    s: OracleView,
    paused: bool,
    location: Seq<char>,
    yielded: Result<FloodDataView, (OracleErrorKind, Seq<char>)>,
    now: u64,
)
    ensures
        s.after_set_paused(paused).after_fetch(location, yielded, now) == s.after_fetch(
            location,
            yielded,
            now,
        ).after_set_paused(paused),
        s.after_fetch(location, yielded, now).after_fetch(location, yielded, now).cache
            == s.after_fetch(location, yielded, now).cache,
{
}

/// After a pause, an update on request is refused as paused, whoever
/// asks with the right to; and resuming starts the timer at the interval
/// that was configured before the pause.
pub proof fn pause_then_resume(s: OracleView, identity: Seq<u8>, is_controller: bool)
    ensures
        s.authorizes(identity, is_controller) ==> s.after_set_paused(true).update_refusal(
            identity,
            is_controller,
        ) == Some(OracleErrorKind::Paused),
        s.after_set_paused(true).config.is_paused,
        s.after_set_paused(true).timer is None,
        s.after_set_paused(true).after_set_paused(false).timer == Some(
            s.config.update_interval_seconds,
        ),
        s.after_set_paused(true).after_set_paused(false).config == (OracleConfigView {
            is_paused: false,
            ..s.config
        }),
        s.after_set_paused(true).cache == s.cache,
        s.after_set_paused(true).stats == s.stats,
{
}

} // verus!
