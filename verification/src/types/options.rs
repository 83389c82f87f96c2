//! The options of a client and of a single call.
use core::time::Duration;
use vstd::prelude::*;

verus! {

/// The number of whole milliseconds in a `Duration`, as `Duration::as_millis`
/// gives it.
pub uninterp spec fn millis_of(duration: Duration) -> nat;

/// `Duration::from_millis`: the duration of that many milliseconds.
pub assume_specification[ Duration::from_millis ](millis: u64) -> (r: Duration)
    ensures
        millis_of(r) == millis,
;

/// What a client does once it has lost its connection: `Manual` leaves
/// everything to the caller, `Auto` queues, reconnects and replays by
/// itself.
#[derive(Debug, PartialEq)]
pub enum OfflineMode {
    Manual,
    Auto,
}

/// The options of a client: where the server is, and how the client
/// behaves while it is offline.
#[derive(Debug)]
pub struct KuzzleOptions {
    _auto_queue: bool,
    _auto_reconnect: bool,
    _auto_replay: bool,
    _auto_resubscribe: bool,
    _host: String,
    _port: u32,
    _offline_mode: OfflineMode,
    _queue_max_size: u32,
    _queue_ttl: Duration,
    _reconnection_delay: Duration,
    _replay_interval: Duration,
    _ssl_connection: bool,
}

/// What [`KuzzleOptions`] hold; the three durations in milliseconds.
pub struct OptionsView {
    pub auto_queue: bool,
    pub auto_reconnect: bool,
    pub auto_replay: bool,
    pub auto_resubscribe: bool,
    pub host: Seq<char>,
    pub port: u32,
    pub offline_mode: OfflineMode,
    pub queue_max_size: u32,
    pub queue_ttl: nat,
    pub reconnection_delay: nat,
    pub replay_interval: nat,
    pub ssl_connection: bool,
}

impl OptionsView {
    /// The options of a client of `host` and `port` that was told nothing
    /// else: it reconnects and resubscribes by itself, queues and replays
    /// nothing, keeps at most 500 requests for two minutes, waits a second
    /// before it reconnects and 10 ms between two replays, without SSL.
    pub open spec fn standard(host: Seq<char>, port: u32) -> OptionsView {
        OptionsView {
            auto_queue: false,
            auto_reconnect: true,
            auto_replay: false,
            auto_resubscribe: true,
            host,
            port,
            offline_mode: OfflineMode::Manual,
            queue_max_size: 500,
            queue_ttl: 120000,
            reconnection_delay: 1000,
            replay_interval: 10,
            ssl_connection: false,
        }
    }
}

impl View for KuzzleOptions {
    type V = OptionsView;

    closed spec fn view(&self) -> OptionsView {
        OptionsView {
            auto_queue: self._auto_queue,
            auto_reconnect: self._auto_reconnect,
            auto_replay: self._auto_replay,
            auto_resubscribe: self._auto_resubscribe,
            host: self._host@,
            port: self._port,
            offline_mode: self._offline_mode,
            queue_max_size: self._queue_max_size,
            queue_ttl: millis_of(self._queue_ttl),
            reconnection_delay: millis_of(self._reconnection_delay),
            replay_interval: millis_of(self._replay_interval),
            ssl_connection: self._ssl_connection,
        }
    }
}

impl Default for KuzzleOptions {
    /// The standard options of a client of `localhost`, port 7512.
    fn default() -> (r: KuzzleOptions)
        ensures
            r@ == OptionsView::standard("localhost"@, 7512),
    {
        KuzzleOptions::new("localhost", 7512)
    }
}

impl KuzzleOptions {
    /// The standard options of a client of `host` and `port`.
    pub fn new(host: &str, port: u32) -> (r: KuzzleOptions)
        ensures
            r@ == OptionsView::standard(host@, port),
    {
        KuzzleOptions {
            _auto_queue: false,
            _auto_reconnect: true,
            _auto_replay: false,
            _auto_resubscribe: true,
            _host: host.to_owned(),
            _port: port,
            _offline_mode: OfflineMode::Manual,
            _queue_max_size: 500,
            _queue_ttl: Duration::from_millis(120000),
            _reconnection_delay: Duration::from_millis(1000),
            _replay_interval: Duration::from_millis(10),
            _ssl_connection: false,
        }
    }

    pub fn auto_queue(&self) -> (r: &bool)
        ensures
            *r == self@.auto_queue,
    {
        &self._auto_queue
    }

    pub fn auto_reconnect(&self) -> (r: &bool)
        ensures
            *r == self@.auto_reconnect,
    {
        &self._auto_reconnect
    }

    pub fn auto_replay(&self) -> (r: &bool)
        ensures
            *r == self@.auto_replay,
    {
        &self._auto_replay
    }

    pub fn auto_resubscribe(&self) -> (r: &bool)
        ensures
            *r == self@.auto_resubscribe,
    {
        &self._auto_resubscribe
    }

    pub fn offline_mode(&self) -> (r: &OfflineMode)
        ensures
            *r == self@.offline_mode,
    {
        &self._offline_mode
    }

    pub fn host(&self) -> (r: &String)
        ensures
            r@ == self@.host,
    {
        &self._host
    }

    pub fn port(&self) -> (r: &u32)
        ensures
            *r == self@.port,
    {
        &self._port
    }

    pub fn queue_max_size(&self) -> (r: &u32)
        ensures
            *r == self@.queue_max_size,
    {
        &self._queue_max_size
    }

    pub fn queue_ttl(&self) -> (r: &Duration)
        ensures
            millis_of(*r) == self@.queue_ttl,
    {
        &self._queue_ttl
    }

    pub fn reconnection_delay(&self) -> (r: &Duration)
        ensures
            millis_of(*r) == self@.reconnection_delay,
    {
        &self._reconnection_delay
    }

    pub fn replay_interval(&self) -> (r: &Duration)
        ensures
            millis_of(*r) == self@.replay_interval,
    {
        &self._replay_interval
    }

    pub fn ssl_connection(&self) -> (r: &bool)
        ensures
            *r == self@.ssl_connection,
    {
        &self._ssl_connection
    }

    pub fn set_auto_queue(self, auto_queue: bool) -> (r: KuzzleOptions)
        ensures
            r@ == (OptionsView { auto_queue, ..self@ }),
    {
        let mut options = self;
        options._auto_queue = auto_queue;
        options
    }

    pub fn set_auto_reconnect(self, auto_reconnect: bool) -> (r: KuzzleOptions)
        ensures
            r@ == (OptionsView { auto_reconnect, ..self@ }),
    {
        let mut options = self;
        options._auto_reconnect = auto_reconnect;
        options
    }

    pub fn set_auto_replay(self, auto_replay: bool) -> (r: KuzzleOptions)
        ensures
            r@ == (OptionsView { auto_replay, ..self@ }),
    {
        let mut options = self;
        options._auto_replay = auto_replay;
        options
    }

    pub fn set_auto_resubscribe(self, auto_resubscribe: bool) -> (r: KuzzleOptions)
        ensures
            r@ == (OptionsView { auto_resubscribe, ..self@ }),
    {
        let mut options = self;
        options._auto_resubscribe = auto_resubscribe;
        options
    }

    pub fn set_offline_mode(self, mode: OfflineMode) -> (r: KuzzleOptions)
        ensures
            r@ == (OptionsView { offline_mode: mode, ..self@ }),
    {
        let mut options = self;
        options._offline_mode = mode;
        options
    }

    pub fn set_host(self, host: &str) -> (r: KuzzleOptions)
        ensures
            r@ == (OptionsView { host: host@, ..self@ }),
    {
        let mut options = self;
        options._host = host.to_owned();
        options
    }

    pub fn set_port(self, port: u32) -> (r: KuzzleOptions)
        ensures
            r@ == (OptionsView { port, ..self@ }),
    {
        let mut options = self;
        options._port = port;
        options
    }

    pub fn set_queue_max_size(self, max_size: u32) -> (r: KuzzleOptions)
        ensures
            r@ == (OptionsView { queue_max_size: max_size, ..self@ }),
    {
        let mut options = self;
        options._queue_max_size = max_size;
        options
    }

    /// Sets how long a request stays queued, in milliseconds.
    pub fn set_queue_ttl(self, ttl: u64) -> (r: KuzzleOptions)
        ensures
            r@ == (OptionsView { queue_ttl: ttl as nat, ..self@ }),
    {
        let mut options = self;
        options._queue_ttl = Duration::from_millis(ttl);
        options
    }

    /// Sets how long the client waits before it reconnects, in
    /// milliseconds.
    pub fn set_reconnection_delay(self, delay: u64) -> (r: KuzzleOptions)
        ensures
            r@ == (OptionsView { reconnection_delay: delay as nat, ..self@ }),
    {
        let mut options = self;
        options._reconnection_delay = Duration::from_millis(delay);
        options
    }

    /// Sets how long the client waits between two replayed requests, in
    /// milliseconds.
    pub fn set_replay_interval(self, interval: u64) -> (r: KuzzleOptions)
        ensures
            r@ == (OptionsView { replay_interval: interval as nat, ..self@ }),
    {
        let mut options = self;
        options._replay_interval = Duration::from_millis(interval);
        options
    }

    pub fn set_ssl_connection(self, ssl: bool) -> (r: KuzzleOptions)
        ensures
            r@ == (OptionsView { ssl_connection: ssl, ..self@ }),
    {
        let mut options = self;
        options._ssl_connection = ssl;
        options
    }
}

/// The options of a single call.
pub struct QueryOptions {
    queuable: bool,
}

impl QueryOptions {
    /// The options of a call that may be queued.
    pub fn new() -> (r: QueryOptions)
        ensures
            r.queuable(),
    {
        QueryOptions { queuable: true }
    }

    /// Whether the call may be queued while the client is offline.
    pub closed spec fn is_queuable(&self) -> bool {
        self.queuable
    }

    #[verifier::when_used_as_spec(is_queuable)]
    pub fn queuable(&self) -> (r: bool)
        ensures
            r == self.is_queuable(),
    {
        self.queuable
    }
}

} // verus!
