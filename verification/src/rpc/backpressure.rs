//! Method-specific RPC backpressure for hot paths.
//!
//! Selected RPC methods get a cap on the number of calls in flight. A call
//! over the cap is refused at once: nothing waits, nothing is queued. Each
//! method has its own cap and its own counter, and a cap of zero leaves the
//! method unguarded.

use std::sync::atomic::AtomicUsize;
use std::sync::atomic::Ordering;
use std::sync::Arc;
use vstd::prelude::*;
use crate::text::{parse_usize, parsed_usize, str_eq};

verus! {

/// Error code of a call that is refused because its method is at its cap.
pub const RPC_BACKPRESSURE_OVERLOAD_CODE: i32 = -32005;

/// Error message of a call that is refused because its method is at its
/// cap.
pub const RPC_BACKPRESSURE_OVERLOAD_MESSAGE: &'static str =
    "load-reth RPC overload: method concurrency limit reached";

/// Environment variable with the cap of `eth_sendRawTransaction`.
pub const ENV_SEND_RAW_TX_LIMIT: &'static str = "LOAD_RETH_RPC_SEND_RAW_TX_LIMIT";

/// Environment variable with the cap of `eth_getTransactionCount`.
pub const ENV_GET_TRANSACTION_COUNT_LIMIT: &'static str =
    "LOAD_RETH_RPC_GET_TRANSACTION_COUNT_LIMIT";

/// Environment variable with the cap of `eth_sendRawTransactionSync`.
pub const ENV_SEND_RAW_TX_SYNC_LIMIT: &'static str = "LOAD_RETH_RPC_SEND_RAW_TX_SYNC_LIMIT";

/// Environment variable with the size limit of a batch response, in MiB.
pub const ENV_BATCH_RESPONSE_LIMIT_MB: &'static str = "LOAD_RETH_RPC_BATCH_RESPONSE_LIMIT_MB";

pub const DEFAULT_SEND_RAW_TX_LIMIT: usize = 1024;

pub const DEFAULT_GET_TRANSACTION_COUNT_LIMIT: usize = 2048;

pub const DEFAULT_SEND_RAW_TX_SYNC_LIMIT: usize = 256;

pub const DEFAULT_BATCH_RESPONSE_LIMIT_MB: usize = 200;

/// Bytes in a MiB.
pub const BYTES_PER_MB: usize = 1_048_576;

/// The RPC methods that are guarded.
#[derive(Clone, Copy, Debug, PartialEq, Eq, Structural)]
pub enum GuardedMethod {
    SendRawTransaction,
    GetTransactionCount,
    SendRawTransactionSync,
}

impl GuardedMethod {
    /// The name of the method on the wire.
    pub open spec fn name(self) -> Seq<char> {
        match self {
            GuardedMethod::SendRawTransaction => "eth_sendRawTransaction"@,
            GuardedMethod::GetTransactionCount => "eth_getTransactionCount"@,
            GuardedMethod::SendRawTransactionSync => "eth_sendRawTransactionSync"@,
        }
    }

    /// The guarded method of this name, if there is one.
    pub open spec fn named(method: Seq<char>) -> Option<GuardedMethod> {
        if method == "eth_sendRawTransaction"@ {
            Some(GuardedMethod::SendRawTransaction)
        } else if method == "eth_getTransactionCount"@ {
            Some(GuardedMethod::GetTransactionCount)
        } else if method == "eth_sendRawTransactionSync"@ {
            Some(GuardedMethod::SendRawTransactionSync)
        } else {
            None
        }
    }

    /// The guarded method of this name, if there is one.
    pub fn from_rpc_method(method: &str) -> (r: Option<Self>)
        ensures
            r == Self::named(method@),
    {
        if str_eq(method, "eth_sendRawTransaction") {
            Some(GuardedMethod::SendRawTransaction)
        } else if str_eq(method, "eth_getTransactionCount") {
            Some(GuardedMethod::GetTransactionCount)
        } else if str_eq(method, "eth_sendRawTransactionSync") {
            Some(GuardedMethod::SendRawTransactionSync)
        } else {
            None
        }
    }

    /// The name of the method on the wire.
    pub fn rpc_method_name(self) -> (r: &'static str)
        ensures
            r@ == self.name(),
    {
        match self {
            GuardedMethod::SendRawTransaction => "eth_sendRawTransaction",
            GuardedMethod::GetTransactionCount => "eth_getTransactionCount",
            GuardedMethod::SendRawTransactionSync => "eth_sendRawTransactionSync",
        }
    }
}

/// Every guarded method is found again by its name.
pub proof fn lemma_method_names_round_trip(method: GuardedMethod)
    ensures
        GuardedMethod::named(method.name()) == Some(method),
{
    reveal_strlit("eth_sendRawTransaction");
    reveal_strlit("eth_getTransactionCount");
    reveal_strlit("eth_sendRawTransactionSync");
    assert("eth_sendRawTransaction"@.len() == 22);
    assert("eth_getTransactionCount"@.len() == 23);
    assert("eth_sendRawTransactionSync"@.len() == 26);
}

/// What reading an environment variable gave.
#[derive(Clone, Debug, PartialEq, Eq)]
pub enum EnvValue {
    /// The variable is set to this text.
    Present(String),
    /// The variable is not set.
    NotPresent,
    /// The variable is set to something that is not text.
    NotUnicode,
}

/// The limit that an environment variable asks for: the number it holds,
/// or `default` where it is not set or holds no number.
pub open spec fn env_limit(value: EnvValue, default: usize) -> usize {
    match value {
        EnvValue::Present(text) => match parsed_usize(text@) {
            Some(parsed) => parsed,
            None => default,
        },
        _ => default,
    }
}

/// `mb` MiB in bytes, or `usize::MAX` where that does not fit.
pub open spec fn mb_as_bytes(mb: usize) -> usize {
    if mb * BYTES_PER_MB <= usize::MAX {
        (mb * BYTES_PER_MB) as usize
    } else {
        usize::MAX
    }
}

/// The limit that an environment variable asks for: the number it holds,
/// or `default` where it is not set or holds no number.
pub fn parse_env_limit(value: &EnvValue, default: usize) -> (r: usize)
    ensures
        r == env_limit(*value, default),
{
    match value {
        EnvValue::Present(text) => match parse_usize(text.as_str()) {
            Some(parsed) => parsed,
            None => default,
        },
        EnvValue::NotPresent => default,
        EnvValue::NotUnicode => default,
    }
}

/// The size in bytes that an environment variable asks for in MiB, with
/// `default_mb` where it is not set or holds no number; a size that does
/// not fit becomes the largest there is.
pub fn parse_env_mb_as_bytes(value: &EnvValue, default_mb: usize) -> (r: usize)
    ensures
        r == mb_as_bytes(env_limit(*value, default_mb)),
{
    match parse_env_limit(value, default_mb).checked_mul(BYTES_PER_MB) {
        Some(bytes) => bytes,
        None => usize::MAX,
    }
}

/// The environment variables that configure the guard, as they were read.
#[derive(Clone, Debug, PartialEq, Eq)]
pub struct LoadRpcBackpressureEnv {
    /// `LOAD_RETH_RPC_SEND_RAW_TX_LIMIT`.
    pub send_raw_transaction_limit: EnvValue,
    /// `LOAD_RETH_RPC_GET_TRANSACTION_COUNT_LIMIT`.
    pub get_transaction_count_limit: EnvValue,
    /// `LOAD_RETH_RPC_SEND_RAW_TX_SYNC_LIMIT`.
    pub send_raw_transaction_sync_limit: EnvValue,
    /// `LOAD_RETH_RPC_BATCH_RESPONSE_LIMIT_MB`.
    pub batch_response_limit_mb: EnvValue,
}

/// Env-configurable concurrency limits for guarded RPC methods.
#[derive(Clone, Copy, Debug, PartialEq, Eq, Structural)]
pub struct LoadRpcBackpressureConfig {
    /// Max inflight `eth_sendRawTransaction` requests.
    pub send_raw_transaction_limit: usize,
    /// Max inflight `eth_getTransactionCount` requests.
    pub get_transaction_count_limit: usize,
    /// Max inflight `eth_sendRawTransactionSync` requests.
    pub send_raw_transaction_sync_limit: usize,
    /// Max batch response size used when rebuilding guarded batches (bytes).
    pub batch_response_limit_bytes: usize,
}

impl Default for LoadRpcBackpressureConfig {
    fn default() -> (r: Self)
        ensures
            r == (LoadRpcBackpressureConfig {
                send_raw_transaction_limit: DEFAULT_SEND_RAW_TX_LIMIT,
                get_transaction_count_limit: DEFAULT_GET_TRANSACTION_COUNT_LIMIT,
                send_raw_transaction_sync_limit: DEFAULT_SEND_RAW_TX_SYNC_LIMIT,
                batch_response_limit_bytes: 209_715_200,
            }),
    {
        Self {
            send_raw_transaction_limit: DEFAULT_SEND_RAW_TX_LIMIT,
            get_transaction_count_limit: DEFAULT_GET_TRANSACTION_COUNT_LIMIT,
            send_raw_transaction_sync_limit: DEFAULT_SEND_RAW_TX_SYNC_LIMIT,
            batch_response_limit_bytes: 209_715_200,
        }
    }
}

impl LoadRpcBackpressureConfig {
    /// The limit of a method.
    pub open spec fn limit_of(self, method: GuardedMethod) -> usize {
        match method {
            GuardedMethod::SendRawTransaction => self.send_raw_transaction_limit,
            GuardedMethod::GetTransactionCount => self.get_transaction_count_limit,
            GuardedMethod::SendRawTransactionSync => self.send_raw_transaction_sync_limit,
        }
    }

    /// Loads config from environment variables, falling back to defaults:
    /// each limit is the number that its variable holds, or the default
    /// where the variable is not set or holds no number.
    pub fn from_env(env: &LoadRpcBackpressureEnv) -> (r: Self)
        ensures
            r == (LoadRpcBackpressureConfig {
                send_raw_transaction_limit: env_limit(
                    env.send_raw_transaction_limit,
                    DEFAULT_SEND_RAW_TX_LIMIT,
                ),
                get_transaction_count_limit: env_limit(
                    env.get_transaction_count_limit,
                    DEFAULT_GET_TRANSACTION_COUNT_LIMIT,
                ),
                send_raw_transaction_sync_limit: env_limit(
                    env.send_raw_transaction_sync_limit,
                    DEFAULT_SEND_RAW_TX_SYNC_LIMIT,
                ),
                batch_response_limit_bytes: mb_as_bytes(
                    env_limit(env.batch_response_limit_mb, DEFAULT_BATCH_RESPONSE_LIMIT_MB),
                ),
            }),
    {
        let defaults = Self::default();
        Self {
            send_raw_transaction_limit: parse_env_limit(
                &env.send_raw_transaction_limit,
                defaults.send_raw_transaction_limit,
            ),
            get_transaction_count_limit: parse_env_limit(
                &env.get_transaction_count_limit,
                defaults.get_transaction_count_limit,
            ),
            send_raw_transaction_sync_limit: parse_env_limit(
                &env.send_raw_transaction_sync_limit,
                defaults.send_raw_transaction_sync_limit,
            ),
            batch_response_limit_bytes: parse_env_mb_as_bytes(
                &env.batch_response_limit_mb,
                DEFAULT_BATCH_RESPONSE_LIMIT_MB,
            ),
        }
    }

    /// The limit of a method.
    pub fn limit_for(self, method: GuardedMethod) -> (r: usize)
        ensures
            r == self.limit_of(method),
    {
        match method {
            GuardedMethod::SendRawTransaction => self.send_raw_transaction_limit,
            GuardedMethod::GetTransactionCount => self.get_transaction_count_limit,
            GuardedMethod::SendRawTransactionSync => self.send_raw_transaction_sync_limit,
        }
    }
}

/// The number of calls in flight once one more is admitted while
/// `inflight` are: `None` where the method is at its limit or over it.
pub open spec fn admitted(inflight: usize, limit: usize) -> Option<usize> {
    if inflight >= limit {
        None
    } else {
        Some((inflight + 1) as usize)
    }
}

/// The number of calls in flight once one of `inflight` is done; a counter
/// at zero stays there.
pub open spec fn released(inflight: usize) -> usize {
    if inflight == 0 {
        0
    } else {
        (inflight - 1) as usize
    }
}

/// Decides on one more call while `inflight` are in flight: it is admitted
/// only below the limit, and then the count goes up by one.
pub fn enter_from(inflight: usize, limit: usize) -> (r: Option<usize>)
    ensures
        r == admitted(inflight, limit),
{
    if inflight >= limit {
        None
    } else {
        Some(inflight + 1)
    }
}

/// The count after one call is done.
pub fn release_from(inflight: usize) -> (r: usize)
    ensures
        r == released(inflight),
    opens_invariants none
    no_unwind
{
    if inflight == 0 {
        0
    } else {
        inflight - 1
    }
}

/// Accounting is exact: a call that is admitted takes the count up by one
/// and never past the limit, and its release takes the count back to where
/// it was.
pub proof fn lemma_enter_then_release(inflight: usize, limit: usize)
    ensures
        admitted(inflight, limit) is Some <==> inflight < limit,
        admitted(inflight, limit) matches Some(next) ==> next == inflight + 1 && next <= limit
            && released(next) == inflight,
{
}

/// With limit zero nothing is ever admitted: such a method is left
/// unguarded rather than closed, see `classify_method`.
pub proof fn lemma_zero_limit_admits_nothing(inflight: usize)
    ensures
        admitted(inflight, 0) is None,
{
}

/// The cap of one method and its counter of calls in flight.
#[derive(Debug)]
pub struct MethodGate {
    limit: usize,
    inflight: AtomicUsize,
}

/// `AtomicUsize::fetch_update`: reads the counter, asks `enter_from` for its
/// next value and stores that, anew as long as other threads get in
/// between. Gives back the value it read: as `Ok` where `enter_from` found a
/// next value for it, which was stored, and as `Err` where `enter_from` found
/// none, with the counter untouched.
#[verifier::external_body]
fn fetch_update_enter(inflight: &AtomicUsize, limit: usize) -> (r: Result<usize, usize>)
    ensures
        r matches Ok(previous) ==> admitted(previous, limit) is Some,
        r matches Err(previous) ==> admitted(previous, limit) is None,
{
    inflight.fetch_update(Ordering::AcqRel, Ordering::Relaxed, |current| enter_from(current, limit))
}

/// `AtomicUsize::fetch_sub` by one: takes one off the counter, around to
/// the largest value from zero, and gives the value it had. It never
/// unwinds.
#[verifier::external_body]
fn fetch_sub_one(inflight: &AtomicUsize) -> usize
    opens_invariants none
    no_unwind
{
    inflight.fetch_sub(1, Ordering::AcqRel)
}

/// `AtomicUsize::store` of zero. It never unwinds.
#[verifier::external_body]
fn store_zero(inflight: &AtomicUsize)
    opens_invariants none
    no_unwind
{
    inflight.store(0, Ordering::Release)
}

impl MethodGate {
    /// The most calls that may be in flight.
    pub closed spec fn limit_of(self) -> usize {
        self.limit
    }

    /// A gate with no call in flight.
    pub fn new(limit: usize) -> (r: Self)
        ensures
            r.limit_of() == limit,
    {
        Self { limit, inflight: AtomicUsize::new(0) }
    }

    /// The most calls that may be in flight.
    pub fn limit(&self) -> (r: usize)
        ensures
            r == self.limit_of(),
    {
        self.limit
    }

    /// The number of calls in flight at this moment.
    pub fn inflight(&self) -> usize {
        self.inflight.load(Ordering::Relaxed)
    }

    /// Admits one more call if fewer than the limit are in flight, and
    /// gives the number in flight with it; refuses at once if not.
    pub fn try_enter(&self) -> (r: Option<usize>)
        ensures
            r matches Some(level) ==> 0 < level <= self.limit_of(),
            self.limit_of() == 0 ==> r is None,
    {
        match fetch_update_enter(&self.inflight, self.limit) {
            Ok(previous) => enter_from(previous, self.limit),
            Err(_) => None,
        }
    }

    /// Takes one call out of those in flight, and gives the number left:
    /// one less than the counter held, and zero where it held zero. A
    /// counter that was at zero is put back to zero.
    pub fn leave(&self) -> (r: usize)
        ensures
            exists|previous: usize| r == released(previous),
        opens_invariants none
        no_unwind
    {
        let previous = fetch_sub_one(&self.inflight);
        if previous == 0 {
            store_zero(&self.inflight);
        }
        let left = release_from(previous);
        assert(left == released(previous));
        left
    }
}

/// What a refused call is told beside the error code and message.
#[derive(Clone, Copy, Debug, PartialEq, Eq)]
pub struct OverloadErrorData {
    /// Name of the method that is at its limit.
    pub method: &'static str,
    /// The limit of the method.
    pub limit: usize,
}

/// The error that a refused call is answered with.
#[derive(Clone, Copy, Debug, PartialEq, Eq)]
pub struct OverloadError {
    pub code: i32,
    pub message: &'static str,
    pub data: OverloadErrorData,
}

/// The gates of all guarded methods.
#[derive(Debug)]
pub struct LoadRpcBackpressureState {
    config: LoadRpcBackpressureConfig,
    send_raw_transaction: MethodGate,
    get_transaction_count: MethodGate,
    send_raw_transaction_sync: MethodGate,
}

/// A call in flight. Dropping the permit releases its place, on whatever
/// path the call ends.
#[derive(Debug)]
pub struct InflightPermit {
    state: Arc<LoadRpcBackpressureState>,
    method: GuardedMethod,
    level: usize,
}

/// `Arc::clone`: one more handle on the same value.
#[verifier::external_body]
fn share(state: &Arc<LoadRpcBackpressureState>) -> (r: Arc<LoadRpcBackpressureState>)
    ensures
        *r == **state,
{
    Arc::clone(state)
}

impl LoadRpcBackpressureState {
    #[verifier::type_invariant]
    spec fn well_formed(self) -> bool {
        &&& self.send_raw_transaction.limit_of() == self.config.send_raw_transaction_limit
        &&& self.get_transaction_count.limit_of() == self.config.get_transaction_count_limit
        &&& self.send_raw_transaction_sync.limit_of()
            == self.config.send_raw_transaction_sync_limit
    }

    /// The limits that the gates were made with.
    pub closed spec fn config_of(self) -> LoadRpcBackpressureConfig {
        self.config
    }

    /// Gates for the limits of `config`, with no call in flight.
    pub fn new(config: LoadRpcBackpressureConfig) -> (r: Self)
        ensures
            r.config_of() == config,
    {
        Self {
            config,
            send_raw_transaction: MethodGate::new(config.send_raw_transaction_limit),
            get_transaction_count: MethodGate::new(config.get_transaction_count_limit),
            send_raw_transaction_sync: MethodGate::new(config.send_raw_transaction_sync_limit),
        }
    }

    /// The limits that the gates were made with.
    pub fn config(&self) -> (r: LoadRpcBackpressureConfig)
        ensures
            r == self.config_of(),
    {
        self.config
    }

    /// The guarded method that a call of this name counts against. A
    /// method whose limit is zero is not guarded at all.
    pub open spec fn classified(self, method_name: Seq<char>) -> Option<GuardedMethod> {
        match GuardedMethod::named(method_name) {
            Some(method) => if self.config_of().limit_of(method) > 0 {
                Some(method)
            } else {
                None
            },
            None => None,
        }
    }

    /// The guarded method that a call of this name counts against. A
    /// method whose limit is zero is not guarded at all.
    pub fn classify_method(&self, method_name: &str) -> (r: Option<GuardedMethod>)
        ensures
            r == self.classified(method_name@),
    {
        match GuardedMethod::from_rpc_method(method_name) {
            Some(method) => {
                if self.config.limit_for(method) > 0 {
                    Some(method)
                } else {
                    None
                }
            },
            None => None,
        }
    }

    /// Cap and counter of a method.
    pub fn gate(&self, method: GuardedMethod) -> (r: &MethodGate)
        ensures
            r.limit_of() == self.config_of().limit_of(method),
        opens_invariants none
        no_unwind
    {
        proof {
            use_type_invariant(self);
        }
        match method {
            GuardedMethod::SendRawTransaction => &self.send_raw_transaction,
            GuardedMethod::GetTransactionCount => &self.get_transaction_count,
            GuardedMethod::SendRawTransactionSync => &self.send_raw_transaction_sync,
        }
    }

    /// Admits a call of `method` if fewer than its limit are in flight,
    /// and refuses it at once if not. The permit holds the call's place
    /// until it is dropped.
    pub fn try_acquire(self: &Arc<Self>, method: GuardedMethod) -> (r: Option<InflightPermit>)
        ensures
            r matches Some(permit) ==> {
                &&& permit.method_of() == method
                &&& 0 < permit.level_of() <= self.config_of().limit_of(method)
            },
            self.config_of().limit_of(method) == 0 ==> r is None,
    {
        match self.gate(method).try_enter() {
            Some(level) => Some(InflightPermit { state: share(self), method, level }),
            None => None,
        }
    }

    /// Gives back the place of a call of `method`, and tells the number of
    /// calls left in flight.
    pub fn release(&self, method: GuardedMethod) -> (r: usize)
        ensures
            exists|previous: usize| r == released(previous),
        opens_invariants none
        no_unwind
    {
        self.gate(method).leave()
    }

    /// The error that a refused call of `method` is answered with: the
    /// overload code and message, the name of the method and its limit.
    pub fn overload_response(&self, method: GuardedMethod) -> (r: OverloadError)
        ensures
            r.code == RPC_BACKPRESSURE_OVERLOAD_CODE,
            r.message@ == RPC_BACKPRESSURE_OVERLOAD_MESSAGE@,
            r.data.method@ == method.name(),
            r.data.limit == self.config_of().limit_of(method),
    {
        OverloadError {
            code: RPC_BACKPRESSURE_OVERLOAD_CODE,
            message: RPC_BACKPRESSURE_OVERLOAD_MESSAGE,
            data: OverloadErrorData {
                method: method.rpc_method_name(),
                limit: self.config.limit_for(method),
            },
        }
    }
}

impl InflightPermit {
    /// The method whose place the permit holds.
    pub closed spec fn method_of(self) -> GuardedMethod {
        self.method
    }

    /// The number of calls in flight right after this one was admitted.
    pub closed spec fn level_of(self) -> usize {
        self.level
    }

    /// The method whose place the permit holds.
    pub fn method(&self) -> (r: GuardedMethod)
        ensures
            r == self.method_of(),
    {
        self.method
    }

    /// The number of calls in flight right after this one was admitted.
    pub fn level(&self) -> (r: usize)
        ensures
            r == self.level_of(),
    {
        self.level
    }
}

/// What to do with a call.
#[derive(Debug)]
pub enum CallDecision {
    /// The method is not guarded: hand the call on.
    Forward,
    /// The call is admitted: hand it on, and keep the permit until it is
    /// done.
    Admitted(InflightPermit),
    /// The method is at its limit: answer with the error, and do not hand
    /// the call on.
    Overloaded(OverloadError),
}

/// One entry of a batch.
#[derive(Clone, Debug, PartialEq, Eq)]
pub enum BatchEntry {
    /// A call of the method named.
    Call(String),
    /// A notification.
    Notification,
    /// An entry that could not be read.
    Invalid,
}

/// How a batch is answered.
#[derive(Clone, Copy, Debug, PartialEq, Eq, Structural)]
pub enum BatchReply {
    /// The batch held notifications only: it gets the answer of a
    /// notification.
    Notification,
    /// The answers to its entries, in one batch.
    Batch,
}

/// Whether the entry `i` of a batch is a call of a guarded method.
pub open spec fn is_guarded_entry(
    state: LoadRpcBackpressureState,
    entries: Seq<BatchEntry>,
    i: int,
) -> bool {
    entries[i] matches BatchEntry::Call(name) && state.classified(name@) is Some
}

/// Tower RPC layer that applies method-specific backpressure.
#[derive(Clone, Debug)]
pub struct LoadRpcBackpressureLayer {
    state: Arc<LoadRpcBackpressureState>,
}

/// Service wrapper for RPC backpressure.
#[derive(Clone, Debug)]
pub struct LoadRpcBackpressureService<S> {
    inner: S,
    state: Arc<LoadRpcBackpressureState>,
}

impl LoadRpcBackpressureLayer {
    /// The gates of the layer.
    pub closed spec fn gates(self) -> LoadRpcBackpressureState {
        *self.state
    }

    /// The limits of the layer.
    pub open spec fn config_of(self) -> LoadRpcBackpressureConfig {
        self.gates().config_of()
    }

    /// Creates a new layer from explicit config.
    pub fn new(config: LoadRpcBackpressureConfig) -> (r: Self)
        ensures
            r.config_of() == config,
    {
        Self { state: Arc::new(LoadRpcBackpressureState::new(config)) }
    }

    /// Creates a new layer from the environment variables as they were
    /// read, with defaults where they say nothing.
    pub fn from_env(env: &LoadRpcBackpressureEnv) -> (r: Self)
        ensures
            r.config_of() == (LoadRpcBackpressureConfig {
                send_raw_transaction_limit: env_limit(
                    env.send_raw_transaction_limit,
                    DEFAULT_SEND_RAW_TX_LIMIT,
                ),
                get_transaction_count_limit: env_limit(
                    env.get_transaction_count_limit,
                    DEFAULT_GET_TRANSACTION_COUNT_LIMIT,
                ),
                send_raw_transaction_sync_limit: env_limit(
                    env.send_raw_transaction_sync_limit,
                    DEFAULT_SEND_RAW_TX_SYNC_LIMIT,
                ),
                batch_response_limit_bytes: mb_as_bytes(
                    env_limit(env.batch_response_limit_mb, DEFAULT_BATCH_RESPONSE_LIMIT_MB),
                ),
            }),
    {
        Self::new(LoadRpcBackpressureConfig::from_env(env))
    }

    /// The gates of the layer.
    pub fn state(&self) -> (r: &Arc<LoadRpcBackpressureState>)
        ensures
            **r == self.gates(),
    {
        &self.state
    }

    /// Puts the layer in front of `inner`. All services of one layer share
    /// its gates.
    pub fn layer<S>(&self, inner: S) -> (r: LoadRpcBackpressureService<S>)
        ensures
            r.gates() == self.gates(),
            r.inner_of() == inner,
    {
        LoadRpcBackpressureService { inner, state: share(&self.state) }
    }
}

impl<S> LoadRpcBackpressureService<S> {
    /// The gates of the service.
    pub closed spec fn gates(self) -> LoadRpcBackpressureState {
        *self.state
    }

    /// The limits of the service.
    pub open spec fn config_of(self) -> LoadRpcBackpressureConfig {
        self.gates().config_of()
    }

    /// The service behind the guard.
    pub closed spec fn inner_of(self) -> S {
        self.inner
    }

    /// The service behind the guard.
    pub fn inner(&self) -> (r: &S)
        ensures
            *r == self.inner_of(),
    {
        &self.inner
    }

    /// The gates of the service.
    pub fn state(&self) -> (r: &Arc<LoadRpcBackpressureState>)
        ensures
            **r == self.gates(),
    {
        &self.state
    }

    /// Decides on a call of the method named: a call of an unguarded
    /// method is handed on; a call of a guarded method is admitted while
    /// fewer than its limit are in flight, and is else answered with the
    /// overload error, which names the method and its limit.
    pub fn call(&self, method_name: &str) -> (r: CallDecision)
        ensures
            match r {
                CallDecision::Forward => self.gates().classified(method_name@) is None,
                CallDecision::Admitted(permit) => {
                    &&& self.gates().classified(method_name@) == Some(permit.method_of())
                    &&& 0 < permit.level_of() <= self.config_of().limit_of(permit.method_of())
                },
                CallDecision::Overloaded(error) => {
                    &&& self.gates().classified(method_name@) matches Some(method)
                        && error.data.method@ == method.name() && error.data.limit
                        == self.config_of().limit_of(method)
                    &&& error.code == RPC_BACKPRESSURE_OVERLOAD_CODE
                    &&& error.message@ == RPC_BACKPRESSURE_OVERLOAD_MESSAGE@
                },
            },
    {
        match self.state.classify_method(method_name) {
            Some(method) => {
                match self.state.try_acquire(method) {
                    Some(permit) => CallDecision::Admitted(permit),
                    None => CallDecision::Overloaded(self.state.overload_response(method)),
                }
            },
            None => CallDecision::Forward,
        }
    }

    /// Whether a batch holds a call of a guarded method. A batch that
    /// holds none is handed on as it is; in any other each call is decided
    /// on by itself.
    pub fn has_guarded_call(&self, entries: &Vec<BatchEntry>) -> (r: bool)
        ensures
            r == exists|i: int|
                0 <= i < entries@.len() && is_guarded_entry(self.gates(), entries@, i),
    {
        let mut i: usize = 0;
        while i < entries.len()
            invariant
                i <= entries@.len(),
                forall|j: int| 0 <= j < i ==> !is_guarded_entry(self.gates(), entries@, j),
            decreases entries@.len() - i,
        {
            if let BatchEntry::Call(name) = &entries[i] {
                if self.state.classify_method(name.as_str()).is_some() {
                    assert(is_guarded_entry(self.gates(), entries@, i as int));
                    return true;
                }
            }
            i += 1;
        }
        false
    }

    /// The size limit, in bytes, of the answer to a batch that is taken
    /// apart.
    pub fn batch_response_limit(&self) -> (r: usize)
        ensures
            r == self.config_of().batch_response_limit_bytes,
    {
        self.state.config().batch_response_limit_bytes
    }

    /// How a batch that was taken apart is answered: as a notification
    /// where it gave no answer and held a notification, else with the
    /// answers it gave.
    pub fn batch_reply(&self, no_responses: bool, got_notification: bool) -> (r: BatchReply)
        ensures
            r == (if no_responses && got_notification {
                BatchReply::Notification
            } else {
                BatchReply::Batch
            }),
    {
        if no_responses && got_notification {
            BatchReply::Notification
        } else {
            BatchReply::Batch
        }
    }
}

impl Drop for InflightPermit {
    fn drop(&mut self)
        opens_invariants none
        no_unwind
    {
        let _ = self.state.release(self.method);
    }
}

} // verus!
