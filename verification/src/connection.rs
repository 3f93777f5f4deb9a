//! The shared QUIC client connection: configuration, the reconnect backoff
//! schedule, and the lifecycle of the mutex-guarded connection slot.
//!
//! The slot itself is an asynchronous object owned by the shell; `SlotModel`
//! is its state, consulted and advanced under the slot's mutex at every
//! decision point: whether a connection must be established before a stream
//! can be opened, when an attempt may begin, and what an `open_bi` outcome
//! does to the cache.

use vstd::prelude::*;

use crate::config::CongestionController;
use crate::TunnelError;
use crate::DEFAULT_KEEP_ALIVE_INTERVAL_MS;
use crate::DEFAULT_MAX_CONCURRENT_BIDI_STREAMS;
use crate::DEFAULT_MAX_IDLE_TIMEOUT;

verus! {

/// The per-attempt reconnect delays, in ms; every attempt past the end of
/// the schedule waits the final entry again.
pub const CONNECT_DELAY_MS: [u64; 7] = [50, 75, 100, 250, 500, 750, 1000];

/// The delay slept after the failed connect attempt of the given number,
/// counting from zero: the schedule entry, capped at its last value.
pub open spec fn spec_backoff_delay_ms(attempt: nat) -> u64 {
    if attempt == 0 {
        50
    } else if attempt == 1 {
        75
    } else if attempt == 2 {
        100
    } else if attempt == 3 {
        250
    } else if attempt == 4 {
        500
    } else if attempt == 5 {
        750
    } else {
        1000
    }
}

/// The delay to sleep after a failed connect attempt, by attempt number.
/// Bounded: no attempt ever waits more than a second.
pub fn backoff_delay_ms(attempt: u64) -> (d: u64)
    ensures
        d == spec_backoff_delay_ms(attempt as nat),
        50 <= d <= 1000,
{
    if attempt < 7 {
        CONNECT_DELAY_MS[attempt as usize]
    } else {
        1000
    }
}

/// Law: the reconnect backoff is bounded by the last schedule entry, so a
/// client started before its server keeps retrying with at most a second
/// between attempts.
pub proof fn lemma_backoff_bounded(attempt: nat)
    ensures
        50 <= spec_backoff_delay_ms(attempt) <= 1000,
{
}

/// A set of trust anchors.
#[verifier::external_type_specification]
#[verifier::external_body]
pub struct ExRootCertStore(rustls::RootCertStore);

/// Configuration for outgoing QUIC connections.
#[verifier::external_type_specification]
#[verifier::external_body]
pub struct ExClientConfig(quinn::ClientConfig);

/// Transport-level QUIC parameters.
#[verifier::external_type_specification]
#[verifier::external_body]
pub struct ExTransportConfig(quinn::TransportConfig);

/// Whether these DER bytes parse as a certificate that the root store
/// accepts as a trust anchor: a function of the bytes alone.
pub uninterp spec fn root_cert_ok(der: Seq<u8>) -> bool;

/// Relies on rustls::RootCertStore::empty: a store with no trust anchors.
#[verifier::external_body]
fn new_root_store() -> rustls::RootCertStore {
    rustls::RootCertStore::empty()
}

/// Relies on rustls::RootCertStore::add: it parses the DER certificate and
/// adds it as a trust anchor. Whether it succeeds is decided by the
/// certificate bytes alone, never by the store's prior contents.
#[verifier::external_body]
fn add_root_cert(store: &mut rustls::RootCertStore, cert_der: &[u8]) -> (r: Result<
    (),
    std::io::Error,
>)
    ensures
        r is Ok <==> root_cert_ok(cert_der@),
{
    store
        .add(&rustls::Certificate(cert_der.to_vec()))
        .map_err(|e| std::io::Error::new(std::io::ErrorKind::Other, format!("add cert fail {e:?}")))
}

/// Relies on quinn::ClientConfig::with_root_certificates: a client config
/// that trusts exactly the given anchors.
#[verifier::external_body]
fn client_config_with_roots(roots: rustls::RootCertStore) -> quinn::ClientConfig {
    quinn::ClientConfig::with_root_certificates(roots)
}

/// Relies on quinn::TransportConfig::default: the library's default
/// transport tuning.
#[verifier::external_body]
fn default_transport_config() -> quinn::TransportConfig {
    quinn::TransportConfig::default()
}

/// The transport parameters this library tunes, as plain values.
#[derive(Debug, Clone, Copy, PartialEq, Eq, Structural)]
pub struct TransportTuning {
    pub keep_alive_ms: u64,
    pub max_idle_ms: u32,
    pub max_bidi_streams: u32,
    pub congestion: CongestionController,
}

/// The tuning both daemons install: keep-alive every 10 s, a 30 s max idle
/// timeout, 2048 concurrent bidirectional streams, and the chosen
/// congestion controller.
pub open spec fn spec_tuned(cc: CongestionController) -> TransportTuning {
    TransportTuning {
        keep_alive_ms: DEFAULT_KEEP_ALIVE_INTERVAL_MS,
        max_idle_ms: DEFAULT_MAX_IDLE_TIMEOUT,
        max_bidi_streams: DEFAULT_MAX_CONCURRENT_BIDI_STREAMS,
        congestion: cc,
    }
}

/// An opaque transport configuration beside the record of what has been
/// set on it. Each setter wrapper's contract keeps the record true of the
/// configuration object, so the record is trusted exactly as far as the
/// wrappers are.
pub struct TransportConfigModel {
    pub config: quinn::TransportConfig,
    /// The keep-alive interval installed on `config`, once set.
    pub keep_alive_ms: Ghost<Option<u64>>,
    /// The max idle timeout installed on `config`, once set.
    pub max_idle_ms: Ghost<Option<u32>>,
    /// The concurrent-bidirectional-streams bound installed on `config`,
    /// once set.
    pub max_bidi_streams: Ghost<Option<u32>>,
    /// The congestion controller installed on `config`, once set.
    pub congestion: Ghost<Option<CongestionController>>,
}

/// Relies on quinn::TransportConfig::keep_alive_interval: sets the
/// keep-alive period on the model's configuration to the given number of
/// milliseconds, which the record mirrors.
#[verifier::external_body]
fn set_keep_alive_interval(t: &mut TransportConfigModel, ms: u64)
    ensures
        final(t).keep_alive_ms@ == Some(ms),
        final(t).max_idle_ms@ == old(t).max_idle_ms@,
        final(t).max_bidi_streams@ == old(t).max_bidi_streams@,
        final(t).congestion@ == old(t).congestion@,
{
    t.config.keep_alive_interval(Some(std::time::Duration::from_millis(ms)));
}

/// Relies on quinn::TransportConfig::max_concurrent_bidi_streams: sets how
/// many bidirectional streams the peer may hold open at once on the
/// model's configuration, which the record mirrors.
#[verifier::external_body]
fn set_max_concurrent_bidi_streams(t: &mut TransportConfigModel, n: u32)
    ensures
        final(t).max_bidi_streams@ == Some(n),
        final(t).keep_alive_ms@ == old(t).keep_alive_ms@,
        final(t).max_idle_ms@ == old(t).max_idle_ms@,
        final(t).congestion@ == old(t).congestion@,
{
    t.config.max_concurrent_bidi_streams(quinn::VarInt::from_u32(n));
}

/// Relies on quinn::TransportConfig::max_idle_timeout: sets the idle
/// timeout, in milliseconds, after which the connection is abandoned, on
/// the model's configuration, which the record mirrors.
#[verifier::external_body]
fn set_max_idle_timeout(t: &mut TransportConfigModel, ms: u32)
    ensures
        final(t).max_idle_ms@ == Some(ms),
        final(t).keep_alive_ms@ == old(t).keep_alive_ms@,
        final(t).max_bidi_streams@ == old(t).max_bidi_streams@,
        final(t).congestion@ == old(t).congestion@,
{
    t.config.max_idle_timeout(Some(quinn::VarInt::from_u32(ms).into()));
}

/// Relies on quinn::TransportConfig::congestion_controller_factory, handed
/// the default BBR configuration; the record mirrors the choice.
#[verifier::external_body]
fn set_congestion_bbr(t: &mut TransportConfigModel)
    ensures
        final(t).congestion@ == Some(CongestionController::Bbr),
        final(t).keep_alive_ms@ == old(t).keep_alive_ms@,
        final(t).max_idle_ms@ == old(t).max_idle_ms@,
        final(t).max_bidi_streams@ == old(t).max_bidi_streams@,
{
    t.config.congestion_controller_factory(std::sync::Arc::new(
        quinn::congestion::BbrConfig::default(),
    ));
}

/// Relies on quinn::TransportConfig::congestion_controller_factory, handed
/// the default CUBIC configuration; the record mirrors the choice.
#[verifier::external_body]
fn set_congestion_cubic(t: &mut TransportConfigModel)
    ensures
        final(t).congestion@ == Some(CongestionController::Cubic),
        final(t).keep_alive_ms@ == old(t).keep_alive_ms@,
        final(t).max_idle_ms@ == old(t).max_idle_ms@,
        final(t).max_bidi_streams@ == old(t).max_bidi_streams@,
{
    t.config.congestion_controller_factory(std::sync::Arc::new(
        quinn::congestion::CubicConfig::default(),
    ));
}

/// Relies on quinn::TransportConfig::congestion_controller_factory, handed
/// the default NewReno configuration; the record mirrors the choice.
#[verifier::external_body]
fn set_congestion_new_reno(t: &mut TransportConfigModel)
    ensures
        final(t).congestion@ == Some(CongestionController::NewReno),
        final(t).keep_alive_ms@ == old(t).keep_alive_ms@,
        final(t).max_idle_ms@ == old(t).max_idle_ms@,
        final(t).max_bidi_streams@ == old(t).max_bidi_streams@,
{
    t.config.congestion_controller_factory(std::sync::Arc::new(
        quinn::congestion::NewRenoConfig::default(),
    ));
}

/// Relies on the public `transport` field of quinn::ClientConfig: installs
/// the model's configuration object, the one its record describes.
#[verifier::external_body]
fn set_client_transport(cc: &mut quinn::ClientConfig, t: TransportConfigModel) {
    cc.transport = std::sync::Arc::new(t.config);
}

/// The transport configuration both daemons use, with its record showing
/// the tuning of `spec_tuned`: keep-alive every 10 s, 30 s max idle, 2048
/// concurrent bidirectional streams, and the chosen congestion controller.
pub(crate) fn tuned_transport_config(cc: &CongestionController) -> (t: TransportConfigModel)
    ensures
        t.keep_alive_ms@ == Some(spec_tuned(*cc).keep_alive_ms),
        t.max_idle_ms@ == Some(spec_tuned(*cc).max_idle_ms),
        t.max_bidi_streams@ == Some(spec_tuned(*cc).max_bidi_streams),
        t.congestion@ == Some(spec_tuned(*cc).congestion),
{
    let mut t = TransportConfigModel {
        config: default_transport_config(),
        keep_alive_ms: Ghost(None),
        max_idle_ms: Ghost(None),
        max_bidi_streams: Ghost(None),
        congestion: Ghost(None),
    };
    set_keep_alive_interval(&mut t, DEFAULT_KEEP_ALIVE_INTERVAL_MS);
    set_max_concurrent_bidi_streams(&mut t, DEFAULT_MAX_CONCURRENT_BIDI_STREAMS);
    set_max_idle_timeout(&mut t, DEFAULT_MAX_IDLE_TIMEOUT);
    match cc {
        CongestionController::Bbr => set_congestion_bbr(&mut t),
        CongestionController::Cubic => set_congestion_cubic(&mut t),
        CongestionController::NewReno => set_congestion_new_reno(&mut t),
    }
    t
}

/// The immutable half of the shared QUIC client connection: where to
/// connect, under what server name, and with what client configuration.
/// The mutable half, the connection slot, is guarded by the shell's mutex
/// and tracked by a `SlotModel`, whose fresh value starts empty.
pub struct Connection {
    pub addr: String,
    pub domain_name: String,
    pub client_config: quinn::ClientConfig,
    /// The transport tuning installed on `client_config`, as the setter
    /// record showed it.
    pub tuning: Ghost<TransportTuning>,
}

impl Connection {
    /// Builds the client configuration once: a root store holding the one
    /// trust anchor, and the shared transport tuning. No network traffic.
    /// Succeeds exactly when the trust anchor is accepted.
    pub fn new(
        cert_der: &[u8],
        domain_name: String,
        addr: String,
        cc: CongestionController,
    ) -> (r: Result<Connection, TunnelError>)
        ensures
            r is Ok <==> root_cert_ok(cert_der@),
            r matches Ok(c) ==> {
                &&& c.addr@ == addr@
                &&& c.domain_name@ == domain_name@
                &&& c.tuning@ == spec_tuned(cc)
            },
            r matches Err(e) ==> e == TunnelError::AddCertFailed,
    {
        let mut roots = new_root_store();
        match add_root_cert(&mut roots, cert_der) {
            Ok(()) => {},
            Err(_) => {
                return Err(TunnelError::AddCertFailed);
            },
        }
        let mut client_config = client_config_with_roots(roots);
        let t = tuned_transport_config(&cc);
        let tuning: Ghost<TransportTuning> = Ghost(
            TransportTuning {
                keep_alive_ms: t.keep_alive_ms@->Some_0,
                max_idle_ms: t.max_idle_ms@->Some_0,
                max_bidi_streams: t.max_bidi_streams@->Some_0,
                congestion: t.congestion@->Some_0,
            },
        );
        set_client_transport(&mut client_config, t);
        Ok(Connection { addr, domain_name, client_config, tuning })
    }
}

/// What awaiting `open_bi` on the cached connection came to.
#[derive(Debug, PartialEq, Eq, Structural)]
pub enum OpenBiOutcome {
    /// A stream pair was handed out before the deadline.
    Opened,
    /// The connection refused or failed the open.
    OpenFailed,
    /// The deadline elapsed first.
    TimedOut,
}

/// The state of the shared connection slot, advanced only under the slot's
/// mutex. Generations number the connections that the connect loop has
/// produced, in order.
pub struct SlotModel {
    /// Whether the slot caches a connection.
    pub cached: bool,
    /// Whether a connect attempt is in flight.
    pub connecting: bool,
    /// The generation of the cached connection, when `cached`.
    pub generation: Ghost<nat>,
    /// How many connections the connect loop has produced so far.
    pub produced: Ghost<nat>,
    /// The generations whose last observed `open_bi` attempt failed.
    pub failed: Ghost<Set<nat>>,
}

impl SlotModel {
    /// The slot caches no connection whose last `open_bi` failed, every
    /// failed generation was indeed produced, and nothing connects while a
    /// connection is cached.
    pub open spec fn wf(self) -> bool {
        &&& self.cached ==> self.generation@ < self.produced@
        &&& self.cached ==> !self.failed@.contains(self.generation@)
        &&& forall|g: nat| self.failed@.contains(g) ==> g < self.produced@
        &&& self.cached ==> !self.connecting
    }

    /// The states from which a connect attempt may begin.
    pub open spec fn may_begin_connect(self) -> bool {
        self.wf() && !self.cached && !self.connecting
    }

    /// The model of a freshly constructed `Connection`: empty slot, nothing
    /// in flight, nothing produced.
    pub fn new() -> (r: SlotModel)
        ensures
            r.wf(),
            !r.cached,
            !r.connecting,
            r.produced@ == 0,
            r.failed@ === Set::<nat>::empty(),
    {
        SlotModel {
            cached: false,
            connecting: false,
            generation: Ghost(0),
            produced: Ghost(0),
            failed: Ghost(Set::empty()),
        }
    }

    /// Consulted first under the mutex: a connection must be established
    /// before `open_bi` exactly when the slot is empty.
    pub fn needs_connect(&self) -> (b: bool)
        ensures
            b == !self.cached,
    {
        !self.cached
    }

    /// A connect attempt begins. Only possible with the slot empty and no
    /// attempt already in flight: the mutex holder is the one connector.
    pub fn begin_connect(&mut self)
        requires
            old(self).may_begin_connect(),
        ensures
            final(self).wf(),
            final(self).connecting,
            !final(self).cached,
            final(self).produced == old(self).produced,
            final(self).failed == old(self).failed,
            spec_slot_step(*old(self), *final(self), SlotOp::BeginConnect),
    {
        self.connecting = true;
    }

    /// The in-flight attempt produced a connection: a fresh generation
    /// fills the slot. A fresh generation has no failure on record.
    pub fn finish_connect(&mut self)
        requires
            old(self).wf(),
            old(self).connecting,
            !old(self).cached,
        ensures
            final(self).wf(),
            final(self).cached,
            !final(self).connecting,
            final(self).generation@ == old(self).produced@,
            final(self).produced@ == old(self).produced@ + 1,
            final(self).failed == old(self).failed,
            spec_slot_step(*old(self), *final(self), SlotOp::FinishConnect),
    {
        self.connecting = false;
        self.cached = true;
        proof {
            self.generation@ = self.produced@;
            self.produced@ = self.produced@ + 1;
        }
    }

    /// The `open_bi` attempt on the cached connection came to its outcome.
    /// On success the cache stands; on failure or deadline the generation
    /// is recorded as failed and the slot is cleared, so the next caller
    /// reconnects. Succeeds exactly when a stream was opened.
    pub fn record_open_bi(&mut self, outcome: &OpenBiOutcome) -> (r: Result<(), TunnelError>)
        requires
            old(self).wf(),
            old(self).cached,
        ensures
            final(self).wf(),
            r is Ok <==> *outcome == OpenBiOutcome::Opened,
            *outcome == OpenBiOutcome::Opened ==> *final(self) == *old(self),
            *outcome != OpenBiOutcome::Opened ==> {
                &&& !final(self).cached
                &&& !final(self).connecting
                &&& final(self).failed@ === old(self).failed@.insert(old(self).generation@)
                &&& final(self).produced == old(self).produced
            },
            *outcome == OpenBiOutcome::OpenFailed ==> r == Err::<(), TunnelError>(TunnelError::OpenBiFailed),
            *outcome == OpenBiOutcome::TimedOut ==> r == Err::<(), TunnelError>(TunnelError::OpenBiTimedOut),
            spec_slot_step(*old(self), *final(self), SlotOp::RecordOpenBi(*outcome)),
    {
        match outcome {
            OpenBiOutcome::Opened => Ok(()),
            OpenBiOutcome::OpenFailed => {
                self.cached = false;
                proof {
                    self.failed@ = self.failed@.insert(self.generation@);
                }
                Err(TunnelError::OpenBiFailed)
            },
            OpenBiOutcome::TimedOut => {
                self.cached = false;
                proof {
                    self.failed@ = self.failed@.insert(self.generation@);
                }
                Err(TunnelError::OpenBiTimedOut)
            },
        }
    }
}

/// One operation on the slot, as the shell drives it under the mutex.
pub enum SlotOp {
    BeginConnect,
    FinishConnect,
    RecordOpenBi(OpenBiOutcome),
}

/// The step relation of the slot lifecycle: each operation, applied in a
/// state that admits it, and what it does to the model. The executable
/// transitions each ensure one instance of this relation.
pub open spec fn spec_slot_step(pre: SlotModel, post: SlotModel, op: SlotOp) -> bool {
    match op {
        SlotOp::BeginConnect => {
            &&& pre.may_begin_connect()
            &&& post.cached == pre.cached
            &&& post.connecting
            &&& post.generation == pre.generation
            &&& post.produced == pre.produced
            &&& post.failed == pre.failed
        },
        SlotOp::FinishConnect => {
            &&& pre.wf()
            &&& pre.connecting
            &&& !pre.cached
            &&& post.cached
            &&& !post.connecting
            &&& post.generation@ == pre.produced@
            &&& post.produced@ == pre.produced@ + 1
            &&& post.failed == pre.failed
        },
        SlotOp::RecordOpenBi(outcome) => {
            &&& pre.wf()
            &&& pre.cached
            &&& if outcome == OpenBiOutcome::Opened {
                post == pre
            } else {
                &&& !post.cached
                &&& !post.connecting
                &&& post.generation == pre.generation
                &&& post.produced == pre.produced
                &&& post.failed@ == pre.failed@.insert(pre.generation@)
            }
        },
    }
}

/// Every step preserves well-formedness.
pub proof fn lemma_slot_step_wf(pre: SlotModel, post: SlotModel, op: SlotOp)
    requires
        pre.wf(),
        spec_slot_step(pre, post, op),
    ensures
        post.wf(),
{
}

/// A run of the slot lifecycle: `states` are the model's values in order,
/// and each operation steps one state to the next.
pub open spec fn spec_slot_trace(states: Seq<SlotModel>, ops: Seq<SlotOp>) -> bool {
    &&& states.len() == ops.len() + 1
    &&& forall|i: int|
        0 <= i < ops.len() ==> #[trigger] spec_slot_step(states[i], states[i + 1], ops[i])
}

/// Law (for all runs): in every run of the slot lifecycle that starts from
/// a well-formed model, every state is well-formed; in particular the slot
/// never caches a connection whose last observed `open_bi` failed, and no
/// state with an attempt in flight admits beginning another.
pub proof fn lemma_slot_trace_wf(states: Seq<SlotModel>, ops: Seq<SlotOp>, i: int)
    requires
        spec_slot_trace(states, ops),
        states[0].wf(),
        0 <= i < states.len(),
    ensures
        states[i].wf(),
        states[i].cached ==> !states[i].failed@.contains(states[i].generation@),
    decreases i,
{
    if i > 0 {
        lemma_slot_trace_wf(states, ops, i - 1);
        let j = i - 1;
        assert(spec_slot_step(states[j], states[j + 1], ops[j]));
        lemma_slot_step_wf(states[j], states[j + 1], ops[j]);
    }
}

/// Law: the connection slot is either empty or holds a connection whose
/// last observed `open_bi` attempt did not fail; a stale connection never
/// remains cached.
pub proof fn lemma_slot_never_stale(m: SlotModel)
    requires
        m.wf(),
    ensures
        m.cached ==> !m.failed@.contains(m.generation@),
{
}

/// Law: at most one connect attempt is in flight at any time: while one is
/// in flight, no state admits beginning another.
pub proof fn lemma_at_most_one_connect(m: SlotModel)
    requires
        m.connecting,
    ensures
        !m.may_begin_connect(),
{
}

} // verus!
