//! Core logic of a QUIC-tunneled TCP/Unix reverse proxy.
//!
//! A client daemon accepts local TCP connections and carries each one over a
//! bidirectional stream of a single shared QUIC connection; a server daemon
//! forwards each inbound stream to one of a pool of backends, round-robin.
//! This crate holds the decision logic of that tunnel: certificate and key
//! selection from PEM contents, the idle-timeout deadline bookkeeping, the
//! shared-connection slot lifecycle with its reconnect backoff, round-robin
//! backend selection, and the bridge's reset policy. The asynchronous shell
//! around it (sockets, timers, the QUIC engine) drives these functions and
//! performs what they decide.

use vstd::prelude::*;

pub mod config;
pub mod connection;
pub mod server;
pub mod stream;

verus! {

use vstd::string::StringExecFns;

/// Timeout for one QUIC connect attempt and for one backend connect, in ms.
pub const DEFAULT_CONNECT_TIMEOUT_MS: u64 = 3_000;

/// QUIC keep-alive interval, in ms.
pub const DEFAULT_KEEP_ALIVE_INTERVAL_MS: u64 = 10_000;

/// QUIC max idle timeout, in ms.
pub const DEFAULT_MAX_IDLE_TIMEOUT: u32 = 30_000;

/// Maximum concurrent bidirectional streams per QUIC connection.
pub const DEFAULT_MAX_CONCURRENT_BIDI_STREAMS: u32 = 2048;

/// Bridge activity idle timeout, in ms.
pub const DEFAULT_IDLE_TIMEOUT_MS: u64 = 300_000;

/// Minimum gap between two refreshes of the bridge deadline, in ms.
pub const DEFAULT_VISITED_GAP_MS: u64 = 3_000;

/// Everything this library reports as failure.
#[derive(Debug, PartialEq, Eq)]
pub enum TunnelError {
    /// The PEM contents could not be scanned for PKCS#8 sections.
    MalformedPkcs8,
    /// The PEM contents could not be scanned for PKCS#1 sections.
    MalformedPkcs1,
    /// The PEM contents hold neither a PKCS#8 nor a PKCS#1 private key.
    NoPrivateKey,
    /// The PEM contents could not be scanned for certificate sections.
    MalformedCert,
    /// The PEM contents hold no certificate.
    NoCert,
    /// A configuration names neither a client nor a server section.
    MissingSection,
    /// The trust anchor was rejected by the root store.
    AddCertFailed,
    /// The server certificate or private key was rejected.
    ServerCryptoFailed,
    /// Opening a bidirectional stream on the cached connection failed.
    OpenBiFailed,
    /// Opening a bidirectional stream did not finish within its deadline.
    OpenBiTimedOut,
    /// Any other failure, with a description.
    Other(String),
}

/// An error carrying a plain description, as the surrounding daemons use for
/// failures that no dedicated variant covers.
pub fn other(desc: &str) -> (r: TunnelError)
    ensures
        r matches TunnelError::Other(m) && m@ == desc@,
{
    TunnelError::Other(String::from_str(desc))
}

/// The error type that the PEM scanner reports malformed input with.
#[verifier::external_type_specification]
#[verifier::external_body]
pub struct ExIoError(std::io::Error);

/// The DER contents of the PKCS#8 private-key sections of a PEM document,
/// in order of appearance; `None` when the document cannot be scanned.
pub uninterp spec fn pem_pkcs8_keys(pem: Seq<u8>) -> Option<Seq<Seq<u8>>>;

/// The DER contents of the PKCS#1 (RSA) private-key sections of a PEM
/// document, in order of appearance; `None` when it cannot be scanned.
pub uninterp spec fn pem_rsa_keys(pem: Seq<u8>) -> Option<Seq<Seq<u8>>>;

/// The DER contents of the certificate sections of a PEM document, in order
/// of appearance; `None` when the document cannot be scanned.
pub uninterp spec fn pem_certs(pem: Seq<u8>) -> Option<Seq<Seq<u8>>>;

/// Relies on rustls_pemfile::pkcs8_private_keys: it extracts the DER payload
/// of every PKCS#8 private-key section, a function of the bytes alone, and
/// fails only on malformed input.
#[verifier::external_body]
fn pkcs8_sections(pem: &[u8]) -> (r: Result<Vec<Vec<u8>>, std::io::Error>)
    ensures
        r matches Ok(ks) ==> pem_pkcs8_keys(pem@) == Some(ks.deep_view()),
        r is Err ==> pem_pkcs8_keys(pem@) is None,
{
    rustls_pemfile::pkcs8_private_keys(&mut &pem[..])
}

/// Relies on rustls_pemfile::rsa_private_keys: it extracts the DER payload
/// of every PKCS#1 private-key section, a function of the bytes alone, and
/// fails only on malformed input.
#[verifier::external_body]
fn rsa_sections(pem: &[u8]) -> (r: Result<Vec<Vec<u8>>, std::io::Error>)
    ensures
        r matches Ok(ks) ==> pem_rsa_keys(pem@) == Some(ks.deep_view()),
        r is Err ==> pem_rsa_keys(pem@) is None,
{
    rustls_pemfile::rsa_private_keys(&mut &pem[..])
}

/// Relies on rustls_pemfile::certs: it extracts the DER payload of every
/// certificate section, a function of the bytes alone, and fails only on
/// malformed input.
#[verifier::external_body]
fn cert_sections(pem: &[u8]) -> (r: Result<Vec<Vec<u8>>, std::io::Error>)
    ensures
        r matches Ok(cs) ==> pem_certs(pem@) == Some(cs.deep_view()),
        r is Err ==> pem_certs(pem@) is None,
{
    rustls_pemfile::certs(&mut &pem[..])
}

/// What a PEM document yields as the server's private key: the first PKCS#8
/// key if any, else the first PKCS#1 key if any, else an error naming the
/// first stage that went wrong.
pub open spec fn private_key_of_pem(pem: Seq<u8>) -> Result<Seq<u8>, TunnelError> {
    match pem_pkcs8_keys(pem) {
        None => Err(TunnelError::MalformedPkcs8),
        Some(ks) => if ks.len() > 0 {
            Ok(ks[0])
        } else {
            match pem_rsa_keys(pem) {
                None => Err(TunnelError::MalformedPkcs1),
                Some(rs) => if rs.len() > 0 {
                    Ok(rs[0])
                } else {
                    Err(TunnelError::NoPrivateKey)
                },
            }
        },
    }
}

/// The DER encoding of the private key held by a PEM document: PKCS#8 is
/// preferred, PKCS#1 is the fallback.
pub fn private_key_from_pem(pem: &[u8]) -> (r: Result<Vec<u8>, TunnelError>)
    ensures
        match r {
            Ok(k) => private_key_of_pem(pem@) == Ok::<Seq<u8>, TunnelError>(k@),
            Err(e) => private_key_of_pem(pem@) == Err::<Seq<u8>, TunnelError>(e),
        },
{
    let pkcs8 = match pkcs8_sections(pem) {
        Ok(ks) => ks,
        Err(_) => {
            return Err(TunnelError::MalformedPkcs8);
        },
    };
    if pkcs8.len() > 0 {
        let mut pkcs8 = pkcs8;
        let k = pkcs8.remove(0);
        proof {
            assert(k.deep_view() =~= k@);
        }
        return Ok(k);
    }
    let rsa = match rsa_sections(pem) {
        Ok(ks) => ks,
        Err(_) => {
            return Err(TunnelError::MalformedPkcs1);
        },
    };
    if rsa.len() > 0 {
        let mut rsa = rsa;
        let k = rsa.remove(0);
        proof {
            assert(k.deep_view() =~= k@);
        }
        return Ok(k);
    }
    Err(TunnelError::NoPrivateKey)
}

/// What a PEM document yields as a certificate: its first certificate
/// section, or an error.
pub open spec fn cert_of_pem(pem: Seq<u8>) -> Result<Seq<u8>, TunnelError> {
    match pem_certs(pem) {
        None => Err(TunnelError::MalformedCert),
        Some(cs) => if cs.len() > 0 {
            Ok(cs[0])
        } else {
            Err(TunnelError::NoCert)
        },
    }
}

/// The DER encoding of the first certificate held by a PEM document.
pub fn cert_from_pem(pem: &[u8]) -> (r: Result<Vec<u8>, TunnelError>)
    ensures
        match r {
            Ok(c) => cert_of_pem(pem@) == Ok::<Seq<u8>, TunnelError>(c@),
            Err(e) => cert_of_pem(pem@) == Err::<Seq<u8>, TunnelError>(e),
        },
{
    let certs = match cert_sections(pem) {
        Ok(cs) => cs,
        Err(_) => {
            return Err(TunnelError::MalformedCert);
        },
    };
    if certs.len() > 0 {
        let mut certs = certs;
        let c = certs.remove(0);
        proof {
            assert(c.deep_view() =~= c@);
        }
        return Ok(c);
    }
    Err(TunnelError::NoCert)
}

/// The deadline bookkeeping of a future wrapped in an activity-refreshed
/// idle timeout. Times are milliseconds on the shell's monotone clock. The
/// wrapped future and the deadline sleep are the shell's; every poll brings
/// its observations here and performs what `poll_step` decides.
pub struct IdleTimeout {
    /// The configured idle duration.
    pub idle_timeout_ms: u64,
    /// When the deadline was last refreshed.
    pub last_visited_ms: u64,
    /// When the deadline sleep currently fires.
    pub deadline_ms: u64,
}

/// What one poll of the wrapped future comes to.
#[derive(Debug, PartialEq, Eq, Structural)]
pub enum PollDecision {
    /// The inner future finished: return its value.
    ReturnInner,
    /// The deadline elapsed while the inner was pending: return the
    /// timed-out error.
    ReturnTimedOut,
    /// Stay pending; when `refreshed`, the shell resets its deadline sleep
    /// to the new `deadline_ms`.
    KeepPending { refreshed: bool },
}

/// The pending case of one poll: the deadline is refreshed to
/// `now + idle_timeout`, but only when at least the gap has passed since
/// the previous refresh; otherwise nothing changes.
pub open spec fn spec_pending_step(s: IdleTimeout, now_ms: u64) -> (IdleTimeout, bool) {
    if now_ms - s.last_visited_ms >= DEFAULT_VISITED_GAP_MS {
        (
            IdleTimeout {
                idle_timeout_ms: s.idle_timeout_ms,
                last_visited_ms: now_ms,
                deadline_ms: (now_ms + s.idle_timeout_ms) as u64,
            },
            true,
        )
    } else {
        (s, false)
    }
}

impl IdleTimeout {
    /// Starts the idle timeout: the deadline is one idle duration from now,
    /// and now counts as the last refresh.
    pub fn new(now_ms: u64, idle_timeout_ms: u64) -> (r: IdleTimeout)
        requires
            now_ms + idle_timeout_ms <= u64::MAX,
        ensures
            r.idle_timeout_ms == idle_timeout_ms,
            r.last_visited_ms == now_ms,
            r.deadline_ms == now_ms + idle_timeout_ms,
    {
        IdleTimeout { idle_timeout_ms, last_visited_ms: now_ms, deadline_ms: now_ms + idle_timeout_ms }
    }

    /// One poll. The inner future is consulted first: if it finished, its
    /// value is returned whatever the deadline did. Otherwise the deadline
    /// decides; and while both are pending, the deadline is refreshed
    /// subject to the gap.
    pub fn poll_step(&mut self, inner_ready: bool, deadline_elapsed: bool, now_ms: u64) -> (d:
        PollDecision)
        requires
            now_ms >= old(self).last_visited_ms,
            now_ms + old(self).idle_timeout_ms <= u64::MAX,
        ensures
            inner_ready ==> d == PollDecision::ReturnInner && *final(self) == *old(self),
            !inner_ready && deadline_elapsed ==> d == PollDecision::ReturnTimedOut && *final(self)
                == *old(self),
            !inner_ready && !deadline_elapsed ==> {
                let (s2, refreshed) = spec_pending_step(*old(self), now_ms);
                &&& *final(self) == s2
                &&& d == (PollDecision::KeepPending { refreshed })
            },
            final(self).idle_timeout_ms == old(self).idle_timeout_ms,
    {
        if inner_ready {
            PollDecision::ReturnInner
        } else if deadline_elapsed {
            PollDecision::ReturnTimedOut
        } else if now_ms - self.last_visited_ms >= DEFAULT_VISITED_GAP_MS {
            self.last_visited_ms = now_ms;
            self.deadline_ms = now_ms + self.idle_timeout_ms;
            PollDecision::KeepPending { refreshed: true }
        } else {
            PollDecision::KeepPending { refreshed: false }
        }
    }
}

/// A run of pending polls: `states` are the bookkeeping's values in order,
/// and poll `i`, made at `times[i]`, steps one state to the next.
pub open spec fn spec_pending_trace(states: Seq<IdleTimeout>, times: Seq<u64>) -> bool {
    &&& states.len() == times.len() + 1
    &&& forall|i: int|
        0 <= i < times.len() ==> states[i + 1] == #[trigger] spec_pending_step(
            states[i],
            times[i],
        ).0
}

/// Along a run of pending polls the last-refresh stamp never moves back:
/// a poll either leaves it alone or advances it to its own, later, time.
pub proof fn lemma_pending_trace_monotone(
    states: Seq<IdleTimeout>,
    times: Seq<u64>,
    a: int,
    b: int,
)
    requires
        spec_pending_trace(states, times),
        0 <= a <= b < states.len(),
    ensures
        states[b].last_visited_ms >= states[a].last_visited_ms,
    decreases b - a,
{
    if b > a {
        lemma_pending_trace_monotone(states, times, a, b - 1);
        let j = b - 1;
        assert(states[j + 1] == spec_pending_step(states[j], times[j]).0);
    }
}

/// Law (idle coalescing, over a whole run): in any run of pending polls,
/// any two polls that both refresh the deadline are at least the gap
/// apart; a continuous copy resets the deadline sleep at most once per gap.
pub proof fn lemma_trace_coalescing(states: Seq<IdleTimeout>, times: Seq<u64>, i: int, j: int)
    requires
        spec_pending_trace(states, times),
        0 <= i < j < times.len(),
        spec_pending_step(states[i], times[i]).1,
        spec_pending_step(states[j], times[j]).1,
    ensures
        times[j] >= times[i] + DEFAULT_VISITED_GAP_MS,
{
    assert(states[i + 1] == spec_pending_step(states[i], times[i]).0);
    lemma_pending_trace_monotone(states, times, i + 1, j);
}

/// What the full-duplex copy under its idle timeout came to.
#[derive(Debug, PartialEq, Eq, Structural)]
pub enum BridgeOutcome {
    /// Both directions finished; so many bytes went local-to-remote and
    /// remote-to-local.
    Done { to_remote: u64, to_local: u64 },
    /// A transport error ended the copy.
    Failed,
    /// The idle deadline elapsed.
    TimedOut,
}

/// What the bridge does at its end.
#[derive(Debug, PartialEq, Eq, Structural)]
pub enum BridgeAction {
    /// Log the byte counts and return cleanly; the endpoints close
    /// normally as they are dropped.
    Finish,
    /// Reset the QUIC stream with this application error code, freeing the
    /// peer's stream credit at once; then drop both endpoints.
    Reset { error_code: u32 },
}

/// The bridge's epilogue: a clean finish on success, a reset on error or
/// idle timeout.
pub open spec fn spec_bridge_action(o: BridgeOutcome) -> BridgeAction {
    match o {
        BridgeOutcome::Done { .. } => BridgeAction::Finish,
        BridgeOutcome::Failed => BridgeAction::Reset { error_code: stream::ERROR_CODE_RESET },
        BridgeOutcome::TimedOut => BridgeAction::Reset { error_code: stream::ERROR_CODE_RESET },
    }
}

/// Decides the bridge's epilogue: the stream is reset exactly when the copy
/// did not finish cleanly, and every reset carries the reserved error code.
pub fn bridge_action(o: &BridgeOutcome) -> (a: BridgeAction)
    ensures
        a == spec_bridge_action(*o),
        a is Reset <==> !(*o is Done),
        a matches BridgeAction::Reset { error_code } ==> error_code == stream::ERROR_CODE_RESET,
{
    match o {
        BridgeOutcome::Done { .. } => BridgeAction::Finish,
        BridgeOutcome::Failed => BridgeAction::Reset { error_code: stream::ERROR_CODE_RESET },
        BridgeOutcome::TimedOut => BridgeAction::Reset { error_code: stream::ERROR_CODE_RESET },
    }
}

/// Law: every reset the bridge ever decides carries application error code
/// 100, never any other code.
pub proof fn lemma_bridge_reset_code(o: BridgeOutcome)
    ensures
        spec_bridge_action(o) matches BridgeAction::Reset { error_code } ==> error_code
            == stream::ERROR_CODE_RESET,
{
}

} // verus!
