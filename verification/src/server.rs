//! Server-side dispatch: the QUIC server configuration, round-robin backend
//! selection for inbound streams, and the policy applied to each backend
//! connect outcome.
//!
//! The accept loops themselves are asynchronous and live in the shell; each
//! inbound stream event and each backend connect outcome is brought here
//! for the decision.

use vstd::prelude::*;

use crate::config::CongestionController;
use crate::connection::spec_tuned;
use crate::connection::tuned_transport_config;
use crate::connection::TransportConfigModel;
use crate::connection::TransportTuning;
use crate::stream::ERROR_CODE_RESET;
use crate::TunnelError;

verus! {

/// Configuration for inbound QUIC connections.
#[verifier::external_type_specification]
#[verifier::external_body]
pub struct ExServerConfig(quinn::ServerConfig);

/// Whether the TLS library accepts these DER bytes as a certificate chain
/// of one certificate and its private key: a function of the bytes alone.
/// The randomized handshake-token key is drawn only after this check and
/// cannot fail.
pub uninterp spec fn server_crypto_ok(cert: Seq<u8>, key: Seq<u8>) -> bool;

/// Relies on quinn::ServerConfig::with_single_cert: a server config that
/// presents the given DER certificate chain and private key. Whether it
/// succeeds is decided by the certificate and key bytes alone.
#[verifier::external_body]
fn server_config_with_single_cert(cert_der: &[u8], key_der: &[u8]) -> (r: Result<
    quinn::ServerConfig,
    std::io::Error,
>)
    ensures
        r is Ok <==> server_crypto_ok(cert_der@, key_der@),
{
    quinn::ServerConfig::with_single_cert(
        vec![rustls::Certificate(cert_der.to_vec())],
        rustls::PrivateKey(key_der.to_vec()),
    )
    .map_err(|e| std::io::Error::new(std::io::ErrorKind::Other, format!("new server config fail {:?}", e)))
}

/// Relies on the public `transport` field of quinn::ServerConfig: installs
/// the model's configuration object, the one its record describes.
#[verifier::external_body]
fn set_server_transport(sc: &mut quinn::ServerConfig, t: TransportConfigModel) {
    sc.transport = std::sync::Arc::new(t.config);
}

/// The server's QUIC configuration beside the record of its tuning.
pub struct ServerEndpointConfig {
    pub config: quinn::ServerConfig,
    /// The transport tuning installed on `config`, as the setter record
    /// showed it.
    pub tuning: Ghost<TransportTuning>,
}

/// The server's QUIC configuration: the single certificate and key, and
/// the same transport tuning the client uses. Succeeds exactly when the
/// TLS library accepts the certificate and key.
pub fn server_config(
    cert_der: &[u8],
    key_der: &[u8],
    cc: &CongestionController,
) -> (r: Result<ServerEndpointConfig, TunnelError>)
    ensures
        r is Ok <==> server_crypto_ok(cert_der@, key_der@),
        r matches Ok(s) ==> s.tuning@ == spec_tuned(*cc),
        r matches Err(e) ==> e == TunnelError::ServerCryptoFailed,
{
    let mut sc = match server_config_with_single_cert(cert_der, key_der) {
        Ok(sc) => sc,
        Err(_) => {
            return Err(TunnelError::ServerCryptoFailed);
        },
    };
    let t = tuned_transport_config(cc);
    let tuning: Ghost<TransportTuning> = Ghost(
        TransportTuning {
            keep_alive_ms: t.keep_alive_ms@->Some_0,
            max_idle_ms: t.max_idle_ms@->Some_0,
            max_bidi_streams: t.max_bidi_streams@->Some_0,
            congestion: t.congestion@->Some_0,
        },
    );
    set_server_transport(&mut sc, t);
    Ok(ServerEndpointConfig { config: sc, tuning })
}

/// One step of consuming inbound bidirectional streams on one connection.
#[derive(Debug, PartialEq, Eq, Structural)]
pub enum StreamEvent {
    /// A new inbound stream arrived.
    Incoming,
    /// The peer closed the connection in an orderly way.
    AppClosed,
    /// The connection failed.
    ConnError,
}

/// What the dispatcher decides for one stream event.
#[derive(Debug, PartialEq, Eq, Structural)]
pub enum DispatchAction {
    /// Bridge the stream to the backend at this index of `remote_addrs`.
    Bridge { backend: usize },
    /// Stop consuming: the application closed the connection.
    StopApplicationClosed,
    /// Stop consuming: the connection failed.
    StopError,
}

/// The per-connection counter after one pre-increment, wrapping.
pub open spec fn spec_next_counter(c: nat) -> nat {
    if c == usize::MAX as nat {
        0
    } else {
        c + 1
    }
}

/// The backend index chosen for the stream that pre-increments the counter
/// from `c`: the new counter value, modulo the backend count.
pub open spec fn spec_backend_index(c: nat, len: nat) -> nat
    recommends
        len > 0,
{
    spec_next_counter(c) % len
}

/// Decides one stream event: an inbound stream pre-increments the counter
/// (wrapping) and goes to backend `counter mod len`; an orderly close or a
/// connection error stops the consumption, each under its own verdict.
pub fn dispatch_stream(counter: usize, len: usize, ev: &StreamEvent) -> (r: (usize, DispatchAction))
    requires
        len > 0,
    ensures
        *ev == StreamEvent::Incoming ==> {
            &&& r.0 as nat == spec_next_counter(counter as nat)
            &&& r.1 == (DispatchAction::Bridge {
                backend: spec_backend_index(counter as nat, len as nat) as usize,
            })
            &&& (r.1 matches DispatchAction::Bridge { backend } ==> backend < len)
        },
        *ev == StreamEvent::AppClosed ==> r.0 == counter && r.1
            == DispatchAction::StopApplicationClosed,
        *ev == StreamEvent::ConnError ==> r.0 == counter && r.1 == DispatchAction::StopError,
{
    match ev {
        StreamEvent::Incoming => {
            let next: usize = if counter == usize::MAX {
                0
            } else {
                counter + 1
            };
            let backend: usize = next % len;
            (next, DispatchAction::Bridge { backend })
        },
        StreamEvent::AppClosed => (counter, DispatchAction::StopApplicationClosed),
        StreamEvent::ConnError => (counter, DispatchAction::StopError),
    }
}

/// The counter value after `k` inbound streams, starting from zero.
pub open spec fn spec_counter_after(k: nat) -> nat
    decreases k,
{
    if k == 0 {
        0
    } else {
        spec_next_counter(spec_counter_after((k - 1) as nat))
    }
}

/// Law (round-robin): for any run of consecutive inbound streams on a single
/// connection, stream `k` (counting from 1; the counter pre-increments) is
/// dispatched to backend `k mod len`, and the counter after it stands at `k`.
pub proof fn lemma_round_robin(k: nat, len: nat)
    requires
        1 <= k <= usize::MAX,
        len > 0,
    ensures
        spec_counter_after(k) == k,
        spec_backend_index(spec_counter_after((k - 1) as nat), len) == k % len,
    decreases k,
{
    if k > 1 {
        lemma_round_robin((k - 1) as nat, len);
    } else {
        assert(spec_counter_after(0) == 0);
    }
}

/// Law (single backend): with a backend list of length 1 every stream goes
/// to the one backend at index 0, and the counter still advances by one for
/// each stream.
pub proof fn lemma_single_backend(k: nat)
    requires
        1 <= k <= usize::MAX,
    ensures
        spec_backend_index(spec_counter_after((k - 1) as nat), 1) == 0,
        spec_counter_after(k) == spec_counter_after((k - 1) as nat) + 1,
{
    lemma_round_robin(k, 1);
    if k > 1 {
        lemma_round_robin((k - 1) as nat, 1);
    }
}

/// What connecting to the chosen backend came to.
#[derive(Debug, PartialEq, Eq, Structural)]
pub enum BackendConnectOutcome {
    /// The backend accepted within the deadline.
    Connected,
    /// The backend refused or the connect failed before the deadline.
    Failed,
    /// The connect deadline elapsed.
    TimedOut,
}

/// What the server does with the inbound stream for each connect outcome.
#[derive(Debug, PartialEq, Eq, Structural)]
pub enum BackendAction {
    /// Bridge the backend socket with the stream.
    Bridge,
    /// Drop the stream; it closes normally as it falls out of scope.
    Drop,
    /// Reset the stream with this application error code.
    Reset { error_code: u32 },
}

/// The backend connect policy: bridge on success, drop the stream on a
/// plain connect error, reset it (code 100) when the deadline elapsed.
pub fn backend_action(o: &BackendConnectOutcome) -> (a: BackendAction)
    ensures
        *o == BackendConnectOutcome::Connected ==> a == BackendAction::Bridge,
        *o == BackendConnectOutcome::Failed ==> a == BackendAction::Drop,
        *o == BackendConnectOutcome::TimedOut ==> a == (BackendAction::Reset {
            error_code: ERROR_CODE_RESET,
        }),
        a matches BackendAction::Reset { error_code } ==> error_code == ERROR_CODE_RESET,
{
    match o {
        BackendConnectOutcome::Connected => BackendAction::Bridge,
        BackendConnectOutcome::Failed => BackendAction::Drop,
        BackendConnectOutcome::TimedOut => BackendAction::Reset { error_code: ERROR_CODE_RESET },
    }
}

} // verus!
