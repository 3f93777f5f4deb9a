//! A QUIC bidirectional stream as one byte endpoint.
//!
//! The two halves share a single stream id. Reading, writing and shutdown
//! are plain delegation to the halves and live in the shell; what is owned
//! here is the reset policy: a reset targets both halves with the one
//! application error code this tunnel reserves for bridge failure.

use vstd::prelude::*;

verus! {

/// The application error code every stream reset of this tunnel carries,
/// on the send half and on the recv half alike.
pub const ERROR_CODE_RESET: u32 = 100;

/// The sending half of a QUIC bidirectional stream.
#[verifier::external_type_specification]
#[verifier::external_body]
pub struct ExSendStream(quinn::SendStream);

/// The receiving half of a QUIC bidirectional stream.
#[verifier::external_type_specification]
#[verifier::external_body]
pub struct ExRecvStream(quinn::RecvStream);

/// Relies on quinn::SendStream::reset: it closes the send half immediately,
/// carrying the given application error code to the peer; it fails only when
/// the stream is already in a terminal state, and that failure is final.
#[verifier::external_body]
fn reset_send_half(s: &mut quinn::SendStream, error_code: u32) {
    let _ = s.reset(quinn::VarInt::from_u32(error_code));
}

/// Relies on quinn::RecvStream::stop: it discards unread data and tells the
/// peer to stop transmitting, carrying the given application error code; it
/// fails only when the stream is already in a terminal state.
#[verifier::external_body]
fn stop_recv_half(r: &mut quinn::RecvStream, error_code: u32) {
    let _ = r.stop(quinn::VarInt::from_u32(error_code));
}

/// One QUIC bidirectional stream, both halves, with the record of the reset
/// codes it has been told to carry.
pub struct Stream {
    pub send_stream: quinn::SendStream,
    pub recv_stream: quinn::RecvStream,
    /// The application error codes of the resets issued so far, in order;
    /// each entry stands for one reset applied to both halves.
    pub reset_codes: Ghost<Seq<u32>>,
}

/// Every reset this stream has issued carried the reserved code.
pub open spec fn all_resets_reserved(codes: Seq<u32>) -> bool {
    forall|i: int| 0 <= i < codes.len() ==> codes[i] == ERROR_CODE_RESET
}

impl Stream {
    /// Pairs the two halves of a freshly opened bidirectional stream.
    pub fn new(send_stream: quinn::SendStream, recv_stream: quinn::RecvStream) -> (r: Stream)
        ensures
            r.reset_codes@ === Seq::<u32>::empty(),
            all_resets_reserved(r.reset_codes@),
    {
        Stream { send_stream, recv_stream, reset_codes: Ghost(Seq::empty()) }
    }

    /// Resets the stream: an application-level reset on the send half and a
    /// stop-sending on the recv half, both with the reserved error code.
    /// Infallible from the caller's view; an error below means the stream
    /// was already terminal and is swallowed.
    pub fn reset(&mut self)
        ensures
            final(self).reset_codes@ === old(self).reset_codes@.push(ERROR_CODE_RESET),
            all_resets_reserved(old(self).reset_codes@) ==> all_resets_reserved(
                final(self).reset_codes@,
            ),
    {
        reset_send_half(&mut self.send_stream, ERROR_CODE_RESET);
        stop_recv_half(&mut self.recv_stream, ERROR_CODE_RESET);
        proof {
            self.reset_codes@ = self.reset_codes@.push(ERROR_CODE_RESET);
        }
    }
}

} // verus!
