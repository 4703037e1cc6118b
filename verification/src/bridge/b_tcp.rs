//! Rules of the local TCP transport: frame delimitation, size limit and retries.

use crate::entity::e_socket_addr::is_loopback_ip;
use crate::entity::ESocketAddr;
use crate::text::utf8_text;
use vstd::prelude::*;
use vstd::utf8::{decode_utf8, valid_utf8};

verus! {

/// Largest UTF-8 message, newline included, in bytes.
pub const MAX_FRAME_BYTES: usize = 4096;

/// Why the bytes read for a frame are not a message.
#[derive(Clone, Copy, Debug, PartialEq, Eq)]
pub enum EFrameError {
    /// More than [`MAX_FRAME_BYTES`] bytes before the newline.
    TooLong,
    /// The bytes end without the final newline.
    Incomplete,
    /// The bytes are not UTF-8.
    InvalidUtf8,
}

/// Kind of a failed connection attempt, as far as the retry policy tells kinds apart.
#[derive(Clone, Copy, Debug, PartialEq, Eq)]
pub enum EConnectFailure {
    /// The peer refused the connection.
    ConnectionRefused,
    /// The attempt timed out.
    TimedOut,
    /// The peer reset the connection.
    ConnectionReset,
    /// The socket is not connected.
    NotConnected,
    /// No local address or port was available.
    AddrNotAvailable,
    /// Any other failure.
    Other,
}

/// The message that the bytes of a frame hold, or why they are refused: too long,
/// without the final newline, or not UTF-8, in this order.
pub open spec fn frame_result(bytes: Seq<u8>) -> Result<Seq<char>, EFrameError> {
    if bytes.len() > MAX_FRAME_BYTES {
        Err(EFrameError::TooLong)
    } else if bytes.len() == 0 || bytes.last() != 10 {
        Err(EFrameError::Incomplete)
    } else if !valid_utf8(bytes) {
        Err(EFrameError::InvalidUtf8)
    } else {
        Ok(decode_utf8(bytes))
    }
}

/// Whether a failed connection attempt may be tried again.
pub open spec fn is_transient_failure(kind: EConnectFailure) -> bool {
    !(kind is Other)
}

/// Message for an address that is not on the loopback interface.
pub open spec fn loopback_text() -> Seq<char> {
    "è richiesto un indirizzo di loopback"@
}

/// Adapter rules for frames ended by a newline, also on reused connections.
pub struct BTcp;

impl BTcp {
    /// Checks the bytes read for one frame: at most one byte beyond the limit is read,
    /// so a frame that is too large is seen without unbounded allocation.
    ///
    /// # Errors
    /// [`EFrameError::TooLong`] beyond [`MAX_FRAME_BYTES`], [`EFrameError::Incomplete`]
    /// without the final newline, [`EFrameError::InvalidUtf8`] for bytes that are not
    /// UTF-8.
    pub fn check_frame(bytes: &[u8]) -> (r: Result<String, EFrameError>)
        ensures
            match r {
                Ok(s) => frame_result(bytes@) == Ok::<Seq<char>, EFrameError>(s@),
                Err(e) => frame_result(bytes@) == Err::<Seq<char>, EFrameError>(e),
            },
    {
        if bytes.len() > MAX_FRAME_BYTES {
            return Err(EFrameError::TooLong);
        }
        if bytes.len() == 0 || bytes[bytes.len() - 1] != 10 {
            return Err(EFrameError::Incomplete);
        }
        match utf8_text(bytes) {
            Some(text) => Ok(String::from_str(text)),
            None => Err(EFrameError::InvalidUtf8),
        }
    }

    /// Whether a failed connection attempt is retried: refused, timed out, reset,
    /// not connected and no available local port are; any other failure is passed on.
    pub fn is_transient(kind: EConnectFailure) -> (r: bool)
        ensures
            r == is_transient_failure(kind),
    {
        match kind {
            EConnectFailure::Other => false,
            _ => true,
        }
    }

    /// Checks that an address to bind or to connect to is on the loopback interface.
    ///
    /// # Errors
    /// Refuses external addresses; the exact restriction to `127.0.0.1` is in
    /// [`crate::CConfig`].
    pub fn require_loopback(address: ESocketAddr) -> (r: Result<(), String>)
        ensures
            r is Ok <==> is_loopback_ip(address.ip),
            r matches Err(e) ==> e@ == loopback_text(),
    {
        if address.is_loopback() {
            Ok(())
        } else {
            Err(String::from_str("è richiesto un indirizzo di loopback"))
        }
    }
}

/// A refused, timed-out, reset or unconnected attempt, or one without a free local
/// port, is retried; only any other failure is not.
pub proof fn lemma_transient_failures()
    ensures
        is_transient_failure(EConnectFailure::ConnectionRefused),
        is_transient_failure(EConnectFailure::TimedOut),
        is_transient_failure(EConnectFailure::ConnectionReset),
        is_transient_failure(EConnectFailure::NotConnected),
        is_transient_failure(EConnectFailure::AddrNotAvailable),
        !is_transient_failure(EConnectFailure::Other),
        forall|k: EConnectFailure| k != EConnectFailure::Other ==> is_transient_failure(k),
{
}

} // verus!
