//! Transports that the platform owns: what is accepted from them and how
//! their failures read.
use vstd::prelude::*;
use vstd::string::*;

use crate::api::failures::{SessionCause, SessionCauseView, SessionError, SessionErrorView};
use crate::text::joined;

verus! {

broadcast use vstd::seq_lib::group_seq_properties;

/// Bytes that were read from a stream.
#[derive(Debug, PartialEq, Eq)]
pub struct FfiNativeTransportRead {
    pub bytes: Vec<u8>,
    pub end_of_stream: bool,
}

/// What a [`FfiNativeTransportRead`] holds.
#[verifier::ext_equal]
pub struct NativeReadView {
    pub bytes: Seq<u8>,
    pub end_of_stream: bool,
}

impl View for FfiNativeTransportRead {
    type V = NativeReadView;

    open spec fn view(&self) -> NativeReadView {
        NativeReadView {
            bytes: self.bytes@,
            end_of_stream: self.end_of_stream,
        }
    }
}

impl Clone for FfiNativeTransportRead {
    fn clone(&self) -> (r: Self)
        ensures
            r@ == self@,
    {
        let r = FfiNativeTransportRead {
            bytes: self.bytes.clone(),
            end_of_stream: self.end_of_stream,
        };
        assert(r.bytes@ =~= self.bytes@);
        r
    }
}

/// A failed transport.
#[derive(Debug, PartialEq, Eq)]
pub enum FfiNativeTransportError {
    Operation { reason: String },
}

/// What a [`FfiNativeTransportError`] holds.
#[verifier::ext_equal]
pub enum TransportErrorView {
    Operation { reason: Seq<char> },
}

impl View for FfiNativeTransportError {
    type V = TransportErrorView;

    open spec fn view(&self) -> TransportErrorView {
        match *self {
            FfiNativeTransportError::Operation { reason } => TransportErrorView::Operation { reason: reason@ },
        }
    }
}

impl Clone for FfiNativeTransportError {
    fn clone(&self) -> (r: Self)
        ensures
            r == *self,
    {
        match self {
            FfiNativeTransportError::Operation { reason } => FfiNativeTransportError::Operation { reason: reason.clone() },
        }
    }
}

/// A received datagram.
#[derive(Debug, PartialEq, Eq)]
pub struct FfiNativeDatagram {
    pub bytes: Vec<u8>,
}

/// What a [`FfiNativeDatagram`] holds.
#[verifier::ext_equal]
pub struct DatagramView {
    pub bytes: Seq<u8>,
}

impl View for FfiNativeDatagram {
    type V = DatagramView;

    open spec fn view(&self) -> DatagramView {
        DatagramView {
            bytes: self.bytes@,
        }
    }
}

impl Clone for FfiNativeDatagram {
    fn clone(&self) -> (r: Self)
        ensures
            r@ == self@,
    {
        let r = FfiNativeDatagram {
            bytes: self.bytes.clone(),
        };
        assert(r.bytes@ =~= self.bytes@);
        r
    }
}

/// Bytes that the engine takes from a stream.
#[derive(Debug, PartialEq, Eq)]
pub struct NativeTransportRead {
    pub bytes: Vec<u8>,
    pub end_of_stream: bool,
}

/// What a [`NativeTransportRead`] holds.
#[verifier::ext_equal]
pub struct EngineReadView {
    pub bytes: Seq<u8>,
    pub end_of_stream: bool,
}

impl View for NativeTransportRead {
    type V = EngineReadView;

    open spec fn view(&self) -> EngineReadView {
        EngineReadView {
            bytes: self.bytes@,
            end_of_stream: self.end_of_stream,
        }
    }
}

impl Clone for NativeTransportRead {
    fn clone(&self) -> (r: Self)
        ensures
            r@ == self@,
    {
        let r = NativeTransportRead {
            bytes: self.bytes.clone(),
            end_of_stream: self.end_of_stream,
        };
        assert(r.bytes@ =~= self.bytes@);
        r
    }
}

/// The session error of a transport.
pub open spec fn transport_error(detail: Seq<char>) -> SessionErrorView {
    SessionErrorView { cause: SessionCauseView::Transport { detail }, invitation_consumed: false }
}

fn transport_failure(detail: String) -> (r: SessionError)
    ensures
        r@ == transport_error(detail@),
{
    SessionError { cause: SessionCause::Transport { detail }, invitation_consumed: false }
}

/// The session error of a stream that failed.
pub open spec fn stream_error_of(error: TransportErrorView) -> SessionErrorView {
    transport_error("platform Wi-Fi Aware transport failed: "@ + error->reason)
}

/// The session error of a stream that failed.
pub fn stream_platform_error(error: &FfiNativeTransportError) -> (r: SessionError)
    ensures
        r@ == stream_error_of(error@),
{
    match error {
        FfiNativeTransportError::Operation { reason } => transport_failure(
            joined("platform Wi-Fi Aware transport failed: ", reason.as_str()),
        ),
    }
}

/// The session error of a datagram channel that failed.
pub open spec fn datagram_error_of(error: TransportErrorView) -> SessionErrorView {
    transport_error("platform Wi-Fi Aware datagram transport failed: "@ + error->reason)
}

/// The session error of a datagram channel that failed.
pub fn datagram_platform_error(error: &FfiNativeTransportError) -> (r: SessionError)
    ensures
        r@ == datagram_error_of(error@),
{
    match error {
        FfiNativeTransportError::Operation { reason } => transport_failure(
            joined("platform Wi-Fi Aware datagram transport failed: ", reason.as_str()),
        ),
    }
}

/// Takes in what a stream gave for a bounded read. More than was asked for is
/// an error.
pub fn receive(max_bytes: u32, read: Result<FfiNativeTransportRead, FfiNativeTransportError>) -> (r:
    Result<NativeTransportRead, SessionError>)
    ensures
        match read {
            Err(error) => r matches Err(e) && e@ == stream_error_of(error@),
            Ok(read) => if read@.bytes.len() > max_bytes {
                r matches Err(e) && e@ == transport_error(
                    "platform Wi-Fi Aware transport exceeded its read bound"@,
                )
            } else {
                r matches Ok(taken) && taken@.bytes == read@.bytes && taken@.end_of_stream
                    == read@.end_of_stream
            },
        },
{
    match read {
        Err(error) => Err(stream_platform_error(&error)),
        Ok(read) => if read.bytes.len() > max_bytes as usize {
            Err(
                transport_failure(
                    "platform Wi-Fi Aware transport exceeded its read bound".to_owned(),
                ),
            )
        } else {
            Ok(NativeTransportRead { bytes: read.bytes, end_of_stream: read.end_of_stream })
        },
    }
}

/// Takes in a datagram of a bounded receive. A longer one is an error.
pub fn receive_datagram(
    max_bytes: u32,
    datagram: Result<FfiNativeDatagram, FfiNativeTransportError>,
) -> (r: Result<Vec<u8>, SessionError>)
    ensures
        match datagram {
            Err(error) => r matches Err(e) && e@ == datagram_error_of(error@),
            Ok(datagram) => if datagram@.bytes.len() > max_bytes {
                r matches Err(e) && e@ == transport_error(
                    "platform Wi-Fi Aware datagram exceeded its receive bound"@,
                )
            } else {
                r matches Ok(bytes) && bytes@ == datagram@.bytes
            },
        },
{
    match datagram {
        Err(error) => Err(datagram_platform_error(&error)),
        Ok(datagram) => if datagram.bytes.len() > max_bytes as usize {
            Err(
                transport_failure(
                    "platform Wi-Fi Aware datagram exceeded its receive bound".to_owned(),
                ),
            )
        } else {
            Ok(datagram.bytes)
        },
    }
}

/// A transport that the platform owns and that failed is told as a lost transport,
/// with the platform's reason; no invitation is used up by it.
pub proof fn platform_transports_fail_as_transports(reason: Seq<char>)
    ensures
        stream_error_of(TransportErrorView::Operation { reason }) == (SessionErrorView {
            cause: SessionCauseView::Transport {
                detail: "platform Wi-Fi Aware transport failed: "@ + reason,
            },
            invitation_consumed: false,
        }),
        datagram_error_of(TransportErrorView::Operation { reason }) == (SessionErrorView {
            cause: SessionCauseView::Transport {
                detail: "platform Wi-Fi Aware datagram transport failed: "@ + reason,
            },
            invitation_consumed: false,
        }),
{
}

} // verus!
