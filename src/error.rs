use vstd::prelude::*;

verus! {

/// Why a capture session ended without success. Every one of them ends the
/// session; none is retried.
#[derive(Clone, Copy, Debug, PartialEq, Eq, Structural)]
pub enum CaptureError {
    /// No default render endpoint could be opened.
    DeviceUnavailable,
    /// The platform refused to create an audio client on the device.
    ActivationFailed,
    /// The mix format can not be brought to 16-bit PCM.
    UnsupportedFormat,
    /// The audio client could not be set up with the negotiated format.
    InitializationFailed,
    /// The capture interface could not be had or the stream did not start.
    StartFailed,
    /// Asking for the size of the next packet failed.
    PacketQueryFailed,
    /// Taking or handing back a packet failed.
    PacketReadFailed,
    /// The byte sink refused a write.
    SinkWriteFailed,
    /// Stopping the stream failed.
    StopFailed,
}

} // verus!
