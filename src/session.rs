use crate::error::CaptureError;
use crate::format::normalize_to_pcm16;
use crate::format::normalized;
use crate::format::StreamFormat;
use vstd::prelude::*;

verus! {

/// Reference-time units (100 ns) in one millisecond.
pub const REFTIMES_PER_MILLISEC: u64 = 10000;

/// Reference-time units in one second.
pub const REFTIMES_PER_SEC: u64 = REFTIMES_PER_MILLISEC * 1000;

/// Where the drain loop stands while streaming, named by what it awaits.
#[derive(Clone, Copy, Debug, PartialEq, Eq, Structural)]
pub enum Step {
    /// The stop request is being read.
    Check,
    /// The worker sleeps half a polling interval.
    Sleep,
    /// The size of the next packet is being asked for.
    Query,
    /// A packet is being taken.
    Read,
    /// A packet of this many frames is being written to the sink.
    Write { frames: u32 },
    /// A packet of this many frames is being handed back.
    Release { frames: u32 },
}

/// The stage of a capture session, named by what it awaits.
#[derive(Clone, Copy, Debug, PartialEq, Eq, Structural)]
pub enum Stage {
    /// The default render endpoint is being opened.
    Created,
    /// An audio client is being activated and its mix format read.
    DeviceOpened,
    /// The client is being initialized with the negotiated format.
    FormatNegotiated,
    /// The stream is being started.
    ClientInitialized,
    Streaming(Step),
    /// The stream is being stopped.
    Stopping,
    /// The mix format's memory is being freed.
    Stopped,
    /// The session is over.
    Released,
}

/// What the host must do next on behalf of the session.
#[derive(Clone, Copy, Debug, PartialEq, Eq)]
pub enum Action {
    /// Open the default render endpoint. `Done` or `Failed`.
    OpenDevice,
    /// Activate an audio client and read its mix format. `MixFormat` or `Failed`.
    ActivateClient,
    /// Initialize the client in shared loopback mode with this format and
    /// buffer duration, then read its buffer size. `BufferFrames` or `Failed`.
    InitializeClient { format: StreamFormat, buffer_duration: u64 },
    /// Get the capture interface and start the stream. `Done` or `Failed`.
    StartStream,
    /// Read the termination flag. `StopRequested`.
    CheckTermination,
    /// Sleep this many milliseconds. `Done`.
    Sleep { millis: u64 },
    /// Ask for the size of the next packet. `NextPacketSize` or `Failed`.
    QueryPacket,
    /// Take the next packet. `PacketFrames` or `Failed`.
    ReadPacket,
    /// Copy this many bytes of the packet to the sink. `Done` or `Failed`.
    WritePacket { bytes: u64 },
    /// Hand the packet back, with this many frames consumed. `Done` or `Failed`.
    ReleasePacket { frames: u32 },
    /// Stop the stream. `Done` or `Failed`.
    StopStream,
    /// Free the mix format. `Done`.
    FreeFormat,
    /// The session is over, with this outcome.
    Finish(Result<(), CaptureError>),
}

/// What came of the last action. An event other than the one an action
/// expects counts as that action's failure.
#[derive(Clone, Copy, Debug, PartialEq, Eq, Structural)]
pub enum Event {
    Done,
    Failed,
    MixFormat(StreamFormat),
    BufferFrames(u32),
    StopRequested(bool),
    NextPacketSize(u32),
    PacketFrames(u32),
}

/// One loopback capture session, as a machine from events to actions.
#[derive(Clone, Copy, Debug, PartialEq, Eq)]
pub struct Session {
    pub stage: Stage,
    /// The mix format the platform allocated, while it is not yet freed.
    pub format: Option<StreamFormat>,
    /// Whether the stream was started, and so must be stopped.
    pub started: bool,
    /// Bytes per frame of the negotiated format.
    pub block_align: u16,
    /// Time to fill the device buffer once, in reference-time units.
    pub interval: u64,
    /// The first fatal error met, if any.
    pub error: Option<CaptureError>,
}

/// The polling interval: the time, in reference-time units, that the
/// device buffer takes to fill once.
pub open spec fn interval_of(buffer_frames: u32, samples_per_sec: u32) -> int {
    REFTIMES_PER_SEC as int * buffer_frames as int / samples_per_sec as int
}

/// The sleep between two drain passes: half the polling interval, in
/// milliseconds.
pub open spec fn sleep_millis_of(interval: u64) -> int {
    interval as int / REFTIMES_PER_MILLISEC as int / 2
}

pub open spec fn outcome(error: Option<CaptureError>) -> Result<(), CaptureError> {
    match error {
        Some(e) => Err(e),
        None => Ok(()),
    }
}

/// The session before anything was done, and its first action.
pub open spec fn initial() -> (Session, Action) {
    (
        Session {
            stage: Stage::Created,
            format: None,
            started: false,
            block_align: 0,
            interval: 0,
            error: None,
        },
        Action::OpenDevice,
    )
}

/// Winding down: stop the stream where it was started, then free the
/// format where one is held, then finish.
pub open spec fn wind_down(s: Session) -> (Session, Action) {
    if s.started {
        (Session { stage: Stage::Stopping, ..s }, Action::StopStream)
    } else {
        release(s)
    }
}

pub open spec fn release(s: Session) -> (Session, Action) {
    if s.format is Some {
        (Session { stage: Stage::Stopped, ..s }, Action::FreeFormat)
    } else {
        (Session { stage: Stage::Released, ..s }, Action::Finish(outcome(s.error)))
    }
}

/// A fatal error: it is kept unless an earlier one was, and the session
/// winds down.
pub open spec fn fail(s: Session, e: CaptureError) -> (Session, Action) {
    wind_down(Session { error: if s.error is Some { s.error } else { Some(e) }, ..s })
}

pub open spec fn streaming(s: Session, step: Step, a: Action) -> (Session, Action) {
    (Session { stage: Stage::Streaming(step), ..s }, a)
}

/// The transition of a session on an event.
pub open spec fn next(s: Session, e: Event) -> (Session, Action) {
    match s.stage {
        Stage::Created => match e {
            Event::Done => (Session { stage: Stage::DeviceOpened, ..s }, Action::ActivateClient),
            _ => fail(s, CaptureError::DeviceUnavailable),
        },
        Stage::DeviceOpened => match e {
            Event::MixFormat(f) => {
                let held = Session { format: Some(f), ..s };
                match normalized(f) {
                    Some(g) => if g.samples_per_sec == 0 {
                        fail(held, CaptureError::UnsupportedFormat)
                    } else {
                        (
                            Session {
                                stage: Stage::FormatNegotiated,
                                format: Some(g),
                                block_align: g.block_align,
                                ..s
                            },
                            Action::InitializeClient { format: g, buffer_duration: REFTIMES_PER_SEC },
                        )
                    },
                    None => fail(held, CaptureError::UnsupportedFormat),
                }
            },
            _ => fail(s, CaptureError::ActivationFailed),
        },
        Stage::FormatNegotiated => match (e, s.format) {
            (Event::BufferFrames(n), Some(f)) if f.samples_per_sec > 0 => (
                Session {
                    stage: Stage::ClientInitialized,
                    interval: interval_of(n, f.samples_per_sec) as u64,
                    ..s
                },
                Action::StartStream,
            ),
            _ => fail(s, CaptureError::InitializationFailed),
        },
        Stage::ClientInitialized => match e {
            Event::Done => streaming(
                Session { started: true, ..s },
                Step::Check,
                Action::CheckTermination,
            ),
            _ => fail(s, CaptureError::StartFailed),
        },
        Stage::Streaming(step) => match step {
            Step::Check => match e {
                Event::StopRequested(false) => streaming(
                    s,
                    Step::Sleep,
                    Action::Sleep { millis: sleep_millis_of(s.interval) as u64 },
                ),
                _ => wind_down(s),
            },
            Step::Sleep => streaming(s, Step::Query, Action::QueryPacket),
            Step::Query => match e {
                Event::NextPacketSize(n) => if n == 0 {
                    streaming(s, Step::Check, Action::CheckTermination)
                } else {
                    streaming(s, Step::Read, Action::ReadPacket)
                },
                _ => fail(s, CaptureError::PacketQueryFailed),
            },
            Step::Read => match e {
                Event::PacketFrames(n) => streaming(
                    s,
                    Step::Write { frames: n },
                    Action::WritePacket { bytes: (n as int * s.block_align as int) as u64 },
                ),
                _ => fail(s, CaptureError::PacketReadFailed),
            },
            Step::Write { frames } => match e {
                Event::Done => streaming(
                    s,
                    Step::Release { frames },
                    Action::ReleasePacket { frames },
                ),
                _ => fail(s, CaptureError::SinkWriteFailed),
            },
            Step::Release { .. } => match e {
                Event::Done => streaming(s, Step::Query, Action::QueryPacket),
                _ => fail(s, CaptureError::PacketReadFailed),
            },
        },
        Stage::Stopping => match e {
            Event::Done => release(s),
            _ => release(
                Session {
                    error: if s.error is Some { s.error } else { Some(CaptureError::StopFailed) },
                    ..s
                },
            ),
        },
        Stage::Stopped => (
            Session { stage: Stage::Released, format: None, ..s },
            Action::Finish(outcome(s.error)),
        ),
        Stage::Released => (s, Action::Finish(outcome(s.error))),
    }
}

/// The polling interval for a buffer of `buffer_frames` frames at
/// `samples_per_sec` frames a second, in reference-time units.
pub fn polling_interval(buffer_frames: u32, samples_per_sec: u32) -> (r: u64)
    requires
        samples_per_sec > 0,
    ensures
        r == interval_of(buffer_frames, samples_per_sec),
{
    assert(REFTIMES_PER_SEC as int * buffer_frames as int <= 10_000_000 * 0xFFFF_FFFF)
        by (nonlinear_arith);
    let total = REFTIMES_PER_SEC * buffer_frames as u64;
    assert(total as int / samples_per_sec as int <= total as int) by (nonlinear_arith)
        requires
            samples_per_sec > 0,
    ;
    total / samples_per_sec as u64
}

/// The sleep between two drain passes, in milliseconds.
pub fn sleep_millis(interval: u64) -> (r: u64)
    ensures
        r == sleep_millis_of(interval),
{
    interval / REFTIMES_PER_MILLISEC / 2
}

/// The bytes a packet of `frames` frames holds.
pub fn packet_bytes(frames: u32, block_align: u16) -> (r: u64)
    ensures
        r == frames * block_align,
{
    assert(frames as int * block_align as int <= 0xFFFF_FFFF * 0xFFFF) by (nonlinear_arith);
    frames as u64 * block_align as u64
}

fn outcome_of(error: Option<CaptureError>) -> (r: Result<(), CaptureError>)
    ensures
        r == outcome(error),
{
    match error {
        Some(e) => Err(e),
        None => Ok(()),
    }
}

impl Session {
    /// A new session and the first action it asks for.
    pub fn start() -> (r: (Session, Action))
        ensures
            r == initial(),
    {
        (
            Session {
                stage: Stage::Created,
                format: None,
                started: false,
                block_align: 0,
                interval: 0,
                error: None,
            },
            Action::OpenDevice,
        )
    }

    fn release(&mut self) -> (a: Action)
        ensures
            (*final(self), a) == release(*old(self)),
    {
        if self.format.is_some() {
            self.stage = Stage::Stopped;
            Action::FreeFormat
        } else {
            self.stage = Stage::Released;
            Action::Finish(outcome_of(self.error))
        }
    }

    fn wind_down(&mut self) -> (a: Action)
        ensures
            (*final(self), a) == wind_down(*old(self)),
    {
        if self.started {
            self.stage = Stage::Stopping;
            Action::StopStream
        } else {
            self.release()
        }
    }

    fn record(&mut self, e: CaptureError)
        ensures
            *final(self) == (Session {
                error: if old(self).error is Some { old(self).error } else { Some(e) },
                ..*old(self)
            }),
    {
        if self.error.is_none() {
            self.error = Some(e);
        }
    }

    fn fail(&mut self, e: CaptureError) -> (a: Action)
        ensures
            (*final(self), a) == fail(*old(self), e),
    {
        self.record(e);
        self.wind_down()
    }

    fn stream(&mut self, step: Step, a: Action) -> (r: Action)
        ensures
            (*final(self), r) == streaming(*old(self), step, a),
    {
        self.stage = Stage::Streaming(step);
        a
    }

    /// Takes the outcome of the last action and returns the next one.
    pub fn step(&mut self, event: Event) -> (a: Action)
        ensures
            (*final(self), a) == next(*old(self), event),
    {
        match self.stage {
            Stage::Created => match event {
                Event::Done => {
                    self.stage = Stage::DeviceOpened;
                    Action::ActivateClient
                },
                _ => self.fail(CaptureError::DeviceUnavailable),
            },
            Stage::DeviceOpened => match event {
                Event::MixFormat(f) => {
                    self.format = Some(f);
                    let mut g = f;
                    match normalize_to_pcm16(&mut g) {
                        Ok(()) => if g.samples_per_sec == 0 {
                            self.fail(CaptureError::UnsupportedFormat)
                        } else {
                            self.stage = Stage::FormatNegotiated;
                            self.format = Some(g);
                            self.block_align = g.block_align;
                            Action::InitializeClient { format: g, buffer_duration: REFTIMES_PER_SEC }
                        },
                        Err(e) => self.fail(e),
                    }
                },
                _ => self.fail(CaptureError::ActivationFailed),
            },
            Stage::FormatNegotiated => match (event, self.format) {
                (Event::BufferFrames(n), Some(f)) if f.samples_per_sec > 0 => {
                    self.stage = Stage::ClientInitialized;
                    self.interval = polling_interval(n, f.samples_per_sec);
                    Action::StartStream
                },
                _ => self.fail(CaptureError::InitializationFailed),
            },
            Stage::ClientInitialized => match event {
                Event::Done => {
                    self.started = true;
                    self.stream(Step::Check, Action::CheckTermination)
                },
                _ => self.fail(CaptureError::StartFailed),
            },
            Stage::Streaming(step) => match step {
                Step::Check => match event {
                    Event::StopRequested(false) => {
                        let millis = sleep_millis(self.interval);
                        self.stream(Step::Sleep, Action::Sleep { millis })
                    },
                    _ => self.wind_down(),
                },
                Step::Sleep => self.stream(Step::Query, Action::QueryPacket),
                Step::Query => match event {
                    Event::NextPacketSize(n) => if n == 0 {
                        self.stream(Step::Check, Action::CheckTermination)
                    } else {
                        self.stream(Step::Read, Action::ReadPacket)
                    },
                    _ => self.fail(CaptureError::PacketQueryFailed),
                },
                Step::Read => match event {
                    Event::PacketFrames(n) => {
                        let bytes = packet_bytes(n, self.block_align);
                        self.stream(Step::Write { frames: n }, Action::WritePacket { bytes })
                    },
                    _ => self.fail(CaptureError::PacketReadFailed),
                },
                Step::Write { frames } => match event {
                    Event::Done => self.stream(
                        Step::Release { frames },
                        Action::ReleasePacket { frames },
                    ),
                    _ => self.fail(CaptureError::SinkWriteFailed),
                },
                Step::Release { .. } => match event {
                    Event::Done => self.stream(Step::Query, Action::QueryPacket),
                    _ => self.fail(CaptureError::PacketReadFailed),
                },
            },
            Stage::Stopping => match event {
                Event::Done => self.release(),
                _ => {
                    self.record(CaptureError::StopFailed);
                    self.release()
                },
            },
            Stage::Stopped => {
                self.stage = Stage::Released;
                self.format = None;
                Action::Finish(outcome_of(self.error))
            },
            Stage::Released => Action::Finish(outcome_of(self.error)),
        }
    }
}

} // verus!
